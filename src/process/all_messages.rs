//! The input sorted into its three streams.
use crate::compiler_message::CompilerMessage;
use crate::process::compiler_messages::ItemTypes;
use vstd::prelude::*;

verus! {

/// The diagnostics, the plain-text lines and the decoding-failure lines of
/// the input, each in input order.
#[derive(Clone, Debug, PartialEq, Eq)]
pub struct AllMessages {
    pub compiler_messages: Vec<CompilerMessage>,
    pub stdout_lines: Vec<String>,
    pub errors: Vec<String>,
}

/// The diagnostics among the items, in order.
pub open spec fn messages_in(s: Seq<ItemTypes>) -> Seq<CompilerMessage>
    decreases s.len(),
{
    if s.len() == 0 {
        seq![]
    } else {
        match s.last() {
            ItemTypes::CompilerMessageType(cm) => messages_in(s.drop_last()).push(cm),
            _ => messages_in(s.drop_last()),
        }
    }
}

/// The plain-text lines among the items, in order.
pub open spec fn lines_in(s: Seq<ItemTypes>) -> Seq<String>
    decreases s.len(),
{
    if s.len() == 0 {
        seq![]
    } else {
        match s.last() {
            ItemTypes::StdoutLineType(line) => lines_in(s.drop_last()).push(line),
            _ => lines_in(s.drop_last()),
        }
    }
}

/// The decoding-failure lines among the items, in order.
pub open spec fn errors_in(s: Seq<ItemTypes>) -> Seq<String>
    decreases s.len(),
{
    if s.len() == 0 {
        seq![]
    } else {
        match s.last() {
            ItemTypes::ErrorType(e) => errors_in(s.drop_last()).push(e),
            _ => errors_in(s.drop_last()),
        }
    }
}

impl AllMessages {
    pub fn new() -> (r: Self)
        ensures
            r.compiler_messages@ == Seq::<CompilerMessage>::empty(),
            r.stdout_lines@ == Seq::<String>::empty(),
            r.errors@ == Seq::<String>::empty(),
    {
        AllMessages { compiler_messages: Vec::new(), stdout_lines: Vec::new(), errors: Vec::new() }
    }

    pub fn add_compiler_message(&mut self, cm: CompilerMessage)
        ensures
            final(self).compiler_messages@ == old(self).compiler_messages@.push(cm),
            final(self).stdout_lines == old(self).stdout_lines,
            final(self).errors == old(self).errors,
    {
        self.compiler_messages.push(cm)
    }

    pub fn add_stdout_line(&mut self, line: String)
        ensures
            final(self).stdout_lines@ == old(self).stdout_lines@.push(line),
            final(self).compiler_messages == old(self).compiler_messages,
            final(self).errors == old(self).errors,
    {
        self.stdout_lines.push(line)
    }

    pub fn add_error(&mut self, error: String)
        ensures
            final(self).errors@ == old(self).errors@.push(error),
            final(self).compiler_messages == old(self).compiler_messages,
            final(self).stdout_lines == old(self).stdout_lines,
    {
        self.errors.push(error)
    }
}

/// Sorts the items into the three streams, keeping the order of each.
pub fn get_all_messages(items: Vec<ItemTypes>) -> (r: AllMessages)
    ensures
        r.compiler_messages@ == messages_in(items@),
        r.stdout_lines@ == lines_in(items@),
        r.errors@ == errors_in(items@),
{
    let ghost s = items@;
    let mut acc = AllMessages::new();
    for item in it: items.into_iter()
        invariant
            it.seq() == s,
            acc.compiler_messages@ == messages_in(s.take(it.index() as int)),
            acc.stdout_lines@ == lines_in(s.take(it.index() as int)),
            acc.errors@ == errors_in(s.take(it.index() as int)),
    {
        assert(s.take(it.index() + 1).drop_last() == s.take(it.index() as int));
        match item {
            ItemTypes::CompilerMessageType(cm) => acc.add_compiler_message(cm),
            ItemTypes::StdoutLineType(line) => acc.add_stdout_line(line),
            ItemTypes::ErrorType(error) => acc.add_error(error),
        }
    }
    assert(s.take(s.len() as int) == s);
    acc
}

} // verus!
