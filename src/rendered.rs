//! A diagnostic compared by its rendering alone.
use crate::compiler_message::CompilerMessage;
use vstd::prelude::*;

verus! {

/// Two diagnostics are the same for the report when their rendered texts are
/// identical, whatever their other fields hold.
#[derive(Clone, Debug, Eq)]
pub struct Rendered {
    pub items: CompilerMessage,
}

impl Rendered {
    pub fn new(items: CompilerMessage) -> (r: Self)
        ensures
            r.items == items,
    {
        Self { items }
    }
}

impl PartialEq for Rendered {
    fn eq(&self, other: &Self) -> (r: bool)
        ensures
            r == (self.items.message.rendered@ == other.items.message.rendered@),
    {
        self.items.message.rendered == other.items.message.rendered
    }
}

impl vstd::std_specs::cmp::PartialEqSpecImpl for Rendered {
    open spec fn obeys_eq_spec() -> bool {
        true
    }

    open spec fn eq_spec(&self, other: &Rendered) -> bool {
        self.items.message.rendered@ == other.items.message.rendered@
    }
}

} // verus!
