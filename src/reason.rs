//! The envelope that every structured build-tool record carries: the word
//! that says what kind of record it is.
use vstd::prelude::*;

verus! {

#[derive(Clone, Debug, PartialEq, Eq)]
pub struct Reason {
    pub reason: String,
}

/// How a reason is shown: `Reason(<word>)`.
pub open spec fn reason_text(reason: Seq<char>) -> Seq<char> {
    "Reason("@ + reason + ")"@
}

impl Reason {
    pub fn new(reason: String) -> (r: Self)
        ensures
            r.reason == reason,
    {
        Reason { reason }
    }

    /// The reason as text, `Reason(<word>)`.
    pub fn to_text(&self) -> (r: String)
        ensures
            r@ == reason_text(self.reason@),
    {
        let r = String::from_str("Reason(");
        let r = r.concat(self.reason.as_str());
        r.concat(")")
    }
}

} // verus!
