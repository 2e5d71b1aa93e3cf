//! The uniform answer of commands whose phase has not landed.

use vstd::prelude::*;

verus! {

/// `unimplemented: <what> lands in <phase>`.
pub open spec fn not_yet_text(phase: Seq<char>, what: Seq<char>) -> Seq<char> {
    "unimplemented: "@ + what + " lands in "@ + phase
}

/// The `unimplemented` message for `what`, tagged with its phase.
pub fn not_yet(phase: &str, what: &str) -> (m: String)
    ensures
        m@ == not_yet_text(phase@, what@),
{
    let mut m = String::from_str("unimplemented: ");
    m.append(what);
    m.append(" lands in ");
    m.append(phase);
    m
}

} // verus!
