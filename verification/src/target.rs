//! The multiplexer target that a request addresses.

use vstd::prelude::*;

verus! {

/// The target that is addressed when a request names none.
pub open spec fn default_target() -> Seq<char> {
    "0"@
}

/// The target that a request addresses: the one it names, or the default
/// where it names none.
pub open spec fn target_or_default(given: Seq<char>) -> Seq<char> {
    if given.len() == 0 {
        default_target()
    } else {
        given
    }
}

/// The default target is the one character `0`.
pub proof fn lemma_default_target()
    ensures
        default_target() == seq!['0'],
{
    reveal_strlit("0");
    assert(default_target() =~= seq!['0']);
}

/// The target to address for what a request names. It is never empty.
pub fn resolve_target(given: String) -> (target: String)
    ensures
        target@ == target_or_default(given@),
        target@.len() > 0,
{
    proof {
        lemma_default_target();
    }
    if given.as_str().is_empty() {
        String::from_str("0")
    } else {
        given
    }
}

} // verus!
