//! Text as sequences of characters: the fixed names and the predicates that
//! the contracts of this crate are written in.

use vstd::prelude::*;
use vstd::string::*;

verus! {

/// The backend that is used when the command line names none.
pub const DEFAULT_URI: &'static str = "redis://127.0.0.1";

/// The key that the round-trip self-test writes and reads back.
pub const TEST_KEY: &'static str = "key";

/// The value that the round-trip self-test writes.
pub const TEST_VALUE: &'static str = "value";

/// The channel that the tool publishes on and subscribes to.
pub const CHANNEL: &'static str = "redis_channel";

/// `needle` stands in `hay` at index `at`.
pub open spec fn occurs_at(hay: Seq<char>, needle: Seq<char>, at: int) -> bool {
    &&& 0 <= at
    &&& at + needle.len() <= hay.len()
    &&& hay.subrange(at, at + needle.len()) == needle
}

/// `needle` stands somewhere in `hay`.
pub open spec fn contains_text(hay: Seq<char>, needle: Seq<char>) -> bool {
    exists|at: int| occurs_at(hay, needle, at)
}

/// `hay` begins with `prefix`.
pub open spec fn starts_with(hay: Seq<char>, prefix: Seq<char>) -> bool {
    occurs_at(hay, prefix, 0)
}

/// Whether two string slices hold the same characters.
pub fn same_text(a: &str, b: &str) -> (same: bool)
    ensures
        same == (a@ == b@),
{
    String::from_str(a) == String::from_str(b)
}

/// `head` followed by `tail`, as a new string.
pub fn join(head: &str, tail: &str) -> (joined: String)
    ensures
        joined@ == head@ + tail@,
{
    String::from_str(head).concat(tail)
}

/// Text that stands after a prefix still contains whatever it contained
/// before, shifted by the prefix's length.
pub proof fn lemma_contains_after_prefix(prefix: Seq<char>, hay: Seq<char>, needle: Seq<char>)
    requires
        contains_text(hay, needle),
    ensures
        contains_text(prefix + hay, needle),
{
    let at = choose|at: int| occurs_at(hay, needle, at);
    let whole = prefix + hay;
    assert(whole.subrange(prefix.len() + at, prefix.len() + at + needle.len()) =~= hay.subrange(
        at,
        at + needle.len(),
    ));
    assert(occurs_at(whole, needle, prefix.len() + at));
}

/// Text begins with the prefix it was built on.
pub proof fn lemma_starts_with_prefix(prefix: Seq<char>, rest: Seq<char>)
    ensures
        starts_with(prefix + rest, prefix),
{
    assert((prefix + rest).subrange(0, prefix.len() as int) =~= prefix);
}

} // verus!
