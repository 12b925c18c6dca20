//! The greeting command.

use vstd::prelude::*;

verus! {

/// The words that open every greeting.
pub const GREETING_OPENING: &'static str = "Hello, ";

/// The words that close every greeting.
pub const GREETING_CLOSING: &'static str = "! You've been greeted from Rust!";

/// The greeting for `name`: the opening words, the name as given, the closing words.
pub open spec fn greeting_of(name: Seq<char>) -> Seq<char> {
    GREETING_OPENING@ + name + GREETING_CLOSING@
}

/// `needle` stands in `hay` as one contiguous run starting at `at`.
pub open spec fn occurs_at(hay: Seq<char>, needle: Seq<char>, at: int) -> bool {
    0 <= at && at + needle.len() <= hay.len() && hay.subrange(at, at + needle.len()) == needle
}

/// `needle` stands somewhere in `hay` as one contiguous run.
pub open spec fn occurs_in(hay: Seq<char>, needle: Seq<char>) -> bool {
    exists|at: int| occurs_at(hay, needle, at)
}

/// Every greeting holds the name it was made for, unchanged and in one piece,
/// right after the opening words.
pub proof fn lemma_greeting_holds_name(name: Seq<char>)
    ensures
        occurs_at(greeting_of(name), name, GREETING_OPENING@.len() as int),
        occurs_in(greeting_of(name), name),
{
    let g = greeting_of(name);
    let at = GREETING_OPENING@.len() as int;
    assert(g.subrange(at, at + name.len()) =~= name);
    assert(occurs_at(g, name, at));
}

/// Returns the greeting for `name`. Any text is accepted as a name and kept
/// as it is.
pub fn greet(name: &str) -> (r: String)
    ensures
        r@ == greeting_of(name@),
        occurs_in(r@, name@),
{
    let opening = String::from_str(GREETING_OPENING);
    let r = opening.concat(name).concat(GREETING_CLOSING);
    proof {
        lemma_greeting_holds_name(name@);
    }
    r
}

} // verus!
