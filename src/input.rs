//! Reading a player's typed answer: one letter, in either case, with
//! surrounding whitespace allowed.
use vstd::prelude::*;

use crate::crypto::str_eq;
use crate::model::{Mode, Play};

verus! {

/// The text with leading and trailing Unicode whitespace removed.
pub uninterp spec fn trimmed(s: Seq<char>) -> Seq<char>;

/// The text in Unicode lowercase.
pub uninterp spec fn lowercased(s: Seq<char>) -> Seq<char>;

/// Relies on `str::trim`: the text without surrounding whitespace.
#[verifier::external_body]
fn trim(s: &str) -> (r: &str)
    ensures
        r@ == trimmed(s@),
{
    s.trim()
}

/// Relies on `str::to_lowercase`: the lowercase form of the text.
#[verifier::external_body]
fn to_lowercase(s: &str) -> (r: String)
    ensures
        r@ == lowercased(s@),
{
    s.to_lowercase()
}

/// The answer as the prompts compare it.
pub open spec fn normalized(s: Seq<char>) -> Seq<char> {
    lowercased(trimmed(s))
}

pub open spec fn play_of_answer(a: Seq<char>) -> Option<Play> {
    if a == seq!['r'] {
        Some(Play::Rock)
    } else if a == seq!['p'] {
        Some(Play::Paper)
    } else if a == seq!['s'] {
        Some(Play::Scissors)
    } else {
        None
    }
}

pub open spec fn mode_of_answer(a: Seq<char>) -> Option<Mode> {
    if a == seq!['s'] {
        Some(Mode::Server)
    } else if a == seq!['c'] {
        Some(Mode::Client)
    } else {
        None
    }
}

/// The choice named by a typed answer (`r`, `p` or `s`), if it names one.
pub fn parse_play(input: &str) -> (r: Option<Play>)
    ensures
        r == play_of_answer(normalized(input@)),
{
    let answer = to_lowercase(trim(input));
    proof {
        reveal_strlit("r");
        reveal_strlit("p");
        reveal_strlit("s");
        assert("r"@ =~= seq!['r']);
        assert("p"@ =~= seq!['p']);
        assert("s"@ =~= seq!['s']);
    }
    if str_eq(answer.as_str(), "r") {
        Some(Play::Rock)
    } else if str_eq(answer.as_str(), "p") {
        Some(Play::Paper)
    } else if str_eq(answer.as_str(), "s") {
        Some(Play::Scissors)
    } else {
        None
    }
}

/// The role named by a typed answer (`s` for server, `c` for client), if it names one.
pub fn parse_mode(input: &str) -> (r: Option<Mode>)
    ensures
        r == mode_of_answer(normalized(input@)),
{
    let answer = to_lowercase(trim(input));
    proof {
        reveal_strlit("s");
        reveal_strlit("c");
        assert("s"@ =~= seq!['s']);
        assert("c"@ =~= seq!['c']);
    }
    if str_eq(answer.as_str(), "s") {
        Some(Mode::Server)
    } else if str_eq(answer.as_str(), "c") {
        Some(Mode::Client)
    } else {
        None
    }
}

} // verus!
