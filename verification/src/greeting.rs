//! The greeting formatter: a fixed template populated with a caller-supplied
//! name.

use vstd::prelude::*;
use vstd::string::StringExecFns;

verus! {

/// The text that stands before the name in every greeting.
pub open spec fn greeting_prefix() -> Seq<char> {
    "Hello, "@
}

/// The text that stands after the name in every greeting.
pub open spec fn greeting_suffix() -> Seq<char> {
    "! You've been greeted from Rust!"@
}

/// The greeting for a given name: the fixed template with the name spliced
/// between its prefix and its suffix.
pub open spec fn greeting_of(name: Seq<char>) -> Seq<char> {
    greeting_prefix() + name + greeting_suffix()
}

/// Formats the greeting for `name`. Deterministic, total, no failure modes.
pub fn greet(name: &str) -> (r: String)
    ensures
        r@ == greeting_of(name@),
{
    let mut s = String::from_str("Hello, ");
    s.append(name);
    s.append("! You've been greeted from Rust!");
    proof {
        assert(s@ =~= greeting_of(name@));
    }
    s
}

/// The greeting contains the name as a literal substring, and around it the
/// template stands unchanged: the part before the name is the fixed prefix
/// and the part after it is the fixed suffix.
pub proof fn lemma_greeting_contains_name(name: Seq<char>)
    ensures
        greeting_of(name).len() == greeting_prefix().len() + name.len()
            + greeting_suffix().len(),
        greeting_of(name).subrange(
            greeting_prefix().len() as int,
            greeting_prefix().len() + name.len() as int,
        ) =~= name,
        greeting_of(name).subrange(0, greeting_prefix().len() as int)
            =~= greeting_prefix(),
        greeting_of(name).subrange(
            greeting_prefix().len() + name.len() as int,
            greeting_of(name).len() as int,
        ) =~= greeting_suffix(),
{
}

} // verus!
