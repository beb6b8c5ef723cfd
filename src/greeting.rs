use vstd::prelude::*;
use vstd::string::StringExecFns;

verus! {

/// The text placed before the name.
pub open spec fn greeting_prefix() -> Seq<char> {
    "Hello, "@
}

/// The text placed after the name.
pub open spec fn greeting_suffix() -> Seq<char> {
    "! You've been greeted from Rust!"@
}

/// The greeting for `name`: the name embedded verbatim between the prefix and the suffix.
pub open spec fn greeting_of(name: Seq<char>) -> Seq<char> {
    greeting_prefix() + name + greeting_suffix()
}

/// `s` begins with `p`.
pub open spec fn starts_with(s: Seq<char>, p: Seq<char>) -> bool {
    p.len() <= s.len() && s.subrange(0, p.len() as int) == p
}

/// `s` finishes with `p`.
pub open spec fn ends_with(s: Seq<char>, p: Seq<char>) -> bool {
    p.len() <= s.len() && s.subrange(s.len() - p.len(), s.len() as int) == p
}

/// `t` occurs in `s` as a contiguous run of characters.
pub open spec fn contains(s: Seq<char>, t: Seq<char>) -> bool {
    exists|i: int| 0 <= i && i + t.len() <= s.len() && #[trigger] s.subrange(i, i + t.len()) == t
}

/// The greeting is a function of the name alone: greeting the same name twice gives
/// the same text, whatever was greeted in between.
pub proof fn lemma_greeting_deterministic(a: Seq<char>, b: Seq<char>)
    requires
        a == b,
    ensures
        greeting_of(a) == greeting_of(b),
{
}

/// Every greeting begins with "Hello, ", finishes with "!", and holds the name as a
/// contiguous run, right after the prefix.
pub proof fn lemma_greeting_shape(name: Seq<char>)
    ensures
        starts_with(greeting_of(name), "Hello, "@),
        ends_with(greeting_of(name), "!"@),
        ends_with(greeting_of(name), greeting_suffix()),
        contains(greeting_of(name), name),
        greeting_of(name).subrange(
            greeting_prefix().len() as int,
            (greeting_prefix().len() + name.len()) as int,
        ) == name,
{
    reveal_strlit("Hello, ");
    reveal_strlit("!");
    reveal_strlit("! You've been greeted from Rust!");
    let g = greeting_of(name);
    let p = greeting_prefix();
    let q = greeting_suffix();
    assert(g.subrange(0, p.len() as int) =~= p);
    assert(g.subrange(g.len() - 1, g.len() as int) =~= "!"@);
    assert(g.subrange(g.len() - q.len(), g.len() as int) =~= q);
    assert(g.subrange(p.len() as int, (p.len() + name.len()) as int) =~= name);
}

/// Builds the greeting for `name`, character for character.
pub fn greet(name: &str) -> (r: String)
    ensures
        r@ == greeting_of(name@),
{
    let mut r = String::from_str("Hello, ");
    r.append(name);
    r.append("! You've been greeted from Rust!");
    r
}

} // verus!
