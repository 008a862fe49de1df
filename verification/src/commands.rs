//! The commands that the desktop client's front end invokes.
use vstd::prelude::*;

verus! {

/// The greeting for `name`.
pub open spec fn greeting(name: Seq<char>) -> Seq<char> {
    "Hello, "@ + name + "! You've been greeted from Rust!"@
}

/// Greets `name`.
pub fn greet(name: &str) -> (message: String)
    ensures
        message@ == greeting(name@),
        message@ == "Hello, "@ + name@ + "! You've been greeted from Rust!"@,
{
    String::from_str("Hello, ").concat(name).concat("! You've been greeted from Rust!")
}

/// The greeting holds the whole name, unchanged, after "Hello, " (for any
/// name, whatever its characters), so different names get different
/// greetings.
pub proof fn lemma_greeting_holds_name(a: Seq<char>, b: Seq<char>)
    ensures
        greeting(a).len() == "Hello, "@.len() + a.len() + "! You've been greeted from Rust!"@.len(),
        greeting(a).subrange("Hello, "@.len() as int, ("Hello, "@.len() + a.len()) as int) == a,
        greeting(a) == greeting(b) ==> a == b,
{
    let h = "Hello, "@;
    let t = "! You've been greeted from Rust!"@;
    assert((h + a + t).subrange(h.len() as int, (h.len() + a.len()) as int) =~= a);
    assert((h + b + t).subrange(h.len() as int, (h.len() + b.len()) as int) =~= b);
    if greeting(a) == greeting(b) {
        assert(a.len() == b.len());
    }
}

} // verus!
