use vstd::prelude::*;

verus! {

/// The greeting returned for `name`: the name is inserted verbatim between a
/// fixed opening and a fixed closing text.
pub open spec fn greeting(name: Seq<char>) -> Seq<char> {
    "Hello, "@ + name + "! You've been greeted from Rust!"@
}

/// The command exposed to the front end: greets `name`, whatever it holds.
pub fn greet(name: &str) -> (r: String)
    ensures
        r@ == greeting(name@),
{
    let mut r = String::from_str("Hello, ");
    r.append(name);
    r.append("! You've been greeted from Rust!");
    r
}

/// The greeting depends on the name alone: two calls with the same name give
/// the same text, and the name can be read back from the text between the
/// fixed opening and closing.
pub proof fn lemma_greeting_pure(a: Seq<char>, b: Seq<char>)
    ensures
        a == b ==> greeting(a) == greeting(b),
        greeting(a) == greeting(b) ==> a == b,
{
    let pre = "Hello, "@;
    let post = "! You've been greeted from Rust!"@;
    if greeting(a) == greeting(b) {
        assert(greeting(a).len() == greeting(b).len());
        assert(a =~= greeting(a).subrange(pre.len() as int, (pre.len() + a.len()) as int));
        assert(b =~= greeting(b).subrange(pre.len() as int, (pre.len() + b.len()) as int));
    }
}

} // verus!
