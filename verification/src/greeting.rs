//! The one command the embedded window content can invoke: a greeting
//! formatted from the caller's name.

use vstd::prelude::*;

verus! {

/// The characters of the greeting for `name`: the fixed template with `name`
/// substituted verbatim.
pub open spec fn greeting_of(name: Seq<char>) -> Seq<char> {
    "Hello, "@ + name + "! You've been greeted from Rust!"@
}

/// Build the greeting for `name`. Total: every string is accepted, the empty
/// string included; deterministic; no side effects.
pub fn greet(name: &str) -> (r: String)
    ensures
        r@ == greeting_of(name@),
{
    let mut r = String::from_str("Hello, ");
    r.append(name);
    r.append("! You've been greeted from Rust!");
    r
}

} // verus!
