//! The greeter command: a total, deterministic formatter that wraps a name in
//! a fixed greeting template.

use vstd::prelude::*;

verus! {

/// The fixed shape of every greeting: a prefix, the name, and a suffix.
pub open spec fn greeting_of(name: Seq<char>) -> Seq<char> {
    "Hello, "@ + name + "! You've been greeted from Rust!"@
}

/// Formats the greeting for `name`. Total: every name is accepted, the empty
/// one included, and the result is exactly the template with `name` inside.
pub fn greet(name: &str) -> (r: String)
    ensures
        r@ == greeting_of(name@),
{
    let mut out: String = "Hello, ".to_owned();
    out.append(name);
    out.append("! You've been greeted from Rust!");
    out
}

} // verus!
