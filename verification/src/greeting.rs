//! The greeting command: a fixed template with the caller's name
//! interpolated.

use vstd::prelude::*;
use vstd::string::StringExecFns;

verus! {

/// The exact text the greeter returns for `name`.
pub open spec fn greeting_of(name: Seq<char>) -> Seq<char> {
    "Hello, "@ + name + "! You've been greeted from Rust!"@
}

/// Return the fixed greeting with `name` interpolated. No input is
/// rejected and no failure is possible.
pub fn greet(name: &str) -> (r: String)
    ensures
        r@ == greeting_of(name@),
{
    "Hello, ".to_owned().concat(name).concat("! You've been greeted from Rust!")
}

} // verus!
