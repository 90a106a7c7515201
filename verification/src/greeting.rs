//! The greeting echo.
//!
//! A stateless formatting contract: the reply wraps the caller's name in a
//! fixed salutation, with the name passed through unchanged.

use vstd::prelude::*;
use vstd::string::StringExecFns;

verus! {

/// The greeting returned for a name.
pub open spec fn greeting_of(name: Seq<char>) -> Seq<char> {
    "Hello, "@ + name + "! You've been greeted from Rust!"@
}

/// Formats the greeting for `name`.
pub fn greet(name: &str) -> (r: String)
    ensures
        r@ == greeting_of(name@),
{
    let mut s = String::from_str("Hello, ");
    s.append(name);
    s.append("! You've been greeted from Rust!");
    s
}

} // verus!
