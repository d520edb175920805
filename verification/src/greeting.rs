//! The greeting command: a pure string computation.

use vstd::prelude::*;
use vstd::string::StringExecFns;

verus! {

/// Builds the greeting for a caller-supplied name, exactly.
pub fn greet(name: &str) -> (r: String)
    ensures
        r@ == "Hello, "@ + name@ + "! You've been greeted from Rust!"@,
{
    let mut message = String::from_str("Hello, ");
    message.append(name);
    message.append("! You've been greeted from Rust!");
    message
}

} // verus!
