//! The greeting that the application's one command hands to its front end.

use vstd::prelude::*;
use vstd::string::StringExecFns;

verus! {

/// The text of the greeting for `name`: the name set between a fixed opening
/// and a fixed closing, with nothing added, removed or escaped.
pub open spec fn greeting_text(name: Seq<char>) -> Seq<char> {
    "Hello, "@ + name + "! You've been greeted from Rust!"@
}

/// Greets `name`. Every string is accepted, the empty one included.
pub fn greet(name: &str) -> (greeting: String)
    ensures
        greeting@ == greeting_text(name@),
{
    let mut greeting = String::from_str("Hello, ");
    greeting.append(name);
    greeting.append("! You've been greeted from Rust!");
    greeting
}

/// Greeting is a function of the name: whenever two strings are each what
/// `greet` promises for one and the same name, they hold the same text.
pub proof fn greet_twice_agrees(name: &str, first: String, second: String)
    requires
        first@ == greeting_text(name@),
        second@ == greeting_text(name@),
    ensures
        first@ == second@,
{
}

} // verus!
