//! The two greeting commands.

use vstd::prelude::*;
use vstd::string::StringExecFns;

verus! {

/// The text that precedes the name in a greeting.
pub open spec fn greeting_prefix() -> Seq<char> {
    "Hello, "@
}

/// The text that follows the name in a greeting.
pub open spec fn greeting_suffix() -> Seq<char> {
    "! You've been greeted from Rust!"@
}

/// The greeting for `name`: prefix, the name as given, suffix.
pub open spec fn greeting_for(name: Seq<char>) -> Seq<char> {
    greeting_prefix() + name + greeting_suffix()
}

/// The fixed text of the hello-world command.
pub open spec fn hello_world_text() -> Seq<char> {
    "Hello World from Rust!"@
}

/// Formats `name` into the greeting. The name is taken as it is: no
/// trimming, no escaping, and the empty name is greeted too.
pub fn greet(name: &str) -> (greeting: String)
    ensures
        greeting@ == greeting_for(name@),
{
    let mut greeting = String::from_str("Hello, ");
    greeting.append(name);
    greeting.append("! You've been greeted from Rust!");
    greeting
}

/// Returns the fixed hello-world text.
pub fn hello_world() -> (text: String)
    ensures
        text@ == hello_world_text(),
{
    String::from_str("Hello World from Rust!")
}

} // verus!
