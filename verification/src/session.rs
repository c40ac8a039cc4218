//! The greeting and the logout.
use vstd::prelude::*;

verus! {

/// The greeting for `name`: `Hello, {name}! You're ready to get started with the app!`.
pub fn greet(name: &str) -> (r: String)
    ensures
        r@ == "Hello, "@ + name@ + "! You're ready to get started with the app!"@,
{
    let mut s: String = "Hello, ".to_owned();
    s.append(name);
    s.append("! You're ready to get started with the app!");
    s
}

/// Logging out keeps no state, and always succeeds.
pub fn logout() -> (r: bool)
    ensures
        r,
{
    true
}

} // verus!
