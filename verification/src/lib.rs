//! Process-lifecycle supervisor for a bundled background server.
//!
//! The library holds the decision logic of a supervisor that launches a
//! sidecar server process, watches its output for a readiness banner,
//! relays lifecycle notifications, stops the process on demand, and
//! classifies an out-of-band health probe. All process spawning, killing,
//! network probing and event delivery is performed by an unverified host
//! shell around this crate; the library computes every decision and every
//! message from plain values and is verified to do so correctly.

use vstd::prelude::*;

pub mod decode;
pub mod health;
pub mod laws;
pub mod messages;
pub mod monitor;
pub mod readiness;
pub mod registry;

verus! {

/// Builds the greeting shown by the host shell's demo command.
pub fn greet(name: &str) -> (greeting: String)
    ensures
        greeting@ == "Hello, "@ + name@ + "! You've been greeted from Rust!"@,
{
    let mut greeting = String::from_str("Hello, ");
    greeting.append(name);
    greeting.append("! You've been greeted from Rust!");
    greeting
}

} // verus!
