//! Health-probe classification.
//!
//! The host shell probes the server's health route with a short, bounded
//! request and reports what came back as a plain outcome: the response's
//! status code, or the fact that no response arrived (connection refused,
//! timeout, or any other transport failure). This module decides what the
//! caller sees: the server counts as up exactly when a success-class
//! response arrived. A failed probe is a normal `false`, never an error.

use vstd::prelude::*;

verus! {

/// What one health probe yielded: a response with its status code, or no
/// response at all.
#[derive(Clone, Copy, Debug, PartialEq, Eq, Structural)]
pub enum ProbeOutcome {
    Response(u16),
    Unreachable,
}

/// A success-class response status.
pub open spec fn is_success_status(code: u16) -> bool {
    200 <= code < 300
}

/// What the caller is told: the server is up exactly when the probe got a
/// success-class response.
pub fn server_is_up(outcome: &ProbeOutcome) -> (up: bool)
    ensures
        up == (outcome matches ProbeOutcome::Response(code) && is_success_status(*code)),
{
    match outcome {
        ProbeOutcome::Response(code) => 200 <= *code && *code < 300,
        ProbeOutcome::Unreachable => false,
    }
}

} // verus!
