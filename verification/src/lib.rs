//! A single-tenant SSH local-port-forwarding (tunnel) manager.
//!
//! The library holds the verified core: the lifecycle controller that
//! enforces the single-instance invariant, the credential selection rule,
//! the worker's setup and accept-loop state machine, and the per-connection
//! relay decisions together with a model of what a relay delivers.
//! The surrounding program performs the actual network I/O and drives
//! these state machines.

pub mod config;
pub mod lifecycle;
pub mod relay;
pub mod worker;

use vstd::prelude::*;
use vstd::string::StringExecFns;

verus! {

/// Builds the greeting shown to a caller who pings the backend.
pub fn greet(name: &str) -> (r: String)
    ensures
        r@ == "Hello, "@ + name@ + "! You've been greeted from Rust!"@,
{
    let mut r = String::new();
    r.append("Hello, ");
    r.append(name);
    r.append("! You've been greeted from Rust!");
    proof {
        assert(r@ =~= "Hello, "@ + name@ + "! You've been greeted from Rust!"@);
    }
    r
}

} // verus!
