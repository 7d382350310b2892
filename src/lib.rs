//! A real-time fan-out relay: every message a client sends is republished to
//! all connected clients through a hub of bounded per-subscriber queues, and
//! each connection batches what it writes back.
use vstd::prelude::*;

verus! {

pub mod message;
pub mod metrics;
pub mod hub;
pub mod send;
pub mod receive;
pub mod lifecycle;
pub mod server;

} // verus!
