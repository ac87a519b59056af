//! Shared core library: a verified resource governor with its surrounding
//! support types.
//!
//! The centrepiece is the resource governor in [`governor`]: a gate that
//! admits or throttles units of work according to configurable limits on
//! concurrency, CPU usage, RAM usage and I/O rate, with pause/resume and a
//! deterministic execution mode. Its state transitions are specified and
//! verified here; the asynchronous plumbing that shares the state between
//! tasks lives outside the verified core.

use vstd::prelude::*;

pub mod config;
pub mod crypto;
pub mod error;
pub mod governor;
pub mod logging;
pub mod plugin;
pub mod rng;
pub mod systems;
pub mod text;
pub mod types;

verus! {

} // verus!
