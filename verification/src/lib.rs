//! Execution core of a sandboxed script host: a service that owns an
//! embedded interpreter's resources, a bounded duplex pipe model used for
//! streaming with backpressure, and the streaming HTTP bridge that relays
//! request and response bodies between script and network.
use vstd::prelude::*;

pub mod bridge;
pub mod headers;
pub mod pipe;
pub mod service;

verus! {

} // verus!
