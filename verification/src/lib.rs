//! Unified error taxonomy and result contract for a control-plane service.
//!
//! Every fallible internal operation of the service returns [`error::ServerError`]
//! through the standard result alias, so callers have one uniform way to
//! detect, inspect, and render failures from the local I/O and HTTP transport
//! domains.

pub mod error;
