//! One execution of a price-feed oracle step, as a verified state machine.
//!
//! The host supplies a feed identifier as bytes; the machine asks for one
//! proxied HTTP fetch, inspects the response, asks for the payload to be read
//! as a price, and ends with exactly one report to the host (or a failure
//! that aborts before any report).
pub mod encode;
pub mod laws;
pub mod phase;
pub mod response;
pub mod text;
