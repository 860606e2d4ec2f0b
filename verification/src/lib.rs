//! A safe core for a platform-provided periodic-timer facility.
//!
//! The platform's timer registry accepts a delay, a fixed native callback
//! address and one opaque context pointer, and then invokes the callback
//! repeatedly on a thread of its own.  This crate holds the verified heart of
//! a safe wrapper around such a registry: the continuation model that drives
//! rescheduling, the trampoline protocol that bridges the registry's
//! `(elapsed, context) -> next delay` convention to that model, the lifecycle
//! state machine of the handle a caller owns, and the mapping of one-shot
//! platform query results onto library errors.  The raw foreign calls
//! themselves stay outside this crate, in an unverified shell that drives
//! these functions.

pub mod query;
pub mod timer;
