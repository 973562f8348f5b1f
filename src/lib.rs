//! Synchronisation primitives modelled as verified state machines (a counting
//! semaphore, a bounded channel built on it, and Lamport's bakery lock), together
//! with a handful of small worked examples on ownership, errors and idioms.
//!
//! The primitives keep every decision in this crate: a blocking runtime holds the
//! state behind its own mutex or shared memory, performs the waiting, and asks the
//! state machine what happens next.

pub mod semaphore;
pub mod channel;
pub mod bakery;
pub mod idioms;
pub mod error_handling;
pub mod foundation;
pub mod zoo;
pub mod interior_mutability;
pub mod types;
