//! Timing engine of a square-wave AM transmitter that keys the memory bus.
//!
//! A tone is played by switching a burst of memory writes on and off at audio
//! rate. This crate holds the decisions of that engine: how a tone becomes a
//! train of deadlines on the cycle counter, and how an emission worker acts on
//! each of them. Reading the counter, moving instructions between threads and
//! sleeping are left to the caller, which feeds what it observed into the state
//! machines defined here and performs the action they return.

pub mod clock;
pub mod configuration;
pub mod emission;
pub mod schedule;
pub mod schedule_laws;
pub mod scheduler;
pub mod tone;
pub mod worker;
pub mod worker_laws;
