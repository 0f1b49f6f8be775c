//! A minimal terminal input multiplexer core.
//!
//! Raw terminal events are classified by a router into keypress and click
//! signals, category listeners publish the most recent category into a single
//! shared label slot, and a printer emits the label's text each time it is
//! woken. This crate holds the verified logic of that pipeline: the event
//! model, the routing rules, the shared-slot state machine and the composed
//! end-to-end semantics. The blocking edges (terminal reads, queue transport,
//! mutex and condition variable, thread spawning) live outside the library and
//! drive it with plain values.

pub mod event;
pub mod label;
pub mod pipeline;
pub mod router;
pub mod slot;
