//! Background synchronisation between a host's shared record tables and its
//! change-event bus.
//!
//! The host owns two fixed-capacity tables of versioned records and a bounded
//! bus of change events. Two workers run beside it: a reader that drains the
//! bus and looks up the record each event names, and a writer that on a fixed
//! cadence stores a fresh order under the next version and announces it. Both
//! workers are state machines: they are told what happened and answer with
//! what to do next, so the thread, the clock and the host's memory stay with
//! the caller.

pub mod bus;
pub mod fence;
pub mod host;
pub mod lifecycle;
pub mod names;
pub mod poll;
pub mod reader;
pub mod records;
pub mod rng;
pub mod runs;
pub mod store;
pub mod writer;
