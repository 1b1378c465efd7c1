//! Client-side synchronization layer between a front-end consumer and a
//! remote management service: a typed REST invocation layer that normalizes
//! transport and protocol failures into one error taxonomy, and an in-process
//! broadcast hub that fans state-change events out to independent subscribers.
//!
//! The HTTP exchange itself and the JSON codec are external collaborators:
//! callers perform the exchange and hand the outcome back to this library,
//! which builds the requests, interprets the outcomes, and makes every
//! decision (upsert branching, trigger variant selection, event delivery).

pub mod backend;
pub mod error;
pub mod event;
pub mod http;
pub mod hub;
pub mod manager;
pub mod network;
