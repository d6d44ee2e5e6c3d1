//! Core engine of a change-triggered document build loop.
//!
//! The library contains the verified logic of the watcher: the change
//! probe that compares filesystem modification times against a recorded
//! baseline, the classification of compiler output into errors and
//! warnings, the dispatch state machine with its bounded bibliography
//! retry protocol, and the bookkeeping for discovered and dynamically
//! registered watch targets. Filesystem access, process invocation and
//! console output live outside the library and hand it plain values.

pub mod events;
pub mod orchestrator;
pub mod output;
pub mod probe;
pub mod registry;
