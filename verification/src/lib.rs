//! An in-process dispatch library that keeps commands, which change state,
//! apart from queries, which read it.
//!
//! One handler is registered per operation type. A bus finds the handler that
//! was registered for the type of the operation it is given, hands the
//! operation over and returns the handler's reply as it came.
//!
//! Handlers of unrelated operation types live side by side in one registry,
//! each behind an interface that hides the operation type, under the runtime
//! identity of that type. Nothing in the library waits or blocks: a handler
//! runs when it is called, and whatever it replies is what the caller gets.
//!
//! A handler reports its own failures in the error type of its operation.
//! The mechanism fails only where the application was wired wrongly. An
//! operation may be dispatched only when a handler is registered for its
//! type, which a bus tells on request. When a hidden value turns out to have
//! an unexpected type, the dispatch ends in a `MechanismFailure`, and a
//! caller is expected to stop on it.

pub mod command;
pub mod erasure;
pub mod failure;
pub mod query;
pub mod registry;
pub mod table;
