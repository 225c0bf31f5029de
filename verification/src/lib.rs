//! An in-memory task registry with a single mutation, `create_task`, and the
//! shaping of its result for a request/response layer.
//!
//! - [`task`]: the task record.
//! - [`registry`]: the collection of tasks with its id counter, and `create_task`.
//! - [`history`]: what holds of every sequence of calls: ids are unique and
//!   increase, nothing is lost, changed or deduplicated.
//! - [`response`]: the success payload and its confirmation message.
//! - [`operation`]: the `add_task` request, its handler, and its description
//!   for discovery.
//! - [`decimal`]: decimal notation, for the id in the message.
//!
//! The registry does no I/O and takes no lock. A mutation needs `&mut`, so
//! callers that share a registry serialise their calls with one lock around
//! the whole of it.

pub mod decimal;
pub mod history;
pub mod operation;
pub mod registry;
pub mod response;
pub mod task;
