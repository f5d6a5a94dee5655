//! The sleeping teaching assistant: one TA, a row of hallway chairs, and a
//! roster of students who each need a fixed number of help sessions.
//!
//! The office is a single owned state object. Every operation on it is one
//! atomic step of the coordination protocol, and each step is verified to keep
//! the office well formed.
pub mod events;
pub mod laws;
pub mod ledger;
pub mod model;
pub mod office;
pub mod progress;
pub mod safety;
pub mod semaphore;
pub mod waiting_room;
pub mod workload;
