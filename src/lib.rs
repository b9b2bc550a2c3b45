//! Small programs' logic with proved contracts: integer arithmetic, string
//! borrowing, enums, error handling, generic containers, traits, closures,
//! and two in-memory task stores (a task manager and a todo list) with their
//! laws.
use vstd::prelude::*;

pub mod closures;
pub mod enums;
pub mod errors;
pub mod functions;
pub mod generics;
pub mod iterators;
pub mod lifetimes;
pub mod ownership;
pub mod smart_pointers;
pub mod store_laws;
pub mod structs;
pub mod sums;
pub mod task_manager;
pub mod text;
pub mod todo;
pub mod traits;

verus! {

} // verus!
