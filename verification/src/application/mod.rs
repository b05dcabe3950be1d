//! The planner's use cases, the repository ports they use, and the
//! container that wires them to repositories.

pub mod helpers;
pub mod session;
pub mod study_block;
pub mod subject;
pub mod task;
pub mod container;
