//! In-memory repositories: each keeps its records in a [`store::Store`].

pub mod store;
pub mod records;
pub mod session;
pub mod study_block;
pub mod task;
pub mod subject;
