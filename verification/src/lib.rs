//! Horae: a study planner. The library holds the planner's domain model, its
//! use cases and in-memory repositories, and the decision logic of the
//! terminal front end (key handling, selection, text formatting).

pub mod text;
pub mod domain;
pub mod application;
pub mod persistence;
pub mod tui;
