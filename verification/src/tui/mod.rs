//! The terminal front end: its records, the computing part of its database
//! layer, text formatting, and the key handling of its screens.

pub mod model;
pub mod db;
pub mod util;
pub mod components;
