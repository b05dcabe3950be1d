//! The computing part of the front end's database layer: the clock as the
//! database stores it, and the names under which values are stored.

use vstd::prelude::*;

use super::model::task::{priority_name, Priority};
use crate::application::helpers;

verus! {

/// The current Unix time in whole seconds, as the database stores it
/// (`as i64`).
pub fn now_secs() -> (r: i64) {
    helpers::now_secs() as i64
}

/// The name under which `p` is stored.
pub fn priority_str(p: Priority) -> (r: &'static str)
    ensures
        r@ == priority_name(p),
{
    match p {
        Priority::Low => "Low",
        Priority::Medium => "Medium",
        Priority::High => "High",
        Priority::Urgent => "Urgent",
    }
}

} // verus!
