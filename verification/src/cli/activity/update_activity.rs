//! The arguments of `activity update`.
use vstd::prelude::*;

verus! {

/// The arguments of `activity update`.
pub struct UpdateActivityArgs {
    pub current: bool,
    pub name: String,
    pub id: Option<String>,
    pub started_at: Option<String>,
    pub stopped_at: Option<String>,
}

} // verus!
