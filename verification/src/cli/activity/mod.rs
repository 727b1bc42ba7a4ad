//! The `activity` commands.
pub mod activity_helper;
pub mod delete_activity;
pub mod get_activities_log;
pub mod get_current_activity;
pub mod start_activity;
pub mod stop_current_activity;
pub mod update_activity;
pub mod update_current_activity;

use vstd::prelude::*;

use start_activity::StartActivityArgs;
use update_activity::UpdateActivityArgs;

verus! {

/// The `activity` command: one of its sub commands.
pub struct ActivityCommand {
    pub sub_command: Option<ActivitySubCommands>,
}

/// The sub commands of `activity`.
pub enum ActivitySubCommands {
    /// Retrieve the status of current activity
    Status,
    /// Start new activity
    Start(StartActivityArgs),
    /// Update an activity
    Update(UpdateActivityArgs),
    /// Stop the current activity
    StopCurrentActivity,
}

} // verus!
