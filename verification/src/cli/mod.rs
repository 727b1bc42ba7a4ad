//! The commands of the Pendulums command line.
pub mod activity;
pub mod auth;
pub mod clock;
pub mod command_exit;
pub mod http_helper;
pub mod note;
pub mod paint;
pub mod project;
pub mod text;

use vstd::prelude::*;

use activity::ActivityCommand;
use auth::sign_in::SignIn;
use auth::sign_up::SignUp;
use project::ProjectCommand;

verus! {

/// Where the Pendulums API listens.
pub const API_URL: &'static str = "http://localhost:1337";

/// The URL of `path` on the API.
pub fn api_url(path: &str) -> (res: String)
    ensures
        res@ == API_URL@ + path@,
{
    let mut url = command_exit::text_of(API_URL);
    url.append(path);
    url
}

/// The command line: one sub command.
pub struct Cli {
    pub command: Option<SubCommands>,
}

/// The sub commands of the command line.
pub enum SubCommands {
    /// Sign in sub command
    SignIn(SignIn),
    /// Sign up sub command
    SignUp(SignUp),
    /// Sign out sub command
    SignOut,
    /// Gets all notes
    Note,
    /// Project sub command
    Project(ProjectCommand),
    /// Activity sub command
    Activity(ActivityCommand),
}

} // verus!
