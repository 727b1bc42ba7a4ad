//! Requests to the Pendulums API and the moves of a command around them.
//!
//! A command is a step function: the caller hands it what happened (an
//! `Event`) and performs what it answers (an `Action`): send a request, read
//! the body of the reply, prompt the user, or finish. One request and the
//! reading of its reply form an exchange; `HttpHelper::request` screens every
//! reply before the command sees it.
use vstd::prelude::*;

use crate::cli::activity::get_activities_log::{Activity, LogActivitiesQueryParams};
use crate::cli::activity::get_current_activity::CurrentActivity;
use crate::cli::activity::start_activity::ActivityDTO as NewActivityDTO;
use crate::cli::activity::stop_current_activity::{SyncActivitiesDTO, UpdateActivityDTO};
use crate::cli::activity::update_current_activity::UpdateCurrentActivityDTO;
use crate::cli::auth::Credentials;
use crate::cli::command_exit::{error, CommandExit, ExitView};
use crate::cli::note::get_notes::Note;
use crate::cli::project::create_project::CreateProjectDTO;
use crate::cli::project::Project;

verus! {

/// The HTTP method of a request.
#[derive(Debug, Clone, Copy, PartialEq, Eq, Structural)]
pub enum Method {
    Get,
    Post,
    Put,
    Delete,
}

/// The JSON body of a request.
pub enum Payload {
    Empty,
    Credentials(Credentials),
    StartActivity(NewActivityDTO),
    StopActivity(UpdateActivityDTO),
    SyncActivities(SyncActivitiesDTO),
    UpdateCurrentActivity(UpdateCurrentActivityDTO),
    CreateProject(CreateProjectDTO),
}

/// A request to the API: method, full URL, query parameters and body.
pub struct HttpRequest {
    pub method: Method,
    pub url: String,
    pub query: Option<LogActivitiesQueryParams>,
    pub payload: Payload,
}

/// How the body of a reply is to be read: as text, or as the JSON of one
/// of the shapes the API answers with.
#[derive(Debug, Clone, Copy, PartialEq, Eq, Structural)]
pub enum ReadKind {
    Text,
    CurrentActivity,
    Activities,
    Notes,
    Projects,
    /// `{ "type": .., "message": .. }`
    SignInError,
    /// `{ "errorCode": .., "message": .. }`
    SignUpError,
}

/// A body as it was read: `None` when reading or decoding it failed.
pub enum Reply {
    Text(Option<String>),
    CurrentActivity(Option<CurrentActivity>),
    Activities(Option<Vec<Activity>>),
    Notes(Option<Vec<Note>>),
    Projects(Option<Vec<Project>>),
    /// The message of an error body (either error shape).
    ErrorMessage(Option<String>),
}

/// `reply` is what reading a body the way `kind` says can give.
pub open spec fn answers(kind: ReadKind, reply: Reply) -> bool {
    match kind {
        ReadKind::Text => reply is Text,
        ReadKind::CurrentActivity => reply is CurrentActivity,
        ReadKind::Activities => reply is Activities,
        ReadKind::Notes => reply is Notes,
        ReadKind::Projects => reply is Projects,
        ReadKind::SignInError => reply is ErrorMessage,
        ReadKind::SignUpError => reply is ErrorMessage,
    }
}

/// What happened since the last move of a command.
pub enum Event {
    /// The command starts.
    Begin,
    /// The request was sent: the status of the reply, `None` when it could
    /// not be sent.
    Sent(Option<u16>),
    /// The body of the reply with this status was read.
    Replied(u16, Reply),
    /// The password typed at the prompt, `None` when reading it failed.
    Password(Option<String>),
    /// The option chosen at a selection prompt, `None` when the prompt failed.
    Picked(Option<usize>),
    /// The answer to a yes/no prompt, `None` when the prompt failed.
    Confirmed(Option<bool>),
}

/// What the command asks the caller to do next.
pub enum Action {
    /// Send this request.
    Send(HttpRequest),
    /// Read the body of the reply just received.
    Read(ReadKind),
    /// Read a password from the terminal without echo.
    AskPassword,
    /// Let the user choose one of the options.
    Pick(String, Vec<String>),
    /// Ask "Load more?", yes by default.
    ConfirmLoadMore,
    /// End the command.
    Finish(CommandExit),
    /// Store the session cookies, then end the command.
    SaveCookiesAndFinish(CommandExit),
    /// Delete the stored session cookies, then end the command.
    ForgetCookiesAndFinish(CommandExit),
    /// Stop the program with this panic message.
    Abort(String),
}

/// One move of a command: text to print as it is (`print!`), then an action.
pub struct Turn {
    pub print: String,
    pub action: Action,
}

/// Where an exchange stands after an event: still going, with the next
/// action, or settled with its result.
pub enum Progress<T> {
    Ongoing(Action),
    Settled(T),
}

/// The shape of a move of an exchange, with the result seen through a view.
pub enum StepView<V> {
    Send,
    Read(ReadKind),
    Settle(V),
    Other,
}

/// The shape of `p`, its result seen through `view`.
pub open spec fn step_of<T, V>(p: Progress<T>, view: spec_fn(T) -> V) -> StepView<V> {
    match p {
        Progress::Ongoing(Action::Send(_)) => StepView::Send,
        Progress::Ongoing(Action::Read(k)) => StepView::Read(k),
        Progress::Ongoing(_) => StepView::Other,
        Progress::Settled(t) => StepView::Settle(view(t)),
    }
}

/// The shape of a move that ends with `Finish`, the error seen by its view.
pub open spec fn turn_view(t: Turn) -> StepView<ExitView> {
    match t.action {
        Action::Send(_) => StepView::Send,
        Action::Read(k) => StepView::Read(k),
        Action::Finish(e) => StepView::Settle(e@),
        _ => StepView::Other,
    }
}

/// A `CommandExit` seen by its view.
pub open spec fn exit_view(e: CommandExit) -> ExitView {
    e@
}

/// A result whose error is a `CommandExit`, the error seen by its view.
pub open spec fn result_view<T>(r: Result<T, CommandExit>) -> Result<T, ExitView> {
    match r {
        Ok(t) => Ok(t),
        Err(e) => Err(e@),
    }
}

/// The statuses that the helper refuses for every command, after reading
/// the body as text: 503 (too many sign in attempts) and 403 (not signed in).
pub open spec fn refused_status(status: u16) -> bool {
    status == 503 || status == 403
}

/// The error of a request that could not be sent.
pub open spec fn no_connection() -> ExitView {
    ExitView::Error("No internet connection!"@)
}

/// The error for a refused status, `text_read` telling whether its body
/// could be read.
pub open spec fn refusal(status: u16, text_read: bool) -> ExitView {
    if !text_read {
        ExitView::Error("Failed to sign in"@)
    } else if status == 503 {
        ExitView::Error("You have reached the authentication limits, please try in a few minutes!"@)
    } else {
        ExitView::Error("You need to sign in first!"@)
    }
}

/// Whether a text body was read.
pub open spec fn text_read(reply: Reply) -> bool {
    reply matches Reply::Text(Some(_))
}

/// `event` is one that an exchange reading bodies as `read` says can see:
/// the start, the status of the request, or a body read the way the
/// exchange asked for it.
pub open spec fn fits(read: spec_fn(u16) -> Option<ReadKind>, event: Event) -> bool {
    match event {
        Event::Begin => true,
        Event::Sent(_) => true,
        Event::Replied(status, reply) => if refused_status(status) {
            reply is Text
        } else {
            read(status) matches Some(kind) && answers(kind, reply)
        },
        _ => false,
    }
}

/// The move of an exchange after its request was sent. The helper refuses
/// a failed send and the statuses 503 and 403 for every command; for any
/// other status the command reads the body as `read` says, or settles at
/// once when it reads none; `settle` is what it makes of the status and
/// the body, `refused` what it makes of an error of the helper.
pub open spec fn answer<V>(
    read: spec_fn(u16) -> Option<ReadKind>,
    settle: spec_fn(u16, Option<Reply>) -> V,
    refused: spec_fn(ExitView) -> V,
    event: Event,
) -> StepView<V> {
    match event {
        Event::Sent(None) => StepView::Settle(refused(no_connection())),
        Event::Sent(Some(status)) => if refused_status(status) {
            StepView::Read(ReadKind::Text)
        } else {
            match read(status) {
                Some(kind) => StepView::Read(kind),
                None => StepView::Settle(settle(status, None)),
            }
        },
        Event::Replied(status, reply) => if refused_status(status) {
            StepView::Settle(refused(refusal(status, text_read(reply))))
        } else {
            StepView::Settle(settle(status, Some(reply)))
        },
        _ => StepView::Send,
    }
}

/// Every exchange answers the helper's refusals alike, whatever the
/// command: a request that could not be sent ends with "No internet
/// connection!"; a 503 or a 403 has its body read as text and then ends
/// with "You have reached the authentication limits, please try in a few
/// minutes!" (503) or "You need to sign in first!" (403), or with "Failed to
/// sign in" when that body could not be read. Each command passes these
/// errors through `refused`.
pub proof fn lemma_refusals_are_shared<V>(
    read: spec_fn(u16) -> Option<ReadKind>,
    settle: spec_fn(u16, Option<Reply>) -> V,
    refused: spec_fn(ExitView) -> V,
    status: u16,
    body: Option<String>,
)
    ensures
        answer(read, settle, refused, Event::Sent(None)) == StepView::Settle(
            refused(ExitView::Error("No internet connection!"@)),
        ),
        refused_status(status) ==> answer(read, settle, refused, Event::Sent(Some(status)))
            == StepView::<V>::Read(ReadKind::Text),
        answer(read, settle, refused, Event::Replied(403, Reply::Text(body))) == StepView::Settle(
            refused(
                if body is Some {
                    ExitView::Error("You need to sign in first!"@)
                } else {
                    ExitView::Error("Failed to sign in"@)
                },
            ),
        ),
        answer(read, settle, refused, Event::Replied(503, Reply::Text(body))) == StepView::Settle(
            refused(
                if body is Some {
                    ExitView::Error(
                        "You have reached the authentication limits, please try in a few minutes!"@,
                    )
                } else {
                    ExitView::Error("Failed to sign in"@)
                },
            ),
        ),
{
}

/// What the helper makes of a sent request.
pub enum Screen {
    /// The command decides on this status.
    Pass(u16),
    /// Read the body as text, then refuse with `HttpHelper::refusal`.
    ReadThenRefuse,
    /// The request fails with this error.
    Refuse(CommandExit),
}

/// The checks that every request to the API goes through.
pub struct HttpHelper {}

impl HttpHelper {
    /// Screens the outcome of sending a request: `None` when it could not
    /// be sent, else the status of the reply.
    pub fn request(sent: Option<u16>) -> (res: Screen)
        ensures
            sent is None ==> (res matches Screen::Refuse(e) && e@ == no_connection()),
            sent matches Some(status) ==> (refused_status(status) <==> res is ReadThenRefuse),
            sent matches Some(status) ==> (!refused_status(status) ==> res == Screen::Pass(status)),
    {
        match sent {
            None => Screen::Refuse(error("No internet connection!")),
            Some(status) => if status == 503 || status == 403 {
                Screen::ReadThenRefuse
            } else {
                Screen::Pass(status)
            },
        }
    }

    /// The error for a refused status once its body was read as text.
    pub fn refusal(status: u16, reply: &Reply) -> (res: CommandExit)
        requires
            refused_status(status),
        ensures
            res@ == refusal(status, text_read(*reply)),
    {
        let read = match reply {
            Reply::Text(Some(_)) => true,
            _ => false,
        };
        if !read {
            error("Failed to sign in")
        } else if status == 503 {
            error("You have reached the authentication limits, please try in a few minutes!")
        } else {
            error("You need to sign in first!")
        }
    }
}

/// Turns the progress of an exchange that ends a command into the
/// command's move.
pub fn finish_or_continue(p: Progress<CommandExit>) -> (res: Turn)
    ensures
        res.print@ == Seq::<char>::empty(),
        p matches Progress::Ongoing(a) ==> res.action == a,
        p matches Progress::Settled(e) ==> res.action == Action::Finish(e),
{
    let print = String::new();
    match p {
        Progress::Ongoing(a) => Turn { print, action: a },
        Progress::Settled(e) => Turn { print, action: Action::Finish(e) },
    }
}

/// A move that prints nothing.
pub fn quiet(action: Action) -> (res: Turn)
    ensures
        res.print@ == Seq::<char>::empty(),
        res.action == action,
{
    Turn { print: String::new(), action }
}

} // verus!
