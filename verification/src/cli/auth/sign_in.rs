//! `signin`: checks the credentials, sends them, and keeps the session
//! cookies when the API accepts them.
use vstd::prelude::*;

use crate::cli::auth::{check_credentials, checking_moves, password_moves, password_typed, AuthStage};
use crate::cli::command_exit::{error, success, CommandExit, ExitView};
use crate::cli::http_helper::{
    answer,
    fits,
    quiet,
    Action,
    Event,
    HttpHelper,
    Progress,
    ReadKind,
    Reply,
    Screen,
    StepView,
    Turn,
};

verus! {

/// The arguments of `signin`.
pub struct SignIn {
    pub email: String,
    pub password: Option<String>,
}

/// Where the credentials go.
pub open spec fn sign_in_path() -> Seq<char> {
    "/auth/signin"@
}

/// How the reply to signing in is read: the error body on 400, nothing
/// otherwise.
pub open spec fn sign_in_read(status: u16) -> Option<ReadKind> {
    if status == 400 {
        Some(ReadKind::SignInError)
    } else {
        None
    }
}

/// What signing in ends with: "Sign in successful" on 200, the message of
/// the error body on 400, "Failed to sign in" when that body cannot be read
/// or for any other status.
pub open spec fn sign_in_settle(status: u16, reply: Option<Reply>) -> ExitView {
    if status == 200 {
        ExitView::Success("Sign in successful"@)
    } else {
        match reply {
            Some(Reply::ErrorMessage(Some(message))) => ExitView::Error(message@),
            _ => ExitView::Error("Failed to sign in"@),
        }
    }
}

/// The move of the sign in exchange after `event`.
pub open spec fn sign_in_answer(event: Event) -> StepView<ExitView> {
    answer(
        |s: u16| sign_in_read(s),
        |s: u16, r: Option<Reply>| sign_in_settle(s, r),
        |e: ExitView| e,
        event,
    )
}

/// One move of the exchange that signs in, once the credentials were sent.
fn sign_in(event: Event) -> (res: Progress<CommandExit>)
    requires
        fits(|s: u16| sign_in_read(s), event),
        !(event is Begin),
    ensures
        crate::cli::http_helper::step_of(res, |e: CommandExit| e@) == sign_in_answer(event),
{
    match event {
        Event::Sent(sent) => match HttpHelper::request(sent) {
            Screen::Refuse(e) => Progress::Settled(e),
            Screen::ReadThenRefuse => Progress::Ongoing(Action::Read(ReadKind::Text)),
            Screen::Pass(status) => if status == 200 {
                Progress::Settled(success("Sign in successful"))
            } else if status == 400 {
                Progress::Ongoing(Action::Read(ReadKind::SignInError))
            } else {
                Progress::Settled(error("Failed to sign in"))
            },
        },
        Event::Replied(status, reply) => if status == 503 || status == 403 {
            Progress::Settled(HttpHelper::refusal(status, &reply))
        } else {
            match reply {
                Reply::ErrorMessage(Some(message)) => Progress::Settled(CommandExit::Error(message)),
                _ => Progress::Settled(error("Failed to sign in")),
            }
        },
        _ => Progress::Settled(error("Failed to sign in")),
    }
}

/// The events `signin` can see in each stage.
pub open spec fn sign_in_fits(stage: AuthStage, event: Event) -> bool {
    match stage {
        AuthStage::Checking => event is Begin,
        AuthStage::AwaitingPassword => event is Password,
        AuthStage::Sending => !(event is Begin) && fits(|s: u16| sign_in_read(s), event),
    }
}

/// `signin`: one move. The session cookies are stored exactly when the
/// API accepts the credentials.
pub fn run(sign_in_args: &SignIn, stage: AuthStage, event: Event) -> (res: (AuthStage, Turn))
    requires
        sign_in_fits(stage, event),
    ensures
        stage is Checking ==> checking_moves(
            sign_in_args.email@,
            sign_in_args.password,
            sign_in_path(),
            res,
        ),
        stage is AwaitingPassword ==> match event {
            Event::Password(Some(p)) => password_moves(sign_in_args.email@, p@, sign_in_path(), res),
            _ => res.1.action is Abort,
        },
        stage is Sending ==> match sign_in_answer(event) {
            StepView::Read(kind) => res.0 is Sending && res.1.action == Action::Read(kind),
            StepView::Settle(e) => if e is Success {
                (res.1.action matches Action::SaveCookiesAndFinish(x) && x@ == e)
            } else {
                (res.1.action matches Action::Finish(x) && x@ == e)
            },
            _ => false,
        },
{
    match stage {
        AuthStage::Checking => check_credentials(
            "/auth/signin",
            &sign_in_args.email,
            &sign_in_args.password,
        ),
        AuthStage::AwaitingPassword => match event {
            Event::Password(typed) => password_typed("/auth/signin", &sign_in_args.email, typed),
            _ => (AuthStage::AwaitingPassword, quiet(Action::Abort(String::new()))),
        },
        AuthStage::Sending => match sign_in(event) {
            Progress::Ongoing(action) => (AuthStage::Sending, quiet(action)),
            Progress::Settled(e) => match e {
                CommandExit::Success(_) => (AuthStage::Sending, quiet(Action::SaveCookiesAndFinish(e))),
                _ => (AuthStage::Sending, quiet(Action::Finish(e))),
            },
        },
    }
}

} // verus!
