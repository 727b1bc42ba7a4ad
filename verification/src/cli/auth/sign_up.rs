//! `signup`: checks the credentials and sends them to create an account.
use vstd::prelude::*;

use crate::cli::auth::{check_credentials, checking_moves, password_moves, password_typed, AuthStage};
use crate::cli::command_exit::{error, success, CommandExit, ExitView};
use crate::cli::http_helper::{
    answer,
    fits,
    quiet,
    step_of,
    Action,
    Event,
    HttpHelper,
    Progress,
    ReadKind,
    Reply,
    Screen,
    StepView,
    Turn,
};

verus! {

/// The arguments of `signup`.
pub struct SignUp {
    pub email: String,
    pub password: Option<String>,
}

/// Where the credentials go.
pub open spec fn sign_up_path() -> Seq<char> {
    "/auth/signup"@
}

/// How the reply to signing up is read: as text on 200, the error body on
/// 400, nothing otherwise.
pub open spec fn sign_up_read(status: u16) -> Option<ReadKind> {
    if status == 200 {
        Some(ReadKind::Text)
    } else if status == 400 {
        Some(ReadKind::SignUpError)
    } else {
        None
    }
}

/// What signing up ends with: the request to confirm the email on 200,
/// the message of the error body on 400, "Failed to sign up" when a body
/// cannot be read or for any other status.
pub open spec fn sign_up_settle(status: u16, reply: Option<Reply>) -> ExitView {
    match reply {
        Some(Reply::Text(Some(_))) => ExitView::Success(
            "Please checkout your email and confirm your email, then come back and sign in"@,
        ),
        Some(Reply::ErrorMessage(Some(message))) => ExitView::Error(message@),
        _ => ExitView::Error("Failed to sign up"@),
    }
}

/// The move of the sign up exchange after `event`.
pub open spec fn sign_up_answer(event: Event) -> StepView<ExitView> {
    answer(
        |s: u16| sign_up_read(s),
        |s: u16, r: Option<Reply>| sign_up_settle(s, r),
        |e: ExitView| e,
        event,
    )
}

/// One move of the exchange that signs up, once the credentials were sent.
fn sign_up(event: Event) -> (res: Progress<CommandExit>)
    requires
        fits(|s: u16| sign_up_read(s), event),
        !(event is Begin),
    ensures
        step_of(res, |e: CommandExit| e@) == sign_up_answer(event),
{
    match event {
        Event::Sent(sent) => match HttpHelper::request(sent) {
            Screen::Refuse(e) => Progress::Settled(e),
            Screen::ReadThenRefuse => Progress::Ongoing(Action::Read(ReadKind::Text)),
            Screen::Pass(status) => if status == 200 {
                Progress::Ongoing(Action::Read(ReadKind::Text))
            } else if status == 400 {
                Progress::Ongoing(Action::Read(ReadKind::SignUpError))
            } else {
                Progress::Settled(error("Failed to sign up"))
            },
        },
        Event::Replied(status, reply) => if status == 503 || status == 403 {
            Progress::Settled(HttpHelper::refusal(status, &reply))
        } else {
            match reply {
                Reply::Text(Some(_)) => Progress::Settled(
                    success(
                        "Please checkout your email and confirm your email, then come back and sign in",
                    ),
                ),
                Reply::ErrorMessage(Some(message)) => Progress::Settled(CommandExit::Error(message)),
                _ => Progress::Settled(error("Failed to sign up")),
            }
        },
        _ => Progress::Settled(error("Failed to sign up")),
    }
}

/// The events `signup` can see in each stage.
pub open spec fn sign_up_fits(stage: AuthStage, event: Event) -> bool {
    match stage {
        AuthStage::Checking => event is Begin,
        AuthStage::AwaitingPassword => event is Password,
        AuthStage::Sending => !(event is Begin) && fits(|s: u16| sign_up_read(s), event),
    }
}

/// `signup`: one move.
pub fn run(sign_up_args: &SignUp, stage: AuthStage, event: Event) -> (res: (AuthStage, Turn))
    requires
        sign_up_fits(stage, event),
    ensures
        stage is Checking ==> checking_moves(
            sign_up_args.email@,
            sign_up_args.password,
            sign_up_path(),
            res,
        ),
        stage is AwaitingPassword ==> match event {
            Event::Password(Some(p)) => password_moves(sign_up_args.email@, p@, sign_up_path(), res),
            _ => res.1.action is Abort,
        },
        stage is Sending ==> match sign_up_answer(event) {
            StepView::Read(kind) => res.0 is Sending && res.1.action == Action::Read(kind),
            StepView::Settle(e) => (res.1.action matches Action::Finish(x) && x@ == e),
            _ => false,
        },
{
    match stage {
        AuthStage::Checking => check_credentials(
            "/auth/signup",
            &sign_up_args.email,
            &sign_up_args.password,
        ),
        AuthStage::AwaitingPassword => match event {
            Event::Password(typed) => password_typed("/auth/signup", &sign_up_args.email, typed),
            _ => (AuthStage::AwaitingPassword, quiet(Action::Abort(String::new()))),
        },
        AuthStage::Sending => match sign_up(event) {
            Progress::Ongoing(action) => (AuthStage::Sending, quiet(action)),
            Progress::Settled(e) => (AuthStage::Sending, quiet(Action::Finish(e))),
        },
    }
}

} // verus!
