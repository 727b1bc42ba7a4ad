//! `signout`: ends the session and forgets its cookies.
use vstd::prelude::*;

use crate::cli::api_url;
use crate::cli::command_exit::{error, success, CommandExit, ExitView};
use crate::cli::http_helper::{
    answer,
    fits,
    refused_status,
    step_of,
    Action,
    Event,
    HttpHelper,
    HttpRequest,
    Method,
    Payload,
    Progress,
    ReadKind,
    Reply,
    Screen,
    StepView,
    Turn,
};
use crate::cli::text::{decimal_text, push_decimal};
use crate::cli::API_URL;

verus! {

/// Signing out reads no body, whatever the status.
pub open spec fn sign_out_read(status: u16) -> Option<ReadKind> {
    None
}

/// What signing out ends with: "Sign out successful" on 200, "Failed to
/// sign out" on any other status.
pub open spec fn sign_out_settle(status: u16, reply: Option<Reply>) -> ExitView {
    if status == 200 {
        ExitView::Success("Sign out successful"@)
    } else {
        ExitView::Error("Failed to sign out"@)
    }
}

/// `req` ends the session.
pub open spec fn sign_out_request(req: HttpRequest) -> bool {
    &&& req.method == Method::Get
    &&& req.url@ == API_URL@ + "/auth/signout"@
    &&& req.query is None
    &&& req.payload is Empty
}

/// One move of the exchange that ends the session.
pub fn sign_out(event: Event) -> (res: Progress<CommandExit>)
    requires
        fits(|s: u16| sign_out_read(s), event),
    ensures
        event is Begin ==> (res matches Progress::Ongoing(Action::Send(req)) && sign_out_request(
            req,
        )),
        !(event is Begin) ==> step_of(res, |e: CommandExit| e@) == answer(
            |s: u16| sign_out_read(s),
            |s: u16, r: Option<Reply>| sign_out_settle(s, r),
            |e: ExitView| e,
            event,
        ),
{
    match event {
        Event::Sent(sent) => match HttpHelper::request(sent) {
            Screen::Refuse(e) => Progress::Settled(e),
            Screen::ReadThenRefuse => Progress::Ongoing(Action::Read(ReadKind::Text)),
            Screen::Pass(status) => if status == 200 {
                Progress::Settled(success("Sign out successful"))
            } else {
                Progress::Settled(error("Failed to sign out"))
            },
        },
        Event::Replied(status, reply) => Progress::Settled(HttpHelper::refusal(status, &reply)),
        _ => Progress::Ongoing(
            Action::Send(
                HttpRequest {
                    method: Method::Get,
                    url: api_url("/auth/signout"),
                    query: None,
                    payload: Payload::Empty,
                },
            ),
        ),
    }
}

/// What `signout` prints before it ends on a status other than 200 (and
/// other than those the helper refuses): the status and a new line.
pub open spec fn status_note(event: Event) -> Seq<char> {
    match event {
        Event::Sent(Some(status)) => if status != 200 && !refused_status(status) {
            decimal_text(status as int) + "\n"@
        } else {
            Seq::empty()
        },
        _ => Seq::empty(),
    }
}

/// `signout`: one move of the command. The session cookies are forgotten
/// exactly when the API answers 200.
pub fn run(event: Event) -> (res: Turn)
    requires
        fits(|s: u16| sign_out_read(s), event),
    ensures
        res.print@ == status_note(event),
        event is Begin ==> (res.action matches Action::Send(req) && sign_out_request(req)),
        event == Event::Sent(Some(200)) ==> (res.action matches Action::ForgetCookiesAndFinish(e)
            && e@ == ExitView::Success("Sign out successful"@)),
        !(event is Begin) && event != Event::Sent(Some(200)) ==> match answer(
            |s: u16| sign_out_read(s),
            |s: u16, r: Option<Reply>| sign_out_settle(s, r),
            |e: ExitView| e,
            event,
        ) {
            StepView::Read(kind) => res.action == Action::Read(kind),
            StepView::Settle(e) => (res.action matches Action::Finish(x) && x@ == e),
            _ => false,
        },
{
    let mut print = String::new();
    if let Event::Sent(Some(status)) = &event {
        if *status != 200 && *status != 503 && *status != 403 {
            push_decimal(&mut print, *status as i64);
            proof {
                reveal_strlit("\n");
            }
            print.append("\n");
        }
    }
    let action = match sign_out(event) {
        Progress::Ongoing(action) => action,
        Progress::Settled(e) => match e {
            CommandExit::Success(_) => Action::ForgetCookiesAndFinish(e),
            _ => Action::Finish(e),
        },
    };
    Turn { print, action }
}

} // verus!
