//! `activity status`: the activity running now.
use vstd::prelude::*;

use crate::cli::activity::activity_helper::{current_activity_shown, print_current_activity};
use crate::cli::api_url;
use crate::cli::command_exit::{error, CommandExit, ExitView};
use crate::cli::http_helper::{
    answer,
    fits,
    quiet,
    result_view,
    step_of,
    Action,
    Event,
    HttpHelper,
    HttpRequest,
    Method,
    Payload,
    Progress,
    ReadKind,
    Reply,
    Screen,
    StepView,
    Turn,
};
use crate::cli::API_URL;

verus! {

/// The activity running now, as the API gives it.
pub struct CurrentActivity {
    pub id: String,
    pub project_name: String,
    pub project_id: String,
    pub name: String,
    /// Milliseconds since the epoch, as decimal text.
    pub started_at: String,
    pub user: String,
}

/// How the reply to `GET /user/activities/current` is read: the activity
/// on 200, the error text on 400 and 404, nothing otherwise.
pub open spec fn current_read(status: u16) -> Option<ReadKind> {
    if status == 200 {
        Some(ReadKind::CurrentActivity)
    } else if status == 400 || status == 404 {
        Some(ReadKind::Text)
    } else {
        None
    }
}

/// What the reply to `GET /user/activities/current` gives: the activity on
/// 200, the error text on 400 and 404, and "Failed to get current
/// activity!" when the body cannot be read or for any other status.
pub open spec fn current_settle(status: u16, reply: Option<Reply>) -> Result<
    CurrentActivity,
    ExitView,
> {
    match reply {
        Some(Reply::CurrentActivity(Some(activity))) => Ok(activity),
        Some(Reply::Text(Some(message))) => Err(ExitView::Error(message@)),
        _ => Err(ExitView::Error("Failed to get current activity!"@)),
    }
}

/// The request for the activity running now.
pub open spec fn current_request(req: HttpRequest) -> bool {
    &&& req.method == Method::Get
    &&& req.url@ == API_URL@ + "/user/activities/current"@
    &&& req.query is None
    &&& req.payload is Empty
}

/// One move of the exchange that fetches the activity running now.
pub fn get_current_activity(event: Event) -> (res: Progress<Result<CurrentActivity, CommandExit>>)
    requires
        fits(|s: u16| current_read(s), event),
    ensures
        event is Begin ==> (res matches Progress::Ongoing(Action::Send(req)) && current_request(req)),
        !(event is Begin) ==> step_of(res, |r: Result<CurrentActivity, CommandExit>| result_view(r))
            == answer(
            |s: u16| current_read(s),
            |s: u16, r: Option<Reply>| current_settle(s, r),
            |e: ExitView| Err::<CurrentActivity, ExitView>(e),
            event,
        ),
{
    match event {
        Event::Sent(sent) => match HttpHelper::request(sent) {
            Screen::Refuse(e) => Progress::Settled(Err(e)),
            Screen::ReadThenRefuse => Progress::Ongoing(Action::Read(ReadKind::Text)),
            Screen::Pass(status) => if status == 200 {
                Progress::Ongoing(Action::Read(ReadKind::CurrentActivity))
            } else if status == 400 || status == 404 {
                Progress::Ongoing(Action::Read(ReadKind::Text))
            } else {
                Progress::Settled(Err(error("Failed to get current activity!")))
            },
        },
        Event::Replied(status, reply) => if status == 503 || status == 403 {
            Progress::Settled(Err(HttpHelper::refusal(status, &reply)))
        } else {
            match reply {
                Reply::CurrentActivity(Some(activity)) => Progress::Settled(Ok(activity)),
                Reply::Text(Some(message)) => Progress::Settled(Err(CommandExit::Error(message))),
                _ => Progress::Settled(Err(error("Failed to get current activity!"))),
            }
        },
        _ => Progress::Ongoing(
            Action::Send(
                HttpRequest {
                    method: Method::Get,
                    url: api_url("/user/activities/current"),
                    query: None,
                    payload: Payload::Empty,
                },
            ),
        ),
    }
}

/// `activity status`: fetches the activity running now and shows it, or
/// ends with the error of the exchange.
pub fn run(event: Event) -> (res: Turn)
    requires
        fits(|s: u16| current_read(s), event),
    ensures
        event is Begin ==> (res.action matches Action::Send(req) && current_request(req))
            && res.print@ == Seq::<char>::empty(),
        !(event is Begin) ==> match answer(
            |s: u16| current_read(s),
            |s: u16, r: Option<Reply>| current_settle(s, r),
            |e: ExitView| Err::<CurrentActivity, ExitView>(e),
            event,
        ) {
            StepView::Read(kind) => res.action == Action::Read(kind) && res.print@ == Seq::<char>::empty(),
            StepView::Settle(Err(e)) => (res.action matches Action::Finish(x) && x@ == e)
                && res.print@ == Seq::<char>::empty(),
            StepView::Settle(Ok(activity)) => current_activity_shown(activity, res),
            _ => false,
        },
{
    match get_current_activity(event) {
        Progress::Ongoing(action) => quiet(action),
        Progress::Settled(Ok(activity)) => print_current_activity(&activity),
        Progress::Settled(Err(e)) => quiet(Action::Finish(e)),
    }
}

} // verus!
