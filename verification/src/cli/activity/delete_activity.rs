//! Deleting an activity.
use vstd::prelude::*;

use crate::cli::command_exit::{error, success, CommandExit, ExitView};
use crate::cli::command_exit::text_of;
use crate::cli::http_helper::{
    answer,
    finish_or_continue,
    fits,
    step_of,
    turn_view,
    Action,
    Event,
    HttpHelper,
    HttpRequest,
    Method,
    Payload,
    Progress,
    ReadKind,
    Reply,
    Screen,
    StepView,
    Turn,
};
use crate::cli::api_url;
use crate::cli::API_URL;

verus! {

/// The arguments of activity deletion.
pub struct DeleteActivityArgs {
    pub id: String,
}

/// How the reply to `DELETE /activities/{id}` is read: as text on 204 and
/// 400, not at all otherwise.
pub open spec fn delete_read(status: u16) -> Option<ReadKind> {
    if status == 204 || status == 400 {
        Some(ReadKind::Text)
    } else {
        None
    }
}

/// What deleting an activity ends with: "Activity deleted" on 204, the
/// error text on 400, "Failed to delete activity!" when the body cannot be
/// read or for any other status.
pub open spec fn delete_settle(status: u16, reply: Option<Reply>) -> ExitView {
    match reply {
        Some(Reply::Text(Some(message))) => if status == 204 {
            ExitView::Success("Activity deleted"@)
        } else {
            ExitView::Error(message@)
        },
        _ => ExitView::Error("Failed to delete activity!"@),
    }
}

/// `req` deletes the activity `id`.
pub open spec fn delete_request(req: HttpRequest, id: Seq<char>) -> bool {
    &&& req.method == Method::Delete
    &&& req.url@ == API_URL@ + "/activities/"@ + id
    &&& req.query is None
    &&& req.payload is Empty
}

/// One move of the exchange that deletes the activity `activity_id`.
pub fn delete_activity(activity_id: &String, event: Event) -> (res: Progress<CommandExit>)
    requires
        fits(|s: u16| delete_read(s), event),
    ensures
        event is Begin ==> (res matches Progress::Ongoing(Action::Send(req)) && delete_request(
            req,
            activity_id@,
        )),
        !(event is Begin) ==> step_of(res, |e: CommandExit| e@) == answer(
            |s: u16| delete_read(s),
            |s: u16, r: Option<Reply>| delete_settle(s, r),
            |e: ExitView| e,
            event,
        ),
{
    match event {
        Event::Sent(sent) => match HttpHelper::request(sent) {
            Screen::Refuse(e) => Progress::Settled(e),
            Screen::ReadThenRefuse => Progress::Ongoing(Action::Read(ReadKind::Text)),
            Screen::Pass(status) => if status == 204 || status == 400 {
                Progress::Ongoing(Action::Read(ReadKind::Text))
            } else {
                Progress::Settled(error("Failed to delete activity!"))
            },
        },
        Event::Replied(status, reply) => if status == 503 || status == 403 {
            Progress::Settled(HttpHelper::refusal(status, &reply))
        } else {
            match reply {
                Reply::Text(Some(message)) => if status == 204 {
                    Progress::Settled(success("Activity deleted"))
                } else {
                    Progress::Settled(CommandExit::Error(message))
                },
                _ => Progress::Settled(error("Failed to delete activity!")),
            }
        },
        _ => {
            let mut url = api_url("/activities/");
            url.append(activity_id.as_str());
            Progress::Ongoing(
                Action::Send(
                    HttpRequest { method: Method::Delete, url, query: None, payload: Payload::Empty },
                ),
            )
        },
    }
}

/// Deletes the activity named by the arguments: one move of the command.
pub fn run(delete_activity_args: &DeleteActivityArgs, event: Event) -> (res: Turn)
    requires
        fits(|s: u16| delete_read(s), event),
    ensures
        res.print@ == Seq::<char>::empty(),
        event is Begin ==> (res.action matches Action::Send(req) && delete_request(
            req,
            delete_activity_args.id@,
        )),
        !(event is Begin) ==> turn_view(res) == answer(
            |s: u16| delete_read(s),
            |s: u16, r: Option<Reply>| delete_settle(s, r),
            |e: ExitView| e,
            event,
        ),
{
    finish_or_continue(delete_activity(&delete_activity_args.id, event))
}

} // verus!
