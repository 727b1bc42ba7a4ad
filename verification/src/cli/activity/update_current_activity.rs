//! Renaming the activity running now: fetch it, send the new name, show
//! what the API answers.
use vstd::prelude::*;
use vstd::string::*;

use crate::cli::activity::activity_helper::{current_activity_shown, print_current_activity};
use crate::cli::activity::get_current_activity::{
    current_read,
    current_request,
    current_settle,
    get_current_activity,
    CurrentActivity,
};
use crate::cli::api_url;
use crate::cli::command_exit::{error, CommandExit, ExitView};
use crate::cli::http_helper::{
    answer,
    fits,
    quiet,
    result_view,
    step_of,
    Action,
    Event,
    HttpHelper,
    HttpRequest,
    Method,
    Payload,
    Progress,
    ReadKind,
    Reply,
    Screen,
    StepView,
    Turn,
};
use crate::cli::API_URL;

verus! {

/// The arguments of renaming the current activity.
pub struct UpdateCurrentActivityArgs {
    pub name: String,
}

/// The activity as the update request carries it.
pub struct UpdateActivityDTO {
    pub id: String,
    pub name: String,
    pub started_at: String,
}

/// The body of the request that renames the activity running now.
pub struct UpdateCurrentActivityDTO {
    pub activity: UpdateActivityDTO,
}

/// How the reply to the update is read: the activity on 200, the error
/// text on 400, nothing otherwise.
pub open spec fn update_read(status: u16) -> Option<ReadKind> {
    if status == 200 {
        Some(ReadKind::CurrentActivity)
    } else if status == 400 {
        Some(ReadKind::Text)
    } else {
        None
    }
}

/// The error of an update that failed.
pub open spec fn update_failed() -> ExitView {
    ExitView::Error("Failed to update current activity"@)
}

/// What the update gives: the renamed activity on 200, the error text on
/// 400, "Failed to update current activity" when the body cannot be read
/// or for any other status.
pub open spec fn update_settle(status: u16, reply: Option<Reply>) -> Result<
    CurrentActivity,
    ExitView,
> {
    match reply {
        Some(Reply::CurrentActivity(Some(activity))) => Ok(activity),
        Some(Reply::Text(Some(message))) => Err(ExitView::Error(message@)),
        _ => Err(update_failed()),
    }
}

/// Every error of the helper (no connection, 503, 403) ends the update
/// with one fixed message.
pub open spec fn update_refused(e: ExitView) -> Result<CurrentActivity, ExitView> {
    Err(ExitView::Error("Failed to update current activity sfsdfasdf"@))
}

/// The move of the update exchange after `event`.
pub open spec fn update_answer(event: Event) -> StepView<Result<CurrentActivity, ExitView>> {
    answer(
        |s: u16| update_read(s),
        |s: u16, r: Option<Reply>| update_settle(s, r),
        |e: ExitView| update_refused(e),
        event,
    )
}

/// `req` renames the activity `current` to `name`.
pub open spec fn update_request(req: HttpRequest, current: CurrentActivity, name: Seq<char>) -> bool {
    &&& req.method == Method::Put
    &&& req.url@ == API_URL@ + "/projects/"@ + current.project_id@ + "/activities/current/"@
        + current.id@
    &&& req.query is None
    &&& req.payload matches Payload::UpdateCurrentActivity(dto) && dto.activity.id@ == current.id@
        && dto.activity.name@ == name && dto.activity.started_at@ == current.started_at@
}

/// The request that renames the activity `current` to `name`.
pub fn update_current_activity_request(current: CurrentActivity, name: String) -> (res: HttpRequest)
    ensures
        update_request(res, current, name@),
{
    let mut url = api_url("/projects/");
    url.append(current.project_id.as_str());
    url.append("/activities/current/");
    url.append(current.id.as_str());
    HttpRequest {
        method: Method::Put,
        url,
        query: None,
        payload: Payload::UpdateCurrentActivity(
            UpdateCurrentActivityDTO {
                activity: UpdateActivityDTO { id: current.id, name, started_at: current.started_at },
            },
        ),
    }
}

/// One move of the update exchange, once its request was sent.
pub fn update_current_actvity(event: Event) -> (res: Progress<Result<CurrentActivity, CommandExit>>)
    requires
        fits(|s: u16| update_read(s), event),
        !(event is Begin),
    ensures
        step_of(res, |r: Result<CurrentActivity, CommandExit>| result_view(r)) == update_answer(
            event,
        ),
{
    match event {
        Event::Sent(sent) => match HttpHelper::request(sent) {
            Screen::Refuse(_) => Progress::Settled(
                Err(error("Failed to update current activity sfsdfasdf")),
            ),
            Screen::ReadThenRefuse => Progress::Ongoing(Action::Read(ReadKind::Text)),
            Screen::Pass(status) => if status == 200 {
                Progress::Ongoing(Action::Read(ReadKind::CurrentActivity))
            } else if status == 400 {
                Progress::Ongoing(Action::Read(ReadKind::Text))
            } else {
                Progress::Settled(Err(error("Failed to update current activity")))
            },
        },
        Event::Replied(status, reply) => if status == 503 || status == 403 {
            Progress::Settled(Err(error("Failed to update current activity sfsdfasdf")))
        } else {
            match reply {
                Reply::CurrentActivity(Some(activity)) => Progress::Settled(Ok(activity)),
                Reply::Text(Some(message)) => Progress::Settled(Err(CommandExit::Error(message))),
                _ => Progress::Settled(Err(error("Failed to update current activity"))),
            }
        },
        _ => Progress::Settled(Err(error("Failed to update current activity"))),
    }
}

/// Where renaming the current activity stands.
pub enum UpdateStage {
    /// Fetching the activity running now (and the stage to begin in).
    Fetching,
    /// Sending the new name.
    Updating,
}

/// The events renaming can see in each stage.
pub open spec fn update_fits(stage: UpdateStage, event: Event) -> bool {
    match stage {
        UpdateStage::Fetching => fits(|s: u16| current_read(s), event),
        UpdateStage::Updating => !(event is Begin) && fits(|s: u16| update_read(s), event),
    }
}

/// The move of the current activity exchange after `event`.
pub open spec fn current_answer(event: Event) -> StepView<Result<CurrentActivity, ExitView>> {
    answer(
        |s: u16| current_read(s),
        |s: u16, r: Option<Reply>| current_settle(s, r),
        |e: ExitView| Err::<CurrentActivity, ExitView>(e),
        event,
    )
}

/// Renames the activity running now: one move. The activity is fetched,
/// the new name sent with its id and start, and the activity the API gives
/// back is shown.
pub fn run(update_args: &UpdateCurrentActivityArgs, stage: UpdateStage, event: Event) -> (res: (
    UpdateStage,
    Turn,
))
    requires
        update_fits(stage, event),
    ensures
        stage is Fetching && event is Begin ==> res.0 is Fetching,
        stage is Fetching && event is Begin ==> (res.1.action matches Action::Send(req)
            && current_request(req)) && res.1.print@ == Seq::<char>::empty(),
        stage is Fetching && !(event is Begin) ==> match current_answer(event) {
            StepView::Read(kind) => res.0 is Fetching && res.1.action == Action::Read(kind)
                && res.1.print@ == Seq::<char>::empty(),
            StepView::Settle(Err(e)) => (res.1.action matches Action::Finish(x) && x@ == e)
                && res.1.print@ == Seq::<char>::empty(),
            StepView::Settle(Ok(current)) => {
                &&& res.0 is Updating
                &&& res.1.print@ == Seq::<char>::empty()
                &&& res.1.action matches Action::Send(req) && update_request(req, current, update_args.name@)
            },
            _ => false,
        },
        stage is Updating ==> match update_answer(event) {
            StepView::Read(kind) => res.0 is Updating && res.1.action == Action::Read(kind)
                && res.1.print@ == Seq::<char>::empty(),
            StepView::Settle(Err(e)) => (res.1.action matches Action::Finish(x) && x@ == e)
                && res.1.print@ == Seq::<char>::empty(),
            StepView::Settle(Ok(activity)) => current_activity_shown(activity, res.1),
            _ => false,
        },
{
    match stage {
        UpdateStage::Fetching => match get_current_activity(event) {
            Progress::Ongoing(action) => (UpdateStage::Fetching, quiet(action)),
            Progress::Settled(Err(e)) => (UpdateStage::Fetching, quiet(Action::Finish(e))),
            Progress::Settled(Ok(current)) => (
                UpdateStage::Updating,
                quiet(
                    Action::Send(update_current_activity_request(current, update_args.name.clone())),
                ),
            ),
        },
        UpdateStage::Updating => match update_current_actvity(event) {
            Progress::Ongoing(action) => (UpdateStage::Updating, quiet(action)),
            Progress::Settled(Err(e)) => (UpdateStage::Updating, quiet(Action::Finish(e))),
            Progress::Settled(Ok(activity)) => (
                UpdateStage::Updating,
                print_current_activity(&activity),
            ),
        },
    }
}

} // verus!
