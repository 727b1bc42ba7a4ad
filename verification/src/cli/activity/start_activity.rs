//! `activity start`: a new activity in a project, chosen at a prompt when
//! the arguments name none.
use vstd::prelude::*;
use vstd::string::*;

use crate::cli::api_url;
use crate::cli::clock::utc_now_millis;
use crate::cli::command_exit::{error, success, text_of, CommandExit, ExitView};
use crate::cli::http_helper::{
    answer,
    fits,
    quiet,
    step_of,
    Action,
    Event,
    HttpHelper,
    HttpRequest,
    Method,
    Payload,
    Progress,
    ReadKind,
    Reply,
    Screen,
    StepView,
    Turn,
};
use crate::cli::project::list_projects::{list_projects, projects_answer, projects_read, projects_request};
use crate::cli::project::{names_of, project_names, Project};
use crate::cli::text::{decimal_string, decimal_text, lemma_parse_decimal_text, parsed_i64};
use crate::cli::API_URL;

verus! {

/// The arguments of `activity start`.
pub struct StartActivityArgs {
    /// Activity name
    pub name: String,
    /// Project id
    pub project_id: Option<String>,
}

/// The activity to start, as the API takes it.
pub struct Activity {
    pub project: String,
    pub name: String,
    /// Milliseconds since the epoch, as decimal text.
    pub started_at: String,
}

/// The body of the request that starts an activity.
pub struct ActivityDTO {
    pub activity: Activity,
}

/// How the reply to starting an activity is read: as text on 200 and 400,
/// not at all otherwise.
pub open spec fn start_read(status: u16) -> Option<ReadKind> {
    if status == 200 || status == 400 {
        Some(ReadKind::Text)
    } else {
        None
    }
}

/// What starting an activity ends with: "Activity started" on 200, the
/// error text on 400, "Failed to start new activity!" when the body cannot
/// be read or for any other status.
pub open spec fn start_settle(status: u16, reply: Option<Reply>) -> ExitView {
    match reply {
        Some(Reply::Text(Some(message))) => if status == 200 {
            ExitView::Success("Activity started"@)
        } else {
            ExitView::Error(message@)
        },
        _ => ExitView::Error("Failed to start new activity!"@),
    }
}

/// The move of the start exchange after `event`.
pub open spec fn start_answer(event: Event) -> StepView<ExitView> {
    answer(
        |s: u16| start_read(s),
        |s: u16, r: Option<Reply>| start_settle(s, r),
        |e: ExitView| e,
        event,
    )
}

/// `req` starts an activity named `name` in project `project`, started at
/// the stamp `started_at`.
pub open spec fn start_request(
    req: HttpRequest,
    project: Seq<char>,
    name: Seq<char>,
    started_at: Seq<char>,
) -> bool {
    &&& req.method == Method::Post
    &&& req.url@ == API_URL@ + "/projects/"@ + project + "/activities"@
    &&& req.query is None
    &&& req.payload matches Payload::StartActivity(dto) && dto.activity.project@ == project
        && dto.activity.name@ == name && dto.activity.started_at@ == started_at
}

/// `req` starts an activity named `name` in project `project` now: its
/// start stamp is the decimal text of the clock's milliseconds.
pub open spec fn start_now_request(req: HttpRequest, project: Seq<char>, name: Seq<char>) -> bool {
    exists|ms: i64| start_request(req, project, name, decimal_text(ms as int))
}

/// The start stamp that `activity start` sends is one that the activity
/// tables read back: it parses as the clock's milliseconds.
pub proof fn lemma_start_stamp_reads_back(req: HttpRequest, project: Seq<char>, name: Seq<char>)
    requires
        start_now_request(req, project, name),
    ensures
        req.payload matches Payload::StartActivity(dto) && parsed_i64(dto.activity.started_at@) is Some,
{
    let ms = choose|ms: i64| start_request(req, project, name, decimal_text(ms as int));
    lemma_parse_decimal_text(ms);
}

/// The request that starts an activity named `activity_name` in project
/// `project_id`, stamped with the time `now_ms` (milliseconds since the
/// epoch).
pub fn start_activity_request_at(project_id: String, activity_name: String, now_ms: i64) -> (req: HttpRequest)
    ensures
        start_request(req, project_id@, activity_name@, decimal_text(now_ms as int)),
{
    let started_at = decimal_string(now_ms);
    let mut url = api_url("/projects/");
    url.append(project_id.as_str());
    url.append("/activities");
    HttpRequest {
        method: Method::Post,
        url,
        query: None,
        payload: Payload::StartActivity(
            ActivityDTO { activity: Activity { project: project_id, name: activity_name, started_at } },
        ),
    }
}

/// The request that starts an activity named `activity_name` in project
/// `project_id`, stamped with the current time of the clock.
pub fn start_activity_request(project_id: String, activity_name: String) -> (req: HttpRequest)
    ensures
        start_now_request(req, project_id@, activity_name@),
{
    let ms = utc_now_millis();
    let req = start_activity_request_at(project_id, activity_name, ms);
    assert(start_request(req, project_id@, activity_name@, decimal_text(ms as int)));
    req
}

/// One move of the exchange that starts an activity, once its request
/// was sent.
pub fn start_activity(event: Event) -> (res: Progress<CommandExit>)
    requires
        fits(|s: u16| start_read(s), event),
        !(event is Begin),
    ensures
        step_of(res, |e: CommandExit| e@) == start_answer(event),
{
    match event {
        Event::Sent(sent) => match HttpHelper::request(sent) {
            Screen::Refuse(e) => Progress::Settled(e),
            Screen::ReadThenRefuse => Progress::Ongoing(Action::Read(ReadKind::Text)),
            Screen::Pass(status) => if status == 200 || status == 400 {
                Progress::Ongoing(Action::Read(ReadKind::Text))
            } else {
                Progress::Settled(error("Failed to start new activity!"))
            },
        },
        Event::Replied(status, reply) => if status == 503 || status == 403 {
            Progress::Settled(HttpHelper::refusal(status, &reply))
        } else {
            match reply {
                Reply::Text(Some(message)) => if status == 200 {
                    Progress::Settled(success("Activity started"))
                } else {
                    Progress::Settled(CommandExit::Error(message))
                },
                _ => Progress::Settled(error("Failed to start new activity!")),
            }
        },
        _ => Progress::Settled(error("Failed to start new activity!")),
    }
}

/// Where `activity start` stands.
pub enum StartStage {
    /// Fetching the projects to choose from (and the stage to begin in).
    Listing,
    /// The user chooses one of these projects.
    Picking(Vec<Project>),
    /// Starting the activity.
    Starting,
}

/// The events `activity start` can see in each stage.
pub open spec fn start_fits(stage: StartStage, event: Event) -> bool {
    match stage {
        StartStage::Listing => event is Begin || fits(|s: u16| projects_read(s), event),
        StartStage::Picking(projects) => event matches Event::Picked(choice) && (choice matches Some(
            i,
        ) ==> i < projects.len()),
        StartStage::Starting => !(event is Begin) && fits(|s: u16| start_read(s), event),
    }
}

/// The text printed while the projects are fetched.
pub open spec fn fetching_projects() -> Seq<char> {
    "         Fetching your projects..."@
}

/// The prompt of the project choice.
pub open spec fn which_project() -> Seq<char> {
    "Which project are you working on?"@
}

/// `res` starts the activity of `args` in project `project`.
pub open spec fn starts_in(args: StartActivityArgs, project: Seq<char>, res: (StartStage, Turn)) -> bool {
    &&& res.0 is Starting
    &&& res.1.print@ == Seq::<char>::empty()
    &&& res.1.action matches Action::Send(req) && start_now_request(req, project, args.name@)
}

/// `activity start`: one move. Without a project id in the arguments the
/// projects are fetched and the user chooses one; then the activity is
/// started in that project.
pub fn run(start_activity_args: &StartActivityArgs, stage: StartStage, event: Event) -> (res: (
    StartStage,
    Turn,
))
    requires
        start_fits(stage, event),
    ensures
        stage is Listing && event is Begin ==> match start_activity_args.project_id {
            Some(project) => starts_in(*start_activity_args, project@, res),
            None => {
                &&& res.0 is Listing
                &&& res.1.print@ == fetching_projects()
                &&& res.1.action matches Action::Send(req) && projects_request(req)
            },
        },
        stage is Listing && !(event is Begin) ==> match projects_answer(event) {
            StepView::Read(kind) => res.0 is Listing && res.1.action == Action::Read(kind),
            StepView::Settle(Err(e)) => (res.1.action matches Action::Finish(x) && x@ == e),
            StepView::Settle(Ok(projects)) => {
                &&& res.0 == StartStage::Picking(projects)
                &&& res.1.action matches Action::Pick(prompt, options) && prompt@ == which_project()
                    && options.deep_view() == names_of(projects@)
            },
            _ => false,
        },
        stage matches StartStage::Picking(projects) ==> match event {
            Event::Picked(None) => (res.1.action matches Action::Finish(x) && x@ == ExitView::Error(
                "You need to choose a project"@,
            )),
            Event::Picked(Some(i)) => match projects[i as int].id {
                Some(project) => starts_in(*start_activity_args, project@, res),
                None => res.1.action is Abort,
            },
            _ => false,
        },
        stage is Starting ==> match start_answer(event) {
            StepView::Read(kind) => res.0 is Starting && res.1.action == Action::Read(kind),
            StepView::Settle(e) => (res.1.action matches Action::Finish(x) && x@ == e),
            _ => false,
        },
{
    match stage {
        StartStage::Listing => match event {
            Event::Begin => match &start_activity_args.project_id {
                Some(project) => (
                    StartStage::Starting,
                    quiet(
                        Action::Send(
                            start_activity_request(project.clone(), start_activity_args.name.clone()),
                        ),
                    ),
                ),
                None => match list_projects(Event::Begin) {
                    Progress::Ongoing(action) => (
                        StartStage::Listing,
                        Turn { print: text_of("         Fetching your projects..."), action },
                    ),
                    Progress::Settled(_) => (StartStage::Listing, quiet(Action::Abort(String::new()))),
                },
            },
            _ => match list_projects(event) {
                Progress::Ongoing(action) => (StartStage::Listing, quiet(action)),
                Progress::Settled(Err(e)) => (StartStage::Listing, quiet(Action::Finish(e))),
                Progress::Settled(Ok(projects)) => {
                    let options = project_names(&projects);
                    let prompt = text_of("Which project are you working on?");
                    (StartStage::Picking(projects), quiet(Action::Pick(prompt, options)))
                },
            },
        },
        StartStage::Picking(projects) => match event {
            Event::Picked(Some(i)) => match &projects[i].id {
                Some(project) => (
                    StartStage::Starting,
                    quiet(
                        Action::Send(
                            start_activity_request(project.clone(), start_activity_args.name.clone()),
                        ),
                    ),
                ),
                None => (
                    StartStage::Picking(projects),
                    quiet(Action::Abort(text_of("called `Option::unwrap()` on a `None` value"))),
                ),
            },
            _ => (
                StartStage::Picking(projects),
                quiet(Action::Finish(error("You need to choose a project"))),
            ),
        },
        StartStage::Starting => match start_activity(event) {
            Progress::Ongoing(action) => (StartStage::Starting, quiet(action)),
            Progress::Settled(e) => (StartStage::Starting, quiet(Action::Finish(e))),
        },
    }
}

} // verus!
