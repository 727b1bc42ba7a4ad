//! `activity log`: the activities of a project chosen at a prompt, page by
//! page, for all its team members.
use vstd::prelude::*;
use vstd::string::*;

use crate::cli::activity::activity_helper::{log_header, print_activities, readable_stamp};
use crate::cli::api_url;
use crate::cli::command_exit::{error, normal, text_of, CommandExit, ExitView};
use crate::cli::http_helper::{
    answer,
    fits,
    quiet,
    refused_status,
    result_view,
    step_of,
    Action,
    Event,
    HttpHelper,
    HttpRequest,
    Method,
    Payload,
    Progress,
    ReadKind,
    Reply,
    Screen,
    StepView,
    Turn,
};
use crate::cli::paint::{paint, painted, Tint};
use crate::cli::project::list_projects::{list_projects, projects_answer, projects_read, projects_request};
use crate::cli::project::{names_of, project_names, Project, TeamMember};
use crate::cli::text::{decimal_text, joined, push_decimal};
use crate::cli::API_URL;

verus! {

/// The arguments of `activity log`.
pub struct LogActivitiesArgs {
    pub all: bool,
    pub started_date: Option<String>,
    pub end_date: Option<String>,
}

/// The query of a page of activities: the users (a JSON list of ids), how
/// many activities a page holds, and which page.
pub struct LogActivitiesQueryParams {
    pub users: String,
    pub limit: u16,
    pub page: u32,
}

/// An activity of the log, as the API gives it.
pub struct Activity {
    pub id: String,
    pub name: String,
    /// Milliseconds since the epoch, as decimal text.
    pub started_at: String,
    pub stopped_at: String,
}

/// A hexadecimal digit, in lower case.
pub open spec fn hex_digit(d: int) -> char {
    if d < 10 {
        (48 + d) as char
    } else {
        (87 + d) as char
    }
}

/// A character as a JSON string holds it: the quote, the backslash and the
/// control characters escaped (`\b`, `\t`, `\n`, `\f`, `\r`, else
/// `\u00` and two hexadecimal digits), every other character as it is.
pub open spec fn json_char(c: char) -> Seq<char> {
    if c == '"' {
        seq!['\\', '"']
    } else if c == '\\' {
        seq!['\\', '\\']
    } else if c as int == 8 {
        seq!['\\', 'b']
    } else if c as int == 9 {
        seq!['\\', 't']
    } else if c as int == 10 {
        seq!['\\', 'n']
    } else if c as int == 12 {
        seq!['\\', 'f']
    } else if c as int == 13 {
        seq!['\\', 'r']
    } else if (c as int) < 32 {
        seq!['\\', 'u', '0', '0', hex_digit(c as int / 16), hex_digit(c as int % 16)]
    } else {
        seq![c]
    }
}

/// The characters of `s`, each as a JSON string holds it.
pub open spec fn json_chars(s: Seq<char>) -> Seq<char>
    decreases s.len(),
{
    if s.len() == 0 {
        Seq::empty()
    } else {
        json_chars(s.drop_last()) + json_char(s.last())
    }
}

/// `s` as a JSON string, in quotes.
pub open spec fn json_string(s: Seq<char>) -> Seq<char> {
    seq!['"'] + json_chars(s) + seq!['"']
}

/// A list of strings as `serde_json::to_string` writes it: the JSON strings
/// between brackets, separated by commas, without spaces.
pub open spec fn json_of_strings(items: Seq<Seq<char>>) -> Seq<char> {
    seq!['['] + joined(items.map_values(|s: Seq<char>| json_string(s)), seq![',']) + seq![']']
}

/// The JSON text of a list of strings, by `serde_json::to_string` (its
/// compact formatter, and the escape table of its string writer). Writing a
/// list of strings into memory does not fail (the serializer's only errors
/// come from the writer or from map keys).
#[verifier::external_body]
fn json_strings(items: &Vec<String>) -> (res: String)
    ensures
        res@ == json_of_strings(items.deep_view()),
{
    serde_json::to_string(items).unwrap()
}

/// A copy of a query.
fn copy_query(q: &LogActivitiesQueryParams) -> (res: LogActivitiesQueryParams)
    ensures
        res == *q,
{
    LogActivitiesQueryParams { users: q.users.clone(), limit: q.limit, page: q.page }
}

/// How many activities a page holds: 10000 with `--all`, else 10.
pub open spec fn page_limit(all: bool) -> u16 {
    if all {
        10000
    } else {
        10
    }
}

/// How far "Load more" moves: 1000 pages with `--all`, else one page.
pub open spec fn page_step(all: bool) -> int {
    if all {
        1000
    } else {
        1
    }
}

/// The ids of team members, when all of them have one.
pub open spec fn member_ids(members: Seq<TeamMember>) -> Seq<Seq<char>> {
    members.map_values(|m: TeamMember| m.id->0@)
}

/// `req` asks for the page of activities of project `project` that
/// `query` names.
pub open spec fn activities_request(
    req: HttpRequest,
    project: Seq<char>,
    query: LogActivitiesQueryParams,
) -> bool {
    &&& req.method == Method::Get
    &&& req.url@ == API_URL@ + "/projects/"@ + project + "/activities"@
    &&& req.query == Some(query)
    &&& req.payload is Empty
}

/// The request for a page of activities.
pub fn get_project_activities_request(project_id: &String, query: LogActivitiesQueryParams) -> (res:
    HttpRequest)
    ensures
        activities_request(res, project_id@, query),
{
    let mut url = api_url("/projects/");
    url.append(project_id.as_str());
    url.append("/activities");
    HttpRequest { method: Method::Get, url, query: Some(query), payload: Payload::Empty }
}

/// How the reply to a page of activities is read: the activities on 200,
/// the error text on 400 and 404, nothing otherwise.
pub open spec fn activities_read(status: u16) -> Option<ReadKind> {
    if status == 200 {
        Some(ReadKind::Activities)
    } else if status == 400 || status == 404 {
        Some(ReadKind::Text)
    } else {
        None
    }
}

/// What a page of activities gives: the activities on 200, the error text
/// on 400 and 404, "Failed to get current activity!" when the body cannot
/// be read or for any other status.
pub open spec fn activities_settle(status: u16, reply: Option<Reply>) -> Result<
    Vec<Activity>,
    ExitView,
> {
    match reply {
        Some(Reply::Activities(Some(activities))) => Ok(activities),
        Some(Reply::Text(Some(message))) => Err(ExitView::Error(message@)),
        _ => Err(ExitView::Error("Failed to get current activity!"@)),
    }
}

/// The move of the activities exchange after `event`.
pub open spec fn activities_answer(event: Event) -> StepView<Result<Vec<Activity>, ExitView>> {
    answer(
        |s: u16| activities_read(s),
        |s: u16, r: Option<Reply>| activities_settle(s, r),
        |e: ExitView| Err::<Vec<Activity>, ExitView>(e),
        event,
    )
}

/// One move of the exchange that fetches a page of activities, once its
/// request was sent.
pub fn get_project_activities(event: Event) -> (res: Progress<Result<Vec<Activity>, CommandExit>>)
    requires
        fits(|s: u16| activities_read(s), event),
        !(event is Begin),
    ensures
        step_of(res, |r: Result<Vec<Activity>, CommandExit>| result_view(r)) == activities_answer(
            event,
        ),
{
    match event {
        Event::Sent(sent) => match HttpHelper::request(sent) {
            Screen::Refuse(e) => Progress::Settled(Err(e)),
            Screen::ReadThenRefuse => Progress::Ongoing(Action::Read(ReadKind::Text)),
            Screen::Pass(status) => if status == 200 {
                Progress::Ongoing(Action::Read(ReadKind::Activities))
            } else if status == 400 || status == 404 {
                Progress::Ongoing(Action::Read(ReadKind::Text))
            } else {
                Progress::Settled(Err(error("Failed to get current activity!")))
            },
        },
        Event::Replied(status, reply) => if status == 503 || status == 403 {
            Progress::Settled(Err(HttpHelper::refusal(status, &reply)))
        } else {
            match reply {
                Reply::Activities(Some(activities)) => Progress::Settled(Ok(activities)),
                Reply::Text(Some(message)) => Progress::Settled(Err(CommandExit::Error(message))),
                _ => Progress::Settled(Err(error("Failed to get current activity!"))),
            }
        },
        _ => Progress::Settled(Err(error("Failed to get current activity!"))),
    }
}

/// Where `activity log` stands.
pub enum LogStage {
    /// Fetching the projects to choose from (and the stage to begin in).
    Listing,
    /// The user chooses one of these projects; pages hold `limit` activities.
    Picking(Vec<Project>, u16),
    /// Fetching the page that the query names, of the project with this id.
    Fetching(String, LogActivitiesQueryParams),
    /// Asking whether to load the page after the one the query names.
    Confirming(String, LogActivitiesQueryParams),
}

/// The events `activity log` can see in each stage.
pub open spec fn log_fits(stage: LogStage, event: Event) -> bool {
    match stage {
        LogStage::Listing => event is Begin || fits(|s: u16| projects_read(s), event),
        LogStage::Picking(projects, _) => event matches Event::Picked(choice) && (choice matches Some(
            i,
        ) ==> i < projects.len()),
        LogStage::Fetching(_, _) => !(event is Begin) && fits(|s: u16| activities_read(s), event),
        LogStage::Confirming(_, _) => event is Confirmed,
    }
}

/// What a page fetch prints before it fails on a status other than 200,
/// 400 and 404 (and other than those the helper refuses): `error is : `,
/// the status and a new line.
pub open spec fn activities_status_note(event: Event) -> Seq<char> {
    match event {
        Event::Sent(Some(status)) => if status != 200 && status != 400 && status != 404
            && !refused_status(status) {
            "error is : "@ + decimal_text(status as int) + "\n"@
        } else {
            Seq::empty()
        },
        _ => Seq::empty(),
    }
}

/// The warning printed with `--all`.
pub open spec fn all_warning() -> Seq<char> {
    "WARNING: This is only 10000 of the latest activities per page, WE WILL FIX THIS LATER "@
}

/// The move after a page of activities was fetched: a non-empty page is
/// shown (only its header line: the rows are computed and dropped) and the
/// user is asked whether to load more; an empty page ends the command with
/// an empty message, an error ends it with the error.
pub fn paginate_activities(
    project_id: String,
    query_params: LogActivitiesQueryParams,
    activities_result: Result<Vec<Activity>, CommandExit>,
) -> (res: (LogStage, Turn))
    ensures
        activities_result matches Err(e) ==> res.1.action == Action::Finish(e) && res.1.print@
            == Seq::<char>::empty(),
        activities_result matches Ok(activities) ==> if activities.len() == 0 {
            &&& res.1.action matches Action::Finish(x) && x@ == ExitView::Normal(Seq::<char>::empty())
            &&& res.1.print@ == Seq::<char>::empty()
        } else {
            &&& res.1.print@ == log_header() + seq!['\n']
            &&& (forall|i: int| 0 <= i < activities.len() ==> readable_stamp(#[trigger] activities[i].started_at@))
                ==> res.1.action is ConfirmLoadMore && res.0 == LogStage::Confirming(project_id, query_params)
            &&& (exists|i: int| 0 <= i < activities.len() && !readable_stamp(#[trigger] activities[i].started_at@))
                ==> res.1.action is Abort
        },
{
    match activities_result {
        Err(e) => (LogStage::Fetching(project_id, query_params), quiet(Action::Finish(e))),
        Ok(activities) => if activities.len() > 0 {
            let shown = print_activities(&activities);
            match shown.action {
                Action::Abort(m) => (
                    LogStage::Fetching(project_id, query_params),
                    Turn { print: shown.print, action: Action::Abort(m) },
                ),
                _ => (
                    LogStage::Confirming(project_id, query_params),
                    Turn { print: shown.print, action: Action::ConfirmLoadMore },
                ),
            }
        } else {
            proof {
                reveal_strlit("");
                assert(""@ =~= Seq::<char>::empty());
            }
            (LogStage::Fetching(project_id, query_params), quiet(Action::Finish(normal(""))))
        },
    }
}

/// The ids of the members, or `None` when one of them has no id.
fn team_ids(members: &Vec<TeamMember>) -> (res: Option<Vec<String>>)
    ensures
        (forall|i: int| 0 <= i < members.len() ==> (#[trigger] members@[i]).id is Some) ==> (res matches Some(ids)
            && ids.deep_view() == member_ids(members@)),
        (exists|i: int| 0 <= i < members.len() && (#[trigger] members@[i]).id is None) ==> res is None,
{
    let mut ids: Vec<String> = Vec::new();
    let mut i: usize = 0;
    while i < members.len()
        invariant
            i <= members.len(),
            forall|j: int| 0 <= j < i ==> (#[trigger] members@[j]).id is Some,
            ids.deep_view() =~= member_ids(members@).take(i as int),
        decreases members.len() - i,
    {
        match &members[i].id {
            Some(id) => {
                let ghost before = ids.deep_view();
                ids.push(id.clone());
                proof {
                    assert(ids.deep_view() =~= before.push(members@[i as int].id->0@));
                    assert(member_ids(members@).take(i + 1) =~= member_ids(members@).take(
                        i as int,
                    ).push(members@[i as int].id->0@));
                }
            },
            None => {
                return None;
            },
        }
        i = i + 1;
    }
    assert(member_ids(members@).take(members.len() as int) =~= member_ids(members@));
    Some(ids)
}

/// The first query for the chosen project: its team members' ids, the
/// page size, page 0.
pub open spec fn first_query(project: Project, limit: u16, query: LogActivitiesQueryParams) -> bool {
    &&& query.users@ == json_of_strings(member_ids(project.team_members@))
    &&& query.limit == limit
    &&& query.page == 0
}

/// The move after the user chose a project: the first page of its
/// activities is asked for, for all its team members.
fn pick_project(project: &Project, limit: u16) -> (res: (LogStage, Turn))
    ensures
        (forall|i: int| 0 <= i < project.team_members.len() ==> (#[trigger] project.team_members@[i]).id is Some)
            && project.id is Some ==> {
            &&& res.0 matches LogStage::Fetching(id, query) && id@ == project.id->0@
                && first_query(*project, limit, query)
            &&& res.1.print@ == Seq::<char>::empty()
            &&& res.1.action matches Action::Send(req) && activities_request(req, project.id->0@, res.0->Fetching_1)
        },
        !((forall|i: int| 0 <= i < project.team_members.len() ==> (#[trigger] project.team_members@[i]).id is Some)
            && project.id is Some) ==> res.1.action is Abort,
{
    let unwrap_none = "called `Option::unwrap()` on a `None` value";
    let ids = match team_ids(&project.team_members) {
        Some(ids) => ids,
        None => {
            return (LogStage::Listing, quiet(Action::Abort(text_of(unwrap_none))));
        },
    };
    let project_id = match &project.id {
        Some(id) => id.clone(),
        None => {
            return (LogStage::Listing, quiet(Action::Abort(text_of(unwrap_none))));
        },
    };
    first_page(project_id, json_strings(&ids), limit)
}

/// The move that asks for the first page of a project's activities, once
/// the ids of its team members were written as JSON into `users`.
pub fn first_page(project_id: String, users: String, limit: u16) -> (res: (LogStage, Turn))
    ensures
        res.0 matches LogStage::Fetching(id, query) && id == project_id && query
            == (LogActivitiesQueryParams { users, limit, page: 0 }),
        res.1.print@ == Seq::<char>::empty(),
        res.1.action matches Action::Send(req) && activities_request(req, project_id@, res.0->Fetching_1),
{
    let query = LogActivitiesQueryParams { users, limit, page: 0 };
    let req = get_project_activities_request(&project_id, copy_query(&query));
    (LogStage::Fetching(project_id, query), quiet(Action::Send(req)))
}

/// The next page's query: the page moved by `page_step`.
fn next_query(query: &LogActivitiesQueryParams, all: bool) -> (res: Option<LogActivitiesQueryParams>)
    ensures
        query.page + page_step(all) <= u32::MAX ==> (res matches Some(next) && next.users
            == query.users && next.limit == query.limit && next.page == query.page + page_step(all)),
        query.page + page_step(all) > u32::MAX ==> res is None,
{
    let step: u32 = if all {
        1000
    } else {
        1
    };
    match query.page.checked_add(step) {
        Some(page) => Some(LogActivitiesQueryParams { users: query.users.clone(), limit: query.limit, page }),
        None => None,
    }
}

/// `activity log`: one move. The projects are fetched, the user chooses
/// one, and its activities are fetched page by page while the user asks
/// for more.
pub fn run(log_activities_args: &LogActivitiesArgs, stage: LogStage, event: Event) -> (res: (
    LogStage,
    Turn,
))
    requires
        log_fits(stage, event),
    ensures
        stage is Listing && event is Begin ==> {
            &&& res.0 is Listing
            &&& res.1.print@ == "         Fetching your projects..."@
            &&& res.1.action matches Action::Send(req) && projects_request(req)
        },
        stage is Listing && !(event is Begin) ==> match projects_answer(event) {
            StepView::Read(kind) => res.0 is Listing && res.1.action == Action::Read(kind),
            StepView::Settle(Err(e)) => (res.1.action matches Action::Finish(x) && x@ == e),
            StepView::Settle(Ok(projects)) => {
                &&& res.0 == LogStage::Picking(projects, page_limit(log_activities_args.all))
                &&& log_activities_args.all ==> exists|w: Seq<char>|
                    painted(all_warning(), Tint::Yellow, w) && res.1.print@ == w + seq!['\n']
                &&& !log_activities_args.all ==> res.1.print@ == Seq::<char>::empty()
                &&& res.1.action matches Action::Pick(prompt, options) && prompt@
                    == "Select a project"@ && options.deep_view() == names_of(projects@)
            },
            _ => false,
        },
        stage matches LogStage::Picking(projects, limit) ==> match event {
            Event::Picked(None) => (res.1.action matches Action::Finish(x) && x@ == ExitView::Error(
                "You need to choose a project"@,
            )),
            Event::Picked(Some(i)) => {
                let project = projects[i as int];
                if (forall|j: int| 0 <= j < project.team_members.len() ==> (#[trigger] project.team_members@[j]).id is Some)
                    && project.id is Some {
                    &&& res.0 matches LogStage::Fetching(id, query) && id@ == project.id->0@
                        && first_query(project, limit, query)
                    &&& res.1.print@ == Seq::<char>::empty()
                    &&& res.1.action matches Action::Send(req) && activities_request(req, project.id->0@, res.0->Fetching_1)
                } else {
                    res.1.action is Abort
                }
            },
            _ => false,
        },
        stage matches LogStage::Fetching(project_id, query) ==> match activities_answer(event) {
            StepView::Read(kind) => res.0 == stage && res.1.action == Action::Read(kind)
                && res.1.print@ == Seq::<char>::empty(),
            StepView::Settle(Err(e)) => (res.1.action matches Action::Finish(x) && x@ == e)
                && res.1.print@ == activities_status_note(event),
            StepView::Settle(Ok(activities)) => if activities.len() == 0 {
                &&& res.1.action matches Action::Finish(x) && x@ == ExitView::Normal(Seq::<char>::empty())
                &&& res.1.print@ == Seq::<char>::empty()
            } else {
                &&& res.1.print@ == log_header() + seq!['\n']
                &&& (forall|i: int| 0 <= i < activities.len() ==> readable_stamp(#[trigger] activities[i].started_at@))
                    ==> res.1.action is ConfirmLoadMore && res.0 == LogStage::Confirming(project_id, query)
                &&& (exists|i: int| 0 <= i < activities.len() && !readable_stamp(#[trigger] activities[i].started_at@))
                    ==> res.1.action is Abort
            },
            _ => false,
        },
        stage matches LogStage::Confirming(project_id, query) ==> match event {
            Event::Confirmed(Some(true)) => if query.page + page_step(log_activities_args.all) <= u32::MAX {
                &&& res.0 matches LogStage::Fetching(id, next) && id == project_id && next.users
                    == query.users && next.limit == query.limit && next.page == query.page
                    + page_step(log_activities_args.all)
                &&& res.1.action matches Action::Send(req) && activities_request(
                    req,
                    project_id@,
                    res.0->Fetching_1,
                )
            } else {
                res.1.action is Abort
            },
            Event::Confirmed(Some(false)) => (res.1.action matches Action::Finish(x) && x@
                == ExitView::Normal(Seq::<char>::empty())),
            Event::Confirmed(None) => (res.1.action matches Action::Finish(x) && x@ == ExitView::Error(
                "Something went wront!"@,
            )),
            _ => false,
        },
{
    match stage {
        LogStage::Listing => match event {
            Event::Begin => match list_projects(Event::Begin) {
                Progress::Ongoing(action) => (
                    LogStage::Listing,
                    Turn { print: text_of("         Fetching your projects..."), action },
                ),
                Progress::Settled(_) => (LogStage::Listing, quiet(Action::Abort(String::new()))),
            },
            _ => match list_projects(event) {
                Progress::Ongoing(action) => (LogStage::Listing, quiet(action)),
                Progress::Settled(Err(e)) => (LogStage::Listing, quiet(Action::Finish(e))),
                Progress::Settled(Ok(projects)) => {
                    let limit: u16 = if log_activities_args.all {
                        10000
                    } else {
                        10
                    };
                    let mut print = String::new();
                    if log_activities_args.all {
                        let warning = paint(
                            "WARNING: This is only 10000 of the latest activities per page, WE WILL FIX THIS LATER ",
                            Tint::Yellow,
                        );
                        print.append(warning.as_str());
                        print.append("\n");
                        proof {
                            reveal_strlit("\n");
                            assert(print@ =~= warning@ + seq!['\n']);
                        }
                    }
                    let options = project_names(&projects);
                    let prompt = text_of("Select a project");
                    (LogStage::Picking(projects, limit), Turn { print, action: Action::Pick(prompt, options) })
                },
            },
        },
        LogStage::Picking(projects, limit) => match event {
            Event::Picked(Some(i)) => pick_project(&projects[i], limit),
            _ => (
                LogStage::Picking(projects, limit),
                quiet(Action::Finish(error("You need to choose a project"))),
            ),
        },
        LogStage::Fetching(project_id, query) => {
            let mut note = String::new();
            if let Event::Sent(Some(status)) = &event {
                if *status != 200 && *status != 400 && *status != 404 && *status != 503 && *status
                    != 403 {
                    proof {
                        reveal_strlit("error is : ");
                        reveal_strlit("\n");
                    }
                    note.append("error is : ");
                    push_decimal(&mut note, *status as i64);
                    note.append("\n");
                }
            }
            match get_project_activities(event) {
                Progress::Ongoing(action) => (LogStage::Fetching(project_id, query), quiet(action)),
                Progress::Settled(result) => {
                    let (next, turn) = paginate_activities(project_id, query, result);
                    note.append(turn.print.as_str());
                    (next, Turn { print: note, action: turn.action })
                },
            }
        },
        LogStage::Confirming(project_id, query) => match event {
            Event::Confirmed(Some(true)) => match next_query(&query, log_activities_args.all) {
                Some(next) => {
                    let req = get_project_activities_request(&project_id, copy_query(&next));
                    (LogStage::Fetching(project_id, next), quiet(Action::Send(req)))
                },
                None => (
                    LogStage::Confirming(project_id, query),
                    quiet(Action::Abort(text_of("attempt to add with overflow"))),
                ),
            },
            Event::Confirmed(Some(false)) => {
                proof {
                    reveal_strlit("");
                    assert(""@ =~= Seq::<char>::empty());
                }
                (LogStage::Confirming(project_id, query), quiet(Action::Finish(normal(""))))
            },
            _ => (
                LogStage::Confirming(project_id, query),
                quiet(Action::Finish(error("Something went wront!"))),
            ),
        },
    }
}

} // verus!
