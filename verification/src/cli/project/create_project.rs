//! `project create`: creates a project with its name, admins, team members
//! and color palette.
use vstd::prelude::*;

use crate::cli::api_url;
use crate::cli::command_exit::{error, success, CommandExit, ExitView};
use crate::cli::http_helper::{
    answer,
    finish_or_continue,
    fits,
    turn_view,
    Action,
    Event,
    HttpHelper,
    HttpRequest,
    Method,
    Payload,
    Progress,
    ReadKind,
    Reply,
    Screen,
    StepView,
    Turn,
};
use crate::cli::API_URL;

verus! {

/// The arguments of `project create`.
pub struct CreateProjectArgs {
    pub name: String,
    /// Email addresses
    pub admins: Vec<String>,
    /// Email addresses
    pub team_members: Vec<String>,
    /// 0: white, 1: salmon, 2: blue, 3: black, 4: yellow, 5: pink, 6: red, 7: green
    pub color_palette: u8,
}

/// A project to create, as the API takes it.
pub struct NewProject {
    pub name: String,
    pub admins: Vec<String>,
    pub team_members: Vec<String>,
    pub color_palette: u8,
}

/// The body of the request that creates a project.
pub struct CreateProjectDTO {
    pub project: NewProject,
}

/// How the reply to `POST /projects` is read: as text on 200, 201 and 400,
/// not at all otherwise.
pub open spec fn create_read(status: u16) -> Option<ReadKind> {
    if status == 200 || status == 201 || status == 400 {
        Some(ReadKind::Text)
    } else {
        None
    }
}

/// What creating a project ends with: "Project created" when the API
/// accepted it (200 or 201), the error text on 400, "Failed to create
/// project" when the body cannot be read or for any other status.
pub open spec fn create_settle(status: u16, reply: Option<Reply>) -> ExitView {
    match reply {
        Some(Reply::Text(Some(message))) => if status == 200 || status == 201 {
            ExitView::Success("Project created"@)
        } else {
            ExitView::Error(message@)
        },
        _ => ExitView::Error("Failed to create project"@),
    }
}

/// `req` creates the project the arguments describe.
pub open spec fn create_request(req: HttpRequest, args: CreateProjectArgs) -> bool {
    &&& req.method == Method::Post
    &&& req.url@ == API_URL@ + "/projects"@
    &&& req.query is None
    &&& req.payload matches Payload::CreateProject(dto) && dto.project.name@ == args.name@
        && dto.project.admins.deep_view() == args.admins.deep_view()
        && dto.project.team_members.deep_view() == args.team_members.deep_view()
        && dto.project.color_palette == args.color_palette
}

/// A copy of a list of strings.
fn copy_strings(items: &Vec<String>) -> (res: Vec<String>)
    ensures
        res.deep_view() == items.deep_view(),
{
    let mut out: Vec<String> = Vec::new();
    let mut i: usize = 0;
    while i < items.len()
        invariant
            i <= items.len(),
            out.deep_view() =~= items.deep_view().take(i as int),
        decreases items.len() - i,
    {
        let ghost before = out.deep_view();
        out.push(items[i].clone());
        proof {
            assert(out.deep_view() =~= before.push(items@[i as int]@));
            assert(items.deep_view().take(i + 1) =~= items.deep_view().take(i as int).push(
                items@[i as int]@,
            ));
        }
        i = i + 1;
    }
    assert(items.deep_view().take(items.len() as int) =~= items.deep_view());
    out
}

/// The request that creates the project the arguments describe.
pub fn create_project_request(args: &CreateProjectArgs) -> (req: HttpRequest)
    ensures
        create_request(req, *args),
{
    HttpRequest {
        method: Method::Post,
        url: api_url("/projects"),
        query: None,
        payload: Payload::CreateProject(
            CreateProjectDTO {
                project: NewProject {
                    name: args.name.clone(),
                    admins: copy_strings(&args.admins),
                    team_members: copy_strings(&args.team_members),
                    color_palette: args.color_palette,
                },
            },
        ),
    }
}

/// One move of the exchange that creates a project.
pub fn create_project(args: &CreateProjectArgs, event: Event) -> (res: Progress<CommandExit>)
    requires
        fits(|s: u16| create_read(s), event),
    ensures
        event is Begin ==> (res matches Progress::Ongoing(Action::Send(req)) && create_request(
            req,
            *args,
        )),
        !(event is Begin) ==> crate::cli::http_helper::step_of(res, |e: CommandExit| e@) == answer(
            |s: u16| create_read(s),
            |s: u16, r: Option<Reply>| create_settle(s, r),
            |e: ExitView| e,
            event,
        ),
{
    match event {
        Event::Sent(sent) => match HttpHelper::request(sent) {
            Screen::Refuse(e) => Progress::Settled(e),
            Screen::ReadThenRefuse => Progress::Ongoing(Action::Read(ReadKind::Text)),
            Screen::Pass(status) => if status == 200 || status == 201 || status == 400 {
                Progress::Ongoing(Action::Read(ReadKind::Text))
            } else {
                Progress::Settled(error("Failed to create project"))
            },
        },
        Event::Replied(status, reply) => if status == 503 || status == 403 {
            Progress::Settled(HttpHelper::refusal(status, &reply))
        } else {
            match reply {
                Reply::Text(Some(message)) => if status == 200 || status == 201 {
                    Progress::Settled(success("Project created"))
                } else {
                    Progress::Settled(CommandExit::Error(message))
                },
                _ => Progress::Settled(error("Failed to create project")),
            }
        },
        _ => Progress::Ongoing(Action::Send(create_project_request(args))),
    }
}

/// `project create`: one move. The project is sent to the API, and the
/// command succeeds only when the API accepted it.
pub fn run(create_project_args: &CreateProjectArgs, event: Event) -> (res: Turn)
    requires
        fits(|s: u16| create_read(s), event),
    ensures
        res.print@ == Seq::<char>::empty(),
        event is Begin ==> (res.action matches Action::Send(req) && create_request(
            req,
            *create_project_args,
        )),
        !(event is Begin) ==> turn_view(res) == answer(
            |s: u16| create_read(s),
            |s: u16, r: Option<Reply>| create_settle(s, r),
            |e: ExitView| e,
            event,
        ),
        (res.action matches Action::Finish(e) && e is Success) ==> (event matches Event::Replied(
            status,
            Reply::Text(Some(_)),
        ) && (status == 200 || status == 201)),
{
    finish_or_continue(create_project(create_project_args, event))
}

} // verus!
