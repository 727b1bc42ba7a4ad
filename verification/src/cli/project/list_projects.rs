//! `project list`: the user's projects, one colored row each.
use vstd::prelude::*;
use vstd::string::*;

use crate::cli::api_url;
use crate::cli::command_exit::{error, normal, text_of, CommandExit, ExitView};
use crate::cli::http_helper::{
    answer,
    fits,
    quiet,
    result_view,
    step_of,
    Action,
    Event,
    HttpHelper,
    HttpRequest,
    Method,
    Payload,
    Progress,
    ReadKind,
    Reply,
    Screen,
    StepView,
    Turn,
};
use crate::cli::paint::{paint, painted, Tint};
use crate::cli::project::{InvitedUser, Project, TeamMember};
use crate::cli::text::{join_strings, joined, pad_right, padded};
use crate::cli::API_URL;

verus! {

/// The arguments of `project list`: which extra columns to show.
pub struct ListProjectsArgs {
    pub admins: bool,
    pub team_members: bool,
    pub invited_users: bool,
}

/// How the reply to `GET /projects` is read: the projects on 200, nothing
/// otherwise.
pub open spec fn projects_read(status: u16) -> Option<ReadKind> {
    if status == 200 {
        Some(ReadKind::Projects)
    } else {
        None
    }
}

/// What `GET /projects` gives: the projects on 200, "Failed to get your
/// projects" when they cannot be read, "Failed to get projects" for any
/// other status.
pub open spec fn projects_settle(status: u16, reply: Option<Reply>) -> Result<
    Vec<Project>,
    ExitView,
> {
    if status == 200 {
        match reply {
            Some(Reply::Projects(Some(projects))) => Ok(projects),
            _ => Err(ExitView::Error("Failed to get your projects"@)),
        }
    } else {
        Err(ExitView::Error("Failed to get projects"@))
    }
}

/// `req` asks for the user's projects.
pub open spec fn projects_request(req: HttpRequest) -> bool {
    &&& req.method == Method::Get
    &&& req.url@ == API_URL@ + "/projects"@
    &&& req.query is None
    &&& req.payload is Empty
}

/// The move of the projects exchange after `event`.
pub open spec fn projects_answer(event: Event) -> StepView<Result<Vec<Project>, ExitView>> {
    answer(
        |s: u16| projects_read(s),
        |s: u16, r: Option<Reply>| projects_settle(s, r),
        |e: ExitView| Err::<Vec<Project>, ExitView>(e),
        event,
    )
}

/// One move of the exchange that fetches the user's projects.
pub fn list_projects(event: Event) -> (res: Progress<Result<Vec<Project>, CommandExit>>)
    requires
        fits(|s: u16| projects_read(s), event),
    ensures
        event is Begin ==> (res matches Progress::Ongoing(Action::Send(req)) && projects_request(
            req,
        )),
        !(event is Begin) ==> step_of(res, |r: Result<Vec<Project>, CommandExit>| result_view(r))
            == projects_answer(event),
{
    match event {
        Event::Sent(sent) => match HttpHelper::request(sent) {
            Screen::Refuse(e) => Progress::Settled(Err(e)),
            Screen::ReadThenRefuse => Progress::Ongoing(Action::Read(ReadKind::Text)),
            Screen::Pass(status) => if status == 200 {
                Progress::Ongoing(Action::Read(ReadKind::Projects))
            } else {
                Progress::Settled(Err(error("Failed to get projects")))
            },
        },
        Event::Replied(status, reply) => if status == 503 || status == 403 {
            Progress::Settled(Err(HttpHelper::refusal(status, &reply)))
        } else {
            match reply {
                Reply::Projects(Some(projects)) => Progress::Settled(Ok(projects)),
                _ => Progress::Settled(Err(error("Failed to get your projects"))),
            }
        },
        _ => Progress::Ongoing(
            Action::Send(
                HttpRequest {
                    method: Method::Get,
                    url: api_url("/projects"),
                    query: None,
                    payload: Payload::Empty,
                },
            ),
        ),
    }
}

/// The color a project's row is shown in: 0 white, 1 salmon (bright red),
/// 2 blue (cyan), 3 black, 4 yellow, 5 pink (bright magenta), 6 red,
/// 7 green (bright green), white for any other value.
pub open spec fn palette_tint(palette: u8) -> Tint {
    if palette == 1 {
        Tint::BrightRed
    } else if palette == 2 {
        Tint::Cyan
    } else if palette == 3 {
        Tint::Black
    } else if palette == 4 {
        Tint::Yellow
    } else if palette == 5 {
        Tint::BrightMagenta
    } else if palette == 6 {
        Tint::Red
    } else if palette == 7 {
        Tint::BrightGreen
    } else {
        Tint::White
    }
}

/// The color of a palette number.
pub fn tint_of_palette(palette: u8) -> (res: Tint)
    ensures
        res == palette_tint(palette),
{
    if palette == 1 {
        Tint::BrightRed
    } else if palette == 2 {
        Tint::Cyan
    } else if palette == 3 {
        Tint::Black
    } else if palette == 4 {
        Tint::Yellow
    } else if palette == 5 {
        Tint::BrightMagenta
    } else if palette == 6 {
        Tint::Red
    } else if palette == 7 {
        Tint::BrightGreen
    } else {
        Tint::White
    }
}

/// The header line of the project table, with the extra columns asked for.
pub open spec fn projects_header(args: ListProjectsArgs) -> Seq<char> {
    padded("ID"@, 30) + seq![' '] + padded("Name"@, 30) + seq![' '] + padded("Owner"@, 30) + seq![
        ' ',
    ] + padded("Recent Activity Name"@, 30) + (if args.admins {
        seq![' '] + padded("Admins"@, 30)
    } else {
        Seq::empty()
    }) + (if args.team_members {
        seq![' '] + padded("Team Members"@, 30)
    } else {
        Seq::empty()
    }) + (if args.invited_users {
        seq![' '] + padded("Invited Users"@, 30)
    } else {
        Seq::empty()
    })
}

/// The emails of members.
pub open spec fn emails(members: Seq<TeamMember>) -> Seq<Seq<char>> {
    members.map_values(|m: TeamMember| m.email@)
}

/// Invited users as `email <role>`.
pub open spec fn invitations(users: Seq<InvitedUser>) -> Seq<Seq<char>> {
    users.map_values(|u: InvitedUser| u.email@ + seq![' ', '<'] + u.role@ + seq!['>'])
}

/// Who owns a project: the owner's name, or the owner's email when the
/// owner has no name.
pub open spec fn owner_text(p: Project) -> Seq<char> {
    match p.owner.name {
        Some(name) => name@,
        None => p.owner.email@,
    }
}

/// The row of a project whose id is `id`, with the extra columns asked for.
pub open spec fn project_row(p: Project, id: Seq<char>, args: ListProjectsArgs) -> Seq<char> {
    main_columns(p, id) + member_column(args.admins, p.admins@) + member_column(
        args.team_members,
        p.team_members@,
    ) + invited_column(args.invited_users, p.invited_users@)
}

/// Lines, each followed by a newline.
pub open spec fn lines_text(lines: Seq<Seq<char>>) -> Seq<char>
    decreases lines.len(),
{
    if lines.len() == 0 {
        Seq::empty()
    } else {
        lines_text(lines.drop_last()) + lines.last() + seq!['\n']
    }
}

/// `lines` show the projects one row each, in the project's color.
pub open spec fn rows_shown(projects: Seq<Project>, args: ListProjectsArgs, lines: Seq<Seq<char>>) -> bool {
    &&& lines.len() == projects.len()
    &&& forall|i: int|
        0 <= i < projects.len() ==> ((#[trigger] projects[i]).id matches Some(id) && painted(
            project_row(projects[i], id@, args),
            palette_tint(projects[i].color_palette),
            lines[i],
        ))
}

/// `res` shows the projects: the header line, then one colored row per
/// project, ending with an empty message; when a project has no id the
/// program stops (on `unwrap`) after the header and the rows before it.
pub open spec fn projects_shown(projects: Seq<Project>, args: ListProjectsArgs, res: Turn) -> bool {
    &&& (forall|i: int| 0 <= i < projects.len() ==> (#[trigger] projects[i]).id is Some) ==> {
        &&& res.action matches Action::Finish(CommandExit::Normal(m)) && m@ == Seq::<char>::empty()
        &&& exists|lines: Seq<Seq<char>>|
            rows_shown(projects, args, lines) && res.print@ == projects_header(args) + seq!['\n']
                + lines_text(lines)
    }
    &&& (exists|i: int| 0 <= i < projects.len() && (#[trigger] projects[i]).id is None) ==> {
        &&& res.action is Abort
        &&& exists|k: int, lines: Seq<Seq<char>>|
            0 <= k < projects.len() && projects[k].id is None && rows_shown(
                projects.take(k),
                args,
                lines,
            ) && res.print@ == projects_header(args) + seq!['\n'] + lines_text(lines)
    }
}

/// The header line of the project table.
pub fn header_line(args: &ListProjectsArgs) -> (res: String)
    ensures
        res@ == projects_header(*args),
{
    proof {
        reveal_strlit(" ");
    }
    let mut out = String::new();
    pad_right(&mut out, "ID", 30);
    out.append(" ");
    pad_right(&mut out, "Name", 30);
    out.append(" ");
    pad_right(&mut out, "Owner", 30);
    out.append(" ");
    pad_right(&mut out, "Recent Activity Name", 30);
    let ghost base = out@;
    if args.admins {
        out.append(" ");
        pad_right(&mut out, "Admins", 30);
    }
    let ghost with_admins = out@;
    if args.team_members {
        out.append(" ");
        pad_right(&mut out, "Team Members", 30);
    }
    let ghost with_members = out@;
    if args.invited_users {
        out.append(" ");
        pad_right(&mut out, "Invited Users", 30);
    }
    assert(out@ =~= projects_header(*args));
    out
}

/// The emails of members, in order.
fn member_emails(members: &Vec<TeamMember>) -> (res: Vec<String>)
    ensures
        res.deep_view() == emails(members@),
{
    let mut out: Vec<String> = Vec::new();
    let mut i: usize = 0;
    while i < members.len()
        invariant
            i <= members.len(),
            out.deep_view() =~= emails(members@).take(i as int),
        decreases members.len() - i,
    {
        let ghost before = out.deep_view();
        out.push(members[i].email.clone());
        proof {
            assert(out.deep_view() =~= before.push(members@[i as int].email@));
            assert(emails(members@).take(i + 1) =~= emails(members@).take(i as int).push(
                members@[i as int].email@,
            ));
        }
        i = i + 1;
    }
    assert(emails(members@).take(members.len() as int) =~= emails(members@));
    out
}

/// Invited users as `email <role>`, in order.
fn invitation_texts(users: &Vec<InvitedUser>) -> (res: Vec<String>)
    ensures
        res.deep_view() == invitations(users@),
{
    let mut out: Vec<String> = Vec::new();
    let mut i: usize = 0;
    while i < users.len()
        invariant
            i <= users.len(),
            out.deep_view() =~= invitations(users@).take(i as int),
        decreases users.len() - i,
    {
        proof {
            reveal_strlit(" <");
            reveal_strlit(">");
        }
        let ghost before = out.deep_view();
        let mut t = users[i].email.clone();
        t.append(" <");
        t.append(users[i].role.as_str());
        t.append(">");
        let ghost entry = t@;
        out.push(t);
        proof {
            let u = users@[i as int];
            assert(entry =~= u.email@ + seq![' ', '<'] + u.role@ + seq!['>']);
            assert(out.deep_view() =~= before.push(entry));
            assert(invitations(users@).take(i + 1) =~= invitations(users@).take(i as int).push(
                entry,
            ));
        }
        i = i + 1;
    }
    assert(invitations(users@).take(users.len() as int) =~= invitations(users@));
    out
}

/// The optional column of member emails.
pub open spec fn member_column(show: bool, members: Seq<TeamMember>) -> Seq<char> {
    if show {
        seq![' '] + padded(joined(emails(members), seq![',', ' ']), 30)
    } else {
        Seq::empty()
    }
}

/// The optional column of invited users.
pub open spec fn invited_column(show: bool, users: Seq<InvitedUser>) -> Seq<char> {
    if show {
        seq![' '] + padded(joined(invitations(users), seq![',', ' ']), 30)
    } else {
        Seq::empty()
    }
}

fn push_member_column(out: &mut String, show: bool, members: &Vec<TeamMember>)
    ensures
        final(out)@ == old(out)@ + member_column(show, members@),
{
    if show {
        proof {
            reveal_strlit(" ");
            reveal_strlit(", ");
            assert(", "@ =~= seq![',', ' ']);
        }
        let joined_emails = join_strings(&member_emails(members), ", ");
        out.append(" ");
        pad_right(out, joined_emails.as_str(), 30);
        assert(final(out)@ =~= old(out)@ + member_column(show, members@));
    } else {
        assert(final(out)@ =~= old(out)@ + member_column(show, members@));
    }
}

fn push_invited_column(out: &mut String, show: bool, users: &Vec<InvitedUser>)
    ensures
        final(out)@ == old(out)@ + invited_column(show, users@),
{
    if show {
        proof {
            reveal_strlit(" ");
            reveal_strlit(", ");
            assert(", "@ =~= seq![',', ' ']);
        }
        let joined_users = join_strings(&invitation_texts(users), ", ");
        out.append(" ");
        pad_right(out, joined_users.as_str(), 30);
        assert(final(out)@ =~= old(out)@ + invited_column(show, users@));
    } else {
        assert(final(out)@ =~= old(out)@ + invited_column(show, users@));
    }
}

/// The first four columns of a project's row.
pub open spec fn main_columns(p: Project, id: Seq<char>) -> Seq<char> {
    padded(id, 30) + seq![' '] + padded(p.name@, 30) + seq![' '] + padded(owner_text(p), 30)
        + seq![' '] + padded(
        match p.recent_activity_name {
            Some(n) => n@,
            None => Seq::empty(),
        },
        30,
    )
}

fn push_main_columns(out: &mut String, p: &Project, id: &String)
    ensures
        final(out)@ == old(out)@ + main_columns(*p, id@),
{
    proof {
        reveal_strlit(" ");
        reveal_strlit("");
    }
    pad_right(out, id.as_str(), 30);
    out.append(" ");
    pad_right(out, p.name.as_str(), 30);
    out.append(" ");
    match &p.owner.name {
        Some(name) => pad_right(out, name.as_str(), 30),
        None => pad_right(out, p.owner.email.as_str(), 30),
    }
    out.append(" ");
    match &p.recent_activity_name {
        Some(n) => pad_right(out, n.as_str(), 30),
        None => {
            pad_right(out, "", 30);
            assert(""@ =~= Seq::<char>::empty());
        },
    }
    assert(final(out)@ =~= old(out)@ + main_columns(*p, id@));
}

/// The row of a project whose id is `id`.
pub fn project_line(p: &Project, id: &String, args: &ListProjectsArgs) -> (res: String)
    ensures
        res@ == project_row(*p, id@, *args),
{
    let mut out = String::new();
    push_main_columns(&mut out, p, id);
    push_member_column(&mut out, args.admins, &p.admins);
    push_member_column(&mut out, args.team_members, &p.team_members);
    push_invited_column(&mut out, args.invited_users, &p.invited_users);
    assert(out@ =~= project_row(*p, id@, *args));
    out
}

/// Prints the table of projects: the header line and one colored row per
/// project.
pub fn print_projects(projects: &Vec<Project>, args: &ListProjectsArgs) -> (res: Turn)
    ensures
        projects_shown(projects@, *args, res),
{
    let mut print = header_line(args);
    proof {
        reveal_strlit("\n");
    }
    print.append("\n");
    let ghost mut lines: Seq<Seq<char>> = Seq::empty();
    let mut i: usize = 0;
    while i < projects.len()
        invariant
            i <= projects.len(),
            rows_shown(projects@.take(i as int), *args, lines),
            print@ == projects_header(*args) + seq!['\n'] + lines_text(lines),
        decreases projects.len() - i,
    {
        let p = &projects[i];
        match &p.id {
            None => {
                proof {
                    assert(projects@[i as int].id is None);
                }
                return Turn {
                    print,
                    action: Action::Abort(text_of("called `Option::unwrap()` on a `None` value")),
                };
            },
            Some(id) => {
                let row = project_line(p, id, args);
                let line = paint(row.as_str(), tint_of_palette(p.color_palette));
                let ghost old_print = print@;
                print.append(line.as_str());
                proof {
                    reveal_strlit("\n");
                }
                print.append("\n");
                proof {
                    let old_lines = lines;
                    lines = lines.push(line@);
                    assert(lines.drop_last() =~= old_lines);
                    assert(lines_text(lines) == lines_text(old_lines) + line@ + seq!['\n']);
                    assert(print@ =~= projects_header(*args) + seq!['\n'] + lines_text(lines));
                    assert(projects@.take(i + 1) =~= projects@.take(i as int).push(*p));
                    assert forall|j: int| 0 <= j < i + 1 implies ((#[trigger] projects@.take(i + 1)[j]).id matches Some(id) && painted(
                        project_row(projects@.take(i + 1)[j], id@, *args),
                        palette_tint(projects@.take(i + 1)[j].color_palette),
                        lines[j],
                    )) by {
                        if j < i {
                            assert(projects@.take(i + 1)[j] == projects@.take(i as int)[j]);
                        }
                    }
                }
            },
        }
        i = i + 1;
    }
    proof {
        reveal_strlit("");
        assert(projects@.take(projects.len() as int) =~= projects@);
        assert(rows_shown(projects@, *args, lines));
        assert(""@ =~= Seq::<char>::empty());
        assert(forall|i: int| 0 <= i < projects.len() ==> (#[trigger] projects@[i]).id is Some);
    }
    Turn { print, action: Action::Finish(normal("")) }
}

/// `project list`: fetches the projects and prints them.
pub fn run(list_projects_args: &ListProjectsArgs, event: Event) -> (res: Turn)
    requires
        fits(|s: u16| projects_read(s), event),
    ensures
        event is Begin ==> (res.action matches Action::Send(req) && projects_request(req))
            && res.print@ == Seq::<char>::empty(),
        !(event is Begin) ==> match projects_answer(event) {
            StepView::Read(kind) => res.action == Action::Read(kind) && res.print@ == Seq::<char>::empty(),
            StepView::Settle(Err(e)) => (res.action matches Action::Finish(x) && x@ == e)
                && res.print@ == Seq::<char>::empty(),
            StepView::Settle(Ok(projects)) => projects_shown(projects@, *list_projects_args, res),
            _ => false,
        },
{
    match list_projects(event) {
        Progress::Ongoing(action) => quiet(action),
        Progress::Settled(Ok(projects)) => print_projects(&projects, list_projects_args),
        Progress::Settled(Err(e)) => quiet(Action::Finish(e)),
    }
}

} // verus!
