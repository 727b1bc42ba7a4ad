//! The `project` commands and the projects the API lists.
pub mod create_project;
pub mod list_projects;

use vstd::prelude::*;

use create_project::CreateProjectArgs;

verus! {

/// The `project` command: one of its sub commands.
pub struct ProjectCommand {
    pub sub_command: Option<ProjectSubCommands>,
}

/// The sub commands of `project`.
pub enum ProjectSubCommands {
    /// Create a new project
    Create(CreateProjectArgs),
    /// List projects
    List,
}

/// A project as the API lists it.
pub struct Project {
    pub id: Option<String>,
    pub name: String,
    pub invited_users: Vec<InvitedUser>,
    pub owner: TeamMember,
    pub team_members: Vec<TeamMember>,
    pub admins: Vec<TeamMember>,
    pub recent_activity_name: Option<String>,
    /// 0: white, 1: salmon, 2: blue, 3: black, 4: yellow, 5: pink, 6: red, 7: green
    pub color_palette: u8,
}

/// The names of projects, as a selection prompt shows them (a project
/// displays as its name).
pub open spec fn names_of(projects: Seq<Project>) -> Seq<Seq<char>> {
    projects.map_values(|p: Project| p.name@)
}

/// The names of projects, in order.
pub fn project_names(projects: &Vec<Project>) -> (res: Vec<String>)
    ensures
        res.deep_view() == names_of(projects@),
{
    let mut out: Vec<String> = Vec::new();
    let mut i: usize = 0;
    while i < projects.len()
        invariant
            i <= projects.len(),
            out.deep_view() =~= names_of(projects@).take(i as int),
        decreases projects.len() - i,
    {
        let ghost before = out.deep_view();
        out.push(projects[i].name.clone());
        proof {
            assert(out.deep_view() =~= before.push(projects@[i as int].name@));
            assert(names_of(projects@).take(i + 1) =~= names_of(projects@).take(i as int).push(
                projects@[i as int].name@,
            ));
        }
        i = i + 1;
    }
    assert(names_of(projects@).take(projects.len() as int) =~= names_of(projects@));
    out
}

/// A member of a project.
pub struct TeamMember {
    pub id: Option<String>,
    pub email: String,
    pub name: Option<String>,
}

/// Someone invited to a project.
pub struct InvitedUser {
    pub id: Option<String>,
    pub email: String,
    pub name: Option<String>,
    pub role: String,
}

} // verus!
