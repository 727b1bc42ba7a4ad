use std::time::{SystemTime, UNIX_EPOCH};

use pendulums::cli::activity::activity_helper::{
    current_header_line, current_row_line, log_header_line, print_activities, print_current_activity, push_log_row,
    started_seconds,
};
use pendulums::cli::activity::delete_activity::{self, DeleteActivityArgs};
use pendulums::cli::activity::get_activities_log::{self, Activity, LogActivitiesArgs, LogActivitiesQueryParams, LogStage};
use pendulums::cli::activity::get_current_activity::{self, CurrentActivity};
use pendulums::cli::activity::start_activity::{self, StartActivityArgs, StartStage};
use pendulums::cli::activity::stop_current_activity::{self, StopStage};
use pendulums::cli::activity::update_current_activity::{self, UpdateCurrentActivityArgs, UpdateStage};
use pendulums::cli::command_exit::CommandExit;
use pendulums::cli::http_helper::{Action, Event, HttpRequest, Method, Payload, ReadKind, Reply, Turn};
use pendulums::cli::project::{Project, TeamMember};

fn s(x: &str) -> String {
    String::from(x)
}

fn now_millis() -> i64 {
    SystemTime::now().duration_since(UNIX_EPOCH).unwrap().as_millis() as i64
}

fn finished_with(turn: &Turn) -> &CommandExit {
    match &turn.action {
        Action::Finish(e) => e,
        _ => panic!("expected the command to finish"),
    }
}

fn sent(turn: &Turn) -> &HttpRequest {
    match &turn.action {
        Action::Send(req) => req,
        _ => panic!("expected a request"),
    }
}

fn current(started_at: &str) -> CurrentActivity {
    CurrentActivity {
        id: s("act-1"),
        project_name: s("Pendulums"),
        project_id: s("proj-1"),
        name: s("Writing"),
        started_at: s(started_at),
        user: s("user-1"),
    }
}

fn member(id: &str, email: &str) -> TeamMember {
    TeamMember { id: Some(s(id)), email: s(email), name: None }
}

fn project(id: Option<&str>, name: &str, members: Vec<TeamMember>) -> Project {
    Project {
        id: id.map(s),
        name: s(name),
        invited_users: Vec::new(),
        owner: member("u1", "owner@x.io"),
        team_members: members,
        admins: Vec::new(),
        recent_activity_name: None,
        color_palette: 0,
    }
}

fn near_now(stamp: &str) -> bool {
    let ms = stamp.parse::<i64>().unwrap();
    (ms - now_millis()).abs() < 60_000
}

// ---------------------------------------------------------------- tables

#[test]
fn started_seconds_reads_millisecond_stamps() {
    assert_eq!(started_seconds("1700000000123"), Ok(1_700_000_000));
    assert_eq!(started_seconds("-1500"), Ok(-1));
    assert_eq!(
        started_seconds("yesterday"),
        Err(s("called `Result::unwrap()` on an `Err` value: ParseIntError"))
    );
    assert_eq!(started_seconds("9223372036854775807"), Err(s("Invalid Date")));
}

#[test]
fn table_lines_are_thirty_wide_columns() {
    assert_eq!(
        current_header_line(),
        format!("{:<30} {:<30} {:<30} {:<30}", "Activity Name", "Started At", "Duration", "Project")
    );
    assert_eq!(
        current_row_line("Writing", "2024-01-02 03:04:05", 3725, "Pendulums"),
        format!("{:<30} {:<30} {:<30} {:<30}", "Writing", "2024-01-02 03:04:05", "1h 2m 5s", "Pendulums")
    );
    assert_eq!(log_header_line(), format!("{:<30} {:<30} {:<30}", "Activity Name", "Started At", "Duration"));
    let mut out = String::new();
    push_log_row(&mut out, "Reading", "2024-01-02 03:04:05", 61);
    assert_eq!(out, format!("{:<30} {:<30} {:<30} \n", "Reading", "2024-01-02 03:04:05", "0h 1m 1s"));
}

#[test]
fn the_current_activity_is_shown_in_a_table() {
    let started = now_millis() - 3_600_000;
    let turn = print_current_activity(&current(&started.to_string()));
    assert_eq!(turn.print, format!("{}\n", current_header_line()));
    match &turn.action {
        Action::Finish(CommandExit::Normal(row)) => {
            assert!(row.starts_with(&format!("{:<30} ", "Writing")));
            assert!(row.ends_with(&format!(" {:<30}", "Pendulums")));
            assert!(row.contains("1h 0m"));
            let date = row[31..61].trim_end();
            assert_eq!(date.len(), 19);
            let b = date.as_bytes();
            assert!(b[4] == b'-' && b[7] == b'-' && b[10] == b' ' && b[13] == b':' && b[16] == b':');
        }
        _ => panic!("expected the row"),
    }
}

#[test]
fn an_unreadable_stamp_stops_before_printing() {
    let turn = print_current_activity(&current("soon"));
    assert_eq!(turn.print, "");
    assert!(
        matches!(turn.action, Action::Abort(ref m) if m == "called `Result::unwrap()` on an `Err` value: ParseIntError")
    );
}

#[test]
fn a_page_of_activities_is_one_row_each() {
    let start = now_millis() - 120_000;
    let activities = vec![
        Activity { id: s("a"), name: s("First"), started_at: start.to_string(), stopped_at: s("0") },
        Activity { id: s("b"), name: s("Second"), started_at: start.to_string(), stopped_at: s("0") },
    ];
    let turn = print_activities(&activities);
    assert_eq!(turn.print, format!("{}\n", log_header_line()));
    match &turn.action {
        Action::Finish(CommandExit::Normal(content)) => {
            let rows: Vec<&str> = content.lines().collect();
            assert_eq!(rows.len(), 2);
            assert!(rows[0].starts_with(&format!("{:<30} ", "First")));
            assert!(rows[1].starts_with(&format!("{:<30} ", "Second")));
            assert!(content.ends_with(" \n"));
        }
        _ => panic!("expected the rows"),
    }
    let bad = vec![Activity { id: s("c"), name: s("Third"), started_at: s("?"), stopped_at: s("0") }];
    assert!(matches!(print_activities(&bad).action, Action::Abort(_)));
}

// ---------------------------------------------------------------- status

#[test]
fn status_fetches_the_current_activity() {
    let turn = get_current_activity::run(Event::Begin);
    let req = sent(&turn);
    assert_eq!(req.method, Method::Get);
    assert_eq!(req.url, "http://localhost:1337/user/activities/current");
    assert!(req.query.is_none());
    assert!(matches!(get_current_activity::run(Event::Sent(Some(200))).action, Action::Read(ReadKind::CurrentActivity)));
    assert!(matches!(get_current_activity::run(Event::Sent(Some(404))).action, Action::Read(ReadKind::Text)));
}

#[test]
fn status_outcomes() {
    let turn = get_current_activity::run(Event::Replied(404, Reply::Text(Some(s("No activity is running")))));
    assert_eq!(finished_with(&turn), &CommandExit::Error(s("No activity is running")));
    let turn = get_current_activity::run(Event::Sent(Some(500)));
    assert_eq!(finished_with(&turn), &CommandExit::Error(s("Failed to get current activity!")));
    let turn = get_current_activity::run(Event::Replied(200, Reply::CurrentActivity(None)));
    assert_eq!(finished_with(&turn), &CommandExit::Error(s("Failed to get current activity!")));
    let started = now_millis().to_string();
    let turn = get_current_activity::run(Event::Replied(200, Reply::CurrentActivity(Some(current(&started)))));
    assert!(matches!(turn.action, Action::Finish(CommandExit::Normal(_))));
}

// ---------------------------------------------------------------- delete

#[test]
fn delete_sends_the_id() {
    let args = DeleteActivityArgs { id: s("act-9") };
    let turn = delete_activity::run(&args, Event::Begin);
    let req = sent(&turn);
    assert_eq!(req.method, Method::Delete);
    assert_eq!(req.url, "http://localhost:1337/activities/act-9");
    assert!(matches!(req.payload, Payload::Empty));
}

#[test]
fn delete_outcomes() {
    let args = DeleteActivityArgs { id: s("act-9") };
    assert!(matches!(delete_activity::run(&args, Event::Sent(Some(204))).action, Action::Read(ReadKind::Text)));
    let turn = delete_activity::run(&args, Event::Replied(204, Reply::Text(Some(s("")))));
    assert_eq!(finished_with(&turn), &CommandExit::Success(s("Activity deleted")));
    let turn = delete_activity::run(&args, Event::Replied(400, Reply::Text(Some(s("Unknown activity")))));
    assert_eq!(finished_with(&turn), &CommandExit::Error(s("Unknown activity")));
    let turn = delete_activity::run(&args, Event::Replied(204, Reply::Text(None)));
    assert_eq!(finished_with(&turn), &CommandExit::Error(s("Failed to delete activity!")));
    let turn = delete_activity::run(&args, Event::Sent(Some(500)));
    assert_eq!(finished_with(&turn), &CommandExit::Error(s("Failed to delete activity!")));
}

// ---------------------------------------------------------------- start

fn assert_starts(req: &HttpRequest, project: &str, name: &str) {
    assert_eq!(req.method, Method::Post);
    assert_eq!(req.url, format!("http://localhost:1337/projects/{}/activities", project));
    match &req.payload {
        Payload::StartActivity(dto) => {
            assert_eq!(dto.activity.project, project);
            assert_eq!(dto.activity.name, name);
            assert!(near_now(&dto.activity.started_at));
        }
        _ => panic!("expected a new activity"),
    }
}

#[test]
fn start_with_a_project_id_sends_at_once() {
    let args = StartActivityArgs { name: s("Writing"), project_id: Some(s("proj-7")) };
    let (stage, turn) = start_activity::run(&args, StartStage::Listing, Event::Begin);
    assert!(matches!(stage, StartStage::Starting));
    assert_starts(sent(&turn), "proj-7", "Writing");
}

#[test]
fn start_without_a_project_lets_the_user_choose() {
    let args = StartActivityArgs { name: s("Writing"), project_id: None };
    let (stage, turn) = start_activity::run(&args, StartStage::Listing, Event::Begin);
    assert_eq!(turn.print, "         Fetching your projects...");
    assert_eq!(sent(&turn).url, "http://localhost:1337/projects");
    let (stage, turn) = start_activity::run(&args, stage, Event::Sent(Some(200)));
    assert!(matches!(turn.action, Action::Read(ReadKind::Projects)));
    let projects = vec![project(Some("p-a"), "Alpha", Vec::new()), project(Some("p-b"), "Beta", Vec::new())];
    let (stage, turn) = start_activity::run(&args, stage, Event::Replied(200, Reply::Projects(Some(projects))));
    match &turn.action {
        Action::Pick(prompt, options) => {
            assert_eq!(prompt, "Which project are you working on?");
            assert_eq!(options, &vec![s("Alpha"), s("Beta")]);
        }
        _ => panic!("expected a choice"),
    }
    let (stage, turn) = start_activity::run(&args, stage, Event::Picked(Some(1)));
    assert!(matches!(stage, StartStage::Starting));
    assert_starts(sent(&turn), "p-b", "Writing");
}

#[test]
fn start_without_a_choice_fails() {
    let args = StartActivityArgs { name: s("Writing"), project_id: None };
    let projects = vec![project(Some("p-a"), "Alpha", Vec::new())];
    let (_, turn) = start_activity::run(&args, StartStage::Picking(projects), Event::Picked(None));
    assert_eq!(finished_with(&turn), &CommandExit::Error(s("You need to choose a project")));
    let (_, turn) = start_activity::run(&args, StartStage::Listing, Event::Sent(Some(500)));
    assert_eq!(finished_with(&turn), &CommandExit::Error(s("Failed to get projects")));
}

#[test]
fn start_outcomes() {
    let args = StartActivityArgs { name: s("Writing"), project_id: Some(s("proj-7")) };
    let (_, turn) = start_activity::run(&args, StartStage::Starting, Event::Sent(Some(200)));
    assert!(matches!(turn.action, Action::Read(ReadKind::Text)));
    let (_, turn) = start_activity::run(&args, StartStage::Starting, Event::Replied(200, Reply::Text(Some(s("{}")))));
    assert_eq!(finished_with(&turn), &CommandExit::Success(s("Activity started")));
    let (_, turn) =
        start_activity::run(&args, StartStage::Starting, Event::Replied(400, Reply::Text(Some(s("Already running")))));
    assert_eq!(finished_with(&turn), &CommandExit::Error(s("Already running")));
    let (_, turn) = start_activity::run(&args, StartStage::Starting, Event::Sent(Some(500)));
    assert_eq!(finished_with(&turn), &CommandExit::Error(s("Failed to start new activity!")));
}

// ---------------------------------------------------------------- stop

#[test]
fn stop_fetches_then_stops_an_activity_of_today() {
    let (stage, turn) = stop_current_activity::run(StopStage::Fetching, Event::Begin);
    assert_eq!(sent(&turn).url, "http://localhost:1337/user/activities/current");
    let started = now_millis().to_string();
    let (stage, turn) =
        stop_current_activity::run(stage, Event::Replied(200, Reply::CurrentActivity(Some(current(&started)))));
    let req = sent(&turn);
    assert_eq!(req.method, Method::Put);
    match (&stage, &req.payload) {
        (StopStage::Stopping, Payload::StopActivity(dto)) => {
            assert_eq!(req.url, "http://localhost:1337/projects/proj-1/activities/current/act-1");
            assert_eq!(dto.activity.id, Some(s("act-1")));
            assert_eq!(dto.activity.started_at, started);
            assert_eq!(dto.activity.name, "Writing");
            assert_eq!(dto.activity.project, "proj-1");
            assert_eq!(dto.activity.user, "user-1");
            assert!(near_now(&dto.activity.stopped_at));
        }
        // the local calendar may already be on the next day
        (StopStage::Syncing, Payload::SyncActivities(dto)) => {
            assert_eq!(req.url, "http://localhost:1337/sync/activities");
            assert_eq!(dto.activities.len(), 2);
        }
        _ => panic!("expected a stop"),
    }
}

#[test]
fn stop_splits_an_activity_of_earlier_days() {
    let started = (now_millis() - 3 * 86_400_000).to_string();
    let (stage, turn) = stop_current_activity::run(
        StopStage::Fetching,
        Event::Replied(200, Reply::CurrentActivity(Some(current(&started)))),
    );
    assert!(matches!(stage, StopStage::Syncing));
    let req = sent(&turn);
    assert_eq!(req.method, Method::Put);
    assert_eq!(req.url, "http://localhost:1337/sync/activities");
    match &req.payload {
        Payload::SyncActivities(dto) => {
            let acts = &dto.activities;
            assert!(acts.len() >= 3 && acts.len() <= 5);
            assert_eq!(acts[0].id, Some(s("act-1")));
            assert_eq!(acts[0].started_at, started);
            for (k, a) in acts.iter().enumerate() {
                assert_eq!(a.name, "Writing");
                assert_eq!(a.project, "proj-1");
                assert_eq!(a.user, "user-1");
                assert!(a.started_at.parse::<i64>().is_ok() && a.stopped_at.parse::<i64>().is_ok());
                if k > 0 {
                    assert!(a.id.is_none());
                    let from = a.started_at.parse::<i64>().unwrap();
                    let to = a.stopped_at.parse::<i64>().unwrap();
                    assert!(from <= to);
                }
            }
            assert!(near_now(&acts[acts.len() - 1].stopped_at));
        }
        _ => panic!("expected the activities of each day"),
    }
}

#[test]
fn stop_failures() {
    let (_, turn) = stop_current_activity::run(StopStage::Fetching, Event::Sent(Some(500)));
    assert_eq!(finished_with(&turn), &CommandExit::Error(s("Failed to stop current activity!")));
    let (_, turn) = stop_current_activity::run(StopStage::Fetching, Event::Sent(None));
    assert_eq!(finished_with(&turn), &CommandExit::Error(s("Failed to stop current activity!")));
    let (_, turn) = stop_current_activity::run(
        StopStage::Fetching,
        Event::Replied(200, Reply::CurrentActivity(Some(current("later")))),
    );
    assert!(matches!(turn.action, Action::Abort(_)));
}

#[test]
fn stop_outcomes() {
    let (_, turn) = stop_current_activity::run(StopStage::Stopping, Event::Sent(Some(200)));
    assert!(matches!(turn.action, Action::Read(ReadKind::Text)));
    let (_, turn) = stop_current_activity::run(StopStage::Syncing, Event::Replied(200, Reply::Text(Some(s("[]")))));
    assert_eq!(finished_with(&turn), &CommandExit::Success(s("Activity stopped")));
    let (_, turn) =
        stop_current_activity::run(StopStage::Stopping, Event::Replied(400, Reply::Text(Some(s("Not running")))));
    assert_eq!(finished_with(&turn), &CommandExit::Error(s("Not running")));
    let (_, turn) = stop_current_activity::run(StopStage::Stopping, Event::Sent(Some(502)));
    assert_eq!(finished_with(&turn), &CommandExit::Error(s("Faild to stop current activity!")));
}

// ---------------------------------------------------------------- update

#[test]
fn update_renames_the_current_activity() {
    let args = UpdateCurrentActivityArgs { name: s("Editing") };
    let (stage, turn) = update_current_activity::run(&args, UpdateStage::Fetching, Event::Begin);
    assert_eq!(sent(&turn).url, "http://localhost:1337/user/activities/current");
    let (stage, turn) = update_current_activity::run(
        &args,
        stage,
        Event::Replied(200, Reply::CurrentActivity(Some(current("1700000000000")))),
    );
    assert!(matches!(stage, UpdateStage::Updating));
    let req = sent(&turn);
    assert_eq!(req.method, Method::Put);
    assert_eq!(req.url, "http://localhost:1337/projects/proj-1/activities/current/act-1");
    match &req.payload {
        Payload::UpdateCurrentActivity(dto) => {
            assert_eq!(dto.activity.id, "act-1");
            assert_eq!(dto.activity.name, "Editing");
            assert_eq!(dto.activity.started_at, "1700000000000");
        }
        _ => panic!("expected a rename"),
    }
    let (_, turn) = update_current_activity::run(&args, UpdateStage::Updating, Event::Sent(Some(200)));
    assert!(matches!(turn.action, Action::Read(ReadKind::CurrentActivity)));
    let mut renamed = current(&now_millis().to_string());
    renamed.name = s("Editing");
    let (_, turn) =
        update_current_activity::run(&args, UpdateStage::Updating, Event::Replied(200, Reply::CurrentActivity(Some(renamed))));
    match &turn.action {
        Action::Finish(CommandExit::Normal(row)) => assert!(row.starts_with(&format!("{:<30} ", "Editing"))),
        _ => panic!("expected the renamed activity"),
    }
}

#[test]
fn update_failures() {
    let args = UpdateCurrentActivityArgs { name: s("Editing") };
    let (_, turn) = update_current_activity::run(&args, UpdateStage::Updating, Event::Sent(None));
    assert_eq!(finished_with(&turn), &CommandExit::Error(s("Failed to update current activity sfsdfasdf")));
    let (_, turn) = update_current_activity::run(&args, UpdateStage::Updating, Event::Sent(Some(500)));
    assert_eq!(finished_with(&turn), &CommandExit::Error(s("Failed to update current activity")));
    let (_, turn) =
        update_current_activity::run(&args, UpdateStage::Updating, Event::Replied(400, Reply::Text(Some(s("Bad name")))));
    assert_eq!(finished_with(&turn), &CommandExit::Error(s("Bad name")));
    let (_, turn) = update_current_activity::run(&args, UpdateStage::Fetching, Event::Sent(Some(500)));
    assert_eq!(finished_with(&turn), &CommandExit::Error(s("Failed to get current activity!")));
}

// ---------------------------------------------------------------- log

#[test]
fn log_asks_for_the_first_page_of_the_chosen_project() {
    let args = LogActivitiesArgs { all: false, started_date: None, end_date: None };
    let (stage, turn) = get_activities_log::run(&args, LogStage::Listing, Event::Begin);
    assert_eq!(turn.print, "         Fetching your projects...");
    let projects = vec![project(Some("p-a"), "Alpha", vec![member("u1", "a@x.io"), member("u2", "b@x.io")])];
    let (stage, turn) = get_activities_log::run(&args, stage, Event::Replied(200, Reply::Projects(Some(projects))));
    assert_eq!(turn.print, "");
    match &turn.action {
        Action::Pick(prompt, options) => {
            assert_eq!(prompt, "Select a project");
            assert_eq!(options, &vec![s("Alpha")]);
        }
        _ => panic!("expected a choice"),
    }
    let (stage, turn) = get_activities_log::run(&args, stage, Event::Picked(Some(0)));
    let req = sent(&turn);
    assert_eq!(req.method, Method::Get);
    assert_eq!(req.url, "http://localhost:1337/projects/p-a/activities");
    let query = req.query.as_ref().unwrap();
    assert_eq!(query.users, "[\"u1\",\"u2\"]");
    assert_eq!(query.limit, 10);
    assert_eq!(query.page, 0);
    assert!(matches!(stage, LogStage::Fetching(ref id, _) if id == "p-a"));
}

#[test]
fn log_pages_until_the_user_stops() {
    let args = LogActivitiesArgs { all: false, started_date: None, end_date: None };
    let query = LogActivitiesQueryParams { users: s("[]"), limit: 10, page: 4 };
    let stage = LogStage::Fetching(s("p-a"), query);
    let (stage, turn) = get_activities_log::run(&args, stage, Event::Sent(Some(200)));
    assert!(matches!(turn.action, Action::Read(ReadKind::Activities)));
    let page = vec![Activity { id: s("a"), name: s("First"), started_at: now_millis().to_string(), stopped_at: s("0") }];
    let (stage, turn) = get_activities_log::run(&args, stage, Event::Replied(200, Reply::Activities(Some(page))));
    assert_eq!(turn.print, format!("{}\n", log_header_line()));
    assert!(matches!(turn.action, Action::ConfirmLoadMore));
    let (next, turn) = get_activities_log::run(&args, stage, Event::Confirmed(Some(true)));
    let req = sent(&turn);
    assert_eq!(req.query.as_ref().unwrap().page, 5);
    assert!(matches!(next, LogStage::Fetching(_, ref q) if q.page == 5 && q.limit == 10 && q.users == "[]"));
    let stage = LogStage::Confirming(s("p-a"), LogActivitiesQueryParams { users: s("[]"), limit: 10, page: 5 });
    let (_, turn) = get_activities_log::run(&args, stage, Event::Confirmed(Some(false)));
    assert_eq!(finished_with(&turn), &CommandExit::Normal(s("")));
}

#[test]
fn log_with_all_moves_a_thousand_pages() {
    let args = LogActivitiesArgs { all: true, started_date: None, end_date: None };
    let stage = LogStage::Confirming(s("p-a"), LogActivitiesQueryParams { users: s("[]"), limit: 10000, page: 0 });
    let (_, turn) = get_activities_log::run(&args, stage, Event::Confirmed(Some(true)));
    assert_eq!(sent(&turn).query.as_ref().unwrap().page, 1000);
    let projects = vec![project(Some("p-a"), "Alpha", Vec::new())];
    let (stage, turn) =
        get_activities_log::run(&args, LogStage::Listing, Event::Replied(200, Reply::Projects(Some(projects))));
    assert!(turn.print.contains("WARNING: This is only 10000 of the latest activities per page, WE WILL FIX THIS LATER "));
    assert!(turn.print.ends_with('\n'));
    assert!(matches!(stage, LogStage::Picking(_, 10000)));
}

#[test]
fn log_endings() {
    let args = LogActivitiesArgs { all: false, started_date: None, end_date: None };
    let q = || LogActivitiesQueryParams { users: s("[]"), limit: 10, page: 0 };
    let (_, turn) = get_activities_log::run(&args, LogStage::Fetching(s("p"), q()), Event::Replied(200, Reply::Activities(Some(Vec::new()))));
    assert_eq!(finished_with(&turn), &CommandExit::Normal(s("")));
    let (_, turn) =
        get_activities_log::run(&args, LogStage::Fetching(s("p"), q()), Event::Replied(404, Reply::Text(Some(s("No project")))));
    assert_eq!(finished_with(&turn), &CommandExit::Error(s("No project")));
    let (_, turn) = get_activities_log::run(&args, LogStage::Confirming(s("p"), q()), Event::Confirmed(None));
    assert_eq!(finished_with(&turn), &CommandExit::Error(s("Something went wront!")));
    let (_, turn) = get_activities_log::run(&args, LogStage::Picking(Vec::new(), 10), Event::Picked(None));
    assert_eq!(finished_with(&turn), &CommandExit::Error(s("You need to choose a project")));
    let no_id = vec![project(None, "Alpha", Vec::new())];
    let (_, turn) = get_activities_log::run(&args, LogStage::Picking(no_id, 10), Event::Picked(Some(0)));
    assert!(matches!(turn.action, Action::Abort(_)));
    let last = LogStage::Confirming(s("p"), LogActivitiesQueryParams { users: s("[]"), limit: 10, page: u32::MAX });
    let (_, turn) = get_activities_log::run(&args, last, Event::Confirmed(Some(true)));
    assert!(matches!(turn.action, Action::Abort(_)));
}

#[test]
fn the_first_page_carries_the_users_text() {
    let (stage, turn) = get_activities_log::first_page(s("p-a"), s("[\"u1\"]"), 10);
    let req = sent(&turn);
    assert_eq!(req.url, "http://localhost:1337/projects/p-a/activities");
    let q = req.query.as_ref().unwrap();
    assert_eq!((q.users.as_str(), q.limit, q.page), ("[\"u1\"]", 10, 0));
    assert!(matches!(stage, LogStage::Fetching(ref id, ref q) if id == "p-a" && q.page == 0));
}

#[test]
fn the_start_request_carries_the_given_stamp() {
    let req = start_activity::start_activity_request_at(s("proj-7"), s("Writing"), 1_704_276_000_000);
    assert_eq!(req.url, "http://localhost:1337/projects/proj-7/activities");
    match &req.payload {
        Payload::StartActivity(dto) => assert_eq!(dto.activity.started_at, "1704276000000"),
        _ => panic!("expected a new activity"),
    }
}

#[test]
fn paging_passes_on_errors_and_ends_on_an_empty_page() {
    let q = || LogActivitiesQueryParams { users: s("[]"), limit: 10000, page: 1000 };
    let (_, turn) = get_activities_log::paginate_activities(s("p1"), q(), Err(CommandExit::Error(s("Not Found"))));
    assert_eq!(turn.print, "");
    assert_eq!(finished_with(&turn), &CommandExit::Error(s("Not Found")));
    let (_, turn) = get_activities_log::paginate_activities(s("p1"), q(), Ok(Vec::new()));
    assert_eq!(turn.print, "");
    assert_eq!(finished_with(&turn), &CommandExit::Normal(s("")));
}

#[test]
fn a_stop_over_three_days_syncs_three_segments() {
    let c = CurrentActivity {
        id: s("a1"),
        project_name: s("P"),
        project_id: s("p1"),
        name: s("w"),
        started_at: s("1704099600000"),
        user: s("u1"),
    };
    let instants: Vec<Result<i64, String>> = vec![Ok(1704153599000), Ok(1704153600000), Ok(1704239999000), Ok(1704240000000)];
    let (stage, req) = stop_current_activity::plan_stop_at(&c, 19725, 1704276000000, &instants).unwrap();
    assert!(matches!(stage, StopStage::Syncing));
    assert_eq!(req.method, Method::Put);
    assert_eq!(req.url, "http://localhost:1337/sync/activities");
    match &req.payload {
        Payload::SyncActivities(dto) => {
            let got: Vec<(Option<String>, String, String)> = dto
                .activities
                .iter()
                .map(|a| (a.id.clone(), a.started_at.clone(), a.stopped_at.clone()))
                .collect();
            assert_eq!(
                got,
                vec![
                    (Some(s("a1")), s("1704099600000"), s("1704153599000")),
                    (None, s("1704153600000"), s("1704239999000")),
                    (None, s("1704240000000"), s("1704276000000")),
                ]
            );
            for a in &dto.activities {
                assert_eq!((a.name.as_str(), a.project.as_str(), a.user.as_str()), ("w", "p1", "u1"));
            }
        }
        _ => panic!("expected the activities of each day"),
    }
}

#[test]
fn a_stop_on_the_start_day_stops_the_activity_itself() {
    let c = current("1704099600000");
    let (stage, req) = stop_current_activity::plan_stop_at(&c, 19723, 1704110000000, &vec![Err(s("x")), Err(s("y"))]).unwrap();
    assert!(matches!(stage, StopStage::Stopping));
    assert_eq!(req.url, "http://localhost:1337/projects/proj-1/activities/current/act-1");
    match &req.payload {
        Payload::StopActivity(dto) => {
            assert_eq!(dto.activity.id, Some(s("act-1")));
            assert_eq!(dto.activity.started_at, "1704099600000");
            assert_eq!(dto.activity.stopped_at, "1704110000000");
        }
        _ => panic!("expected a stop"),
    }
}

#[test]
fn a_missing_local_time_stops_the_program() {
    let c = current("1704099600000");
    let res = stop_current_activity::plan_stop_at(&c, 19724, 1704200000000, &vec![Ok(1704153599000), Err(s("No such local time"))]);
    assert!(matches!(res, Err(ref m) if m == "No such local time"));
    let first = s("Ambiguous local time, ranging from a to b");
    let res = stop_current_activity::plan_stop_at(&c, 19724, 1704200000000, &vec![Err(first.clone()), Err(s("No such local time"))]);
    assert!(matches!(res, Err(ref m) if *m == first));
    let res = stop_current_activity::plan_stop_at(&current("later"), 19724, 0, &Vec::new());
    assert!(matches!(res, Err(ref m) if m == "called `Result::unwrap()` on an `Err` value: ParseIntError"));
}

#[test]
fn day_boundaries_in_order() {
    let got: Vec<(i64, u32, u32, u32)> = (0..4).map(|j| stop_current_activity::stop_boundary(19723, 19725, j)).collect();
    assert_eq!(got, vec![(19723, 23, 59, 59), (19724, 0, 0, 0), (19724, 23, 59, 59), (19725, 0, 0, 0)]);
    assert_eq!(stop_current_activity::stop_boundary(19723, 19724, 1), (19724, 0, 0, 0));
}

#[test]
fn chrono_range_ends_where_stated() {
    assert_eq!(started_seconds("8210266876799000"), Ok(8_210_266_876_799));
    assert_eq!(started_seconds("8210266876800000"), Err(s("Invalid Date")));
    assert_eq!(started_seconds("-8334601228800000"), Ok(-8_334_601_228_800));
    assert_eq!(started_seconds("-8334601228801000"), Err(s("Invalid Date")));
}

#[test]
fn member_ids_are_escaped_as_json_strings() {
    let args = LogActivitiesArgs { all: true, started_date: None, end_date: None };
    let projects = vec![project(Some("p-a"), "Alpha", vec![member("a\"b", "a@x.io"), member("c\\d\n", "c@x.io")])];
    let (_, turn) = get_activities_log::run(&args, LogStage::Picking(projects, 10000), Event::Picked(Some(0)));
    let q = sent(&turn).query.as_ref().unwrap();
    assert_eq!(q.users, "[\"a\\\"b\",\"c\\\\d\\n\"]");
    assert_eq!((q.limit, q.page), (10000, 0));
}

#[test]
fn a_failed_sync_prints_its_status() {
    let (_, turn) = stop_current_activity::run(StopStage::Syncing, Event::Sent(Some(500)));
    assert_eq!(turn.print, "500\n");
    assert_eq!(finished_with(&turn), &CommandExit::Error(s("Faild to stop current activity!")));
    let (_, turn) = stop_current_activity::run(StopStage::Stopping, Event::Sent(Some(500)));
    assert_eq!(turn.print, "");
    let (_, turn) = stop_current_activity::run(StopStage::Syncing, Event::Sent(Some(200)));
    assert_eq!(turn.print, "");
}

#[test]
fn a_page_refused_by_status_prints_it() {
    let args = LogActivitiesArgs { all: false, started_date: None, end_date: None };
    let stage = LogStage::Fetching(s("p"), LogActivitiesQueryParams { users: s("[]"), limit: 10, page: 0 });
    let (_, turn) = get_activities_log::run(&args, stage, Event::Sent(Some(500)));
    assert_eq!(turn.print, "error is : 500\n");
    assert_eq!(finished_with(&turn), &CommandExit::Error(s("Failed to get current activity!")));
    let stage = LogStage::Fetching(s("p"), LogActivitiesQueryParams { users: s("[]"), limit: 10, page: 0 });
    let (_, turn) = get_activities_log::run(&args, stage, Event::Sent(None));
    assert_eq!(turn.print, "");
}

#[test]
fn an_accepted_sync_prints_its_reply() {
    let body = s("{\"ok\":true}\n");
    let (_, turn) = stop_current_activity::run(StopStage::Syncing, Event::Replied(200, Reply::Text(Some(body.clone()))));
    assert_eq!(turn.print, format!("{:?}\n", body));
    assert_eq!(turn.print, "\"{\\\"ok\\\":true}\\n\"\n");
    assert_eq!(finished_with(&turn), &CommandExit::Success(s("Activity stopped")));
    let (_, turn) = stop_current_activity::run(StopStage::Stopping, Event::Replied(200, Reply::Text(Some(body))));
    assert_eq!(turn.print, "");
}
