use pendulums::cli::api_url;
use pendulums::cli::command_exit::CommandExit;
use pendulums::cli::http_helper::{finish_or_continue, quiet, Action, HttpHelper, Progress, ReadKind, Reply, Screen};
use pendulums::cli::API_URL;

fn err(s: &str) -> CommandExit {
    CommandExit::Error(String::from(s))
}

#[test]
fn api_url_appends_the_path() {
    assert_eq!(api_url("/projects"), "http://localhost:1337/projects");
    assert_eq!(API_URL, "http://localhost:1337");
}

#[test]
fn a_request_that_was_not_sent_is_refused() {
    match HttpHelper::request(None) {
        Screen::Refuse(e) => assert_eq!(e, err("No internet connection!")),
        _ => panic!("expected a refusal"),
    }
}

#[test]
fn statuses_503_and_403_are_read_then_refused() {
    assert!(matches!(HttpHelper::request(Some(503)), Screen::ReadThenRefuse));
    assert!(matches!(HttpHelper::request(Some(403)), Screen::ReadThenRefuse));
}

#[test]
fn other_statuses_pass() {
    for status in [200u16, 201, 204, 400, 401, 404, 500, 502] {
        assert!(matches!(HttpHelper::request(Some(status)), Screen::Pass(s) if s == status));
    }
}

#[test]
fn refusal_messages() {
    let read = Reply::Text(Some(String::from("busy")));
    assert_eq!(
        HttpHelper::refusal(503, &read),
        err("You have reached the authentication limits, please try in a few minutes!")
    );
    assert_eq!(HttpHelper::refusal(403, &read), err("You need to sign in first!"));
    assert_eq!(HttpHelper::refusal(403, &Reply::Text(None)), err("Failed to sign in"));
    assert_eq!(HttpHelper::refusal(503, &Reply::Text(None)), err("Failed to sign in"));
}

#[test]
fn finish_or_continue_ends_a_settled_exchange() {
    let t = finish_or_continue(Progress::Settled(CommandExit::Success(String::from("done"))));
    assert_eq!(t.print, "");
    assert!(matches!(t.action, Action::Finish(CommandExit::Success(ref m)) if m == "done"));
    let t = finish_or_continue(Progress::Ongoing(Action::Read(ReadKind::Text)));
    assert!(matches!(t.action, Action::Read(ReadKind::Text)));
}

#[test]
fn quiet_prints_nothing() {
    let t = quiet(Action::AskPassword);
    assert_eq!(t.print, "");
    assert!(matches!(t.action, Action::AskPassword));
}
