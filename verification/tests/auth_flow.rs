use pendulums::cli::auth::sign_in::{self, SignIn};
use pendulums::cli::auth::sign_up::{self, SignUp};
use pendulums::cli::auth::{check_email, check_password, credentials_or_error, email_checked, sign_out, AuthStage};
use pendulums::cli::command_exit::CommandExit;
use pendulums::cli::http_helper::{Action, Event, HttpRequest, Method, Payload, ReadKind, Reply, Turn};

fn s(x: &str) -> String {
    String::from(x)
}

fn finished_with(turn: &Turn) -> &CommandExit {
    match &turn.action {
        Action::Finish(e) => e,
        _ => panic!("expected the command to finish"),
    }
}

fn posted_credentials(req: &HttpRequest, url: &str, email: &str, password: &str) {
    assert_eq!(req.method, Method::Post);
    assert_eq!(req.url, url);
    assert!(req.query.is_none());
    match &req.payload {
        Payload::Credentials(c) => {
            assert_eq!(c.email, email);
            assert_eq!(c.password, password);
        }
        _ => panic!("expected credentials"),
    }
}

fn sign_in_args(email: &str, password: Option<&str>) -> SignIn {
    SignIn { email: s(email), password: password.map(s) }
}

#[test]
fn emails_are_checked_against_the_pattern() {
    assert_eq!(check_email(&s("john.doe@test.com")), Ok(true));
    assert_eq!(check_email(&s("mary+work@mail.example.org")), Ok(true));
    assert_eq!(check_email(&s("not-an-email")), Ok(false));
    assert_eq!(check_email(&s("@test.com")), Ok(false));
}

#[test]
fn passwords_are_counted_in_bytes() {
    assert!(!check_password(&s("12345")));
    assert!(check_password(&s("123456")));
    assert!(check_password(&s("12345678901234567890123456789012")));
    assert!(!check_password(&s("123456789012345678901234567890123")));
    // three characters, six bytes
    assert!(check_password(&s("ééé")));
}

#[test]
fn credentials_or_error_refuses_a_short_password() {
    match credentials_or_error("/auth/signin", s("a@b.co"), s("123")) {
        Err(e) => assert_eq!(e, CommandExit::Error(s("Password length must be between 6 and 32 characters!"))),
        Ok(_) => panic!("a short password must be refused"),
    }
    match credentials_or_error("/auth/signin", s("a@b.co"), s("secret12")) {
        Ok(req) => posted_credentials(&req, "http://localhost:1337/auth/signin", "a@b.co", "secret12"),
        Err(_) => panic!("a valid password must be sent"),
    }
}

#[test]
fn sign_in_with_a_bad_email_sends_nothing() {
    let (_, turn) = sign_in::run(&sign_in_args("john", Some("secret12")), AuthStage::Checking, Event::Begin);
    assert_eq!(finished_with(&turn), &CommandExit::Error(s("Email format is not correct!")));
}

#[test]
fn sign_in_with_a_short_password_sends_nothing() {
    let (_, turn) = sign_in::run(&sign_in_args("john@doe.com", Some("12345")), AuthStage::Checking, Event::Begin);
    assert_eq!(
        finished_with(&turn),
        &CommandExit::Error(s("Password length must be between 6 and 32 characters!"))
    );
}

#[test]
fn sign_in_sends_the_given_credentials() {
    let (stage, turn) =
        sign_in::run(&sign_in_args("john@doe.com", Some("secret12")), AuthStage::Checking, Event::Begin);
    assert!(matches!(stage, AuthStage::Sending));
    assert_eq!(turn.print, "");
    match &turn.action {
        Action::Send(req) => posted_credentials(req, "http://localhost:1337/auth/signin", "john@doe.com", "secret12"),
        _ => panic!("expected a request"),
    }
}

#[test]
fn sign_in_asks_for_a_missing_password() {
    let args = sign_in_args("john@doe.com", None);
    let (stage, turn) = sign_in::run(&args, AuthStage::Checking, Event::Begin);
    assert!(matches!(stage, AuthStage::AwaitingPassword));
    assert_eq!(turn.print, "Type your password\n");
    assert!(matches!(turn.action, Action::AskPassword));

    let (stage, turn) = sign_in::run(&args, stage, Event::Password(Some(s("typed-secret"))));
    assert!(matches!(stage, AuthStage::Sending));
    match &turn.action {
        Action::Send(req) => {
            posted_credentials(req, "http://localhost:1337/auth/signin", "john@doe.com", "typed-secret")
        }
        _ => panic!("expected a request"),
    }
}

#[test]
fn a_typed_password_is_checked_too() {
    let args = sign_in_args("john@doe.com", None);
    let (_, turn) = sign_in::run(&args, AuthStage::AwaitingPassword, Event::Password(Some(s("abc"))));
    assert_eq!(
        finished_with(&turn),
        &CommandExit::Error(s("Password length must be between 6 and 32 characters!"))
    );
}

#[test]
fn an_unreadable_password_stops_the_program() {
    let args = sign_in_args("john@doe.com", None);
    let (_, turn) = sign_in::run(&args, AuthStage::AwaitingPassword, Event::Password(None));
    assert!(matches!(turn.action, Action::Abort(_)));
}

#[test]
fn sign_in_accepted_keeps_the_cookies() {
    let args = sign_in_args("john@doe.com", Some("secret12"));
    let (_, turn) = sign_in::run(&args, AuthStage::Sending, Event::Sent(Some(200)));
    assert!(
        matches!(turn.action, Action::SaveCookiesAndFinish(CommandExit::Success(ref m)) if m == "Sign in successful")
    );
}

#[test]
fn sign_in_refused_gives_the_message_of_the_body() {
    let args = sign_in_args("john@doe.com", Some("secret12"));
    let (stage, turn) = sign_in::run(&args, AuthStage::Sending, Event::Sent(Some(400)));
    assert!(matches!(turn.action, Action::Read(ReadKind::SignInError)));
    let (_, turn) =
        sign_in::run(&args, stage, Event::Replied(400, Reply::ErrorMessage(Some(s("Wrong email or password")))));
    assert_eq!(finished_with(&turn), &CommandExit::Error(s("Wrong email or password")));
    let (_, turn) = sign_in::run(&args, AuthStage::Sending, Event::Replied(400, Reply::ErrorMessage(None)));
    assert_eq!(finished_with(&turn), &CommandExit::Error(s("Failed to sign in")));
}

#[test]
fn sign_in_other_outcomes() {
    let args = sign_in_args("john@doe.com", Some("secret12"));
    let (_, turn) = sign_in::run(&args, AuthStage::Sending, Event::Sent(Some(500)));
    assert_eq!(finished_with(&turn), &CommandExit::Error(s("Failed to sign in")));
    let (_, turn) = sign_in::run(&args, AuthStage::Sending, Event::Sent(None));
    assert_eq!(finished_with(&turn), &CommandExit::Error(s("No internet connection!")));
    let (_, turn) = sign_in::run(&args, AuthStage::Sending, Event::Sent(Some(503)));
    assert!(matches!(turn.action, Action::Read(ReadKind::Text)));
    let (_, turn) = sign_in::run(&args, AuthStage::Sending, Event::Replied(503, Reply::Text(Some(s("slow down")))));
    assert_eq!(
        finished_with(&turn),
        &CommandExit::Error(s("You have reached the authentication limits, please try in a few minutes!"))
    );
}

#[test]
fn sign_up_sends_to_its_own_path() {
    let args = SignUp { email: s("mary@doe.com"), password: Some(s("secret12")) };
    let (_, turn) = sign_up::run(&args, AuthStage::Checking, Event::Begin);
    match &turn.action {
        Action::Send(req) => posted_credentials(req, "http://localhost:1337/auth/signup", "mary@doe.com", "secret12"),
        _ => panic!("expected a request"),
    }
}

#[test]
fn sign_up_outcomes() {
    let args = SignUp { email: s("mary@doe.com"), password: Some(s("secret12")) };
    let (_, turn) = sign_up::run(&args, AuthStage::Sending, Event::Sent(Some(200)));
    assert!(matches!(turn.action, Action::Read(ReadKind::Text)));
    let (_, turn) = sign_up::run(&args, AuthStage::Sending, Event::Replied(200, Reply::Text(Some(s("ok")))));
    assert_eq!(
        finished_with(&turn),
        &CommandExit::Success(s("Please checkout your email and confirm your email, then come back and sign in"))
    );
    let (_, turn) = sign_up::run(&args, AuthStage::Sending, Event::Sent(Some(400)));
    assert!(matches!(turn.action, Action::Read(ReadKind::SignUpError)));
    let (_, turn) =
        sign_up::run(&args, AuthStage::Sending, Event::Replied(400, Reply::ErrorMessage(Some(s("Email taken")))));
    assert_eq!(finished_with(&turn), &CommandExit::Error(s("Email taken")));
    let (_, turn) = sign_up::run(&args, AuthStage::Sending, Event::Replied(200, Reply::Text(None)));
    assert_eq!(finished_with(&turn), &CommandExit::Error(s("Failed to sign up")));
    let (_, turn) = sign_up::run(&args, AuthStage::Sending, Event::Sent(Some(418)));
    assert_eq!(finished_with(&turn), &CommandExit::Error(s("Failed to sign up")));
}

#[test]
fn sign_out_requests_the_end_of_the_session() {
    let turn = sign_out::run(Event::Begin);
    match &turn.action {
        Action::Send(req) => {
            assert_eq!(req.method, Method::Get);
            assert_eq!(req.url, "http://localhost:1337/auth/signout");
            assert!(matches!(req.payload, Payload::Empty));
        }
        _ => panic!("expected a request"),
    }
}

#[test]
fn sign_out_forgets_the_cookies_on_200_only() {
    let turn = sign_out::run(Event::Sent(Some(200)));
    assert_eq!(turn.print, "");
    assert!(
        matches!(turn.action, Action::ForgetCookiesAndFinish(CommandExit::Success(ref m)) if m == "Sign out successful")
    );
    let turn = sign_out::run(Event::Sent(Some(404)));
    assert_eq!(turn.print, "404\n");
    assert_eq!(finished_with(&turn), &CommandExit::Error(s("Failed to sign out")));
    let turn = sign_out::run(Event::Sent(Some(403)));
    assert_eq!(turn.print, "");
    assert!(matches!(turn.action, Action::Read(ReadKind::Text)));
    let turn = sign_out::run(Event::Replied(403, Reply::Text(Some(s("")))));
    assert_eq!(finished_with(&turn), &CommandExit::Error(s("You need to sign in first!")));
}

#[test]
fn the_first_move_follows_the_email_check() {
    let email = s("john@doe.com");
    let (_, turn) = email_checked("/auth/signin", &email, &Some(s("secret12")), Ok(false));
    assert_eq!(finished_with(&turn), &CommandExit::Error(s("Email format is not correct!")));
    let (_, turn) = email_checked("/auth/signin", &email, &Some(s("secret12")), Err(s("bad pattern")));
    assert!(matches!(turn.action, Action::Abort(ref m) if m == "bad pattern"));
    let (stage, turn) = email_checked("/auth/signup", &email, &None, Ok(true));
    assert!(matches!(stage, AuthStage::AwaitingPassword));
    assert_eq!(turn.print, "Type your password\n");
    let (_, turn) = email_checked("/auth/signup", &email, &Some(s("secret12")), Ok(true));
    match &turn.action {
        Action::Send(req) => posted_credentials(req, "http://localhost:1337/auth/signup", "john@doe.com", "secret12"),
        _ => panic!("expected a request"),
    }
}
