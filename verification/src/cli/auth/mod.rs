//! Signing in, up and out, and the checks on the email and the password
//! that signing in and up make before anything is sent.
pub mod sign_in;
pub mod sign_out;
pub mod sign_up;

use vstd::prelude::*;
use vstd::utf8::encode_utf8;

use crate::cli::command_exit::{error, text_of, CommandExit, ExitView};
use crate::cli::http_helper::{quiet, Action, HttpRequest, Method, Payload, Turn};
use crate::cli::API_URL;

verus! {

/// The email and password sent to sign in or up.
pub struct Credentials {
    pub email: String,
    pub password: String,
}

/// The pattern an email must match.
pub const EMAIL_VERIFICATION: &'static str =
    r"^[a-zA-Z0-9+_%-+.]{1,256}@[a-zA-Z0-9][a-zA-Z0-9-]{0,64}(.[a-zA-Z0-9][a-zA-Z0-9-]{0,25})+$";

/// `Regex::new(pattern)` succeeds.
pub uninterp spec fn regex_compiles(pattern: Seq<char>) -> bool;

/// `Regex::new(pattern).unwrap().is_match(text)`: some part of `text`
/// matches `pattern`.
pub uninterp spec fn regex_matches(pattern: Seq<char>, text: Seq<char>) -> bool;

/// Compiles `pattern` with `regex::Regex::new` and tests `text` with
/// `is_match`; `None` when the pattern does not compile. The result is
/// claimed to be a function of the pattern and the text alone (the regex
/// crate is deterministic, and its size limits are fixed defaults); what
/// that function is, is left to the crate.
#[verifier::external_body]
fn regex_is_match(pattern: &str, text: &str) -> (res: Option<bool>)
    ensures
        res is Some <==> regex_compiles(pattern@),
        res matches Some(b) ==> b == regex_matches(pattern@, text@),
{
    match regex::Regex::new(pattern) {
        Ok(re) => Some(re.is_match(text)),
        Err(_) => None,
    }
}

/// The email matches the email pattern.
pub open spec fn valid_email(email: Seq<char>) -> bool {
    regex_matches(EMAIL_VERIFICATION@, email)
}

/// A password between 6 and 32 bytes long in UTF-8.
pub open spec fn valid_password(password: Seq<char>) -> bool {
    6 <= encode_utf8(password).len() <= 32
}

/// The panic message of `unwrap` on a failed `Regex::new`.
pub open spec fn regex_failure() -> Seq<char> {
    "called `Result::unwrap()` on an `Err` value: regex::Error"@
}

/// Checks the email: `Ok(true)` when it matches the email pattern,
/// `Ok(false)` when not, or the panic message when the pattern does not
/// compile.
pub fn check_email(email: &String) -> (res: Result<bool, String>)
    ensures
        regex_compiles(EMAIL_VERIFICATION@) ==> res == Ok::<bool, String>(valid_email(email@)),
        !regex_compiles(EMAIL_VERIFICATION@) ==> (res matches Err(m) && m@ == regex_failure()),
{
    match regex_is_match(EMAIL_VERIFICATION, email.as_str()) {
        Some(b) => Ok(b),
        None => Err(text_of("called `Result::unwrap()` on an `Err` value: regex::Error")),
    }
}

/// Whether the password is between 6 and 32 bytes long.
pub fn check_password(password: &String) -> (res: bool)
    ensures
        res == valid_password(password@),
{
    let n = password.as_str().as_bytes().len();
    !(n < 6 || n > 32)
}

/// The error for an email that does not match the pattern.
pub open spec fn bad_email() -> ExitView {
    ExitView::Error("Email format is not correct!"@)
}

/// The error for a password of the wrong length.
pub open spec fn bad_password() -> ExitView {
    ExitView::Error("Password length must be between 6 and 32 characters!"@)
}

/// The text printed before the password prompt.
pub open spec fn password_prompt() -> Seq<char> {
    "Type your password\n"@
}

/// `req` posts the credentials `email` and `password` to `path`.
pub open spec fn credentials_request(
    req: HttpRequest,
    path: Seq<char>,
    email: Seq<char>,
    password: Seq<char>,
) -> bool {
    &&& req.method == Method::Post
    &&& req.url@ == API_URL@ + path
    &&& req.query is None
    &&& req.payload matches Payload::Credentials(c) && c.email@ == email && c.password@ == password
}

/// The request that posts the credentials to `path`.
pub fn credentials_post(path: &str, email: String, password: String) -> (res: HttpRequest)
    ensures
        credentials_request(res, path@, email@, password@),
{
    let mut url = text_of(API_URL);
    url.append(path);
    HttpRequest {
        method: Method::Post,
        url,
        query: None,
        payload: Payload::Credentials(Credentials { email, password }),
    }
}

/// Where signing in or up stands.
pub enum AuthStage {
    /// Checking the arguments (and the stage to begin in).
    Checking,
    /// Waiting for the password typed at the prompt.
    AwaitingPassword,
    /// The credentials were sent.
    Sending,
}

/// What comes after checking the email, once the password is known: the
/// request with the credentials, or the error for a password of the wrong
/// length.
pub fn credentials_or_error(path: &str, email: String, password: String) -> (res: Result<
    HttpRequest,
    CommandExit,
>)
    ensures
        valid_password(password@) ==> (res matches Ok(req) && credentials_request(
            req,
            path@,
            email@,
            password@,
        )),
        !valid_password(password@) ==> (res matches Err(e) && e@ == bad_password()),
{
    if check_password(&password) {
        Ok(credentials_post(path, email, password))
    } else {
        Err(error("Password length must be between 6 and 32 characters!"))
    }
}

/// The move for a known password: send the credentials to `path`, or end
/// with the error for a password of the wrong length.
pub open spec fn password_moves(
    email: Seq<char>,
    password: Seq<char>,
    path: Seq<char>,
    res: (AuthStage, Turn),
) -> bool {
    &&& res.1.print@ == Seq::<char>::empty()
    &&& if valid_password(password) {
        &&& res.0 is Sending
        &&& res.1.action matches Action::Send(req) && credentials_request(req, path, email, password)
    } else {
        res.1.action matches Action::Finish(x) && x@ == bad_password()
    }
}

/// The first move of signing in or up: the email is checked first, then
/// the password is asked for when the arguments hold none, then the
/// password is checked, then the credentials are sent to `path`.
pub open spec fn checking_moves(
    email: Seq<char>,
    password: Option<String>,
    path: Seq<char>,
    res: (AuthStage, Turn),
) -> bool {
    if !regex_compiles(EMAIL_VERIFICATION@) {
        res.1.action is Abort
    } else if !valid_email(email) {
        res.1.action matches Action::Finish(x) && x@ == bad_email()
    } else {
        match password {
            None => {
                &&& res.0 is AwaitingPassword
                &&& res.1.print@ == password_prompt()
                &&& res.1.action is AskPassword
            },
            Some(p) => password_moves(email, p@, path, res),
        }
    }
}

/// Signing in or up sends the credentials only when the email matches the
/// email pattern and the password is between 6 and 32 bytes long; what is
/// sent is the email and the password given or typed.
pub proof fn lemma_credentials_checked_before_sending(
    email: Seq<char>,
    password: Option<String>,
    path: Seq<char>,
    res: (AuthStage, Turn),
)
    requires
        checking_moves(email, password, path, res),
        res.1.action is Send,
    ensures
        valid_email(email),
        password matches Some(p) && valid_password(p@),
        res.1.action matches Action::Send(req) && credentials_request(req, path, email, password->0@),
{
}

/// A password typed at the prompt is sent only when it is between 6 and
/// 32 bytes long.
pub proof fn lemma_typed_password_checked(
    email: Seq<char>,
    password: Seq<char>,
    path: Seq<char>,
    res: (AuthStage, Turn),
)
    requires
        password_moves(email, password, path, res),
        res.1.action is Send,
    ensures
        valid_password(password),
        res.1.action matches Action::Send(req) && credentials_request(req, path, email, password),
{
}

/// The move once the password is known.
pub fn use_password(path: &str, email: String, password: String) -> (res: (AuthStage, Turn))
    ensures
        password_moves(email@, password@, path@, res),
{
    match credentials_or_error(path, email, password) {
        Ok(req) => (AuthStage::Sending, quiet(Action::Send(req))),
        Err(e) => (AuthStage::Checking, quiet(Action::Finish(e))),
    }
}

/// The first move of signing in or up once the email was checked:
/// `checked` is what checking it gave (whether it matches the pattern, or
/// the panic message when the pattern does not compile).
pub fn email_checked(path: &str, email: &String, password: &Option<String>, checked: Result<bool, String>) -> (res: (
    AuthStage,
    Turn,
))
    ensures
        checked matches Err(m) ==> (res.1.action matches Action::Abort(x) && x@ == m@),
        checked == Ok::<bool, String>(false) ==> (res.1.action matches Action::Finish(x) && x@ == bad_email()),
        checked == Ok::<bool, String>(true) ==> match *password {
            None => {
                &&& res.0 is AwaitingPassword
                &&& res.1.print@ == password_prompt()
                &&& res.1.action is AskPassword
            },
            Some(p) => password_moves(email@, p@, path@, res),
        },
{
    match checked {
        Err(m) => (AuthStage::Checking, quiet(Action::Abort(m))),
        Ok(false) => (AuthStage::Checking, quiet(Action::Finish(error("Email format is not correct!")))),
        Ok(true) => match password {
            Some(p) => use_password(path, email.clone(), p.clone()),
            None => (
                AuthStage::AwaitingPassword,
                Turn { print: text_of("Type your password\n"), action: Action::AskPassword },
            ),
        },
    }
}

/// The first move of signing in or up with `email` and `password` (when
/// given), sending the credentials to `path`.
pub fn check_credentials(path: &str, email: &String, password: &Option<String>) -> (res: (
    AuthStage,
    Turn,
))
    ensures
        checking_moves(email@, *password, path@, res),
{
    email_checked(path, email, password, check_email(email))
}

/// The move after the password prompt: a password that could not be read
/// stops the program (on `unwrap`).
pub fn password_typed(path: &str, email: &String, typed: Option<String>) -> (res: (AuthStage, Turn))
    ensures
        typed is None ==> res.1.action is Abort,
        typed matches Some(p) ==> password_moves(email@, p@, path@, res),
{
    match typed {
        Some(p) => use_password(path, email.clone(), p),
        None => (
            AuthStage::AwaitingPassword,
            quiet(Action::Abort(text_of("called `Option::unwrap()` on a `None` value"))),
        ),
    }
}

} // verus!
