//! How a command ends: the message that `main` prints, and whether the
//! process fails.
use vstd::prelude::*;

verus! {

/// The end of a command: a plain message, a success message (printed
/// green) or an error (printed red, exit status 1).
#[derive(Debug, PartialEq, Eq)]
pub enum CommandExit {
    Normal(String),
    Success(String),
    Error(String),
}

/// A `CommandExit` with its message as text.
pub enum ExitView {
    Normal(Seq<char>),
    Success(Seq<char>),
    Error(Seq<char>),
}

impl View for CommandExit {
    type V = ExitView;

    open spec fn view(&self) -> ExitView {
        match self {
            CommandExit::Normal(m) => ExitView::Normal(m@),
            CommandExit::Success(m) => ExitView::Success(m@),
            CommandExit::Error(m) => ExitView::Error(m@),
        }
    }
}

/// A fresh `String` holding `s`.
pub fn text_of(s: &str) -> (res: String)
    ensures
        res@ == s@,
{
    s.to_owned()
}

/// `CommandExit::Normal` with the message `s`.
pub fn normal(s: &str) -> (res: CommandExit)
    ensures
        res@ == ExitView::Normal(s@),
{
    CommandExit::Normal(text_of(s))
}

/// `CommandExit::Success` with the message `s`.
pub fn success(s: &str) -> (res: CommandExit)
    ensures
        res@ == ExitView::Success(s@),
{
    CommandExit::Success(text_of(s))
}

/// `CommandExit::Error` with the message `s`.
pub fn error(s: &str) -> (res: CommandExit)
    ensures
        res@ == ExitView::Error(s@),
{
    CommandExit::Error(text_of(s))
}

} // verus!
