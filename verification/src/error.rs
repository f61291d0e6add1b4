//! The ways in which evaluating a line can fail.

use vstd::prelude::*;
use crate::text::{glue, decimal, decimal_text};

verus! {

/// Failure to split a line into words.
#[derive(Debug, Clone, Copy, PartialEq, Eq, Structural)]
pub enum TokenizeError {
    /// The line ended inside a single- or double-quoted section.
    UnclosedQuote,
}

/// Failure to separate redirections from the command.
#[derive(Debug, Clone, Copy, PartialEq, Eq, Structural)]
pub enum RedirectError {
    /// A redirection operator was the last word of the line.
    MissingFilename,
}

/// Anything that can end the evaluation of one command.
#[derive(Debug, Clone, PartialEq, Eq)]
pub enum ShellError {
    /// A file or stream operation failed; the text describes the failure.
    Io(String),
    /// A required environment variable is missing; the text says which
    /// and for what.
    Env(String),
    /// The command line was malformed or named nothing that can be run.
    Command(String),
    /// An external program ended with a status other than success.
    CommandFailed { code: i32, message: String },
    /// The shell was asked to terminate with this code.
    Exit(i32),
}

/// The mathematical content of a `ShellError`.
pub enum Failure {
    Io(Seq<char>),
    Env(Seq<char>),
    Command(Seq<char>),
    CommandFailed { code: i32, message: Seq<char> },
    Exit(i32),
}

impl View for ShellError {
    type V = Failure;

    open spec fn view(&self) -> Failure {
        match self {
            ShellError::Io(m) => Failure::Io(m@),
            ShellError::Env(m) => Failure::Env(m@),
            ShellError::Command(m) => Failure::Command(m@),
            ShellError::CommandFailed { code, message } => Failure::CommandFailed {
                code: *code,
                message: message@,
            },
            ShellError::Exit(code) => Failure::Exit(*code),
        }
    }
}

/// The report of a program that failed, given its exit code as text and
/// what it wrote to standard error.
pub open spec fn failed_report(code: Seq<char>, message: Seq<char>) -> Seq<char> {
    "Command failed with exit code "@ + code + ": "@ + message
}

/// The report of a request to terminate, given the exit code as text.
pub open spec fn exit_report(code: Seq<char>) -> Seq<char> {
    "Exit requested with code: "@ + code
}

/// The text by which a failure is reported to the user.
pub open spec fn message_of(f: Failure) -> Seq<char> {
    match f {
        Failure::Io(m) => "IO error: "@ + m,
        Failure::Env(m) => "Environment error: "@ + m,
        Failure::Command(m) => m,
        Failure::CommandFailed { code, message } => failed_report(decimal(code), message),
        Failure::Exit(code) => exit_report(decimal(code)),
    }
}

/// Words the report of a program that failed. `code` is its exit code in
/// decimal notation.
pub fn report_failed(code: &str, message: &str) -> (s: String)
    ensures
        s@ == failed_report(code@, message@),
{
    let mut s = glue("Command failed with exit code ", code);
    s.append(": ");
    s.append(message);
    s
}

/// Words the report of a request to terminate. `code` is the exit code in
/// decimal notation.
pub fn report_exit(code: &str) -> (s: String)
    ensures
        s@ == exit_report(code@),
{
    glue("Exit requested with code: ", code)
}

/// The failure that an unclosed quote is reported as.
pub open spec fn tokenize_failure(e: TokenizeError) -> Failure {
    Failure::Command("Unclosed quote in input"@)
}

/// The failure that a redirection without target is reported as.
pub open spec fn redirect_failure(e: RedirectError) -> Failure {
    Failure::Command("Missing filename for redirection operator"@)
}

impl ShellError {
    /// A `Command` failure with the given text.
    pub fn command(text: &str) -> (e: ShellError)
        ensures
            e@ == Failure::Command(text@),
    {
        ShellError::Command(text.to_owned())
    }

    /// An `Env` failure with the given text.
    pub fn env(text: &str) -> (e: ShellError)
        ensures
            e@ == Failure::Env(text@),
    {
        ShellError::Env(text.to_owned())
    }

    /// The failure that stands for a word-splitting error.
    pub fn from_tokenize(e: TokenizeError) -> (r: ShellError)
        ensures
            r@ == tokenize_failure(e),
    {
        ShellError::command("Unclosed quote in input")
    }

    /// The failure that stands for a redirection error.
    pub fn from_redirect(e: RedirectError) -> (r: ShellError)
        ensures
            r@ == redirect_failure(e),
    {
        ShellError::command("Missing filename for redirection operator")
    }

    /// Whether this is the request to terminate the shell rather than a
    /// genuine failure.
    pub fn is_exit(&self) -> (b: bool)
        ensures
            b == (self@ is Exit),
    {
        match self {
            ShellError::Exit(_) => true,
            _ => false,
        }
    }

    /// The text by which this failure is reported to the user.
    pub fn message(&self) -> (s: String)
        ensures
            s@ == message_of(self@),
    {
        match self {
            ShellError::Io(m) => glue("IO error: ", m.as_str()),
            ShellError::Env(m) => glue("Environment error: ", m.as_str()),
            ShellError::Command(m) => m.clone(),
            ShellError::CommandFailed { code, message } => report_failed(
                decimal_text(*code).as_str(),
                message.as_str(),
            ),
            ShellError::Exit(code) => report_exit(decimal_text(*code).as_str()),
        }
    }
}

} // verus!
