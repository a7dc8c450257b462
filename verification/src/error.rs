//! The ways in which a command or a read can fail.

use vstd::prelude::*;
use crate::report::Stream;

verus! {

/// A failure of the shell. None of them ends the session.
#[derive(Debug, PartialEq, Eq)]
pub enum ShellError {
    /// The input has ended: no line was there to read.
    EndOfInput,
    /// A line could not be read.
    Input,
    /// The target of `cd` could not be resolved: it does not exist or cannot
    /// be reached. `argument` is what the user wrote.
    NotFound { argument: String },
    /// The target of `cd` exists and is not a directory.
    InvalidTarget { argument: String },
    /// The current directory is not valid text, so `pwd` cannot print it.
    Encoding,
    /// What a program wrote on `stream` is not valid text.
    Decode { stream: Stream, cause: String },
    /// The program could not be started.
    Spawn { cause: String },
    /// The output of the finished program could not be collected.
    Collect { cause: String },
}

/// A [`ShellError`] as a mathematical value.
pub enum ErrorView {
    EndOfInput,
    Input,
    NotFound { argument: Seq<char> },
    InvalidTarget { argument: Seq<char> },
    Encoding,
    Decode { stream: Stream, cause: Seq<char> },
    Spawn { cause: Seq<char> },
    Collect { cause: Seq<char> },
}

impl View for ShellError {
    type V = ErrorView;

    open spec fn view(&self) -> ErrorView {
        match *self {
            ShellError::EndOfInput => ErrorView::EndOfInput,
            ShellError::Input => ErrorView::Input,
            ShellError::NotFound { argument } => ErrorView::NotFound { argument: argument@ },
            ShellError::InvalidTarget { argument } => ErrorView::InvalidTarget {
                argument: argument@,
            },
            ShellError::Encoding => ErrorView::Encoding,
            ShellError::Decode { stream, cause } => ErrorView::Decode { stream, cause: cause@ },
            ShellError::Spawn { cause } => ErrorView::Spawn { cause: cause@ },
            ShellError::Collect { cause } => ErrorView::Collect { cause: cause@ },
        }
    }
}

/// The line that tells the user of a failure.
pub open spec fn message(error: ErrorView) -> Seq<char> {
    match error {
        ErrorView::EndOfInput => "EOF reached"@,
        ErrorView::Input => "Cannot read from stdin"@,
        ErrorView::NotFound { argument } => "cd: "@ + argument + ": No such file or directory"@,
        ErrorView::InvalidTarget { argument } => "cd: '"@ + argument + "' is not a directory"@,
        ErrorView::Encoding => "pwd: current directory is not valid UTF-8"@,
        ErrorView::Decode { stream, cause } => match stream {
            Stream::Output => "Failed to parse stdout: "@ + cause,
            Stream::Error => "Failed to parse stderr: "@ + cause,
        },
        ErrorView::Spawn { cause } => "failed to call ls: "@ + cause,
        ErrorView::Collect { cause } => "failed to get the output of ls: "@ + cause,
    }
}

/// A text or a failure as a mathematical value.
pub open spec fn text_view(result: Result<String, ShellError>) -> Result<Seq<char>, ErrorView> {
    match result {
        Ok(text) => Ok(text@),
        Err(error) => Err(error@),
    }
}

impl ShellError {
    /// The line that tells the user of this failure.
    pub fn message(&self) -> (text: String)
        ensures
            text@ == message(self@),
    {
        match self {
            ShellError::EndOfInput => String::from_str("EOF reached"),
            ShellError::Input => String::from_str("Cannot read from stdin"),
            ShellError::NotFound { argument } => {
                let mut text = String::from_str("cd: ");
                text.append(argument.as_str());
                text.append(": No such file or directory");
                text
            },
            ShellError::InvalidTarget { argument } => {
                let mut text = String::from_str("cd: '");
                text.append(argument.as_str());
                text.append("' is not a directory");
                text
            },
            ShellError::Encoding => String::from_str("pwd: current directory is not valid UTF-8"),
            ShellError::Decode { stream, cause } => {
                let mut text = match stream {
                    Stream::Output => String::from_str("Failed to parse stdout: "),
                    Stream::Error => String::from_str("Failed to parse stderr: "),
                };
                text.append(cause.as_str());
                text
            },
            ShellError::Spawn { cause } => {
                let mut text = String::from_str("failed to call ls: ");
                text.append(cause.as_str());
                text
            },
            ShellError::Collect { cause } => {
                let mut text = String::from_str("failed to get the output of ls: ");
                text.append(cause.as_str());
                text
            },
        }
    }
}

} // verus!
