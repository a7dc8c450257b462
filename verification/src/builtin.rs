//! The commands that the shell carries out itself: `cd` and `pwd`.

use vstd::prelude::*;
use vstd::utf8::*;
use crate::error::{text_view, ErrorView, ShellError};
use crate::host::{Resolution, ResolutionView};
use crate::path::{is_absolute, join, ShellPath};
use crate::shell::{moved, Shell, ShellView};
use crate::text::{same_text, texts};

verus! {

/// What `cd` was asked for: its first argument, and `~` where it has none.
pub open spec fn cd_argument(rest: Seq<Seq<char>>) -> Seq<char> {
    if rest.len() == 0 {
        "~"@
    } else {
        rest[0]
    }
}

/// The path that `cd` is to move to, before it is resolved: the home
/// directory for `~`, an absolute path as it stands, and any other path as
/// seen from the current directory.
pub open spec fn cd_target(state: ShellView, rest: Seq<Seq<char>>) -> Seq<u8> {
    let argument = cd_argument(rest);
    if argument == "~"@ {
        state.home
    } else {
        let path = encode_utf8(argument);
        if is_absolute(path) {
            path
        } else {
            join(state.current, path)
        }
    }
}

/// Where `cd` ends up once the filesystem has answered: in the directory
/// that the target resolved to, or nowhere, with the reason.
pub open spec fn cd_outcome(argument: Seq<char>, resolution: ResolutionView) -> Result<
    Seq<u8>,
    ErrorView,
> {
    match resolution {
        ResolutionView::NotFound => Err(ErrorView::NotFound { argument }),
        ResolutionView::NotDirectory => Err(ErrorView::InvalidTarget { argument }),
        ResolutionView::Directory(directory) => Ok(directory),
    }
}

/// What `pwd` prints: the current directory as text, where it is text.
pub open spec fn pwd_outcome(state: ShellView) -> Result<Seq<char>, ErrorView> {
    if valid_utf8(state.current) {
        Ok(decode_utf8(state.current))
    } else {
        Err(ErrorView::Encoding)
    }
}

/// The state after `cd`: the shell has moved where the target resolved to a
/// directory, and is as it was otherwise.
pub open spec fn cd_state(state: ShellView, resolution: ResolutionView) -> ShellView {
    match resolution {
        ResolutionView::Directory(directory) => moved(state, directory),
        _ => state,
    }
}

/// The state after the built-in command `cmd`: only `cd` changes it.
pub open spec fn internal_state(
    state: ShellView,
    cmd: Seq<char>,
    resolution: ResolutionView,
) -> ShellView {
    if cmd == "cd"@ {
        cd_state(state, resolution)
    } else {
        state
    }
}

/// What `cd` returns: no line where it moved, and otherwise the failure.
pub open spec fn cd_reply(argument: Seq<char>, resolution: ResolutionView) -> Result<
    Option<Seq<char>>,
    ErrorView,
> {
    match cd_outcome(argument, resolution) {
        Ok(_) => Ok(None),
        Err(error) => Err(error),
    }
}

/// What `pwd` returns: its line, or the failure.
pub open spec fn pwd_reply(state: ShellView) -> Result<Option<Seq<char>>, ErrorView> {
    match pwd_outcome(state) {
        Ok(text) => Ok(Some(text)),
        Err(error) => Err(error),
    }
}

/// What the built-in command `cmd` returns.
pub open spec fn internal_outcome(
    state: ShellView,
    cmd: Seq<char>,
    rest: Seq<Seq<char>>,
    resolution: ResolutionView,
) -> Result<Option<Seq<char>>, ErrorView> {
    if cmd == "cd"@ {
        cd_reply(cd_argument(rest), resolution)
    } else {
        pwd_reply(state)
    }
}

/// The result of a built-in command as a mathematical value.
pub open spec fn internal_view(result: Result<Option<String>, ShellError>) -> Result<
    Option<Seq<char>>,
    ErrorView,
> {
    match result {
        Ok(Some(text)) => Ok(Some(text@)),
        Ok(None) => Ok(None),
        Err(error) => Err(error@),
    }
}

impl Shell {
    /// What `cd` with the arguments `rest_args` was asked for.
    pub fn cd_argument(rest_args: &[String]) -> (argument: String)
        ensures
            argument@ == cd_argument(texts(rest_args@)),
    {
        if rest_args.len() == 0 {
            String::from_str("~")
        } else {
            rest_args[0].clone()
        }
    }

    /// The path that `cd` with the arguments `rest_args` is to move to. The
    /// host resolves it, and `execute_internal` takes the answer.
    pub fn cd_target(&self, rest_args: &[String]) -> (target: ShellPath)
        ensures
            target@ == cd_target(self@, texts(rest_args@)),
    {
        let argument = Shell::cd_argument(rest_args);
        if same_text(argument.as_str(), "~") {
            self.home_directory().clone()
        } else {
            let path = ShellPath::from_text(argument.as_str());
            if path.is_absolute() {
                path
            } else {
                self.current_directory().join(&path)
            }
        }
    }

    /// Completes `cd` with the arguments `rest_args`, given what the
    /// filesystem said of its target: moves there where that is a directory,
    /// and stays otherwise.
    pub fn change_directory(&mut self, rest_args: &[String], resolution: Resolution) -> (result:
        Result<(), ShellError>)
        ensures
            final(self)@ == cd_state(old(self)@, resolution@),
            match cd_outcome(cd_argument(texts(rest_args@)), resolution@) {
                Ok(_) => result is Ok,
                Err(error) => result matches Err(e) && e@ == error,
            },
    {
        match resolution {
            Resolution::NotFound => Err(
                ShellError::NotFound { argument: Shell::cd_argument(rest_args) },
            ),
            Resolution::NotDirectory => Err(
                ShellError::InvalidTarget { argument: Shell::cd_argument(rest_args) },
            ),
            Resolution::Directory(directory) => {
                self.cd(directory);
                Ok(())
            },
        }
    }

    /// The current directory as text.
    pub fn pwd(&self) -> (result: Result<String, ShellError>)
        ensures
            text_view(result) == pwd_outcome(self@),
    {
        match self.current_directory().to_text() {
            Some(text) => Ok(text),
            None => Err(ShellError::Encoding),
        }
    }

    /// Carries out the built-in command `cmd`, which is `cd` or `pwd`.
    ///
    /// `resolution` is what the filesystem said of `cd_target(rest_args)`;
    /// `pwd` does not read it. A command that prints returns its line.
    pub fn execute_internal(
        &mut self,
        cmd: &str,
        rest_args: &[String],
        resolution: Resolution,
    ) -> (result: Result<Option<String>, ShellError>)
        requires
            cmd@ == "cd"@ || cmd@ == "pwd"@,
        ensures
            final(self)@ == internal_state(old(self)@, cmd@, resolution@),
            internal_view(result) == internal_outcome(
                old(self)@,
                cmd@,
                texts(rest_args@),
                resolution@,
            ),
    {
        if same_text(cmd, "cd") {
            match self.change_directory(rest_args, resolution) {
                Ok(()) => Ok(None),
                Err(error) => Err(error),
            }
        } else {
            match self.pwd() {
                Ok(text) => Ok(Some(text)),
                Err(error) => Err(error),
            }
        }
    }
}

} // verus!
