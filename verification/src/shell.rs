//! The state of the shell, and how a shell comes to be.

use vstd::prelude::*;
use crate::path::ShellPath;

verus! {

/// The state of a shell: where it is, where its user is at home, and how it
/// prompts.
#[derive(Debug)]
pub struct Shell {
    curr_dir: ShellPath,
    prompt: String,
    home_dir: ShellPath,
}

/// The state of a [`Shell`] as a mathematical value.
pub struct ShellView {
    /// The current directory.
    pub current: Seq<u8>,
    /// The home directory.
    pub home: Seq<u8>,
    /// The prompt.
    pub prompt: Seq<char>,
}

impl View for Shell {
    type V = ShellView;

    closed spec fn view(&self) -> ShellView {
        ShellView { current: self.curr_dir@, home: self.home_dir@, prompt: self.prompt@ }
    }
}

/// The state in which a shell starts: in the home directory.
pub open spec fn initial(home: Seq<u8>) -> ShellView {
    ShellView { current: home, home, prompt: "shell-rs> "@ }
}

/// `state` after a move to `directory`: nothing else changes.
pub open spec fn moved(state: ShellView, directory: Seq<u8>) -> ShellView {
    ShellView { current: directory, ..state }
}

/// Calls `dirs::home_dir` and hands on the path it finds, byte for byte. The
/// answer depends on the user's environment, so the contract claims nothing
/// of it.
#[verifier::external_body]
fn find_home() -> Option<Vec<u8>> {
    match dirs::home_dir() {
        Some(path) => Some(path.as_os_str().as_encoded_bytes().to_vec()),
        None => None,
    }
}

impl Shell {
    /// A shell for the user whose home directory the environment names, if it
    /// names one.
    pub fn new() -> (shell: Option<Shell>)
        ensures
            shell matches Some(s) ==> s@ == initial(s@.home),
    {
        Shell::from_lookup(find_home())
    }

    /// A shell for what a lookup of the home directory gave: none where the
    /// lookup found no home.
    pub fn from_lookup(home: Option<Vec<u8>>) -> (shell: Option<Shell>)
        ensures
            match home {
                Some(bytes) => shell matches Some(s) && s@ == initial(bytes@),
                None => shell is None,
            },
    {
        match home {
            Some(bytes) => Some(Shell::starting_at(ShellPath::from_bytes(bytes))),
            None => None,
        }
    }

    /// A shell that starts in the home directory `home`.
    pub fn starting_at(home: ShellPath) -> (shell: Shell)
        ensures
            shell@ == initial(home@),
    {
        Shell { curr_dir: home.clone(), prompt: String::from_str("shell-rs> "), home_dir: home }
    }

    /// The current directory.
    pub fn current_directory(&self) -> (path: &ShellPath)
        ensures
            path@ == self@.current,
    {
        &self.curr_dir
    }

    /// The home directory.
    pub fn home_directory(&self) -> (path: &ShellPath)
        ensures
            path@ == self@.home,
    {
        &self.home_dir
    }

    /// The text with which the shell asks for a line.
    pub fn prompt(&self) -> (text: &str)
        ensures
            text@ == self@.prompt,
    {
        self.prompt.as_str()
    }

    /// Moves to `path`, which the caller knows to be a directory.
    pub fn cd(&mut self, path: ShellPath)
        ensures
            final(self)@ == moved(old(self)@, path@),
    {
        self.curr_dir = path;
    }
}

} // verus!
