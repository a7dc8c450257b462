//! What passes between the engine and its host.
//!
//! The engine touches neither the filesystem nor other programs. Where a
//! command needs one of them, the engine names the work, the host does it,
//! and the host's answer comes back as one of the values of this module.

use vstd::prelude::*;
use crate::path::ShellPath;

verus! {

/// What the filesystem says of a path that the engine asked to resolve.
///
/// To resolve a path is to follow it to its canonical form: absolute, free of
/// symbolic links and of `.` and `..`.
#[derive(Debug, PartialEq, Eq)]
pub enum Resolution {
    /// The path does not exist or cannot be reached.
    NotFound,
    /// The path exists and is not a directory.
    NotDirectory,
    /// The path is a directory, and this is its canonical form.
    Directory(ShellPath),
}

/// A [`Resolution`] as a mathematical value.
pub enum ResolutionView {
    NotFound,
    NotDirectory,
    Directory(Seq<u8>),
}

impl View for Resolution {
    type V = ResolutionView;

    open spec fn view(&self) -> ResolutionView {
        match *self {
            Resolution::NotFound => ResolutionView::NotFound,
            Resolution::NotDirectory => ResolutionView::NotDirectory,
            Resolution::Directory(path) => ResolutionView::Directory(path@),
        }
    }
}

/// A program for the host to run, with its output captured.
#[derive(Debug, PartialEq, Eq)]
pub struct Invocation {
    /// The name under which the host finds the program.
    pub program: String,
    /// The arguments, in order, each as its bytes.
    pub args: Vec<Vec<u8>>,
}

/// An [`Invocation`] as a mathematical value.
pub struct InvocationView {
    pub program: Seq<char>,
    pub args: Seq<Seq<u8>>,
}

/// The views of the byte strings of `v`, in order.
pub open spec fn byte_strings(v: Seq<Vec<u8>>) -> Seq<Seq<u8>> {
    Seq::new(v.len(), |i: int| v[i]@)
}

impl View for Invocation {
    type V = InvocationView;

    open spec fn view(&self) -> InvocationView {
        InvocationView { program: self.program@, args: byte_strings(self.args@) }
    }
}

/// What a finished program left behind.
#[derive(Debug, PartialEq, Eq)]
pub struct ProcessOutput {
    /// The exit code, where the program ended with one.
    pub status: Option<i32>,
    /// What the program wrote on its standard output.
    pub stdout: Vec<u8>,
    /// What the program wrote on its standard error.
    pub stderr: Vec<u8>,
}

/// A [`ProcessOutput`] as a mathematical value.
pub struct ProcessOutputView {
    pub status: Option<i32>,
    pub stdout: Seq<u8>,
    pub stderr: Seq<u8>,
}

impl View for ProcessOutput {
    type V = ProcessOutputView;

    open spec fn view(&self) -> ProcessOutputView {
        ProcessOutputView { status: self.status, stdout: self.stdout@, stderr: self.stderr@ }
    }
}

/// How the host fared with an [`Invocation`].
#[derive(Debug, PartialEq, Eq)]
pub enum SpawnOutcome {
    /// The program could not be started; the text says why.
    SpawnFailed(String),
    /// The program ran, and its output could not be collected; the text says why.
    CollectFailed(String),
    /// The program ran to its end.
    Finished(ProcessOutput),
}

/// A [`SpawnOutcome`] as a mathematical value.
pub enum SpawnOutcomeView {
    SpawnFailed(Seq<char>),
    CollectFailed(Seq<char>),
    Finished(ProcessOutputView),
}

impl View for SpawnOutcome {
    type V = SpawnOutcomeView;

    open spec fn view(&self) -> SpawnOutcomeView {
        match *self {
            SpawnOutcome::SpawnFailed(cause) => SpawnOutcomeView::SpawnFailed(cause@),
            SpawnOutcome::CollectFailed(cause) => SpawnOutcomeView::CollectFailed(cause@),
            SpawnOutcome::Finished(output) => SpawnOutcomeView::Finished(output@),
        }
    }
}

} // verus!
