//! What the engine asks its host to print.

use vstd::prelude::*;

verus! {

/// One of the two streams on which the host prints.
#[derive(Debug, Clone, Copy, PartialEq, Eq, Structural)]
pub enum Stream {
    /// Standard output: results and notices.
    Output,
    /// Standard error: failures, and what a program wrote there.
    Error,
}

/// One line for the host to print, and the stream to print it on.
#[derive(Debug, PartialEq, Eq)]
pub struct Emission {
    pub stream: Stream,
    pub text: String,
}

/// An [`Emission`] as a mathematical value.
pub struct EmissionView {
    pub stream: Stream,
    pub text: Seq<char>,
}

impl View for Emission {
    type V = EmissionView;

    open spec fn view(&self) -> EmissionView {
        EmissionView { stream: self.stream, text: self.text@ }
    }
}

/// The views of the emissions of `v`, in order.
pub open spec fn emissions(v: Seq<Emission>) -> Seq<EmissionView> {
    Seq::new(v.len(), |i: int| v[i]@)
}

/// A line for standard output.
pub open spec fn on_output(text: Seq<char>) -> EmissionView {
    EmissionView { stream: Stream::Output, text }
}

/// A line for standard error.
pub open spec fn on_error(text: Seq<char>) -> EmissionView {
    EmissionView { stream: Stream::Error, text }
}

impl Emission {
    /// A line for standard output.
    pub fn output(text: String) -> (emission: Self)
        ensures
            emission@ == on_output(text@),
    {
        Emission { stream: Stream::Output, text }
    }

    /// A line for standard error.
    pub fn error(text: String) -> (emission: Self)
        ensures
            emission@ == on_error(text@),
    {
        Emission { stream: Stream::Error, text }
    }
}

/// No line at all.
pub fn nothing() -> (lines: Vec<Emission>)
    ensures
        emissions(lines@) == Seq::<EmissionView>::empty(),
{
    let lines: Vec<Emission> = Vec::new();
    assert(emissions(lines@) =~= Seq::<EmissionView>::empty());
    lines
}

/// The one line `emission`.
pub fn only(emission: Emission) -> (lines: Vec<Emission>)
    ensures
        emissions(lines@) == seq![emission@],
{
    let mut lines: Vec<Emission> = Vec::new();
    lines.push(emission);
    assert(emissions(lines@) =~= seq![emission@]);
    lines
}

} // verus!
