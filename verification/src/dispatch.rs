//! From a line of tokens to the command that it names, and from the result
//! of a command to the lines that tell of it.

use vstd::prelude::*;
use vstd::utf8::*;
use crate::builtin::{cd_argument, cd_reply, cd_state, cd_target, internal_view, pwd_reply};
use crate::error::{message, text_view, ErrorView, ShellError};
use crate::external::{collected, ls_invocation, process_view};
use crate::host::{
    Invocation, InvocationView, ProcessOutput, ProcessOutputView, Resolution, SpawnOutcome,
};
use crate::path::{decode_text, utf8_error_text, ShellPath};
use crate::report::{emissions, nothing, on_error, on_output, only, Emission, EmissionView, Stream};
use crate::shell::{Shell, ShellView};
use crate::text::{same_text, texts};

verus! {

/// The commands that the shell knows.
#[derive(Debug, Clone, Copy, PartialEq, Eq, Structural)]
pub enum Command {
    /// `cd`: move to another directory.
    ChangeDirectory,
    /// `pwd`: print the current directory.
    PrintDirectory,
    /// `ls`: list a directory, by the host's program of that name.
    List,
    /// Any other name.
    Unknown,
}

/// The command that a name stands for.
pub open spec fn command_of(name: Seq<char>) -> Command {
    if name == "cd"@ {
        Command::ChangeDirectory
    } else if name == "pwd"@ {
        Command::PrintDirectory
    } else if name == "ls"@ {
        Command::List
    } else {
        Command::Unknown
    }
}

/// Looks a name up in the table of commands.
pub fn classify(name: &str) -> (command: Command)
    ensures
        command == command_of(name@),
{
    if same_text(name, "cd") {
        Command::ChangeDirectory
    } else if same_text(name, "pwd") {
        Command::PrintDirectory
    } else if same_text(name, "ls") {
        Command::List
    } else {
        Command::Unknown
    }
}

/// A `cd` that waits for the filesystem.
#[derive(Debug, PartialEq, Eq)]
pub struct CdRequest {
    /// What the user asked for, as the user wrote it.
    pub argument: String,
    /// The path to resolve.
    pub target: ShellPath,
}

/// A [`CdRequest`] as a mathematical value.
pub struct CdRequestView {
    pub argument: Seq<char>,
    pub target: Seq<u8>,
}

impl View for CdRequest {
    type V = CdRequestView;

    open spec fn view(&self) -> CdRequestView {
        CdRequestView { argument: self.argument@, target: self.target@ }
    }
}

/// How far a command got without the host.
#[derive(Debug, PartialEq, Eq)]
pub enum Step {
    /// The command is complete; these are its lines.
    Done(Vec<Emission>),
    /// The command is a `cd`: the host resolves the target, and
    /// [`Shell::resolved`] completes the command.
    Resolve(CdRequest),
    /// The command runs a program: the host runs it, and [`Shell::spawned`]
    /// completes the command.
    Spawn(Invocation),
}

/// A [`Step`] as a mathematical value.
pub enum StepView {
    Done(Seq<EmissionView>),
    Resolve(CdRequestView),
    Spawn(InvocationView),
}

impl View for Step {
    type V = StepView;

    open spec fn view(&self) -> StepView {
        match *self {
            Step::Done(lines) => StepView::Done(emissions(lines@)),
            Step::Resolve(request) => StepView::Resolve(request@),
            Step::Spawn(invocation) => StepView::Spawn(invocation@),
        }
    }
}

/// The line that tells of a name that is no command.
pub open spec fn unknown_notice(name: Seq<char>) -> Seq<char> {
    "unknown command: '"@ + name + "'"@
}

/// The lines that tell of the result of a built-in command: its output on
/// standard output, its failure on standard error.
pub open spec fn internal_report(result: Result<Option<Seq<char>>, ErrorView>) -> Seq<
    EmissionView,
> {
    match result {
        Ok(Some(text)) => seq![on_output(text)],
        Ok(None) => Seq::empty(),
        Err(error) => seq![on_error(message(error))],
    }
}

/// The text that a program wrote on `stream`, where its bytes are text, and
/// otherwise the failure, with the reason why they are none.
pub open spec fn decoded(stream: Stream, bytes: Seq<u8>) -> Result<Seq<char>, ErrorView> {
    if valid_utf8(bytes) {
        Ok(decode_utf8(bytes))
    } else {
        Err(ErrorView::Decode { stream, cause: utf8_error_text(bytes) })
    }
}

/// What is printed of the bytes that a program wrote on `stream`: nothing
/// where it wrote nothing, the text on the same stream where the bytes are
/// text, and otherwise the failure on standard error.
pub open spec fn relayed_stream(stream: Stream, bytes: Seq<u8>) -> Seq<EmissionView> {
    if bytes.len() == 0 {
        Seq::empty()
    } else {
        match decoded(stream, bytes) {
            Ok(text) => seq![EmissionView { stream, text }],
            Err(error) => seq![on_error(message(error))],
        }
    }
}

/// What is printed of the output of a program: of its standard output first,
/// then of its standard error.
pub open spec fn relayed(output: ProcessOutputView) -> Seq<EmissionView> {
    relayed_stream(Stream::Output, output.stdout) + relayed_stream(Stream::Error, output.stderr)
}

/// The lines that tell of the result of an external command: what the
/// program wrote, or the failure on standard error.
pub open spec fn external_report(result: Result<ProcessOutputView, ErrorView>) -> Seq<
    EmissionView,
> {
    match result {
        Ok(output) => relayed(output),
        Err(error) => seq![on_error(message(error))],
    }
}

/// How far the command line `args` gets in `state` without the host.
pub open spec fn step_of(state: ShellView, args: Seq<Seq<char>>) -> StepView {
    if args.len() == 0 {
        StepView::Done(Seq::empty())
    } else {
        let rest = args.skip(1);
        match command_of(args[0]) {
            Command::ChangeDirectory => StepView::Resolve(
                CdRequestView { argument: cd_argument(rest), target: cd_target(state, rest) },
            ),
            Command::PrintDirectory => StepView::Done(internal_report(pwd_reply(state))),
            Command::List => StepView::Spawn(ls_invocation(state, rest)),
            Command::Unknown => StepView::Done(seq![on_output(unknown_notice(args[0]))]),
        }
    }
}

/// Reads as text what a program wrote on `stream`.
pub fn decode(stream: Stream, bytes: Vec<u8>) -> (result: Result<String, ShellError>)
    ensures
        text_view(result) == decoded(stream, bytes@),
{
    match decode_text(bytes) {
        Ok(text) => Ok(text),
        Err(cause) => Err(ShellError::Decode { stream, cause }),
    }
}

/// Adds to `lines` what is printed of the bytes that a program wrote on
/// `stream`.
fn relay_stream(stream: Stream, bytes: Vec<u8>, lines: &mut Vec<Emission>)
    ensures
        emissions(final(lines)@) == emissions(old(lines)@) + relayed_stream(stream, bytes@),
{
    if bytes.len() == 0 {
        assert(emissions(lines@) =~= emissions(lines@) + relayed_stream(stream, bytes@));
        return ;
    }
    let ghost before = lines@;
    let line = match decode(stream, bytes) {
        Ok(text) => Emission { stream, text },
        Err(error) => Emission::error(error.message()),
    };
    lines.push(line);
    assert(emissions(lines@) =~= emissions(before) + seq![line@]);
}

/// The lines that tell of the result of a built-in command.
pub fn report_internal(result: Result<Option<String>, ShellError>) -> (lines: Vec<Emission>)
    ensures
        emissions(lines@) == internal_report(internal_view(result)),
{
    match result {
        Ok(Some(text)) => only(Emission::output(text)),
        Ok(None) => nothing(),
        Err(error) => only(Emission::error(error.message())),
    }
}

/// The lines that tell of what a program wrote.
pub fn relay(output: ProcessOutput) -> (lines: Vec<Emission>)
    ensures
        emissions(lines@) == relayed(output@),
{
    let mut lines = nothing();
    relay_stream(Stream::Output, output.stdout, &mut lines);
    relay_stream(Stream::Error, output.stderr, &mut lines);
    lines
}

/// The lines that tell of the result of an external command.
pub fn report_external(result: Result<ProcessOutput, ShellError>) -> (lines: Vec<Emission>)
    ensures
        emissions(lines@) == external_report(process_view(result)),
{
    match result {
        Ok(output) => relay(output),
        Err(error) => only(Emission::error(error.message())),
    }
}

impl Shell {
    /// Starts the command line `args`: classifies its first token and takes
    /// the command as far as it gets without the host. An empty line is
    /// complete at once, with nothing to print.
    pub fn execute(&self, args: &Vec<String>) -> (step: Step)
        ensures
            step@ == step_of(self@, texts(args@)),
    {
        let n = args.len();
        if n == 0 {
            return Step::Done(nothing());
        }
        let cmd = args[0].as_str();
        let rest_args = &args.as_slice()[1..n];
        assert(texts(rest_args@) =~= texts(args@).skip(1));
        match classify(cmd) {
            Command::ChangeDirectory => Step::Resolve(
                CdRequest {
                    argument: Shell::cd_argument(rest_args),
                    target: self.cd_target(rest_args),
                },
            ),
            Command::PrintDirectory => {
                let printed = match self.pwd() {
                    Ok(text) => Ok(Some(text)),
                    Err(error) => Err(error),
                };
                Step::Done(report_internal(printed))
            },
            Command::List => Step::Spawn(self.ls_invocation(rest_args)),
            Command::Unknown => {
                let mut notice = String::from_str("unknown command: '");
                notice.append(cmd);
                notice.append("'");
                Step::Done(only(Emission::output(notice)))
            },
        }
    }

    /// Completes the `cd` that `request` stands for, given what the
    /// filesystem said of its target.
    pub fn resolved(&mut self, request: CdRequest, resolution: Resolution) -> (lines: Vec<
        Emission,
    >)
        ensures
            final(self)@ == cd_state(old(self)@, resolution@),
            emissions(lines@) == internal_report(cd_reply(request@.argument, resolution@)),
    {
        let mut rest_args: Vec<String> = Vec::new();
        rest_args.push(request.argument);
        assert(texts(rest_args@) =~= seq![request@.argument]);
        report_internal(self.execute_internal("cd", rest_args.as_slice(), resolution))
    }

    /// Completes an external command, given how the host fared with its
    /// program.
    pub fn spawned(outcome: SpawnOutcome) -> (lines: Vec<Emission>)
        ensures
            emissions(lines@) == external_report(collected(outcome@)),
    {
        report_external(Shell::execute_external("ls", outcome))
    }
}

} // verus!
