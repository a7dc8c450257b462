//! The command that the shell hands to a program of the host: `ls`.

use vstd::prelude::*;
use vstd::utf8::*;
use crate::error::{ErrorView, ShellError};
use crate::host::{
    byte_strings, Invocation, InvocationView, ProcessOutput, ProcessOutputView, SpawnOutcome,
    SpawnOutcomeView,
};
use crate::shell::{Shell, ShellView};
use crate::text::texts;

verus! {

/// Whether an argument reads as an option: it begins with `-`.
pub open spec fn looks_like_option(argument: Seq<char>) -> bool {
    argument.len() > 0 && argument[0] == '-'
}

/// The arguments as the program receives them: each as its UTF-8 encoding.
pub open spec fn encoded(arguments: Seq<Seq<char>>) -> Seq<Seq<u8>> {
    Seq::new(arguments.len(), |i: int| encode_utf8(arguments[i]))
}

/// The arguments with which `ls` is run: those given, and behind them the
/// current directory where the last one given reads as an option.
pub open spec fn ls_arguments(state: ShellView, rest: Seq<Seq<char>>) -> Seq<Seq<u8>> {
    if rest.len() > 0 && looks_like_option(rest.last()) {
        encoded(rest).push(state.current)
    } else {
        encoded(rest)
    }
}

/// The program that carries out `ls`, and its arguments.
pub open spec fn ls_invocation(state: ShellView, rest: Seq<Seq<char>>) -> InvocationView {
    InvocationView { program: "ls"@, args: ls_arguments(state, rest) }
}

/// What the shell makes of the host's report on a program: its output where
/// it ran to its end, and otherwise the failure with the host's reason.
pub open spec fn collected(outcome: SpawnOutcomeView) -> Result<ProcessOutputView, ErrorView> {
    match outcome {
        SpawnOutcomeView::SpawnFailed(cause) => Err(ErrorView::Spawn { cause }),
        SpawnOutcomeView::CollectFailed(cause) => Err(ErrorView::Collect { cause }),
        SpawnOutcomeView::Finished(output) => Ok(output),
    }
}

/// The result of an external command as a mathematical value.
pub open spec fn process_view(result: Result<ProcessOutput, ShellError>) -> Result<
    ProcessOutputView,
    ErrorView,
> {
    match result {
        Ok(output) => Ok(output@),
        Err(error) => Err(error@),
    }
}

/// Whether `argument` reads as an option.
pub fn is_option(argument: &str) -> (option: bool)
    ensures
        option == looks_like_option(argument@),
{
    !argument.is_empty() && argument.get_char(0) == '-'
}

impl Shell {
    /// The program to run for `ls` with the arguments `rest_args`. The host
    /// runs it, and `ls` takes the outcome.
    pub fn ls_invocation(&self, rest_args: &[String]) -> (invocation: Invocation)
        ensures
            invocation@ == ls_invocation(self@, texts(rest_args@)),
    {
        let n = rest_args.len();
        let mut args: Vec<Vec<u8>> = Vec::new();
        let mut i: usize = 0;
        while i < n
            invariant
                n == rest_args@.len(),
                i <= n,
                args@.len() == i,
                forall|k: int| 0 <= k < i ==> args@[k]@ == encode_utf8(#[trigger] rest_args@[k]@),
            decreases n - i,
        {
            args.push(rest_args[i].as_str().as_bytes_vec());
            i = i + 1;
        }
        assert(byte_strings(args@) =~= encoded(texts(rest_args@)));
        if n > 0 && is_option(rest_args[n - 1].as_str()) {
            let ghost given = args@;
            let here = self.current_directory().as_bytes().clone();
            assert(here@ =~= self@.current);
            args.push(here);
            assert(byte_strings(args@) =~= byte_strings(given).push(self@.current));
        }
        Invocation { program: String::from_str("ls"), args }
    }

    /// Completes `ls`, given how the host fared with its program.
    pub fn ls(outcome: SpawnOutcome) -> (result: Result<ProcessOutput, ShellError>)
        ensures
            process_view(result) == collected(outcome@),
    {
        match outcome {
            SpawnOutcome::SpawnFailed(cause) => Err(ShellError::Spawn { cause }),
            SpawnOutcome::CollectFailed(cause) => Err(ShellError::Collect { cause }),
            SpawnOutcome::Finished(output) => Ok(output),
        }
    }

    /// Completes the external command `cmd`, which is `ls`, given how the
    /// host fared with its program.
    pub fn execute_external(cmd: &str, outcome: SpawnOutcome) -> (result: Result<
        ProcessOutput,
        ShellError,
    >)
        requires
            cmd@ == "ls"@,
        ensures
            process_view(result) == collected(outcome@),
    {
        Shell::ls(outcome)
    }
}

} // verus!
