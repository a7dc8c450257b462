//! One turn of the loop: from what was read at the prompt to what happens
//! next.

use vstd::prelude::*;
use crate::dispatch::{step_of, Step, StepView};
use crate::error::{message, ErrorView, ShellError};
use crate::report::{emissions, nothing, on_error, on_output, only, Emission, EmissionView};
use crate::shell::{Shell, ShellView};
use crate::text::{same_text, texts, tokenize, tokens};

verus! {

/// What a read at the prompt comes to. `read` is the number of bytes that
/// the host read into `buffer`, and nothing where it could not read: no byte
/// means that the input has ended, and any line gives its tokens.
pub open spec fn read_outcome(read: Option<usize>, buffer: Seq<char>) -> Result<
    Seq<Seq<char>>,
    ErrorView,
> {
    match read {
        None => Err(ErrorView::Input),
        Some(count) => if count == 0 {
            Err(ErrorView::EndOfInput)
        } else {
            Ok(tokens(buffer))
        },
    }
}

/// The result of a read as a mathematical value.
pub open spec fn tokens_view(result: Result<Vec<String>, ShellError>) -> Result<
    Seq<Seq<char>>,
    ErrorView,
> {
    match result {
        Ok(args) => Ok(texts(args@)),
        Err(error) => Err(error@),
    }
}

/// Whether a command line asks the shell to end: its first token is `exit`.
pub open spec fn asks_to_exit(args: Seq<Seq<char>>) -> bool {
    args.len() > 0 && args[0] == "exit"@
}

/// What a turn of the loop comes to.
#[derive(Debug, PartialEq, Eq)]
pub enum Turn {
    /// The loop ends, once these lines are printed.
    Stop(Vec<Emission>),
    /// The loop goes on with the next prompt, once this step is carried out.
    Continue(Step),
}

/// A [`Turn`] as a mathematical value.
pub enum TurnView {
    Stop(Seq<EmissionView>),
    Continue(StepView),
}

impl View for Turn {
    type V = TurnView;

    open spec fn view(&self) -> TurnView {
        match *self {
            Turn::Stop(lines) => TurnView::Stop(emissions(lines@)),
            Turn::Continue(step) => TurnView::Continue(step@),
        }
    }
}

/// The turn that follows a read in `state`: the end of the input ends the
/// loop in silence, `exit` ends it with a farewell, a failed read is
/// reported, and any other line is a command.
pub open spec fn turn_of(state: ShellView, read: Option<usize>, buffer: Seq<char>) -> TurnView {
    match read_outcome(read, buffer) {
        Err(ErrorView::EndOfInput) => TurnView::Stop(Seq::empty()),
        Err(error) => TurnView::Continue(StepView::Done(seq![on_error(message(error))])),
        Ok(args) => if asks_to_exit(args) {
            TurnView::Stop(seq![on_output("exiting..."@)])
        } else {
            TurnView::Continue(step_of(state, args))
        },
    }
}

impl Shell {
    /// Makes of a read at the prompt the tokens of the line, or the reason
    /// why there is none.
    pub fn read_line(read: Option<usize>, buffer: &str) -> (result: Result<
        Vec<String>,
        ShellError,
    >)
        ensures
            tokens_view(result) == read_outcome(read, buffer@),
    {
        match read {
            None => Err(ShellError::Input),
            Some(count) => if count == 0 {
                Err(ShellError::EndOfInput)
            } else {
                Ok(tokenize(buffer))
            },
        }
    }

    /// One turn of the loop, from the read at the prompt on.
    pub fn run(&self, read: Option<usize>, buffer: &str) -> (turn: Turn)
        ensures
            turn@ == turn_of(self@, read, buffer@),
    {
        match Shell::read_line(read, buffer) {
            Err(ShellError::EndOfInput) => Turn::Stop(nothing()),
            Err(error) => Turn::Continue(Step::Done(only(Emission::error(error.message())))),
            Ok(args) => if args.len() > 0 && same_text(args[0].as_str(), "exit") {
                Turn::Stop(only(Emission::output(String::from_str("exiting..."))))
            } else {
                Turn::Continue(self.execute(&args))
            },
        }
    }
}

} // verus!
