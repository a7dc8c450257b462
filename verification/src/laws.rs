//! What holds of the shell whatever its state and whatever it is given.

use vstd::prelude::*;
use vstd::utf8::*;
use crate::builtin::{cd_reply, cd_state, internal_state};
use crate::dispatch::{
    command_of, internal_report, step_of, unknown_notice, CdRequestView, Command, StepView,
};
use crate::external::{encoded, ls_invocation};
use crate::host::ResolutionView;
use crate::path::{is_absolute, join};
use crate::repl::{asks_to_exit, turn_of, TurnView};
use crate::report::{on_error, on_output, EmissionView};
use crate::shell::{moved, ShellView};
use crate::text::tokens;

verus! {

/// The names of the commands, and the word that ends the session, are five
/// different words.
pub proof fn lemma_names_differ()
    ensures
        command_of("cd"@) == Command::ChangeDirectory,
        command_of("pwd"@) == Command::PrintDirectory,
        command_of("ls"@) == Command::List,
        command_of("exit"@) == Command::Unknown,
        command_of("~"@) == Command::Unknown,
{
    reveal_strlit("cd");
    reveal_strlit("pwd");
    reveal_strlit("ls");
    reveal_strlit("exit");
    reveal_strlit("~");
    assert("cd"@.len() == 2 && "pwd"@.len() == 3 && "ls"@.len() == 2 && "exit"@.len() == 4
        && "~"@.len() == 1);
    assert("cd"@[0] == 'c' && "ls"@[0] == 'l');
}

/// `cd` with a relative path asks for that path as seen from the current
/// directory, and where that resolves to a directory the shell moves exactly
/// there and prints nothing. Moving there once more changes nothing.
///
/// The word `~` is left out: it is no path, and stands for the home
/// directory.
pub proof fn law_cd_relative(state: ShellView, path: Seq<char>, directory: Seq<u8>)
    requires
        path != "~"@,
        !is_absolute(encode_utf8(path)),
    ensures
        step_of(state, seq!["cd"@, path]) == StepView::Resolve(
            CdRequestView { argument: path, target: join(state.current, encode_utf8(path)) },
        ),
        cd_state(state, ResolutionView::Directory(directory)) == moved(state, directory),
        internal_report(cd_reply(path, ResolutionView::Directory(directory)))
            == Seq::<EmissionView>::empty(),
        cd_state(
            cd_state(state, ResolutionView::Directory(directory)),
            ResolutionView::Directory(directory),
        ) == cd_state(state, ResolutionView::Directory(directory)),
{
    lemma_names_differ();
    let args = seq!["cd"@, path];
    assert(args.skip(1) =~= seq![path]);
}

/// A `cd` whose target does not exist leaves the shell where it is, and
/// prints on standard error one line that holds the argument as the user
/// wrote it.
pub proof fn law_cd_missing(state: ShellView, argument: Seq<char>)
    ensures
        cd_state(state, ResolutionView::NotFound) == state,
        internal_report(cd_reply(argument, ResolutionView::NotFound)) == seq![
            on_error("cd: "@ + argument + ": No such file or directory"@),
        ],
{
}

/// `cd` without an argument and `cd ~` are the same request, and its target
/// is the home directory wherever the shell is.
pub proof fn law_cd_home(state: ShellView, elsewhere: Seq<u8>)
    ensures
        step_of(state, seq!["cd"@]) == step_of(state, seq!["cd"@, "~"@]),
        step_of(state, seq!["cd"@]) == StepView::Resolve(
            CdRequestView { argument: "~"@, target: state.home },
        ),
        step_of(moved(state, elsewhere), seq!["cd"@]) == step_of(state, seq!["cd"@]),
{
    lemma_names_differ();
    assert(seq!["cd"@].skip(1) =~= Seq::<Seq<char>>::empty());
    assert(seq!["cd"@, "~"@].skip(1) =~= seq!["~"@]);
}

/// After a `cd` that moved to a directory whose path is text, `pwd` prints
/// exactly that path: one line on standard output whose bytes are the path.
///
/// A directory whose path is not text is left out: `pwd` cannot print it, and
/// fails.
pub proof fn law_pwd_after_cd(state: ShellView, directory: Seq<u8>)
    requires
        valid_utf8(directory),
    ensures
        step_of(cd_state(state, ResolutionView::Directory(directory)), seq!["pwd"@])
            == StepView::Done(seq![on_output(decode_utf8(directory))]),
        encode_utf8(decode_utf8(directory)) == directory,
{
    lemma_names_differ();
    decode_utf8_encode_utf8(directory);
}

/// A name that is no command changes nothing and prints, on standard output,
/// one line that holds the name. The state cannot change: starting a command
/// line only reads it, and only the completion of a `cd` moves.
pub proof fn law_unknown_command(state: ShellView, args: Seq<Seq<char>>)
    requires
        args.len() > 0,
        args[0] != "cd"@,
        args[0] != "pwd"@,
        args[0] != "ls"@,
    ensures
        step_of(state, args) == StepView::Done(
            seq![on_output("unknown command: '"@ + args[0] + "'"@)],
        ),
{
}

/// A line whose first word is no command and not `exit` does not end the
/// loop: the turn prints the notice and goes on.
pub proof fn law_unknown_command_at_prompt(
    state: ShellView,
    count: usize,
    buffer: Seq<char>,
)
    requires
        count > 0,
        tokens(buffer).len() > 0,
        tokens(buffer)[0] != "cd"@,
        tokens(buffer)[0] != "pwd"@,
        tokens(buffer)[0] != "ls"@,
        tokens(buffer)[0] != "exit"@,
    ensures
        turn_of(state, Some(count), buffer) == TurnView::Continue(
            StepView::Done(seq![on_output(unknown_notice(tokens(buffer)[0]))]),
        ),
{
}

/// `ls` is run with the arguments given, as they are and in their order.
/// Only where the last of them begins with `-` does one more follow them: the
/// current directory.
pub proof fn law_ls_arguments(state: ShellView, rest: Seq<Seq<char>>)
    ensures
        ls_invocation(state, rest).program == "ls"@,
        rest.len() == 0 || rest.last().len() == 0 || rest.last()[0] != '-' ==> ls_invocation(
            state,
            rest,
        ).args == encoded(rest),
        rest.len() > 0 && rest.last().len() > 0 && rest.last()[0] == '-' ==> ls_invocation(
            state,
            rest,
        ).args == encoded(rest).push(state.current),
        encoded(rest).len() == rest.len(),
        forall|i: int| 0 <= i < rest.len() ==> #[trigger] encoded(rest)[i] == encode_utf8(rest[i]),
{
}

/// The end of the input ends the loop, and nothing is printed: no farewell
/// and no failure.
pub proof fn law_end_of_input(state: ShellView, buffer: Seq<char>)
    ensures
        turn_of(state, Some(0), buffer) == TurnView::Stop(Seq::empty()),
{
}

/// `exit` ends the loop with the farewell, whatever follows it on the line.
pub proof fn law_exit(state: ShellView, count: usize, buffer: Seq<char>)
    requires
        count > 0,
        asks_to_exit(tokens(buffer)),
    ensures
        turn_of(state, Some(count), buffer) == TurnView::Stop(seq![on_output("exiting..."@)]),
{
}

/// No command changes the home directory or the prompt, and the current
/// directory changes only to a directory that the filesystem reported.
pub proof fn law_state_changes(state: ShellView, cmd: Seq<char>, resolution: ResolutionView)
    ensures
        internal_state(state, cmd, resolution).home == state.home,
        internal_state(state, cmd, resolution).prompt == state.prompt,
        internal_state(state, cmd, resolution).current != state.current ==> cmd == "cd"@
            && resolution == ResolutionView::Directory(
            internal_state(state, cmd, resolution).current,
        ),
{
}

/// A shell whose directories are absolute paths keeps them so, as long as
/// the filesystem reports directories by absolute paths.
pub proof fn law_directories_stay_absolute(
    state: ShellView,
    cmd: Seq<char>,
    resolution: ResolutionView,
)
    requires
        is_absolute(state.current),
        is_absolute(state.home),
        resolution matches ResolutionView::Directory(directory) ==> is_absolute(directory),
    ensures
        is_absolute(internal_state(state, cmd, resolution).current),
        is_absolute(internal_state(state, cmd, resolution).home),
{
}

} // verus!
