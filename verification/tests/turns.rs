use shell_rs::dispatch::{CdRequest, Step};
use shell_rs::error::ShellError;
use shell_rs::host::{Invocation, ProcessOutput, Resolution, SpawnOutcome};
use shell_rs::path::ShellPath;
use shell_rs::repl::Turn;
use shell_rs::report::{Emission, Stream};
use shell_rs::shell::Shell;

fn on_out(text: &str) -> Emission {
    Emission { stream: Stream::Output, text: text.to_string() }
}

fn on_err(text: &str) -> Emission {
    Emission { stream: Stream::Error, text: text.to_string() }
}

fn typed(shell: &Shell, line: &str) -> Turn {
    shell.run(Some(line.len()), line)
}

#[test]
fn read_line_gives_the_tokens_of_a_line() {
    assert_eq!(
        Shell::read_line(Some(8), "cd /tmp\n"),
        Ok(vec!["cd".to_string(), "/tmp".to_string()])
    );
    assert_eq!(Shell::read_line(Some(1), "\n"), Ok(vec![]));
    assert_eq!(Shell::read_line(Some(4), "  \t\n"), Ok(vec![]));
}

#[test]
fn read_line_tells_the_end_of_the_input() {
    let result = Shell::read_line(Some(0), "");
    assert_eq!(result, Err(ShellError::EndOfInput));
    assert_eq!(ShellError::EndOfInput.message(), "EOF reached");
}

#[test]
fn read_line_tells_a_failed_read() {
    let result = Shell::read_line(None, "");
    assert_eq!(result, Err(ShellError::Input));
    assert_eq!(ShellError::Input.message(), "Cannot read from stdin");
}

#[test]
fn the_end_of_the_input_stops_in_silence() {
    let shell = Shell::starting_at(ShellPath::from_text("/home/u"));
    assert_eq!(shell.run(Some(0), ""), Turn::Stop(vec![]));
}

#[test]
fn exit_stops_with_a_farewell() {
    let shell = Shell::starting_at(ShellPath::from_text("/home/u"));
    assert_eq!(typed(&shell, "exit\n"), Turn::Stop(vec![on_out("exiting...")]));
    assert_eq!(typed(&shell, "  exit now please\n"), Turn::Stop(vec![on_out("exiting...")]));
}

#[test]
fn exit_must_be_the_first_token() {
    let shell = Shell::starting_at(ShellPath::from_text("/home/u"));
    assert_eq!(
        typed(&shell, "please exit\n"),
        Turn::Continue(Step::Done(vec![on_out("unknown command: 'please'")]))
    );
    assert_eq!(
        typed(&shell, "exits\n"),
        Turn::Continue(Step::Done(vec![on_out("unknown command: 'exits'")]))
    );
}

#[test]
fn a_failed_read_is_reported_and_the_loop_goes_on() {
    let shell = Shell::starting_at(ShellPath::from_text("/home/u"));
    assert_eq!(
        shell.run(None, ""),
        Turn::Continue(Step::Done(vec![on_err("Cannot read from stdin")]))
    );
}

#[test]
fn an_empty_line_goes_on_with_nothing() {
    let shell = Shell::starting_at(ShellPath::from_text("/home/u"));
    assert_eq!(typed(&shell, "\n"), Turn::Continue(Step::Done(vec![])));
    assert_eq!(typed(&shell, "   \n"), Turn::Continue(Step::Done(vec![])));
}

#[test]
fn an_unknown_command_goes_on_with_its_notice() {
    let shell = Shell::starting_at(ShellPath::from_text("/home/u"));
    assert_eq!(
        typed(&shell, "foo bar\n"),
        Turn::Continue(Step::Done(vec![on_out("unknown command: 'foo'")]))
    );
    assert_eq!(shell.current_directory(), &ShellPath::from_text("/home/u"));
}

#[test]
fn a_session_that_moves_prints_lists_and_exits() {
    let mut shell = Shell::starting_at(ShellPath::from_text("/home/u"));
    assert_eq!(shell.prompt(), "shell-rs> ");

    let request = match typed(&shell, "cd /tmp\n") {
        Turn::Continue(Step::Resolve(request)) => request,
        other => panic!("cd did not ask for its target: {:?}", other),
    };
    assert_eq!(
        request,
        CdRequest { argument: "/tmp".to_string(), target: ShellPath::from_text("/tmp") }
    );
    let lines = shell.resolved(request, Resolution::Directory(ShellPath::from_text("/tmp")));
    assert_eq!(lines, vec![]);
    assert_eq!(shell.current_directory(), &ShellPath::from_text("/tmp"));

    assert_eq!(typed(&shell, "pwd\n"), Turn::Continue(Step::Done(vec![on_out("/tmp")])));

    let invocation = match typed(&shell, "ls -la\n") {
        Turn::Continue(Step::Spawn(invocation)) => invocation,
        other => panic!("ls did not ask for a program: {:?}", other),
    };
    assert_eq!(
        invocation,
        Invocation { program: "ls".to_string(), args: vec![b"-la".to_vec(), b"/tmp".to_vec()] }
    );
    let listing = b"total 0\ndrwxrwxrwt 2 root root 40 Jan  1 00:00 .\n".to_vec();
    let lines = Shell::spawned(SpawnOutcome::Finished(ProcessOutput {
        status: Some(0),
        stdout: listing,
        stderr: vec![],
    }));
    assert_eq!(lines, vec![on_out("total 0\ndrwxrwxrwt 2 root root 40 Jan  1 00:00 .\n")]);

    assert_eq!(typed(&shell, "exit\n"), Turn::Stop(vec![on_out("exiting...")]));
}

#[test]
fn a_session_with_a_cd_to_nowhere_stays_where_it_was() {
    let mut shell = Shell::starting_at(ShellPath::from_text("/home/u"));

    let request = match typed(&shell, "cd /does/not/exist\n") {
        Turn::Continue(Step::Resolve(request)) => request,
        other => panic!("cd did not ask for its target: {:?}", other),
    };
    assert_eq!(request.target, ShellPath::from_text("/does/not/exist"));
    let lines = shell.resolved(request, Resolution::NotFound);
    assert_eq!(lines, vec![on_err("cd: /does/not/exist: No such file or directory")]);
    assert!(lines[0].text.contains("/does/not/exist"));
    assert_eq!(shell.current_directory(), &ShellPath::from_text("/home/u"));

    assert_eq!(typed(&shell, "pwd\n"), Turn::Continue(Step::Done(vec![on_out("/home/u")])));
}

#[test]
fn a_session_that_ends_with_the_input_prints_no_farewell() {
    let mut shell = Shell::starting_at(ShellPath::from_text("/home/u"));
    let request = match typed(&shell, "cd docs\n") {
        Turn::Continue(Step::Resolve(request)) => request,
        other => panic!("cd did not ask for its target: {:?}", other),
    };
    assert_eq!(request.target, ShellPath::from_text("/home/u/docs"));
    shell.resolved(request, Resolution::Directory(ShellPath::from_text("/home/u/docs")));
    assert_eq!(shell.run(Some(0), ""), Turn::Stop(vec![]));
}

#[test]
fn pwd_after_a_cd_prints_what_the_cd_resolved_to() {
    let mut shell = Shell::starting_at(ShellPath::from_text("/home/u"));
    let request = match typed(&shell, "cd link\n") {
        Turn::Continue(Step::Resolve(request)) => request,
        other => panic!("cd did not ask for its target: {:?}", other),
    };
    shell.resolved(request, Resolution::Directory(ShellPath::from_text("/mnt/data/é")));
    assert_eq!(typed(&shell, "pwd\n"), Turn::Continue(Step::Done(vec![on_out("/mnt/data/é")])));
}
