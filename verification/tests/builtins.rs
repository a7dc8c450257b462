use shell_rs::error::ShellError;
use shell_rs::host::Resolution;
use shell_rs::path::ShellPath;
use shell_rs::shell::Shell;

fn shell_at(home: &str, current: &str) -> Shell {
    let mut shell = Shell::starting_at(ShellPath::from_text(home));
    shell.cd(ShellPath::from_text(current));
    shell
}

fn args_of(words: &[&str]) -> Vec<String> {
    words.iter().map(|w| w.to_string()).collect()
}

fn directory(path: &str) -> Resolution {
    Resolution::Directory(ShellPath::from_text(path))
}

#[test]
fn cd_moves_and_leaves_the_rest() {
    let mut shell = Shell::starting_at(ShellPath::from_text("/home/u"));
    shell.cd(ShellPath::from_text("/tmp"));
    assert_eq!(shell.current_directory(), &ShellPath::from_text("/tmp"));
    assert_eq!(shell.home_directory(), &ShellPath::from_text("/home/u"));
    assert_eq!(shell.prompt(), "shell-rs> ");
}

#[test]
fn cd_argument_is_the_first_argument_or_the_home_shortcut() {
    assert_eq!(Shell::cd_argument(&args_of(&[])), "~");
    assert_eq!(Shell::cd_argument(&args_of(&["docs"])), "docs");
    assert_eq!(Shell::cd_argument(&args_of(&["a", "b"])), "a");
}

#[test]
fn cd_target_without_argument_is_home() {
    let shell = shell_at("/home/u", "/tmp");
    assert_eq!(shell.cd_target(&args_of(&[])), ShellPath::from_text("/home/u"));
}

#[test]
fn cd_target_of_the_shortcut_is_home() {
    let shell = shell_at("/home/u", "/tmp");
    assert_eq!(shell.cd_target(&args_of(&["~"])), ShellPath::from_text("/home/u"));
    assert_eq!(shell.cd_target(&args_of(&["~", "x"])), ShellPath::from_text("/home/u"));
}

#[test]
fn cd_target_of_an_absolute_path_is_that_path() {
    let shell = shell_at("/home/u", "/tmp");
    assert_eq!(shell.cd_target(&args_of(&["/usr/lib"])), ShellPath::from_text("/usr/lib"));
    assert_eq!(shell.cd_target(&args_of(&["/"])), ShellPath::from_text("/"));
}

#[test]
fn cd_target_of_a_relative_path_starts_at_the_current_directory() {
    let shell = shell_at("/home/u", "/tmp");
    assert_eq!(shell.cd_target(&args_of(&["x"])), ShellPath::from_text("/tmp/x"));
    assert_eq!(shell.cd_target(&args_of(&[".."])), ShellPath::from_text("/tmp/.."));
    assert_eq!(shell.cd_target(&args_of(&["./a/b"])), ShellPath::from_text("/tmp/./a/b"));
    assert_eq!(shell.cd_target(&args_of(&["~/x"])), ShellPath::from_text("/tmp/~/x"));
    let at_root = shell_at("/home/u", "/");
    assert_eq!(at_root.cd_target(&args_of(&["etc"])), ShellPath::from_text("/etc"));
}

#[test]
fn change_directory_moves_to_the_resolved_directory() {
    let mut shell = shell_at("/home/u", "/home/u");
    let result = shell.change_directory(&args_of(&["../../tmp"]), directory("/tmp"));
    assert_eq!(result, Ok(()));
    assert_eq!(shell.current_directory(), &ShellPath::from_text("/tmp"));
    assert_eq!(shell.home_directory(), &ShellPath::from_text("/home/u"));
}

#[test]
fn change_directory_to_the_same_place_twice_is_as_once() {
    let mut shell = shell_at("/home/u", "/home/u");
    assert_eq!(shell.change_directory(&args_of(&["docs"]), directory("/home/u/docs")), Ok(()));
    let once = shell.current_directory().clone();
    assert_eq!(shell.change_directory(&args_of(&["."]), directory("/home/u/docs")), Ok(()));
    assert_eq!(shell.current_directory(), &once);
    assert_eq!(once, ShellPath::from_text("/home/u/docs"));
}

#[test]
fn change_directory_fails_where_nothing_is_found() {
    let mut shell = shell_at("/home/u", "/tmp");
    let result = shell.change_directory(&args_of(&["nowhere"]), Resolution::NotFound);
    assert_eq!(result, Err(ShellError::NotFound { argument: "nowhere".to_string() }));
    assert_eq!(shell.current_directory(), &ShellPath::from_text("/tmp"));
}

#[test]
fn change_directory_fails_on_what_is_no_directory() {
    let mut shell = shell_at("/home/u", "/tmp");
    let result = shell.change_directory(&args_of(&["/etc/passwd"]), Resolution::NotDirectory);
    assert_eq!(result, Err(ShellError::InvalidTarget { argument: "/etc/passwd".to_string() }));
    assert_eq!(shell.current_directory(), &ShellPath::from_text("/tmp"));
}

#[test]
fn change_directory_without_argument_names_the_shortcut_in_its_failure() {
    let mut shell = shell_at("/gone", "/tmp");
    let result = shell.change_directory(&args_of(&[]), Resolution::NotFound);
    assert_eq!(result, Err(ShellError::NotFound { argument: "~".to_string() }));
    assert_eq!(shell.current_directory(), &ShellPath::from_text("/tmp"));
}

#[test]
fn pwd_gives_the_current_directory_as_text() {
    let shell = shell_at("/home/u", "/tmp/é");
    assert_eq!(shell.pwd(), Ok("/tmp/é".to_string()));
    assert_eq!(Shell::starting_at(ShellPath::from_text("/home/u")).pwd(), Ok("/home/u".to_string()));
}

#[test]
fn pwd_fails_where_the_current_directory_is_not_text() {
    let mut shell = shell_at("/home/u", "/tmp");
    shell.cd(ShellPath::from_bytes(vec![0x2f, 0x74, 0xff]));
    assert_eq!(shell.pwd(), Err(ShellError::Encoding));
}

#[test]
fn execute_internal_cd_returns_no_line() {
    let mut shell = shell_at("/home/u", "/home/u");
    let result = shell.execute_internal("cd", &args_of(&["/tmp"]), directory("/tmp"));
    assert_eq!(result, Ok(None));
    assert_eq!(shell.current_directory(), &ShellPath::from_text("/tmp"));
}

#[test]
fn execute_internal_cd_hands_on_the_failure() {
    let mut shell = shell_at("/home/u", "/home/u");
    assert_eq!(
        shell.execute_internal("cd", &args_of(&["/does/not/exist"]), Resolution::NotFound),
        Err(ShellError::NotFound { argument: "/does/not/exist".to_string() })
    );
    assert_eq!(
        shell.execute_internal("cd", &args_of(&["file"]), Resolution::NotDirectory),
        Err(ShellError::InvalidTarget { argument: "file".to_string() })
    );
    assert_eq!(shell.current_directory(), &ShellPath::from_text("/home/u"));
}

#[test]
fn execute_internal_pwd_returns_its_line_and_stays() {
    let mut shell = shell_at("/home/u", "/var/log");
    assert_eq!(
        shell.execute_internal("pwd", &args_of(&[]), Resolution::NotFound),
        Ok(Some("/var/log".to_string()))
    );
    assert_eq!(
        shell.execute_internal("pwd", &args_of(&["ignored"]), directory("/elsewhere")),
        Ok(Some("/var/log".to_string()))
    );
    assert_eq!(shell.current_directory(), &ShellPath::from_text("/var/log"));
}

#[test]
fn execute_internal_pwd_fails_on_a_directory_that_is_not_text() {
    let mut shell = shell_at("/home/u", "/tmp");
    shell.cd(ShellPath::from_bytes(vec![0xff]));
    assert_eq!(
        shell.execute_internal("pwd", &args_of(&[]), Resolution::NotFound),
        Err(ShellError::Encoding)
    );
}

#[test]
fn every_failure_has_its_message() {
    assert_eq!(ShellError::EndOfInput.message(), "EOF reached");
    assert_eq!(ShellError::Input.message(), "Cannot read from stdin");
    assert_eq!(
        ShellError::NotFound { argument: "/does/not/exist".to_string() }.message(),
        "cd: /does/not/exist: No such file or directory"
    );
    assert_eq!(
        ShellError::InvalidTarget { argument: "a.txt".to_string() }.message(),
        "cd: 'a.txt' is not a directory"
    );
    assert_eq!(ShellError::Encoding.message(), "pwd: current directory is not valid UTF-8");
    assert_eq!(
        ShellError::Decode { stream: shell_rs::report::Stream::Output, cause: "why".to_string() }
            .message(),
        "Failed to parse stdout: why"
    );
    assert_eq!(
        ShellError::Decode { stream: shell_rs::report::Stream::Error, cause: "why".to_string() }
            .message(),
        "Failed to parse stderr: why"
    );
    assert_eq!(
        ShellError::Spawn { cause: "No such file or directory (os error 2)".to_string() }.message(),
        "failed to call ls: No such file or directory (os error 2)"
    );
    assert_eq!(
        ShellError::Collect { cause: "broken pipe".to_string() }.message(),
        "failed to get the output of ls: broken pipe"
    );
}
