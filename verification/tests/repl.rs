use shell_core::error::{RedirectError, ShellError, TokenizeError};
use shell_core::output::{Emission, Sink};
use shell_core::redirect::{Stream, WriteMode};
use shell_core::repl::{is_append, Invocation, LoopAction, Repl};
use shell_core::shell::Action;
use shell_core::text::{glue, contains_char, join, pad_right, same_text};

fn strings(items: &[&str]) -> Vec<String> {
    items.iter().map(|s| s.to_string()).collect()
}

fn command_error(text: &str) -> ShellError {
    ShellError::Command(text.to_string())
}

#[test]
fn error_messages_are_worded_by_kind() {
    assert_eq!(ShellError::Io("disk full".to_string()).message(), "IO error: disk full");
    assert_eq!(
        ShellError::Env("HOME missing".to_string()).message(),
        "Environment error: HOME missing"
    );
    assert_eq!(command_error("ls: not found").message(), "ls: not found");
    assert_eq!(
        ShellError::CommandFailed { code: 3, message: "boom".to_string() }.message(),
        "Command failed with exit code 3: boom"
    );
    assert_eq!(
        ShellError::CommandFailed { code: -1, message: String::new() }.message(),
        "Command failed with exit code -1: "
    );
    assert_eq!(ShellError::Exit(2).message(), "Exit requested with code: 2");
    assert_eq!(ShellError::Exit(i32::MIN).message(), "Exit requested with code: -2147483648");
}

#[test]
fn parse_errors_become_command_errors() {
    assert_eq!(
        ShellError::from_tokenize(TokenizeError::UnclosedQuote),
        command_error("Unclosed quote in input")
    );
    assert_eq!(
        ShellError::from_redirect(RedirectError::MissingFilename),
        command_error("Missing filename for redirection operator")
    );
    assert_eq!(ShellError::command("x"), command_error("x"));
    assert!(ShellError::Exit(0).is_exit());
    assert!(!command_error("x").is_exit());
}

#[test]
fn prompt_is_dollar_space() {
    assert_eq!(Repl::new().prompt(), "$ ");
}

#[test]
fn blank_lines_ask_for_nothing() {
    let mut repl = Repl::new();
    assert_eq!(repl.run_single_command(""), Ok(None));
    assert_eq!(repl.run_single_command("  \t\n"), Ok(None));
    assert_eq!(repl.output.stdout_sink(), &Sink::Inherited);
}

#[test]
fn line_is_trimmed_before_it_is_split() {
    let mut repl = Repl::new();
    assert_eq!(
        repl.run_single_command("  echo a\\\n"),
        Ok(Some(Invocation { command: "echo".to_string(), args: strings(&["a\\"]) }))
    );
    assert_eq!(
        repl.evaluate_input("echo a\\\n"),
        Ok(Invocation { command: "echo".to_string(), args: strings(&["a"]) })
    );
}

#[test]
fn redirections_route_the_output() {
    let mut repl = Repl::new();
    assert_eq!(
        repl.evaluate_input("echo hi > a.txt 2>> e.txt > b.txt"),
        Ok(Invocation { command: "echo".to_string(), args: strings(&["hi"]) })
    );
    assert_eq!(
        repl.output.stdout_sink(),
        &Sink::File { path: "b.txt".to_string(), mode: WriteMode::Truncate }
    );
    assert_eq!(
        repl.output.stderr_sink(),
        &Sink::File { path: "e.txt".to_string(), mode: WriteMode::Append }
    );
}

#[test]
fn failed_lines_leave_the_routing_alone() {
    let mut repl = Repl::new();
    assert_eq!(repl.evaluate_input("echo 'abc"), Err(command_error("Unclosed quote in input")));
    assert_eq!(
        repl.evaluate_input("echo hi >"),
        Err(command_error("Missing filename for redirection operator"))
    );
    assert_eq!(repl.evaluate_input("> out.txt"), Err(command_error("No command provided")));
    assert_eq!(repl.evaluate_input(""), Err(command_error("No command provided")));
    assert_eq!(repl.evaluate_input("''"), Err(command_error("No command provided")));
    assert_eq!(repl.output.stdout_sink(), &Sink::Inherited);
    assert_eq!(repl.output.stderr_sink(), &Sink::Inherited);
}

#[test]
fn redirection_ends_with_the_command() {
    let mut repl = Repl::new();
    let first = repl.evaluate_input("nosuch 2> err.txt").unwrap();
    assert!(matches!(repl.dispatch(&first, None), Action::Spawn(_)));
    let next = repl.finish(Err(command_error("nosuch: not found")));
    assert_eq!(next, LoopAction::Continue);
    assert_eq!(repl.output.stderr_sink(), &Sink::Inherited);
    let second = repl.evaluate_input("other").unwrap();
    assert!(matches!(repl.dispatch(&second, None), Action::Spawn(_)));
    assert_eq!(repl.finish(Err(command_error("other: not found"))), LoopAction::Continue);
    assert_eq!(
        repl.output.drain(),
        vec![
            Emission {
                stream: Stream::Stderr,
                sink: Sink::Inherited,
                data: b"nosuch: not found\n".to_vec()
            },
            Emission {
                stream: Stream::Stderr,
                sink: Sink::Inherited,
                data: b"other: not found\n".to_vec()
            },
        ]
    );
}

#[test]
fn exit_two_terminates_with_two() {
    let mut repl = Repl::new();
    let inv = repl.evaluate_input("exit 2").unwrap();
    let result = match repl.dispatch(&inv, None) {
        Action::Done(result) => result,
        other => panic!("unexpected action {:?}", other),
    };
    assert_eq!(result, Err(ShellError::Exit(2)));
    assert_eq!(repl.finish(result), LoopAction::Terminate(2));
    assert!(repl.output.drain().is_empty());
}

#[test]
fn bare_exit_is_reported_and_the_loop_goes_on() {
    let mut repl = Repl::new();
    let inv = repl.evaluate_input("exit").unwrap();
    let result = match repl.dispatch(&inv, None) {
        Action::Done(result) => result,
        other => panic!("unexpected action {:?}", other),
    };
    assert_eq!(result, Err(command_error("exit: missing parameter")));
    assert_eq!(repl.finish(result), LoopAction::Continue);
    assert_eq!(
        repl.output.drain(),
        vec![Emission {
            stream: Stream::Stderr,
            sink: Sink::Inherited,
            data: b"exit: missing parameter\n".to_vec()
        }]
    );
}

#[test]
fn echo_runs_through_a_redirection() {
    let mut repl = Repl::new();
    let inv = repl.evaluate_input("echo 'a  b' c >> log.txt").unwrap();
    assert_eq!(repl.dispatch(&inv, None), Action::Done(Ok(())));
    assert_eq!(repl.finish(Ok(())), LoopAction::Continue);
    assert_eq!(
        repl.output.drain(),
        vec![Emission {
            stream: Stream::Stdout,
            sink: Sink::File { path: "log.txt".to_string(), mode: WriteMode::Append },
            data: b"a  b c\n".to_vec()
        }]
    );
    assert_eq!(repl.output.stdout_sink(), &Sink::Inherited);
}

#[test]
fn text_helpers_do_what_they_say() {
    assert_eq!(glue("ab", "cd"), "abcd");
    assert_eq!(glue("", ""), "");
    assert_eq!(join(&strings(&["a", "b", "c"]), ", "), "a, b, c");
    assert_eq!(join(&strings(&[]), ", "), "");
    assert_eq!(join(&strings(&["a"]), ", "), "a");
    assert_eq!(pad_right("cd", 6), "cd    ");
    assert_eq!(pad_right("toolong", 6), "toolong");
    assert_eq!(pad_right("é", 3), "é  ");
    assert!(contains_char("a/b", '/'));
    assert!(!contains_char("ab", '/'));
    assert!(same_text("x", "x"));
    assert!(!same_text("x", "xy"));
    assert!(is_append(WriteMode::Append));
    assert!(!is_append(WriteMode::Truncate));
}

#[test]
fn a_target_that_cannot_be_opened_ends_the_invocation() {
    let mut repl = Repl::new();
    let inv = repl.evaluate_input("echo hi > /no/such/dir/out.txt 2> err.txt").unwrap();
    let r = repl.opened(inv, Some("No such file or directory (os error 2)".to_string()));
    assert_eq!(r, Err(ShellError::Io("No such file or directory (os error 2)".to_string())));
    assert_eq!(repl.output.stdout_sink(), &Sink::Inherited);
    assert_eq!(repl.output.stderr_sink(), &Sink::Inherited);
    assert!(repl.output.drain().is_empty());
    assert_eq!(repl.finish(r.map(|_| ())), LoopAction::Continue);
    assert_eq!(
        repl.output.drain(),
        vec![Emission {
            stream: Stream::Stderr,
            sink: Sink::Inherited,
            data: b"IO error: No such file or directory (os error 2)\n".to_vec()
        }]
    );
}

#[test]
fn targets_that_open_leave_the_invocation_as_it_is() {
    let mut repl = Repl::new();
    let inv = repl.evaluate_input("echo hi >> out.txt").unwrap();
    let kept = repl.opened(inv.clone(), None);
    assert_eq!(kept, Ok(inv));
    assert_eq!(
        repl.output.stdout_sink(),
        &Sink::File { path: "out.txt".to_string(), mode: WriteMode::Append }
    );
}
