use shell_core::commands::builtin::{
    CdCommand, EchoCommand, ExitCommand, HelpCommand, PwdCommand, TypeCommand,
};
use shell_core::commands::external::{
    candidate_paths, find_executable_path, is_literal_path, split_on, ExternalCommand,
    SpawnOutcome,
};
use shell_core::commands::{create_command_map, lookup, Builtin, Command};
use shell_core::error::ShellError;
use shell_core::output::{Emission, OutputManager, Sink};
use shell_core::redirect::{Stream, WriteMode};
use shell_core::shell::{Action, Shell};

fn strings(items: &[&str]) -> Vec<String> {
    items.iter().map(|s| s.to_string()).collect()
}

fn command_error(text: &str) -> ShellError {
    ShellError::Command(text.to_string())
}

fn stdout_text(output: &mut OutputManager) -> Vec<String> {
    output
        .drain()
        .into_iter()
        .map(|e| {
            assert_eq!(e.stream, Stream::Stdout);
            String::from_utf8(e.data).unwrap()
        })
        .collect()
}

#[test]
fn registry_lists_every_builtin_by_name() {
    let commands = create_command_map();
    assert_eq!(
        commands,
        vec![
            Builtin::Cd,
            Builtin::Echo,
            Builtin::Exit,
            Builtin::Help,
            Builtin::Pwd,
            Builtin::Type
        ]
    );
    let names: Vec<&str> = commands.iter().map(|b| b.name()).collect();
    assert_eq!(names, vec!["cd", "echo", "exit", "help", "pwd", "type"]);
    let mut sorted = names.clone();
    sorted.sort();
    assert_eq!(names, sorted);
    for b in commands.iter() {
        assert_eq!(lookup(&commands, b.name()), Some(*b));
    }
    assert_eq!(lookup(&commands, "ls"), None);
    assert_eq!(lookup(&commands, ""), None);
    assert_eq!(lookup(&commands, "Echo"), None);
}

#[test]
fn commands_describe_themselves() {
    assert_eq!(CdCommand::new().name(), "cd");
    assert_eq!(CdCommand::new().description(), "Change the current directory");
    assert_eq!(EchoCommand::new().name(), "echo");
    assert_eq!(EchoCommand::new().description(), "Print arguments to standard output");
    assert_eq!(ExitCommand::new().name(), "exit");
    assert_eq!(ExitCommand::new().description(), "Exit the shell with a status code");
    assert_eq!(HelpCommand::new().name(), "help");
    assert_eq!(
        HelpCommand::new().description(),
        "Display help information about available commands"
    );
    assert_eq!(PwdCommand::new().name(), "pwd");
    assert_eq!(PwdCommand::new().description(), "Print current working directory");
    assert_eq!(TypeCommand::new().name(), "type");
    assert_eq!(TypeCommand::new().description(), "Display information about command type");
    let ls = ExternalCommand::new("ls").unwrap();
    assert_eq!(ls.name(), "ls");
    assert_eq!(ls.description(), "External system command");
    assert_eq!(Builtin::Pwd.description(), "Print current working directory");
}

#[test]
fn shell_knows_its_builtins() {
    let shell = Shell::new();
    for name in ["cd", "echo", "exit", "help", "pwd", "type"] {
        assert!(shell.is_builtin(name));
    }
    assert!(!shell.is_builtin("ls"));
    assert!(!shell.is_builtin("/bin/echo"));
    assert_eq!(shell.get_commands().len(), 6);
}

#[test]
fn cd_picks_its_target() {
    let cd = CdCommand::new();
    assert_eq!(cd.execute(&strings(&["/tmp"]), Some("/home/u")), Ok("/tmp".to_string()));
    assert_eq!(cd.execute(&strings(&["~"]), Some("/home/u")), Ok("/home/u".to_string()));
    assert_eq!(cd.execute(&strings(&["a", "b"]), None), Ok("a".to_string()));
    assert_eq!(cd.execute(&strings(&[]), Some("/home/u")), Err(command_error("cd: missing parameter")));
    assert_eq!(
        cd.execute(&strings(&["~"]), None),
        Err(ShellError::Env("cd: HOME not set".to_string()))
    );
    assert_eq!(cd.execute(&strings(&["~x"]), None), Ok("~x".to_string()));
}

#[test]
fn cd_to_a_missing_directory_names_the_target() {
    let cd = CdCommand::new();
    let err = cd.conclude("/no/such/dir", false).unwrap_err();
    assert_eq!(err, command_error("cd: /no/such/dir: No such file or directory"));
    assert!(err.message().contains("/no/such/dir"));
    assert_eq!(cd.conclude("/tmp", true), Ok(()));
}

#[test]
fn echo_joins_its_arguments() {
    let mut output = OutputManager::new();
    let echo = EchoCommand::new();
    assert_eq!(echo.execute(&strings(&["a", "b c", "d"]), &mut output), Ok(()));
    assert_eq!(echo.execute(&strings(&[]), &mut output), Ok(()));
    assert_eq!(echo.execute(&strings(&["x"]), &mut output), Ok(()));
    assert_eq!(echo.execute(&strings(&["", ""]), &mut output), Ok(()));
    assert_eq!(stdout_text(&mut output), strings(&["a b c d\n", "\n", "x\n", " \n"]));
}

#[test]
fn exit_with_a_code_asks_for_termination() {
    let exit = ExitCommand::new();
    assert_eq!(exit.execute(&strings(&["2"])), Err(ShellError::Exit(2)));
    assert_eq!(exit.execute(&strings(&["0"])), Err(ShellError::Exit(0)));
    assert_eq!(exit.execute(&strings(&["-7"])), Err(ShellError::Exit(-7)));
    assert_eq!(exit.execute(&strings(&["+12"])), Err(ShellError::Exit(12)));
}

#[test]
fn exit_rejects_other_arguments() {
    let exit = ExitCommand::new();
    assert_eq!(exit.execute(&strings(&[])), Err(command_error("exit: missing parameter")));
    assert_eq!(exit.execute(&strings(&["two"])), Err(command_error("exit: invalid parameter")));
    assert_eq!(exit.execute(&strings(&[""])), Err(command_error("exit: invalid parameter")));
    assert_eq!(exit.execute(&strings(&["2 "])), Err(command_error("exit: invalid parameter")));
    assert_eq!(
        exit.execute(&strings(&["99999999999"])),
        Err(command_error("exit: invalid parameter"))
    );
    assert_eq!(exit.execute(&strings(&["1", "2"])), Err(command_error("exit: too many parameters")));
    assert_eq!(exit.execute(&strings(&["x", "y"])), Err(command_error("exit: too many parameters")));
}

#[test]
fn exit_concludes_from_what_was_parsed() {
    let exit = ExitCommand::new();
    assert_eq!(exit.conclude(0, Some(3)), command_error("exit: missing parameter"));
    assert_eq!(exit.conclude(1, Some(3)), ShellError::Exit(3));
    assert_eq!(exit.conclude(1, None), command_error("exit: invalid parameter"));
    assert_eq!(exit.conclude(2, Some(3)), command_error("exit: too many parameters"));
}

#[test]
fn help_lists_the_builtins_in_order() {
    let shell = Shell::new();
    let mut output = OutputManager::new();
    assert_eq!(HelpCommand::new().execute(&strings(&[]), &shell, &mut output), Ok(()));
    assert_eq!(
        stdout_text(&mut output),
        strings(&[
            "Available commands:\n",
            "  cd     - Change the current directory\n",
            "  echo   - Print arguments to standard output\n",
            "  exit   - Exit the shell with a status code\n",
            "  help   - Display help information about available commands\n",
            "  pwd    - Print current working directory\n",
            "  type   - Display information about command type\n",
        ])
    );
}

#[test]
fn help_describes_one_builtin() {
    let shell = Shell::new();
    let mut output = OutputManager::new();
    let help = HelpCommand::new();
    assert_eq!(help.execute(&strings(&["cd", "ignored"]), &shell, &mut output), Ok(()));
    assert_eq!(stdout_text(&mut output), strings(&["cd - Change the current directory\n"]));
    assert_eq!(
        help.execute(&strings(&["ls"]), &shell, &mut output),
        Err(command_error("Unknown command: ls"))
    );
    assert!(output.drain().is_empty());
}

#[test]
fn pwd_writes_the_directory() {
    let mut output = OutputManager::new();
    let pwd = PwdCommand::new();
    assert_eq!(pwd.execute(Ok("/home/u".to_string()), &mut output), Ok(()));
    assert_eq!(stdout_text(&mut output), strings(&["/home/u\n"]));
    assert_eq!(
        pwd.execute(Err("gone".to_string()), &mut output),
        Err(ShellError::Io("gone".to_string()))
    );
    assert!(output.drain().is_empty());
}

#[test]
fn type_reports_builtins_and_programs() {
    let shell = Shell::new();
    let mut output = OutputManager::new();
    let resolved = vec![Some("/usr/bin/echo".to_string()), Some("/bin/ls".to_string())];
    assert_eq!(
        TypeCommand::new().execute(&strings(&["echo", "ls"]), &shell, &resolved, &mut output),
        Ok(())
    );
    assert_eq!(
        stdout_text(&mut output),
        strings(&["echo is a shell builtin\n", "ls is /bin/ls\n"])
    );
}

#[test]
fn type_stops_at_the_first_unknown_name() {
    let shell = Shell::new();
    let mut output = OutputManager::new();
    let resolved = vec![Some("/bin/ls".to_string()), None, Some("/bin/cat".to_string())];
    assert_eq!(
        TypeCommand::new().execute(&strings(&["ls", "nope", "cat"]), &shell, &resolved, &mut output),
        Err(command_error("nope: not found"))
    );
    assert_eq!(stdout_text(&mut output), strings(&["ls is /bin/ls\n"]));
}

#[test]
fn type_needs_an_argument() {
    let shell = Shell::new();
    let mut output = OutputManager::new();
    assert_eq!(
        TypeCommand::new().execute(&strings(&[]), &shell, &Vec::new(), &mut output),
        Err(command_error("type: missing parameter"))
    );
    assert!(output.drain().is_empty());
}

#[test]
fn type_counts_missing_findings_as_not_found() {
    let shell = Shell::new();
    let mut output = OutputManager::new();
    assert_eq!(
        TypeCommand::new().execute(&strings(&["pwd", "ls"]), &shell, &Vec::new(), &mut output),
        Err(command_error("ls: not found"))
    );
    assert_eq!(stdout_text(&mut output), strings(&["pwd is a shell builtin\n"]));
}

#[test]
fn search_path_is_split_at_colons() {
    assert_eq!(split_on("/bin:/usr/bin", ':'), strings(&["/bin", "/usr/bin"]));
    assert_eq!(split_on("", ':'), strings(&[""]));
    assert_eq!(split_on(":a::b:", ':'), strings(&["", "a", "", "b", ""]));
    assert_eq!(split_on("abc", ':'), strings(&["abc"]));
}

#[test]
fn candidates_follow_the_search_path() {
    assert_eq!(
        candidate_paths("ls", Some("/bin:/usr/bin:/opt/x/")),
        strings(&["/bin/ls", "/usr/bin/ls", "/opt/x/ls"])
    );
    assert_eq!(candidate_paths("ls", None), Vec::<String>::new());
    assert_eq!(candidate_paths("./ls", Some("/bin")), strings(&["./ls"]));
    assert_eq!(candidate_paths("/bin/ls", None), strings(&["/bin/ls"]));
}

#[test]
fn first_existing_candidate_is_chosen() {
    let candidates = strings(&["/a/ls", "/b/ls", "/c/ls"]);
    assert_eq!(
        find_executable_path("ls", &candidates, &vec![false, true, true]),
        Ok("/b/ls".to_string())
    );
    assert_eq!(
        find_executable_path("ls", &candidates, &vec![true, false, false]),
        Ok("/a/ls".to_string())
    );
    assert_eq!(
        find_executable_path("ls", &candidates, &vec![false, false, false]),
        Err(command_error("ls: not found"))
    );
    assert_eq!(
        find_executable_path("ls", &candidates, &vec![false]),
        Err(command_error("ls: not found"))
    );
    assert_eq!(
        find_executable_path("ls", &Vec::new(), &vec![true]),
        Err(command_error("ls: not found"))
    );
}

#[test]
fn external_output_is_passed_on() {
    let mut output = OutputManager::new();
    let ls = ExternalCommand::new("ls").unwrap();
    let outcome = SpawnOutcome::Finished {
        success: true,
        code: Some(0),
        stdout: vec![0xff, b'a'],
        stderr: b"warn".to_vec(),
    };
    assert_eq!(ls.execute(outcome, &mut output), Ok(()));
    assert_eq!(
        output.drain(),
        vec![
            Emission { stream: Stream::Stdout, sink: Sink::Inherited, data: vec![0xff, b'a'] },
            Emission { stream: Stream::Stderr, sink: Sink::Inherited, data: b"warn".to_vec() },
        ]
    );
}

#[test]
fn external_failure_carries_code_and_message() {
    let mut output = OutputManager::new();
    let ls = ExternalCommand::new("ls").unwrap();
    let failed = SpawnOutcome::Finished {
        success: false,
        code: Some(3),
        stdout: Vec::new(),
        stderr: b"bad \xff thing".to_vec(),
    };
    assert_eq!(
        ls.execute(failed, &mut output),
        Err(ShellError::CommandFailed { code: 3, message: "bad \u{fffd} thing".to_string() })
    );
    let killed = SpawnOutcome::Finished {
        success: false,
        code: None,
        stdout: Vec::new(),
        stderr: Vec::new(),
    };
    assert_eq!(
        ls.execute(killed, &mut output),
        Err(ShellError::CommandFailed { code: -1, message: String::new() })
    );
    assert_eq!(output.drain().len(), 4);
    assert_eq!(
        ls.execute(SpawnOutcome::NotStarted, &mut output),
        Err(command_error("ls: command not found"))
    );
    assert!(output.drain().is_empty());
}

#[test]
fn builtin_names_are_never_spawned() {
    let shell = Shell::new();
    let mut output = OutputManager::new();
    let action = shell.evaluate_command("echo", &strings(&["hi"]), None, &mut output);
    assert_eq!(action, Action::Done(Ok(())));
    assert_eq!(stdout_text(&mut output), strings(&["hi\n"]));
    for name in ["cd", "exit", "help", "pwd", "type"] {
        let action = shell.evaluate_command(name, &strings(&["x"]), None, &mut output);
        assert!(!matches!(action, Action::Spawn(_)));
    }
}

#[test]
fn evaluation_says_what_comes_next() {
    let shell = Shell::new();
    let mut output = OutputManager::new();
    assert_eq!(
        shell.evaluate_command("cd", &strings(&["~"]), Some("/home/u"), &mut output),
        Action::ChangeDirectory("/home/u".to_string())
    );
    assert_eq!(
        shell.evaluate_command("cd", &strings(&[]), Some("/home/u"), &mut output),
        Action::Done(Err(command_error("cd: missing parameter")))
    );
    assert_eq!(
        shell.evaluate_command("exit", &strings(&["2"]), None, &mut output),
        Action::Done(Err(ShellError::Exit(2)))
    );
    assert_eq!(
        shell.evaluate_command("exit", &strings(&[]), None, &mut output),
        Action::Done(Err(command_error("exit: missing parameter")))
    );
    assert_eq!(
        shell.evaluate_command("pwd", &strings(&[]), None, &mut output),
        Action::ReportDirectory
    );
    assert_eq!(
        shell.evaluate_command("type", &strings(&["ls"]), None, &mut output),
        Action::ResolveNames
    );
    assert_eq!(
        shell.evaluate_command("help", &strings(&["nope"]), None, &mut output),
        Action::Done(Err(command_error("Unknown command: nope")))
    );
    assert!(output.drain().is_empty());
    match shell.evaluate_command("ls", &strings(&["-l"]), None, &mut output) {
        Action::Spawn(c) => assert_eq!(c.name(), "ls"),
        other => panic!("unexpected action {:?}", other),
    }
    assert!(output.drain().is_empty());
}

#[test]
fn redirected_writes_remember_their_target() {
    let mut output = OutputManager::new();
    output.write_stdout("one");
    output.redirect_stdout("out.txt", false);
    output.redirect_stderr("err.txt", true);
    output.write_stdout("two");
    output.write_stderr("three");
    assert_eq!(
        output.stdout_sink(),
        &Sink::File { path: "out.txt".to_string(), mode: WriteMode::Truncate }
    );
    assert_eq!(
        output.stderr_sink(),
        &Sink::File { path: "err.txt".to_string(), mode: WriteMode::Append }
    );
    output.reset();
    output.write_stderr("four");
    output.forward(Stream::Stdout, vec![1, 2]);
    assert_eq!(
        output.drain(),
        vec![
            Emission { stream: Stream::Stdout, sink: Sink::Inherited, data: b"one".to_vec() },
            Emission {
                stream: Stream::Stdout,
                sink: Sink::File { path: "out.txt".to_string(), mode: WriteMode::Truncate },
                data: b"two".to_vec()
            },
            Emission {
                stream: Stream::Stderr,
                sink: Sink::File { path: "err.txt".to_string(), mode: WriteMode::Append },
                data: b"three".to_vec()
            },
            Emission { stream: Stream::Stderr, sink: Sink::Inherited, data: b"four".to_vec() },
            Emission { stream: Stream::Stdout, sink: Sink::Inherited, data: vec![1, 2] },
        ]
    );
    assert!(output.drain().is_empty());
}

#[test]
fn joining_the_pieces_gives_the_text_back() {
    for text in ["", ":", "/bin:/usr/bin", "a::b:", ":::", "no separator"] {
        let pieces = split_on(text, ':');
        assert!(pieces.iter().all(|p| !p.contains(':')));
        assert_eq!(pieces.len(), text.matches(':').count() + 1);
        assert_eq!(pieces.join(":"), text);
    }
}

#[test]
fn cd_home_without_home_is_an_environment_failure() {
    let shell = Shell::new();
    let mut output = OutputManager::new();
    let action = shell.evaluate_command("cd", &strings(&["~"]), None, &mut output);
    assert_eq!(action, Action::Done(Err(ShellError::Env("cd: HOME not set".to_string()))));
    assert_eq!(
        ShellError::env("cd: HOME not set").message(),
        "Environment error: cd: HOME not set"
    );
    assert!(output.drain().is_empty());
    assert_eq!(
        shell.evaluate_command("cd", &strings(&["~", "x"]), None, &mut output),
        Action::Done(Err(ShellError::Env("cd: HOME not set".to_string())))
    );
    assert_eq!(
        shell.evaluate_command("cd", &strings(&["x", "~"]), None, &mut output),
        Action::ChangeDirectory("x".to_string())
    );
}

#[test]
fn a_name_with_a_slash_is_a_path() {
    assert!(is_literal_path("./ls"));
    assert!(is_literal_path("/bin/ls"));
    assert!(is_literal_path("a/"));
    assert!(!is_literal_path("ls"));
    assert!(!is_literal_path(""));
    assert!(!is_literal_path("a\\b"));
}
