//! The builtins: what each one decides, given its arguments and whatever the
//! caller had to find out from the system beforehand.

use vstd::prelude::*;
use vstd::utf8::encode_utf8;
use crate::commands::{Builtin, Command, find, name_of, description_of, lookup};
use crate::error::{Failure, ShellError};
use crate::output::{OutputManager, Routing, after_write};
use crate::redirect::Stream;
use crate::shell::Shell;
use crate::text::{
    digit_value,
    glue,
    join,
    joined,
    pad_right,
    padded,
    parse_i32,
    parsed_i32,
    same_text,
    texts,
};

verus! {

/// `cd`: changes the working directory.
pub struct CdCommand;

/// `echo`: writes its arguments.
pub struct EchoCommand;

/// `exit`: asks the shell to terminate.
pub struct ExitCommand;

/// `pwd`: writes the working directory.
pub struct PwdCommand;

/// `type`: says what a name stands for.
pub struct TypeCommand;

/// `help`: lists or describes the builtins.
pub struct HelpCommand;

/// `r` after each of `lines` has been written to standard output, in order,
/// one write per line.
pub open spec fn after_lines(r: Routing, lines: Seq<Seq<char>>) -> Routing
    decreases lines.len(),
{
    if lines.len() == 0 {
        r
    } else {
        after_write(after_lines(r, lines.drop_last()), Stream::Stdout, encode_utf8(lines.last()))
    }
}

/// The directory that `cd` is to enter: its first argument, or the home
/// directory where that argument is `~`. Without an argument the call is
/// malformed; with `~` and no home directory known, a variable that the
/// command needs is missing from the environment.
pub open spec fn cd_target(args: Seq<Seq<char>>, home: Option<Seq<char>>) -> Result<
    Seq<char>,
    Failure,
> {
    if args.len() == 0 {
        Err(Failure::Command("cd: missing parameter"@))
    } else if args[0] == "~"@ {
        match home {
            Some(h) => Ok(h),
            None => Err(Failure::Env("cd: HOME not set"@)),
        }
    } else {
        Ok(args[0])
    }
}

/// The failure that `cd` reports for a directory that could not be
/// entered holds the path of that directory.
pub proof fn lemma_cd_failure_names_target(target: Seq<char>)
    ensures
        ("cd: "@ + target + ": No such file or directory"@).subrange(4, 4 + target.len() as int)
            == target,
{
    reveal_strlit("cd: ");
    let text = "cd: "@ + target + ": No such file or directory"@;
    assert(text.subrange(4, 4 + target.len() as int) =~= target);
}

impl CdCommand {
    /// The command. It holds no state.
    pub fn new() -> Self {
        CdCommand
    }

    /// Decides which directory to enter. `home` is the value of `HOME`, if
    /// it is set; where `~` asks for it and it is not, the failure is of
    /// the `Env` kind.
    pub fn execute(&self, args: &Vec<String>, home: Option<&str>) -> (r: Result<String, ShellError>)
        ensures
            (match r {
                Ok(t) => cd_target(texts(args@), crate::text::opt_text(home)) == Ok::<
                    Seq<char>,
                    Failure,
                >(t@),
                Err(e) => cd_target(texts(args@), crate::text::opt_text(home)) == Err::<
                    Seq<char>,
                    Failure,
                >(e@),
            }),
    {
        if args.len() == 0 {
            return Err(ShellError::command("cd: missing parameter"));
        }
        let new_dir = args[0].as_str();
        if same_text(new_dir, "~") {
            match home {
                Some(h) => Ok(h.to_owned()),
                None => Err(ShellError::env("cd: HOME not set")),
            }
        } else {
            Ok(new_dir.to_owned())
        }
    }

    /// The result of `cd`, given whether the working directory could be
    /// changed to `target`.
    pub fn conclude(&self, target: &str, changed: bool) -> (r: Result<(), ShellError>)
        ensures
            changed ==> r is Ok,
            !changed ==> (r matches Err(e) && e@ == Failure::Command(
                "cd: "@ + target@ + ": No such file or directory"@,
            )),
    {
        if changed {
            Ok(())
        } else {
            let mut m = glue("cd: ", target);
            m.append(": No such file or directory");
            Err(ShellError::Command(m))
        }
    }
}

impl Command for CdCommand {
    open spec fn name_text(&self) -> Seq<char> {
        name_of(Builtin::Cd)
    }

    open spec fn description_text(&self) -> Seq<char> {
        description_of(Builtin::Cd)
    }

    fn name(&self) -> (r: &str) {
        Builtin::Cd.name()
    }

    fn description(&self) -> (r: &'static str) {
        Builtin::Cd.description()
    }
}

/// The line that `echo` writes: its arguments with single spaces between
/// them, and a newline.
pub open spec fn echo_line(args: Seq<Seq<char>>) -> Seq<char> {
    joined(args, " "@) + "\n"@
}

impl EchoCommand {
    /// The command. It holds no state.
    pub fn new() -> Self {
        EchoCommand
    }

    /// Writes the arguments to standard output as one line. Never fails.
    pub fn execute(&self, args: &Vec<String>, output: &mut OutputManager) -> (r: Result<
        (),
        ShellError,
    >)
        ensures
            r is Ok,
            final(output)@ == after_write(
                old(output)@,
                Stream::Stdout,
                encode_utf8(echo_line(texts(args@))),
            ),
    {
        let mut line = join(args, " ");
        line.append("\n");
        output.write_stdout(line.as_str());
        Ok(())
    }
}

impl Command for EchoCommand {
    open spec fn name_text(&self) -> Seq<char> {
        name_of(Builtin::Echo)
    }

    open spec fn description_text(&self) -> Seq<char> {
        description_of(Builtin::Echo)
    }

    fn name(&self) -> (r: &str) {
        Builtin::Echo.name()
    }

    fn description(&self) -> (r: &'static str) {
        Builtin::Echo.description()
    }
}

/// How `exit` ends: with the request to terminate where it has exactly one
/// argument and that argument is a number, else with a failure. `parsed`
/// is the number that the single argument denotes, if any.
pub open spec fn exit_outcome(count: nat, parsed: Option<i32>) -> Failure {
    if count == 0 {
        Failure::Command("exit: missing parameter"@)
    } else if count == 1 {
        match parsed {
            Some(code) => Failure::Exit(code),
            None => Failure::Command("exit: invalid parameter"@),
        }
    } else {
        Failure::Command("exit: too many parameters"@)
    }
}

/// How `exit` ends for the given arguments.
pub open spec fn exit_failure(args: Seq<Seq<char>>) -> Failure {
    exit_outcome(
        args.len(),
        if args.len() == 1 {
            parsed_i32(args[0])
        } else {
            None
        },
    )
}

/// `exit` with a single digit asks for termination with that digit as the
/// code.
pub proof fn lemma_exit_with_digit(arg: Seq<char>)
    requires
        arg.len() == 1,
        digit_value(arg[0]) is Some,
    ensures
        exit_failure(seq![arg]) == Failure::Exit(digit_value(arg[0])->0 as i32),
{
    assert(seq![arg][0] == arg);
    assert(arg.last() == arg[0]);
}

impl ExitCommand {
    /// The command. It holds no state.
    pub fn new() -> Self {
        ExitCommand
    }

    /// How `exit` ends for `count` arguments, where `parsed` is what the
    /// single argument was read as.
    pub fn conclude(&self, count: usize, parsed: Option<i32>) -> (e: ShellError)
        ensures
            e@ == exit_outcome(count as nat, parsed),
    {
        if count == 0 {
            ShellError::command("exit: missing parameter")
        } else if count == 1 {
            match parsed {
                Some(code) => ShellError::Exit(code),
                None => ShellError::command("exit: invalid parameter"),
            }
        } else {
            ShellError::command("exit: too many parameters")
        }
    }

    /// Ends with the request to terminate, or with the reason why the
    /// arguments do not make one. Never succeeds.
    pub fn execute(&self, args: &Vec<String>) -> (r: Result<(), ShellError>)
        ensures
            r matches Err(e) && e@ == exit_failure(texts(args@)),
    {
        let parsed = if args.len() == 1 {
            proof {
                assert(texts(args@)[0] == args@[0]@);
            }
            parse_i32(args[0].as_str())
        } else {
            None
        };
        Err(self.conclude(args.len(), parsed))
    }
}

impl Command for ExitCommand {
    open spec fn name_text(&self) -> Seq<char> {
        name_of(Builtin::Exit)
    }

    open spec fn description_text(&self) -> Seq<char> {
        description_of(Builtin::Exit)
    }

    fn name(&self) -> (r: &str) {
        Builtin::Exit.name()
    }

    fn description(&self) -> (r: &'static str) {
        Builtin::Exit.description()
    }
}

/// The line by which `help` lists one builtin.
pub open spec fn help_line(b: Builtin) -> Seq<char> {
    "  "@ + padded(name_of(b), 6) + " - "@ + description_of(b) + "\n"@
}

/// The lines by which `help` lists a table of builtins.
pub open spec fn help_lines(commands: Seq<Builtin>) -> Seq<Seq<char>> {
    commands.map_values(|b: Builtin| help_line(b))
}

/// The line by which `help` describes one builtin.
pub open spec fn help_entry(b: Builtin) -> Seq<char> {
    name_of(b) + " - "@ + description_of(b) + "\n"@
}

/// What `help` does: how the output stands after it and how it ends,
/// given the table of builtins, the arguments and the output before it.
pub open spec fn help_effect(
    commands: Seq<Builtin>,
    args: Seq<Seq<char>>,
    before: Routing,
    after: Routing,
    r: Result<(), ShellError>,
) -> bool {
    if args.len() == 0 {
        r is Ok && after == after_lines(
            after_write(before, Stream::Stdout, encode_utf8("Available commands:\n"@)),
            help_lines(commands),
        )
    } else {
        match find(commands, args[0]) {
            Some(b) => r is Ok && after == after_write(
                before,
                Stream::Stdout,
                encode_utf8(help_entry(b)),
            ),
            None => after == before && (r matches Err(e) && e@ == Failure::Command(
                "Unknown command: "@ + args[0],
            )),
        }
    }
}

impl HelpCommand {
    /// The command. It holds no state.
    pub fn new() -> Self {
        HelpCommand
    }

    fn print_help(&self, shell: &Shell, output: &mut OutputManager)
        ensures
            final(output)@ == after_lines(
                after_write(
                    old(output)@,
                    Stream::Stdout,
                    encode_utf8("Available commands:\n"@),
                ),
                help_lines(shell@),
            ),
    {
        output.write_stdout("Available commands:\n");
        let ghost start = output@;
        let commands = shell.get_commands();
        let mut i: usize = 0;
        while i < commands.len()
            invariant
                i <= commands.len(),
                commands@ == shell@,
                output@ == after_lines(start, help_lines(shell@.subrange(0, i as int))),
            decreases commands.len() - i,
        {
            let b = commands[i];
            let mut line = glue("  ", pad_right(b.name(), 6).as_str());
            line.append(" - ");
            line.append(b.description());
            line.append("\n");
            proof {
                let next = help_lines(shell@.subrange(0, i + 1));
                assert(next.drop_last() =~= help_lines(shell@.subrange(0, i as int)));
                assert(next.last() == help_line(b));
            }
            output.write_stdout(line.as_str());
            i += 1;
        }
        proof {
            assert(shell@.subrange(0, shell@.len() as int) =~= shell@);
        }
    }

    /// Without arguments, lists every builtin in the order of the table,
    /// after a heading. With arguments, describes the builtin that the
    /// first one names, or fails if it names none.
    pub fn execute(&self, args: &Vec<String>, shell: &Shell, output: &mut OutputManager) -> (r:
        Result<(), ShellError>)
        ensures
            help_effect(shell@, texts(args@), old(output)@, final(output)@, r),
    {
        if args.len() == 0 {
            self.print_help(shell, output);
            return Ok(());
        }
        let command = args[0].as_str();
        proof {
            assert(texts(args@)[0] == command@);
        }
        match lookup(shell.get_commands(), command) {
            Some(b) => {
                let mut line = glue(b.name(), " - ");
                line.append(b.description());
                line.append("\n");
                output.write_stdout(line.as_str());
                Ok(())
            },
            None => Err(ShellError::Command(glue("Unknown command: ", command))),
        }
    }
}

impl Command for HelpCommand {
    open spec fn name_text(&self) -> Seq<char> {
        name_of(Builtin::Help)
    }

    open spec fn description_text(&self) -> Seq<char> {
        description_of(Builtin::Help)
    }

    fn name(&self) -> (r: &str) {
        Builtin::Help.name()
    }

    fn description(&self) -> (r: &'static str) {
        Builtin::Help.description()
    }
}

impl PwdCommand {
    /// The command. It holds no state.
    pub fn new() -> Self {
        PwdCommand
    }

    /// Takes in the working directory as the system reported it, or the
    /// description of the failure to read it. Writes the directory and a
    /// newline to standard output, or passes the failure on and writes
    /// nothing.
    pub fn execute(&self, current_dir: Result<String, String>, output: &mut OutputManager) -> (r:
        Result<(), ShellError>)
        ensures
            (match current_dir {
                Ok(dir) => r is Ok && final(output)@ == after_write(
                    old(output)@,
                    Stream::Stdout,
                    encode_utf8(dir@ + "\n"@),
                ),
                Err(reason) => final(output)@ == old(output)@ && (r matches Err(e) && e@
                    == Failure::Io(reason@)),
            }),
    {
        match current_dir {
            Ok(dir) => {
                let line = glue(dir.as_str(), "\n");
                output.write_stdout(line.as_str());
                Ok(())
            },
            Err(reason) => Err(ShellError::Io(reason)),
        }
    }
}

impl Command for PwdCommand {
    open spec fn name_text(&self) -> Seq<char> {
        name_of(Builtin::Pwd)
    }

    open spec fn description_text(&self) -> Seq<char> {
        description_of(Builtin::Pwd)
    }

    fn name(&self) -> (r: &str) {
        Builtin::Pwd.name()
    }

    fn description(&self) -> (r: &'static str) {
        Builtin::Pwd.description()
    }
}

/// The path that was found for the argument at position `i`, if any.
/// An argument of which `resolved` says nothing counts as not found.
pub open spec fn resolution(resolved: Seq<Option<String>>, i: int) -> Option<Seq<char>> {
    if 0 <= i < resolved.len() {
        match resolved[i] {
            Some(p) => Some(p@),
            None => None,
        }
    } else {
        None
    }
}

/// The line by which `type` reports one name: as a builtin if it is one,
/// whatever was found on the search path; else by the path found for it.
/// There is no line for a name that is neither.
pub open spec fn type_line(commands: Seq<Builtin>, name: Seq<char>, path: Option<Seq<char>>) -> Option<
    Seq<char>,
> {
    if find(commands, name) is Some {
        Some(name + " is a shell builtin\n"@)
    } else {
        match path {
            Some(p) => Some(name + " is "@ + p + "\n"@),
            None => None,
        }
    }
}

/// The position of the first argument, at or after `from`, for which
/// there is no line; the number of arguments if there is none.
pub open spec fn type_stop(
    commands: Seq<Builtin>,
    args: Seq<Seq<char>>,
    resolved: Seq<Option<String>>,
    from: int,
) -> int
    decreases args.len() - from,
{
    if from < 0 || from >= args.len() {
        args.len() as int
    } else if type_line(commands, args[from], resolution(resolved, from)) is None {
        from
    } else {
        type_stop(commands, args, resolved, from + 1)
    }
}

/// The lines for the first `count` arguments.
pub open spec fn type_lines(
    commands: Seq<Builtin>,
    args: Seq<Seq<char>>,
    resolved: Seq<Option<String>>,
    count: int,
) -> Seq<Seq<char>> {
    Seq::new(
        count as nat,
        |i: int| type_line(commands, args[i], resolution(resolved, i)).unwrap(),
    )
}

/// A builtin is reported as a builtin, whatever was found for its name on
/// the search path.
pub proof fn lemma_type_prefers_builtin(
    commands: Seq<Builtin>,
    name: Seq<char>,
    path: Option<Seq<char>>,
)
    requires
        find(commands, name) is Some,
    ensures
        type_line(commands, name, path) == Some(name + " is a shell builtin\n"@),
{
}

/// The report of `type` stops at the first argument that has no line:
/// every argument before that position has one, and the argument at that
/// position, if there is one, has none.
pub proof fn lemma_type_stop_is_first(
    commands: Seq<Builtin>,
    args: Seq<Seq<char>>,
    resolved: Seq<Option<String>>,
    from: int,
)
    requires
        0 <= from <= args.len(),
    ensures
        from <= type_stop(commands, args, resolved, from) <= args.len(),
        type_stop(commands, args, resolved, from) < args.len() ==> type_line(
            commands,
            args[type_stop(commands, args, resolved, from)],
            resolution(resolved, type_stop(commands, args, resolved, from)),
        ) is None,
        forall|j: int|
            from <= j < type_stop(commands, args, resolved, from) ==> (#[trigger] type_line(
                commands,
                args[j],
                resolution(resolved, j),
            )) is Some,
    decreases args.len() - from,
{
    if from < args.len() && type_line(commands, args[from], resolution(resolved, from)) is Some {
        lemma_type_stop_is_first(commands, args, resolved, from + 1);
    }
}

impl TypeCommand {
    /// The command. It holds no state.
    pub fn new() -> Self {
        TypeCommand
    }

    /// Reports what each argument stands for, one line each, in order.
    /// `resolved` holds, by position, the path found for each argument on
    /// the search path. The report stops at the first argument that is
    /// neither a builtin nor found: that one is reported as not found, and
    /// nothing is written for it or for any argument after it. Without
    /// arguments nothing is written and the call fails.
    pub fn execute(
        &self,
        args: &Vec<String>,
        shell: &Shell,
        resolved: &Vec<Option<String>>,
        output: &mut OutputManager,
    ) -> (r: Result<(), ShellError>)
        ensures
            args@.len() == 0 ==> final(output)@ == old(output)@ && (r matches Err(e) && e@
                == Failure::Command("type: missing parameter"@)),
            args@.len() > 0 ==> ({
                let k = type_stop(shell@, texts(args@), resolved@, 0);
                &&& 0 <= k <= args@.len()
                &&& final(output)@ == after_lines(
                    old(output)@,
                    type_lines(shell@, texts(args@), resolved@, k),
                )
                &&& k == args@.len() ==> r is Ok
                &&& k < args@.len() ==> (r matches Err(e) && e@ == Failure::Command(
                    args@[k]@ + ": not found"@,
                ))
            }),
    {
        if args.len() == 0 {
            return Err(ShellError::command("type: missing parameter"));
        }
        let ghost start = output@;
        let ghost names = texts(args@);
        let mut i: usize = 0;
        proof {
            assert(type_lines(shell@, names, resolved@, 0) =~= Seq::<Seq<char>>::empty());
        }
        while i < args.len()
            invariant
                i <= args.len(),
                names == texts(args@),
                start == old(output)@,
                type_stop(shell@, names, resolved@, 0) == type_stop(
                    shell@,
                    names,
                    resolved@,
                    i as int,
                ),
                output@ == after_lines(start, type_lines(shell@, names, resolved@, i as int)),
            decreases args.len() - i,
        {
            let name = args[i].as_str();
            proof {
                assert(names[i as int] == name@);
            }
            let line = if shell.is_builtin(name) {
                glue(name, " is a shell builtin\n")
            } else if i < resolved.len() && resolved[i].is_some() {
                let path = resolved[i].as_ref().unwrap();
                let mut l = glue(name, " is ");
                l.append(path.as_str());
                l.append("\n");
                l
            } else {
                proof {
                    assert(resolution(resolved@, i as int) is None);
                    assert(type_line(shell@, names[i as int], resolution(resolved@, i as int))
                        is None);
                    assert(type_stop(shell@, names, resolved@, i as int) == i);
                }
                return Err(ShellError::Command(glue(name, ": not found")));
            };
            proof {
                let next = type_lines(shell@, names, resolved@, i + 1);
                assert(next.drop_last() =~= type_lines(shell@, names, resolved@, i as int));
                assert(next.last() == line@);
            }
            output.write_stdout(line.as_str());
            i += 1;
        }
        Ok(())
    }
}

impl Command for TypeCommand {
    open spec fn name_text(&self) -> Seq<char> {
        name_of(Builtin::Type)
    }

    open spec fn description_text(&self) -> Seq<char> {
        description_of(Builtin::Type)
    }

    fn name(&self) -> (r: &str) {
        Builtin::Type.name()
    }

    fn description(&self) -> (r: &'static str) {
        Builtin::Type.description()
    }
}

} // verus!
