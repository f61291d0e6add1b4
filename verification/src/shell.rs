//! The shell proper: the table of builtins and the choice of what a command
//! name stands for.

use vstd::prelude::*;
use vstd::utf8::encode_utf8;
use crate::commands::{Builtin, Command, create_command_map, find, lookup, registry};
use crate::commands::builtin::{
    CdCommand,
    EchoCommand,
    ExitCommand,
    HelpCommand,
    cd_target,
    echo_line,
    exit_failure,
    help_effect,
};
use crate::commands::external::ExternalCommand;
use crate::error::ShellError;
use crate::output::{OutputManager, Routing, after_write};
use crate::redirect::Stream;
use crate::text::{opt_text, texts};

verus! {

/// What is to happen next for a command.
#[derive(Debug, PartialEq, Eq)]
pub enum Action {
    /// The command was a builtin that has run to its end, with this
    /// result.
    Done(Result<(), ShellError>),
    /// The working directory is to be changed to this path; `cd` then
    /// concludes from whether that worked.
    ChangeDirectory(String),
    /// The working directory is to be read and handed to `pwd`.
    ReportDirectory,
    /// Each argument is to be looked for on the search path and the
    /// findings handed to `type`.
    ResolveNames,
    /// The command is no builtin: the program is to be looked for and run,
    /// and the outcome handed to the external command.
    Spawn(ExternalCommand),
}

/// The relation between a command with its arguments, the output before
/// and after it was evaluated, and the action that the evaluation gave.
/// `home` is the value of `HOME`, if it is set.
pub open spec fn evaluated(
    commands: Seq<Builtin>,
    command: Seq<char>,
    args: Seq<Seq<char>>,
    home: Option<Seq<char>>,
    before: Routing,
    after: Routing,
    action: Action,
) -> bool {
    match find(commands, command) {
        Some(Builtin::Cd) => after == before && (match cd_target(args, home) {
            Ok(target) => action matches Action::ChangeDirectory(p) && p@ == target,
            Err(f) => action matches Action::Done(Err(e)) && e@ == f,
        }),
        Some(Builtin::Echo) => action matches Action::Done(Ok(_)) && after == after_write(
            before,
            Stream::Stdout,
            encode_utf8(echo_line(args)),
        ),
        Some(Builtin::Exit) => after == before && (action matches Action::Done(Err(e)) && e@
            == exit_failure(args)),
        Some(Builtin::Help) => action matches Action::Done(r) && help_effect(
            commands,
            args,
            before,
            after,
            r,
        ),
        Some(Builtin::Pwd) => after == before && action is ReportDirectory,
        Some(Builtin::Type) => after == before && action is ResolveNames,
        None => after == before && (action matches Action::Spawn(c) && c.name_text() == command),
    }
}

/// A builtin name stands for the builtin: however the evaluation went, a
/// name that the table knows is never handed on to be looked for and run
/// as a program, and a name that it does not know always is.
pub proof fn lemma_builtin_precedence(
    commands: Seq<Builtin>,
    command: Seq<char>,
    args: Seq<Seq<char>>,
    home: Option<Seq<char>>,
    before: Routing,
    after: Routing,
    action: Action,
)
    requires
        evaluated(commands, command, args, home, before, after, action),
    ensures
        (action is Spawn) <==> find(commands, command) is None,
{
}

/// The table of builtins, fixed once the shell exists.
pub struct Shell {
    commands: Vec<Builtin>,
}

impl View for Shell {
    type V = Seq<Builtin>;

    closed spec fn view(&self) -> Seq<Builtin> {
        self.commands@
    }
}

impl Shell {
    /// The table never changes: it holds every builtin, by name.
    #[verifier::type_invariant]
    spec fn complete(&self) -> bool {
        self.commands@ == registry()
    }

    /// A shell that knows every builtin.
    pub fn new() -> (s: Self)
        ensures
            s@ == registry(),
    {
        Shell { commands: create_command_map() }
    }

    /// Whether `command` names a builtin.
    pub fn is_builtin(&self, command: &str) -> (b: bool)
        ensures
            self@ == registry(),
            b == (find(registry(), command@) is Some),
    {
        proof {
            use_type_invariant(self);
        }
        lookup(&self.commands, command).is_some()
    }

    /// The builtins, in the order in which `help` lists them.
    pub fn get_commands(&self) -> (commands: &Vec<Builtin>)
        ensures
            commands@ == self@,
            commands@ == registry(),
    {
        proof {
            use_type_invariant(self);
        }
        &self.commands
    }

    /// Evaluates a command as far as that takes nothing from the system.
    /// A builtin name always stands for the builtin, whatever is on the
    /// search path; `echo`, `exit` and `help` run to their end here. For
    /// the rest the action says what is to be done.
    pub fn evaluate_command(
        &self,
        command: &str,
        args: &Vec<String>,
        home: Option<&str>,
        output: &mut OutputManager,
    ) -> (action: Action)
        ensures
            evaluated(
                self@,
                command@,
                texts(args@),
                opt_text(home),
                old(output)@,
                final(output)@,
                action,
            ),
            self@ == registry(),
            (action is Spawn) <==> find(registry(), command@) is None,
    {
        proof {
            use_type_invariant(self);
        }
        match lookup(&self.commands, command) {
            Some(Builtin::Cd) => match CdCommand::new().execute(args, home) {
                Ok(target) => Action::ChangeDirectory(target),
                Err(e) => Action::Done(Err(e)),
            },
            Some(Builtin::Echo) => Action::Done(EchoCommand::new().execute(args, output)),
            Some(Builtin::Exit) => Action::Done(ExitCommand::new().execute(args)),
            Some(Builtin::Help) => Action::Done(HelpCommand::new().execute(args, self, output)),
            Some(Builtin::Pwd) => Action::ReportDirectory,
            Some(Builtin::Type) => Action::ResolveNames,
            None => match ExternalCommand::new(command) {
                Ok(c) => Action::Spawn(c),
                Err(e) => Action::Done(Err(e)),
            },
        }
    }
}

} // verus!
