//! One turn of the read-evaluate-print loop, as far as it decides anything:
//! from a line to the command to run and the routing of its output, and from
//! the result of the command to what the loop does next.

use vstd::prelude::*;
use vstd::utf8::encode_utf8;
use crate::error::{Failure, ShellError, message_of, redirect_failure, tokenize_failure};
use crate::lexer::{tokenize, tokens_of};
use crate::output::{OutputManager, Routing, Target, after_write, reset};
use crate::redirect::{
    Parsed,
    Redirection,
    Stream,
    WriteMode,
    extract_redirections,
    extracted,
};
use crate::shell::{Action, Shell, evaluated};
use crate::text::{opt_text, texts, trimmed};

verus! {

/// A command to run: its name and its arguments.
#[derive(Debug, Clone, PartialEq, Eq)]
pub struct Invocation {
    pub command: String,
    pub args: Vec<String>,
}

/// What the loop does after a command.
#[derive(Debug, Clone, Copy, PartialEq, Eq, Structural)]
pub enum LoopAction {
    /// Prompt for the next line.
    Continue,
    /// End the process with this exit code.
    Terminate(i32),
}

/// What a line asks for: its words with the redirections taken out, or the
/// failure to report. A line without a command word is a failure.
pub open spec fn plan(input: Seq<char>) -> Result<Parsed, Failure> {
    match tokens_of(input) {
        Err(e) => Err(tokenize_failure(e)),
        Ok(tokens) => match extracted(tokens) {
            Err(e) => Err(redirect_failure(e)),
            Ok(parsed) => if parsed.command_tokens.len() == 0 {
                Err(Failure::Command("No command provided"@))
            } else {
                Ok(parsed)
            },
        },
    }
}

/// Where a stream goes under a redirection, or `current` without one.
pub open spec fn target_of(redirect: Option<Redirection>, current: Target) -> Target {
    match redirect {
        Some(r) => Target::File { path: r.path, mode: r.mode },
        None => current,
    }
}

/// `r` with the redirections of a line applied.
pub open spec fn routed(r: Routing, parsed: Parsed) -> Routing {
    Routing {
        stdout: target_of(parsed.stdout_redirect, r.stdout),
        stderr: target_of(parsed.stderr_redirect, r.stderr),
        pending: r.pending,
    }
}

/// Whether an invocation is the one that a line asks for: the first word
/// is the command, the others are the arguments.
pub open spec fn invokes(invocation: Invocation, parsed: Parsed) -> bool {
    &&& parsed.command_tokens.len() > 0
    &&& invocation.command@ == parsed.command_tokens[0]
    &&& texts(invocation.args@) == parsed.command_tokens.drop_first()
}

/// `r` after a command has ended with `result`: both streams are back on
/// the inherited ones, and a failure other than the request to terminate
/// has been reported on standard error, on a line of its own.
pub open spec fn concluded(r: Routing, result: Result<(), ShellError>) -> Routing {
    match result {
        Ok(_) => reset(r),
        Err(e) => if e@ is Exit {
            reset(r)
        } else {
            after_write(reset(r), Stream::Stderr, encode_utf8(message_of(e@) + "\n"@))
        },
    }
}

/// What the loop does after a command that ended with `result`.
pub open spec fn next_step(result: Result<(), ShellError>) -> LoopAction {
    match result {
        Err(ShellError::Exit(code)) => LoopAction::Terminate(code),
        _ => LoopAction::Continue,
    }
}

/// The state of the loop: the shell and the routing of the output of the
/// command at hand.
pub struct Repl {
    pub shell: Shell,
    pub output: OutputManager,
}

impl Repl {
    /// A loop with a fresh shell and both streams inherited.
    pub fn new() -> (r: Self)
        ensures
            r.shell@ == crate::commands::registry(),
            r.output@ == crate::output::default_routing(),
    {
        Repl { shell: Shell::new(), output: OutputManager::new() }
    }

    /// The text that asks for the next line.
    pub fn prompt(&self) -> (p: &'static str)
        ensures
            p@ == "$ "@,
    {
        "$ "
    }

    /// Takes in a line as it was read. A line of nothing but whitespace
    /// asks for nothing; any other is evaluated without the whitespace at
    /// its ends.
    pub fn run_single_command(&mut self, line: &str) -> (r: Result<Option<Invocation>, ShellError>)
        ensures
            final(self).shell@ == old(self).shell@,
            trimmed(line@).len() == 0 ==> r == Ok::<Option<Invocation>, ShellError>(None)
                && final(self).output@ == old(self).output@,
            trimmed(line@).len() > 0 ==> (match plan(trimmed(line@)) {
                Ok(parsed) => final(self).output@ == routed(old(self).output@, parsed) && (
                r matches Ok(Some(inv)) && invokes(inv, parsed)),
                Err(f) => final(self).output@ == old(self).output@ && (r matches Err(e) && e@
                    == f),
            }),
    {
        let input = line.trim();
        if input.is_empty() {
            return Ok(None);
        }
        match self.evaluate_input(input) {
            Ok(inv) => Ok(Some(inv)),
            Err(e) => Err(e),
        }
    }

    /// Splits a line into words, takes the redirections out, and routes
    /// the output as they say. The first word is the command, the rest are
    /// its arguments. On failure the routing stays as it was.
    pub fn evaluate_input(&mut self, input: &str) -> (r: Result<Invocation, ShellError>)
        ensures
            final(self).shell@ == old(self).shell@,
            (match plan(input@) {
                Ok(parsed) => final(self).output@ == routed(old(self).output@, parsed) && (
                r matches Ok(inv) && invokes(inv, parsed)),
                Err(f) => final(self).output@ == old(self).output@ && (r matches Err(e) && e@
                    == f),
            }),
    {
        let tokens = match tokenize(input) {
            Ok(tokens) => tokens,
            Err(e) => {
                return Err(ShellError::from_tokenize(e));
            },
        };
        let line = match extract_redirections(tokens) {
            Ok(line) => line,
            Err(e) => {
                return Err(ShellError::from_redirect(e));
            },
        };
        let ghost parsed = line@;
        if line.command_tokens.len() == 0 {
            return Err(ShellError::command("No command provided"));
        }
        match &line.stdout_redirect {
            Some(spec) => {
                self.output.redirect_stdout(spec.path.as_str(), is_append(spec.mode));
            },
            None => {},
        }
        match &line.stderr_redirect {
            Some(spec) => {
                self.output.redirect_stderr(spec.path.as_str(), is_append(spec.mode));
            },
            None => {},
        }
        let mut args = line.command_tokens;
        let command = args.remove(0);
        proof {
            assert(texts(args@) =~= parsed.command_tokens.drop_first());
        }
        Ok(Invocation { command, args })
    }

    /// Takes in whether the targets of the redirections could be opened.
    /// `failure` is the description of what went wrong, if anything did.
    /// A failure ends the invocation before the command has run or written
    /// anything: it comes back as an I/O failure, and both streams are on
    /// the inherited ones again. Without one the invocation goes on as it
    /// is.
    pub fn opened(&mut self, invocation: Invocation, failure: Option<String>) -> (r: Result<
        Invocation,
        ShellError,
    >)
        ensures
            final(self).shell@ == old(self).shell@,
            failure matches Some(m) ==> (r matches Err(e) && e@ == Failure::Io(m@))
                && final(self).output@ == reset(old(self).output@),
            failure is None ==> r == Ok::<Invocation, ShellError>(invocation)
                && final(self).output@ == old(self).output@,
    {
        match failure {
            Some(m) => {
                self.output.reset();
                Err(ShellError::Io(m))
            },
            None => Ok(invocation),
        }
    }

    /// Evaluates a command against the shell and the output at hand.
    /// `home` is the value of `HOME`, if it is set.
    pub fn dispatch(&mut self, invocation: &Invocation, home: Option<&str>) -> (action: Action)
        ensures
            final(self).shell@ == old(self).shell@,
            evaluated(
                old(self).shell@,
                invocation.command@,
                texts(invocation.args@),
                opt_text(home),
                old(self).output@,
                final(self).output@,
                action,
            ),
    {
        self.shell.evaluate_command(
            invocation.command.as_str(),
            &invocation.args,
            home,
            &mut self.output,
        )
    }

    /// Ends the turn for a command that ended with `result`. Whatever the
    /// result, both streams are back on the inherited ones afterwards. A
    /// failure is reported on standard error; the request to terminate is
    /// not reported but passed on.
    pub fn finish(&mut self, result: Result<(), ShellError>) -> (next: LoopAction)
        ensures
            final(self).shell@ == old(self).shell@,
            final(self).output@ == concluded(old(self).output@, result),
            final(self).output@.stdout == Target::Inherited,
            final(self).output@.stderr == Target::Inherited,
            next == next_step(result),
    {
        self.output.reset();
        match result {
            Ok(_) => LoopAction::Continue,
            Err(ShellError::Exit(code)) => LoopAction::Terminate(code),
            Err(e) => {
                let mut report = e.message();
                report.append("\n");
                self.output.write_stderr(report.as_str());
                LoopAction::Continue
            },
        }
    }
}

/// Whether a mode adds to the end of the file.
pub fn is_append(mode: WriteMode) -> (b: bool)
    ensures
        b == (mode == WriteMode::Append),
{
    match mode {
        WriteMode::Append => true,
        WriteMode::Truncate => false,
    }
}

} // verus!
