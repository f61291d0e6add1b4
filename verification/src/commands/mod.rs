//! The commands that the shell knows: the fixed set of builtins and the
//! programs found on the search path.

use vstd::prelude::*;
use crate::text::same_text;

pub mod builtin;
pub mod external;

verus! {

/// What every command can say about itself.
pub trait Command {
    /// The name by which the command is called.
    spec fn name_text(&self) -> Seq<char>;

    /// One line that says what the command does.
    spec fn description_text(&self) -> Seq<char>;

    fn name(&self) -> (r: &str)
        ensures
            r@ == self.name_text(),
    ;

    fn description(&self) -> (r: &'static str)
        ensures
            r@ == self.description_text(),
    ;
}

/// The commands that run inside the shell.
#[derive(Debug, Clone, Copy, PartialEq, Eq, Structural)]
pub enum Builtin {
    Cd,
    Echo,
    Exit,
    Help,
    Pwd,
    Type,
}

/// The name of a builtin.
pub open spec fn name_of(b: Builtin) -> Seq<char> {
    match b {
        Builtin::Cd => "cd"@,
        Builtin::Echo => "echo"@,
        Builtin::Exit => "exit"@,
        Builtin::Help => "help"@,
        Builtin::Pwd => "pwd"@,
        Builtin::Type => "type"@,
    }
}

/// The description of a builtin.
pub open spec fn description_of(b: Builtin) -> Seq<char> {
    match b {
        Builtin::Cd => "Change the current directory"@,
        Builtin::Echo => "Print arguments to standard output"@,
        Builtin::Exit => "Exit the shell with a status code"@,
        Builtin::Help => "Display help information about available commands"@,
        Builtin::Pwd => "Print current working directory"@,
        Builtin::Type => "Display information about command type"@,
    }
}

impl Builtin {
    /// The name by which the builtin is called.
    pub fn name(&self) -> (r: &'static str)
        ensures
            r@ == name_of(*self),
    {
        match self {
            Builtin::Cd => "cd",
            Builtin::Echo => "echo",
            Builtin::Exit => "exit",
            Builtin::Help => "help",
            Builtin::Pwd => "pwd",
            Builtin::Type => "type",
        }
    }

    /// One line that says what the builtin does.
    pub fn description(&self) -> (r: &'static str)
        ensures
            r@ == description_of(*self),
    {
        match self {
            Builtin::Cd => "Change the current directory",
            Builtin::Echo => "Print arguments to standard output",
            Builtin::Exit => "Exit the shell with a status code",
            Builtin::Help => "Display help information about available commands",
            Builtin::Pwd => "Print current working directory",
            Builtin::Type => "Display information about command type",
        }
    }
}

/// Every builtin once, in the order of their names.
pub open spec fn registry() -> Seq<Builtin> {
    seq![
        Builtin::Cd,
        Builtin::Echo,
        Builtin::Exit,
        Builtin::Help,
        Builtin::Pwd,
        Builtin::Type,
    ]
}

/// The first of `commands` that goes by `name`, if any does.
pub open spec fn find(commands: Seq<Builtin>, name: Seq<char>) -> Option<Builtin>
    decreases commands.len(),
{
    if commands.len() == 0 {
        None
    } else if name_of(commands.first()) == name {
        Some(commands.first())
    } else {
        find(commands.drop_first(), name)
    }
}

/// Every builtin is in the table and is the one found by its name.
pub proof fn lemma_registry_complete(b: Builtin)
    ensures
        registry().contains(b),
        find(registry(), name_of(b)) == Some(b),
{
    reveal_strlit("cd");
    reveal_strlit("echo");
    reveal_strlit("exit");
    reveal_strlit("help");
    reveal_strlit("pwd");
    reveal_strlit("type");
    assert("echo"@[1] != "exit"@[1]);
    assert("echo"@[0] != "help"@[0]);
    assert("echo"@[0] != "type"@[0]);
    assert("exit"@[0] != "help"@[0]);
    assert("exit"@[0] != "type"@[0]);
    assert("help"@[0] != "type"@[0]);
    assert("cd"@.len() == 2 && "pwd"@.len() == 3 && "echo"@.len() == 4);
    let r0 = registry();
    let r1 = r0.drop_first();
    let r2 = r1.drop_first();
    let r3 = r2.drop_first();
    let r4 = r3.drop_first();
    let r5 = r4.drop_first();
    assert(r0.first() == Builtin::Cd && r0[0] == Builtin::Cd);
    assert(r1.first() == Builtin::Echo && r0[1] == Builtin::Echo);
    assert(r2.first() == Builtin::Exit && r0[2] == Builtin::Exit);
    assert(r3.first() == Builtin::Help && r0[3] == Builtin::Help);
    assert(r4.first() == Builtin::Pwd && r0[4] == Builtin::Pwd);
    assert(r5.first() == Builtin::Type && r0[5] == Builtin::Type);
    let name = name_of(b);
    assert(find(r5, name) == if name == "type"@ {
        Some(Builtin::Type)
    } else {
        find(r5.drop_first(), name)
    });
    assert(find(r4, name) == if name == "pwd"@ {
        Some(Builtin::Pwd)
    } else {
        find(r5, name)
    });
    assert(find(r3, name) == if name == "help"@ {
        Some(Builtin::Help)
    } else {
        find(r4, name)
    });
    assert(find(r2, name) == if name == "exit"@ {
        Some(Builtin::Exit)
    } else {
        find(r3, name)
    });
    assert(find(r1, name) == if name == "echo"@ {
        Some(Builtin::Echo)
    } else {
        find(r2, name)
    });
}

/// A name that is found in a table is the name of the builtin found.
pub proof fn lemma_found_by_name(commands: Seq<Builtin>, name: Seq<char>)
    ensures
        find(commands, name) matches Some(b) ==> name_of(b) == name && commands.contains(b),
    decreases commands.len(),
{
    if commands.len() > 0 {
        if name_of(commands.first()) == name {
            assert(commands[0] == commands.first());
        } else {
            lemma_found_by_name(commands.drop_first(), name);
            if let Some(b) = find(commands.drop_first(), name) {
                let k = choose|k: int|
                    0 <= k < commands.drop_first().len() && commands.drop_first()[k] == b;
                assert(commands[k + 1] == b);
            }
        }
    }
}

/// The table of builtins, complete and ordered by name.
pub fn create_command_map() -> (commands: Vec<Builtin>)
    ensures
        commands@ == registry(),
{
    let mut commands: Vec<Builtin> = Vec::new();
    commands.push(Builtin::Cd);
    commands.push(Builtin::Echo);
    commands.push(Builtin::Exit);
    commands.push(Builtin::Help);
    commands.push(Builtin::Pwd);
    commands.push(Builtin::Type);
    proof {
        assert(commands@ =~= registry());
    }
    commands
}

/// Looks a name up in a table of builtins.
pub fn lookup(commands: &Vec<Builtin>, name: &str) -> (r: Option<Builtin>)
    ensures
        r == find(commands@, name@),
{
    let mut i: usize = 0;
    proof {
        assert(commands@.subrange(0, commands@.len() as int) =~= commands@);
    }
    while i < commands.len()
        invariant
            i <= commands.len(),
            find(commands@, name@) == find(commands@.subrange(i as int, commands@.len() as int), name@),
        decreases commands.len() - i,
    {
        let b = commands[i];
        proof {
            let rest = commands@.subrange(i as int, commands@.len() as int);
            assert(rest.first() == b);
            assert(rest.drop_first() =~= commands@.subrange(i + 1, commands@.len() as int));
        }
        if same_text(b.name(), name) {
            return Some(b);
        }
        i += 1;
    }
    None
}

} // verus!
