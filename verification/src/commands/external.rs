//! Programs outside the shell: where they are looked for, and what their
//! run amounts to.

use vstd::prelude::*;
use crate::commands::Command;
use crate::error::{Failure, ShellError};
use crate::output::{OutputManager, after_write};
use crate::redirect::Stream;
use crate::text::{glue, contains_char, joined, texts, lemma_texts_push};

verus! {

/// The path that `std::path::Path::join` makes of a directory and a name.
pub uninterp spec fn joined_path(dir: Seq<char>, name: Seq<char>) -> Seq<char>;

/// Joins a directory and a name with `std::path::Path::join`. The result
/// depends on the two texts alone and is the one that `joined_path` names.
#[verifier::external_body]
fn join_path(dir: &str, name: &str) -> (r: String)
    ensures
        r@ == joined_path(dir@, name@),
{
    std::path::Path::new(dir).join(name).to_string_lossy().into_owned()
}

/// The text that `String::from_utf8_lossy` reads out of bytes.
pub uninterp spec fn lossy_text(bytes: Seq<u8>) -> Seq<char>;

/// Reads bytes as text with `String::from_utf8_lossy`. The result depends
/// on the bytes alone and is the one that `lossy_text` names.
#[verifier::external_body]
fn read_lossy(bytes: &Vec<u8>) -> (r: String)
    ensures
        r@ == lossy_text(bytes@),
{
    String::from_utf8_lossy(bytes).into_owned()
}

/// The pieces of `s` between occurrences of `sep`: one more than there are
/// occurrences, some of them possibly empty.
pub open spec fn split(s: Seq<char>, sep: char) -> Seq<Seq<char>>
    decreases s.len(),
{
    if s.len() == 0 {
        seq![Seq::empty()]
    } else {
        let before = split(s.drop_last(), sep);
        if s.last() == sep {
            before.push(Seq::empty())
        } else {
            before.drop_last().push(before.last().push(s.last()))
        }
    }
}

/// Every split has at least one piece.
pub proof fn lemma_split_nonempty(s: Seq<char>, sep: char)
    ensures
        split(s, sep).len() >= 1,
    decreases s.len(),
{
    if s.len() > 0 {
        lemma_split_nonempty(s.drop_last(), sep);
    }
}

/// No piece of a split holds the separator.
pub proof fn lemma_split_pieces_clean(s: Seq<char>, sep: char)
    ensures
        forall|i: int| 0 <= i < split(s, sep).len() ==> !(#[trigger] split(s, sep)[i]).contains(sep),
    decreases s.len(),
{
    if s.len() > 0 {
        let before = split(s.drop_last(), sep);
        lemma_split_pieces_clean(s.drop_last(), sep);
        lemma_split_nonempty(s.drop_last(), sep);
        if s.last() != sep {
            let grown = before.last().push(s.last());
            assert(!before.last().contains(sep));
            if grown.contains(sep) {
                let k = choose|k: int| 0 <= k < grown.len() && grown[k] == sep;
                assert(before.last()[k] == sep);
            }
        }
    }
}

/// Writing the pieces of a split one after another, with the separator
/// between neighbours, gives the text back.
pub proof fn lemma_split_joins_back(s: Seq<char>, sep: char)
    ensures
        joined(split(s, sep), seq![sep]) == s,
    decreases s.len(),
{
    if s.len() == 0 {
        assert(split(s, sep)[0] =~= s);
    } else {
        let before = split(s.drop_last(), sep);
        let words = split(s, sep);
        lemma_split_joins_back(s.drop_last(), sep);
        lemma_split_nonempty(s.drop_last(), sep);
        if s.last() == sep {
            assert(words.drop_last() =~= before);
            assert(joined(before, seq![sep]) + seq![sep] + Seq::<char>::empty() =~= s);
        } else if before.len() == 1 {
            assert(words[0] =~= s);
        } else {
            assert(words.drop_last() =~= before.drop_last());
            assert(joined(before.drop_last(), seq![sep]) + seq![sep] + before.last().push(
                s.last(),
            ) =~= (joined(before.drop_last(), seq![sep]) + seq![sep] + before.last()).push(
                s.last(),
            ));
            assert(s.drop_last().push(s.last()) =~= s);
        }
    }
}

/// Cuts a text at every occurrence of `sep`.
pub fn split_on(s: &str, sep: char) -> (pieces: Vec<String>)
    ensures
        texts(pieces@) == split(s@, sep),
{
    let mut pieces: Vec<String> = Vec::new();
    let mut current = String::new();
    proof {
        assert(texts(pieces@).push(current@) =~= split(s@.subrange(0, 0), sep));
    }
    for c in it: s.chars()
        invariant
            it.seq() == s@,
            texts(pieces@).push(current@) == split(s@.subrange(0, it.index() as int), sep),
    {
        proof {
            let next = s@.subrange(0, it.index() + 1);
            let prev = s@.subrange(0, it.index() as int);
            assert(next.drop_last() =~= prev);
            assert(next.last() == c);
            assert(split(prev, sep).drop_last() =~= texts(pieces@));
            assert(split(prev, sep).last() == current@);
        }
        if c == sep {
            proof {
                lemma_texts_push(pieces@, current);
            }
            let mut piece = String::new();
            std::mem::swap(&mut piece, &mut current);
            pieces.push(piece);
        } else {
            current.push(c);
        }
    }
    proof {
        assert(s@.subrange(0, s@.len() as int) =~= s@);
        lemma_texts_push(pieces@, current);
    }
    pieces.push(current);
    pieces
}

/// Whether a command name is itself a path: it is one if it holds a `/`.
pub open spec fn literal_path(command: Seq<char>) -> bool {
    command.contains('/')
}

/// Tells whether a command name is itself a path, which has to lead to a
/// file, or a bare name, for which an entry of that name in a directory of
/// the search path is enough.
pub fn is_literal_path(command: &str) -> (r: bool)
    ensures
        r == literal_path(command@),
{
    contains_char(command, '/')
}

/// The paths at which a command is looked for, in the order in which they
/// are tried. A name with a `/` in it is itself the only candidate. Any
/// other name is looked for in each directory of the colon-separated
/// search path, in the order listed; without a search path there is
/// nowhere to look.
pub open spec fn candidates(command: Seq<char>, search_path: Option<Seq<char>>) -> Seq<Seq<char>> {
    if literal_path(command) {
        seq![command]
    } else {
        match search_path {
            Some(p) => split(p, ':').map_values(|dir: Seq<char>| joined_path(dir, command)),
            None => Seq::empty(),
        }
    }
}

/// Lists the paths at which a command is looked for, in order.
/// `search_path` is the value of `PATH`, if it is set.
pub fn candidate_paths(command: &str, search_path: Option<&str>) -> (paths: Vec<String>)
    ensures
        texts(paths@) == candidates(command@, crate::text::opt_text(search_path)),
{
    let mut paths: Vec<String> = Vec::new();
    if is_literal_path(command) {
        let own = command.to_owned();
        proof {
            assert(texts(paths@.push(own)) =~= seq![command@]);
        }
        paths.push(own);
        return paths;
    }
    match search_path {
        Some(p) => {
            let dirs = split_on(p, ':');
            let ghost wanted = split(p@, ':').map_values(|dir: Seq<char>| joined_path(dir, command@));
            let mut i: usize = 0;
            proof {
                assert(texts(paths@) =~= wanted.subrange(0, 0));
            }
            while i < dirs.len()
                invariant
                    i <= dirs.len(),
                    texts(dirs@) == split(p@, ':'),
                    wanted == split(p@, ':').map_values(
                        |dir: Seq<char>| joined_path(dir, command@),
                    ),
                    texts(paths@) == wanted.subrange(0, i as int),
                decreases dirs.len() - i,
            {
                let full = join_path(dirs[i].as_str(), command);
                proof {
                    assert(texts(dirs@)[i as int] == dirs@[i as int]@);
                    assert(wanted[i as int] == full@);
                    lemma_texts_push(paths@, full);
                    assert(wanted.subrange(0, i + 1) =~= wanted.subrange(0, i as int).push(
                        wanted[i as int],
                    ));
                }
                paths.push(full);
                i += 1;
            }
            proof {
                assert(wanted.subrange(0, dirs@.len() as int) =~= wanted);
            }
            paths
        },
        None => {
            proof {
                assert(texts(paths@) =~= Seq::<Seq<char>>::empty());
            }
            paths
        },
    }
}

/// Whether the candidate at position `i` was found to exist. A candidate
/// of which `present` says nothing counts as absent.
pub open spec fn found_at(present: Seq<bool>, i: int) -> bool {
    0 <= i < present.len() && present[i]
}

/// The position of the first of `count` candidates that exists, at or
/// after `from`; `count` if there is none.
pub open spec fn first_found(present: Seq<bool>, count: int, from: int) -> int
    decreases count - from,
{
    if from >= count {
        count
    } else if found_at(present, from) {
        from
    } else {
        first_found(present, count, from + 1)
    }
}

/// The position that `first_found` gives is that of a candidate that
/// exists, if it is one at all, and no candidate before it exists: the
/// order of the candidates decides.
pub proof fn lemma_first_found_is_first(present: Seq<bool>, count: int, from: int)
    requires
        0 <= from <= count,
    ensures
        from <= first_found(present, count, from) <= count,
        first_found(present, count, from) < count ==> found_at(
            present,
            first_found(present, count, from),
        ),
        forall|j: int|
            from <= j < first_found(present, count, from) ==> !#[trigger] found_at(present, j),
    decreases count - from,
{
    if from < count && !found_at(present, from) {
        lemma_first_found_is_first(present, count, from + 1);
    }
}

/// Picks the path of a command: the first candidate that exists.
/// `present` says of each candidate, by position, whether a file is there.
/// Where none exists the command is reported as not found.
pub fn find_executable_path(command: &str, candidates: &Vec<String>, present: &Vec<bool>) -> (r:
    Result<String, ShellError>)
    ensures
        ({
            let k = first_found(present@, candidates@.len() as int, 0);
            match r {
                Ok(path) => 0 <= k < candidates@.len() && path@ == candidates@[k]@,
                Err(e) => k == candidates@.len() && e@ == Failure::Command(
                    command@ + ": not found"@,
                ),
            }
        }),
{
    let mut i: usize = 0;
    while i < candidates.len()
        invariant
            i <= candidates.len(),
            first_found(present@, candidates@.len() as int, 0) == first_found(
                present@,
                candidates@.len() as int,
                i as int,
            ),
        decreases candidates.len() - i,
    {
        if i < present.len() && present[i] {
            return Ok(candidates[i].clone());
        }
        i += 1;
    }
    Err(ShellError::Command(glue(command, ": not found")))
}

/// A program outside the shell, known by the name it was called by.
#[derive(Debug, Clone, PartialEq, Eq)]
pub struct ExternalCommand {
    name: String,
}

/// How the attempt to run a program ended.
#[derive(Debug, Clone, PartialEq, Eq)]
pub enum SpawnOutcome {
    /// The program could not be started.
    NotStarted,
    /// The program ran and ended. `code` is its exit code, where it has
    /// one; `stdout` and `stderr` are what it wrote.
    Finished { success: bool, code: Option<i32>, stdout: Vec<u8>, stderr: Vec<u8> },
}

/// The exit code to report for a program that failed.
pub open spec fn reported_code(code: Option<i32>) -> i32 {
    match code {
        Some(c) => c,
        None => -1i32,
    }
}

impl ExternalCommand {
    /// A command for the program called `name`. Always succeeds.
    pub fn new(name: &str) -> (r: Result<Self, ShellError>)
        ensures
            r matches Ok(c) && c.name_text() == name@,
    {
        Ok(ExternalCommand { name: name.to_owned() })
    }

    /// The result of a run that ended: success, or the failure with the
    /// exit code, -1 where there is none, and `message`.
    pub fn conclude(&self, success: bool, code: Option<i32>, message: String) -> (r: Result<
        (),
        ShellError,
    >)
        ensures
            success ==> r is Ok,
            !success ==> (r matches Err(e) && e@ == Failure::CommandFailed {
                code: reported_code(code),
                message: message@,
            }),
    {
        if success {
            Ok(())
        } else {
            let code = match code {
                Some(c) => c,
                None => -1,
            };
            Err(ShellError::CommandFailed { code, message })
        }
    }

    /// Takes in how the attempt to run the program ended. What the program
    /// wrote is passed on unchanged, standard output first. A program that
    /// could not be started is reported as not found; one that ended
    /// without success is reported with its exit code, or -1 where it has
    /// none, and with what it wrote to standard error, read as text.
    pub fn execute(&self, outcome: SpawnOutcome, output: &mut OutputManager) -> (r: Result<
        (),
        ShellError,
    >)
        ensures
            (match outcome {
                SpawnOutcome::NotStarted => final(output)@ == old(output)@ && (r matches Err(e)
                    && e@ == Failure::Command(self.name_text() + ": command not found"@)),
                SpawnOutcome::Finished { success, code, stdout, stderr } => {
                    &&& final(output)@ == after_write(
                        after_write(old(output)@, Stream::Stdout, stdout@),
                        Stream::Stderr,
                        stderr@,
                    )
                    &&& success ==> r is Ok
                    &&& !success ==> (r matches Err(e) && e@ == Failure::CommandFailed {
                        code: reported_code(code),
                        message: lossy_text(stderr@),
                    })
                },
            }),
    {
        match outcome {
            SpawnOutcome::NotStarted => Err(
                ShellError::Command(glue(self.name.as_str(), ": command not found")),
            ),
            SpawnOutcome::Finished { success, code, stdout, stderr } => {
                let message = read_lossy(&stderr);
                output.forward(Stream::Stdout, stdout);
                output.forward(Stream::Stderr, stderr);
                self.conclude(success, code, message)
            },
        }
    }
}

impl Command for ExternalCommand {
    closed spec fn name_text(&self) -> Seq<char> {
        self.name@
    }

    open spec fn description_text(&self) -> Seq<char> {
        "External system command"@
    }

    fn name(&self) -> (r: &str) {
        self.name.as_str()
    }

    fn description(&self) -> (r: &'static str) {
        "External system command"
    }
}

} // verus!
