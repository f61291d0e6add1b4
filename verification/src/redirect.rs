//! Separating output redirections from the words of a command.

use vstd::prelude::*;
use crate::error::RedirectError;
use crate::text::{texts, same_text};

verus! {

/// One of the two output streams of a command.
#[derive(Debug, Clone, Copy, PartialEq, Eq, Structural)]
pub enum Stream {
    Stdout,
    Stderr,
}

/// How a redirection target is opened.
#[derive(Debug, Clone, Copy, PartialEq, Eq, Structural)]
pub enum WriteMode {
    /// The file is emptied first.
    Truncate,
    /// Output is added to the end of the file.
    Append,
}

/// A request to send one stream of a command to a file.
#[derive(Debug, Clone, PartialEq, Eq)]
pub struct RedirectionSpec {
    pub stream: Stream,
    pub path: String,
    pub mode: WriteMode,
}

/// The mathematical content of a `RedirectionSpec`.
pub struct Redirection {
    pub stream: Stream,
    pub path: Seq<char>,
    pub mode: WriteMode,
}

impl View for RedirectionSpec {
    type V = Redirection;

    open spec fn view(&self) -> Redirection {
        Redirection { stream: self.stream, path: self.path@, mode: self.mode }
    }
}

/// The mathematical content of an optional `RedirectionSpec`.
pub open spec fn redirect_view(r: Option<RedirectionSpec>) -> Option<Redirection> {
    match r {
        Some(spec) => Some(spec@),
        None => None,
    }
}

/// A command line with its redirections taken out.
#[derive(Debug, Clone, PartialEq, Eq)]
pub struct ParsedLine {
    /// The command name and its arguments, in order.
    pub command_tokens: Vec<String>,
    /// Where standard output goes, if not to the inherited stream.
    pub stdout_redirect: Option<RedirectionSpec>,
    /// Where standard error goes, if not to the inherited stream.
    pub stderr_redirect: Option<RedirectionSpec>,
}

/// The mathematical content of a `ParsedLine`.
pub struct Parsed {
    pub command_tokens: Seq<Seq<char>>,
    pub stdout_redirect: Option<Redirection>,
    pub stderr_redirect: Option<Redirection>,
}

impl View for ParsedLine {
    type V = Parsed;

    open spec fn view(&self) -> Parsed {
        Parsed {
            command_tokens: texts(self.command_tokens@),
            stdout_redirect: redirect_view(self.stdout_redirect),
            stderr_redirect: redirect_view(self.stderr_redirect),
        }
    }
}

/// The stream and mode that a word stands for if it is a redirection
/// operator: `>`, `1>`, `>>`, `1>>`, `2>` or `2>>`, as a whole word.
pub open spec fn operator(word: Seq<char>) -> Option<(Stream, WriteMode)> {
    if word == ">"@ || word == "1>"@ {
        Some((Stream::Stdout, WriteMode::Truncate))
    } else if word == ">>"@ || word == "1>>"@ {
        Some((Stream::Stdout, WriteMode::Append))
    } else if word == "2>"@ {
        Some((Stream::Stderr, WriteMode::Truncate))
    } else if word == "2>>"@ {
        Some((Stream::Stderr, WriteMode::Append))
    } else {
        None
    }
}

/// The stream that an operator redirects.
pub open spec fn operator_stream(word: Seq<char>) -> Stream {
    match operator(word) {
        Some((stream, _)) => stream,
        None => Stream::Stdout,
    }
}

/// The mode in which an operator opens its target.
pub open spec fn operator_mode(word: Seq<char>) -> WriteMode {
    match operator(word) {
        Some((_, mode)) => mode,
        None => WriteMode::Truncate,
    }
}

/// A line in which nothing has been found yet.
pub open spec fn nothing_parsed() -> Parsed {
    Parsed { command_tokens: Seq::empty(), stdout_redirect: None, stderr_redirect: None }
}

/// `acc` with the redirection of `stream` replaced.
pub open spec fn with_redirect(
    acc: Parsed,
    stream: Stream,
    path: Seq<char>,
    mode: WriteMode,
) -> Parsed {
    let r = Some(Redirection { stream, path, mode });
    match stream {
        Stream::Stdout => Parsed { stdout_redirect: r, ..acc },
        Stream::Stderr => Parsed { stderr_redirect: r, ..acc },
    }
}

/// The outcome of reading `tokens` from position `i` on, with `acc` found
/// so far. An operator takes the word after it as its target and replaces
/// any earlier redirection of the same stream; an operator with no word
/// after it is an error; any other word belongs to the command.
pub open spec fn extract_from(tokens: Seq<Seq<char>>, i: int, acc: Parsed) -> Result<
    Parsed,
    RedirectError,
>
    decreases tokens.len() - i,
{
    if i < 0 || i >= tokens.len() {
        Ok(acc)
    } else {
        match operator(tokens[i]) {
            Some((stream, mode)) => {
                if i + 1 >= tokens.len() {
                    Err(RedirectError::MissingFilename)
                } else {
                    extract_from(tokens, i + 2, with_redirect(acc, stream, tokens[i + 1], mode))
                }
            },
            None => extract_from(
                tokens,
                i + 1,
                Parsed { command_tokens: acc.command_tokens.push(tokens[i]), ..acc },
            ),
        }
    }
}

/// The outcome of reading all of `tokens`.
pub open spec fn extracted(tokens: Seq<Seq<char>>) -> Result<Parsed, RedirectError> {
    extract_from(tokens, 0, nothing_parsed())
}

/// Whether each redirection of `p` is one of the stream it is kept for.
pub open spec fn streams_agree(p: Parsed) -> bool {
    &&& p.stdout_redirect matches Some(r) ==> r.stream == Stream::Stdout
    &&& p.stderr_redirect matches Some(r) ==> r.stream == Stream::Stderr
}

/// Whether no word of `words` is a redirection operator.
pub open spec fn no_operators(words: Seq<Seq<char>>) -> bool {
    forall|i: int| 0 <= i < words.len() ==> operator(#[trigger] words[i]) is None
}

proof fn lemma_extract_from_sound(tokens: Seq<Seq<char>>, i: int, acc: Parsed)
    requires
        0 <= i,
        streams_agree(acc),
        no_operators(acc.command_tokens),
    ensures
        extract_from(tokens, i, acc) matches Ok(p) ==> streams_agree(p) && no_operators(
            p.command_tokens,
        ),
    decreases tokens.len() - i,
{
    if i < tokens.len() {
        match operator(tokens[i]) {
            Some((stream, mode)) => {
                if i + 1 < tokens.len() {
                    lemma_extract_from_sound(
                        tokens,
                        i + 2,
                        with_redirect(acc, stream, tokens[i + 1], mode),
                    );
                }
            },
            None => {
                let next = Parsed { command_tokens: acc.command_tokens.push(tokens[i]), ..acc };
                lemma_extract_from_sound(tokens, i + 1, next);
            },
        }
    }
}

/// What is extracted is well formed: the redirection kept for a stream is
/// one of that stream, and no command word is an operator.
pub proof fn lemma_extracted_sound(tokens: Seq<Seq<char>>)
    ensures
        extracted(tokens) matches Ok(p) ==> streams_agree(p) && no_operators(p.command_tokens),
{
    lemma_extract_from_sound(tokens, 0, nothing_parsed());
}

proof fn lemma_extract_from_plain(tokens: Seq<Seq<char>>, i: int, acc: Parsed)
    requires
        0 <= i <= tokens.len(),
        no_operators(tokens),
    ensures
        extract_from(tokens, i, acc) == Ok::<Parsed, RedirectError>(
            Parsed {
                command_tokens: acc.command_tokens + tokens.subrange(i, tokens.len() as int),
                ..acc
            },
        ),
    decreases tokens.len() - i,
{
    if i < tokens.len() {
        let next = Parsed { command_tokens: acc.command_tokens.push(tokens[i]), ..acc };
        lemma_extract_from_plain(tokens, i + 1, next);
        assert(next.command_tokens + tokens.subrange(i + 1, tokens.len() as int)
            =~= acc.command_tokens + tokens.subrange(i, tokens.len() as int));
    } else {
        assert(acc.command_tokens + tokens.subrange(i, tokens.len() as int)
            =~= acc.command_tokens);
    }
}

/// Words without an operator among them are the command as they stand,
/// with no redirection.
pub proof fn lemma_plain_words_unchanged(tokens: Seq<Seq<char>>)
    requires
        no_operators(tokens),
    ensures
        extracted(tokens) == Ok::<Parsed, RedirectError>(
            Parsed { command_tokens: tokens, ..nothing_parsed() },
        ),
{
    lemma_extract_from_plain(tokens, 0, nothing_parsed());
    assert(Seq::<Seq<char>>::empty() + tokens.subrange(0, tokens.len() as int) =~= tokens);
}

proof fn lemma_extract_from_appended(
    tokens: Seq<Seq<char>>,
    op: Seq<char>,
    target: Seq<char>,
    i: int,
    acc: Parsed,
)
    requires
        0 <= i <= tokens.len(),
        operator(op) is Some,
        extract_from(tokens, i, acc) is Ok,
    ensures
        extract_from(tokens.push(op).push(target), i, acc) == Ok::<Parsed, RedirectError>(
            with_redirect(
                extract_from(tokens, i, acc)->Ok_0,
                operator_stream(op),
                target,
                operator_mode(op),
            ),
        ),
    decreases tokens.len() - i,
{
    let longer = tokens.push(op).push(target);
    if i < tokens.len() {
        assert(longer[i] == tokens[i]);
        match operator(tokens[i]) {
            Some((stream, mode)) => {
                assert(longer[i + 1] == tokens[i + 1]);
                lemma_extract_from_appended(
                    tokens,
                    op,
                    target,
                    i + 2,
                    with_redirect(acc, stream, tokens[i + 1], mode),
                );
            },
            None => {
                let next = Parsed { command_tokens: acc.command_tokens.push(tokens[i]), ..acc };
                lemma_extract_from_appended(tokens, op, target, i + 1, next);
            },
        }
    } else {
        assert(longer[i] == op);
        assert(longer[i + 1] == target);
        let last = with_redirect(acc, operator_stream(op), target, operator_mode(op));
        assert(extract_from(longer, i + 2, last) == Ok::<Parsed, RedirectError>(last));
    }
}

/// The last redirection of a stream wins: a line that extracts well,
/// followed by an operator and a target, extracts to the same command with
/// the redirection of that operator's stream replaced by the new one and
/// the other stream's left alone.
pub proof fn lemma_last_redirection_wins(tokens: Seq<Seq<char>>, op: Seq<char>, target: Seq<char>)
    requires
        operator(op) is Some,
        extracted(tokens) is Ok,
    ensures
        extracted(tokens.push(op).push(target)) == Ok::<Parsed, RedirectError>(
            with_redirect(extracted(tokens)->Ok_0, operator_stream(op), target, operator_mode(op)),
        ),
{
    lemma_extract_from_appended(tokens, op, target, 0, nothing_parsed());
}

/// A line that ends in an operator has no target for it: extraction fails,
/// if it did not fail before.
pub proof fn lemma_missing_filename(tokens: Seq<Seq<char>>, op: Seq<char>)
    requires
        operator(op) is Some,
        extracted(tokens) is Ok,
    ensures
        extracted(tokens.push(op)) == Err::<Parsed, RedirectError>(
            RedirectError::MissingFilename,
        ),
{
    lemma_extract_from_dangling(tokens, op, 0, nothing_parsed());
}

proof fn lemma_extract_from_dangling(tokens: Seq<Seq<char>>, op: Seq<char>, i: int, acc: Parsed)
    requires
        0 <= i <= tokens.len(),
        operator(op) is Some,
        extract_from(tokens, i, acc) is Ok,
    ensures
        extract_from(tokens.push(op), i, acc) == Err::<Parsed, RedirectError>(
            RedirectError::MissingFilename,
        ),
    decreases tokens.len() - i,
{
    let longer = tokens.push(op);
    if i < tokens.len() {
        assert(longer[i] == tokens[i]);
        match operator(tokens[i]) {
            Some((stream, mode)) => {
                assert(longer[i + 1] == tokens[i + 1]);
                lemma_extract_from_dangling(
                    tokens,
                    op,
                    i + 2,
                    with_redirect(acc, stream, tokens[i + 1], mode),
                );
            },
            None => {
                let next = Parsed { command_tokens: acc.command_tokens.push(tokens[i]), ..acc };
                lemma_extract_from_dangling(tokens, op, i + 1, next);
            },
        }
    } else {
        assert(longer[i] == op);
    }
}

/// Tells whether a word is a redirection operator, and which.
pub fn classify(word: &str) -> (r: Option<(Stream, WriteMode)>)
    ensures
        r == operator(word@),
{
    if same_text(word, ">") || same_text(word, "1>") {
        Some((Stream::Stdout, WriteMode::Truncate))
    } else if same_text(word, ">>") || same_text(word, "1>>") {
        Some((Stream::Stdout, WriteMode::Append))
    } else if same_text(word, "2>") {
        Some((Stream::Stderr, WriteMode::Truncate))
    } else if same_text(word, "2>>") {
        Some((Stream::Stderr, WriteMode::Append))
    } else {
        None
    }
}

/// Splits the words of a line into the command and its redirections.
pub fn extract_redirections(tokens: Vec<String>) -> (r: Result<ParsedLine, RedirectError>)
    ensures
        (match r {
            Ok(line) => extracted(texts(tokens@)) == Ok::<Parsed, RedirectError>(line@),
            Err(e) => extracted(texts(tokens@)) == Err::<Parsed, RedirectError>(e),
        }),
        r matches Ok(line) ==> streams_agree(line@) && no_operators(line@.command_tokens),
{
    proof {
        lemma_extracted_sound(texts(tokens@));
    }
    let mut line = ParsedLine {
        command_tokens: Vec::new(),
        stdout_redirect: None,
        stderr_redirect: None,
    };
    proof {
        assert(line@.command_tokens =~= Seq::<Seq<char>>::empty());
    }
    let mut i: usize = 0;
    while i < tokens.len()
        invariant
            i <= tokens.len(),
            extract_from(texts(tokens@), i as int, line@) == extracted(texts(tokens@)),
        decreases tokens.len() - i,
    {
        let token = &tokens[i];
        match classify(token.as_str()) {
            Some((stream, mode)) => {
                if tokens.len() - i <= 1 {
                    return Err(RedirectError::MissingFilename);
                }
                let spec = RedirectionSpec { stream, path: tokens[i + 1].clone(), mode };
                match stream {
                    Stream::Stdout => {
                        line.stdout_redirect = Some(spec);
                    },
                    Stream::Stderr => {
                        line.stderr_redirect = Some(spec);
                    },
                }
                i += 2;
            },
            None => {
                let ghost before = line@;
                line.command_tokens.push(token.clone());
                proof {
                    assert(line@.command_tokens =~= before.command_tokens.push(token@));
                }
                i += 1;
            },
        }
    }
    Ok(line)
}

} // verus!
