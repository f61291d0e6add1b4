//! Splitting an input line into words, honouring quotes and backslashes.
//!
//! The splitter is a state machine that reads one character at a time. Its
//! meaning is given by `step`, `scan` and `finish`; `Tokenizer` is the
//! executable machine and `tokenize` runs it over a whole line.

use vstd::prelude::*;
use crate::error::TokenizeError;
use crate::text::{joined, white_space, texts, lemma_texts_push};

verus! {

/// Where the splitter stands between two characters.
#[derive(Debug, Clone, Copy, PartialEq, Eq, Structural)]
pub enum Mode {
    /// Outside any quotes.
    Normal,
    /// Outside any quotes, directly after a backslash.
    Escape,
    /// Inside single quotes.
    InSingleQuote,
    /// Inside double quotes.
    InDoubleQuote,
    /// Inside double quotes, directly after a backslash.
    DoubleQuoteEscape,
}

/// The mathematical state of the splitter: its mode, the word being
/// collected, and the words completed so far.
pub struct LexState {
    pub mode: Mode,
    pub current: Seq<char>,
    pub tokens: Seq<Seq<char>>,
}

/// The state before any character has been read.
pub open spec fn initial() -> LexState {
    LexState { mode: Mode::Normal, current: Seq::empty(), tokens: Seq::empty() }
}

/// The completed words, together with the word being collected if it is
/// not empty.
pub open spec fn flushed(tokens: Seq<Seq<char>>, current: Seq<char>) -> Seq<Seq<char>> {
    if current.len() > 0 {
        tokens.push(current)
    } else {
        tokens
    }
}

/// The state after reading `c`, where `space` tells whether `c` is
/// whitespace. A quote or a backslash is taken as such whatever `space`
/// says.
pub open spec fn step(st: LexState, c: char, space: bool) -> LexState {
    match st.mode {
        Mode::Normal => {
            if c == '\\' {
                LexState { mode: Mode::Escape, ..st }
            } else if c == '\'' {
                LexState { mode: Mode::InSingleQuote, ..st }
            } else if c == '"' {
                LexState { mode: Mode::InDoubleQuote, ..st }
            } else if space {
                LexState {
                    mode: Mode::Normal,
                    current: Seq::empty(),
                    tokens: flushed(st.tokens, st.current),
                }
            } else {
                LexState { current: st.current.push(c), ..st }
            }
        },
        Mode::Escape => {
            if c == '\n' {
                LexState { mode: Mode::Normal, ..st }
            } else {
                LexState { mode: Mode::Normal, current: st.current.push(c), ..st }
            }
        },
        Mode::InSingleQuote => {
            if c == '\'' {
                LexState { mode: Mode::Normal, ..st }
            } else {
                LexState { current: st.current.push(c), ..st }
            }
        },
        Mode::InDoubleQuote => {
            if c == '"' {
                LexState { mode: Mode::Normal, ..st }
            } else if c == '\\' {
                LexState { mode: Mode::DoubleQuoteEscape, ..st }
            } else {
                LexState { current: st.current.push(c), ..st }
            }
        },
        Mode::DoubleQuoteEscape => {
            if c == '\n' {
                LexState { mode: Mode::InDoubleQuote, ..st }
            } else if c == '\\' || c == '$' || c == '"' {
                LexState { mode: Mode::InDoubleQuote, current: st.current.push(c), ..st }
            } else {
                LexState {
                    mode: Mode::InDoubleQuote,
                    current: st.current.push('\\').push(c),
                    ..st
                }
            }
        },
    }
}

/// The state after reading every character of `line`, starting from `st`.
pub open spec fn scan_from(st: LexState, line: Seq<char>) -> LexState
    decreases line.len(),
{
    if line.len() == 0 {
        st
    } else {
        step(scan_from(st, line.drop_last()), line.last(), white_space(line.last()))
    }
}

/// The state after reading every character of `line` from the start.
pub open spec fn scan(line: Seq<char>) -> LexState {
    scan_from(initial(), line)
}

/// What the splitter yields when the input ends in state `st`: the words,
/// or an error if a quote is still open. A backslash that ends the input
/// outside quotes stands for itself.
pub open spec fn finish(st: LexState) -> Result<Seq<Seq<char>>, TokenizeError> {
    match st.mode {
        Mode::Normal => Ok(flushed(st.tokens, st.current)),
        Mode::Escape => Ok(st.tokens.push(st.current.push('\\'))),
        _ => Err(TokenizeError::UnclosedQuote),
    }
}

/// The words of a line, or the reason why it has none.
pub open spec fn tokens_of(line: Seq<char>) -> Result<Seq<Seq<char>>, TokenizeError> {
    finish(scan(line))
}

/// Whether no word in `tokens` is empty.
pub open spec fn all_nonempty(tokens: Seq<Seq<char>>) -> bool {
    forall|i: int| 0 <= i < tokens.len() ==> (#[trigger] tokens[i]).len() > 0
}

/// One step adds no empty word.
pub proof fn lemma_step_keeps_words_nonempty(st: LexState, c: char, space: bool)
    requires
        all_nonempty(st.tokens),
    ensures
        all_nonempty(step(st, c, space).tokens),
{
}

/// Reading on from a state without empty words leads to a state without
/// empty words.
pub proof fn lemma_scan_keeps_words_nonempty(st: LexState, line: Seq<char>)
    requires
        all_nonempty(st.tokens),
    ensures
        all_nonempty(scan_from(st, line).tokens),
    decreases line.len(),
{
    if line.len() > 0 {
        lemma_scan_keeps_words_nonempty(st, line.drop_last());
        lemma_step_keeps_words_nonempty(
            scan_from(st, line.drop_last()),
            line.last(),
            white_space(line.last()),
        );
    }
}

/// No word of any line is empty: empty runs between separators, and
/// quotes with nothing in them, yield nothing.
pub proof fn lemma_no_empty_word(line: Seq<char>)
    ensures
        tokens_of(line) matches Ok(words) ==> all_nonempty(words),
{
    lemma_scan_keeps_words_nonempty(initial(), line);
}

/// Reading a line in two parts is reading it whole.
pub proof fn lemma_scan_in_parts(st: LexState, head: Seq<char>, tail: Seq<char>)
    ensures
        scan_from(st, head + tail) == scan_from(scan_from(st, head), tail),
    decreases tail.len(),
{
    if tail.len() == 0 {
        assert(head + tail =~= head);
    } else {
        lemma_scan_in_parts(st, head, tail.drop_last());
        assert((head + tail).drop_last() =~= head + tail.drop_last());
        assert((head + tail).last() == tail.last());
    }
}

/// Whether a character means something to the splitter: whitespace, a
/// quote or a backslash.
pub open spec fn special(c: char) -> bool {
    white_space(c) || c == '\\' || c == '\'' || c == '"'
}

/// Reading one more character is one more step.
pub proof fn lemma_scan_push(st: LexState, line: Seq<char>, c: char)
    ensures
        scan_from(st, line.push(c)) == step(scan_from(st, line), c, white_space(c)),
{
    assert(line.push(c).drop_last() =~= line);
    assert(line.push(c).last() == c);
}

/// Outside quotes a backslash makes the next character literal, whatever
/// it is, unless it is a newline.
pub proof fn lemma_escape_outside_quotes(c: char)
    requires
        c != '\n',
    ensures
        tokens_of(seq!['\\', c]) == Ok::<Seq<Seq<char>>, TokenizeError>(seq![seq![c]]),
{
    let none = Seq::<char>::empty();
    lemma_scan_push(initial(), none, '\\');
    lemma_scan_push(initial(), none.push('\\'), c);
    assert(none.push('\\').push(c) =~= seq!['\\', c]);
    assert(none.push(c) =~= seq![c]);
    assert(Seq::<Seq<char>>::empty().push(seq![c]) =~= seq![seq![c]]);
}

/// Outside quotes and inside double quotes, a backslash before a newline
/// joins two lines: neither character is kept.
pub proof fn lemma_line_continuation(st: LexState)
    requires
        st.mode == Mode::Normal || st.mode == Mode::InDoubleQuote,
    ensures
        scan_from(st, seq!['\\', '\n']) == st,
{
    let none = Seq::<char>::empty();
    lemma_scan_push(st, none, '\\');
    lemma_scan_push(st, none.push('\\'), '\n');
    assert(none.push('\\').push('\n') =~= seq!['\\', '\n']);
}

/// Inside double quotes a backslash escapes a backslash, a dollar sign and
/// a double quote; before any other character but a newline it stands for
/// itself, and both are kept.
pub proof fn lemma_escape_in_double_quotes(c: char)
    requires
        c != '\n',
    ensures
        tokens_of(seq!['"', '\\', c, '"']) == Ok::<Seq<Seq<char>>, TokenizeError>(
            seq![
                if c == '\\' || c == '$' || c == '"' {
                    seq![c]
                } else {
                    seq!['\\', c]
                },
            ],
        ),
{
    let none = Seq::<char>::empty();
    lemma_scan_push(initial(), none, '"');
    lemma_scan_push(initial(), none.push('"'), '\\');
    lemma_scan_push(initial(), none.push('"').push('\\'), c);
    lemma_scan_push(initial(), none.push('"').push('\\').push(c), '"');
    assert(none.push('"').push('\\').push(c).push('"') =~= seq!['"', '\\', c, '"']);
    let word = if c == '\\' || c == '$' || c == '"' {
        seq![c]
    } else {
        seq!['\\', c]
    };
    assert(none.push(c) =~= seq![c]);
    assert(none.push('\\').push(c) =~= seq!['\\', c]);
    assert(Seq::<Seq<char>>::empty().push(word) =~= seq![word]);
}

/// Among the ASCII characters the special ones are the space, the
/// characters from U+0009 to U+000D, the two quotes and the backslash;
/// every other ASCII character is ordinary. No quote and no backslash is
/// whitespace.
pub proof fn lemma_ascii_special(c: char)
    requires
        (c as u32) < 128,
    ensures
        special(c) <==> (c == ' ' || 9 <= c as u32 <= 13 || c == '\\' || c == '\'' || c == '"'),
        !white_space('\\') && !white_space('\'') && !white_space('"'),
{
}

/// Whether every character of `word` is an ordinary one.
pub open spec fn plain(word: Seq<char>) -> bool {
    forall|i: int| 0 <= i < word.len() ==> !special(#[trigger] word[i])
}

/// Outside quotes, ordinary characters are added to the word being
/// collected and change nothing else.
pub proof fn lemma_scan_plain(st: LexState, word: Seq<char>)
    requires
        st.mode == Mode::Normal,
        plain(word),
    ensures
        scan_from(st, word) == (LexState { current: st.current + word, ..st }),
    decreases word.len(),
{
    if word.len() == 0 {
        assert(st.current + word =~= st.current);
    } else {
        let front = word.drop_last();
        assert forall|i: int| 0 <= i < front.len() implies !special(#[trigger] front[i]) by {
            assert(front[i] == word[i]);
        }
        lemma_scan_plain(st, front);
        assert(!special(word[word.len() - 1]));
        assert((st.current + front).push(word.last()) =~= st.current + word);
    }
}

/// A line of ordinary characters only is its own single word.
pub proof fn lemma_plain_word(line: Seq<char>)
    requires
        line.len() > 0,
        plain(line),
    ensures
        tokens_of(line) == Ok::<Seq<Seq<char>>, TokenizeError>(seq![line]),
{
    lemma_scan_plain(initial(), line);
    assert(Seq::<char>::empty() + line =~= line);
    assert(Seq::<Seq<char>>::empty().push(line) =~= seq![line]);
}

proof fn lemma_scan_joined(words: Seq<Seq<char>>, space: char)
    requires
        white_space(space),
        words.len() > 0,
        forall|i: int| 0 <= i < words.len() ==> plain(#[trigger] words[i]) && words[i].len() > 0,
    ensures
        scan(joined(words, seq![space])) == (LexState {
            mode: Mode::Normal,
            current: words.last(),
            tokens: words.drop_last(),
        }),
    decreases words.len(),
{
    if words.len() == 1 {
        lemma_scan_plain(initial(), words[0]);
        assert(Seq::<char>::empty() + words[0] =~= words[0]);
        assert(words.drop_last() =~= Seq::<Seq<char>>::empty());
    } else {
        let front = words.drop_last();
        let head = joined(front, seq![space]);
        assert forall|i: int| 0 <= i < front.len() implies plain(#[trigger] front[i])
            && front[i].len() > 0 by {
            assert(front[i] == words[i]);
        }
        lemma_scan_joined(front, space);
        let spaced = head + seq![space];
        assert(spaced.drop_last() =~= head);
        assert(spaced.last() == space);
        assert(front.drop_last().push(front.last()) =~= front);
        let after_space = LexState {
            mode: Mode::Normal,
            current: Seq::empty(),
            tokens: front,
        };
        assert(scan(spaced) == after_space);
        lemma_scan_in_parts(initial(), spaced, words.last());
        lemma_scan_plain(after_space, words.last());
        assert(Seq::<char>::empty() + words.last() =~= words.last());
    }
}

/// Splitting undoes joining: ordinary words, none of them empty, written
/// one after another with a whitespace character between neighbours, are
/// split into exactly those words.
pub proof fn lemma_split_of_joined(words: Seq<Seq<char>>, space: char)
    requires
        white_space(space),
        forall|i: int| 0 <= i < words.len() ==> plain(#[trigger] words[i]) && words[i].len() > 0,
    ensures
        tokens_of(joined(words, seq![space])) == Ok::<Seq<Seq<char>>, TokenizeError>(words),
{
    if words.len() == 0 {
        assert(flushed(Seq::<Seq<char>>::empty(), Seq::<char>::empty()) =~= words);
    } else {
        lemma_scan_joined(words, space);
        assert(words.drop_last().push(words.last()) =~= words);
    }
}

/// Whatever stands between single quotes is taken literally: a text
/// without a single quote in it, quoted, is one word, unless it is empty.
pub proof fn lemma_single_quoted(body: Seq<char>)
    requires
        body.len() > 0,
        !body.contains('\''),
    ensures
        tokens_of(seq!['\''] + body + seq!['\'']) == Ok::<Seq<Seq<char>>, TokenizeError>(
            seq![body],
        ),
{
    let open = seq!['\''];
    let opened = LexState { mode: Mode::InSingleQuote, ..initial() };
    assert(open.drop_last() =~= Seq::<char>::empty());
    assert(open.last() == '\'');
    assert(scan_from(initial(), open.drop_last()) == initial());
    assert(scan(open) == opened);
    lemma_scan_in_parts(initial(), open, body);
    lemma_scan_single_quoted(opened, body);
    let inside = open + body;
    let whole = inside + seq!['\''];
    assert(whole.drop_last() =~= inside);
    assert(Seq::<char>::empty() + body =~= body);
    assert(Seq::<Seq<char>>::empty().push(body) =~= seq![body]);
}

/// A single quote that is opened outside quotes and never closed makes
/// the line an error, whatever follows it.
pub proof fn lemma_unclosed_single_quote(head: Seq<char>, body: Seq<char>)
    requires
        scan(head).mode == Mode::Normal,
        !body.contains('\''),
    ensures
        tokens_of(head.push('\'') + body) == Err::<Seq<Seq<char>>, TokenizeError>(
            TokenizeError::UnclosedQuote,
        ),
{
    lemma_scan_push(initial(), head, '\'');
    lemma_scan_in_parts(initial(), head.push('\''), body);
    lemma_scan_single_quoted(scan(head.push('\'')), body);
}

proof fn lemma_scan_single_quoted(st: LexState, body: Seq<char>)
    requires
        st.mode == Mode::InSingleQuote,
        !body.contains('\''),
    ensures
        scan_from(st, body) == (LexState { current: st.current + body, ..st }),
    decreases body.len(),
{
    if body.len() == 0 {
        assert(st.current + body =~= st.current);
    } else {
        let front = body.drop_last();
        if front.contains('\'') {
            let k = choose|k: int| 0 <= k < front.len() && front[k] == '\'';
            assert(body[k] == '\'');
        }
        lemma_scan_single_quoted(st, front);
        assert(body[body.len() - 1] != '\'');
        assert((st.current + front).push(body.last()) =~= st.current + body);
    }
}

/// The executable splitter.
pub struct Tokenizer {
    mode: Mode,
    current: String,
    tokens: Vec<String>,
}

impl View for Tokenizer {
    type V = LexState;

    closed spec fn view(&self) -> LexState {
        LexState { mode: self.mode, current: self.current@, tokens: texts(self.tokens@) }
    }
}

impl Tokenizer {
    /// A splitter that has read nothing.
    pub fn new() -> (t: Self)
        ensures
            t@ == initial(),
    {
        let t = Tokenizer { mode: Mode::Normal, current: String::new(), tokens: Vec::new() };
        proof {
            assert(texts(t.tokens@) =~= Seq::<Seq<char>>::empty());
        }
        t
    }

    /// The mode the splitter is in.
    pub fn mode(&self) -> (m: Mode)
        ensures
            m == self@.mode,
    {
        self.mode
    }

    fn flush(&mut self)
        ensures
            final(self)@.mode == old(self)@.mode,
            final(self)@.current == Seq::<char>::empty(),
            final(self)@.tokens == flushed(old(self)@.tokens, old(self)@.current),
    {
        if !self.current.as_str().is_empty() {
            let mut word = String::new();
            std::mem::swap(&mut word, &mut self.current);
            proof {
                lemma_texts_push(self.tokens@, word);
            }
            self.tokens.push(word);
        } else {
            assert(self.current@ =~= Seq::<char>::empty());
        }
    }

    /// Reads one character. `space` says whether `c` is whitespace; it is
    /// not asked for a quote or a backslash.
    pub fn feed(&mut self, c: char, space: bool)
        ensures
            final(self)@ == step(old(self)@, c, space),
    {
        match self.mode {
            Mode::Normal => {
                if c == '\\' {
                    self.mode = Mode::Escape;
                } else if c == '\'' {
                    self.mode = Mode::InSingleQuote;
                } else if c == '"' {
                    self.mode = Mode::InDoubleQuote;
                } else if space {
                    self.flush();
                } else {
                    self.current.push(c);
                }
            },
            Mode::Escape => {
                if c != '\n' {
                    self.current.push(c);
                }
                self.mode = Mode::Normal;
            },
            Mode::InSingleQuote => {
                if c == '\'' {
                    self.mode = Mode::Normal;
                } else {
                    self.current.push(c);
                }
            },
            Mode::InDoubleQuote => {
                if c == '"' {
                    self.mode = Mode::Normal;
                } else if c == '\\' {
                    self.mode = Mode::DoubleQuoteEscape;
                } else {
                    self.current.push(c);
                }
            },
            Mode::DoubleQuoteEscape => {
                if c == '\n' {
                } else if c == '\\' || c == '$' || c == '"' {
                    self.current.push(c);
                } else {
                    self.current.push('\\');
                    self.current.push(c);
                }
                self.mode = Mode::InDoubleQuote;
            },
        }
    }

    /// Ends the input and hands out the words.
    pub fn finish(self) -> (r: Result<Vec<String>, TokenizeError>)
        ensures
            (match r {
                Ok(v) => finish(self@) == Ok::<Seq<Seq<char>>, TokenizeError>(texts(v@)),
                Err(e) => finish(self@) == Err::<Seq<Seq<char>>, TokenizeError>(e),
            }),
    {
        let mut t = self;
        match t.mode {
            Mode::Normal => {
                t.flush();
                Ok(t.tokens)
            },
            Mode::Escape => {
                t.current.push('\\');
                t.flush();
                Ok(t.tokens)
            },
            _ => Err(TokenizeError::UnclosedQuote),
        }
    }
}

/// Splits a line into words.
///
/// Whitespace outside quotes separates words. Single quotes keep
/// everything literally; double quotes do too, except that a backslash
/// escapes `\`, `$`, `"` and newline. Outside quotes a backslash makes the
/// next character literal, and a backslash before a newline joins lines.
/// The result is an error exactly when the line ends inside quotes.
pub fn tokenize(input: &str) -> (r: Result<Vec<String>, TokenizeError>)
    ensures
        (match r {
            Ok(v) => tokens_of(input@) == Ok::<Seq<Seq<char>>, TokenizeError>(texts(v@)),
            Err(e) => tokens_of(input@) == Err::<Seq<Seq<char>>, TokenizeError>(e),
        }),
        r matches Ok(v) ==> forall|i: int| 0 <= i < v@.len() ==> (#[trigger] v@[i])@.len() > 0,
{
    proof {
        lemma_no_empty_word(input@);
    }
    let mut t = Tokenizer::new();
    for c in it: input.chars()
        invariant
            it.seq() == input@,
            t@ == scan(input@.subrange(0, it.index() as int)),
    {
        let space = c.is_whitespace();
        proof {
            let next = input@.subrange(0, it.index() + 1);
            assert(next.drop_last() =~= input@.subrange(0, it.index() as int));
            assert(next.last() == c);
        }
        t.feed(c, space);
    }
    proof {
        assert(input@.subrange(0, input@.len() as int) =~= input@);
    }
    let r = t.finish();
    proof {
        if let Ok(v) = &r {
            assert forall|i: int| 0 <= i < v@.len() implies (#[trigger] v@[i])@.len() > 0 by {
                assert(texts(v@)[i] == v@[i]@);
            }
        }
    }
    r
}

} // verus!
