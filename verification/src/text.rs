//! Contracts for the few string and character operations of the standard
//! library that the shell relies on, and small verified helpers on text.

use vstd::prelude::*;

verus! {

/// Whether a character beyond ASCII has the Unicode `White_Space`
/// property, as `char::is_whitespace` reports it.
pub uninterp spec fn wide_space(c: char) -> bool;

/// Whether a character is whitespace. Among the ASCII characters these are
/// the space and the characters from U+0009 to U+000D (tab, line feed,
/// vertical tab, form feed, carriage return) and no other; beyond ASCII
/// they are the characters that `wide_space` names.
pub open spec fn white_space(c: char) -> bool {
    if (c as u32) < 128 {
        c == ' ' || 9 <= c as u32 <= 13
    } else {
        wide_space(c)
    }
}

/// `char::is_whitespace` depends on the character alone. Of an ASCII
/// character it is true for the space and for U+0009 to U+000D, false for
/// every other; of any other character its answer is the one that
/// `wide_space` names. Together that is `white_space`.
pub assume_specification[ char::is_whitespace ](c: char) -> (b: bool)
    ensures
        (c as u32) < 128 ==> b == (c == ' ' || 9 <= c as u32 <= 13),
        (c as u32) >= 128 ==> b == wide_space(c),
;

/// `String::push` appends exactly the given character to the end.
pub assume_specification[ String::push ](s: &mut String, c: char)
    ensures
        final(s)@ == old(s)@.push(c),
;

/// `==` on string slices holds exactly when both hold the same characters.
pub assume_specification[ <str as PartialEq>::eq ](a: &str, b: &str) -> (r: bool)
    ensures
        r == (a@ == b@),
;

/// The text that remains of `s` once the whitespace at its start is gone.
pub open spec fn without_leading_space(s: Seq<char>) -> Seq<char>
    decreases s.len(),
{
    if s.len() > 0 && white_space(s.first()) {
        without_leading_space(s.drop_first())
    } else {
        s
    }
}

/// The text that remains of `s` once the whitespace at its end is gone.
pub open spec fn without_trailing_space(s: Seq<char>) -> Seq<char>
    decreases s.len(),
{
    if s.len() > 0 && white_space(s.last()) {
        without_trailing_space(s.drop_last())
    } else {
        s
    }
}

/// `s` without the whitespace at either end.
pub open spec fn trimmed(s: Seq<char>) -> Seq<char> {
    without_trailing_space(without_leading_space(s))
}

/// `str::trim` removes the leading and the trailing run of `White_Space`
/// characters and nothing else.
pub assume_specification[ str::trim ](s: &str) -> (r: &str)
    ensures
        r@ == trimmed(s@),
;

/// The decimal notation of a number as `i32`'s `Display` writes it.
pub uninterp spec fn decimal(n: i32) -> Seq<char>;

/// Formats a number with `ToString::to_string`; the text depends on the
/// number alone and is the one that `decimal` names.
#[verifier::external_body]
pub(crate) fn decimal_text(n: i32) -> (s: String)
    ensures
        s@ == decimal(n),
{
    n.to_string()
}

/// The value of a decimal digit, if `c` is one of `0` to `9`.
pub open spec fn digit_value(c: char) -> Option<int> {
    if 48 <= c as int <= 57 {
        Some(c as int - 48)
    } else {
        None
    }
}

/// The number that a run of decimal digits denotes. There is none for an
/// empty run, nor for one that holds anything but digits.
pub open spec fn digits_value(s: Seq<char>) -> Option<int>
    decreases s.len(),
{
    if s.len() == 0 {
        None
    } else {
        match digit_value(s.last()) {
            None => None,
            Some(d) => if s.len() == 1 {
                Some(d)
            } else {
                match digits_value(s.drop_last()) {
                    Some(v) => Some(v * 10 + d),
                    None => None,
                }
            },
        }
    }
}

/// The number that a text denotes: an optional `+` or `-`, then decimal
/// digits and nothing else, of a value that an `i32` can hold.
pub open spec fn parsed_i32(text: Seq<char>) -> Option<i32> {
    let negative = text.len() > 0 && text[0] == '-';
    let signed = text.len() > 0 && (text[0] == '-' || text[0] == '+');
    let digits = if signed {
        text.drop_first()
    } else {
        text
    };
    match digits_value(digits) {
        Some(v) => {
            let n = if negative {
                -v
            } else {
                v
            };
            if i32::MIN <= n <= i32::MAX {
                Some(n as i32)
            } else {
                None
            }
        },
        None => None,
    }
}

/// Reads a number with `str::parse::<i32>`, which accepts an optional sign
/// followed by decimal digits only and rejects a value out of range. The
/// reason of a failure is dropped.
#[verifier::external_body]
pub(crate) fn parse_i32(text: &str) -> (r: Option<i32>)
    ensures
        r == parsed_i32(text@),
{
    text.parse::<i32>().ok()
}

/// The character sequences held by a sequence of strings.
pub open spec fn texts(v: Seq<String>) -> Seq<Seq<char>> {
    v.map_values(|s: String| s@)
}

/// Adding a string to the end adds its characters to the end.
pub proof fn lemma_texts_push(v: Seq<String>, s: String)
    ensures
        texts(v.push(s)) == texts(v).push(s@),
{
    assert(texts(v.push(s)) =~= texts(v).push(s@));
}

/// The characters of an optional string slice.
pub open spec fn opt_text(s: Option<&str>) -> Option<Seq<char>> {
    match s {
        Some(t) => Some(t@),
        None => None,
    }
}

/// Whether two string slices hold the same characters.
pub fn same_text(a: &str, b: &str) -> (r: bool)
    ensures
        r == (a@ == b@),
{
    *a == *b
}

/// A new string holding `a` followed by `b`.
pub fn glue(a: &str, b: &str) -> (r: String)
    ensures
        r@ == a@ + b@,
{
    let mut r = a.to_owned();
    r.append(b);
    r
}

/// `s`, followed by as many spaces as it takes to reach `width`
/// characters.
pub open spec fn padded(s: Seq<char>, width: nat) -> Seq<char> {
    if s.len() >= width {
        s
    } else {
        s + Seq::new((width - s.len()) as nat, |i: int| ' ')
    }
}

/// Pads a text with spaces on the right up to `width` characters.
pub fn pad_right(s: &str, width: usize) -> (r: String)
    ensures
        r@ == padded(s@, width as nat),
{
    let mut r = s.to_owned();
    let mut n = s.unicode_len();
    let ghost start = n;
    proof {
        assert(s@ + Seq::new(0, |i: int| ' ') =~= s@);
    }
    while n < width
        invariant
            start == s@.len(),
            start <= n,
            n <= width || n == start,
            r@ == s@ + Seq::new((n - start) as nat, |i: int| ' '),
        decreases width - n,
    {
        r.push(' ');
        n += 1;
        proof {
            assert(r@ =~= s@ + Seq::new((n - start) as nat, |i: int| ' '));
        }
    }
    r
}

/// The words of `words` written one after another with `sep` between
/// neighbours.
pub open spec fn joined(words: Seq<Seq<char>>, sep: Seq<char>) -> Seq<char>
    decreases words.len(),
{
    if words.len() == 0 {
        Seq::empty()
    } else if words.len() == 1 {
        words[0]
    } else {
        joined(words.drop_last(), sep) + sep + words.last()
    }
}

/// Writes the words one after another with `sep` between neighbours.
pub fn join(words: &Vec<String>, sep: &str) -> (r: String)
    ensures
        r@ == joined(texts(words@), sep@),
{
    let mut r = String::new();
    let mut i: usize = 0;
    while i < words.len()
        invariant
            i <= words.len(),
            r@ == joined(texts(words@.subrange(0, i as int)), sep@),
        decreases words.len() - i,
    {
        proof {
            let next = texts(words@.subrange(0, i + 1));
            assert(next.drop_last() =~= texts(words@.subrange(0, i as int)));
            assert(next.last() == words@[i as int]@);
            if i == 0 {
                assert(r@ + words@[0]@ =~= words@[0]@);
            }
        }
        if i > 0 {
            r.append(sep);
        }
        r.append(words[i].as_str());
        i += 1;
    }
    proof {
        assert(words@.subrange(0, words@.len() as int) =~= words@);
    }
    r
}

/// Whether `c` occurs in `s`.
pub fn contains_char(s: &str, c: char) -> (r: bool)
    ensures
        r == s@.contains(c),
{
    let mut found = false;
    for d in it: s.chars()
        invariant
            it.seq() == s@,
            found == s@.subrange(0, it.index() as int).contains(c),
    {
        proof {
            let next = s@.subrange(0, it.index() + 1);
            let prev = s@.subrange(0, it.index() as int);
            assert(next =~= prev.push(d));
            if prev.contains(c) {
                let k = choose|k: int| 0 <= k < prev.len() && prev[k] == c;
                assert(next[k] == c);
            }
            if d == c {
                assert(next[it.index() as int] == c);
            }
        }
        if d == c {
            found = true;
        }
    }
    proof {
        assert(s@.subrange(0, s@.len() as int) =~= s@);
    }
    found
}

} // verus!
