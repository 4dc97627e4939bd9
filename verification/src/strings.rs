//! Small verified helpers for working with text as sequences of characters.

use vstd::prelude::*;
use vstd::string::StringExecFns;

verus! {

/// `String::push` of the standard library appends one character to the end
/// of the string and changes nothing else.
pub assume_specification[ String::push ](s: &mut String, c: char)
    ensures
        final(s)@ == old(s)@.push(c),
;

/// `text` in lower case, as `str::to_lowercase` of the standard library makes
/// it: every character replaced by what Unicode gives as its lower case.
pub uninterp spec fn lowercase(text: Seq<char>) -> Seq<char>;

/// `str::to_lowercase` depends on its argument alone and returns its lower
/// case as a new string.
pub assume_specification[ str::to_lowercase ](s: &str) -> (lower: String)
    ensures
        lower@ == lowercase(s@),
;

/// The views of a list of strings.
pub open spec fn texts(lines: Seq<String>) -> Seq<Seq<char>> {
    lines.map_values(|line: String| line@)
}

/// The view of a string that may be missing.
pub open spec fn option_text(text: Option<String>) -> Option<Seq<char>> {
    match text {
        Some(text) => Some(text@),
        None => None,
    }
}

/// The characters of `s`, in order.
pub fn chars_of(s: &str) -> (v: Vec<char>)
    ensures
        v@ == s@,
{
    let mut v: Vec<char> = Vec::new();
    for c in it: s.chars()
        invariant
            it.seq() == s@,
            v@ == it.seq().take(it.index() as int),
    {
        v.push(c);
    }
    assert(s@.take(s@.len() as int) == s@);
    v
}

/// The text made of the characters `chars[from..to]`.
pub fn string_of_range(chars: &Vec<char>, from: usize, to: usize) -> (s: String)
    requires
        from <= to <= chars.len(),
    ensures
        s@ == chars@.subrange(from as int, to as int),
{
    let mut s = String::new();
    let mut i: usize = from;
    while i < to
        invariant
            from <= i <= to <= chars.len(),
            s@ == chars@.subrange(from as int, i as int),
        decreases to - i,
    {
        s.push(chars[i]);
        i += 1;
    }
    s
}

/// The decimal digit for `d`.
pub open spec fn digit(d: nat) -> char
    recommends
        d < 10,
{
    (48 + d) as char
}

/// The decimal numeral of `n`, without sign or leading zeros.
pub open spec fn decimal(n: nat) -> Seq<char>
    decreases n,
{
    if n < 10 {
        seq![digit(n)]
    } else {
        decimal(n / 10).push(digit(n % 10))
    }
}

/// Appends the decimal numeral of `n` to `s`.
pub fn push_decimal(s: &mut String, n: u64)
    ensures
        final(s)@ == old(s)@ + decimal(n as nat),
    decreases n,
{
    if n >= 10 {
        push_decimal(s, n / 10);
    }
    let d: u8 = (n % 10) as u8;
    let c: char = (48u8 + d) as char;
    s.push(c);
}

/// Whether two strings hold the same characters.
pub fn str_eq(a: &str, b: &str) -> (r: bool)
    ensures
        r == (a@ == b@),
{
    let x = String::from_str(a);
    let y = String::from_str(b);
    x == y
}

/// The fields of `text` from character `start` on, where `sep` does not
/// occur between `start` and `i`.
pub open spec fn fields_from(text: Seq<char>, sep: char, start: int, i: int) -> Seq<Seq<char>>
    decreases text.len() - i,
{
    if i >= text.len() {
        seq![text.subrange(start, text.len() as int)]
    } else if text[i] == sep {
        seq![text.subrange(start, i)] + fields_from(text, sep, i + 1, i + 1)
    } else {
        fields_from(text, sep, start, i + 1)
    }
}

/// The fields of `text`: what stands before, between and after the
/// occurrences of `sep`. There is one field more than there are separators.
pub open spec fn split_on(text: Seq<char>, sep: char) -> Seq<Seq<char>> {
    fields_from(text, sep, 0, 0)
}

/// Splits `text` at every occurrence of `sep`.
pub fn split_on_char(text: &str, sep: char) -> (fields: Vec<String>)
    ensures
        texts(fields@) == split_on(text@, sep),
        fields.len() >= 1,
{
    let chars = chars_of(text);
    let n = chars.len();
    let mut fields: Vec<String> = Vec::new();
    let mut start: usize = 0;
    let mut i: usize = 0;
    while i < n
        invariant
            n == chars.len(),
            chars@ == text@,
            start <= i <= n,
            split_on(text@, sep) == texts(fields@) + fields_from(
                text@,
                sep,
                start as int,
                i as int,
            ),
        decreases n - i,
    {
        if chars[i] == sep {
            let ghost done = texts(fields@);
            let field = string_of_range(&chars, start, i);
            fields.push(field);
            proof {
                assert(texts(fields@) == done.push(field@));
                let rest = fields_from(text@, sep, i + 1, i + 1);
                assert(done + (seq![field@] + rest) == done.push(field@) + rest);
            }
            start = i + 1;
        }
        i += 1;
    }
    let ghost done = texts(fields@);
    let field = string_of_range(&chars, start, n);
    fields.push(field);
    proof {
        assert(texts(fields@) == done.push(field@));
        assert(done + seq![field@] == done.push(field@));
    }
    fields
}

/// Whether `c` is white space, as Unicode defines it.
pub open spec fn is_space(c: char) -> bool {
    let code = c as u32;
    ||| 0x09 <= code <= 0x0d
    ||| code == 0x20
    ||| code == 0x85
    ||| code == 0xa0
    ||| code == 0x1680
    ||| 0x2000 <= code <= 0x200a
    ||| code == 0x2028
    ||| code == 0x2029
    ||| code == 0x202f
    ||| code == 0x205f
    ||| code == 0x3000
}

/// Whether `c` is white space.
pub fn is_whitespace(c: char) -> (space: bool)
    ensures
        space == is_space(c),
{
    let code = c as u32;
    (0x09 <= code && code <= 0x0d) || code == 0x20 || code == 0x85 || code == 0xa0 || code
        == 0x1680 || (0x2000 <= code && code <= 0x200a) || code == 0x2028 || code == 0x2029
        || code == 0x202f || code == 0x205f || code == 0x3000
}

/// The number of white space characters that `text` begins with.
pub open spec fn leading_spaces(text: Seq<char>) -> nat
    decreases text.len(),
{
    if text.len() > 0 && is_space(text[0]) {
        1 + leading_spaces(text.skip(1))
    } else {
        0
    }
}

/// The number of white space characters that `text` ends with.
pub open spec fn trailing_spaces(text: Seq<char>) -> nat
    decreases text.len(),
{
    if text.len() > 0 && is_space(text.last()) {
        1 + trailing_spaces(text.drop_last())
    } else {
        0
    }
}

/// `text` without the white space at its start and at its end.
pub open spec fn trimmed(text: Seq<char>) -> Seq<char> {
    let start = leading_spaces(text);
    let rest = text.skip(start as int);
    rest.take(rest.len() - trailing_spaces(rest))
}

/// White space at the start of `text` that is followed by something else
/// is all the white space that `text` begins with.
proof fn lemma_leading_spaces_found(text: Seq<char>, k: nat)
    requires
        k <= text.len(),
        forall|j: int| 0 <= j < k ==> is_space(#[trigger] text[j]),
        k < text.len() ==> !is_space(text[k as int]),
    ensures
        leading_spaces(text) == k,
    decreases k,
{
    if k > 0 {
        let rest = text.skip(1);
        assert forall|j: int| 0 <= j < k - 1 implies is_space(#[trigger] rest[j]) by {
            assert(rest[j] == text[j + 1]);
        }
        lemma_leading_spaces_found(rest, (k - 1) as nat);
    }
}

/// White space at the end of `text` that follows something else is all the
/// white space that `text` ends with.
proof fn lemma_trailing_spaces_found(text: Seq<char>, k: nat)
    requires
        k <= text.len(),
        forall|j: int| text.len() - k <= j < text.len() ==> is_space(#[trigger] text[j]),
        k < text.len() ==> !is_space(text[text.len() - k - 1]),
    ensures
        trailing_spaces(text) == k,
    decreases k,
{
    if k > 0 {
        let rest = text.drop_last();
        assert forall|j: int| rest.len() - (k - 1) <= j < rest.len() implies is_space(
            #[trigger] rest[j],
        ) by {
            assert(rest[j] == text[j]);
        }
        lemma_trailing_spaces_found(rest, (k - 1) as nat);
    }
}

/// Takes the white space off both ends of `text`.
pub fn trim(text: &str) -> (inner: String)
    ensures
        inner@ == trimmed(text@),
{
    let chars = chars_of(text);
    let n = chars.len();
    let mut start: usize = 0;
    while start < n && is_whitespace(chars[start])
        invariant
            n == chars.len(),
            start <= n,
            forall|j: int| 0 <= j < start ==> is_space(#[trigger] chars@[j]),
        decreases n - start,
    {
        start += 1;
    }
    let mut end: usize = n;
    while end > start && is_whitespace(chars[end - 1])
        invariant
            n == chars.len(),
            start <= end <= n,
            forall|j: int| end <= j < n ==> is_space(#[trigger] chars@[j]),
        decreases end,
    {
        end -= 1;
    }
    proof {
        let rest = chars@.skip(start as int);
        lemma_leading_spaces_found(chars@, start as nat);
        assert forall|j: int| rest.len() - (n - end) <= j < rest.len() implies is_space(
            #[trigger] rest[j],
        ) by {
            assert(rest[j] == chars@[j + start]);
        }
        if end > start {
            assert(rest[rest.len() - (n - end) - 1] == chars@[end - 1]);
        }
        lemma_trailing_spaces_found(rest, (n - end) as nat);
        assert(rest.take(rest.len() - (n - end)) == chars@.subrange(start as int, end as int));
    }
    string_of_range(&chars, start, end)
}

/// The line that ends before the line feed at `end`: without the carriage
/// return in front of the line feed, if there is one.
pub open spec fn line_before(text: Seq<char>, start: int, end: int) -> Seq<char> {
    if start < end && text[end - 1] == '\r' {
        text.subrange(start, end - 1)
    } else {
        text.subrange(start, end)
    }
}

/// The lines of `text` from character `start` on, where no line feed
/// stands between `start` and `i`.
pub open spec fn text_lines_from(text: Seq<char>, start: int, i: int) -> Seq<Seq<char>>
    decreases text.len() - i,
{
    if i >= text.len() {
        if start < text.len() {
            seq![text.subrange(start, text.len() as int)]
        } else {
            Seq::empty()
        }
    } else if text[i] == '\n' {
        seq![line_before(text, start, i)] + text_lines_from(text, i + 1, i + 1)
    } else {
        text_lines_from(text, start, i + 1)
    }
}

/// The lines of `text`. A line ends with a line feed, or with a carriage
/// return and a line feed, and neither is part of the line. What follows the
/// last line feed is a line too, unless nothing follows it.
pub open spec fn text_lines(text: Seq<char>) -> Seq<Seq<char>> {
    text_lines_from(text, 0, 0)
}

/// Splits `text` into its lines.
pub fn lines_of(text: &str) -> (lines: Vec<String>)
    ensures
        texts(lines@) == text_lines(text@),
{
    let chars = chars_of(text);
    let n = chars.len();
    let mut lines: Vec<String> = Vec::new();
    let mut start: usize = 0;
    let mut i: usize = 0;
    while i < n
        invariant
            n == chars.len(),
            chars@ == text@,
            start <= i <= n,
            text_lines(text@) == texts(lines@) + text_lines_from(text@, start as int, i as int),
        decreases n - i,
    {
        if chars[i] == '\n' {
            let ghost done = texts(lines@);
            let end = if start < i && chars[i - 1] == '\r' {
                i - 1
            } else {
                i
            };
            let line = string_of_range(&chars, start, end);
            lines.push(line);
            proof {
                assert(texts(lines@) == done.push(line@));
                let rest = text_lines_from(text@, i + 1, i + 1);
                assert(done + (seq![line@] + rest) == done.push(line@) + rest);
            }
            start = i + 1;
        }
        i += 1;
    }
    if start < n {
        let ghost done = texts(lines@);
        let line = string_of_range(&chars, start, n);
        lines.push(line);
        proof {
            assert(texts(lines@) == done.push(line@));
            assert(done + seq![line@] == done.push(line@));
        }
    } else {
        assert(texts(lines@) + Seq::<Seq<char>>::empty() == texts(lines@));
    }
    lines
}

} // verus!
