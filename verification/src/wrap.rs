//! Breaking the lines of a post into pieces that fit a panel.
//!
//! A post is a list of lines. Each line is broken into pieces of at most
//! `width` characters, an empty line giving one empty piece. The post may take
//! `limit` pieces, at least one. Where it has that many or more, the piece that
//! fills the last place loses its end to the cut mark and nothing follows it.

use crate::format::{cut_line, cut_text, LineType, CUT_MSG_LEN};
use crate::strings::{chars_of, string_of_range, texts};
use vstd::prelude::*;
use vstd::string::{StrSliceExecFns, StringExecFns};

verus! {

/// One piece of a line of a post, as it is shown in one row of a panel.
#[derive(Clone, Debug, PartialEq, Eq)]
pub struct WrappedLine {
    /// The kind of the line that the piece was taken from.
    pub line_type: LineType,
    /// The characters of the piece. The cut mark is no part of them.
    pub text: String,
    /// Whether the post was cut off here, so that the cut mark follows.
    pub cut: bool,
}

/// The view of a `WrappedLine`: the piece with its text as a sequence of
/// characters.
pub struct SubLine {
    pub line_type: LineType,
    pub text: Seq<char>,
    pub cut: bool,
}

impl View for WrappedLine {
    type V = SubLine;

    open spec fn view(&self) -> SubLine {
        SubLine { line_type: self.line_type, text: self.text@, cut: self.cut }
    }
}

/// The views of a list of wrapped lines.
pub open spec fn sub_line_views(lines: Seq<WrappedLine>) -> Seq<SubLine> {
    lines.map_values(|line: WrappedLine| line@)
}

/// The first `n` pieces of `text` when it is broken every `width`
/// characters, each marked as of kind `line_type`. A text of at most `width`
/// characters, the empty one too, is one piece.
pub open spec fn pieces(line_type: LineType, text: Seq<char>, width: nat, n: nat) -> Seq<SubLine>
    decreases n,
{
    if n == 0 {
        Seq::empty()
    } else if text.len() <= width {
        seq![SubLine { line_type, text, cut: false }]
    } else {
        seq![SubLine { line_type, text: text.take(width as int), cut: false }] + pieces(
            line_type,
            text.skip(width as int),
            width,
            (n - 1) as nat,
        )
    }
}

/// The first `n` pieces of one line of a post.
pub open spec fn sub_lines(line: Seq<char>, width: nat, n: nat) -> Seq<SubLine> {
    pieces(LineType::of(line), line, width, n)
}

/// The first `n` pieces of a post: those of its first line, then those of the
/// lines after it.
pub open spec fn first_sub_lines(lines: Seq<Seq<char>>, width: nat, n: nat) -> Seq<SubLine>
    decreases lines.len(),
{
    if lines.len() == 0 {
        Seq::empty()
    } else {
        let head = sub_lines(lines[0], width, n);
        head + first_sub_lines(lines.skip(1), width, (n - head.len()) as nat)
    }
}

/// The piece `line` with its end given up for the cut mark.
pub open spec fn cut_sub_line(line: SubLine) -> SubLine {
    SubLine { line_type: line.line_type, text: cut_text(line.text), cut: true }
}

/// The number of pieces that a post may take: `limit`, but at least one.
pub open spec fn line_budget(limit: nat) -> nat {
    if limit == 0 {
        1
    } else {
        limit
    }
}

/// The rows that a post is shown in. A post of fewer pieces than it may take
/// is shown whole. Otherwise the piece in the last place is cut and the rest
/// of the post is left out.
pub open spec fn wrapped(lines: Seq<Seq<char>>, width: nat, limit: nat) -> Seq<SubLine> {
    let n = line_budget(limit);
    let all = first_sub_lines(lines, width, n);
    if all.len() < n {
        all
    } else {
        all.drop_last().push(cut_sub_line(all.last()))
    }
}

/// `pieces` gives at most `n` pieces.
pub proof fn lemma_pieces_len(line_type: LineType, text: Seq<char>, width: nat, n: nat)
    ensures
        pieces(line_type, text, width, n).len() <= n,
    decreases n,
{
    if n > 0 && text.len() > width {
        lemma_pieces_len(line_type, text.skip(width as int), width, (n - 1) as nat);
    }
}

/// `first_sub_lines` gives at most `n` pieces.
pub proof fn lemma_first_sub_lines_len(lines: Seq<Seq<char>>, width: nat, n: nat)
    ensures
        first_sub_lines(lines, width, n).len() <= n,
    decreases lines.len(),
{
    if lines.len() > 0 {
        let head = sub_lines(lines[0], width, n);
        lemma_pieces_len(LineType::of(lines[0]), lines[0], width, n);
        lemma_first_sub_lines_len(lines.skip(1), width, (n - head.len()) as nat);
    }
}

/// No piece holds more than `width` characters.
pub proof fn lemma_pieces_width(line_type: LineType, text: Seq<char>, width: nat, n: nat)
    ensures
        forall|i: int|
            0 <= i < pieces(line_type, text, width, n).len() ==> (#[trigger] pieces(
                line_type,
                text,
                width,
                n,
            )[i]).text.len() <= width,
    decreases n,
{
    if n > 0 && text.len() > width {
        lemma_pieces_width(line_type, text.skip(width as int), width, (n - 1) as nat);
    }
}

/// No piece is marked as cut, and each has the kind it was given.
pub proof fn lemma_pieces_plain(line_type: LineType, text: Seq<char>, width: nat, n: nat)
    ensures
        forall|i: int|
            0 <= i < pieces(line_type, text, width, n).len() ==> {
                let piece = #[trigger] pieces(line_type, text, width, n)[i];
                !piece.cut && piece.line_type == line_type
            },
    decreases n,
{
    if n > 0 && text.len() > width {
        lemma_pieces_plain(line_type, text.skip(width as int), width, (n - 1) as nat);
    }
}

/// The texts of `rows`, one after the other.
pub open spec fn joined(rows: Seq<SubLine>) -> Seq<char>
    decreases rows.len(),
{
    if rows.len() == 0 {
        Seq::empty()
    } else {
        rows[0].text + joined(rows.skip(1))
    }
}

/// Breaking a text neither drops nor splits a character: the pieces, read
/// one after the other, are the start of the text, and the whole text where
/// fewer than `n` pieces came out.
pub proof fn lemma_pieces_joined(line_type: LineType, text: Seq<char>, width: nat, n: nat)
    ensures
        joined(pieces(line_type, text, width, n)).len() <= text.len(),
        joined(pieces(line_type, text, width, n)) == text.take(
            joined(pieces(line_type, text, width, n)).len() as int,
        ),
        pieces(line_type, text, width, n).len() < n ==> joined(pieces(line_type, text, width, n))
            == text,
    decreases n,
{
    let all = pieces(line_type, text, width, n);
    if n == 0 {
        assert(joined(all) == Seq::<char>::empty());
        assert(text.take(0) == Seq::<char>::empty());
    } else if text.len() <= width {
        assert(joined(all.skip(1)) == Seq::<char>::empty());
        assert(joined(all) == text + Seq::<char>::empty());
        assert(text + Seq::<char>::empty() == text);
        assert(text.take(text.len() as int) == text);
    } else {
        let after = text.skip(width as int);
        let rest = pieces(line_type, after, width, (n - 1) as nat);
        lemma_pieces_joined(line_type, after, width, (n - 1) as nat);
        assert(all.skip(1) == rest);
        let tail = joined(rest);
        assert(joined(all) == text.take(width as int) + tail);
        assert(text.take(width as int) + after.take(tail.len() as int) == text.take(
            (width + tail.len()) as int,
        ));
        if rest.len() < n - 1 {
            assert(text.take(width as int) + after == text);
        }
    }
}

/// Reading two runs of rows one after the other reads the first and then
/// the second.
pub proof fn lemma_joined_concat(a: Seq<SubLine>, b: Seq<SubLine>)
    ensures
        joined(a + b) == joined(a) + joined(b),
    decreases a.len(),
{
    if a.len() == 0 {
        assert(a + b == b);
        assert(Seq::<char>::empty() + joined(b) == joined(b));
    } else {
        lemma_joined_concat(a.skip(1), b);
        assert((a + b).skip(1) == a.skip(1) + b);
        assert(a[0].text + (joined(a.skip(1)) + joined(b)) == (a[0].text + joined(a.skip(1)))
            + joined(b));
    }
}

/// A post that takes fewer rows than it may is shown whole: its rows, read
/// one after the other, are its lines, one after the other, and no row is
/// cut.
pub proof fn lemma_short_post_shown_whole(lines: Seq<Seq<char>>, width: nat, limit: nat)
    requires
        wrapped(lines, width, limit).len() < line_budget(limit),
    ensures
        joined(wrapped(lines, width, limit)) == lines.flatten(),
        forall|i: int|
            0 <= i < wrapped(lines, width, limit).len() ==> !(#[trigger] wrapped(
                lines,
                width,
                limit,
            )[i]).cut,
{
    let n = line_budget(limit);
    lemma_first_sub_lines_len(lines, width, n);
    lemma_first_sub_lines_rows(lines, width, n);
    lemma_first_sub_lines_whole(lines, width, n);
}

/// Where the rows of a post do not fill the places that they may take, they
/// hold all of its lines.
proof fn lemma_first_sub_lines_whole(lines: Seq<Seq<char>>, width: nat, n: nat)
    requires
        first_sub_lines(lines, width, n).len() < n,
    ensures
        joined(first_sub_lines(lines, width, n)) == lines.flatten(),
    decreases lines.len(),
{
    if lines.len() == 0 {
        assert(joined(first_sub_lines(lines, width, n)) == Seq::<char>::empty());
    } else {
        let head = sub_lines(lines[0], width, n);
        let rest = (n - head.len()) as nat;
        let tail = first_sub_lines(lines.skip(1), width, rest);
        lemma_pieces_len(LineType::of(lines[0]), lines[0], width, n);
        lemma_first_sub_lines_len(lines.skip(1), width, rest);
        lemma_pieces_joined(LineType::of(lines[0]), lines[0], width, n);
        lemma_first_sub_lines_whole(lines.skip(1), width, rest);
        lemma_joined_concat(head, tail);
        assert(lines.drop_first() == lines.skip(1));
    }
}

/// No row of `first_sub_lines` holds more than `width` characters, and none
/// is marked as cut.
pub proof fn lemma_first_sub_lines_rows(lines: Seq<Seq<char>>, width: nat, n: nat)
    ensures
        forall|i: int|
            0 <= i < first_sub_lines(lines, width, n).len() ==> {
                let row = #[trigger] first_sub_lines(lines, width, n)[i];
                row.text.len() <= width && !row.cut
            },
    decreases lines.len(),
{
    if lines.len() > 0 {
        let head = sub_lines(lines[0], width, n);
        lemma_pieces_width(LineType::of(lines[0]), lines[0], width, n);
        lemma_pieces_plain(LineType::of(lines[0]), lines[0], width, n);
        lemma_first_sub_lines_rows(lines.skip(1), width, (n - head.len()) as nat);
    }
}

/// A post never takes more rows than it may, and the cut mark stands in the
/// last row that it may take and nowhere else.
pub proof fn lemma_wrapped_cut(lines: Seq<Seq<char>>, width: nat, limit: nat)
    ensures
        wrapped(lines, width, limit).len() <= line_budget(limit),
        forall|i: int|
            0 <= i < wrapped(lines, width, limit).len() ==> ((#[trigger] wrapped(
                lines,
                width,
                limit,
            )[i]).cut <==> i == line_budget(limit) - 1),
{
    let n = line_budget(limit);
    lemma_first_sub_lines_len(lines, width, n);
    lemma_first_sub_lines_rows(lines, width, n);
}

/// Every row of a post holds at most `width` characters.
pub proof fn lemma_wrapped_width(lines: Seq<Seq<char>>, width: nat, limit: nat)
    ensures
        forall|i: int|
            0 <= i < wrapped(lines, width, limit).len() ==> (#[trigger] wrapped(
                lines,
                width,
                limit,
            )[i]).text.len() <= width,
{
    let n = line_budget(limit);
    lemma_first_sub_lines_len(lines, width, n);
    lemma_first_sub_lines_rows(lines, width, n);
}

/// In the row where a post is cut, what is kept of the text and the cut mark
/// fit the width together, wherever the width has room for the mark at all.
/// Where it has not, nothing of the text is kept.
pub proof fn lemma_wrapped_cut_fits(lines: Seq<Seq<char>>, width: nat, limit: nat)
    ensures
        forall|i: int|
            0 <= i < wrapped(lines, width, limit).len() && (#[trigger] wrapped(
                lines,
                width,
                limit,
            )[i]).cut ==> {
                let kept = wrapped(lines, width, limit)[i].text.len();
                if width >= CUT_MSG_LEN {
                    kept + CUT_MSG_LEN <= width
                } else {
                    kept == 0
                }
            },
{
    let n = line_budget(limit);
    lemma_first_sub_lines_len(lines, width, n);
    lemma_first_sub_lines_rows(lines, width, n);
}

/// Adds the first pieces of one line to `out`, as many as `limit` leaves
/// room for.
fn wrap_line(
    out: &mut Vec<WrappedLine>,
    chars: &Vec<char>,
    line_type: LineType,
    sub_len: usize,
    limit: usize,
)
    requires
        old(out).len() <= limit,
    ensures
        final(out).len() <= limit,
        sub_line_views(final(out)@) == sub_line_views(old(out)@) + pieces(
            line_type,
            chars@,
            sub_len as nat,
            (limit - old(out).len()) as nat,
        ),
{
    let len = chars.len();
    let mut pos: usize = 0;
    let ghost before = sub_line_views(out@);
    let ghost room = (limit - out.len()) as nat;
    assert(chars@.skip(0) == chars@);
    while out.len() < limit
        invariant
            pos <= len,
            len == chars.len(),
            old(out).len() <= out.len() <= limit,
            room == limit - old(out).len(),
            before == sub_line_views(old(out)@),
            before + pieces(line_type, chars@, sub_len as nat, room) == sub_line_views(out@)
                + pieces(
                line_type,
                chars@.skip(pos as int),
                sub_len as nat,
                (limit - out.len()) as nat,
            ),
        decreases limit - out.len(),
    {
        let ghost shown = sub_line_views(out@);
        let ghost rest = chars@.skip(pos as int);
        if len - pos <= sub_len {
            let text = string_of_range(chars, pos, len);
            let line = WrappedLine { line_type, text, cut: false };
            out.push(line);
            proof {
                assert(rest == chars@.subrange(pos as int, len as int));
                assert(sub_line_views(out@) == shown.push(line@));
                assert(shown + seq![line@] == shown.push(line@));
            }
            return ;
        }
        let text = string_of_range(chars, pos, pos + sub_len);
        let line = WrappedLine { line_type, text, cut: false };
        out.push(line);
        proof {
            assert(rest.take(sub_len as int) == chars@.subrange(pos as int, pos + sub_len));
            assert(rest.skip(sub_len as int) == chars@.skip(pos + sub_len));
            assert(sub_line_views(out@) == shown.push(line@));
            let tail = pieces(
                line_type,
                chars@.skip(pos + sub_len),
                sub_len as nat,
                (limit - out.len()) as nat,
            );
            assert(shown + (seq![line@] + tail) == shown.push(line@) + tail);
        }
        pos += sub_len;
    }
}

/// Lays out the lines of a post in rows of at most `sub_len` characters and
/// cuts the post off where it would take more than `line_limit` rows.
pub fn wrap_lines(lines: &Vec<String>, sub_len: usize, line_limit: usize) -> (out: Vec<
    WrappedLine,
>)
    ensures
        sub_line_views(out@) == wrapped(texts(lines@), sub_len as nat, line_limit as nat),
{
    let limit = if line_limit == 0 {
        1
    } else {
        line_limit
    };
    let ghost post = texts(lines@);
    let ghost all = first_sub_lines(post, sub_len as nat, limit as nat);
    let mut out: Vec<WrappedLine> = Vec::new();
    let mut k: usize = 0;
    assert(post.skip(0) == post);
    while k < lines.len()
        invariant
            k <= lines.len(),
            out.len() <= limit,
            post == texts(lines@),
            all == first_sub_lines(post, sub_len as nat, limit as nat),
            all == sub_line_views(out@) + first_sub_lines(
                post.skip(k as int),
                sub_len as nat,
                (limit - out.len()) as nat,
            ),
        decreases lines.len() - k,
    {
        let line = lines[k].as_str();
        let line_type = LineType::from_line(line);
        let chars = chars_of(line);
        let ghost shown = sub_line_views(out@);
        let ghost room = (limit - out.len()) as nat;
        wrap_line(&mut out, &chars, line_type, sub_len, limit);
        proof {
            let rest = post.skip(k as int);
            assert(rest[0] == line@);
            assert(rest.skip(1) == post.skip(k + 1));
            let head = sub_lines(line@, sub_len as nat, room);
            lemma_pieces_len(line_type, line@, sub_len as nat, room);
            let tail = first_sub_lines(
                post.skip(k + 1),
                sub_len as nat,
                (room - head.len()) as nat,
            );
            assert(shown + (head + tail) == (shown + head) + tail);
        }
        k += 1;
    }
    proof {
        assert(post.skip(k as int).len() == 0);
        assert(all == sub_line_views(out@));
        lemma_first_sub_lines_len(post, sub_len as nat, limit as nat);
    }
    if out.len() == limit {
        let last = out.pop().unwrap();
        let len = last.text.as_str().unicode_len();
        let kept = cut_line(last.text.as_str(), 0, len);
        let line = WrappedLine { line_type: last.line_type, text: String::from_str(kept), cut: true };
        proof {
            assert(last@ == all.last());
            assert(last.text@.subrange(0, len as int) == last.text@);
            assert(sub_line_views(out@) == all.drop_last());
        }
        let ghost shown = sub_line_views(out@);
        out.push(line);
        assert(sub_line_views(out@) == shown.push(line@));
    }
    out
}

} // verus!
