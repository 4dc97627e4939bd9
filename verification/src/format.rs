//! Laying out the text of a post: which kind of line each one is, how a long
//! line is broken into pieces that fit the panel, and where the text is cut
//! off once it takes more lines than it may.

use crate::model::{Board, ThreadList, ThreadPost};
use crate::outside::{html_decoded, tags_stripped, utc_time, utc_time_text, STRIP_TAGS_LIMIT};
use crate::strings::{chars_of, decimal, push_decimal, string_of_range, texts};
use crate::style::{Color, Style};
use crate::text::{row_views, Span, Spans, StyledText};
use crate::wrap::{sub_line_views, wrap_lines, wrapped, SubLine, WrappedLine};
use vstd::prelude::*;
use vstd::string::{StrSliceExecFns, StringExecFns};

verus! {

/// The number of characters of the mark that ends a post that was cut off.
pub const CUT_MSG_LEN: usize = 5;

/// The mark that ends a post that was cut off: `[...]`.
pub open spec fn cut_msg_text() -> Seq<char> {
    seq!['[', '.', '.', '.', ']']
}

/// The mark that ends a post that was cut off.
pub fn cut_msg() -> (msg: &'static str)
    ensures
        msg@ == cut_msg_text(),
        msg@.len() == CUT_MSG_LEN,
{
    proof {
        reveal_strlit("[...]");
    }
    assert("[...]"@ =~= cut_msg_text());
    "[...]"
}

/// `text` behind one blank.
pub open spec fn padded(text: Seq<char>) -> Seq<char> {
    " "@ + text
}

/// Puts one blank before `str`, so that text keeps clear of a panel's border.
pub fn format_default(str: &str) -> (text: String)
    ensures
        text@ == padded(str@),
{
    let mut text = String::from_str(" ");
    text.append(str);
    text
}

/// `text` with its HTML entities decoded, or `text` itself where an entity
/// in it is malformed.
pub open spec fn html_text(text: Seq<char>) -> Seq<char> {
    match html_decoded(text) {
        Some(decoded) => decoded,
        None => text,
    }
}

/// Replaces the HTML entities in `str` by their characters. A text with a
/// malformed entity is kept as it is.
pub fn format_html(str: &str) -> (text: String)
    ensures
        text@ == html_text(str@),
{
    match htmlescape::decode_html(str) {
        Ok(decoded) => decoded,
        Err(_) => String::from_str(str),
    }
}

/// The kind of a line of a post: ordinary text, a quotation that starts with
/// `>`, or a reply to another post that starts with `>>`.
#[derive(Clone, Copy, Debug, PartialEq, Eq)]
pub enum LineType {
    Text,
    Greentext,
    Reply,
}

impl LineType {
    /// The kind of `line`, by its first two characters.
    pub open spec fn of(line: Seq<char>) -> LineType {
        if line.len() >= 2 && line[0] == '>' && line[1] == '>' {
            LineType::Reply
        } else if line.len() >= 1 && line[0] == '>' {
            LineType::Greentext
        } else {
            LineType::Text
        }
    }

    /// The kind of `line`. Characters are counted, not bytes, so a line
    /// that opens with a character of several bytes is judged like any other.
    pub fn from_line(line: &str) -> (line_type: Self)
        ensures
            line_type == Self::of(line@),
    {
        let len = line.unicode_len();
        if len >= 1 && line.get_char(0) == '>' {
            if len >= 2 && line.get_char(1) == '>' {
                Self::Reply
            } else {
                Self::Greentext
            }
        } else {
            Self::Text
        }
    }

    /// The style that lines of this kind are drawn in.
    pub open spec fn style_of(self) -> Style {
        match self {
            LineType::Text => Style::plain(),
            LineType::Greentext => Style::colored(Color::Green),
            LineType::Reply => Style::colored(Color::Yellow),
        }
    }

    /// Quotations are green, replies yellow, other text has no colour.
    pub fn style(&self) -> (style: Style)
        ensures
            style == self.style_of(),
    {
        match self {
            Self::Text => Style::default(),
            Self::Greentext => Style::default().fg(Color::Green),
            Self::Reply => Style::default().fg(Color::Yellow),
        }
    }
}

/// The kind of a line is decided by its first two characters: lines that
/// begin alike are of the same kind.
pub proof fn lemma_line_type_by_start(a: Seq<char>, b: Seq<char>)
    requires
        a.len() >= 2,
        b.len() >= 2,
        a[0] == b[0],
        a[1] == b[1],
    ensures
        LineType::of(a) == LineType::of(b),
{
}

impl Default for LineType {
    fn default() -> (line_type: Self)
        ensures
            line_type == LineType::Text,
    {
        LineType::Text
    }
}

/// What is left of a piece of `len` characters when room is made for the
/// cut mark: the mark takes the place of the last characters, of all of them
/// where the piece is shorter than the mark.
pub open spec fn kept_len(len: nat) -> nat {
    if len < CUT_MSG_LEN {
        0
    } else {
        (len - CUT_MSG_LEN) as nat
    }
}

/// The start of `text` that stays when the cut mark is put at its end.
pub open spec fn cut_text(text: Seq<char>) -> Seq<char> {
    text.take(kept_len(text.len()) as int)
}

/// Of the piece of `cur_len` characters that starts at character `pos` of
/// `line`, the part that stays in front of the cut mark.
pub fn cut_line(line: &str, pos: usize, cur_len: usize) -> (kept: &str)
    requires
        pos + cur_len <= line@.len(),
    ensures
        kept@ == cut_text(line@.subrange(pos as int, pos + cur_len)),
{
    let len = line.unicode_len();
    assert(pos + cur_len <= len);
    let cut = if cur_len < CUT_MSG_LEN {
        cur_len
    } else {
        CUT_MSG_LEN
    };
    let kept = line.substring_char(pos, pos + cur_len - cut);
    assert(kept@ =~= cut_text(line@.subrange(pos as int, pos + cur_len)));
    kept
}

/// Whether the line break `<br>` stands at character `i` of `text`.
pub open spec fn is_break_at(text: Seq<char>, i: int) -> bool {
    0 <= i && i + 4 <= text.len() && text.subrange(i, i + 4) == "<br>"@
}

/// The lines of `text` from character `start` on, where no line break
/// begins between `start` and `i`.
pub open spec fn lines_from(text: Seq<char>, start: int, i: int) -> Seq<Seq<char>>
    decreases text.len() - i,
{
    if i + 4 > text.len() {
        seq![text.subrange(start, text.len() as int)]
    } else if is_break_at(text, i) {
        seq![text.subrange(start, i)] + lines_from(text, i + 4, i + 4)
    } else {
        lines_from(text, start, i + 1)
    }
}

/// The lines of `text`: what stands before, between and after its line
/// breaks `<br>`. There is one line more than there are breaks, so two
/// breaks in a row hold an empty line and a text without a break is one line.
pub open spec fn split_breaks(text: Seq<char>) -> Seq<Seq<char>> {
    lines_from(text, 0, 0)
}

/// The lines `lines` with a line break between one and the next.
pub open spec fn joined_by_breaks(lines: Seq<Seq<char>>) -> Seq<char>
    decreases lines.len(),
{
    if lines.len() == 0 {
        Seq::empty()
    } else if lines.len() == 1 {
        lines[0]
    } else {
        lines[0] + "<br>"@ + joined_by_breaks(lines.skip(1))
    }
}

/// What `lines_from` gives, put together again with line breaks, is the
/// text from `start` on.
proof fn lemma_lines_from_joined(text: Seq<char>, start: int, i: int)
    requires
        0 <= start <= i <= text.len(),
    ensures
        lines_from(text, start, i).len() >= 1,
        joined_by_breaks(lines_from(text, start, i)) == text.subrange(start, text.len() as int),
    decreases text.len() - i,
{
    if i + 4 > text.len() {
    } else if is_break_at(text, i) {
        let first = text.subrange(start, i);
        let rest = lines_from(text, i + 4, i + 4);
        lemma_lines_from_joined(text, i + 4, i + 4);
        let all = seq![first] + rest;
        assert(all.skip(1) == rest);
        assert(first + text.subrange(i, i + 4) + text.subrange(i + 4, text.len() as int)
            == text.subrange(start, text.len() as int));
    } else {
        lemma_lines_from_joined(text, start, i + 1);
    }
}

/// Splitting a text at its line breaks loses nothing: the lines, with a
/// line break between one and the next, are the text. Every text has at
/// least one line.
pub proof fn lemma_split_breaks_joined(text: Seq<char>)
    ensures
        split_breaks(text).len() >= 1,
        joined_by_breaks(split_breaks(text)) == text,
{
    lemma_lines_from_joined(text, 0, 0);
    assert(text.subrange(0, text.len() as int) == text);
}

/// Splits `text` at every line break `<br>`.
pub fn split_lines(text: &str) -> (lines: Vec<String>)
    ensures
        texts(lines@) == split_breaks(text@),
{
    let chars = chars_of(text);
    let n = chars.len();
    let mut lines: Vec<String> = Vec::new();
    let mut start: usize = 0;
    let mut i: usize = 0;
    proof {
        reveal_strlit("<br>");
    }
    while n >= 4 && i <= n - 4
        invariant
            n == chars.len(),
            chars@ == text@,
            start <= i <= n,
            "<br>"@ == seq!['<', 'b', 'r', '>'],
            split_breaks(text@) == texts(lines@) + lines_from(text@, start as int, i as int),
        decreases n - i,
    {
        let ghost done = texts(lines@);
        if chars[i] == '<' && chars[i + 1] == 'b' && chars[i + 2] == 'r' && chars[i + 3] == '>' {
            let line = string_of_range(&chars, start, i);
            lines.push(line);
            proof {
                assert(text@.subrange(i as int, i + 4) == seq!['<', 'b', 'r', '>']);
                assert(texts(lines@) == done.push(line@));
                let rest = lines_from(text@, i + 4, i + 4);
                assert(done + (seq![line@] + rest) == done.push(line@) + rest);
            }
            i += 4;
            start = i;
        } else {
            proof {
                let here = text@.subrange(i as int, i + 4);
                assert(here[0] == text@[i as int]);
                assert(here[1] == text@[i + 1]);
                assert(here[2] == text@[i + 2]);
                assert(here[3] == text@[i + 3]);
            }
            i += 1;
        }
    }
    let ghost done = texts(lines@);
    let line = string_of_range(&chars, start, n);
    lines.push(line);
    proof {
        assert(texts(lines@) == done.push(line@));
        assert(done + seq![line@] == done.push(line@));
    }
    lines
}

/// `line` without the tags in it. A line of more characters than the tag
/// stripper takes is kept as it is.
pub open spec fn plain_text(line: Seq<char>) -> Seq<char> {
    if line.len() < STRIP_TAGS_LIMIT {
        tags_stripped(line)
    } else {
        line
    }
}

/// Takes the tags out of `line`.
pub fn strip_line(line: &str) -> (text: String)
    ensures
        text@ == plain_text(line@),
{
    if line.unicode_len() < STRIP_TAGS_LIMIT {
        voca_rs::strip::strip_tags(line)
    } else {
        String::from_str(line)
    }
}

/// The lines of a post as they are shown: the entities of the markup
/// decoded, the text split at its line breaks, and each line freed of the
/// tags that are left in it.
pub open spec fn post_lines(markup: Seq<char>) -> Seq<Seq<char>> {
    split_breaks(html_text(markup)).map_values(|line: Seq<char>| plain_text(line))
}

/// Decodes the markup of a post and gives its lines without their tags.
pub fn plain_lines(markup: &str) -> (lines: Vec<String>)
    ensures
        texts(lines@) == post_lines(markup@),
{
    let decoded = format_html(markup);
    let split = split_lines(decoded.as_str());
    let mut lines: Vec<String> = Vec::new();
    let mut k: usize = 0;
    while k < split.len()
        invariant
            k <= split.len(),
            texts(split@) == split_breaks(html_text(markup@)),
            texts(lines@) == post_lines(markup@).take(k as int),
        decreases split.len() - k,
    {
        let ghost done = texts(lines@);
        let line = strip_line(split[k].as_str());
        lines.push(line);
        proof {
            assert(texts(split@)[k as int] == split[k as int]@);
            assert(texts(lines@) == done.push(line@));
            assert(post_lines(markup@).take(k + 1) == post_lines(markup@).take(k as int).push(
                line@,
            ));
        }
        k += 1;
    }
    assert(post_lines(markup@).take(k as int) == post_lines(markup@));
    lines
}

/// The style of the cut mark.
pub open spec fn cut_msg_style() -> Style {
    Style::colored(Color::Magenta)
}

/// How one row of a post is drawn. An empty row is empty. Other text stands
/// behind a blank, in the style of its kind of line. Where the post was cut,
/// the cut mark follows in a style of its own.
pub open spec fn sub_line_row(line: SubLine) -> Seq<StyledText> {
    let text = StyledText { content: padded(line.text), style: line.line_type.style_of() };
    if line.cut {
        seq![text, StyledText { content: cut_msg_text(), style: cut_msg_style() }]
    } else if line.text.len() == 0 {
        seq![StyledText { content: Seq::empty(), style: Style::plain() }]
    } else {
        seq![text]
    }
}

/// The row that draws `line`.
pub fn line_spans(line: &WrappedLine) -> (row: Spans)
    ensures
        row@ == sub_line_row(line@),
{
    if line.cut {
        Spans::pair(
            Span::styled(format_default(line.text.as_str()), line.line_type.style()),
            Span::styled(String::from_str(cut_msg()), Style::default().fg(Color::Magenta)),
        )
    } else if line.text.as_str().is_empty() {
        proof {
            reveal_strlit("");
        }
        assert(""@ == Seq::<char>::empty());
        Spans::raw("")
    } else {
        Spans::single(Span::styled(format_default(line.text.as_str()), line.line_type.style()))
    }
}

/// The rows that the text of a post is drawn in, `sub_len` characters wide
/// and `line_limit` rows at most.
pub open spec fn post_content_rows(markup: Seq<char>, sub_len: nat, line_limit: nat) -> Seq<
    Seq<StyledText>,
> {
    wrapped(post_lines(markup), sub_len, line_limit).map_values(|line: SubLine| sub_line_row(line))
}

/// Lays out the text of a post for a panel. Lines longer than `sub_len`
/// characters go on in the next row. A post that would fill `line_limit`
/// rows or more ends in that row with the cut mark.
pub fn format_post_contents(string: &str, sub_len: usize, line_limit: usize) -> (rows: Vec<Spans>)
    ensures
        row_views(rows@) == post_content_rows(string@, sub_len as nat, line_limit as nat),
{
    let lines = plain_lines(string);
    let wrapped_lines = wrap_lines(&lines, sub_len, line_limit);
    let ghost all = post_content_rows(string@, sub_len as nat, line_limit as nat);
    let mut rows: Vec<Spans> = Vec::new();
    let mut k: usize = 0;
    while k < wrapped_lines.len()
        invariant
            k <= wrapped_lines.len(),
            sub_line_views(wrapped_lines@) == wrapped(
                post_lines(string@),
                sub_len as nat,
                line_limit as nat,
            ),
            all == post_content_rows(string@, sub_len as nat, line_limit as nat),
            row_views(rows@) == all.take(k as int),
        decreases wrapped_lines.len() - k,
    {
        let ghost done = row_views(rows@);
        let row = line_spans(&wrapped_lines[k]);
        rows.push(row);
        proof {
            assert(sub_line_views(wrapped_lines@)[k as int] == wrapped_lines[k as int]@);
            assert(row_views(rows@) == done.push(row@));
            assert(all.take(k + 1) == all.take(k as int).push(row@));
        }
        k += 1;
    }
    assert(all.take(k as int) == all);
    rows
}

/// The widest that a row of a post's text gets, in characters.
pub const LEN: usize = 110;

/// The number of rows that the text of a post takes at most in a list of
/// threads.
pub const LIMIT_SHORT: usize = 10;

/// The number of rows that the text of a post takes at most in an opened
/// thread.
pub const LIMIT_LONG: usize = 60;

/// The date and time of a timestamp as `MM/DD/YY(Day)HH:MM:SS` in UTC, or
/// `None` for a timestamp beyond the dates that can be written.
pub open spec fn time_text(timestamp: u64) -> Option<Seq<char>> {
    if timestamp <= i64::MAX {
        utc_time_text(timestamp as i64)
    } else {
        None
    }
}

/// Writes a timestamp, seconds since the start of 1970, as date and time in
/// UTC: `MM/DD/YY(Day)HH:MM:SS`.
pub fn format_time(timestamp: u64) -> (text: Option<String>)
    ensures
        match text {
            Some(text) => time_text(timestamp) == Some(text@),
            None => time_text(timestamp) is None,
        },
{
    if timestamp <= i64::MAX as u64 {
        utc_time(timestamp as i64)
    } else {
        None
    }
}

/// The row without text that stands above and below a post.
pub open spec fn empty_row() -> Seq<StyledText> {
    seq![StyledText { content: Seq::empty(), style: Style::plain() }]
}

/// The style of a post's subject.
pub open spec fn subject_style() -> Style {
    Style { fg: Some(Color::Red), bold: true, italic: false, underlined: false }
}

/// The style of the author, time and number of a post.
pub open spec fn byline_style() -> Style {
    Style { fg: None, bold: false, italic: true, underlined: true }
}

/// The style of the name of an attached file.
pub open spec fn attachment_style() -> Style {
    Style { fg: Some(Color::Cyan), bold: false, italic: true, underlined: false }
}

/// The style of the count of replies.
pub open spec fn replies_style() -> Style {
    Style { fg: Some(Color::Magenta), bold: false, italic: true, underlined: false }
}

/// Author, time and number of a post: `name time No.number`. A time that
/// cannot be written is left empty.
pub open spec fn byline(post: &ThreadPost) -> Seq<char> {
    let time = match time_text(post.time) {
        Some(time) => time,
        None => Seq::empty(),
    };
    html_text(post.name@) + " "@ + time + " No."@ + decimal(post.no as nat)
}

/// The subject of a post in the header, if it has one.
pub open spec fn subject_part(post: &ThreadPost) -> Seq<StyledText> {
    if post.sub@.len() == 0 {
        Seq::empty()
    } else {
        seq![StyledText { content: padded(html_text(post.sub@)), style: subject_style() }]
    }
}

/// A sign in the header that is shown where `flag` is 1.
pub open spec fn flag_part(flag: u8, sign: Seq<char>) -> Seq<StyledText> {
    if flag == 1 {
        seq![StyledText { content: padded(sign), style: Style::plain() }]
    } else {
        Seq::empty()
    }
}

/// The header of a post: its subject if it has one, author, time and
/// number, the counter `no`, and a sign each for a post that is pinned and
/// for one that is closed.
pub open spec fn header_row(post: &ThreadPost, no: Seq<char>) -> Seq<StyledText> {
    subject_part(post) + seq![
        StyledText { content: " "@, style: Style::plain() },
        StyledText { content: byline(post), style: byline_style() },
        StyledText { content: padded(no), style: Style::colored(Color::Yellow) },
    ] + flag_part(post.sticky, "\u{1F4CC}"@) + flag_part(post.closed, "\u{1F513}"@)
}

/// The row that names the attached file. It is there only where both the
/// name and the extension of the file are known.
pub open spec fn attachment_rows(post: &ThreadPost) -> Seq<Seq<StyledText>> {
    match (post.filename, post.ext) {
        (Some(filename), Some(ext)) => seq![
            seq![StyledText { content: padded(filename@ + ext@), style: attachment_style() }],
        ],
        _ => Seq::empty(),
    }
}

/// The row that counts the replies, which only the short form has.
pub open spec fn replies_rows(post: &ThreadPost, short: bool) -> Seq<Seq<StyledText>> {
    if short {
        seq![
            seq![
                StyledText {
                    content: padded(decimal(post.replies as nat) + " Replies"@),
                    style: replies_style(),
                },
            ],
        ]
    } else {
        Seq::empty()
    }
}

/// The number of rows that the text of a post may take.
pub open spec fn line_limit(short: bool) -> nat {
    if short {
        LIMIT_SHORT as nat
    } else {
        LIMIT_LONG as nat
    }
}

/// All rows of a post: an empty row, the header, the attached file if
/// there is one, the text, the count of replies in the short form, and an
/// empty row.
pub open spec fn post_rows(post: &ThreadPost, no: Seq<char>, short: bool) -> Seq<Seq<StyledText>> {
    seq![empty_row(), header_row(post, no)] + attachment_rows(post) + post_content_rows(
        post.com@,
        LEN as nat,
        line_limit(short),
    ) + replies_rows(post, short) + seq![empty_row()]
}

/// A post made ready to be drawn as one item of a list.
#[derive(Clone, Debug, PartialEq, Eq)]
pub struct RenderedPost {
    pub lines: Vec<Spans>,
}

impl View for RenderedPost {
    type V = Seq<Seq<StyledText>>;

    open spec fn view(&self) -> Seq<Seq<StyledText>> {
        row_views(self.lines@)
    }
}

/// Adds `span` at the end of `spans`.
fn push_span(spans: &mut Vec<Span>, span: Span)
    ensures
        Spans(*final(spans))@ == Spans(*old(spans))@.push(span@),
{
    spans.push(span);
    assert(Spans(*spans)@ == Spans(*old(spans))@.push(span@));
}

/// Adds `row` at the end of `rows`.
fn push_row(rows: &mut Vec<Spans>, row: Spans)
    ensures
        row_views(final(rows)@) == row_views(old(rows)@).push(row@),
{
    rows.push(row);
    assert(row_views(rows@) == row_views(old(rows)@).push(row@));
}

/// The header of a post.
fn format_header(post: &ThreadPost, no: &str) -> (header: Spans)
    ensures
        header@ == header_row(post, no@),
{
    let mut header: Vec<Span> = Vec::new();
    assert(Spans(header)@ == Seq::<StyledText>::empty());
    if !post.sub().is_empty() {
        let subject = format_html(post.sub());
        push_span(
            &mut header,
            Span::styled(format_default(subject.as_str()), Style::default().fg(Color::Red).bold()),
        );
    }
    assert(Spans(header)@ == subject_part(post));
    push_span(&mut header, Span::raw(" "));

    let mut text = format_html(post.name());
    text.append(" ");
    match format_time(post.time()) {
        Some(time) => {
            text.append(time.as_str());
        },
        None => {
            assert(text@ + Seq::<char>::empty() == text@);
        },
    }
    text.append(" No.");
    push_decimal(&mut text, post.no() as u64);
    push_span(&mut header, Span::styled(text, Style::default().italic().underlined()));
    push_span(&mut header, Span::styled(format_default(no), Style::default().fg(Color::Yellow)));
    let ghost middle = seq![
        StyledText { content: " "@, style: Style::plain() },
        StyledText { content: byline(post), style: byline_style() },
        StyledText { content: padded(no@), style: Style::colored(Color::Yellow) },
    ];
    assert(Spans(header)@ == subject_part(post) + middle);

    if post.sticky() == 1 {
        push_span(&mut header, Span::styled(format_default("\u{1F4CC}"), Style::default()));
    }
    let ghost sticky = flag_part(post.sticky, "\u{1F4CC}"@);
    assert(Spans(header)@ == subject_part(post) + middle + sticky);
    if post.closed() == 1 {
        push_span(&mut header, Span::styled(format_default("\u{1F513}"), Style::default()));
    }
    assert(Spans(header)@ == subject_part(post) + middle + sticky + flag_part(
        post.closed,
        "\u{1F513}"@,
    ));
    Spans(header)
}

/// Makes a post ready to be drawn. `no` is the counter shown in its header.
/// The short form, for a list of threads, gives the text fewer rows and
/// adds the count of replies.
pub fn format_post(post: &ThreadPost, no: String, short: bool) -> (item: RenderedPost)
    ensures
        item@ == post_rows(post, no@, short),
{
    let mut lines: Vec<Spans> = Vec::new();
    assert(row_views(lines@) == Seq::<Seq<StyledText>>::empty());
    proof {
        reveal_strlit("");
    }
    assert(""@ == Seq::<char>::empty());
    push_row(&mut lines, Spans::raw(""));
    push_row(&mut lines, format_header(post, no.as_str()));
    let ghost top = seq![empty_row(), header_row(post, no@)];
    assert(row_views(lines@) == top);

    match (post.filename(), post.ext()) {
        (Some(filename), Some(ext)) => {
            let mut name = filename.clone();
            name.append(ext.as_str());
            push_row(
                &mut lines,
                Spans::single(
                    Span::styled(
                        format_default(name.as_str()),
                        Style::default().fg(Color::Cyan).italic(),
                    ),
                ),
            );
        },
        _ => {},
    }
    let ghost attachment = attachment_rows(post);
    assert(row_views(lines@) == top + attachment);

    let limit = if short {
        LIMIT_SHORT
    } else {
        LIMIT_LONG
    };
    let mut cut_com = format_post_contents(post.com(), LEN, limit);
    let ghost body = row_views(cut_com@);
    let ghost before = lines@;
    lines.append(&mut cut_com);
    assert(row_views(lines@) == row_views(before) + body);

    if short {
        let mut replies = String::new();
        push_decimal(&mut replies, post.replies() as u64);
        replies.append(" Replies");
        assert(replies@ == decimal(post.replies as nat) + " Replies"@);
        push_row(
            &mut lines,
            Spans::single(
                Span::styled(
                    format_default(replies.as_str()),
                    Style::default().fg(Color::Magenta).italic(),
                ),
            ),
        );
    }
    let ghost replies = replies_rows(post, short);
    assert(row_views(lines@) == top + attachment + body + replies);

    push_row(&mut lines, Spans::raw(""));
    assert(row_views(lines@) == top + attachment + body + replies + seq![empty_row()]);
    RenderedPost { lines }
}

/// The counter of the short form: the place of the thread in its list and
/// the length of the list, as `no/len`.
pub open spec fn short_counter(no: nat, len: nat) -> Seq<char> {
    decimal(no) + "/"@ + decimal(len)
}

/// The counter of the full form: the place of the post in its thread, as
/// `#no`.
pub open spec fn full_counter(no: nat) -> Seq<char> {
    "#"@ + decimal(no)
}

/// Makes the first post of a thread ready for the list of threads, where
/// it is number `no` of `len`.
pub fn format_post_short(post: &ThreadPost, no: usize, len: usize) -> (item: RenderedPost)
    ensures
        item@ == post_rows(post, short_counter(no as nat, len as nat), true),
{
    let mut counter = String::new();
    push_decimal(&mut counter, no as u64);
    counter.append("/");
    push_decimal(&mut counter, len as u64);
    assert(counter@ == short_counter(no as nat, len as nat));
    format_post(post, counter, true)
}

/// Makes a post ready for the opened thread, where it is number `no`.
pub fn format_post_full(post: &ThreadPost, no: usize) -> (item: RenderedPost)
    ensures
        item@ == post_rows(post, full_counter(no as nat), false),
{
    let mut counter = String::from_str("#");
    push_decimal(&mut counter, no as u64);
    format_post(post, counter, false)
}

/// How a board stands in the list of boards: its short name between
/// slashes, and its title.
pub open spec fn board_row(board: &Board) -> Seq<StyledText> {
    seq![
        StyledText {
            content: padded("/"@ + board.board@ + "/"@),
            style: Style::colored(Color::Magenta),
        },
        StyledText { content: padded(board.title@), style: Style::plain() },
    ]
}

/// Makes a board ready to be drawn as one item of the list of boards.
pub fn format_board(board: &Board) -> (row: Spans)
    ensures
        row@ == board_row(board),
{
    let mut name = String::from_str("/");
    name.append(board.board());
    name.append("/");
    Spans::pair(
        Span::styled(format_default(name.as_str()), Style::default().fg(Color::Magenta)),
        Span::styled(format_default(board.title()), Style::default()),
    )
}

/// The title of the panel of threads: the page that is shown and the
/// description of the board.
pub open spec fn threads_title(page: u8, description: Seq<char>) -> Seq<char> {
    padded("Threads, page "@ + decimal(page as nat) + " "@ + description)
}

/// The title of the panel of threads.
pub fn format_threads_title(thread_list: &ThreadList) -> (title: String)
    ensures
        title@ == threads_title(thread_list.page(), thread_list.description_text()),
{
    let mut title = String::from_str("Threads, page ");
    push_decimal(&mut title, thread_list.cur_page() as u64);
    title.append(" ");
    title.append(thread_list.description());
    format_default(title.as_str())
}

} // verus!
