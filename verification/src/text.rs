//! Styled text: what a panel is asked to draw.

use crate::style::Style;
use vstd::prelude::*;
use vstd::string::StringExecFns;

verus! {

/// A run of text in one style.
#[derive(Clone, Debug, PartialEq, Eq)]
pub struct Span {
    pub content: String,
    pub style: Style,
}

/// The view of a `Span`: its text as a sequence of characters, and its style.
pub struct StyledText {
    pub content: Seq<char>,
    pub style: Style,
}

impl View for Span {
    type V = StyledText;

    open spec fn view(&self) -> StyledText {
        StyledText { content: self.content@, style: self.style }
    }
}

impl Span {
    /// `content` without any style of its own.
    pub fn raw(content: &str) -> (span: Span)
        ensures
            span@ == (StyledText { content: content@, style: Style::plain() }),
    {
        Span { content: String::from_str(content), style: Style::default() }
    }

    /// `content` in the style `style`.
    pub fn styled(content: String, style: Style) -> (span: Span)
        ensures
            span@ == (StyledText { content: content@, style }),
    {
        Span { content, style }
    }
}

/// One row of text: runs of styled text, from left to right.
#[derive(Clone, Debug, PartialEq, Eq)]
pub struct Spans(pub Vec<Span>);

impl View for Spans {
    type V = Seq<StyledText>;

    open spec fn view(&self) -> Seq<StyledText> {
        self.0@.map_values(|span: Span| span@)
    }
}

impl Spans {
    /// The row that holds `span` alone.
    pub fn single(span: Span) -> (row: Spans)
        ensures
            row@ == seq![span@],
    {
        let mut spans: Vec<Span> = Vec::new();
        spans.push(span);
        assert(spans@.map_values(|span: Span| span@) == seq![span@]);
        Spans(spans)
    }

    /// The row of unstyled text `content`.
    pub fn raw(content: &str) -> (row: Spans)
        ensures
            row@ == seq![StyledText { content: content@, style: Style::plain() }],
    {
        Spans::single(Span::raw(content))
    }

    /// The row that holds `first` and then `second`.
    pub fn pair(first: Span, second: Span) -> (row: Spans)
        ensures
            row@ == seq![first@, second@],
    {
        let mut spans: Vec<Span> = Vec::new();
        spans.push(first);
        spans.push(second);
        assert(spans@.map_values(|span: Span| span@) == seq![first@, second@]);
        Spans(spans)
    }
}

/// The views of a list of rows.
pub open spec fn row_views(rows: Seq<Spans>) -> Seq<Seq<StyledText>> {
    rows.map_values(|row: Spans| row@)
}

} // verus!
