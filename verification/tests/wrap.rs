use tui_chan::format::{plain_lines, LineType};
use tui_chan::wrap::{wrap_lines, WrappedLine};

fn line(line_type: LineType, text: &str) -> WrappedLine {
    WrappedLine { line_type, text: text.to_string(), cut: false }
}

fn cut(line_type: LineType, text: &str) -> WrappedLine {
    WrappedLine { line_type, text: text.to_string(), cut: true }
}

fn lines(texts: &[&str]) -> Vec<String> {
    texts.iter().map(|text| text.to_string()).collect()
}

#[test]
fn wrap_four_lines_whole() {
    let post = plain_lines("line one<br>>greentext<br><br>line four");
    assert_eq!(
        wrap_lines(&post, 100, 10),
        vec![
            line(LineType::Text, "line one"),
            line(LineType::Greentext, ">greentext"),
            line(LineType::Text, ""),
            line(LineType::Text, "line four"),
        ]
    );
}

#[test]
fn wrap_long_line_is_cut() {
    let text = "abcdefghij".repeat(30);
    assert_eq!(text.chars().count(), 300);
    let rows = wrap_lines(&plain_lines(&text), 50, 2);
    assert_eq!(rows.len(), 2);
    assert_eq!(rows[0], line(LineType::Text, &text[0..50]));
    assert_eq!(rows[1], cut(LineType::Text, &text[50..95]));
    assert!(rows[1].text.chars().count() + "[...]".chars().count() <= 50);
}

#[test]
fn wrap_counts_characters_not_bytes() {
    let text = "\u{e4}\u{f6}\u{fc}\u{df}\u{20ac}\u{1F4CC}xyz";
    let rows = wrap_lines(&lines(&[text]), 4, 10);
    assert_eq!(
        rows,
        vec![
            line(LineType::Text, "\u{e4}\u{f6}\u{fc}\u{df}"),
            line(LineType::Text, "\u{20ac}\u{1F4CC}xy"),
            line(LineType::Text, "z"),
        ]
    );
    for row in &rows {
        assert!(row.text.chars().count() <= 4);
    }
}

#[test]
fn wrap_rows_never_exceed_width() {
    let post = lines(&["", "a", "0123456789", ">>0123456789012345678901234567890", "\u{e9}\u{e9}\u{e9}"]);
    for width in 1..12 {
        for limit in 0..12 {
            let rows = wrap_lines(&post, width, limit);
            assert!(rows.len() <= limit.max(1));
            for (i, row) in rows.iter().enumerate() {
                assert!(row.text.chars().count() <= width);
                assert_eq!(row.cut, i + 1 == limit.max(1));
                if row.cut && width >= 5 {
                    assert!(row.text.chars().count() + 5 <= width);
                }
                if row.cut && width < 5 {
                    assert_eq!(row.text, "");
                }
            }
        }
    }
}

#[test]
fn wrap_line_that_fits_exactly() {
    assert_eq!(
        wrap_lines(&lines(&["abcdef"]), 3, 10),
        vec![line(LineType::Text, "abc"), line(LineType::Text, "def")]
    );
    assert_eq!(wrap_lines(&lines(&["abc"]), 3, 10), vec![line(LineType::Text, "abc")]);
}

#[test]
fn wrap_cut_takes_the_last_place() {
    // three rows of text that may take three rows: the third is cut
    assert_eq!(
        wrap_lines(&lines(&["0123456789", "abcdefgh"]), 10, 2),
        vec![line(LineType::Text, "0123456789"), cut(LineType::Text, "abc")]
    );
    assert_eq!(
        wrap_lines(&lines(&["0123456789", "abcdefgh"]), 10, 3),
        vec![line(LineType::Text, "0123456789"), line(LineType::Text, "abcdefgh")]
    );
}

#[test]
fn wrap_cut_of_a_short_piece_keeps_nothing() {
    assert_eq!(
        wrap_lines(&lines(&["0123456789abc"]), 10, 2),
        vec![line(LineType::Text, "0123456789"), cut(LineType::Text, "")]
    );
    assert_eq!(wrap_lines(&lines(&["", "x"]), 10, 1), vec![cut(LineType::Text, "")]);
}

#[test]
fn wrap_with_no_row_allowed_gives_one() {
    assert_eq!(wrap_lines(&lines(&[">0123456789"]), 20, 0), vec![cut(LineType::Greentext, ">01234")]);
    assert_eq!(wrap_lines(&lines(&[">0123456789"]), 20, 1), vec![cut(LineType::Greentext, ">01234")]);
}

#[test]
fn wrap_with_no_width() {
    assert_eq!(
        wrap_lines(&lines(&["abc"]), 0, 3),
        vec![line(LineType::Text, ""), line(LineType::Text, ""), cut(LineType::Text, "")]
    );
    assert_eq!(wrap_lines(&lines(&[""]), 0, 3), vec![line(LineType::Text, "")]);
}

#[test]
fn wrap_nothing() {
    assert_eq!(wrap_lines(&Vec::new(), 10, 10), Vec::new());
}
