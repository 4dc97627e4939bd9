//! The help bar: a table of the keys and what they do.

use crate::keybinds::key::{display_key, key_text};
use crate::keybinds::Keybinds;
use crate::strings::texts;
use vstd::prelude::*;
use vstd::string::{StrSliceExecFns, StringExecFns};
use vstd::utf8::encode_utf8;

verus! {

/// The number of bytes that `text` takes as UTF-8.
pub open spec fn byte_len(text: Seq<char>) -> usize {
    encode_utf8(text).len() as usize
}

/// The contents of a table: rows of cells of text.
pub open spec fn table_view(data: Seq<Vec<String>>) -> Seq<Seq<Seq<char>>> {
    data.map_values(|row: Vec<String>| texts(row@))
}

/// The number of bytes of the longest cell in column `col` of `rows`.
pub open spec fn column_width(rows: Seq<Seq<Seq<char>>>, col: int) -> usize
    decreases rows.len(),
{
    if rows.len() == 0 {
        0
    } else {
        let above = column_width(rows.drop_last(), col);
        let row = rows.last();
        if 0 <= col < row.len() && byte_len(row[col]) > above {
            byte_len(row[col])
        } else {
            above
        }
    }
}

/// `n` blanks.
pub open spec fn blanks(n: int) -> Seq<char> {
    Seq::new(
        if n > 0 {
            n as nat
        } else {
            0
        },
        |i: int| ' ',
    )
}

/// A cell as it stands in the table: filled up with blanks to `width`
/// characters where it has fewer, and one blank behind it.
pub open spec fn cell_text(cell: Seq<char>, width: int) -> Seq<char> {
    (cell + blanks(width - cell.len())).push(' ')
}

/// The first `upto` cells of `row`, each laid out three characters wider
/// than the longest cell of its column in `rows` has bytes.
pub open spec fn row_text(rows: Seq<Seq<Seq<char>>>, row: Seq<Seq<char>>, upto: int) -> Seq<char>
    decreases upto,
{
    if upto <= 0 {
        Seq::empty()
    } else {
        row_text(rows, row, upto - 1) + cell_text(row[upto - 1], column_width(rows, upto - 1) + 3)
    }
}

/// The first `upto` rows of the table, with a line feed between one row and
/// the next.
pub open spec fn rows_text(rows: Seq<Seq<Seq<char>>>, upto: int) -> Seq<char>
    decreases upto,
{
    if upto <= 0 {
        Seq::empty()
    } else if upto == 1 {
        row_text(rows, rows[0], rows[0].len() as int)
    } else {
        rows_text(rows, upto - 1) + "\n"@ + row_text(
            rows,
            rows[upto - 1],
            rows[upto - 1].len() as int,
        )
    }
}

/// The table as text, its columns lined up.
pub open spec fn table_text(rows: Seq<Seq<Seq<char>>>) -> Seq<char> {
    rows_text(rows, rows.len() as int)
}

/// The width of every column of `data`.
fn column_widths(data: &Vec<Vec<String>>) -> (widths: Vec<usize>)
    requires
        data.len() > 0,
        forall|r: int| 0 <= r < data.len() ==> (#[trigger] data[r]).len() <= data[0].len(),
    ensures
        widths.len() == data[0].len(),
        forall|c: int|
            0 <= c < widths.len() ==> #[trigger] widths[c] == column_width(table_view(data@), c),
{
    let ghost rows = table_view(data@);
    let columns = data[0].len();
    let mut widths: Vec<usize> = Vec::new();
    while widths.len() < columns
        invariant
            widths.len() <= columns,
            forall|c: int| 0 <= c < widths.len() ==> #[trigger] widths[c] == 0,
        decreases columns - widths.len(),
    {
        widths.push(0);
    }
    let mut r: usize = 0;
    while r < data.len()
        invariant
            r <= data.len(),
            rows == table_view(data@),
            columns == data[0].len(),
            widths.len() == columns,
            forall|r: int| 0 <= r < data.len() ==> (#[trigger] data[r]).len() <= data[0].len(),
            forall|c: int|
                0 <= c < columns ==> #[trigger] widths[c] == column_width(rows.take(r as int), c),
        decreases data.len() - r,
    {
        let row = &data[r];
        let ghost done = rows.take(r as int);
        let ghost next = rows.take(r + 1);
        proof {
            assert(next.drop_last() == done);
            assert(next.last() == texts(row@));
        }
        let mut c: usize = 0;
        while c < row.len()
            invariant
                c <= row.len() <= columns,
                widths.len() == columns,
                next.len() > 0,
                next.drop_last() == done,
                next.last() == texts(row@),
                forall|i: int| 0 <= i < c ==> #[trigger] widths[i] == column_width(next, i),
                forall|i: int| c <= i < columns ==> #[trigger] widths[i] == column_width(done, i),
            decreases row.len() - c,
        {
            let len = row[c].as_str().len();
            assert(texts(row@)[c as int] == row[c as int]@);
            if len > widths[c] {
                widths.set(c, len);
            }
            c += 1;
        }
        r += 1;
    }
    assert(rows.take(r as int) == rows);
    widths
}

/// Adds `cell` to `row`, filled up to `width` characters and three more.
fn push_cell(row: &mut String, cell: &str, width: usize)
    ensures
        final(row)@ == old(row)@ + cell_text(cell@, width + 3),
{
    let ghost before = row@;
    row.append(cell);
    let width: u128 = width as u128 + 3;
    let count = cell.unicode_len();
    let mut k: u128 = count as u128;
    assert(blanks(0) == Seq::<char>::empty());
    assert(before + cell@ + Seq::<char>::empty() == before + cell@);
    while k < width
        invariant
            count == cell@.len(),
            count <= k,
            k <= width || k == count,
            row@ == before + cell@ + blanks(k - count),
        decreases width - k,
    {
        row.push(' ');
        k += 1;
        assert(blanks(k - count) == blanks(k - 1 - count).push(' '));
    }
    row.push(' ');
    proof {
        let fill = blanks(width - count);
        assert(blanks(k - count) == fill);
        assert((before + cell@ + fill).push(' ') == before + (cell@ + fill).push(' '));
    }
}

/// Lays out rows of cells as a table with its columns lined up. No row may
/// hold more cells than the first one.
pub fn format_table(data: &Vec<Vec<String>>) -> (table: String)
    requires
        data.len() > 0,
        forall|r: int| 0 <= r < data.len() ==> (#[trigger] data[r]).len() <= data[0].len(),
    ensures
        table@ == table_text(table_view(data@)),
{
    let ghost rows = table_view(data@);
    let widths = column_widths(data);
    let mut table = String::new();
    let mut r: usize = 0;
    while r < data.len()
        invariant
            r <= data.len(),
            rows == table_view(data@),
            widths.len() == data[0].len(),
            forall|r: int| 0 <= r < data.len() ==> (#[trigger] data[r]).len() <= data[0].len(),
            forall|c: int| 0 <= c < widths.len() ==> #[trigger] widths[c] == column_width(rows, c),
            table@ == rows_text(rows, r as int),
        decreases data.len() - r,
    {
        let row = &data[r];
        let ghost above = table@;
        if r > 0 {
            table.append("\n");
        }
        let ghost start = table@;
        assert(rows[r as int] == texts(row@));
        let mut c: usize = 0;
        assert(start + Seq::<char>::empty() == start);
        while c < row.len()
            invariant
                c <= row.len() <= widths.len(),
                rows[r as int] == texts(row@),
                forall|c: int|
                    0 <= c < widths.len() ==> #[trigger] widths[c] == column_width(rows, c),
                table@ == start + row_text(rows, rows[r as int], c as int),
            decreases row.len() - c,
        {
            let ghost line = row_text(rows, rows[r as int], c as int);
            assert(texts(row@)[c as int] == row[c as int]@);
            push_cell(&mut table, row[c].as_str(), widths[c]);
            proof {
                let cell = cell_text(row[c as int]@, widths[c as int] + 3);
                assert(start + line + cell == start + (line + cell));
            }
            c += 1;
        }
        proof {
            let line = row_text(rows, rows[r as int], row.len() as int);
            if r == 0 {
                assert(above == Seq::<char>::empty());
                assert(above + line == line);
            } else if r == 1 {
                assert(rows_text(rows, 1) == row_text(rows, rows[0], rows[0].len() as int));
            }
        }
        r += 1;
    }
    table
}

/// Four keys in a row, with commas between them.
pub open spec fn four_keys(a: Seq<char>, b: Seq<char>, c: Seq<char>, d: Seq<char>) -> Seq<char> {
    a + ", "@ + b + ", "@ + c + ", "@ + d
}

/// The table of the help bar: what can be done, each with its key.
pub open spec fn help_table(keys: Keybinds) -> Seq<Seq<Seq<char>>> {
    seq![
        seq![
            "move around:"@,
            four_keys(
                key_text(keys.up),
                key_text(keys.down),
                key_text(keys.left),
                key_text(keys.right),
            ),
            "toggle help bar:"@,
            key_text(keys.help),
        ],
        seq![
            "move quickly:"@,
            four_keys(
                key_text(keys.quick_up),
                key_text(keys.quick_down),
                key_text(keys.quick_left),
                key_text(keys.quick_right),
            ),
            "copy thread/post url:"@,
            key_text(keys.copy_thread),
        ],
        seq![
            "toggle fullscreen:"@,
            key_text(keys.fullscreen),
            "copy media url:"@,
            key_text(keys.copy_media),
        ],
        seq![
            "next page:"@,
            key_text(keys.page_next),
            "open thread/post in browser"@,
            key_text(keys.open_thread),
        ],
        seq![
            "previous page:"@,
            key_text(keys.page_previous),
            "reload page:"@,
            key_text(keys.reload),
        ],
        seq!["quit:"@, key_text(keys.quit), "open media url in browser:"@, key_text(keys.open_media)],
    ]
}

/// The title of the help bar, which names the key that shows and hides it.
pub open spec fn help_title(keys: Keybinds) -> Seq<char> {
    "Help (\""@ + key_text(keys.help) + "\" to toggle)"@
}

/// The text of the help bar: the table of keys, where the keys can be
/// changed, and how a board or thread is entered.
pub open spec fn help_text(keys: Keybinds) -> Seq<char> {
    "\n                "@ + table_text(help_table(keys))
        + "\n                Controls can be changed in ~/.config/tui-chan/keybinds.conf\n                Note: to enter the board/thread use \""@
        + key_text(keys.right) + "\"\n            "@
}

/// A row of four cells.
fn row_of(a: String, b: String, c: String, d: String) -> (row: Vec<String>)
    ensures
        row.len() == 4,
        texts(row@) == seq![a@, b@, c@, d@],
{
    let mut row: Vec<String> = Vec::new();
    row.push(a);
    row.push(b);
    row.push(c);
    row.push(d);
    assert(texts(row@) == seq![a@, b@, c@, d@]);
    row
}

/// Four keys in a row, with commas between them.
fn keys_in_a_row(a: &str, b: &str, c: &str, d: &str) -> (text: String)
    ensures
        text@ == four_keys(a@, b@, c@, d@),
{
    let mut text = String::from_str(a);
    text.append(", ");
    text.append(b);
    text.append(", ");
    text.append(c);
    text.append(", ");
    text.append(d);
    text
}

/// The bar that explains the keys. It is shown on request.
#[derive(Debug, PartialEq, Eq)]
pub struct HelpBar {
    shown: bool,
    title: String,
    text: String,
}

impl HelpBar {
    /// Whether the bar is on the screen.
    pub closed spec fn is_shown(&self) -> bool {
        self.shown
    }

    /// The title of the bar.
    pub closed spec fn title_text(&self) -> Seq<char> {
        self.title@
    }

    /// The text of the bar.
    pub closed spec fn body_text(&self) -> Seq<char> {
        self.text@
    }

    /// The help bar for the keys `keybinds`, not shown yet.
    pub fn new(keybinds: &Keybinds) -> (bar: HelpBar)
        ensures
            !bar.is_shown(),
            bar.title_text() == help_title(*keybinds),
            bar.body_text() == help_text(*keybinds),
    {
        let up = display_key(&keybinds.up);
        let down = display_key(&keybinds.down);
        let left = display_key(&keybinds.left);
        let right = display_key(&keybinds.right);
        let quick_up = display_key(&keybinds.quick_up);
        let quick_down = display_key(&keybinds.quick_down);
        let quick_left = display_key(&keybinds.quick_left);
        let quick_right = display_key(&keybinds.quick_right);
        let help = display_key(&keybinds.help);

        let mut table: Vec<Vec<String>> = Vec::new();
        table.push(
            row_of(
                String::from_str("move around:"),
                keys_in_a_row(up.as_str(), down.as_str(), left.as_str(), right.as_str()),
                String::from_str("toggle help bar:"),
                help.clone(),
            ),
        );
        table.push(
            row_of(
                String::from_str("move quickly:"),
                keys_in_a_row(
                    quick_up.as_str(),
                    quick_down.as_str(),
                    quick_left.as_str(),
                    quick_right.as_str(),
                ),
                String::from_str("copy thread/post url:"),
                display_key(&keybinds.copy_thread),
            ),
        );
        table.push(
            row_of(
                String::from_str("toggle fullscreen:"),
                display_key(&keybinds.fullscreen),
                String::from_str("copy media url:"),
                display_key(&keybinds.copy_media),
            ),
        );
        table.push(
            row_of(
                String::from_str("next page:"),
                display_key(&keybinds.page_next),
                String::from_str("open thread/post in browser"),
                display_key(&keybinds.open_thread),
            ),
        );
        table.push(
            row_of(
                String::from_str("previous page:"),
                display_key(&keybinds.page_previous),
                String::from_str("reload page:"),
                display_key(&keybinds.reload),
            ),
        );
        table.push(
            row_of(
                String::from_str("quit:"),
                display_key(&keybinds.quit),
                String::from_str("open media url in browser:"),
                display_key(&keybinds.open_media),
            ),
        );
        assert(table_view(table@) == help_table(*keybinds));

        let mut text = String::from_str("\n                ");
        let table = format_table(&table);
        text.append(table.as_str());
        text.append(
            "\n                Controls can be changed in ~/.config/tui-chan/keybinds.conf\n                Note: to enter the board/thread use \"",
        );
        text.append(right.as_str());
        text.append("\"\n            ");

        let mut title = String::from_str("Help (\"");
        title.append(help.as_str());
        title.append("\" to toggle)");

        HelpBar { shown: false, title, text }
    }

    pub fn shown(&self) -> (shown: bool)
        ensures
            shown == self.is_shown(),
    {
        self.shown
    }

    /// Shows the bar if it is hidden and hides it if it is shown.
    pub fn toggle_shown(&mut self)
        ensures
            final(self).is_shown() == !old(self).is_shown(),
            final(self).title_text() == old(self).title_text(),
            final(self).body_text() == old(self).body_text(),
    {
        self.shown = !self.shown;
    }

    pub fn title(&self) -> (title: &String)
        ensures
            title@ == self.title_text(),
    {
        &self.title
    }

    pub fn text(&self) -> (text: &String)
        ensures
            text@ == self.body_text(),
    {
        &self.text
    }
}

} // verus!
