use tui_chan::help::{format_table, HelpBar};
use tui_chan::keybinds::key::Key;
use tui_chan::keybinds::Keybinds;

fn table(rows: &[&[&str]]) -> Vec<Vec<String>> {
    rows.iter().map(|row| row.iter().map(|cell| cell.to_string()).collect()).collect()
}

#[test]
fn table_columns_are_lined_up() {
    assert_eq!(
        format_table(&table(&[&["a", "bcd"], &["efgh", "i"]])),
        "a       bcd    \nefgh    i      "
    );
}

#[test]
fn table_of_one_cell() {
    assert_eq!(format_table(&table(&[&["key"]])), "key    ");
    assert_eq!(format_table(&table(&[&[""]])), "    ");
}

#[test]
fn table_with_short_rows() {
    assert_eq!(format_table(&table(&[&["a", "b"], &["cc"], &[]])), "a     b    \ncc    \n");
    let empty: &[&str] = &[];
    assert_eq!(format_table(&table(&[empty, empty])), "\n");
}

#[test]
fn table_widths_count_bytes() {
    // the column is as wide as the bytes of its longest cell and three more
    assert_eq!(
        format_table(&table(&[&["\u{e4}\u{e4}", "x"], &["ab", "y"]])),
        "\u{e4}\u{e4}      x    \nab      y    "
    );
}

#[test]
fn help_bar_for_the_default_keys() {
    let mut bar = HelpBar::new(&Keybinds::default_keys());
    assert!(!bar.shown());
    assert_eq!(bar.title(), "Help (\"h\" to toggle)");
    let rows: [[&str; 4]; 6] = [
        ["move around:", "w, s, a, d", "toggle help bar:", "h"],
        ["move quickly:", "Ctrl w, Ctrl s, Ctrl a, Ctrl d", "copy thread/post url:", "c"],
        ["toggle fullscreen:", "z", "copy media url:", "Ctrl c"],
        ["next page:", "p", "open thread/post in browser", "o"],
        ["previous page:", "Ctrl p", "reload page:", "r"],
        ["quit:", "q", "open media url in browser:", "Ctrl o"],
    ];
    let widths = [18 + 3, 30 + 3, 27 + 3, 6 + 3];
    let mut lines = Vec::new();
    for row in rows {
        let mut line = String::new();
        for (cell, width) in row.iter().zip(widths) {
            line += &format!("{:<width$} ", cell, width = width);
        }
        lines.push(line);
    }
    let expected = format!(
        "\n                {}\n                Controls can be changed in ~/.config/tui-chan/keybinds.conf\n                Note: to enter the board/thread use \"d\"\n            ",
        lines.join("\n")
    );
    assert!(expected.starts_with(
        "\n                move around:          w, s, a, d                        toggle help bar:               h         \nmove quickly: "
    ));
    assert_eq!(bar.text(), &expected);
    bar.toggle_shown();
    assert!(bar.shown());
    bar.toggle_shown();
    assert!(!bar.shown());
    assert_eq!(bar.title(), "Help (\"h\" to toggle)");
}

#[test]
fn help_bar_names_the_bound_keys() {
    let keys = Keybinds { help: Key::Ctrl('h'), right: Key::Right, ..Keybinds::default_keys() };
    let bar = HelpBar::new(&keys);
    assert_eq!(bar.title(), "Help (\"Ctrl h\" to toggle)");
    assert!(bar.text().contains("move around:          w, s, a, Right "));
    assert!(bar.text().ends_with("Note: to enter the board/thread use \"Right\"\n            "));
}
