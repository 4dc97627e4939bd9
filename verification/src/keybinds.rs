//! The keys that the browser is worked with, and the file that sets them.
//!
//! The keybinds file holds one keybind to a line, as `name=keybind`. Empty
//! lines and lines that start with `#` are passed over. A name that the
//! browser does not know is read and then ignored. A name that the file does
//! not hold keeps its built-in key.

pub mod key;

use crate::keybinds::key::{display_key, key_of, key_text, parse_keybind, Key, ParseErrorKind};
use crate::strings::{lines_of, split_on, split_on_char, text_lines, texts, trim, trimmed};
use vstd::prelude::*;
use vstd::string::{StrSliceExecFns, StringExecFns};

verus! {

/// Why the keybinds file could not be read.
#[derive(Clone, Debug, PartialEq, Eq)]
pub enum KeybindsError {
    /// A keybind could not be read.
    Parse {
        /// The number of the line, counted from 1.
        line_no: usize,
        /// What is wrong with the keybind.
        kind: ParseErrorKind,
        /// The name that the line gives the keybind to.
        name: String,
        /// The keybind as the line holds it.
        keybind: String,
    },
    /// A name was given a keybind before.
    KeybindAlreadyDefined { line_no: usize, name: String },
    /// Nothing stands before the `=` of a line.
    NoName { line_no: usize },
    /// Nothing stands behind the name of a line.
    NoValue { line_no: usize },
}

/// What a `KeybindsError` says, with its texts as sequences of characters.
pub enum KeybindsFault {
    Parse { line_no: usize, kind: ParseErrorKind, name: Seq<char>, keybind: Seq<char> },
    KeybindAlreadyDefined { line_no: usize, name: Seq<char> },
    NoName { line_no: usize },
    NoValue { line_no: usize },
}

impl View for KeybindsError {
    type V = KeybindsFault;

    open spec fn view(&self) -> KeybindsFault {
        match self {
            KeybindsError::Parse { line_no, kind, name, keybind } => KeybindsFault::Parse {
                line_no: *line_no,
                kind: *kind,
                name: name@,
                keybind: keybind@,
            },
            KeybindsError::KeybindAlreadyDefined {
                line_no,
                name,
            } => KeybindsFault::KeybindAlreadyDefined { line_no: *line_no, name: name@ },
            KeybindsError::NoName { line_no } => KeybindsFault::NoName { line_no: *line_no },
            KeybindsError::NoValue { line_no } => KeybindsFault::NoValue { line_no: *line_no },
        }
    }
}

/// The names of a keybinds file with their keys, in the order of the file.
pub type KeyMap = Vec<(String, Key)>;

/// The names and keys of a `KeyMap`, the names as sequences of characters.
pub open spec fn key_map_view(map: Seq<(String, Key)>) -> Seq<(Seq<char>, Key)> {
    map.map_values(|entry: (String, Key)| (entry.0@, entry.1))
}

/// The key that `map` holds for `name`.
pub open spec fn bound_key(map: Seq<(Seq<char>, Key)>, name: Seq<char>) -> Option<Key>
    decreases map.len(),
{
    if map.len() == 0 {
        None
    } else if map[0].0 == name {
        Some(map[0].1)
    } else {
        bound_key(map.skip(1), name)
    }
}

/// Whether a line of the file holds no keybind: it is empty or a comment.
pub open spec fn is_passed_over(line: Seq<char>) -> bool {
    line.len() == 0 || line[0] == '#'
}

/// What reading one more line makes of `map`. The line holds a name, `=`
/// and a keybind, with white space round either as one likes. What follows
/// a second `=` is not read.
pub open spec fn read_line(map: Seq<(Seq<char>, Key)>, line: Seq<char>, line_no: usize) -> Result<
    Seq<(Seq<char>, Key)>,
    KeybindsFault,
> {
    let fields = split_on(line, '=');
    let name = trimmed(fields[0]);
    if is_passed_over(line) {
        Ok(map)
    } else if fields[0].len() == 0 {
        Err(KeybindsFault::NoName { line_no })
    } else if bound_key(map, name) is Some {
        Err(KeybindsFault::KeybindAlreadyDefined { line_no, name })
    } else if fields.len() < 2 || fields[1].len() == 0 {
        Err(KeybindsFault::NoValue { line_no })
    } else {
        let keybind = trimmed(fields[1]);
        match key_of(keybind) {
            Ok(key) => Ok(map.push((name, key))),
            Err(kind) => Err(KeybindsFault::Parse { line_no, kind, name, keybind }),
        }
    }
}

/// What reading `lines` makes of `map`, where the first of them is line
/// `line_no` of the file. The first line that is wrong ends the reading.
pub open spec fn read_lines(
    map: Seq<(Seq<char>, Key)>,
    lines: Seq<Seq<char>>,
    line_no: int,
) -> Result<Seq<(Seq<char>, Key)>, KeybindsFault>
    decreases lines.len(),
{
    if lines.len() == 0 {
        Ok(map)
    } else {
        match read_line(map, lines[0], line_no as usize) {
            Ok(map) => read_lines(map, lines.skip(1), line_no + 1),
            Err(fault) => Err(fault),
        }
    }
}

/// The names and keys that the keybinds file `file` holds.
pub open spec fn key_map_of(file: Seq<char>) -> Result<Seq<(Seq<char>, Key)>, KeybindsFault> {
    read_lines(Seq::empty(), text_lines(file), 1)
}

/// Looks up the key that `map` holds for `name`.
pub fn find_key(map: &KeyMap, name: &str) -> (key: Option<Key>)
    ensures
        key == bound_key(key_map_view(map@), name@),
{
    let ghost all = key_map_view(map@);
    let wanted = String::from_str(name);
    let mut k: usize = 0;
    assert(all.skip(0) == all);
    while k < map.len()
        invariant
            k <= map.len(),
            all == key_map_view(map@),
            wanted@ == name@,
            bound_key(all, name@) == bound_key(all.skip(k as int), name@),
        decreases map.len() - k,
    {
        proof {
            assert(all.skip(k as int)[0] == (map[k as int].0@, map[k as int].1));
            assert(all.skip(k as int).skip(1) == all.skip(k + 1));
        }
        if map[k].0 == wanted {
            return Some(map[k].1);
        }
        k += 1;
    }
    None
}

/// Reads a keybinds file into its names and keys.
pub fn parse_keymap_file(file: &str) -> (keymap: Result<KeyMap, KeybindsError>)
    ensures
        match keymap {
            Ok(map) => key_map_of(file@) == Ok::<_, KeybindsFault>(key_map_view(map@)),
            Err(error) => key_map_of(file@) == Err::<Seq<(Seq<char>, Key)>, _>(error@),
        },
{
    let lines = lines_of(file);
    let ghost all = texts(lines@);
    let mut keymap: KeyMap = Vec::new();
    let mut k: usize = 0;
    assert(all.skip(0) == all);
    assert(key_map_view(keymap@) == Seq::<(Seq<char>, Key)>::empty());
    while k < lines.len()
        invariant
            k <= lines.len(),
            all == texts(lines@),
            all == text_lines(file@),
            key_map_of(file@) == read_lines(key_map_view(keymap@), all.skip(k as int), k + 1),
        decreases lines.len() - k,
    {
        let line = lines[k].as_str();
        let line_no = k + 1;
        let ghost map = key_map_view(keymap@);
        proof {
            assert(all.skip(k as int)[0] == line@);
            assert(all.skip(k as int).skip(1) == all.skip(k + 1));
        }
        if !(line.is_empty() || line.get_char(0) == '#') {
            let fields = split_on_char(line, '=');
            assert(texts(fields@)[0] == fields[0]@);
            if fields[0].as_str().is_empty() {
                return Err(KeybindsError::NoName { line_no });
            }
            let name = trim(fields[0].as_str());
            if find_key(&keymap, name.as_str()).is_some() {
                return Err(KeybindsError::KeybindAlreadyDefined { line_no, name });
            }
            if fields.len() < 2 {
                return Err(KeybindsError::NoValue { line_no });
            }
            assert(texts(fields@)[1] == fields[1]@);
            if fields[1].as_str().is_empty() {
                return Err(KeybindsError::NoValue { line_no });
            }
            let keybind = trim(fields[1].as_str());
            match parse_keybind(keybind.as_str()) {
                Ok(key) => {
                    keymap.push((name, key));
                    assert(key_map_view(keymap@) == map.push((name@, key)));
                },
                Err(kind) => {
                    return Err(KeybindsError::Parse { line_no, kind, name, keybind });
                },
            }
        }
        k += 1;
    }
    Ok(keymap)
}

/// What a key press asks the browser to do.
#[derive(Clone, Copy, Debug, PartialEq, Eq)]
pub enum Action {
    Up,
    Down,
    Left,
    Right,
    QuickUp,
    QuickDown,
    QuickLeft,
    QuickRight,
    PageNext,
    PagePrevious,
    CopyThread,
    OpenThread,
    CopyMedia,
    OpenMedia,
    Fullscreen,
    Reload,
    Help,
    Quit,
}

/// The key for each thing that the browser can be asked to do.
#[derive(Clone, Copy, Debug, PartialEq, Eq)]
pub struct Keybinds {
    /// Move up
    pub up: Key,
    /// Move down
    pub down: Key,
    /// Move left
    pub left: Key,
    /// Move right
    pub right: Key,
    /// Move up quickly
    pub quick_up: Key,
    /// Move down quickly
    pub quick_down: Key,
    /// Move left quickly
    pub quick_left: Key,
    /// Move right quickly
    pub quick_right: Key,
    /// Next page
    pub page_next: Key,
    /// Previous page
    pub page_previous: Key,
    /// Copy the direct url to the selected thread or post
    pub copy_thread: Key,
    /// Open the selected thread or post in browser
    pub open_thread: Key,
    /// Copy the selected post media (image/webm) url
    pub copy_media: Key,
    /// Open the selected post media (image/webm) in browser
    pub open_media: Key,
    /// Toggle fullscreen for the selected panel
    pub fullscreen: Key,
    /// Reload page
    pub reload: Key,
    /// Toggle help bar
    pub help: Key,
    /// Quit
    pub quit: Key,
}

/// The key that `map` holds for `name`, or `default` where it holds none.
pub open spec fn key_or(map: Seq<(Seq<char>, Key)>, name: Seq<char>, default: Key) -> Key {
    match bound_key(map, name) {
        Some(key) => key,
        None => default,
    }
}

/// The entry of the keybinds file that gives `name` the key `key`, under a
/// comment that says what the key does.
pub open spec fn entry_text(description: Seq<char>, name: Seq<char>, key: Key) -> Seq<char> {
    "#"@ + description + "\n"@ + name + "="@ + key_text(key) + "\n"@
}

/// Looks up the key that `map` holds for `name`, with `default` for a name
/// that it does not hold.
fn key_or_default(map: &KeyMap, name: &str, default: Key) -> (key: Key)
    ensures
        key == key_or(key_map_view(map@), name@, default),
{
    match find_key(map, name) {
        Some(key) => key,
        None => default,
    }
}

/// Adds the entry for `name` to the text of a keybinds file.
fn push_entry(contents: &mut String, description: &str, name: &str, key: Key)
    ensures
        final(contents)@ == old(contents)@ + entry_text(description@, name@, key),
{
    let ghost before = contents@;
    contents.append("#");
    contents.append(description);
    contents.append("\n");
    contents.append(name);
    contents.append("=");
    let text = display_key(&key);
    contents.append(text.as_str());
    contents.append("\n");
    assert(contents@ == before + entry_text(description@, name@, key));
}

impl Keybinds {
    /// The built-in keys.
    pub open spec fn defaults() -> Keybinds {
        Keybinds {
            up: Key::Char('w'),
            down: Key::Char('s'),
            left: Key::Char('a'),
            right: Key::Char('d'),
            quick_up: Key::Ctrl('w'),
            quick_down: Key::Ctrl('s'),
            quick_left: Key::Ctrl('a'),
            quick_right: Key::Ctrl('d'),
            page_next: Key::Char('p'),
            page_previous: Key::Ctrl('p'),
            copy_thread: Key::Char('c'),
            open_thread: Key::Char('o'),
            copy_media: Key::Ctrl('c'),
            open_media: Key::Ctrl('o'),
            fullscreen: Key::Char('z'),
            reload: Key::Char('r'),
            help: Key::Char('h'),
            quit: Key::Char('q'),
        }
    }

    /// The keys that the names of `map` set, with the built-in key for every
    /// name that `map` does not hold.
    pub open spec fn from_map(map: Seq<(Seq<char>, Key)>) -> Keybinds {
        let defaults = Keybinds::defaults();
        Keybinds {
            up: key_or(map, "up"@, defaults.up),
            down: key_or(map, "down"@, defaults.down),
            left: key_or(map, "left"@, defaults.left),
            right: key_or(map, "right"@, defaults.right),
            quick_up: key_or(map, "quick_up"@, defaults.quick_up),
            quick_down: key_or(map, "quick_down"@, defaults.quick_down),
            quick_left: key_or(map, "quick_left"@, defaults.quick_left),
            quick_right: key_or(map, "quick_right"@, defaults.quick_right),
            page_next: key_or(map, "page_next"@, defaults.page_next),
            page_previous: key_or(map, "page_previous"@, defaults.page_previous),
            copy_thread: key_or(map, "copy_thread"@, defaults.copy_thread),
            open_thread: key_or(map, "open_thread"@, defaults.open_thread),
            copy_media: key_or(map, "copy_media"@, defaults.copy_media),
            open_media: key_or(map, "open_media"@, defaults.open_media),
            fullscreen: key_or(map, "fullscreen"@, defaults.fullscreen),
            reload: key_or(map, "reload"@, defaults.reload),
            help: key_or(map, "help"@, defaults.help),
            quit: key_or(map, "quit"@, defaults.quit),
        }
    }

    /// The keys that the keybinds file `file` sets, or what is wrong with
    /// the file.
    pub open spec fn of_file(file: Seq<char>) -> Result<Keybinds, KeybindsFault> {
        match key_map_of(file) {
            Ok(map) => Ok(Keybinds::from_map(map)),
            Err(fault) => Err(fault),
        }
    }

    /// The text of a keybinds file that sets every key to its built-in one.
    pub open spec fn default_file_text() -> Seq<char> {
        let keys = Keybinds::defaults();
        "# Keybinds for tui-chan\n# https://github.com/tuqqu/tui-chan\n\n"@ + entry_text(
            " Move up"@,
            "up"@,
            keys.up,
        ) + entry_text(" Move down"@, "down"@, keys.down) + entry_text(
            " Move left"@,
            "left"@,
            keys.left,
        ) + entry_text(" Move right"@, "right"@, keys.right) + entry_text(
            " Move up quickly"@,
            "quick_up"@,
            keys.quick_up,
        ) + entry_text(" Move down quickly"@, "quick_down"@, keys.quick_down) + entry_text(
            " Move left quickly"@,
            "quick_left"@,
            keys.quick_left,
        ) + entry_text(" Move right quickly"@, "quick_right"@, keys.quick_right) + entry_text(
            " Next page"@,
            "page_next"@,
            keys.page_next,
        ) + entry_text(" Previous page"@, "page_previous"@, keys.page_previous) + entry_text(
            " Copy the direct url to the selected thread or post"@,
            "copy_thread"@,
            keys.copy_thread,
        ) + entry_text(
            " Open the selected thread or post in browser"@,
            "open_thread"@,
            keys.open_thread,
        ) + entry_text(
            " Copy the selected post media (image/webm) url"@,
            "copy_media"@,
            keys.copy_media,
        ) + entry_text(
            " Open the selected post media (image/webm) in browser"@,
            "open_media"@,
            keys.open_media,
        ) + entry_text(
            " Toggle fullscreen for the selected panel"@,
            "fullscreen"@,
            keys.fullscreen,
        ) + entry_text(" Reload page"@, "reload"@, keys.reload) + entry_text(
            " Toggle help bar"@,
            "help"@,
            keys.help,
        ) + entry_text(" Quit"@, "quit"@, keys.quit)
    }

    /// The built-in keys.
    pub fn default_keys() -> (keys: Keybinds)
        ensures
            keys == Keybinds::defaults(),
    {
        Keybinds {
            up: Key::Char('w'),
            down: Key::Char('s'),
            left: Key::Char('a'),
            right: Key::Char('d'),
            quick_up: Key::Ctrl('w'),
            quick_down: Key::Ctrl('s'),
            quick_left: Key::Ctrl('a'),
            quick_right: Key::Ctrl('d'),
            page_next: Key::Char('p'),
            page_previous: Key::Ctrl('p'),
            copy_thread: Key::Char('c'),
            open_thread: Key::Char('o'),
            copy_media: Key::Ctrl('c'),
            open_media: Key::Ctrl('o'),
            fullscreen: Key::Char('z'),
            reload: Key::Char('r'),
            help: Key::Char('h'),
            quit: Key::Char('q'),
        }
    }

    /// Reads the keys from the text of a keybinds file. A name that the file
    /// does not hold keeps its built-in key.
    pub fn parse_from_file(file: &str) -> (keys: Result<Keybinds, KeybindsError>)
        ensures
            match keys {
                Ok(keys) => Keybinds::of_file(file@) == Ok::<_, KeybindsFault>(keys),
                Err(error) => Keybinds::of_file(file@) == Err::<Keybinds, _>(error@),
            },
    {
        let keymap = match parse_keymap_file(file) {
            Ok(keymap) => keymap,
            Err(error) => {
                return Err(error);
            },
        };
        let keys = Keybinds::default_keys();
        Ok(
            Keybinds {
                up: key_or_default(&keymap, "up", keys.up),
                down: key_or_default(&keymap, "down", keys.down),
                left: key_or_default(&keymap, "left", keys.left),
                right: key_or_default(&keymap, "right", keys.right),
                quick_up: key_or_default(&keymap, "quick_up", keys.quick_up),
                quick_down: key_or_default(&keymap, "quick_down", keys.quick_down),
                quick_left: key_or_default(&keymap, "quick_left", keys.quick_left),
                quick_right: key_or_default(&keymap, "quick_right", keys.quick_right),
                page_next: key_or_default(&keymap, "page_next", keys.page_next),
                page_previous: key_or_default(&keymap, "page_previous", keys.page_previous),
                copy_thread: key_or_default(&keymap, "copy_thread", keys.copy_thread),
                open_thread: key_or_default(&keymap, "open_thread", keys.open_thread),
                copy_media: key_or_default(&keymap, "copy_media", keys.copy_media),
                open_media: key_or_default(&keymap, "open_media", keys.open_media),
                fullscreen: key_or_default(&keymap, "fullscreen", keys.fullscreen),
                reload: key_or_default(&keymap, "reload", keys.reload),
                help: key_or_default(&keymap, "help", keys.help),
                quit: key_or_default(&keymap, "quit", keys.quit),
            },
        )
    }

    /// The text of a keybinds file that holds every name with its built-in
    /// key, each under a comment that says what the key does.
    pub fn default_file_contents() -> (contents: String)
        ensures
            contents@ == Keybinds::default_file_text(),
    {
        let keys = Keybinds::default_keys();
        let mut contents = String::from_str(
            "# Keybinds for tui-chan\n# https://github.com/tuqqu/tui-chan\n\n",
        );
        push_entry(&mut contents, " Move up", "up", keys.up);
        push_entry(&mut contents, " Move down", "down", keys.down);
        push_entry(&mut contents, " Move left", "left", keys.left);
        push_entry(&mut contents, " Move right", "right", keys.right);
        push_entry(&mut contents, " Move up quickly", "quick_up", keys.quick_up);
        push_entry(&mut contents, " Move down quickly", "quick_down", keys.quick_down);
        push_entry(&mut contents, " Move left quickly", "quick_left", keys.quick_left);
        push_entry(&mut contents, " Move right quickly", "quick_right", keys.quick_right);
        push_entry(&mut contents, " Next page", "page_next", keys.page_next);
        push_entry(&mut contents, " Previous page", "page_previous", keys.page_previous);
        push_entry(
            &mut contents,
            " Copy the direct url to the selected thread or post",
            "copy_thread",
            keys.copy_thread,
        );
        push_entry(
            &mut contents,
            " Open the selected thread or post in browser",
            "open_thread",
            keys.open_thread,
        );
        push_entry(
            &mut contents,
            " Copy the selected post media (image/webm) url",
            "copy_media",
            keys.copy_media,
        );
        push_entry(
            &mut contents,
            " Open the selected post media (image/webm) in browser",
            "open_media",
            keys.open_media,
        );
        push_entry(
            &mut contents,
            " Toggle fullscreen for the selected panel",
            "fullscreen",
            keys.fullscreen,
        );
        push_entry(&mut contents, " Reload page", "reload", keys.reload);
        push_entry(&mut contents, " Toggle help bar", "help", keys.help);
        push_entry(&mut contents, " Quit", "quit", keys.quit);
        contents
    }

    /// What pressing `key` asks for. Where several things are bound to one
    /// key, the one that stands first in the keybinds file is meant.
    pub open spec fn action_of(self, key: Key) -> Option<Action> {
        if key == self.up {
            Some(Action::Up)
        } else if key == self.down {
            Some(Action::Down)
        } else if key == self.left {
            Some(Action::Left)
        } else if key == self.right {
            Some(Action::Right)
        } else if key == self.quick_up {
            Some(Action::QuickUp)
        } else if key == self.quick_down {
            Some(Action::QuickDown)
        } else if key == self.quick_left {
            Some(Action::QuickLeft)
        } else if key == self.quick_right {
            Some(Action::QuickRight)
        } else if key == self.page_next {
            Some(Action::PageNext)
        } else if key == self.page_previous {
            Some(Action::PagePrevious)
        } else if key == self.copy_thread {
            Some(Action::CopyThread)
        } else if key == self.open_thread {
            Some(Action::OpenThread)
        } else if key == self.copy_media {
            Some(Action::CopyMedia)
        } else if key == self.open_media {
            Some(Action::OpenMedia)
        } else if key == self.fullscreen {
            Some(Action::Fullscreen)
        } else if key == self.reload {
            Some(Action::Reload)
        } else if key == self.help {
            Some(Action::Help)
        } else if key == self.quit {
            Some(Action::Quit)
        } else {
            None
        }
    }

    /// What pressing `key` asks for, or `None` for a key that nothing is
    /// bound to.
    pub fn action(&self, key: Key) -> (action: Option<Action>)
        ensures
            action == self.action_of(key),
    {
        if key == self.up {
            Some(Action::Up)
        } else if key == self.down {
            Some(Action::Down)
        } else if key == self.left {
            Some(Action::Left)
        } else if key == self.right {
            Some(Action::Right)
        } else if key == self.quick_up {
            Some(Action::QuickUp)
        } else if key == self.quick_down {
            Some(Action::QuickDown)
        } else if key == self.quick_left {
            Some(Action::QuickLeft)
        } else if key == self.quick_right {
            Some(Action::QuickRight)
        } else if key == self.page_next {
            Some(Action::PageNext)
        } else if key == self.page_previous {
            Some(Action::PagePrevious)
        } else if key == self.copy_thread {
            Some(Action::CopyThread)
        } else if key == self.open_thread {
            Some(Action::OpenThread)
        } else if key == self.copy_media {
            Some(Action::CopyMedia)
        } else if key == self.open_media {
            Some(Action::OpenMedia)
        } else if key == self.fullscreen {
            Some(Action::Fullscreen)
        } else if key == self.reload {
            Some(Action::Reload)
        } else if key == self.help {
            Some(Action::Help)
        } else if key == self.quit {
            Some(Action::Quit)
        } else {
            None
        }
    }
}

} // verus!
