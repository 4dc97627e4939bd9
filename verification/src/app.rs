//! What the browser holds: the boards, the threads of the board that was
//! entered, the posts of the thread that was opened, which of the three panels
//! are on the screen, and the help bar.

use crate::api::ContentUrlProvider;
use crate::format::{attachment_rows, format_html, html_text};
use crate::help::{help_text, help_title, HelpBar};
use crate::keybinds::Keybinds;
use crate::list::{Cursor, ItemLIst};
use crate::model::{Board, Thread, ThreadPost};
use crate::strings::{decimal, option_text, push_decimal};
use crate::style::SelectedField;
use vstd::prelude::*;
use vstd::string::StringExecFns;

verus! {

/// The share of the screen's width that each panel gets, in percent.
#[derive(Clone, Copy, Debug, PartialEq, Eq)]
pub struct ScreenShare {
    pub board_list: u16,
    pub thread_list: u16,
    pub thread: u16,
}

impl ScreenShare {
    pub fn new(board_list: u16, thread_list: u16, thread: u16) -> (share: ScreenShare)
        ensures
            share == (ScreenShare { board_list, thread_list, thread }),
    {
        ScreenShare { board_list, thread_list, thread }
    }

    pub fn board_list(&self) -> (share: u16)
        ensures
            share == self.board_list,
    {
        self.board_list
    }

    pub fn thread_list(&self) -> (share: u16)
        ensures
            share == self.thread_list,
    {
        self.thread_list
    }

    pub fn thread(&self) -> (share: u16)
        ensures
            share == self.thread,
    {
        self.thread
    }
}

/// Which panels are on the screen.
#[derive(Clone, Copy, Debug, PartialEq, Eq)]
pub struct ShownState {
    pub board_list: bool,
    pub thread_list: bool,
    pub thread: bool,
}

impl ShownState {
    /// The shares of the panels that are shown. The shares are a fixed
    /// table. With all three panels shown they come to more than the whole
    /// width, and the panel of the thread lies over its neighbour. With no
    /// panel shown the board list gets the screen.
    pub open spec fn share(self) -> ScreenShare {
        match (self.board_list, self.thread_list, self.thread) {
            (true, false, false) => ScreenShare { board_list: 100, thread_list: 0, thread: 0 },
            (true, true, false) => ScreenShare { board_list: 12, thread_list: 88, thread: 0 },
            (true, true, true) => ScreenShare { board_list: 12, thread_list: 88, thread: 50 },
            (false, true, true) => ScreenShare { board_list: 12, thread_list: 34, thread: 54 },
            (false, false, true) => ScreenShare { board_list: 0, thread_list: 0, thread: 100 },
            (false, true, false) => ScreenShare { board_list: 0, thread_list: 100, thread: 0 },
            _ => ScreenShare { board_list: 100, thread_list: 0, thread: 0 },
        }
    }
}

/// The lists of the three panels, what is shown of them and the help bar.
#[derive(Debug)]
pub struct App {
    pub boards: ItemLIst<Board>,
    pub threads: ItemLIst<Thread>,
    pub thread: ItemLIst<ThreadPost>,
    pub shown_state: ShownState,
    pub help_bar: HelpBar,
}

/// The subject of a thread in the title of its panel: in quotation marks
/// and with a blank behind it, or nothing where the thread has no subject.
pub open spec fn quoted_subject(subject: Seq<char>) -> Seq<char> {
    if html_text(subject).len() == 0 {
        Seq::empty()
    } else {
        "\""@ + html_text(subject) + "\" "@
    }
}

/// What the title of the panel says of the thread that `post` opened: its
/// number, its subject and the count of its replies.
pub open spec fn thread_description(post: ThreadPost) -> Seq<char> {
    decimal(post.no as nat) + " "@ + quoted_subject(post.sub@) + "replies: "@ + decimal(
        post.replies as nat,
    ) + " "@
}

/// The address of the file attached to `post` on `board`, if the post says
/// under which name and extension the site keeps one.
pub open spec fn media_page<P: ContentUrlProvider>(
    url_provider: &P,
    board: Seq<char>,
    post: ThreadPost,
) -> Option<Seq<char>> {
    match (post.tim, post.ext) {
        (Some(tim), Some(ext)) => Some(url_provider.file_page(board, decimal(tim as nat) + ext@)),
        _ => None,
    }
}

/// Of a post whose attachment is described in full or not at all, the
/// panel names the file exactly where the file has an address.
pub proof fn lemma_attachment_shown_with_address<P: ContentUrlProvider>(
    url_provider: &P,
    board: Seq<char>,
    post: ThreadPost,
)
    requires
        post.attachment_consistent(),
    ensures
        attachment_rows(&post).len() > 0 <==> media_page(url_provider, board, post) is Some,
{
}

impl App {
    /// Whether a board can be worked with.
    pub open spec fn has_board(&self) -> bool {
        self.boards@.items.len() > 0
    }

    /// Whether a thread can be worked with: there is one, and it has its
    /// first post.
    pub open spec fn has_thread(&self) -> bool {
        self.threads@.items.len() > 0 && self.threads@.current().posts@.len() > 0
    }

    /// The first post of the thread that is worked with.
    pub open spec fn opening_post(&self) -> ThreadPost {
        self.threads@.current().posts@[0]
    }

    /// The browser as it starts: the lists as given with nothing selected,
    /// no panel shown yet, and the help bar for `keybinds` hidden.
    pub fn new(
        boards: Vec<Board>,
        threads: Vec<Thread>,
        thread: Vec<ThreadPost>,
        keybinds: &Keybinds,
    ) -> (app: Self)
        ensures
            app.boards@ == Cursor::fresh(boards@),
            app.threads@ == Cursor::fresh(threads@),
            app.thread@ == Cursor::fresh(thread@),
            app.shown_state == (ShownState { board_list: false, thread_list: false, thread: false }),
            !app.help_bar.is_shown(),
            app.help_bar.title_text() == help_title(*keybinds),
            app.help_bar.body_text() == help_text(*keybinds),
    {
        Self {
            boards: ItemLIst::new(boards),
            threads: ItemLIst::new(threads),
            thread: ItemLIst::new(thread),
            shown_state: ShownState { board_list: false, thread_list: false, thread: false },
            help_bar: HelpBar::new(keybinds),
        }
    }

    /// Puts `threads` in place of the list of threads. Nothing of the new
    /// list is selected.
    pub fn fill_threads(&mut self, threads: Vec<Thread>)
        ensures
            final(self).threads@ == Cursor::fresh(threads@),
            final(self).boards == old(self).boards,
            final(self).thread == old(self).thread,
            final(self).shown_state == old(self).shown_state,
            final(self).help_bar == old(self).help_bar,
    {
        self.threads = ItemLIst::new(threads);
    }

    /// Puts `thread` in place of the posts of the opened thread. Nothing of
    /// the new list is selected.
    pub fn fill_thread(&mut self, thread: Vec<ThreadPost>)
        ensures
            final(self).thread@ == Cursor::fresh(thread@),
            final(self).boards == old(self).boards,
            final(self).threads == old(self).threads,
            final(self).shown_state == old(self).shown_state,
            final(self).help_bar == old(self).help_bar,
    {
        self.thread = ItemLIst::new(thread);
    }

    /// What happens while no key is pressed: nothing.
    pub fn advance_idly(&self) {
    }

    /// Moves the selection of the panel `selected_field` by `steps` items.
    pub fn advance(&mut self, selected_field: &SelectedField, steps: isize)
        ensures
            final(self).boards@ == if *selected_field == SelectedField::BoardList {
                old(self).boards@.moved(steps)
            } else {
                old(self).boards@
            },
            final(self).threads@ == if *selected_field == SelectedField::ThreadList {
                old(self).threads@.moved(steps)
            } else {
                old(self).threads@
            },
            final(self).thread@ == if *selected_field == SelectedField::Thread {
                old(self).thread@.moved(steps)
            } else {
                old(self).thread@
            },
            final(self).shown_state == old(self).shown_state,
            final(self).help_bar == old(self).help_bar,
    {
        match selected_field {
            SelectedField::BoardList => {
                self.boards.advance_by(steps);
            },
            SelectedField::ThreadList => {
                self.threads.advance_by(steps);
            },
            SelectedField::Thread => {
                self.thread.advance_by(steps);
            },
        };
    }

    /// The share of the screen that each panel gets.
    pub fn calc_screen_share(&self) -> (share: ScreenShare)
        ensures
            share == self.shown_state.share(),
    {
        match (self.shown_state.board_list, self.shown_state.thread_list, self.shown_state.thread) {
            (true, false, false) => ScreenShare::new(100, 0, 0),
            (true, true, false) => ScreenShare::new(12, 88, 0),
            (true, true, true) => ScreenShare::new(12, 88, 50),
            (false, true, true) => ScreenShare::new(12, 34, 54),
            (false, false, true) => ScreenShare::new(0, 0, 100),
            (false, true, false) => ScreenShare::new(0, 100, 0),
            _ => ScreenShare::new(100, 0, 0),
        }
    }

    /// The board that is worked with: the selected one, or the first one
    /// while none is selected.
    pub fn selected_board(&self) -> (board: &Board)
        requires
            self.has_board(),
        ensures
            *board == self.boards@.current(),
    {
        self.boards.current()
    }

    /// The thread that is worked with: the selected one, or the first one
    /// while none is selected.
    pub fn selected_thread(&self) -> (thread: &Thread)
        requires
            self.threads@.items.len() > 0,
        ensures
            *thread == self.threads@.current(),
    {
        self.threads.current()
    }

    /// What the title of the panel says of the selected thread, and nothing
    /// while no thread is selected.
    pub fn selected_thread_description(&self) -> (description: String)
        requires
            self.threads@.selected is Some ==> self.has_thread(),
        ensures
            description@ == match self.threads@.selected {
                Some(_) => thread_description(self.opening_post()),
                None => Seq::empty(),
            },
    {
        if let Some(post_i) = self.threads.selected() {
            let thread = &self.threads.items()[post_i];
            let post = &thread.posts[0];
            let title = format_html(post.sub());
            let mut description = String::new();
            push_decimal(&mut description, post.no() as u64);
            description.append(" ");
            if title.as_str().is_empty() {
                assert(description@ + Seq::<char>::empty() == description@);
            } else {
                description.append("\"");
                description.append(title.as_str());
                description.append("\" ");
                assert(description@ == decimal(post.no as nat) + " "@ + quoted_subject(post.sub@));
            }
            description.append("replies: ");
            push_decimal(&mut description, post.replies() as u64);
            description.append(" ");
            description
        } else {
            String::new()
        }
    }

    /// The selected post of the opened thread.
    pub fn selected_post(&self) -> (post: &ThreadPost)
        requires
            self.thread@.selected is Some,
        ensures
            *post == self.thread@.current(),
    {
        let selected = self.thread.selected().unwrap();
        &self.thread.items()[selected]
    }

    pub fn set_shown_board_list(&mut self, shown: bool)
        ensures
            *final(self) == (App {
                shown_state: ShownState { board_list: shown, ..old(self).shown_state },
                ..*old(self)
            }),
    {
        self.shown_state.board_list = shown;
    }

    pub fn set_shown_thread_list(&mut self, shown: bool)
        ensures
            *final(self) == (App {
                shown_state: ShownState { thread_list: shown, ..old(self).shown_state },
                ..*old(self)
            }),
    {
        self.shown_state.thread_list = shown;
    }

    pub fn set_shown_thread(&mut self, shown: bool)
        ensures
            *final(self) == (App {
                shown_state: ShownState { thread: shown, ..old(self).shown_state },
                ..*old(self)
            }),
    {
        self.shown_state.thread = shown;
    }

    pub fn toggle_shown_board_list(&mut self)
        ensures
            *final(self) == (App {
                shown_state: ShownState {
                    board_list: !old(self).shown_state.board_list,
                    ..old(self).shown_state
                },
                ..*old(self)
            }),
    {
        self.shown_state.board_list = !self.shown_state.board_list;
    }

    pub fn toggle_shown_thread_list(&mut self)
        ensures
            *final(self) == (App {
                shown_state: ShownState {
                    thread_list: !old(self).shown_state.thread_list,
                    ..old(self).shown_state
                },
                ..*old(self)
            }),
    {
        self.shown_state.thread_list = !self.shown_state.thread_list;
    }

    pub fn toggle_shown_thread(&mut self)
        ensures
            *final(self) == (App {
                shown_state: ShownState {
                    thread: !old(self).shown_state.thread,
                    ..old(self).shown_state
                },
                ..*old(self)
            }),
    {
        self.shown_state.thread = !self.shown_state.thread;
    }

    pub fn shown_board_list(&self) -> (shown: bool)
        ensures
            shown == self.shown_state.board_list,
    {
        self.shown_state.board_list
    }

    pub fn shown_thread_list(&self) -> (shown: bool)
        ensures
            shown == self.shown_state.thread_list,
    {
        self.shown_state.thread_list
    }

    pub fn shown_thread(&self) -> (shown: bool)
        ensures
            shown == self.shown_state.thread,
    {
        self.shown_state.thread
    }

    pub fn help_bar(&self) -> (bar: &HelpBar)
        ensures
            *bar == self.help_bar,
    {
        &self.help_bar
    }

    /// The help bar, to change it.
    pub fn help_bar_mut(&mut self) -> (bar: &mut HelpBar)
        ensures
            *bar == old(self).help_bar,
            *final(self) == (App { help_bar: *final(bar), ..*old(self) }),
    {
        &mut self.help_bar
    }

    /// The address of the page of the board that is worked with.
    pub fn url_boards<P: ContentUrlProvider>(&self, url_provider: &P) -> (url: String)
        requires
            self.has_board(),
        ensures
            url@ == url_provider.board_page(self.boards@.current().board@),
    {
        url_provider.url_board(self.selected_board().board())
    }

    /// The address of the page of the thread that is worked with.
    pub fn url_threads<P: ContentUrlProvider>(&self, url_provider: &P) -> (url: String)
        requires
            self.has_board(),
            self.has_thread(),
        ensures
            url@ == url_provider.thread_page(
                self.boards@.current().board@,
                self.opening_post().no as u64,
            ),
    {
        url_provider.url_thread(
            self.selected_board().board(),
            self.selected_thread().posts[0].no() as u64,
        )
    }

    /// The address of the selected post on the page of its thread.
    pub fn url_thread<P: ContentUrlProvider>(&self, url_provider: &P) -> (url: String)
        requires
            self.has_board(),
            self.has_thread(),
            self.thread@.selected is Some,
        ensures
            url@ == url_provider.post_page(
                self.boards@.current().board@,
                self.opening_post().no as u64,
                self.thread@.current().no as u64,
            ),
    {
        url_provider.url_thread_post(
            self.selected_board().board(),
            self.selected_thread().posts[0].no() as u64,
            self.selected_post().no() as u64,
        )
    }

    /// The address of the file attached to the first post of the thread
    /// that is worked with.
    pub fn media_url_threads<P: ContentUrlProvider>(&self, url_provider: &P) -> (url: Option<
        String,
    >)
        requires
            self.has_board(),
            self.has_thread(),
        ensures
            option_text(url) == media_page(
                url_provider,
                self.boards@.current().board@,
                self.opening_post(),
            ),
    {
        let post = &self.selected_thread().posts[0];
        self.media_url(post, url_provider)
    }

    /// The address of the file attached to the selected post.
    pub fn media_url_thread<P: ContentUrlProvider>(&self, url_provider: &P) -> (url: Option<
        String,
    >)
        requires
            self.has_board(),
            self.thread@.selected is Some,
        ensures
            option_text(url) == media_page(
                url_provider,
                self.boards@.current().board@,
                self.thread@.current(),
            ),
    {
        let post = self.selected_post();
        self.media_url(post, url_provider)
    }

    /// The address of the file attached to `post`, which is one of the
    /// board that is worked with.
    pub fn media_url<P: ContentUrlProvider>(&self, post: &ThreadPost, url_provider: &P) -> (url:
        Option<String>)
        requires
            self.has_board(),
        ensures
            option_text(url) == media_page(
                url_provider,
                self.boards@.current().board@,
                *post,
            ),
    {
        match (post.tim(), post.ext()) {
            (Some(tim), Some(ext)) => {
                let mut filename = String::new();
                push_decimal(&mut filename, tim);
                filename.append(ext.as_str());
                Some(url_provider.url_file(self.selected_board().board(), filename))
            },
            _ => None,
        }
    }
}

} // verus!
