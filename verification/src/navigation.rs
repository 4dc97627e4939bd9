//! Finding one's way through the browser: which panel has the focus, what a
//! key changes, and what has to be fetched or handed over as a result.
//!
//! The browser itself does nothing to the outside world. `Session::handle`
//! takes one thing that was asked for, changes the session and answers with a
//! `Command`: what is to be fetched, opened or copied. Whoever runs the
//! session carries the command out and gives what was fetched back to it.

use crate::api::ContentUrlProvider;
use crate::app::{media_page, App, ShownState};
use crate::event::Event;
use crate::format::html_text;
use crate::keybinds::key::Key;
use crate::keybinds::{Action, Keybinds};
use crate::list::Cursor;
use crate::model::{Board, Thread, ThreadList, ThreadPost};
use crate::strings::option_text;
use crate::style::SelectedField;
use vstd::prelude::*;
use vstd::string::StringExecFns;

verus! {

/// Which panels are shown and which of the three has the focus. A panel can
/// be shown without having the focus.
#[derive(Clone, Copy, Debug, PartialEq, Eq)]
pub struct Focus {
    pub shown: ShownState,
    pub selected: SelectedField,
}

impl Focus {
    /// The focus after going into what is selected. From the boards it goes
    /// to the threads, which are shown. From the threads it goes to the
    /// thread, which is shown in place of the boards.
    pub open spec fn entered(self) -> Focus {
        match self.selected {
            SelectedField::BoardList => Focus {
                shown: ShownState { thread_list: true, ..self.shown },
                selected: SelectedField::ThreadList,
            },
            SelectedField::ThreadList => Focus {
                shown: ShownState { board_list: false, thread: true, ..self.shown },
                selected: SelectedField::Thread,
            },
            SelectedField::Thread => self,
        }
    }

    /// The focus after going back. From the threads it goes to the boards,
    /// which are shown, and the thread is hidden. From the thread it goes to
    /// the threads, and boards and threads are shown without the thread.
    pub open spec fn left(self) -> Focus {
        match self.selected {
            SelectedField::BoardList => self,
            SelectedField::ThreadList => Focus {
                shown: ShownState { board_list: true, thread: false, ..self.shown },
                selected: SelectedField::BoardList,
            },
            SelectedField::Thread => Focus {
                shown: ShownState { board_list: true, thread_list: true, thread: false },
                selected: SelectedField::ThreadList,
            },
        }
    }

    /// The focus after making room for what is looked at. On the boards,
    /// these are hidden and the focus goes to the threads. On the threads
    /// beside a shown thread, the threads are hidden and the focus goes to
    /// the thread; beside no thread, the boards are hidden. On the thread,
    /// the threads are hidden.
    pub open spec fn zoomed(self) -> Focus {
        match self.selected {
            SelectedField::BoardList => Focus {
                shown: ShownState { board_list: false, ..self.shown },
                selected: SelectedField::ThreadList,
            },
            SelectedField::ThreadList => if self.shown.thread {
                Focus {
                    shown: ShownState { thread_list: false, ..self.shown },
                    selected: SelectedField::Thread,
                }
            } else {
                Focus {
                    shown: ShownState { board_list: false, ..self.shown },
                    selected: SelectedField::ThreadList,
                }
            },
            SelectedField::Thread => Focus {
                shown: ShownState { thread_list: false, ..self.shown },
                selected: SelectedField::Thread,
            },
        }
    }

    /// Goes into what is selected.
    pub fn enter(self) -> (focus: Focus)
        ensures
            focus == self.entered(),
    {
        let shown = self.shown;
        match self.selected {
            SelectedField::BoardList => Focus {
                shown: ShownState {
                    board_list: shown.board_list,
                    thread_list: true,
                    thread: shown.thread,
                },
                selected: SelectedField::ThreadList,
            },
            SelectedField::ThreadList => Focus {
                shown: ShownState {
                    board_list: false,
                    thread_list: shown.thread_list,
                    thread: true,
                },
                selected: SelectedField::Thread,
            },
            SelectedField::Thread => self,
        }
    }

    /// Goes back to the panel on the left.
    pub fn go_left(self) -> (focus: Focus)
        ensures
            focus == self.left(),
    {
        let shown = self.shown;
        match self.selected {
            SelectedField::BoardList => self,
            SelectedField::ThreadList => Focus {
                shown: ShownState {
                    board_list: true,
                    thread_list: shown.thread_list,
                    thread: false,
                },
                selected: SelectedField::BoardList,
            },
            SelectedField::Thread => Focus {
                shown: ShownState { board_list: true, thread_list: true, thread: false },
                selected: SelectedField::ThreadList,
            },
        }
    }

    /// Makes room for what is looked at.
    pub fn zoom(self) -> (focus: Focus)
        ensures
            focus == self.zoomed(),
    {
        let shown = self.shown;
        match self.selected {
            SelectedField::BoardList => Focus {
                shown: ShownState {
                    board_list: false,
                    thread_list: shown.thread_list,
                    thread: shown.thread,
                },
                selected: SelectedField::ThreadList,
            },
            SelectedField::ThreadList => if shown.thread {
                Focus {
                    shown: ShownState {
                        board_list: shown.board_list,
                        thread_list: false,
                        thread: true,
                    },
                    selected: SelectedField::Thread,
                }
            } else {
                Focus {
                    shown: ShownState {
                        board_list: false,
                        thread_list: shown.thread_list,
                        thread: false,
                    },
                    selected: SelectedField::ThreadList,
                }
            },
            SelectedField::Thread => Focus {
                shown: ShownState {
                    board_list: shown.board_list,
                    thread_list: false,
                    thread: shown.thread,
                },
                selected: SelectedField::Thread,
            },
        }
    }
}

/// What is to be done for the session outside of it.
#[derive(Clone, Debug, PartialEq, Eq)]
pub enum Command {
    /// Nothing is to be done.
    Nothing,
    /// The browser is to end.
    Quit,
    /// Page `page` of the threads of `board` is to be fetched and given to
    /// `Session::threads_fetched` together with `select_first`.
    FetchThreads { board: String, page: u8, select_first: bool },
    /// The posts of the thread that post `no` of `board` opened are to be
    /// fetched and given to `Session::thread_fetched`.
    FetchThread { board: String, no: u64 },
    /// The address is to be opened in a web browser.
    Open(String),
    /// The address is to be put on the clipboard.
    Copy(String),
}

/// What a `Command` says, with its texts as sequences of characters.
pub enum Order {
    Nothing,
    Quit,
    FetchThreads { board: Seq<char>, page: u8, select_first: bool },
    FetchThread { board: Seq<char>, no: u64 },
    Open(Seq<char>),
    Copy(Seq<char>),
}

impl View for Command {
    type V = Order;

    open spec fn view(&self) -> Order {
        match self {
            Command::Nothing => Order::Nothing,
            Command::Quit => Order::Quit,
            Command::FetchThreads { board, page, select_first } => Order::FetchThreads {
                board: board@,
                page: *page,
                select_first: *select_first,
            },
            Command::FetchThread { board, no } => Order::FetchThread { board: board@, no: *no },
            Command::Open(url) => Order::Open(url@),
            Command::Copy(url) => Order::Copy(url@),
        }
    }
}

/// Where an address is to go.
#[derive(Clone, Copy, Debug, PartialEq, Eq)]
pub enum Target {
    Browser,
    Clipboard,
}

/// The order to hand `url` over to `target`, or to do nothing where there
/// is no address.
pub open spec fn hand_over(url: Option<Seq<char>>, target: Target) -> Order {
    match url {
        None => Order::Nothing,
        Some(url) => match target {
            Target::Browser => Order::Open(url),
            Target::Clipboard => Order::Copy(url),
        },
    }
}

/// The number of items that a quick move goes.
pub const QUICK_STEPS: isize = 5;

/// One sitting at the browser: what it holds, the panel that has the focus,
/// and the page of the thread listing.
#[derive(Debug)]
pub struct Session {
    pub app: App,
    pub selected_field: SelectedField,
    pub thread_list: ThreadList,
}

/// The state of a `Session`: the mathematical value that its contracts
/// speak of.
pub struct SessionState {
    pub boards: Cursor<Board>,
    pub threads: Cursor<Thread>,
    pub thread: Cursor<ThreadPost>,
    pub focus: Focus,
    /// The page of the thread listing that is shown.
    pub page: u8,
    /// The description of the board whose threads are listed.
    pub description: Seq<char>,
    pub help_shown: bool,
    pub help_title: Seq<char>,
    pub help_text: Seq<char>,
}

impl View for Session {
    type V = SessionState;

    open spec fn view(&self) -> SessionState {
        SessionState {
            boards: self.app.boards@,
            threads: self.app.threads@,
            thread: self.app.thread@,
            focus: Focus { shown: self.app.shown_state, selected: self.selected_field },
            page: self.thread_list.page(),
            description: self.thread_list.description_text(),
            help_shown: self.app.help_bar.is_shown(),
            help_title: self.app.help_bar.title_text(),
            help_text: self.app.help_bar.body_text(),
        }
    }
}

impl SessionState {
    /// Whether a board can be worked with.
    pub open spec fn has_board(self) -> bool {
        self.boards.items.len() > 0
    }

    /// Whether a thread can be worked with: there is one, and it has its
    /// first post.
    pub open spec fn has_thread(self) -> bool {
        self.threads.items.len() > 0 && self.threads.current().posts@.len() > 0
    }

    /// The board that is worked with.
    pub open spec fn board(self) -> Board {
        self.boards.current()
    }

    /// The first post of the thread that is worked with.
    pub open spec fn opening_post(self) -> ThreadPost {
        self.threads.current().posts@[0]
    }

    /// Whether the listing can be paged through: its board says how many
    /// pages it has, and the page that is shown is one of them.
    pub open spec fn can_page(self) -> bool {
        self.focus.selected == SelectedField::ThreadList && self.has_board()
            && self.board().has_pages() && self.page <= self.board().pages
    }

    /// The order to fetch page `page` of the threads of the board.
    pub open spec fn fetch_threads(self, page: u8, select_first: bool) -> Order {
        Order::FetchThreads { board: self.board().board@, page, select_first }
    }

    /// The order to fetch the posts of the thread that is worked with.
    pub open spec fn fetch_thread(self) -> Order {
        Order::FetchThread { board: self.board().board@, no: self.opening_post().no as u64 }
    }

    /// The session after a move of the selection in the panel that has the
    /// focus.
    pub open spec fn moved(self, steps: isize) -> SessionState {
        match self.focus.selected {
            SelectedField::BoardList => SessionState { boards: self.boards.moved(steps), ..self },
            SelectedField::ThreadList => SessionState {
                threads: self.threads.moved(steps),
                ..self
            },
            SelectedField::Thread => SessionState { thread: self.thread.moved(steps), ..self },
        }
    }

    /// Going into what is selected. Entering a board starts its listing at
    /// the first page and asks for its threads. Entering a thread asks for
    /// its posts. Where there is nothing to enter, nothing happens.
    pub open spec fn entered(self) -> (SessionState, Order) {
        match self.focus.selected {
            SelectedField::BoardList => if self.has_board() {
                (
                    SessionState {
                        focus: self.focus.entered(),
                        page: 1,
                        description: html_text(self.board().meta_description@),
                        ..self
                    },
                    self.fetch_threads(1, true),
                )
            } else {
                (self, Order::Nothing)
            },
            SelectedField::ThreadList => if self.has_board() && self.has_thread() {
                (SessionState { focus: self.focus.entered(), ..self }, self.fetch_thread())
            } else {
                (self, Order::Nothing)
            },
            SelectedField::Thread => (self, Order::Nothing),
        }
    }

    /// Turning the page of the thread listing, forward or back. The
    /// selection is left alone until the new page arrives.
    pub open spec fn paged(self, forward: bool) -> (SessionState, Order) {
        if self.can_page() {
            let page = if forward {
                ThreadList::page_after(self.page, self.board().pages)
            } else {
                ThreadList::page_before(self.page, self.board().pages)
            } as u8;
            (SessionState { page, ..self }, self.fetch_threads(page, false))
        } else {
            (self, Order::Nothing)
        }
    }

    /// Asking again for what the panel with the focus shows. The list of
    /// boards is not fetched again.
    pub open spec fn reloaded(self) -> Order {
        match self.focus.selected {
            SelectedField::BoardList => Order::Nothing,
            SelectedField::ThreadList => if self.has_board() {
                self.fetch_threads(self.page, true)
            } else {
                Order::Nothing
            },
            SelectedField::Thread => if self.has_board() && self.has_thread() {
                self.fetch_thread()
            } else {
                Order::Nothing
            },
        }
    }

    /// The address of what the panel with the focus works with: the page of
    /// the board, of the thread, or the selected post on the page of its
    /// thread.
    pub open spec fn link<P: ContentUrlProvider>(self, urls: &P) -> Option<Seq<char>> {
        match self.focus.selected {
            SelectedField::BoardList => if self.has_board() {
                Some(urls.board_page(self.board().board@))
            } else {
                None
            },
            SelectedField::ThreadList => if self.has_board() && self.has_thread() {
                Some(urls.thread_page(self.board().board@, self.opening_post().no as u64))
            } else {
                None
            },
            SelectedField::Thread => if self.has_board() && self.has_thread()
                && self.thread.selected is Some {
                Some(
                    urls.post_page(
                        self.board().board@,
                        self.opening_post().no as u64,
                        self.thread.current().no as u64,
                    ),
                )
            } else {
                None
            },
        }
    }

    /// The address of the file attached to what the panel with the focus
    /// works with: the first post of the thread, or the selected post.
    pub open spec fn media_link<P: ContentUrlProvider>(self, urls: &P) -> Option<Seq<char>> {
        match self.focus.selected {
            SelectedField::BoardList => None,
            SelectedField::ThreadList => if self.has_board() && self.has_thread() {
                media_page(urls, self.board().board@, self.opening_post())
            } else {
                None
            },
            SelectedField::Thread => if self.has_board() && self.thread.selected is Some {
                media_page(urls, self.board().board@, self.thread.current())
            } else {
                None
            },
        }
    }

    /// The session after `action` and what is to be done for it.
    pub open spec fn after<P: ContentUrlProvider>(self, action: Action, urls: &P) -> (
        SessionState,
        Order,
    ) {
        match action {
            Action::Quit => (self, Order::Quit),
            Action::Help => (SessionState { help_shown: !self.help_shown, ..self }, Order::Nothing),
            Action::Down => (self.moved(1), Order::Nothing),
            Action::Up => (self.moved((-1) as isize), Order::Nothing),
            Action::QuickDown => (self.moved(QUICK_STEPS), Order::Nothing),
            Action::QuickUp => (self.moved((-QUICK_STEPS) as isize), Order::Nothing),
            Action::QuickLeft | Action::QuickRight => (self, Order::Nothing),
            Action::Left => (SessionState { focus: self.focus.left(), ..self }, Order::Nothing),
            Action::Right => self.entered(),
            Action::Fullscreen => (
                SessionState { focus: self.focus.zoomed(), ..self },
                Order::Nothing,
            ),
            Action::PageNext => self.paged(true),
            Action::PagePrevious => self.paged(false),
            Action::Reload => (self, self.reloaded()),
            Action::OpenThread => (self, hand_over(self.link(urls), Target::Browser)),
            Action::CopyThread => (self, hand_over(self.link(urls), Target::Clipboard)),
            Action::OpenMedia => (self, hand_over(self.media_link(urls), Target::Browser)),
            Action::CopyMedia => (self, hand_over(self.media_link(urls), Target::Clipboard)),
        }
    }

    /// The session after `event` and what is to be done for it. A key does
    /// what `keybinds` binds to it. A key that nothing is bound to and a tick
    /// of the clock do nothing.
    pub open spec fn after_event<P: ContentUrlProvider>(
        self,
        event: Event<Key>,
        keybinds: Keybinds,
        urls: &P,
    ) -> (SessionState, Order) {
        match event {
            Event::Input(key) => match keybinds.action_of(key) {
                Some(action) => self.after(action, urls),
                None => (self, Order::Nothing),
            },
            Event::Tick => (self, Order::Nothing),
        }
    }

    /// The session after the threads that were asked for have come, or
    /// have failed to come. New threads take the place of the old ones and
    /// the first of them is selected if that was asked for. A failure
    /// changes nothing.
    pub open spec fn with_threads(self, threads: Option<Seq<Thread>>, select_first: bool)
        -> SessionState {
        match threads {
            None => self,
            Some(threads) => SessionState {
                threads: if select_first {
                    Cursor::fresh(threads).moved(1)
                } else {
                    Cursor::fresh(threads)
                },
                ..self
            },
        }
    }

    /// The session after the posts that were asked for have come, or have
    /// failed to come. New posts take the place of the old ones and the
    /// first of them is selected. A failure changes nothing.
    pub open spec fn with_thread(self, posts: Option<Seq<ThreadPost>>) -> SessionState {
        match posts {
            None => self,
            Some(posts) => SessionState { thread: Cursor::fresh(posts).moved(1), ..self },
        }
    }
}

/// The views of threads that may be missing.
pub open spec fn option_items<T>(items: Option<Vec<T>>) -> Option<Seq<T>> {
    match items {
        Some(items) => Some(items@),
        None => None,
    }
}

impl Session {
    /// A session on `app` that starts at the list of boards, which is shown.
    pub fn new(app: App) -> (session: Session)
        ensures
            session@.boards == app.boards@,
            session@.threads == app.threads@,
            session@.thread == app.thread@,
            session@.focus == (Focus {
                shown: ShownState { board_list: true, ..app.shown_state },
                selected: SelectedField::BoardList,
            }),
            session@.page == 1,
            session@.description == Seq::<char>::empty(),
            session@.help_shown == app.help_bar.is_shown(),
            session@.help_title == app.help_bar.title_text(),
            session@.help_text == app.help_bar.body_text(),
    {
        let mut app = app;
        app.set_shown_board_list(true);
        Session { app, selected_field: SelectedField::BoardList, thread_list: ThreadList::new() }
    }

    /// The panels that are shown and the one that has the focus.
    pub fn focus(&self) -> (focus: Focus)
        ensures
            focus == self@.focus,
    {
        Focus { shown: self.app.shown_state, selected: self.selected_field }
    }

    fn set_focus(&mut self, focus: Focus)
        ensures
            final(self)@ == (SessionState { focus, ..old(self)@ }),
    {
        self.app.shown_state = focus.shown;
        self.selected_field = focus.selected;
    }

    fn has_board(&self) -> (has: bool)
        ensures
            has == self@.has_board(),
            has == self.app.has_board(),
    {
        self.app.boards.len() > 0
    }

    fn has_thread(&self) -> (has: bool)
        ensures
            has == self@.has_thread(),
            has == self.app.has_thread(),
    {
        self.app.threads.len() > 0 && self.app.threads.current().posts.len() > 0
    }

    fn has_post(&self) -> (has: bool)
        ensures
            has == (self@.thread.selected is Some),
    {
        self.app.thread.selected().is_some()
    }

    fn fetch_threads(&self, select_first: bool) -> (command: Command)
        requires
            self@.has_board(),
        ensures
            command@ == self@.fetch_threads(self@.page, select_first),
    {
        Command::FetchThreads {
            board: String::from_str(self.app.selected_board().board()),
            page: self.thread_list.cur_page(),
            select_first,
        }
    }

    fn fetch_thread(&self) -> (command: Command)
        requires
            self@.has_board(),
            self@.has_thread(),
        ensures
            command@ == self@.fetch_thread(),
    {
        Command::FetchThread {
            board: String::from_str(self.app.selected_board().board()),
            no: self.app.selected_thread().posts[0].no() as u64,
        }
    }

    fn enter(&mut self) -> (command: Command)
        ensures
            final(self)@ == old(self)@.entered().0,
            command@ == old(self)@.entered().1,
    {
        match self.selected_field {
            SelectedField::BoardList => {
                if !self.has_board() {
                    return Command::Nothing;
                }
                self.set_focus(self.focus().enter());
                self.thread_list = ThreadList::new();
                self.thread_list.set_description(self.app.boards.current().meta_description());
                self.fetch_threads(true)
            },
            SelectedField::ThreadList => {
                if !self.has_board() || !self.has_thread() {
                    return Command::Nothing;
                }
                self.set_focus(self.focus().enter());
                self.fetch_thread()
            },
            SelectedField::Thread => Command::Nothing,
        }
    }

    fn turn_page(&mut self, forward: bool) -> (command: Command)
        ensures
            final(self)@ == old(self)@.paged(forward).0,
            command@ == old(self)@.paged(forward).1,
    {
        match self.selected_field {
            SelectedField::ThreadList => {},
            _ => {
                return Command::Nothing;
            },
        }
        if !self.has_board() {
            return Command::Nothing;
        }
        let pages = self.app.boards.current().pages();
        if !(1 <= pages && pages <= 255 && self.thread_list.cur_page() as isize <= pages) {
            return Command::Nothing;
        }
        if forward {
            self.thread_list.next_page(self.app.boards.current());
        } else {
            self.thread_list.prev_page(self.app.boards.current());
        }
        self.fetch_threads(false)
    }

    fn reload(&self) -> (command: Command)
        ensures
            command@ == self@.reloaded(),
    {
        match self.selected_field {
            SelectedField::BoardList => Command::Nothing,
            SelectedField::ThreadList => if self.has_board() {
                self.fetch_threads(true)
            } else {
                Command::Nothing
            },
            SelectedField::Thread => if self.has_board() && self.has_thread() {
                self.fetch_thread()
            } else {
                Command::Nothing
            },
        }
    }

    fn link<P: ContentUrlProvider>(&self, urls: &P) -> (url: Option<String>)
        ensures
            option_text(url) == self@.link(urls),
    {
        match self.selected_field {
            SelectedField::BoardList => if self.has_board() {
                Some(self.app.url_boards(urls))
            } else {
                None
            },
            SelectedField::ThreadList => if self.has_board() && self.has_thread() {
                Some(self.app.url_threads(urls))
            } else {
                None
            },
            SelectedField::Thread => if self.has_board() && self.has_thread() && self.has_post() {
                Some(self.app.url_thread(urls))
            } else {
                None
            },
        }
    }

    fn media_link<P: ContentUrlProvider>(&self, urls: &P) -> (url: Option<String>)
        ensures
            option_text(url) == self@.media_link(urls),
    {
        match self.selected_field {
            SelectedField::BoardList => None,
            SelectedField::ThreadList => if self.has_board() && self.has_thread() {
                self.app.media_url_threads(urls)
            } else {
                None
            },
            SelectedField::Thread => if self.has_board() && self.has_post() {
                self.app.media_url_thread(urls)
            } else {
                None
            },
        }
    }

    /// Does what `action` asks for, as far as it changes the session, and
    /// says what is left to do outside: fetch, open, copy or quit.
    pub fn handle<P: ContentUrlProvider>(&mut self, action: Action, urls: &P) -> (command: Command)
        ensures
            final(self)@ == old(self)@.after(action, urls).0,
            command@ == old(self)@.after(action, urls).1,
    {
        match action {
            Action::Quit => Command::Quit,
            Action::Help => {
                self.app.help_bar.toggle_shown();
                Command::Nothing
            },
            Action::Down => {
                self.app.advance(&self.selected_field, 1);
                Command::Nothing
            },
            Action::Up => {
                self.app.advance(&self.selected_field, -1);
                Command::Nothing
            },
            Action::QuickDown => {
                self.app.advance(&self.selected_field, QUICK_STEPS);
                Command::Nothing
            },
            Action::QuickUp => {
                self.app.advance(&self.selected_field, -QUICK_STEPS);
                Command::Nothing
            },
            Action::QuickLeft | Action::QuickRight => Command::Nothing,
            Action::Left => {
                self.set_focus(self.focus().go_left());
                Command::Nothing
            },
            Action::Right => self.enter(),
            Action::Fullscreen => {
                self.set_focus(self.focus().zoom());
                Command::Nothing
            },
            Action::PageNext => self.turn_page(true),
            Action::PagePrevious => self.turn_page(false),
            Action::Reload => self.reload(),
            Action::OpenThread => match self.link(urls) {
                Some(url) => Command::Open(url),
                None => Command::Nothing,
            },
            Action::CopyThread => match self.link(urls) {
                Some(url) => Command::Copy(url),
                None => Command::Nothing,
            },
            Action::OpenMedia => match self.media_link(urls) {
                Some(url) => Command::Open(url),
                None => Command::Nothing,
            },
            Action::CopyMedia => match self.media_link(urls) {
                Some(url) => Command::Copy(url),
                None => Command::Nothing,
            },
        }
    }

    /// Takes a key or a tick of the clock and does what the key asks for.
    pub fn handle_event<P: ContentUrlProvider>(
        &mut self,
        event: Event<Key>,
        keybinds: &Keybinds,
        urls: &P,
    ) -> (command: Command)
        ensures
            final(self)@ == old(self)@.after_event(event, *keybinds, urls).0,
            command@ == old(self)@.after_event(event, *keybinds, urls).1,
    {
        match event {
            Event::Input(key) => match keybinds.action(key) {
                Some(action) => self.handle(action, urls),
                None => Command::Nothing,
            },
            Event::Tick => {
                self.app.advance_idly();
                Command::Nothing
            },
        }
    }

    /// Takes the threads that a `Command::FetchThreads` asked for, or
    /// `None` where they could not be fetched.
    pub fn threads_fetched(&mut self, threads: Option<Vec<Thread>>, select_first: bool)
        ensures
            final(self)@ == old(self)@.with_threads(option_items(threads), select_first),
    {
        if let Some(threads) = threads {
            self.app.fill_threads(threads);
            if select_first {
                self.app.threads.advance_by(1);
            }
        }
    }

    /// Takes the posts that a `Command::FetchThread` asked for, or `None`
    /// where they could not be fetched.
    pub fn thread_fetched(&mut self, posts: Option<Vec<ThreadPost>>)
        ensures
            final(self)@ == old(self)@.with_thread(option_items(posts)),
    {
        if let Some(posts) = posts {
            self.app.fill_thread(posts);
            self.app.thread.advance_by(1);
        }
    }
}

} // verus!
