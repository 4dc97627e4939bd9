use tui_chan::api::Api4chan;
use tui_chan::app::{App, ShownState};
use tui_chan::event::Event;
use tui_chan::keybinds::key::Key;
use tui_chan::keybinds::{Action, Keybinds};
use tui_chan::model::{Board, Thread, ThreadPost};
use tui_chan::navigation::{Command, Focus, Session};
use tui_chan::style::SelectedField;

const BOARDS: SelectedField = SelectedField::BoardList;
const THREADS: SelectedField = SelectedField::ThreadList;
const POSTS: SelectedField = SelectedField::Thread;

fn board(name: &str, pages: isize) -> Board {
    Board {
        board: name.to_string(),
        title: name.to_uppercase(),
        meta_description: format!("/{}/ &amp; co", name),
        per_page: 15,
        pages,
        bump_limit: 300,
    }
}

fn post(no: usize) -> ThreadPost {
    ThreadPost {
        no,
        now: String::new(),
        time: 0,
        id: String::new(),
        name: "Anonymous".to_string(),
        com: String::new(),
        sub: String::new(),
        sticky: 0,
        closed: 0,
        replies: 0,
        ext: Some(".png".to_string()),
        filename: Some("cat".to_string()),
        tim: Some(no as u64 * 10),
    }
}

fn thread(no: usize) -> Thread {
    Thread { posts: vec![post(no), post(no + 1)] }
}

fn session() -> Session {
    let app = App::new(
        vec![board("a", 10), board("b", 2), board("c", 0)],
        Vec::new(),
        Vec::new(),
        &Keybinds::default_keys(),
    );
    Session::new(app)
}

fn shown(board_list: bool, thread_list: bool, thread: bool) -> ShownState {
    ShownState { board_list, thread_list, thread }
}

fn focus(board_list: bool, thread_list: bool, thread: bool, selected: SelectedField) -> Focus {
    Focus { shown: shown(board_list, thread_list, thread), selected }
}

fn act(session: &mut Session, action: Action) -> Command {
    session.handle(action, &Api4chan)
}

/// A session inside the second thread of board `a`, with its posts loaded.
fn session_in_thread() -> Session {
    let mut session = session();
    assert_eq!(
        act(&mut session, Action::Right),
        Command::FetchThreads { board: "a".to_string(), page: 1, select_first: true }
    );
    session.threads_fetched(Some(vec![thread(100), thread(200), thread(300)]), true);
    act(&mut session, Action::Down);
    assert_eq!(
        act(&mut session, Action::Right),
        Command::FetchThread { board: "a".to_string(), no: 200 }
    );
    session.thread_fetched(Some(vec![post(200), post(201), post(202)]));
    session
}

#[test]
fn focus_enter() {
    assert_eq!(focus(true, false, false, BOARDS).enter(), focus(true, true, false, THREADS));
    assert_eq!(focus(true, true, false, THREADS).enter(), focus(false, true, true, POSTS));
    assert_eq!(focus(false, true, true, POSTS).enter(), focus(false, true, true, POSTS));
}

#[test]
fn focus_left() {
    assert_eq!(focus(true, false, false, BOARDS).go_left(), focus(true, false, false, BOARDS));
    assert_eq!(focus(true, true, false, THREADS).go_left(), focus(true, true, false, BOARDS));
    assert_eq!(focus(false, true, true, THREADS).go_left(), focus(true, true, false, BOARDS));
    assert_eq!(focus(false, true, true, POSTS).go_left(), focus(true, true, false, THREADS));
    assert_eq!(focus(false, false, true, POSTS).go_left(), focus(true, true, false, THREADS));
}

#[test]
fn focus_zoom() {
    assert_eq!(focus(true, true, false, BOARDS).zoom(), focus(false, true, false, THREADS));
    assert_eq!(focus(true, true, false, THREADS).zoom(), focus(false, true, false, THREADS));
    assert_eq!(focus(false, true, false, THREADS).zoom(), focus(false, true, false, THREADS));
    assert_eq!(focus(true, true, true, THREADS).zoom(), focus(true, false, true, POSTS));
    assert_eq!(focus(false, true, true, POSTS).zoom(), focus(false, false, true, POSTS));
    assert_eq!(focus(false, false, true, POSTS).zoom(), focus(false, false, true, POSTS));
}

#[test]
fn session_starts_on_the_boards() {
    let session = session();
    assert_eq!(session.focus(), focus(true, false, false, SelectedField::BoardList));
    assert_eq!(session.thread_list.cur_page(), 1);
    assert_eq!(session.app.boards.selected(), None);
    assert_eq!(session.app.calc_screen_share().board_list(), 100);
}

#[test]
fn moving_selects_in_the_focused_panel() {
    let mut session = session();
    assert_eq!(act(&mut session, Action::Down), Command::Nothing);
    assert_eq!(session.app.boards.selected(), Some(0));
    act(&mut session, Action::Down);
    assert_eq!(session.app.boards.selected(), Some(1));
    act(&mut session, Action::Up);
    act(&mut session, Action::Up);
    assert_eq!(session.app.boards.selected(), Some(2));
    act(&mut session, Action::QuickDown);
    assert_eq!(session.app.boards.selected(), Some(0));
    act(&mut session, Action::QuickUp);
    assert_eq!(session.app.boards.selected(), Some(2));
    act(&mut session, Action::QuickUp);
    assert_eq!(session.app.boards.selected(), Some(0));
    assert_eq!(act(&mut session, Action::QuickLeft), Command::Nothing);
    assert_eq!(act(&mut session, Action::QuickRight), Command::Nothing);
    assert_eq!(session.focus(), focus(true, false, false, SelectedField::BoardList));
    assert_eq!(session.app.threads.selected(), None);
}

#[test]
fn entering_a_board_asks_for_its_threads() {
    let mut session = session();
    act(&mut session, Action::Down);
    act(&mut session, Action::Down);
    assert_eq!(
        act(&mut session, Action::Right),
        Command::FetchThreads { board: "b".to_string(), page: 1, select_first: true }
    );
    assert_eq!(session.focus(), focus(true, true, false, SelectedField::ThreadList));
    assert_eq!(session.thread_list.description(), "/b/ & co");
    assert_eq!(session.app.threads.len(), 0);

    session.threads_fetched(Some(vec![thread(100), thread(200)]), true);
    assert_eq!(session.app.threads.selected(), Some(0));
    assert_eq!(session.app.threads.len(), 2);
    assert_eq!(session.app.calc_screen_share().thread_list(), 88);
}

#[test]
fn entering_without_a_selection_takes_the_first_board() {
    let mut session = session();
    assert_eq!(
        act(&mut session, Action::Right),
        Command::FetchThreads { board: "a".to_string(), page: 1, select_first: true }
    );
}

#[test]
fn entering_a_thread_asks_for_its_posts() {
    let session = session_in_thread();
    assert_eq!(session.focus(), focus(false, true, true, SelectedField::Thread));
    assert_eq!(session.app.thread.selected(), Some(0));
    assert_eq!(session.app.thread.len(), 3);
    let share = session.app.calc_screen_share();
    assert_eq!((share.board_list(), share.thread_list(), share.thread()), (12, 34, 54));
}

#[test]
fn entering_nothing_does_nothing() {
    let app = App::new(Vec::new(), Vec::new(), Vec::new(), &Keybinds::default_keys());
    let mut session = Session::new(app);
    assert_eq!(act(&mut session, Action::Right), Command::Nothing);
    assert_eq!(session.focus(), focus(true, false, false, SelectedField::BoardList));
    assert_eq!(act(&mut session, Action::Down), Command::Nothing);
    assert_eq!(session.app.boards.selected(), None);
    assert_eq!(act(&mut session, Action::OpenThread), Command::Nothing);
    assert_eq!(act(&mut session, Action::Reload), Command::Nothing);

    // a board without threads cannot be gone into further
    let mut session = self::session();
    act(&mut session, Action::Right);
    session.threads_fetched(Some(Vec::new()), true);
    assert_eq!(session.app.threads.selected(), None);
    assert_eq!(act(&mut session, Action::Right), Command::Nothing);
    assert_eq!(session.focus(), focus(true, true, false, SelectedField::ThreadList));

    // nor can a thread without posts
    session.threads_fetched(Some(vec![Thread { posts: Vec::new() }]), true);
    assert_eq!(act(&mut session, Action::Right), Command::Nothing);
    assert_eq!(act(&mut session, Action::CopyThread), Command::Nothing);
    assert_eq!(act(&mut session, Action::OpenMedia), Command::Nothing);

    // inside a thread there is nothing to enter
    let mut session = session_in_thread();
    assert_eq!(act(&mut session, Action::Right), Command::Nothing);
    assert_eq!(session.focus(), focus(false, true, true, SelectedField::Thread));
}

#[test]
fn a_failed_fetch_changes_nothing() {
    let mut session = session_in_thread();
    act(&mut session, Action::Down);
    session.thread_fetched(None);
    assert_eq!(session.app.thread.selected(), Some(1));
    assert_eq!(session.app.thread.len(), 3);
    session.threads_fetched(None, true);
    assert_eq!(session.app.threads.selected(), Some(1));
    assert_eq!(session.app.threads.len(), 3);
    assert_eq!(session.focus(), focus(false, true, true, SelectedField::Thread));
}

#[test]
fn going_back() {
    let mut session = session_in_thread();
    assert_eq!(act(&mut session, Action::Left), Command::Nothing);
    assert_eq!(session.focus(), focus(true, true, false, SelectedField::ThreadList));
    assert_eq!(act(&mut session, Action::Left), Command::Nothing);
    assert_eq!(session.focus(), focus(true, true, false, SelectedField::BoardList));
    assert_eq!(act(&mut session, Action::Left), Command::Nothing);
    assert_eq!(session.focus(), focus(true, true, false, SelectedField::BoardList));
    assert_eq!(session.app.threads.selected(), Some(1));
}

#[test]
fn fullscreen() {
    let mut session = session_in_thread();
    assert_eq!(act(&mut session, Action::Fullscreen), Command::Nothing);
    assert_eq!(session.focus(), focus(false, false, true, SelectedField::Thread));
    assert_eq!(session.app.calc_screen_share().thread(), 100);
    act(&mut session, Action::Left);
    assert_eq!(session.focus(), focus(true, true, false, SelectedField::ThreadList));
    act(&mut session, Action::Fullscreen);
    assert_eq!(session.focus(), focus(false, true, false, SelectedField::ThreadList));
    assert_eq!(session.app.calc_screen_share().thread_list(), 100);

    let mut session = self::session();
    act(&mut session, Action::Fullscreen);
    assert_eq!(session.focus(), focus(false, false, false, SelectedField::ThreadList));
    assert_eq!(session.app.calc_screen_share().board_list(), 100);
}

#[test]
fn paging_wraps_round_the_board() {
    let mut session = session();
    act(&mut session, Action::Down);
    act(&mut session, Action::Down);
    act(&mut session, Action::Right);
    session.threads_fetched(Some(vec![thread(100), thread(200)]), true);
    assert_eq!(
        act(&mut session, Action::PageNext),
        Command::FetchThreads { board: "b".to_string(), page: 2, select_first: false }
    );
    assert_eq!(session.thread_list.cur_page(), 2);
    assert_eq!(session.app.threads.selected(), Some(0));
    session.threads_fetched(Some(vec![thread(300)]), false);
    assert_eq!(session.app.threads.selected(), None);
    assert_eq!(
        act(&mut session, Action::PageNext),
        Command::FetchThreads { board: "b".to_string(), page: 1, select_first: false }
    );
    assert_eq!(
        act(&mut session, Action::PagePrevious),
        Command::FetchThreads { board: "b".to_string(), page: 2, select_first: false }
    );
    assert_eq!(
        act(&mut session, Action::PagePrevious),
        Command::FetchThreads { board: "b".to_string(), page: 1, select_first: false }
    );
    assert_eq!(session.thread_list.description(), "/b/ & co");
}

#[test]
fn paging_needs_the_thread_list_and_a_page_count() {
    let mut session = session();
    assert_eq!(act(&mut session, Action::PageNext), Command::Nothing);
    assert_eq!(act(&mut session, Action::PagePrevious), Command::Nothing);
    assert_eq!(session.thread_list.cur_page(), 1);

    // the third board says that it has no pages
    act(&mut session, Action::Up);
    act(&mut session, Action::Up);
    assert_eq!(
        act(&mut session, Action::Right),
        Command::FetchThreads { board: "c".to_string(), page: 1, select_first: true }
    );
    assert_eq!(act(&mut session, Action::PageNext), Command::Nothing);
    assert_eq!(act(&mut session, Action::PagePrevious), Command::Nothing);
    assert_eq!(session.thread_list.cur_page(), 1);

    let mut session = session_in_thread();
    assert_eq!(act(&mut session, Action::PageNext), Command::Nothing);
}

#[test]
fn entering_a_board_starts_at_page_one() {
    let mut session = session();
    act(&mut session, Action::Right);
    act(&mut session, Action::PageNext);
    act(&mut session, Action::PageNext);
    assert_eq!(session.thread_list.cur_page(), 3);
    act(&mut session, Action::Left);
    assert_eq!(
        act(&mut session, Action::Right),
        Command::FetchThreads { board: "a".to_string(), page: 1, select_first: true }
    );
    assert_eq!(session.thread_list.cur_page(), 1);
}

#[test]
fn reload_asks_again() {
    let mut session = session();
    assert_eq!(act(&mut session, Action::Reload), Command::Nothing);
    act(&mut session, Action::Right);
    act(&mut session, Action::PageNext);
    assert_eq!(
        act(&mut session, Action::Reload),
        Command::FetchThreads { board: "a".to_string(), page: 2, select_first: true }
    );
    assert_eq!(session.thread_list.cur_page(), 2);

    let mut session = session_in_thread();
    act(&mut session, Action::Down);
    assert_eq!(
        act(&mut session, Action::Reload),
        Command::FetchThread { board: "a".to_string(), no: 200 }
    );
    assert_eq!(session.app.thread.selected(), Some(1));
    session.thread_fetched(Some(vec![post(200)]));
    assert_eq!(session.app.thread.selected(), Some(0));
}

#[test]
fn links_follow_the_focus() {
    let mut session = session();
    assert_eq!(
        act(&mut session, Action::OpenThread),
        Command::Open("https://boards.4chan.org/a/".to_string())
    );
    assert_eq!(
        act(&mut session, Action::CopyThread),
        Command::Copy("https://boards.4chan.org/a/".to_string())
    );
    assert_eq!(act(&mut session, Action::OpenMedia), Command::Nothing);
    assert_eq!(act(&mut session, Action::CopyMedia), Command::Nothing);

    let mut session = session_in_thread();
    act(&mut session, Action::Down);
    assert_eq!(
        act(&mut session, Action::OpenThread),
        Command::Open("https://boards.4chan.org/a/thread/200#p201".to_string())
    );
    assert_eq!(
        act(&mut session, Action::CopyMedia),
        Command::Copy("https://i.4cdn.org/a/2010.png".to_string())
    );
    act(&mut session, Action::Left);
    assert_eq!(
        act(&mut session, Action::CopyThread),
        Command::Copy("https://boards.4chan.org/a/thread/200".to_string())
    );
    assert_eq!(
        act(&mut session, Action::OpenMedia),
        Command::Open("https://i.4cdn.org/a/2000.png".to_string())
    );
}

#[test]
fn help_and_quit() {
    let mut session = session();
    assert_eq!(act(&mut session, Action::Help), Command::Nothing);
    assert!(session.app.help_bar().shown());
    assert_eq!(act(&mut session, Action::Help), Command::Nothing);
    assert!(!session.app.help_bar().shown());
    assert_eq!(act(&mut session, Action::Quit), Command::Quit);
    assert_eq!(session.focus(), focus(true, false, false, SelectedField::BoardList));
}

#[test]
fn events_go_through_the_keybinds() {
    let keys = Keybinds { down: Key::Down, ..Keybinds::default_keys() };
    let mut session = session();
    assert_eq!(session.handle_event(Event::Input(Key::Down), &keys, &Api4chan), Command::Nothing);
    assert_eq!(session.app.boards.selected(), Some(0));
    assert_eq!(session.handle_event(Event::Input(Key::Char('s')), &keys, &Api4chan), Command::Nothing);
    assert_eq!(session.app.boards.selected(), Some(0));
    assert_eq!(session.handle_event(Event::Tick, &keys, &Api4chan), Command::Nothing);
    assert_eq!(session.app.boards.selected(), Some(0));
    assert_eq!(
        session.handle_event(Event::Input(Key::Char('d')), &keys, &Api4chan),
        Command::FetchThreads { board: "a".to_string(), page: 1, select_first: true }
    );
    assert_eq!(session.handle_event(Event::Input(Key::Char('q')), &keys, &Api4chan), Command::Quit);
}
