use tui_chan::api::Api4chan;
use tui_chan::app::{App, ScreenShare, ShownState};
use tui_chan::keybinds::Keybinds;
use tui_chan::model::{Board, Thread, ThreadPost};
use tui_chan::style::SelectedField;

fn board(name: &str) -> Board {
    Board {
        board: name.to_string(),
        title: name.to_uppercase(),
        meta_description: String::new(),
        per_page: 15,
        pages: 10,
        bump_limit: 300,
    }
}

fn post(no: usize) -> ThreadPost {
    ThreadPost {
        no,
        now: String::new(),
        time: 0,
        id: String::new(),
        name: "Anonymous".to_string(),
        com: String::new(),
        sub: String::new(),
        sticky: 0,
        closed: 0,
        replies: 0,
        ext: None,
        filename: None,
        tim: None,
    }
}

fn thread(no: usize) -> Thread {
    Thread { posts: vec![post(no), post(no + 1)] }
}

fn app() -> App {
    App::new(
        vec![board("a"), board("b"), board("c")],
        vec![thread(100), thread(200)],
        vec![post(100), post(101), post(102)],
        &Keybinds::default_keys(),
    )
}

fn share(app: &mut App, board_list: bool, thread_list: bool, thread: bool) -> (u16, u16, u16) {
    app.set_shown_board_list(board_list);
    app.set_shown_thread_list(thread_list);
    app.set_shown_thread(thread);
    let share = app.calc_screen_share();
    (share.board_list(), share.thread_list(), share.thread())
}

#[test]
fn screen_share_table() {
    let mut app = app();
    assert_eq!(share(&mut app, true, false, false), (100, 0, 0));
    assert_eq!(share(&mut app, true, true, false), (12, 88, 0));
    assert_eq!(share(&mut app, true, true, true), (12, 88, 50));
    assert_eq!(share(&mut app, false, true, true), (12, 34, 54));
    assert_eq!(share(&mut app, false, false, true), (0, 0, 100));
    assert_eq!(share(&mut app, false, true, false), (0, 100, 0));
    // the two combinations that do not come up otherwise
    assert_eq!(share(&mut app, false, false, false), (100, 0, 0));
    assert_eq!(share(&mut app, true, false, true), (100, 0, 0));
    assert_eq!(ScreenShare::new(1, 2, 3), ScreenShare { board_list: 1, thread_list: 2, thread: 3 });
}

#[test]
fn new_app_shows_nothing() {
    let app = app();
    assert_eq!(
        app.shown_state,
        ShownState { board_list: false, thread_list: false, thread: false }
    );
    assert!(!app.shown_board_list());
    assert!(!app.shown_thread_list());
    assert!(!app.shown_thread());
    assert_eq!(app.boards.selected(), None);
    assert_eq!(app.threads.selected(), None);
    assert_eq!(app.thread.selected(), None);
    assert_eq!(app.boards.len(), 3);
    assert!(!app.help_bar().shown());
    assert_eq!(app.help_bar().title(), "Help (\"h\" to toggle)");
}

#[test]
fn toggles_flip_one_panel() {
    let mut app = app();
    app.toggle_shown_board_list();
    assert_eq!(app.shown_state, ShownState { board_list: true, thread_list: false, thread: false });
    app.toggle_shown_thread_list();
    app.toggle_shown_thread();
    assert_eq!(app.shown_state, ShownState { board_list: true, thread_list: true, thread: true });
    app.toggle_shown_board_list();
    assert_eq!(app.shown_state, ShownState { board_list: false, thread_list: true, thread: true });
    app.help_bar_mut().toggle_shown();
    assert!(app.help_bar().shown());
}

#[test]
fn advance_moves_the_panel_that_is_named() {
    let mut app = app();
    app.advance(&SelectedField::ThreadList, 1);
    assert_eq!(app.threads.selected(), Some(0));
    assert_eq!(app.boards.selected(), None);
    assert_eq!(app.thread.selected(), None);
    app.advance(&SelectedField::BoardList, 1);
    app.advance(&SelectedField::BoardList, 1);
    assert_eq!(app.boards.selected(), Some(1));
    app.advance(&SelectedField::Thread, -1);
    app.advance(&SelectedField::Thread, -1);
    assert_eq!(app.thread.selected(), Some(2));
    assert_eq!(app.threads.selected(), Some(0));
    app.advance_idly();
    assert_eq!(app.boards.selected(), Some(1));
}

#[test]
fn filling_a_list_unsets_its_selection() {
    let mut app = app();
    app.advance(&SelectedField::ThreadList, 1);
    app.advance(&SelectedField::Thread, 1);
    app.fill_threads(vec![thread(300)]);
    assert_eq!(app.threads.selected(), None);
    assert_eq!(app.threads.items(), &vec![thread(300)]);
    assert_eq!(app.thread.selected(), Some(0));
    app.fill_thread(vec![post(300)]);
    assert_eq!(app.thread.selected(), None);
    assert_eq!(app.thread.items(), &vec![post(300)]);
}

#[test]
fn selected_items() {
    let mut app = app();
    assert_eq!(app.selected_board(), &board("a"));
    assert_eq!(app.selected_thread(), &thread(100));
    app.advance(&SelectedField::BoardList, 1);
    app.advance(&SelectedField::BoardList, 1);
    app.advance(&SelectedField::ThreadList, -1);
    app.advance(&SelectedField::ThreadList, -1);
    app.advance(&SelectedField::Thread, 1);
    assert_eq!(app.selected_board(), &board("b"));
    assert_eq!(app.selected_thread(), &thread(200));
    assert_eq!(app.selected_post(), &post(100));
}

#[test]
fn thread_description() {
    let mut first = post(570368);
    first.sub = "Tom &amp; Jerry".to_string();
    first.replies = 12;
    let mut app = App::new(
        vec![board("a")],
        vec![Thread { posts: vec![first] }, thread(200)],
        Vec::new(),
        &Keybinds::default_keys(),
    );
    assert_eq!(app.selected_thread_description(), "");
    app.advance(&SelectedField::ThreadList, 1);
    assert_eq!(app.selected_thread_description(), "570368 \"Tom & Jerry\" replies: 12 ");
    app.advance(&SelectedField::ThreadList, 1);
    assert_eq!(app.selected_thread_description(), "200 replies: 0 ");
}

#[test]
fn urls_of_the_selection() {
    let mut app = app();
    let api = Api4chan;
    app.advance(&SelectedField::BoardList, 1);
    app.advance(&SelectedField::BoardList, 1);
    app.advance(&SelectedField::ThreadList, 1);
    app.advance(&SelectedField::Thread, -1);
    app.advance(&SelectedField::Thread, -1);
    assert_eq!(app.url_boards(&api), "https://boards.4chan.org/b/");
    assert_eq!(app.url_threads(&api), "https://boards.4chan.org/b/thread/100");
    assert_eq!(app.url_thread(&api), "https://boards.4chan.org/b/thread/100#p102");
}

#[test]
fn media_urls() {
    let api = Api4chan;
    let mut with_file = post(100);
    with_file.tim = Some(1617810439123);
    with_file.ext = Some(".webm".to_string());
    with_file.filename = Some("cat".to_string());
    let mut app = App::new(
        vec![board("wsg")],
        vec![Thread { posts: vec![with_file.clone()] }, thread(200)],
        vec![post(100), with_file.clone()],
        &Keybinds::default_keys(),
    );
    assert_eq!(
        app.media_url_threads(&api),
        Some("https://i.4cdn.org/wsg/1617810439123.webm".to_string())
    );
    app.advance(&SelectedField::Thread, 1);
    assert_eq!(app.media_url_thread(&api), None);
    app.advance(&SelectedField::Thread, 1);
    assert_eq!(
        app.media_url_thread(&api),
        Some("https://i.4cdn.org/wsg/1617810439123.webm".to_string())
    );
    assert_eq!(app.media_url(&post(1), &api), None);
    let mut no_ext = with_file.clone();
    no_ext.ext = None;
    assert_eq!(app.media_url(&no_ext, &api), None);
    let mut no_tim = with_file;
    no_tim.tim = None;
    assert_eq!(app.media_url(&no_tim, &api), None);
}
