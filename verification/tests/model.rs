use tui_chan::model::{Board, Thread, ThreadList, ThreadPost};

fn board(pages: isize) -> Board {
    Board {
        board: "g".to_string(),
        title: "Technology".to_string(),
        meta_description: "&quot;/g/ - Technology&quot; is a board".to_string(),
        per_page: 15,
        pages,
        bump_limit: 310,
    }
}

#[test]
fn thread_list_starts_on_page_one() {
    let list = ThreadList::new();
    assert_eq!(list.cur_page(), 1);
    assert_eq!(list.description(), "");
}

#[test]
fn next_page_wraps_after_the_last() {
    let board = board(10);
    let mut list = ThreadList::new();
    for page in 2..=10 {
        assert_eq!(list.next_page(&board), page);
        assert_eq!(list.cur_page(), page);
    }
    assert_eq!(list.next_page(&board), 1);
    assert_eq!(list.cur_page(), 1);
}

#[test]
fn prev_page_wraps_before_the_first() {
    let board = board(10);
    let mut list = ThreadList::new();
    assert_eq!(list.prev_page(&board), 10);
    assert_eq!(list.cur_page(), 10);
    assert_eq!(list.prev_page(&board), 9);
    assert_eq!(list.next_page(&board), 10);
    assert_eq!(list.next_page(&board), 1);
}

#[test]
fn pages_of_a_board_with_one_page() {
    let board = board(1);
    let mut list = ThreadList::new();
    assert_eq!(list.next_page(&board), 1);
    assert_eq!(list.prev_page(&board), 1);
}

#[test]
fn pages_of_the_largest_board() {
    let board = board(255);
    let mut list = ThreadList::new();
    assert_eq!(list.prev_page(&board), 255);
    assert_eq!(list.next_page(&board), 1);
}

#[test]
fn turning_forward_and_back_ends_where_it_began() {
    let board = board(4);
    let mut list = ThreadList::new();
    for _ in 0..9 {
        let page = list.cur_page();
        list.next_page(&board);
        assert_eq!(list.prev_page(&board), page);
        list.prev_page(&board);
        assert_eq!(list.next_page(&board), page);
        list.next_page(&board);
    }
}

#[test]
fn description_is_decoded() {
    let mut list = ThreadList::new();
    list.set_description(board(10).meta_description());
    assert_eq!(list.description(), "\"/g/ - Technology\" is a board");
    assert_eq!(list.cur_page(), 1);
    list.set_description("broken &entity");
    assert_eq!(list.description(), "broken &entity");
}

#[test]
fn board_getters() {
    let board = board(10);
    assert_eq!(board.board(), "g");
    assert_eq!(board.title(), "Technology");
    assert_eq!(board.per_page(), 15);
    assert_eq!(board.pages(), 10);
    assert_eq!(board.bump_limit(), 310);
}

#[test]
fn post_getters() {
    let post = ThreadPost {
        no: 7,
        now: "now".to_string(),
        time: 8,
        id: "id".to_string(),
        name: "name".to_string(),
        com: "com".to_string(),
        sub: "sub".to_string(),
        sticky: 1,
        closed: 0,
        replies: 9,
        ext: Some(".jpg".to_string()),
        filename: None,
        tim: Some(10),
    };
    assert_eq!(post.no(), 7);
    assert_eq!(post.now(), "now");
    assert_eq!(post.time(), 8);
    assert_eq!(post.id(), "id");
    assert_eq!(post.name(), "name");
    assert_eq!(post.com(), "com");
    assert_eq!(post.sub(), "sub");
    assert_eq!(post.sticky(), 1);
    assert_eq!(post.closed(), 0);
    assert_eq!(post.replies(), 9);
    assert_eq!(post.ext(), &Some(".jpg".to_string()));
    assert_eq!(post.filename(), &None);
    assert_eq!(post.tim(), Some(10));
    let thread = Thread { posts: vec![post.clone()] };
    assert_eq!(thread.posts(), &[post]);
}
