use tui_chan::api::{from_name, Api4chan, ApiUrlProvider, ContentUrlProvider};

#[test]
fn api_urls() {
    let api = Api4chan;
    assert_eq!(api.boards(), "https://a.4cdn.org/boards.json");
    assert_eq!(api.threads("g", 1), "https://a.4cdn.org/g/1.json");
    assert_eq!(api.threads("wsg", 255), "https://a.4cdn.org/wsg/255.json");
    assert_eq!(api.thread("g", 570368), "https://a.4cdn.org/g/thread/570368.json");
}

#[test]
fn content_urls() {
    let api = Api4chan;
    assert_eq!(api.url_board("g"), "https://boards.4chan.org/g/");
    assert_eq!(api.url_thread("g", 570368), "https://boards.4chan.org/g/thread/570368");
    assert_eq!(
        api.url_thread_post("g", 570368, 570400),
        "https://boards.4chan.org/g/thread/570368#p570400"
    );
    assert_eq!(
        api.url_file("g", "1617810439123.png".to_string()),
        "https://i.4cdn.org/g/1617810439123.png"
    );
}

#[test]
fn provider_names() {
    assert_eq!(from_name("default"), Some(Api4chan));
    assert_eq!(from_name("4chan"), Some(Api4chan));
    assert_eq!(from_name(Api4chan::name()), Some(Api4chan));
    assert_eq!(from_name("8chan"), None);
    assert_eq!(from_name(""), None);
    assert_eq!(from_name("Default"), None);
}
