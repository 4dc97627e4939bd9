//! The addresses of an image board site: where its data is served and where
//! its pages are found.

use crate::strings::{decimal, push_decimal, str_eq};
use vstd::prelude::*;
use vstd::string::StringExecFns;

verus! {

/// The addresses under which a site serves its data.
pub trait ApiUrlProvider {
    /// The address of the list of boards.
    spec fn boards_url(&self) -> Seq<char>;

    /// The address of page `page` of the thread listing of `board`.
    spec fn threads_url(&self, board: Seq<char>, page: u8) -> Seq<char>;

    /// The address of the posts of the thread that post `no` opened.
    spec fn thread_url(&self, board: Seq<char>, no: u64) -> Seq<char>;

    fn boards(&self) -> (url: String)
        ensures
            url@ == self.boards_url(),
    ;

    fn threads(&self, board: &str, page: u8) -> (url: String)
        ensures
            url@ == self.threads_url(board@, page),
    ;

    fn thread(&self, board: &str, no: u64) -> (url: String)
        ensures
            url@ == self.thread_url(board@, no),
    ;
}

/// The addresses of a site's pages, for a browser.
pub trait ContentUrlProvider {
    /// The address of the page of `board`.
    spec fn board_page(&self, board: Seq<char>) -> Seq<char>;

    /// The address of the page of the thread that post `no` opened.
    spec fn thread_page(&self, board: Seq<char>, no: u64) -> Seq<char>;

    /// The address of post `post_no` on the page of the thread that post
    /// `no` opened.
    spec fn post_page(&self, board: Seq<char>, no: u64, post_no: u64) -> Seq<char>;

    /// The address of the file `filename` that was posted to `board`.
    spec fn file_page(&self, board: Seq<char>, filename: Seq<char>) -> Seq<char>;

    fn url_board(&self, board: &str) -> (url: String)
        ensures
            url@ == self.board_page(board@),
    ;

    fn url_thread(&self, board: &str, no: u64) -> (url: String)
        ensures
            url@ == self.thread_page(board@, no),
    ;

    fn url_thread_post(&self, board: &str, no: u64, post_no: u64) -> (url: String)
        ensures
            url@ == self.post_page(board@, no, post_no),
    ;

    fn url_file(&self, board: &str, filename: String) -> (url: String)
        ensures
            url@ == self.file_page(board@, filename@),
    ;
}

/// A site that offers both kinds of addresses.
pub trait ChannelProvider: ContentUrlProvider + ApiUrlProvider {

}

/// The addresses of 4chan.
#[derive(Clone, Copy, Debug, PartialEq, Eq)]
pub struct Api4chan;

impl Api4chan {
    /// The name that selects this site.
    pub fn name() -> (name: &'static str)
        ensures
            name@ == "4chan"@,
    {
        "4chan"
    }

    /// Where the data is served.
    pub fn base_api_url() -> (url: &'static str)
        ensures
            url@ == "https://a.4cdn.org"@,
    {
        "https://a.4cdn.org"
    }

    /// Where the pages are.
    pub fn base_url() -> (url: &'static str)
        ensures
            url@ == "https://boards.4chan.org"@,
    {
        "https://boards.4chan.org"
    }

    /// Where the posted files are.
    pub fn base_media_url() -> (url: &'static str)
        ensures
            url@ == "https://i.4cdn.org"@,
    {
        "https://i.4cdn.org"
    }
}

impl ApiUrlProvider for Api4chan {
    open spec fn boards_url(&self) -> Seq<char> {
        "https://a.4cdn.org"@ + "/boards.json"@
    }

    open spec fn threads_url(&self, board: Seq<char>, page: u8) -> Seq<char> {
        "https://a.4cdn.org"@ + "/"@ + board + "/"@ + decimal(page as nat) + ".json"@
    }

    open spec fn thread_url(&self, board: Seq<char>, no: u64) -> Seq<char> {
        "https://a.4cdn.org"@ + "/"@ + board + "/thread/"@ + decimal(no as nat) + ".json"@
    }

    fn boards(&self) -> (url: String) {
        let mut url = String::from_str(Self::base_api_url());
        url.append("/boards.json");
        url
    }

    fn threads(&self, board: &str, page: u8) -> (url: String) {
        let mut url = String::from_str(Self::base_api_url());
        url.append("/");
        url.append(board);
        url.append("/");
        push_decimal(&mut url, page as u64);
        url.append(".json");
        url
    }

    fn thread(&self, board: &str, no: u64) -> (url: String) {
        let mut url = String::from_str(Self::base_api_url());
        url.append("/");
        url.append(board);
        url.append("/thread/");
        push_decimal(&mut url, no);
        url.append(".json");
        url
    }
}

impl ContentUrlProvider for Api4chan {
    open spec fn board_page(&self, board: Seq<char>) -> Seq<char> {
        "https://boards.4chan.org"@ + "/"@ + board + "/"@
    }

    open spec fn thread_page(&self, board: Seq<char>, no: u64) -> Seq<char> {
        "https://boards.4chan.org"@ + "/"@ + board + "/thread/"@ + decimal(no as nat)
    }

    open spec fn post_page(&self, board: Seq<char>, no: u64, post_no: u64) -> Seq<char> {
        "https://boards.4chan.org"@ + "/"@ + board + "/thread/"@ + decimal(no as nat) + "#p"@
            + decimal(post_no as nat)
    }

    open spec fn file_page(&self, board: Seq<char>, filename: Seq<char>) -> Seq<char> {
        "https://i.4cdn.org"@ + "/"@ + board + "/"@ + filename
    }

    fn url_board(&self, board: &str) -> (url: String) {
        let mut url = String::from_str(Self::base_url());
        url.append("/");
        url.append(board);
        url.append("/");
        url
    }

    fn url_thread(&self, board: &str, no: u64) -> (url: String) {
        let mut url = String::from_str(Self::base_url());
        url.append("/");
        url.append(board);
        url.append("/thread/");
        push_decimal(&mut url, no);
        url
    }

    fn url_thread_post(&self, board: &str, no: u64, post_no: u64) -> (url: String) {
        let mut url = String::from_str(Self::base_url());
        url.append("/");
        url.append(board);
        url.append("/thread/");
        push_decimal(&mut url, no);
        url.append("#p");
        push_decimal(&mut url, post_no);
        url
    }

    fn url_file(&self, board: &str, filename: String) -> (url: String) {
        let mut url = String::from_str(Self::base_media_url());
        url.append("/");
        url.append(board);
        url.append("/");
        url.append(filename.as_str());
        url
    }
}

impl ChannelProvider for Api4chan {

}

/// Whether `name` names a site that this library knows: `4chan`, which
/// `default` stands for as well.
pub open spec fn known_name(name: Seq<char>) -> bool {
    name == "default"@ || name == "4chan"@
}

/// The site that goes by `name`, if there is one.
pub fn from_name(name: &str) -> (provider: Option<Api4chan>)
    ensures
        provider is Some <==> known_name(name@),
{
    if str_eq(name, "default") || str_eq(name, Api4chan::name()) {
        Some(Api4chan {  })
    } else {
        None
    }
}

} // verus!
