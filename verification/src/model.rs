//! What an image board serves: boards, threads and posts, and the page of a
//! board's thread listing that is on show.

use crate::format::{format_html, html_text};
use vstd::prelude::*;

verus! {

/// A board, as the board list of the site describes it.
#[derive(Clone, Debug, PartialEq, Eq)]
pub struct Board {
    /// The short name that addresses the board, such as `g`.
    pub board: String,
    pub title: String,
    pub meta_description: String,
    /// The number of threads on one page of the listing.
    pub per_page: isize,
    /// The number of pages of the listing.
    pub pages: isize,
    pub bump_limit: isize,
}

impl Board {
    pub fn board(&self) -> (board: &str)
        ensures
            board@ == self.board@,
    {
        self.board.as_str()
    }

    pub fn title(&self) -> (title: &str)
        ensures
            title@ == self.title@,
    {
        self.title.as_str()
    }

    pub fn meta_description(&self) -> (description: &str)
        ensures
            description@ == self.meta_description@,
    {
        self.meta_description.as_str()
    }

    pub fn per_page(&self) -> (per_page: isize)
        ensures
            per_page == self.per_page,
    {
        self.per_page
    }

    pub fn pages(&self) -> (pages: isize)
        ensures
            pages == self.pages,
    {
        self.pages
    }

    pub fn bump_limit(&self) -> (bump_limit: isize)
        ensures
            bump_limit == self.bump_limit,
    {
        self.bump_limit
    }

    /// Whether the listing of this board has pages that a `ThreadList` can
    /// count: at least one, and no more than a page number can hold.
    pub open spec fn has_pages(&self) -> bool {
        1 <= self.pages <= u8::MAX
    }
}

/// The page of a board's thread listing that is shown, with the board's
/// description. Pages are counted from 1.
#[derive(Debug, PartialEq, Eq)]
pub struct ThreadList {
    page: u8,
    description: String,
}

impl ThreadList {
    /// The page that a listing opens on.
    pub const DEFAULT: u8 = 1;

    #[verifier::type_invariant]
    spec fn counted_from_one(self) -> bool {
        self.page >= 1
    }

    /// The number of the page that is shown.
    pub closed spec fn page(&self) -> u8 {
        self.page
    }

    /// The description that was set, entities decoded.
    pub closed spec fn description_text(&self) -> Seq<char> {
        self.description@
    }

    /// The page after `page` of a listing of `pages` pages: the first page
    /// follows the last.
    pub open spec fn page_after(page: u8, pages: isize) -> int {
        if page == pages {
            1
        } else {
            page + 1
        }
    }

    /// The page before `page` of a listing of `pages` pages: the last page
    /// comes before the first.
    pub open spec fn page_before(page: u8, pages: isize) -> int {
        if page == 1 {
            pages as int
        } else {
            page - 1
        }
    }

    /// The first page of a listing, with no description yet.
    pub fn new() -> (list: Self)
        ensures
            list.page() == 1,
            list.description_text() == Seq::<char>::empty(),
    {
        Self { page: Self::DEFAULT, description: String::new() }
    }

    /// Turns to the next page of the listing of `board` and returns its
    /// number. After the last page comes the first.
    pub fn next_page(&mut self, board: &Board) -> (page: u8)
        requires
            board.has_pages(),
            old(self).page() <= board.pages,
        ensures
            page == final(self).page(),
            page == Self::page_after(old(self).page(), board.pages),
            1 <= page <= board.pages,
            final(self).description_text() == old(self).description_text(),
    {
        proof {
            use_type_invariant(&*self);
        }
        if board.pages == self.page as isize {
            self.page = Self::DEFAULT;
        } else {
            self.page += 1;
        }
        self.page
    }

    /// Turns to the previous page of the listing of `board` and returns its
    /// number. Before the first page comes the last.
    pub fn prev_page(&mut self, board: &Board) -> (page: u8)
        requires
            board.has_pages(),
            old(self).page() <= board.pages,
        ensures
            page == final(self).page(),
            page == Self::page_before(old(self).page(), board.pages),
            1 <= page <= board.pages,
            final(self).description_text() == old(self).description_text(),
    {
        proof {
            use_type_invariant(&*self);
        }
        if Self::DEFAULT == self.page {
            self.page = board.pages as u8;
        } else {
            self.page -= 1;
        }
        self.page
    }

    /// The number of the page that is shown, which is never 0.
    pub fn cur_page(&self) -> (page: u8)
        ensures
            page == self.page(),
            page >= 1,
    {
        proof {
            use_type_invariant(self);
        }
        self.page
    }

    /// Sets the description to `desc` with its HTML entities decoded.
    pub fn set_description(&mut self, desc: &str)
        ensures
            final(self).description_text() == html_text(desc@),
            final(self).page() == old(self).page(),
    {
        proof {
            use_type_invariant(&*self);
        }
        self.description = format_html(desc);
    }

    pub fn description(&self) -> (description: &str)
        ensures
            description@ == self.description_text(),
    {
        self.description.as_str()
    }
}

/// Turning a page forward and then back, or back and then forward, ends on
/// the page it started from, and no turn leaves the pages of the listing.
pub proof fn lemma_pages_turn_round(page: u8, pages: isize)
    requires
        1 <= page <= pages <= u8::MAX,
    ensures
        1 <= ThreadList::page_after(page, pages) <= pages,
        1 <= ThreadList::page_before(page, pages) <= pages,
        ThreadList::page_before(ThreadList::page_after(page, pages) as u8, pages) == page,
        ThreadList::page_after(ThreadList::page_before(page, pages) as u8, pages) == page,
{
}

/// One post of a thread.
#[derive(Clone, Debug, PartialEq, Eq)]
pub struct ThreadPost {
    /// The number of the post, which grows with every post to the board.
    pub no: usize,
    pub now: String,
    /// When the post was made, in seconds since the start of 1970.
    pub time: u64,
    pub id: String,
    pub name: String,
    /// The text of the post, as markup.
    pub com: String,
    /// The subject. Only the first post of a thread has one.
    pub sub: String,
    pub sticky: u8,
    pub closed: u8,
    /// The number of replies in the thread, on its first post.
    pub replies: u32,
    /// The extension of the attached file, with its dot.
    pub ext: Option<String>,
    /// The name of the attached file as it was uploaded.
    pub filename: Option<String>,
    /// The name under which the site keeps the attached file.
    pub tim: Option<u64>,
}

impl ThreadPost {
    pub fn no(&self) -> (no: usize)
        ensures
            no == self.no,
    {
        self.no
    }

    pub fn time(&self) -> (time: u64)
        ensures
            time == self.time,
    {
        self.time
    }

    pub fn name(&self) -> (name: &str)
        ensures
            name@ == self.name@,
    {
        self.name.as_str()
    }

    pub fn com(&self) -> (com: &str)
        ensures
            com@ == self.com@,
    {
        self.com.as_str()
    }

    pub fn sub(&self) -> (sub: &str)
        ensures
            sub@ == self.sub@,
    {
        self.sub.as_str()
    }

    pub fn sticky(&self) -> (sticky: u8)
        ensures
            sticky == self.sticky,
    {
        self.sticky
    }

    pub fn closed(&self) -> (closed: u8)
        ensures
            closed == self.closed,
    {
        self.closed
    }

    pub fn replies(&self) -> (replies: u32)
        ensures
            replies == self.replies,
    {
        self.replies
    }

    pub fn ext(&self) -> (ext: &Option<String>)
        ensures
            *ext == self.ext,
    {
        &self.ext
    }

    pub fn filename(&self) -> (filename: &Option<String>)
        ensures
            *filename == self.filename,
    {
        &self.filename
    }

    pub fn tim(&self) -> (tim: Option<u64>)
        ensures
            tim == self.tim,
    {
        self.tim
    }

    pub fn now(&self) -> (now: &str)
        ensures
            now@ == self.now@,
    {
        self.now.as_str()
    }

    pub fn id(&self) -> (id: &str)
        ensures
            id@ == self.id@,
    {
        self.id.as_str()
    }

    /// Whether the parts that describe an attached file are all there or all
    /// missing, as they are in what the site serves.
    pub open spec fn attachment_consistent(&self) -> bool {
        (self.ext is Some) == (self.filename is Some) && (self.filename is Some) == (self.tim
            is Some)
    }
}

/// A thread: its posts in the order they were made. The first one opened the
/// thread and carries its subject and its count of replies.
#[derive(Clone, Debug, PartialEq, Eq)]
pub struct Thread {
    pub posts: Vec<ThreadPost>,
}

impl Thread {
    pub fn posts(&self) -> (posts: &[ThreadPost])
        ensures
            posts@ == self.posts@,
    {
        self.posts.as_slice()
    }
}

} // verus!
