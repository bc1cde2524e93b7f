//! The page-by-page post stream and the buffer that holds every post it has
//! handed out. Fetching is done by the caller: the stream says which cursor
//! to fetch with next, and takes in what the fetch gave.
use vstd::prelude::*;
use crate::client::RedditClient;
use crate::post::{FetchError, PageView, PostView, RedditPost, RedditPosts, opt_view, posts_view};

verus! {

/// The stream's state: where the next page starts, and whether it has ended.
pub struct RedditPostsIterator {
    pub client: RedditClient,
    pub subreddit: String,
    pub exhausted: bool,
    pub next_posts: Option<String>,
}

/// The mathematical state of the stream and its buffer.
pub struct StreamView {
    pub buffer: Seq<PostView>,
    pub exhausted: bool,
    pub cursor: Option<Seq<char>>,
}

/// The value of a fetch's result.
pub open spec fn result_view(fetched: Result<RedditPosts, FetchError>) -> Result<PageView, FetchError> {
    match fetched {
        Ok(p) => Ok(p@),
        Err(e) => Err(e),
    }
}

/// The value of a fetch request: the cursor to fetch with, if any fetch.
pub open spec fn request_view(r: Option<Option<String>>) -> Option<Option<Seq<char>>> {
    match r {
        Some(c) => Some(opt_view(c)),
        None => None,
    }
}

/// The state after taking in the result of one fetch: a page's posts are
/// appended whole and its cursor is kept; the stream ends on a failed fetch
/// and on a page that names no next page.
pub open spec fn absorb(s: StreamView, fetched: Result<PageView, FetchError>) -> StreamView {
    match fetched {
        Ok(page) => StreamView {
            buffer: s.buffer + page.posts,
            exhausted: page.next is None,
            cursor: page.next,
        },
        Err(_) => StreamView { buffer: s.buffer, exhausted: true, cursor: None },
    }
}

/// The fetch owed before the buffer holds `amount` posts: the cursor to
/// fetch with, or `None` when the buffer holds enough or the stream ended.
pub open spec fn pending(s: StreamView, amount: nat) -> Option<Option<Seq<char>>> {
    if s.buffer.len() < amount && !s.exhausted {
        Some(s.cursor)
    } else {
        None
    }
}

impl RedditPostsIterator {
    /// A stream over `subreddit`'s newest posts, starting at the first page.
    pub fn new(client: RedditClient, subreddit: String) -> (r: RedditPostsIterator)
        ensures
            r.client == client,
            r.subreddit == subreddit,
            !r.exhausted,
            r.next_posts is None,
    {
        RedditPostsIterator { client, subreddit, exhausted: false, next_posts: None }
    }

    /// The cursor that the next page is to be fetched with (`Some(None)` for
    /// the first page), or `None` once the stream has ended.
    pub fn next_cursor(&self) -> (r: Option<Option<String>>)
        ensures
            self.exhausted ==> r is None,
            !self.exhausted ==> request_view(r) == Some(opt_view(self.next_posts)),
    {
        if self.exhausted {
            None
        } else {
            match &self.next_posts {
                Some(c) => Some(Some(c.clone())),
                None => Some(None),
            }
        }
    }

    /// Takes in the result of fetching with `next_cursor`'s cursor and hands
    /// out the fetched page; a failed fetch ends the stream.
    pub fn next(&mut self, fetched: Result<RedditPosts, FetchError>) -> (r: Option<RedditPosts>)
        requires
            !old(self).exhausted,
        ensures
            final(self).client == old(self).client,
            final(self).subreddit == old(self).subreddit,
            match fetched {
                Ok(page) => r == Some(page) && final(self).exhausted == (page.next_posts is None)
                    && opt_view(final(self).next_posts) == opt_view(page.next_posts),
                Err(_) => r is None && final(self).exhausted && final(self).next_posts is None,
            },
    {
        match fetched {
            Ok(page) => {
                self.next_posts = match &page.next_posts {
                    Some(c) => Some(c.clone()),
                    None => None,
                };
                self.exhausted = self.next_posts.is_none();
                Some(page)
            },
            Err(_) => {
                self.exhausted = true;
                self.next_posts = None;
                None
            },
        }
    }
}

/// The stream together with every post it has handed out, in order.
pub struct TerminalRenderer {
    pub iterator: RedditPostsIterator,
    pub buffer: Vec<RedditPost>,
}

impl TerminalRenderer {
    /// The mathematical state of the stream and its buffer.
    pub open spec fn state(self) -> StreamView {
        StreamView {
            buffer: posts_view(self.buffer@),
            exhausted: self.iterator.exhausted,
            cursor: opt_view(self.iterator.next_posts),
        }
    }

    /// A renderer over `iterator`, with nothing buffered yet.
    pub fn new(iterator: RedditPostsIterator) -> (r: TerminalRenderer)
        ensures
            r.iterator == iterator,
            r.buffer@.len() == 0,
    {
        TerminalRenderer { iterator, buffer: Vec::new() }
    }

    /// The cursor to fetch with before the buffer can hold `amount` posts,
    /// or `None` when it holds that many or the stream has ended.
    pub fn pending_fetch(&self, amount: usize) -> (r: Option<Option<String>>)
        ensures
            request_view(r) == pending(self.state(), amount as nat),
    {
        if self.buffer.len() < amount {
            self.iterator.next_cursor()
        } else {
            None
        }
    }

    /// Takes in the result of the fetch that `pending_fetch` asked for:
    /// the page's posts are appended whole.
    pub fn fill_buffer(&mut self, fetched: Result<RedditPosts, FetchError>)
        requires
            !old(self).iterator.exhausted,
        ensures
            final(self).state() == absorb(old(self).state(), result_view(fetched)),
            final(self).iterator.client == old(self).iterator.client,
            final(self).iterator.subreddit == old(self).iterator.subreddit,
            final(self).buffer@.len() >= old(self).buffer@.len(),
            final(self).buffer@.subrange(0, old(self).buffer@.len() as int) == old(self).buffer@,
    {
        match self.iterator.next(fetched) {
            Some(page) => {
                let ghost before = self.buffer@;
                let mut posts = page.posts;
                self.buffer.append(&mut posts);
                assert(self.buffer@.subrange(0, before.len() as int) == before);
                assert(posts_view(self.buffer@) == posts_view(before) + posts_view(page.posts@));
            },
            None => {},
        }
    }
}

/// The posts of a sequence of pages, one page after another.
pub open spec fn flat_posts(pages: Seq<PageView>) -> Seq<PostView>
    decreases pages.len(),
{
    if pages.len() == 0 {
        Seq::empty()
    } else {
        flat_posts(pages.drop_last()) + pages.last().posts
    }
}

/// The state after taking in each of `pages`, in order, as fetched.
pub open spec fn absorb_all(s: StreamView, pages: Seq<PageView>) -> StreamView
    decreases pages.len(),
{
    if pages.len() == 0 {
        s
    } else {
        absorb(absorb_all(s, pages.drop_last()), Ok(pages.last()))
    }
}

/// The pages of a finite collection as the source hands them out: every
/// page but the last names a next page, and the last names none.
pub open spec fn is_collection(pages: Seq<PageView>) -> bool {
    &&& pages.len() > 0
    &&& forall|i: int| 0 <= i < pages.len() - 1 ==> (#[trigger] pages[i]).next is Some
    &&& pages.last().next is None
}

/// A fresh stream: nothing buffered, not ended, first page next.
pub open spec fn is_fresh(s: StreamView) -> bool {
    s.buffer.len() == 0 && !s.exhausted && s.cursor is None
}

proof fn lemma_absorb_prefix(s: StreamView, pages: Seq<PageView>, k: int)
    requires
        !s.exhausted,
        is_collection(pages),
        0 <= k <= pages.len(),
    ensures
        absorb_all(s, pages.take(k)).buffer == s.buffer + flat_posts(pages.take(k)),
        k < pages.len() ==> !absorb_all(s, pages.take(k)).exhausted,
        k == pages.len() ==> absorb_all(s, pages.take(k)).exhausted,
        k == 0 ==> absorb_all(s, pages.take(k)).cursor == s.cursor,
        k > 0 ==> absorb_all(s, pages.take(k)).cursor == pages[k - 1].next,
    decreases k,
{
    if k > 0 {
        lemma_absorb_prefix(s, pages, k - 1);
        assert(pages.take(k).drop_last() == pages.take(k - 1));
        assert(pages.take(k).last() == pages[k - 1]);
        if k < pages.len() {
            assert(pages[k - 1].next is Some);
        }
        assert(s.buffer + flat_posts(pages.take(k - 1)) + pages[k - 1].posts
            == s.buffer + (flat_posts(pages.take(k - 1)) + pages[k - 1].posts));
    } else {
        assert(pages.take(0).len() == 0);
        assert(s.buffer + flat_posts(pages.take(0)) == s.buffer);
    }
}

proof fn lemma_flat_prefix_len(pages: Seq<PageView>, k: int)
    requires
        0 <= k <= pages.len(),
    ensures
        flat_posts(pages.take(k)).len() <= flat_posts(pages).len(),
    decreases pages.len() - k,
{
    if k < pages.len() {
        lemma_flat_prefix_len(pages, k + 1);
        assert(pages.take(k + 1).drop_last() == pages.take(k));
    } else {
        assert(pages.take(k) == pages);
    }
}

/// From any state that has not ended, fed the remaining pages of a finite
/// collection, with an amount that the collection cannot fill: the stream
/// asks for a fetch once per remaining page and then for none, so the
/// filling stops, and its buffer is the old buffer followed by every
/// remaining post in order, the most it can hold.
pub proof fn lemma_fill_stops_at_end(s: StreamView, pages: Seq<PageView>, amount: nat)
    requires
        !s.exhausted,
        is_collection(pages),
        s.buffer.len() + flat_posts(pages).len() < amount,
    ensures
        forall|k: int| 0 <= k < pages.len() ==> (#[trigger] pending(absorb_all(s, pages.take(k)), amount)) is Some,
        absorb_all(s, pages).buffer == s.buffer + flat_posts(pages),
        pending(absorb_all(s, pages), amount) is None,
{
    assert forall|k: int| 0 <= k < pages.len() implies (#[trigger] pending(absorb_all(s, pages.take(k)), amount)) is Some by {
        lemma_absorb_prefix(s, pages, k);
        lemma_flat_prefix_len(pages, k);
    }
    lemma_absorb_prefix(s, pages, pages.len() as int);
    assert(pages.take(pages.len() as int) == pages);
}

/// A failed fetch ends the stream at once and keeps the buffer: no further
/// fetch is asked for, whatever the amount.
pub proof fn lemma_failure_ends_stream(s: StreamView, e: FetchError)
    ensures
        absorb(s, Err(e)).buffer == s.buffer,
        forall|n: nat| (#[trigger] pending(absorb(s, Err(e)), n)) is None,
{
}

/// Fed the pages of a finite collection in order, a fresh stream fetches
/// the first page without a cursor and each later page with the cursor of
/// the page before it, asks for more while pages remain, and then ends: its
/// buffer holds every page's posts, in page order and within a page in
/// source order, and it asks for no further fetch, whatever the amount.
pub proof fn lemma_stream_drains_collection(s: StreamView, pages: Seq<PageView>)
    requires
        is_fresh(s),
        is_collection(pages),
    ensures
        forall|k: int| 0 <= k < pages.len() ==> !(#[trigger] absorb_all(s, pages.take(k))).exhausted,
        absorb_all(s, pages.take(0)).cursor is None,
        forall|k: int|
            0 < k < pages.len() ==> (#[trigger] absorb_all(s, pages.take(k))).cursor == pages[k - 1].next,
        absorb_all(s, pages).buffer == flat_posts(pages),
        forall|n: nat| (#[trigger] pending(absorb_all(s, pages), n)) is None,
{
    assert forall|k: int| 0 <= k < pages.len() implies !(#[trigger] absorb_all(s, pages.take(k))).exhausted by {
        lemma_absorb_prefix(s, pages, k);
    }
    assert(s.buffer + flat_posts(pages) == flat_posts(pages));
    lemma_absorb_prefix(s, pages, 0);
    assert forall|k: int| 0 < k < pages.len() implies (#[trigger] absorb_all(s, pages.take(k))).cursor
        == pages[k - 1].next by {
        lemma_absorb_prefix(s, pages, k);
    }
    lemma_absorb_prefix(s, pages, pages.len() as int);
    assert(pages.take(pages.len() as int) == pages);
}

/// Two pages taken in after one another leave the first page's posts
/// followed by the second's.
pub proof fn lemma_two_pages_in_order(s: StreamView, first: PageView, second: PageView)
    requires
        is_fresh(s),
        first.next is Some,
    ensures
        absorb(absorb(s, Ok(first)), Ok(second)).buffer == first.posts + second.posts,
{
    assert(s.buffer + first.posts == first.posts);
}

} // verus!
