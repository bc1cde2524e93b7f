//! Posts, the raw listing entries they are decoded from, and pages.
use vstd::prelude::*;

verus! {

/// A post as the viewer shows it.
#[derive(Debug)]
pub struct RedditPost {
    pub title: String,
    pub subreddit: String,
    pub score: i64,
    pub permalink: String,
}

/// The mathematical value of a post.
pub struct PostView {
    pub title: Seq<char>,
    pub subreddit: Seq<char>,
    pub score: int,
    pub permalink: Seq<char>,
}

impl View for RedditPost {
    type V = PostView;

    open spec fn view(&self) -> PostView {
        PostView {
            title: self.title@,
            subreddit: self.subreddit@,
            score: self.score as int,
            permalink: self.permalink@,
        }
    }
}

/// One entry of a listing as it arrived: each field is `None` where the
/// entry lacks it or holds a value of another type.
#[derive(Debug)]
pub struct RawPost {
    pub title: Option<String>,
    pub subreddit: Option<String>,
    pub score: Option<i64>,
    pub permalink: Option<String>,
}

/// A listing envelope as it arrived: its entries (`None` where the envelope
/// holds no list of entries) and its continuation cursor.
#[derive(Debug)]
pub struct RawListing {
    pub children: Option<Vec<RawPost>>,
    pub after: Option<String>,
}

/// One fetched page: its posts in source order and the cursor of the next
/// page, `None` when no page follows.
#[derive(Debug)]
pub struct RedditPosts {
    pub posts: Vec<RedditPost>,
    pub next_posts: Option<String>,
}

/// The mathematical value of a page.
pub struct PageView {
    pub posts: Seq<PostView>,
    pub next: Option<Seq<char>>,
}

/// The text of an optional string.
pub open spec fn opt_view(s: Option<String>) -> Option<Seq<char>> {
    match s {
        Some(t) => Some(t@),
        None => None,
    }
}

/// The values of a list of posts.
pub open spec fn posts_view(v: Seq<RedditPost>) -> Seq<PostView> {
    v.map_values(|p: RedditPost| p@)
}

impl View for RedditPosts {
    type V = PageView;

    open spec fn view(&self) -> PageView {
        PageView { posts: posts_view(self.posts@), next: opt_view(self.next_posts) }
    }
}

/// Why a page could not be had.
#[derive(Clone, Copy, Debug, PartialEq, Eq)]
pub enum FetchError {
    /// The request failed in transport.
    Network,
    /// The response held no list of entries.
    Decode,
}

/// The post that an entry decodes to: one exactly when every field is there.
pub open spec fn decoded_post(raw: RawPost) -> Option<PostView> {
    match (raw.title, raw.subreddit, raw.score, raw.permalink) {
        (Some(t), Some(s), Some(n), Some(p)) => Some(
            PostView { title: t@, subreddit: s@, score: n as int, permalink: p@ },
        ),
        _ => None,
    }
}

/// The posts that a list of entries decodes to: those of the well-formed
/// entries, in their order.
pub open spec fn decoded_posts(raws: Seq<RawPost>) -> Seq<PostView>
    decreases raws.len(),
{
    if raws.len() == 0 {
        Seq::empty()
    } else {
        let init = decoded_posts(raws.drop_last());
        match decoded_post(raws.last()) {
            Some(p) => init.push(p),
            None => init,
        }
    }
}

/// The page that a listing decodes to, or the error it gives.
pub open spec fn decoded_listing(listing: RawListing) -> Result<PageView, FetchError> {
    match listing.children {
        Some(c) => Ok(PageView { posts: decoded_posts(c@), next: opt_view(listing.after) }),
        None => Err(FetchError::Decode),
    }
}

fn clone_text(s: &Option<String>) -> (r: Option<String>)
    ensures
        opt_view(r) == opt_view(*s),
{
    match s {
        Some(t) => Some(t.clone()),
        None => None,
    }
}

impl RawPost {
    /// Decodes one entry; `None` where a field is missing or malformed.
    pub fn decode(&self) -> (r: Option<RedditPost>)
        ensures
            match r {
                Some(p) => decoded_post(*self) == Some(p@),
                None => decoded_post(*self) is None,
            },
    {
        match (&self.title, &self.subreddit, &self.score, &self.permalink) {
            (Some(t), Some(s), Some(n), Some(p)) => Some(
                RedditPost {
                    title: t.clone(),
                    subreddit: s.clone(),
                    score: *n,
                    permalink: p.clone(),
                },
            ),
            _ => None,
        }
    }
}

/// Decodes the entries of one page, skipping the malformed ones.
pub fn decode_posts(raws: &Vec<RawPost>) -> (r: Vec<RedditPost>)
    ensures
        posts_view(r@) == decoded_posts(raws@),
{
    let mut out: Vec<RedditPost> = Vec::new();
    let mut i: usize = 0;
    while i < raws.len()
        invariant
            i <= raws.len(),
            posts_view(out@) == decoded_posts(raws@.subrange(0, i as int)),
        decreases raws.len() - i,
    {
        let ghost before = out@;
        let decoded = raws[i].decode();
        proof {
            assert(raws@.subrange(0, i + 1).drop_last() == raws@.subrange(0, i as int));
            assert(raws@.subrange(0, i + 1).last() == raws@[i as int]);
        }
        match decoded {
            Some(p) => {
                out.push(p);
                assert(posts_view(out@) == posts_view(before).push(p@));
            },
            None => {},
        }
        i = i + 1;
    }
    assert(raws@.subrange(0, raws.len() as int) == raws@);
    out
}

impl RawListing {
    /// Decodes a listing into a page: `Decode` where it holds no list of
    /// entries, else its well-formed posts in order and its cursor.
    pub fn decode(&self) -> (r: Result<RedditPosts, FetchError>)
        ensures
            match r {
                Ok(page) => decoded_listing(*self) == Ok::<PageView, FetchError>(page@),
                Err(e) => decoded_listing(*self) == Err::<PageView, FetchError>(e),
            },
    {
        match &self.children {
            Some(c) => Ok(RedditPosts { posts: decode_posts(c), next_posts: clone_text(&self.after) }),
            None => Err(FetchError::Decode),
        }
    }
}

/// Entries are decoded one by one: the posts of two lists of entries, put
/// one after the other, are the posts of each list, one after the other.
pub proof fn lemma_decoded_posts_append(a: Seq<RawPost>, b: Seq<RawPost>)
    ensures
        decoded_posts(a + b) == decoded_posts(a) + decoded_posts(b),
    decreases b.len(),
{
    if b.len() == 0 {
        assert(a + b == a);
        assert(decoded_posts(a) + decoded_posts(b) == decoded_posts(a));
    } else {
        lemma_decoded_posts_append(a, b.drop_last());
        assert((a + b).drop_last() == a + b.drop_last());
        assert((a + b).last() == b.last());
    }
}

/// A malformed entry is left out of its page's posts and does not stop the
/// decoding of the entries around it.
pub proof fn lemma_malformed_entry_skipped(a: Seq<RawPost>, bad: RawPost, b: Seq<RawPost>)
    requires
        decoded_post(bad) is None,
    ensures
        decoded_posts(a + seq![bad] + b) == decoded_posts(a) + decoded_posts(b),
{
    lemma_decoded_posts_append(a + seq![bad], b);
    lemma_decoded_posts_append(a, seq![bad]);
    let one = seq![bad];
    assert(one.drop_last().len() == 0);
    assert(decoded_posts(one.drop_last()) == Seq::<PostView>::empty());
    assert(decoded_posts(a) + decoded_posts(one) == decoded_posts(a));
}

/// Decoding a listing depends on its entries and cursor alone: two replies
/// that carry the same entries and cursor give the same page, with its
/// posts in the same order.
pub proof fn lemma_decode_deterministic(l1: RawListing, l2: RawListing)
    requires
        l1.children == l2.children,
        opt_view(l1.after) == opt_view(l2.after),
    ensures
        decoded_listing(l1) == decoded_listing(l2),
{
}

} // verus!
