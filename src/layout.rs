//! What one render of the viewport shows: the visible posts, each laid out
//! as one line of text cut to the terminal's width, and the link of the
//! selected post.
use vstd::prelude::*;
use vstd::string::*;
use crate::post::{PostView, RedditPost};
use crate::screen::Screen;
use crate::stream::TerminalRenderer;

verus! {

/// The character of a decimal digit.
pub open spec fn digit_char(d: nat) -> char {
    seq!['0', '1', '2', '3', '4', '5', '6', '7', '8', '9'][d as int]
}

/// The decimal digits of a natural number, without leading zeros.
pub open spec fn digits_of(n: nat) -> Seq<char>
    decreases n,
{
    if n < 10 {
        seq![digit_char(n)]
    } else {
        digits_of(n / 10) + seq![digit_char(n % 10)]
    }
}

/// An integer written in decimal, with a leading `-` when negative.
pub open spec fn decimal(n: int) -> Seq<char> {
    if n < 0 {
        seq!['-'] + digits_of((-n) as nat)
    } else {
        digits_of(n as nat)
    }
}

/// `n` spaces.
pub open spec fn spaces(n: nat) -> Seq<char> {
    Seq::new(n, |_i: int| ' ')
}

/// `s` with spaces before it, up to `w` characters.
pub open spec fn pad_left(s: Seq<char>, w: nat) -> Seq<char> {
    if s.len() >= w {
        s
    } else {
        spaces((w - s.len()) as nat) + s
    }
}

/// `s` with spaces after it, up to `w` characters.
pub open spec fn pad_right(s: Seq<char>, w: nat) -> Seq<char> {
    if s.len() >= w {
        s
    } else {
        s + spaces((w - s.len()) as nat)
    }
}

/// A post's line: its score in six columns, its subreddit in ten, its title.
pub open spec fn post_line(score: int, subreddit: Seq<char>, title: Seq<char>) -> Seq<char> {
    pad_left(decimal(score), 6) + " | "@ + pad_right(subreddit, 10) + " | "@ + title
}

/// The first `w` characters of `s`, or all of it when it is shorter.
pub open spec fn truncated(s: Seq<char>, w: nat) -> Seq<char> {
    if s.len() <= w {
        s
    } else {
        s.take(w as int)
    }
}

/// The external link of a post, from its relative permalink.
pub open spec fn link_of(permalink: Seq<char>) -> Seq<char> {
    "https://reddit.com"@ + permalink
}

/// Relies on `i64`'s `to_string` (its `Display`): the integer in decimal,
/// with a leading `-` when negative and no padding.
#[verifier::external_body]
fn decimal_text(n: i64) -> (r: String)
    ensures
        r@ == decimal(n as int),
{
    n.to_string()
}

/// A string of `n` spaces.
fn spaces_text(n: usize) -> (r: String)
    ensures
        r@ == spaces(n as nat),
{
    let mut s = String::new();
    let mut i: usize = 0;
    while i < n
        invariant
            i <= n,
            s@ == spaces(i as nat),
        decreases n - i,
    {
        s.append(" ");
        proof {
            reveal_strlit(" ");
        }
        assert(s@ =~= spaces((i + 1) as nat));
        i = i + 1;
    }
    s
}

/// `t` with spaces before it, up to `w` characters.
fn pad_text_left(t: &str, w: usize) -> (r: String)
    ensures
        r@ == pad_left(t@, w as nat),
{
    let n = t.unicode_len();
    let mut s = if n < w { spaces_text(w - n) } else { String::new() };
    s.append(t);
    assert(s@ =~= pad_left(t@, w as nat));
    s
}

/// `t` with spaces after it, up to `w` characters.
fn pad_text_right(t: &str, w: usize) -> (r: String)
    ensures
        r@ == pad_right(t@, w as nat),
{
    let n = t.unicode_len();
    let mut s = String::from_str(t);
    if n < w {
        let pad = spaces_text(w - n);
        s.append(pad.as_str());
    }
    s
}

/// A post's line as shown in a terminal `width` columns wide.
pub fn post_text(post: &RedditPost, width: usize) -> (r: String)
    ensures
        r@ == truncated(post_line(post.score as int, post.subreddit@, post.title@), width as nat),
{
    let number = decimal_text(post.score);
    let mut line = pad_text_left(number.as_str(), 6);
    let subreddit = pad_text_right(post.subreddit.as_str(), 10);
    line.append(" | ");
    line.append(subreddit.as_str());
    line.append(" | ");
    line.append(post.title.as_str());
    assert(line@ =~= post_line(post.score as int, post.subreddit@, post.title@));
    let n = line.as_str().unicode_len();
    if n <= width {
        line
    } else {
        String::from_str(line.as_str().substring_char(0, width))
    }
}

/// A post's external link.
pub fn post_link(post: &RedditPost) -> (r: String)
    ensures
        r@ == link_of(post.permalink@),
{
    let mut s = String::from_str("https://reddit.com");
    s.append(post.permalink.as_str());
    s
}

/// One shown line: the post's text, and its link where it is the selected
/// post.
#[derive(Debug)]
pub struct RenderedLine {
    pub text: String,
    pub link: Option<String>,
}

/// How many posts a viewport shows out of a buffer of `len` posts: those
/// from `upper_line` on, at most `height` of them.
pub open spec fn visible_count(len: int, s: Screen) -> int {
    let end = if s.upper_line + s.height < len { s.upper_line + s.height } else { len };
    if end > s.upper_line { end - s.upper_line } else { 0 }
}

/// The index of the highlighted post: the selection, but the last post
/// once the stream has ended and the selection lies past the buffered posts.
pub open spec fn highlighted(len: int, ended: bool, s: Screen) -> int {
    if ended && len > 0 && s.line >= len {
        len - 1
    } else {
        s.line as int
    }
}

/// What the line of post `p` at `index` shows under viewport `s`, with the
/// post at `selected` highlighted.
pub open spec fn line_shows(r: RenderedLine, p: PostView, index: int, s: Screen, selected: int) -> bool {
    &&& r.text@ == truncated(post_line(p.score, p.subreddit, p.title), s.width as nat)
    &&& index == selected ==> (r.link matches Some(l) && l@ == link_of(p.permalink))
    &&& index != selected ==> r.link is None
}

impl TerminalRenderer {
    /// The lines of one render: the buffered posts with index in
    /// `[upper_line, upper_line + height)`, in order; fewer where the
    /// buffer ends sooner. Once the stream has ended, a selection past the
    /// buffered posts leaves the last post highlighted.
    pub fn render(&self, screen: &Screen) -> (r: Vec<RenderedLine>)
        requires
            screen.wf(),
        ensures
            r@.len() == visible_count(self.buffer@.len() as int, *screen),
            forall|k: int|
                0 <= k < r@.len() ==> line_shows(
                    #[trigger] r@[k],
                    self.buffer@[screen.upper_line + k]@,
                    screen.upper_line + k,
                    *screen,
                    highlighted(self.buffer@.len() as int, self.iterator.exhausted, *screen),
                ),
            ({
                let n = self.buffer@.len() as int;
                self.iterator.exhausted && n > 0 && screen.line >= n - 1 && screen.upper_line <= n - 1
                    ==> (r@[n - 1 - screen.upper_line].link matches Some(l)
                        && l@ == link_of(self.buffer@[n - 1]@.permalink))
            }),
    {
        let len = self.buffer.len();
        let selected: usize = if self.iterator.exhausted && len > 0 && screen.line as usize >= len {
            len - 1
        } else {
            screen.line as usize
        };
        let first = screen.upper_line as usize;
        let stop = first as u64 + screen.height as u64;
        let capped: usize = if stop < self.buffer.len() as u64 { stop as usize } else { self.buffer.len() };
        let end: usize = if capped < first { first } else { capped };
        let width = screen.width as usize;
        let mut out: Vec<RenderedLine> = Vec::new();
        let mut i: usize = first;
        while i < end
            invariant
                first == screen.upper_line,
                first <= i <= end,
                end == first || end <= self.buffer@.len(),
                end - first == visible_count(self.buffer@.len() as int, *screen),
                width == screen.width,
                screen.wf(),
                out@.len() == i - first,
                forall|k: int|
                    0 <= k < out@.len() ==> line_shows(
                        #[trigger] out@[k],
                        self.buffer@[screen.upper_line + k]@,
                        screen.upper_line + k,
                        *screen,
                        highlighted(self.buffer@.len() as int, self.iterator.exhausted, *screen),
                    ),
                selected == highlighted(self.buffer@.len() as int, self.iterator.exhausted, *screen),
                len == self.buffer@.len(),
            decreases end - i,
        {
            let post = &self.buffer[i];
            let text = post_text(post, width);
            let link = if i == selected {
                Some(post_link(post))
            } else {
                None
            };
            out.push(RenderedLine { text, link });
            i = i + 1;
        }
        proof {
            let n = self.buffer@.len() as int;
            if self.iterator.exhausted && n > 0 && screen.line >= n - 1 && screen.upper_line <= n - 1 {
                let k = n - 1 - screen.upper_line;
                assert(0 <= k < out@.len());
                assert(line_shows(
                    out@[k],
                    self.buffer@[screen.upper_line + k]@,
                    screen.upper_line + k,
                    *screen,
                    highlighted(n, self.iterator.exhausted, *screen),
                ));
            }
        }
        out
    }
}

} // verus!
