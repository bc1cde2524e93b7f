use reddit_browser::client::{RedditAccessToken, RedditClient};
use reddit_browser::input::{on_key, KeyAction};
use reddit_browser::post::{RedditPost, RedditPosts};
use reddit_browser::screen::Screen;
use reddit_browser::stream::{RedditPostsIterator, TerminalRenderer};

#[test]
fn keys_map_to_moves() {
    let s = Screen::new(80, 5);
    assert_eq!(on_key(s, 'q', 10, false), KeyAction::Quit);
    assert_eq!(on_key(s, 'j', 10, false), KeyAction::Show(s.down()));
    assert_eq!(on_key(s, 'k', 10, false), KeyAction::Show(s));
    assert_eq!(on_key(s, 'x', 10, false), KeyAction::Show(s));
    let lower = s.down().down();
    assert_eq!(on_key(lower, 'k', 10, false), KeyAction::Show(lower.up()));
}

#[test]
fn down_stops_at_last_post_of_ended_stream() {
    let s = Screen { line: 3, upper_line: 1, height: 5, width: 80 };
    assert_eq!(on_key(s, 'j', 4, true), KeyAction::Show(s));
    assert_eq!(on_key(s, 'j', 4, false), KeyAction::Show(s.down()));
    assert_eq!(on_key(s, 'j', 5, true), KeyAction::Show(s.down()));
}

#[test]
fn down_stops_at_largest_line() {
    let s = Screen { line: i32::MAX, upper_line: i32::MAX - 1, height: 5, width: 80 };
    assert_eq!(on_key(s, 'j', 0, false), KeyAction::Show(s));
}

fn ended_with(n: usize) -> TerminalRenderer {
    let client = RedditClient::new(RedditAccessToken { access_token: "tok".to_string() });
    let mut r = TerminalRenderer::new(RedditPostsIterator::new(client, "rust".to_string()));
    let posts = (0..n)
        .map(|i| RedditPost {
            title: format!("t{}", i),
            subreddit: "rust".to_string(),
            score: 0,
            permalink: format!("/x{}", i),
        })
        .collect();
    r.fill_buffer(Ok(RedditPosts { posts, next_posts: None }));
    r
}

#[test]
fn last_post_stays_highlighted_past_end() {
    let r = ended_with(3);
    let s = Screen { line: 3, upper_line: 1, height: 5, width: 80 };
    let lines = r.render(&s);
    assert_eq!(lines.len(), 2);
    assert_eq!(lines[0].link, None);
    assert_eq!(lines[1].link, Some("https://reddit.com/x2".to_string()));
}

#[test]
fn selection_inside_buffer_is_highlighted() {
    let r = ended_with(3);
    let lines = r.render(&Screen { line: 1, upper_line: 0, height: 5, width: 80 });
    assert_eq!(lines.len(), 3);
    assert_eq!(lines[1].link, Some("https://reddit.com/x1".to_string()));
    assert_eq!(lines[2].link, None);
}
