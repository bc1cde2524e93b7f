use reddit_browser::client::{AuthError, RedditAccessToken, RedditClient};
use reddit_browser::layout::{post_link, post_text};
use reddit_browser::post::{RedditPost, RedditPosts};
use reddit_browser::screen::Screen;
use reddit_browser::stream::{RedditPostsIterator, TerminalRenderer};

fn post(title: &str, sub: &str, score: i64) -> RedditPost {
    RedditPost {
        title: title.to_string(),
        subreddit: sub.to_string(),
        score,
        permalink: format!("/r/{}/{}", sub, title),
    }
}

#[test]
fn line_layout_pads_score_and_subreddit() {
    assert_eq!(post_text(&post("Hello", "rust", 42), 100), "    42 | rust       | Hello");
    assert_eq!(post_text(&post("T", "sub", -7), 100), "    -7 | sub        | T");
    assert_eq!(
        post_text(&post("x", "averylongsubreddit", 1234567), 100),
        "1234567 | averylongsubreddit | x"
    );
}

#[test]
fn line_is_cut_to_width() {
    assert_eq!(post_text(&post("Hello", "rust", 42), 10), "    42 | r");
    assert_eq!(post_text(&post("Hello", "rust", 42), 0), "");
    assert_eq!(post_text(&post("héllo wörld", "rust", 0), 24), "     0 | rust       | hé");
}

#[test]
fn link_is_absolute() {
    assert_eq!(post_link(&post("a", "rust", 0)), "https://reddit.com/r/rust/a");
}

fn filled(n: usize) -> TerminalRenderer {
    let client = RedditClient::new(RedditAccessToken { access_token: "tok".to_string() });
    let mut r = TerminalRenderer::new(RedditPostsIterator::new(client, "rust".to_string()));
    let posts = (0..n).map(|i| post(&format!("post{}", i), "rust", i as i64)).collect();
    r.fill_buffer(Ok(RedditPosts { posts, next_posts: None }));
    r
}

#[test]
fn render_shows_window_and_selected_link() {
    let r = filled(10);
    let s = Screen { line: 4, upper_line: 3, height: 3, width: 80 };
    let lines = r.render(&s);
    assert_eq!(lines.len(), 3);
    assert_eq!(lines[0].text, "     3 | rust       | post3");
    assert_eq!(lines[0].link, None);
    assert_eq!(lines[1].text, "     4 | rust       | post4");
    assert_eq!(lines[1].link, Some("https://reddit.com/r/rust/post4".to_string()));
    assert_eq!(lines[2].link, None);
}

#[test]
fn render_tolerates_short_buffer() {
    let r = filled(2);
    let lines = r.render(&Screen::new(80, 5));
    assert_eq!(lines.len(), 2);
    let empty = filled(0);
    assert!(empty.render(&Screen::new(80, 5)).is_empty());
    let far = Screen { line: 7, upper_line: 6, height: 3, width: 80 };
    assert!(r.render(&far).is_empty());
}

#[test]
fn client_builds_request_parts() {
    let c = RedditClient::new(RedditAccessToken { access_token: "abc".to_string() });
    assert_eq!(c.authorization(), "bearer abc");
    assert_eq!(c.listing_url("rust"), "https://oauth.reddit.com/r/rust/new.json");
}

#[test]
fn token_reply_without_token_is_rejected() {
    assert_eq!(RedditAccessToken::get_access_token(None).unwrap_err(), AuthError::Rejected);
    let t = RedditAccessToken::get_access_token(Some("xyz".to_string())).unwrap();
    assert_eq!(t.access_token, "xyz");
}

#[test]
fn token_form_asks_for_password_grant() {
    let form = RedditAccessToken::token_form("alice", "pw");
    let expected = vec![
        ("grant_type".to_string(), "password".to_string()),
        ("username".to_string(), "alice".to_string()),
        ("password".to_string(), "pw".to_string()),
    ];
    assert_eq!(form, expected);
}
