use reddit_browser::post::{decode_posts, FetchError, RawListing, RawPost};

fn raw(title: &str, sub: &str, score: i64, link: &str) -> RawPost {
    RawPost {
        title: Some(title.to_string()),
        subreddit: Some(sub.to_string()),
        score: Some(score),
        permalink: Some(link.to_string()),
    }
}

#[test]
fn well_formed_entry_decodes() {
    let p = raw("Hello", "rust", 42, "/r/rust/comments/a/").decode().unwrap();
    assert_eq!(p.title, "Hello");
    assert_eq!(p.subreddit, "rust");
    assert_eq!(p.score, 42);
    assert_eq!(p.permalink, "/r/rust/comments/a/");
}

#[test]
fn entry_missing_a_field_is_rejected() {
    let mut r = raw("a", "b", 1, "c");
    r.score = None;
    assert!(r.decode().is_none());
    let mut r = raw("a", "b", 1, "c");
    r.title = None;
    assert!(r.decode().is_none());
    let mut r = raw("a", "b", 1, "c");
    r.subreddit = None;
    assert!(r.decode().is_none());
    let mut r = raw("a", "b", 1, "c");
    r.permalink = None;
    assert!(r.decode().is_none());
}

#[test]
fn one_malformed_entry_among_three_leaves_two_posts() {
    let mut bad = raw("second", "rust", 2, "/2");
    bad.permalink = None;
    let raws = vec![raw("first", "rust", 1, "/1"), bad, raw("third", "rust", 3, "/3")];
    let posts = decode_posts(&raws);
    assert_eq!(posts.len(), 2);
    assert_eq!(posts[0].title, "first");
    assert_eq!(posts[1].title, "third");
}

#[test]
fn empty_entry_list_decodes_to_no_posts() {
    let posts = decode_posts(&Vec::new());
    assert!(posts.is_empty());
}

#[test]
fn listing_without_entries_is_a_decode_error() {
    let listing = RawListing { children: None, after: Some("c1".to_string()) };
    assert_eq!(listing.decode().unwrap_err(), FetchError::Decode);
}

#[test]
fn listing_keeps_cursor_and_order() {
    let listing = RawListing {
        children: Some(vec![raw("x", "s", -5, "/x"), raw("y", "s", 7, "/y")]),
        after: Some("t3_abc".to_string()),
    };
    let page = listing.decode().unwrap();
    assert_eq!(page.next_posts, Some("t3_abc".to_string()));
    assert_eq!(page.posts.len(), 2);
    assert_eq!(page.posts[0].title, "x");
    assert_eq!(page.posts[0].score, -5);
    assert_eq!(page.posts[1].title, "y");
}

#[test]
fn decoding_same_listing_twice_gives_same_posts() {
    let listing = RawListing {
        children: Some(vec![raw("a", "s", 1, "/a"), raw("b", "s", 2, "/b"), raw("c", "s", 3, "/c")]),
        after: None,
    };
    let first = listing.decode().unwrap();
    let second = listing.decode().unwrap();
    let titles = |p: &reddit_browser::post::RedditPosts| {
        p.posts.iter().map(|x| x.title.clone()).collect::<Vec<String>>()
    };
    assert_eq!(titles(&first), titles(&second));
    assert_eq!(titles(&first), vec!["a", "b", "c"]);
    assert_eq!(first.next_posts, None);
}
