use newsletter::post::{PartialPost, Post, PAGE_URL};

fn sample() -> Post {
    Post::new(
        8863,
        String::from("dhouston"),
        String::from("http://www.getdropbox.com/u/2/screencast.html"),
        111,
        String::from("My YC app: Dropbox"),
    )
}

#[test]
fn post_new_keeps_every_field() {
    let post = sample();
    assert_eq!(post.id, 8863);
    assert_eq!(post.by, "dhouston");
    assert_eq!(post.url, "http://www.getdropbox.com/u/2/screencast.html");
    assert_eq!(post.score, 111);
    assert_eq!(post.title, "My YC app: Dropbox");
}

#[test]
fn post_empty_has_every_field_at_its_default() {
    let post = Post::empty();
    assert_eq!(post.id, 0);
    assert_eq!(post.by, "");
    assert_eq!(post.url, "");
    assert_eq!(post.score, 0);
    assert_eq!(post.title, "");
}

#[test]
fn post_empty_is_empty() {
    assert!(Post::empty().is_empty());
    assert!(Post::new(0, String::new(), String::new(), 0, String::new()).is_empty());
}

#[test]
fn post_with_any_field_set_is_not_empty() {
    assert!(!sample().is_empty());
    assert!(!Post::new(1, String::new(), String::new(), 0, String::new()).is_empty());
    assert!(!Post::new(0, String::from("a"), String::new(), 0, String::new()).is_empty());
    assert!(!Post::new(0, String::new(), String::from("u"), 0, String::new()).is_empty());
    assert!(!Post::new(0, String::new(), String::new(), -1, String::new()).is_empty());
    assert!(!Post::new(0, String::new(), String::new(), 0, String::from("t")).is_empty());
}

#[test]
fn post_is_empty_agrees_with_equality() {
    for post in [Post::empty(), sample()] {
        assert_eq!(post.is_empty(), post == Post::empty());
    }
}

#[test]
fn partial_post_empty_has_an_empty_address() {
    let partial = PartialPost::empty();
    assert_eq!(partial.id, 0);
    assert_eq!(partial.by, "");
    assert_eq!(partial.url, Some(String::new()));
    assert_eq!(partial.score, 0);
    assert_eq!(partial.title, "");
}

#[test]
fn partial_post_empty_becomes_the_empty_post() {
    let post = PartialPost::empty().to_post();
    assert_eq!(post, Post::empty());
    assert!(post.is_empty());
}

#[test]
fn to_post_keeps_a_present_address() {
    let partial = PartialPost {
        id: 8863,
        by: String::from("dhouston"),
        url: Some(String::from("http://www.getdropbox.com/u/2/screencast.html")),
        score: 111,
        title: String::from("My YC app: Dropbox"),
    };
    assert_eq!(partial.to_post(), sample());
}

#[test]
fn to_post_fills_a_missing_address_with_the_item_page() {
    let partial = PartialPost {
        id: 121003,
        by: String::from("tel"),
        url: None,
        score: 25,
        title: String::from("Ask HN: The Arc Effect"),
    };
    let post = partial.to_post();
    assert_eq!(post.url, "https://news.ycombinator.com/item?id=121003");
    assert_eq!(post.url, format!("{}{}", PAGE_URL, 121003));
    assert_eq!(post.id, 121003);
    assert_eq!(post.by, "tel");
    assert_eq!(post.score, 25);
    assert_eq!(post.title, "Ask HN: The Arc Effect");
}

#[test]
fn to_post_fills_the_address_of_the_largest_identifier() {
    let partial = PartialPost {
        id: u32::MAX,
        by: String::new(),
        url: None,
        score: 0,
        title: String::new(),
    };
    assert_eq!(partial.to_post().url, "https://news.ycombinator.com/item?id=4294967295");
}

#[test]
fn a_record_without_address_and_content_is_not_empty_once_filled() {
    let partial =
        PartialPost { id: 0, by: String::new(), url: None, score: 0, title: String::new() };
    let post = partial.to_post();
    assert_eq!(post.url, "https://news.ycombinator.com/item?id=0");
    assert!(!post.is_empty());
}

#[test]
fn from_post_marks_the_address_as_present() {
    let partial = PartialPost::from_post(sample());
    assert_eq!(partial.id, 8863);
    assert_eq!(partial.by, "dhouston");
    assert_eq!(partial.url, Some(String::from("http://www.getdropbox.com/u/2/screencast.html")));
    assert_eq!(partial.score, 111);
    assert_eq!(partial.title, "My YC app: Dropbox");
}

#[test]
fn from_post_then_to_post_gives_the_post_back() {
    assert_eq!(PartialPost::from_post(sample()).to_post(), sample());
}

#[test]
fn filling_the_address_twice_changes_nothing() {
    let partial = PartialPost {
        id: 42,
        by: String::from("a"),
        url: None,
        score: -3,
        title: String::from("t"),
    };
    let once = partial.to_post();
    let twice = PartialPost::from_post(once.clone()).to_post();
    assert_eq!(once.url, "https://news.ycombinator.com/item?id=42");
    assert_eq!(twice.url, once.url);
    assert_eq!(twice, once);
}
