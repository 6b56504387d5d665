use newsletter::fetch::{
    get_postlist, get_posts, post_request, Listing, Lookup, POSTLIST_URL, POST_URL,
};
use newsletter::post::{PartialPost, Post};

fn record(id: u32, url: Option<&str>) -> PartialPost {
    PartialPost {
        id,
        by: format!("author{}", id),
        url: url.map(String::from),
        score: 10,
        title: format!("title {}", id),
    }
}

#[test]
fn endpoints_are_the_known_ones() {
    assert_eq!(POSTLIST_URL, "https://hacker-news.firebaseio.com/v0/topstories.json");
    assert_eq!(POST_URL, "https://hacker-news.firebaseio.com/v0/item/");
}

#[test]
fn get_postlist_truncates_to_the_count() {
    let listing = Listing::Ranked(vec![9, 8, 7, 6, 5]);
    assert_eq!(get_postlist(listing, 3), vec![9, 8, 7]);
}

#[test]
fn get_postlist_keeps_a_shorter_ranking() {
    let listing = Listing::Ranked(vec![9, 8]);
    assert_eq!(get_postlist(listing, 10), vec![9, 8]);
}

#[test]
fn get_postlist_of_exactly_the_count() {
    let listing = Listing::Ranked(vec![1, 2, 3]);
    assert_eq!(get_postlist(listing, 3), vec![1, 2, 3]);
}

#[test]
fn get_postlist_with_count_zero_is_empty() {
    assert_eq!(get_postlist(Listing::Ranked(vec![1, 2, 3]), 0), Vec::<u32>::new());
}

#[test]
fn get_postlist_of_an_empty_ranking_is_empty() {
    assert_eq!(get_postlist(Listing::Ranked(Vec::new()), 10), Vec::<u32>::new());
}

#[test]
fn get_postlist_of_a_failed_ranking_is_empty() {
    assert_eq!(get_postlist(Listing::Unreachable, 10), Vec::<u32>::new());
    assert_eq!(get_postlist(Listing::Malformed, 10), Vec::<u32>::new());
}

#[test]
fn get_postlist_of_a_long_ranking() {
    let ids: Vec<u32> = (0..500).collect();
    let expected: Vec<u32> = (0..255).collect();
    assert_eq!(get_postlist(Listing::Ranked(ids), 255), expected);
}

#[test]
fn post_request_names_the_record() {
    assert_eq!(post_request(8863), "https://hacker-news.firebaseio.com/v0/item/8863.json");
    assert_eq!(post_request(0), "https://hacker-news.firebaseio.com/v0/item/0.json");
    assert_eq!(post_request(u32::MAX), format!("{}{}.json", POST_URL, u32::MAX));
}

#[test]
fn resolve_of_a_failed_lookup_is_the_empty_post() {
    assert_eq!(Lookup::Unreachable.resolve(), Post::empty());
    assert_eq!(Lookup::Malformed.resolve(), Post::empty());
}

#[test]
fn resolve_of_a_record_fills_its_address() {
    let post = Lookup::Found(record(77, None)).resolve();
    assert_eq!(post.url, "https://news.ycombinator.com/item?id=77");
    let post = Lookup::Found(record(77, Some("http://e.org"))).resolve();
    assert_eq!(post.url, "http://e.org");
}

#[test]
fn get_posts_drops_failed_lookups_and_keeps_the_order() {
    let lookups = vec![
        Lookup::Found(record(3, Some("http://three"))),
        Lookup::Unreachable,
        Lookup::Found(record(1, None)),
        Lookup::Malformed,
        Lookup::Found(record(2, Some("http://two"))),
    ];
    let posts = get_posts(lookups);
    assert_eq!(
        posts,
        vec![
            record(3, Some("http://three")).to_post(),
            record(1, None).to_post(),
            record(2, Some("http://two")).to_post(),
        ]
    );
    assert_eq!(posts[1].url, "https://news.ycombinator.com/item?id=1");
}

#[test]
fn get_posts_drops_a_record_with_every_field_at_its_default() {
    let lookups = vec![
        Lookup::Found(PartialPost::empty()),
        Lookup::Found(record(5, None)),
        Lookup::Found(PartialPost::from_post(Post::empty())),
    ];
    assert_eq!(get_posts(lookups), vec![record(5, None).to_post()]);
}

#[test]
fn get_posts_of_only_failures_is_empty() {
    let lookups = vec![Lookup::Unreachable, Lookup::Malformed, Lookup::Unreachable];
    assert_eq!(get_posts(lookups), Vec::<Post>::new());
}

#[test]
fn get_posts_of_no_lookups_is_empty() {
    assert_eq!(get_posts(Vec::new()), Vec::<Post>::new());
}

#[test]
fn get_posts_keeps_equal_items() {
    let lookups = vec![Lookup::Found(record(5, None)), Lookup::Found(record(5, None))];
    assert_eq!(get_posts(lookups).len(), 2);
}

#[test]
fn an_empty_ranking_gives_nothing_to_look_up_and_no_items() {
    let ids = get_postlist(Listing::Ranked(Vec::new()), 10);
    let lookups: Vec<Lookup> = ids.iter().map(|_| Lookup::Unreachable).collect();
    assert!(get_posts(lookups).is_empty());
}

#[test]
fn a_fetch_has_no_more_items_than_were_asked_for() {
    let ids = get_postlist(Listing::Ranked((1..=50).collect()), 10);
    let lookups: Vec<Lookup> = ids.iter().map(|id| Lookup::Found(record(*id, None))).collect();
    assert_eq!(get_posts(lookups).len(), 10);
}
