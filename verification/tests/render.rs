use newsletter::post::Post;
use newsletter::render::{render, render_line, top_posts, HTML_LINE};

fn post(id: u32) -> Post {
    Post::new(
        id,
        format!("author{}", id),
        format!("http://example.org/{}", id),
        id as i16 * 3,
        format!("Title {}", id),
    )
}

fn posts(n: u32) -> Vec<Post> {
    (1..=n).map(post).collect()
}

fn expected_line(post: &Post) -> String {
    format!(
        "<li><a href=\"{}\">{}</a><br>&emsp;by {} | {} points</li>",
        post.url, post.title, post.by, post.score
    )
}

#[test]
fn html_line_is_the_fixed_fragment() {
    assert_eq!(
        HTML_LINE,
        "<li><a href=\"{PLACE:URL}\">{PLACE:TITLE}</a><br>&emsp;by {PLACE:BY} | {PLACE:SCORE} points</li>"
    );
}

#[test]
fn render_line_puts_the_four_values_in() {
    let post = Post::new(
        8863,
        String::from("dhouston"),
        String::from("http://www.getdropbox.com/u/2/screencast.html"),
        111,
        String::from("My YC app: Dropbox"),
    );
    assert_eq!(
        render_line(&post),
        "<li><a href=\"http://www.getdropbox.com/u/2/screencast.html\">My YC app: Dropbox</a><br>&emsp;by dhouston | 111 points</li>"
    );
}

#[test]
fn render_line_shows_a_negative_score() {
    let post = Post::new(1, String::from("a"), String::from("u"), -12, String::from("t"));
    assert_eq!(render_line(&post), "<li><a href=\"u\">t</a><br>&emsp;by a | -12 points</li>");
}

#[test]
fn render_line_shows_a_zero_score() {
    let post = Post::new(1, String::from("a"), String::from("u"), 0, String::from("t"));
    assert_eq!(render_line(&post), "<li><a href=\"u\">t</a><br>&emsp;by a | 0 points</li>");
}

#[test]
fn render_line_of_the_empty_post() {
    assert_eq!(render_line(&Post::empty()), "<li><a href=\"\"></a><br>&emsp;by  | 0 points</li>");
}

#[test]
fn render_line_does_not_escape() {
    let post =
        Post::new(1, String::from("<b>"), String::from("\"q\""), 1, String::from("a & b"));
    assert_eq!(
        render_line(&post),
        "<li><a href=\"\"q\"\">a & b</a><br>&emsp;by <b> | 1 points</li>"
    );
}

#[test]
fn render_line_substitutes_one_placeholder_after_the_other() {
    let post = Post::new(
        1,
        String::from("{PLACE:SCORE}"),
        String::from("{PLACE:TITLE}"),
        7,
        String::from("{PLACE:BY}"),
    );
    assert_eq!(render_line(&post), "<li><a href=\"7\">7</a><br>&emsp;by 7 | 7 points</li>");
}

#[test]
fn render_puts_lines_recipient_and_unsubscribe_address_in() {
    let items = posts(2);
    let template = "<h1>{PLACE:RECIPIENT}</h1><ul>\n{PLACE:ELEMENT}\n</ul><a href=\"{PLACE:UNSUBSCRIBE_URL}{PLACE:RECIPIENT}\">bye</a>";
    let body = render(&items, "a@x.com", template, "https://n.example/unsubscribe/?email=");
    let expected = format!(
        "<h1>a@x.com</h1><ul>\n{}\n{}\n</ul><a href=\"https://n.example/unsubscribe/?email=a@x.com\">bye</a>",
        expected_line(&items[0]),
        expected_line(&items[1])
    );
    assert_eq!(body, expected);
}

#[test]
fn render_keeps_the_order_of_the_items() {
    let items = vec![post(3), post(1), post(2)];
    let body = render(&items, "a@x.com", "{PLACE:ELEMENT}", "");
    let lines: Vec<&str> = body.split('\n').collect();
    assert_eq!(
        lines,
        vec![expected_line(&items[0]), expected_line(&items[1]), expected_line(&items[2])]
    );
}

#[test]
fn render_without_items_leaves_the_element_empty() {
    assert_eq!(render(&[], "a@x.com", "[{PLACE:ELEMENT}]", "u"), "[]");
}

#[test]
fn render_without_placeholders_gives_the_template() {
    let items = posts(3);
    assert_eq!(render(&items, "a@x.com", "<p>static</p>", "u"), "<p>static</p>");
}

#[test]
fn render_with_one_placeholder_missing() {
    let items = posts(1);
    let body = render(&items, "a@x.com", "{PLACE:RECIPIENT}|{PLACE:UNSUBSCRIBE_URL}", "bye");
    assert_eq!(body, "a@x.com|bye");
}

#[test]
fn render_of_an_empty_template_is_empty() {
    assert_eq!(render(&posts(2), "a@x.com", "", "u"), "");
}

#[test]
fn render_replaces_every_occurrence_of_a_placeholder() {
    let body = render(&[], "me", "{PLACE:RECIPIENT} and {PLACE:RECIPIENT}", "");
    assert_eq!(body, "me and me");
}

#[test]
fn render_is_deterministic() {
    let items = posts(4);
    let template = "{PLACE:RECIPIENT}\n{PLACE:ELEMENT}\n{PLACE:UNSUBSCRIBE_URL}";
    let first = render(&items, "a@x.com", template, "u");
    let second = render(&items.clone(), "a@x.com", template, "u");
    assert_eq!(first.as_bytes(), second.as_bytes());
}

#[test]
fn render_agrees_with_chained_replace() {
    let items = posts(3);
    let template = "Hi {PLACE:RECIPIENT}!\n<ul>{PLACE:ELEMENT}</ul>\n{PLACE:UNSUBSCRIBE_URL}";
    let elements: Vec<String> = items
        .iter()
        .map(|post| {
            HTML_LINE
                .replace("{PLACE:URL}", &post.url)
                .replace("{PLACE:TITLE}", &post.title)
                .replace("{PLACE:BY}", &post.by)
                .replace("{PLACE:SCORE}", &post.score.to_string())
        })
        .collect();
    let expected = template
        .replace("{PLACE:RECIPIENT}", "r@x.com")
        .replace("{PLACE:ELEMENT}", &elements.join("\n"))
        .replace("{PLACE:UNSUBSCRIBE_URL}", "https://u/");
    assert_eq!(render(&items, "r@x.com", template, "https://u/"), expected);
}

#[test]
fn render_puts_the_recipient_in_before_the_items() {
    let item = Post::new(
        1,
        String::from("{PLACE:RECIPIENT}"),
        String::from("u"),
        1,
        String::from("{PLACE:UNSUBSCRIBE_URL}"),
    );
    let body = render(&[item], "a@x.com", "{PLACE:ELEMENT}", "bye");
    assert_eq!(body, "<li><a href=\"u\">bye</a><br>&emsp;by {PLACE:RECIPIENT} | 1 points</li>");
}

#[test]
fn top_posts_takes_the_first_ones() {
    let items = posts(10);
    let top = top_posts(&items, 3);
    assert_eq!(top, &items[..3]);
}

#[test]
fn top_posts_takes_all_where_there_are_fewer() {
    let items = posts(4);
    assert_eq!(top_posts(&items, 10), &items[..]);
    assert_eq!(top_posts(&items, 4), &items[..]);
    assert_eq!(top_posts(&items, 255), &items[..]);
}

#[test]
fn top_posts_with_quota_zero_is_empty() {
    let items = posts(4);
    assert!(top_posts(&items, 0).is_empty());
}

#[test]
fn top_posts_of_no_items_is_empty() {
    assert!(top_posts(&Vec::new(), 5).is_empty());
}

#[test]
fn a_digest_has_as_many_lines_as_quota_and_items_allow() {
    for available in [0u32, 1, 4, 10] {
        for quota in [0u8, 1, 3, 4, 5, 10, 11, 255] {
            let items = posts(available);
            let body = render(top_posts(&items, quota), "a@x.com", "{PLACE:ELEMENT}", "");
            let lines: Vec<&str> = if body.is_empty() { Vec::new() } else { body.split('\n').collect() };
            let wanted = std::cmp::min(quota as usize, available as usize);
            assert_eq!(lines.len(), wanted);
            for (i, line) in lines.iter().enumerate() {
                assert_eq!(*line, expected_line(&items[i]));
            }
        }
    }
}
