//! The digest renderer: one line per item, joined in ranking order and
//! put into the template together with the recipient's address and the
//! address under which the recipient unsubscribes.

use crate::fetch::{first, gathered, lemma_empty_is_dropped, LookupView};
use crate::post::{post_views, Post, PostView};
use crate::text::{decimal, decimal_of, join, join_lines, replace_all, substitute};
use vstd::prelude::*;
use vstd::slice::slice_subrange;

verus! {

/// The line of one item, with a placeholder for each thing it shows.
pub const HTML_LINE: &'static str =
    "<li><a href=\"{PLACE:URL}\">{PLACE:TITLE}</a><br>&emsp;by {PLACE:BY} | {PLACE:SCORE} points</li>";

/// Stands for the item's address in [`HTML_LINE`].
pub const PLACE_URL: &'static str = "{PLACE:URL}";

/// Stands for the item's title in [`HTML_LINE`].
pub const PLACE_TITLE: &'static str = "{PLACE:TITLE}";

/// Stands for the item's author in [`HTML_LINE`].
pub const PLACE_BY: &'static str = "{PLACE:BY}";

/// Stands for the item's score in [`HTML_LINE`].
pub const PLACE_SCORE: &'static str = "{PLACE:SCORE}";

/// Stands for the recipient's address in a template.
pub const PLACE_RECIPIENT: &'static str = "{PLACE:RECIPIENT}";

/// Stands for the item lines in a template.
pub const PLACE_ELEMENT: &'static str = "{PLACE:ELEMENT}";

/// Stands for the unsubscribe address in a template.
pub const PLACE_UNSUBSCRIBE_URL: &'static str = "{PLACE:UNSUBSCRIBE_URL}";

/// The line of one item: [`HTML_LINE`] with the address, the title, the
/// author and the score put in, in this order.
pub open spec fn item_line(post: PostView) -> Seq<char> {
    substitute(
        substitute(
            substitute(substitute(HTML_LINE@, PLACE_URL@, post.url), PLACE_TITLE@, post.title),
            PLACE_BY@,
            post.by,
        ),
        PLACE_SCORE@,
        decimal(post.score as int),
    )
}

/// The lines of the items, one per item and in the items' order.
pub open spec fn item_lines(posts: Seq<PostView>) -> Seq<Seq<char>> {
    posts.map_values(|post: PostView| item_line(post))
}

/// The digest of `posts` for the recipient `email`: the template with the
/// recipient's address, the joined item lines and the unsubscribe address
/// put in, in this order.
pub open spec fn digest(
    posts: Seq<PostView>,
    email: Seq<char>,
    template: Seq<char>,
    unsubscribe_url: Seq<char>,
) -> Seq<char> {
    substitute(
        substitute(
            substitute(template, PLACE_RECIPIENT@, email),
            PLACE_ELEMENT@,
            join(item_lines(posts), seq!['\n']),
        ),
        PLACE_UNSUBSCRIBE_URL@,
        unsubscribe_url,
    )
}

/// The line of one item.
pub fn render_line(post: &Post) -> (line: String)
    ensures
        line@ == item_line(post@),
{
    let with_url = replace_all(HTML_LINE, PLACE_URL, post.url.as_str());
    let with_title = replace_all(with_url.as_str(), PLACE_TITLE, post.title.as_str());
    let with_by = replace_all(with_title.as_str(), PLACE_BY, post.by.as_str());
    let score = decimal_of(post.score);
    replace_all(with_by.as_str(), PLACE_SCORE, score.as_str())
}

/// The digest of `posts` for the recipient `email`. The result is a
/// function of the four arguments' contents alone: equal arguments give
/// the same digest, character for character.
pub fn render(posts: &[Post], email: &str, template: &str, unsubscribe_url: &str) -> (body: String)
    ensures
        body@ == digest(post_views(posts@), email@, template@, unsubscribe_url@),
{
    let ghost views = post_views(posts@);
    let mut lines: Vec<String> = Vec::new();
    let mut i: usize = 0;
    while i < posts.len()
        invariant
            i <= posts.len(),
            views == post_views(posts@),
            lines@.len() == i,
            lines@.map_values(|line: String| line@) == item_lines(views.take(i as int)),
        decreases posts.len() - i,
    {
        let ghost before = lines@.map_values(|line: String| line@);
        let line = render_line(&posts[i]);
        lines.push(line);
        proof {
            let after = lines@.map_values(|line: String| line@);
            let wanted = item_lines(views.take(i + 1));
            assert forall|k: int| 0 <= k < after.len() implies after[k] == wanted[k] by {
                if k < i {
                    assert(after[k] == before[k]);
                    assert(views.take(i as int)[k] == views.take(i + 1)[k]);
                } else {
                    assert(views[k] == posts@[k]@);
                }
            }
            assert(after =~= wanted);
        }
        i += 1;
    }
    proof {
        assert(views.take(i as int) =~= views);
    }
    let elements = join_lines(&lines);
    let with_recipient = replace_all(template, PLACE_RECIPIENT, email);
    let with_elements = replace_all(with_recipient.as_str(), PLACE_ELEMENT, elements.as_str());
    replace_all(with_elements.as_str(), PLACE_UNSUBSCRIBE_URL, unsubscribe_url)
}

/// The items of a recipient with the quota `count`: the first `count`
/// items, or all of them where there are fewer.
pub fn top_posts(posts: &Vec<Post>, count: u8) -> (top: &[Post])
    ensures
        top@ == first(posts@, count),
        post_views(top@) == first(post_views(posts@), count),
{
    let all = posts.as_slice();
    let top = if (count as usize) <= all.len() {
        slice_subrange(all, 0, count as usize)
    } else {
        all
    };
    proof {
        assert(post_views(top@) =~= first(post_views(posts@), count));
    }
    top
}

/// A digest for the quota `count` out of `available` items has exactly
/// the smaller of the two as its number of item lines, and its lines are
/// those of the first items, in the items' order.
pub proof fn lemma_digest_lines(posts: Seq<PostView>, count: u8)
    ensures
        item_lines(first(posts, count)).len() == if count <= posts.len() {
            count as int
        } else {
            posts.len() as int
        },
        forall|i: int|
            0 <= i < item_lines(first(posts, count)).len() ==> #[trigger] item_lines(
                first(posts, count),
            )[i] == item_line(posts[i]),
{
}

/// Rendering is a function of what its arguments hold: two renderings of
/// the same items, address, template and unsubscribe address are the same
/// text, and the same bytes.
pub proof fn lemma_render_deterministic(
    posts: Seq<PostView>,
    email: Seq<char>,
    template: Seq<char>,
    unsubscribe_url: Seq<char>,
    other_posts: Seq<PostView>,
    other_email: Seq<char>,
    other_template: Seq<char>,
    other_unsubscribe_url: Seq<char>,
)
    requires
        posts == other_posts,
        email == other_email,
        template == other_template,
        unsubscribe_url == other_unsubscribe_url,
    ensures
        digest(posts, email, template, unsubscribe_url) == digest(
            other_posts,
            other_email,
            other_template,
            other_unsubscribe_url,
        ),
        vstd::utf8::encode_utf8(digest(posts, email, template, unsubscribe_url))
            == vstd::utf8::encode_utf8(
            digest(other_posts, other_email, other_template, other_unsubscribe_url),
        ),
{
}

/// An item with every field at its default has no line in any digest:
/// the fetch leaves it out, so nothing is rendered for it.
pub proof fn lemma_empty_item_has_no_line(lookup: LookupView)
    requires
        lookup.resolve().is_empty(),
    ensures
        item_lines(gathered(seq![lookup])).len() == 0,
        join(item_lines(gathered(seq![lookup])), seq!['\n']) == Seq::<char>::empty(),
{
    lemma_empty_is_dropped(lookup);
}

} // verus!
