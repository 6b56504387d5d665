//! Content items: the full record that a digest shows, and the record as
//! the item endpoint delivers it, whose address may be missing.

use crate::text::{decimal_nat, push_decimal};
use vstd::prelude::*;

verus! {

/// The address of an item's own page, up to the identifier.
pub const PAGE_URL: &'static str = "https://news.ycombinator.com/item?id=";

/// One content item.
#[derive(Clone, Debug, PartialEq, Eq)]
pub struct Post {
    pub id: u32,
    pub by: String,
    pub url: String,
    pub score: i16,
    pub title: String,
}

/// A [`Post`] as contracts see it.
pub struct PostView {
    pub id: u32,
    pub by: Seq<char>,
    pub url: Seq<char>,
    pub score: i16,
    pub title: Seq<char>,
}

impl PostView {
    /// The item that stands for "no item": every field at its default.
    pub open spec fn empty() -> PostView {
        PostView {
            id: 0,
            by: Seq::empty(),
            url: Seq::empty(),
            score: 0,
            title: Seq::empty(),
        }
    }

    /// Whether this is the item that stands for "no item".
    pub open spec fn is_empty(self) -> bool {
        &&& self.id == 0
        &&& self.by.len() == 0
        &&& self.url.len() == 0
        &&& self.score == 0
        &&& self.title.len() == 0
    }
}

impl View for Post {
    type V = PostView;

    open spec fn view(&self) -> PostView {
        PostView {
            id: self.id,
            by: self.by@,
            url: self.url@,
            score: self.score,
            title: self.title@,
        }
    }
}

/// The views of a sequence of posts, in the same order.
pub open spec fn post_views(posts: Seq<Post>) -> Seq<PostView> {
    posts.map_values(|post: Post| post@)
}

impl Post {
    /// The item with these fields.
    pub fn new(id: u32, by: String, url: String, score: i16, title: String) -> (post: Post)
        ensures
            post@ == (PostView { id, by: by@, url: url@, score, title: title@ }),
    {
        Post { id, by, url, score, title }
    }

    /// The item that stands for "no item".
    pub fn empty() -> (post: Post)
        ensures
            post@ == PostView::empty(),
            post@.is_empty(),
    {
        Post { id: 0, by: String::new(), url: String::new(), score: 0, title: String::new() }
    }

    /// Whether this is the item that stands for "no item".
    pub fn is_empty(&self) -> (empty: bool)
        ensures
            empty == self@.is_empty(),
            empty == (self@ == PostView::empty()),
    {
        proof {
            lemma_empty_is_unique(self@);
        }
        self.id == 0 && self.by.as_str().is_empty() && self.url.as_str().is_empty()
            && self.score == 0 && self.title.as_str().is_empty()
    }
}

/// Exactly one item has every field at its default.
pub proof fn lemma_empty_is_unique(post: PostView)
    ensures
        post.is_empty() <==> post == PostView::empty(),
{
    if post.is_empty() {
        assert(post.by =~= Seq::<char>::empty());
        assert(post.url =~= Seq::<char>::empty());
        assert(post.title =~= Seq::<char>::empty());
    }
}

/// An item as the item endpoint delivers it: the address may be missing.
#[derive(Clone, Debug, PartialEq, Eq)]
pub struct PartialPost {
    pub id: u32,
    pub by: String,
    pub url: Option<String>,
    pub score: i16,
    pub title: String,
}

/// A [`PartialPost`] as contracts see it.
pub struct PartialPostView {
    pub id: u32,
    pub by: Seq<char>,
    pub url: Option<Seq<char>>,
    pub score: i16,
    pub title: Seq<char>,
}

/// The address of the page of the item `id`.
pub open spec fn page_url(id: u32) -> Seq<char> {
    PAGE_URL@ + decimal_nat(id as nat)
}

impl PartialPostView {
    /// The record of "no item": the empty item with its (empty) address present.
    pub open spec fn empty() -> PartialPostView {
        PartialPostView::from_post(PostView::empty())
    }

    /// The full item: a missing address becomes the address of the item's page.
    pub open spec fn to_post(self) -> PostView {
        PostView {
            id: self.id,
            by: self.by,
            url: match self.url {
                Some(url) => url,
                None => page_url(self.id),
            },
            score: self.score,
            title: self.title,
        }
    }

    /// The record of a full item: its address is present.
    pub open spec fn from_post(post: PostView) -> PartialPostView {
        PartialPostView {
            id: post.id,
            by: post.by,
            url: Some(post.url),
            score: post.score,
            title: post.title,
        }
    }

    /// The record with a missing address filled in.
    pub open spec fn fill(self) -> PartialPostView {
        PartialPostView::from_post(self.to_post())
    }
}

impl View for PartialPost {
    type V = PartialPostView;

    open spec fn view(&self) -> PartialPostView {
        PartialPostView {
            id: self.id,
            by: self.by@,
            url: match self.url {
                Some(url) => Some(url@),
                None => None,
            },
            score: self.score,
            title: self.title@,
        }
    }
}

impl PartialPost {
    /// The record of "no item".
    pub fn empty() -> (partial: PartialPost)
        ensures
            partial@ == PartialPostView::empty(),
    {
        PartialPost::from_post(Post::empty())
    }

    /// The full item: a missing address becomes the address of the item's page.
    pub fn to_post(self) -> (post: Post)
        ensures
            post@ == self@.to_post(),
    {
        let url = match self.url {
            Some(url) => url,
            None => {
                let mut url = String::from_str(PAGE_URL);
                push_decimal(&mut url, self.id);
                url
            },
        };
        Post::new(self.id, self.by, url, self.score, self.title)
    }

    /// The record of a full item: its address is present.
    pub fn from_post(post: Post) -> (partial: PartialPost)
        ensures
            partial@ == PartialPostView::from_post(post@),
    {
        PartialPost {
            id: post.id,
            by: post.by,
            url: Some(post.url),
            score: post.score,
            title: post.title,
        }
    }
}

/// Filling in a missing address is idempotent: a record that was filled
/// once is left as it is by a second filling, and its address in
/// particular stays the same.
pub proof fn lemma_fill_idempotent(partial: PartialPostView)
    ensures
        partial.fill().fill() == partial.fill(),
        partial.fill().to_post() == partial.to_post(),
        partial.fill().to_post().url == partial.to_post().url,
{
}

/// A record without an address gets the address of its item's page, and a
/// record with an address keeps it.
pub proof fn lemma_fill_address(partial: PartialPostView)
    ensures
        partial.url is None ==> partial.to_post().url == page_url(partial.id),
        partial.url is Some ==> partial.to_post().url == partial.url->0,
{
}

/// The record of "no item" becomes the item that stands for "no item".
pub proof fn lemma_empty_round_trip()
    ensures
        PartialPostView::empty().to_post() == PostView::empty(),
        PartialPostView::empty().to_post().is_empty(),
{
}

} // verus!
