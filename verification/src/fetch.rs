//! The content fetcher's decisions: which identifiers to look up, under
//! which address, and which items the answers amount to.

use crate::post::{post_views, PartialPost, PartialPostView, Post, PostView};
use crate::text::{decimal_nat, push_decimal};
use vstd::prelude::*;

verus! {

/// The address of the ranking endpoint.
pub const POSTLIST_URL: &'static str = "https://hacker-news.firebaseio.com/v0/topstories.json";

/// The address of the item endpoint, up to the identifier.
pub const POST_URL: &'static str = "https://hacker-news.firebaseio.com/v0/item/";

/// What follows the identifier in the address of an item's record.
pub const POST_SUFFIX: &'static str = ".json";

/// The answer of the ranking endpoint.
#[derive(Clone, Debug, PartialEq, Eq)]
pub enum Listing {
    /// The endpoint could not be reached.
    Unreachable,
    /// The endpoint answered with something else than a list of identifiers.
    Malformed,
    /// The ranked identifiers, best first.
    Ranked(Vec<u32>),
}

/// A [`Listing`] as contracts see it.
pub enum ListingView {
    Unreachable,
    Malformed,
    Ranked(Seq<u32>),
}

impl View for Listing {
    type V = ListingView;

    open spec fn view(&self) -> ListingView {
        match self {
            Listing::Unreachable => ListingView::Unreachable,
            Listing::Malformed => ListingView::Malformed,
            Listing::Ranked(ids) => ListingView::Ranked(ids@),
        }
    }
}

impl ListingView {
    /// The identifiers that the listing holds: none where it failed.
    pub open spec fn ids(self) -> Seq<u32> {
        match self {
            ListingView::Ranked(ids) => ids,
            _ => Seq::empty(),
        }
    }
}

/// The first `count` elements of `all`, or all of them where there are fewer.
pub open spec fn first<T>(all: Seq<T>, count: u8) -> Seq<T> {
    if count <= all.len() {
        all.take(count as int)
    } else {
        all
    }
}

/// The identifiers to look up: the first `count` of the ranking, in its
/// order, and none where the ranking could not be had.
pub fn get_postlist(listing: Listing, count: u8) -> (ids: Vec<u32>)
    ensures
        ids@ == first(listing@.ids(), count),
{
    match listing {
        Listing::Ranked(ids) => {
            let mut ids = ids;
            ids.truncate(count as usize);
            ids
        },
        _ => Vec::new(),
    }
}

/// The address of the record of the item `id`.
pub open spec fn post_url(id: u32) -> Seq<char> {
    POST_URL@ + decimal_nat(id as nat) + POST_SUFFIX@
}

/// The address under which the record of the item `id` is looked up.
pub fn post_request(id: u32) -> (url: String)
    ensures
        url@ == post_url(id),
{
    let mut url = String::from_str(POST_URL);
    push_decimal(&mut url, id);
    url.append(POST_SUFFIX);
    url
}

/// The answer to the lookup of one item.
#[derive(Clone, Debug, PartialEq, Eq)]
pub enum Lookup {
    /// The endpoint could not be reached.
    Unreachable,
    /// The endpoint answered with something else than an item's record.
    Malformed,
    /// The item's record.
    Found(PartialPost),
}

/// A [`Lookup`] as contracts see it.
pub enum LookupView {
    Unreachable,
    Malformed,
    Found(PartialPostView),
}

impl View for Lookup {
    type V = LookupView;

    open spec fn view(&self) -> LookupView {
        match self {
            Lookup::Unreachable => LookupView::Unreachable,
            Lookup::Malformed => LookupView::Malformed,
            Lookup::Found(partial) => LookupView::Found(partial@),
        }
    }
}

/// The views of a sequence of lookups, in the same order.
pub open spec fn lookup_views(lookups: Seq<Lookup>) -> Seq<LookupView> {
    lookups.map_values(|lookup: Lookup| lookup@)
}

impl LookupView {
    /// The item that a lookup amounts to: the record's item with its
    /// address filled in, and the empty item where the lookup failed.
    pub open spec fn resolve(self) -> PostView {
        match self {
            LookupView::Unreachable => PostView::empty(),
            LookupView::Malformed => PartialPostView::empty().to_post(),
            LookupView::Found(partial) => partial.to_post(),
        }
    }
}

impl Lookup {
    /// The item that this lookup amounts to.
    pub fn resolve(self) -> (post: Post)
        ensures
            post@ == self@.resolve(),
    {
        match self {
            Lookup::Unreachable => Post::empty(),
            Lookup::Malformed => PartialPost::empty().to_post(),
            Lookup::Found(partial) => partial.to_post(),
        }
    }
}

/// The items that the lookups amount to: each lookup's item in the order
/// of the lookups, without the empty ones.
pub open spec fn gathered(lookups: Seq<LookupView>) -> Seq<PostView> {
    lookups.map_values(|lookup: LookupView| lookup.resolve()).filter(
        |post: PostView| !post.is_empty(),
    )
}

/// The items of a fetch: what the lookups found, in their order, with a
/// failed lookup and an empty item left out.
pub fn get_posts(lookups: Vec<Lookup>) -> (posts: Vec<Post>)
    ensures
        post_views(posts@) == gathered(lookup_views(lookups@)),
{
    let ghost all = lookup_views(lookups@);
    let ghost resolved = all.map_values(|lookup: LookupView| lookup.resolve());
    let ghost keep = |post: PostView| !post.is_empty();
    let ghost given = lookups@;
    let mut posts: Vec<Post> = Vec::new();
    proof {
        reveal(Seq::filter);
        assert(resolved.take(0).filter(keep) =~= Seq::<PostView>::empty());
        assert(post_views(posts@) =~= Seq::<PostView>::empty());
    }
    for lookup in it: lookups
        invariant
            it.seq() == given,
            all == lookup_views(given),
            resolved == all.map_values(|lookup: LookupView| lookup.resolve()),
            keep == |post: PostView| !post.is_empty(),
            post_views(posts@) == resolved.take(it.index() as int).filter(keep),
    {
        let ghost before = post_views(posts@);
        let ghost i = it.index() as int;
        let post = lookup.resolve();
        proof {
            reveal(Seq::filter);
            assert(resolved.take(i + 1).drop_last() =~= resolved.take(i));
            assert(resolved.take(i + 1).last() == post@);
        }
        if !post.is_empty() {
            posts.push(post);
            proof {
                assert(post_views(posts@) =~= before.push(post@));
            }
        }
    }
    proof {
        assert(resolved.take(given.len() as int) =~= resolved);
    }
    posts
}

/// No item of a fetch is the empty item, and the items keep the order of
/// the lookups that found them.
pub proof fn lemma_gathered_none_empty(lookups: Seq<LookupView>)
    ensures
        forall|i: int| 0 <= i < gathered(lookups).len() ==> !(#[trigger] gathered(lookups)[i]).is_empty(),
        gathered(lookups).len() <= lookups.len(),
{
    let resolved = lookups.map_values(|lookup: LookupView| lookup.resolve());
    let keep = |post: PostView| !post.is_empty();
    resolved.lemma_filter_len(keep);
    assert forall|i: int| 0 <= i < gathered(lookups).len() implies !(#[trigger] gathered(
        lookups,
    )[i]).is_empty() by {
        resolved.lemma_filter_pred(keep, i);
    }
}

/// A lookup that failed, and a record with every field at its default,
/// add nothing to a fetch.
pub proof fn lemma_empty_is_dropped(lookup: LookupView)
    requires
        lookup.resolve().is_empty(),
    ensures
        gathered(seq![lookup]) == Seq::<PostView>::empty(),
        LookupView::Unreachable.resolve().is_empty(),
        LookupView::Malformed.resolve().is_empty(),
        LookupView::Found(PartialPostView::empty()).resolve().is_empty(),
{
    reveal(Seq::filter);
    let resolved = seq![lookup].map_values(|lookup: LookupView| lookup.resolve());
    let keep = |post: PostView| !post.is_empty();
    assert(resolved.drop_last() =~= Seq::<PostView>::empty());
    assert(resolved.drop_last().filter(keep) =~= Seq::<PostView>::empty());
    assert(gathered(seq![lookup]) =~= Seq::<PostView>::empty());
}

/// A ranking that failed or holds no identifier leaves nothing to look
/// up, and without lookups a fetch has no items.
pub proof fn lemma_nothing_listed(listing: ListingView, count: u8)
    requires
        listing.ids().len() == 0,
    ensures
        first(listing.ids(), count) == Seq::<u32>::empty(),
        gathered(Seq::<LookupView>::empty()) == Seq::<PostView>::empty(),
{
    reveal(Seq::filter);
    assert(first(listing.ids(), count) =~= Seq::<u32>::empty());
    assert(gathered(Seq::<LookupView>::empty()) =~= Seq::<PostView>::empty());
}

/// A fetch never has more items than were asked for: at most `count`
/// identifiers are looked up, and each lookup gives at most one item.
pub proof fn lemma_fetch_is_bounded(listing: ListingView, count: u8, lookups: Seq<LookupView>)
    requires
        lookups.len() == first(listing.ids(), count).len(),
    ensures
        first(listing.ids(), count).len() <= count,
        first(listing.ids(), count).len() <= listing.ids().len(),
        gathered(lookups).len() <= count,
{
    lemma_gathered_none_empty(lookups);
}

} // verus!
