//! What holds of every resolution, proved from the model in
//! [`crate::resolver`].
//!
//! The cache is modelled by what it would answer: a map from tokens to the
//! links remembered under them.  Entries leave such a map when their time to
//! live runs out; nothing else takes them out or changes them.

use crate::link::{csv_link, database_link, ShortLinkView, StoredLinkView};
use crate::resolver::{
    has_active_row, miss, resolution, step_after_cache, ReplyView, ResolutionView, StepView,
};
use vstd::prelude::*;

verus! {

/// What a cache holding `cache` answers for `token`.
pub open spec fn cache_answer(
    cache: Map<Seq<char>, ShortLinkView>,
    token: Seq<char>,
) -> Option<ShortLinkView> {
    if cache.contains_key(token) {
        Some(cache[token])
    } else {
        None
    }
}

/// The cache after the caller has carried out `done` for `token`.
pub open spec fn cache_after(
    cache: Map<Seq<char>, ShortLinkView>,
    token: Seq<char>,
    done: ResolutionView,
) -> Map<Seq<char>, ShortLinkView> {
    match done.cache_insert {
        Some(link) => cache.insert(token, link),
        None => cache,
    }
}

/// One whole resolution of `token` against a cache holding `cache`.
pub open spec fn resolution_with_cache(
    cache: Map<Seq<char>, ShortLinkView>,
    token: Seq<char>,
    found: Result<Option<StoredLinkView>, Seq<char>>,
    csv_links: Map<Seq<char>, Seq<char>>,
) -> ResolutionView {
    resolution(token, cache_answer(cache, token), found, csv_links)
}

/// A token that the store has no active row for and the dataset has resolves
/// to the dataset's URL.  The synthesized link is remembered, and no click is
/// counted: not on the miss, and not on a later hit on the remembered link,
/// whatever the store would answer by then.
pub proof fn lemma_dataset_token_resolves_uncounted(
    token: Seq<char>,
    found: Result<Option<StoredLinkView>, Seq<char>>,
    later: Result<Option<StoredLinkView>, Seq<char>>,
    csv_links: Map<Seq<char>, Seq<char>>,
)
    requires
        found is Ok,
        !has_active_row(found),
        csv_links.contains_key(token),
    ensures
        resolution(token, None, found, csv_links) == (ResolutionView {
            reply: ReplyView::Destination(csv_links[token]),
            cache_insert: Some(csv_link(token, csv_links[token])),
            count_click: false,
        }),
        resolution(token, Some(csv_link(token, csv_links[token])), later, csv_links) == (
        ResolutionView {
            reply: ReplyView::Destination(csv_links[token]),
            cache_insert: None,
            count_click: false,
        }),
{
}

/// A token with an active row in the store resolves to the row's URL, whether
/// or not the dataset has the token too.  The row is remembered, and exactly
/// one click is counted per resolution: on the miss, and on a later hit on
/// the remembered row.
pub proof fn lemma_active_row_resolves_counted(
    token: Seq<char>,
    row: StoredLinkView,
    later: Result<Option<StoredLinkView>, Seq<char>>,
    csv_links: Map<Seq<char>, Seq<char>>,
)
    requires
        row.is_active,
    ensures
        resolution(token, None, Ok(Some(row)), csv_links) == (ResolutionView {
            reply: ReplyView::Destination(row.long_url),
            cache_insert: Some(database_link(row)),
            count_click: true,
        }),
        resolution(token, Some(database_link(row)), later, csv_links) == (ResolutionView {
            reply: ReplyView::Destination(row.long_url),
            cache_insert: None,
            count_click: true,
        }),
{
}

/// A row that is not active resolves as no row at all: the dataset is asked
/// next, and only without it the token is not found.
pub proof fn lemma_inactive_row_is_no_row(
    token: Seq<char>,
    row: StoredLinkView,
    csv_links: Map<Seq<char>, Seq<char>>,
)
    requires
        !row.is_active,
    ensures
        resolution(token, None, Ok(Some(row)), csv_links) == resolution(
            token,
            None,
            Ok(None),
            csv_links,
        ),
{
}

/// Once a resolution has given a destination, the next resolution of the
/// token gives the same destination and counts clicks alike without asking
/// the store, as long as the cache keeps what was remembered and whatever the
/// store would answer by then.  It leaves the cache as it found it.
pub proof fn lemma_cached_resolution_repeats(
    cache: Map<Seq<char>, ShortLinkView>,
    token: Seq<char>,
    found: Result<Option<StoredLinkView>, Seq<char>>,
    later: Result<Option<StoredLinkView>, Seq<char>>,
    csv_links: Map<Seq<char>, Seq<char>>,
)
    requires
        resolution_with_cache(cache, token, found, csv_links).reply is Destination,
    ensures
        ({
            let first = resolution_with_cache(cache, token, found, csv_links);
            let kept = cache_after(cache, token, first);
            let again = resolution_with_cache(kept, token, later, csv_links);
            &&& step_after_cache(cache_answer(kept, token)) is Done
            &&& again.reply == first.reply
            &&& again.count_click == first.count_click
            &&& cache_after(kept, token, again) == kept
        }),
{
}

/// The cache after `token` has been resolved once for each of `answers` in
/// turn, each being what the store would answer at that time, with nothing
/// expiring in between.
pub open spec fn cache_after_all(
    cache: Map<Seq<char>, ShortLinkView>,
    token: Seq<char>,
    answers: Seq<Result<Option<StoredLinkView>, Seq<char>>>,
    csv_links: Map<Seq<char>, Seq<char>>,
) -> Map<Seq<char>, ShortLinkView>
    decreases answers.len(),
{
    if answers.len() == 0 {
        cache
    } else {
        let before = cache_after_all(cache, token, answers.drop_last(), csv_links);
        cache_after(
            before,
            token,
            resolution_with_cache(before, token, answers.last(), csv_links),
        )
    }
}

/// What the cache holds when the `n`-th of `answers` is due.
pub open spec fn cache_before(
    cache: Map<Seq<char>, ShortLinkView>,
    token: Seq<char>,
    answers: Seq<Result<Option<StoredLinkView>, Seq<char>>>,
    n: int,
    csv_links: Map<Seq<char>, Seq<char>>,
) -> Map<Seq<char>, ShortLinkView> {
    cache_after_all(cache, token, answers.take(n), csv_links)
}

/// However often a token is resolved after a resolution that gave a
/// destination, the cache stays as that resolution left it while nothing
/// expires: each of those resolutions meets the same cache, so it is a hit,
/// asks the store nothing and gives the same destination.
pub proof fn lemma_cached_resolution_repeats_always(
    cache: Map<Seq<char>, ShortLinkView>,
    token: Seq<char>,
    found: Result<Option<StoredLinkView>, Seq<char>>,
    later: Seq<Result<Option<StoredLinkView>, Seq<char>>>,
    csv_links: Map<Seq<char>, Seq<char>>,
)
    requires
        resolution_with_cache(cache, token, found, csv_links).reply is Destination,
    ensures
        ({
            let first = resolution_with_cache(cache, token, found, csv_links);
            let kept = cache_after(cache, token, first);
            forall|n: int|
                0 <= n <= later.len() ==> {
                    &&& #[trigger] cache_before(kept, token, later, n, csv_links) == kept
                    &&& step_after_cache(cache_answer(kept, token)) is Done
                    &&& n < later.len() ==> resolution_with_cache(
                        kept,
                        token,
                        later[n],
                        csv_links,
                    ).reply == first.reply
                }
        }),
    decreases later.len(),
{
    let first = resolution_with_cache(cache, token, found, csv_links);
    let kept = cache_after(cache, token, first);
    if later.len() > 0 {
        let front = later.drop_last();
        lemma_cached_resolution_repeats_always(cache, token, found, front, csv_links);
        assert(cache_before(kept, token, front, front.len() as int, csv_links) == kept);
        assert(front.take(front.len() as int) =~= front);
        assert(later.take(later.len() as int) =~= later);
        assert forall|n: int| 0 <= n <= later.len() implies {
            &&& #[trigger] cache_before(kept, token, later, n, csv_links) == kept
            &&& n < later.len() ==> resolution_with_cache(kept, token, later[n], csv_links).reply
                == first.reply
        } by {
            if n < later.len() {
                assert(later.take(n) =~= front.take(n));
                assert(cache_before(kept, token, front, n, csv_links) == kept);
                lemma_cached_resolution_repeats(cache, token, found, later[n], csv_links);
            } else {
                lemma_cached_resolution_repeats(cache, token, found, later.last(), csv_links);
            }
        }
    } else {
        assert(later.take(0) =~= later);
    }
}

/// The cache only saves lookups.  Where it holds for a token what the store's
/// present answer and the dataset would have it remember, the reply and the
/// click count are those of a resolution without any cache.
pub proof fn lemma_cache_only_saves_lookups(
    cache: Map<Seq<char>, ShortLinkView>,
    token: Seq<char>,
    found: Result<Option<StoredLinkView>, Seq<char>>,
    csv_links: Map<Seq<char>, Seq<char>>,
)
    requires
        cache.contains_key(token) ==> miss(token, found, csv_links).cache_insert == Some(
            cache[token],
        ),
    ensures
        resolution_with_cache(cache, token, found, csv_links).reply == miss(
            token,
            found,
            csv_links,
        ).reply,
        resolution_with_cache(cache, token, found, csv_links).count_click == miss(
            token,
            found,
            csv_links,
        ).count_click,
{
}

/// Once the cache has dropped a token, the next resolution asks the store
/// again and goes by its answer and the dataset alone.
pub proof fn lemma_expired_entry_asks_store_again(
    cache: Map<Seq<char>, ShortLinkView>,
    token: Seq<char>,
    found: Result<Option<StoredLinkView>, Seq<char>>,
    csv_links: Map<Seq<char>, Seq<char>>,
)
    ensures
        step_after_cache(cache_answer(cache.remove(token), token)) == StepView::QueryStore,
        resolution_with_cache(cache.remove(token), token, found, csv_links) == miss(
            token,
            found,
            csv_links,
        ),
{
}

/// A token that the cache does not hold, the store has no active row for and
/// the dataset lacks is not found; nothing is remembered or counted.  The
/// store must have answered: its failure is reported as such.
pub proof fn lemma_unknown_token_not_found(
    token: Seq<char>,
    found: Result<Option<StoredLinkView>, Seq<char>>,
    csv_links: Map<Seq<char>, Seq<char>>,
)
    requires
        found is Ok,
        !has_active_row(found),
        !csv_links.contains_key(token),
    ensures
        resolution(token, None, found, csv_links) == (ResolutionView {
            reply: ReplyView::NotFound,
            cache_insert: None,
            count_click: false,
        }),
{
}

/// A resolution reports a store failure exactly if the cache missed and the
/// store failed, and then with the store's own message.
pub proof fn lemma_store_error_only_from_store(
    token: Seq<char>,
    cached: Option<ShortLinkView>,
    found: Result<Option<StoredLinkView>, Seq<char>>,
    csv_links: Map<Seq<char>, Seq<char>>,
)
    ensures
        resolution(token, cached, found, csv_links).reply is StoreError <==> cached is None
            && found is Err,
        cached is None && found is Err ==> resolution(token, cached, found, csv_links).reply
            == ReplyView::StoreError(found->Err_0),
{
}

/// Nothing is remembered and no click is counted unless a destination is
/// given; a remembered link leads to that destination, and a click is counted
/// only for a store row.
pub proof fn lemma_side_effects_follow_destination(
    token: Seq<char>,
    cached: Option<ShortLinkView>,
    found: Result<Option<StoredLinkView>, Seq<char>>,
    csv_links: Map<Seq<char>, Seq<char>>,
)
    ensures
        ({
            let done = resolution(token, cached, found, csv_links);
            &&& done.cache_insert is Some || done.count_click ==> done.reply is Destination
            &&& done.cache_insert matches Some(link) ==> done.reply == ReplyView::Destination(
                link.long_url,
            )
            &&& done.count_click ==> (cached matches Some(link) && link.source
                == crate::link::LinkSource::Database) || (cached is None && has_active_row(found))
        }),
{
}

} // verus!
