//! The tiered lookup: cache first, then the primary store, then the dataset.
//!
//! The cache and the store are asked by the caller.  After the cache has
//! answered, [`on_cache_lookup`] says whether the store must be asked at all;
//! after the store has answered, [`on_store_lookup`] settles the resolution.
//! A [`Resolution`] carries the reply together with what the caller is to do
//! on the side: remember a record in the cache, count a click.

use crate::csv_links::CsvLinks;
use crate::link::{
    csv_link, database_link, LinkSource, ShortLink, ShortLinkView, StoreError, StoredLink,
    StoredLinkView,
};
use vstd::prelude::*;

verus! {

/// What the requester is told.
#[derive(Debug, Clone, PartialEq, Eq)]
pub enum Reply {
    /// The token stands for this URL.
    Destination(String),
    /// Neither the store nor the dataset has the token.
    NotFound,
    /// The store could not be asked.
    StoreError(StoreError),
}

/// The view of a [`Reply`].
pub enum ReplyView {
    Destination(Seq<char>),
    NotFound,
    StoreError(Seq<char>),
}

impl View for Reply {
    type V = ReplyView;

    open spec fn view(&self) -> ReplyView {
        match self {
            Reply::Destination(url) => ReplyView::Destination(url@),
            Reply::NotFound => ReplyView::NotFound,
            Reply::StoreError(error) => ReplyView::StoreError(error@),
        }
    }
}

/// How one resolution ends.
#[derive(Debug, Clone, PartialEq, Eq)]
pub struct Resolution {
    pub reply: Reply,
    /// The record to put in the cache under the token, if any.
    pub cache_insert: Option<ShortLink>,
    /// Whether to issue one detached click increment for the token.
    pub count_click: bool,
}

/// The view of a [`Resolution`].
pub struct ResolutionView {
    pub reply: ReplyView,
    pub cache_insert: Option<ShortLinkView>,
    pub count_click: bool,
}

impl View for Resolution {
    type V = ResolutionView;

    open spec fn view(&self) -> ResolutionView {
        ResolutionView {
            reply: self.reply@,
            cache_insert: link_view(self.cache_insert),
            count_click: self.count_click,
        }
    }
}

/// What to do once the cache has answered.
#[derive(Debug, Clone, PartialEq, Eq)]
pub enum Step {
    /// The cache had the token: the resolution is settled.
    Done(Resolution),
    /// The cache did not have it: ask the primary store.
    QueryStore,
}

/// The view of a [`Step`].
pub enum StepView {
    Done(ResolutionView),
    QueryStore,
}

impl View for Step {
    type V = StepView;

    open spec fn view(&self) -> StepView {
        match self {
            Step::Done(resolution) => StepView::Done(resolution@),
            Step::QueryStore => StepView::QueryStore,
        }
    }
}

/// The view of a link that may be absent.
pub open spec fn link_view(link: Option<ShortLink>) -> Option<ShortLinkView> {
    match link {
        Some(link) => Some(link@),
        None => None,
    }
}

/// The view of the store's answer to a lookup.
pub open spec fn answer_view(found: Result<Option<StoredLink>, StoreError>) -> Result<
    Option<StoredLinkView>,
    Seq<char>,
> {
    match found {
        Ok(Some(row)) => Ok(Some(row@)),
        Ok(None) => Ok(None),
        Err(error) => Err(error@),
    }
}

/// The view of a lookup's outcome.
pub open spec fn lookup_view(found: Result<Option<ShortLink>, StoreError>) -> Result<
    Option<ShortLinkView>,
    Seq<char>,
> {
    match found {
        Ok(link) => Ok(link_view(link)),
        Err(error) => Err(error@),
    }
}

/// Whether the store's answer holds an active row.
pub open spec fn has_active_row(found: Result<Option<StoredLinkView>, Seq<char>>) -> bool {
    found matches Ok(Some(row)) && row.is_active
}

/// The link for `token` given the store's answer and the dataset: an active
/// store row wins; without one the dataset decides; a store failure is
/// passed on.
pub open spec fn short_link_for(
    token: Seq<char>,
    found: Result<Option<StoredLinkView>, Seq<char>>,
    csv_links: Map<Seq<char>, Seq<char>>,
) -> Result<Option<ShortLinkView>, Seq<char>> {
    match found {
        Err(error) => Err(error),
        Ok(row) => if has_active_row(found) {
            Ok(Some(database_link(row->0)))
        } else if csv_links.contains_key(token) {
            Ok(Some(csv_link(token, csv_links[token])))
        } else {
            Ok(None)
        },
    }
}

/// Whether a click on `link` is counted: only store rows have a counter.
pub open spec fn counts_clicks(link: ShortLinkView) -> bool {
    link.source == LinkSource::Database
}

/// The resolution on a cache hit: the cached destination, nothing to cache.
pub open spec fn hit(cached: ShortLinkView) -> ResolutionView {
    ResolutionView {
        reply: ReplyView::Destination(cached.long_url),
        cache_insert: None,
        count_click: counts_clicks(cached),
    }
}

/// The resolution on a cache miss, given the store's answer and the dataset.
pub open spec fn miss(
    token: Seq<char>,
    found: Result<Option<StoredLinkView>, Seq<char>>,
    csv_links: Map<Seq<char>, Seq<char>>,
) -> ResolutionView {
    match short_link_for(token, found, csv_links) {
        Ok(Some(link)) => ResolutionView {
            reply: ReplyView::Destination(link.long_url),
            cache_insert: Some(link),
            count_click: counts_clicks(link),
        },
        Ok(None) => ResolutionView {
            reply: ReplyView::NotFound,
            cache_insert: None,
            count_click: false,
        },
        Err(error) => ResolutionView {
            reply: ReplyView::StoreError(error),
            cache_insert: None,
            count_click: false,
        },
    }
}

/// What the cache's answer asks for next.
pub open spec fn step_after_cache(cached: Option<ShortLinkView>) -> StepView {
    match cached {
        Some(link) => StepView::Done(hit(link)),
        None => StepView::QueryStore,
    }
}

/// One whole resolution of `token`: `cached` is the cache's answer, `found`
/// the store's answer, which is only asked for on a miss.
pub open spec fn resolution(
    token: Seq<char>,
    cached: Option<ShortLinkView>,
    found: Result<Option<StoredLinkView>, Seq<char>>,
    csv_links: Map<Seq<char>, Seq<char>>,
) -> ResolutionView {
    match step_after_cache(cached) {
        StepView::Done(resolution) => resolution,
        StepView::QueryStore => miss(token, found, csv_links),
    }
}

/// Finds the link for `token` from the store's answer `found` and the
/// dataset.  A row that is not active counts as no row.
pub fn get_short_link(
    found: Result<Option<StoredLink>, StoreError>,
    token: &str,
    csv_links: &CsvLinks,
) -> (link: Result<Option<ShortLink>, StoreError>)
    ensures
        lookup_view(link) == short_link_for(token@, answer_view(found), csv_links@),
{
    match found {
        Err(error) => Err(error),
        Ok(Some(row)) if row.is_active => Ok(Some(ShortLink::from_stored(row))),
        Ok(_) => match csv_links.get(token) {
            Some(long_url) => Ok(Some(ShortLink::from_csv(token, long_url.as_str()))),
            None => Ok(None),
        },
    }
}

/// Decides what follows the cache's answer for a token.
pub fn on_cache_lookup(cached: Option<ShortLink>) -> (step: Step)
    ensures
        step@ == step_after_cache(link_view(cached)),
{
    match cached {
        Some(link) => {
            let count_click = link.source == LinkSource::Database;
            Step::Done(
                Resolution { reply: Reply::Destination(link.long_url), cache_insert: None, count_click },
            )
        },
        None => Step::QueryStore,
    }
}

/// Settles the resolution of `token` after a cache miss, from the store's
/// answer `found` and the dataset.
pub fn on_store_lookup(
    token: &str,
    found: Result<Option<StoredLink>, StoreError>,
    csv_links: &CsvLinks,
) -> (resolution: Resolution)
    ensures
        resolution@ == miss(token@, answer_view(found), csv_links@),
{
    match get_short_link(found, token, csv_links) {
        Ok(Some(link)) => {
            let long_url = link.long_url.clone();
            let count_click = link.source == LinkSource::Database;
            Resolution { reply: Reply::Destination(long_url), cache_insert: Some(link), count_click }
        },
        Ok(None) => Resolution { reply: Reply::NotFound, cache_insert: None, count_click: false },
        Err(error) => Resolution {
            reply: Reply::StoreError(error),
            cache_insert: None,
            count_click: false,
        },
    }
}

} // verus!
