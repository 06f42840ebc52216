//! Link records and their mathematical views.

use vstd::prelude::*;

verus! {

/// Where a link record comes from.
#[derive(Debug, Clone, Copy, PartialEq, Eq, Structural)]
pub enum LinkSource {
    /// A row of the primary link store; its clicks are counted.
    Database,
    /// An entry of the CSV dataset loaded at start-up; inert.
    Csv,
}

impl Default for LinkSource {
    fn default() -> (source: LinkSource)
        ensures
            source == LinkSource::Database,
    {
        LinkSource::Database
    }
}

/// A row of the primary link store, column by column.
#[derive(Debug, Clone, PartialEq, Eq)]
pub struct StoredLink {
    /// The row's UUID as a 128-bit number.
    pub id: u128,
    pub token: String,
    pub long_url: String,
    /// Creation time in microseconds since the Unix epoch.
    pub created_at: i64,
    pub click_count: i64,
    pub is_active: bool,
}

/// The view of a [`StoredLink`].
pub struct StoredLinkView {
    pub id: u128,
    pub token: Seq<char>,
    pub long_url: Seq<char>,
    pub created_at: i64,
    pub click_count: i64,
    pub is_active: bool,
}

impl View for StoredLink {
    type V = StoredLinkView;

    open spec fn view(&self) -> StoredLinkView {
        StoredLinkView {
            id: self.id,
            token: self.token@,
            long_url: self.long_url@,
            created_at: self.created_at,
            click_count: self.click_count,
            is_active: self.is_active,
        }
    }
}

/// A resolvable link: a store row or a dataset entry, tagged with its source.
#[derive(Debug, Clone, PartialEq, Eq)]
pub struct ShortLink {
    /// The record's UUID as a 128-bit number; zero for dataset entries.
    pub id: u128,
    pub token: String,
    pub long_url: String,
    /// Creation time in microseconds since the Unix epoch; zero for dataset
    /// entries.
    pub created_at: i64,
    pub click_count: i64,
    pub is_active: bool,
    pub source: LinkSource,
}

/// The view of a [`ShortLink`].
pub struct ShortLinkView {
    pub id: u128,
    pub token: Seq<char>,
    pub long_url: Seq<char>,
    pub created_at: i64,
    pub click_count: i64,
    pub is_active: bool,
    pub source: LinkSource,
}

impl View for ShortLink {
    type V = ShortLinkView;

    open spec fn view(&self) -> ShortLinkView {
        ShortLinkView {
            id: self.id,
            token: self.token@,
            long_url: self.long_url@,
            created_at: self.created_at,
            click_count: self.click_count,
            is_active: self.is_active,
            source: self.source,
        }
    }
}

/// The link that a store row stands for: the row itself, tagged `Database`.
pub open spec fn database_link(row: StoredLinkView) -> ShortLinkView {
    ShortLinkView {
        id: row.id,
        token: row.token,
        long_url: row.long_url,
        created_at: row.created_at,
        click_count: row.click_count,
        is_active: row.is_active,
        source: LinkSource::Database,
    }
}

/// The link synthesized for a dataset entry: nil identity, epoch timestamp,
/// no clicks, active, tagged `Csv`.
pub open spec fn csv_link(token: Seq<char>, long_url: Seq<char>) -> ShortLinkView {
    ShortLinkView {
        id: 0,
        token,
        long_url,
        created_at: 0,
        click_count: 0,
        is_active: true,
        source: LinkSource::Csv,
    }
}

/// The nil UUID as a number.  Calls `uuid::Uuid::nil`, which builds the UUID
/// of sixteen zero bytes, and reads it back with `Uuid::as_u128`; the
/// contract claims the result is zero.
#[verifier::external_body]
fn nil_uuid() -> (id: u128)
    ensures
        id == 0,
{
    uuid::Uuid::nil().as_u128()
}

/// The Unix epoch in microseconds since itself.  Reads the constant
/// `chrono::DateTime::UNIX_EPOCH` (1970-01-01 00:00:00 UTC) through
/// `DateTime::timestamp_micros`; the contract claims the result is zero.
#[verifier::external_body]
fn unix_epoch_micros() -> (micros: i64)
    ensures
        micros == 0,
{
    chrono::DateTime::UNIX_EPOCH.timestamp_micros()
}

impl ShortLink {
    /// Tags a store row as a `Database` link, keeping every column.
    pub fn from_stored(row: StoredLink) -> (link: ShortLink)
        ensures
            link@ == database_link(row@),
    {
        ShortLink {
            id: row.id,
            token: row.token,
            long_url: row.long_url,
            created_at: row.created_at,
            click_count: row.click_count,
            is_active: row.is_active,
            source: LinkSource::Database,
        }
    }

    /// Synthesizes the link for a dataset entry.  Such a link has no row
    /// behind it, so identity and timestamp are placeholders.
    pub fn from_csv(token: &str, long_url: &str) -> (link: ShortLink)
        ensures
            link@ == csv_link(token@, long_url@),
    {
        ShortLink {
            id: nil_uuid(),
            token: token.to_owned(),
            long_url: long_url.to_owned(),
            created_at: unix_epoch_micros(),
            click_count: 0,
            is_active: true,
            source: LinkSource::Csv,
        }
    }
}

/// A failure of the primary store on the lookup path.
#[derive(Debug, Clone, PartialEq, Eq)]
pub struct StoreError {
    /// What the store reported.
    pub message: String,
}

impl View for StoreError {
    type V = Seq<char>;

    open spec fn view(&self) -> Seq<char> {
        self.message@
    }
}

} // verus!
