//! The fixed set of links loaded once from a CSV dataset.
//!
//! The dataset has one link per row and no header row: the token in the
//! first column, the destination URL in the second, further columns ignored.
//! Both are trimmed.  Each row stands alone: a row that cannot be read, a row
//! with fewer than two columns and a row with a blank token or URL is left
//! out and reported, and takes no other row with it.  Where a token occurs
//! twice, the later row wins.

use crate::text::{lemma_trimmed_has_bare_ends, trim, trimmed, white_space};
use vstd::hash_map::StringHashMap;
use vstd::prelude::*;

verus! {

/// The rows that a `csv::Reader` yields for `data`, in order, when built to
/// take the first row as data like any other and to accept rows of any
/// width: `Ok` with the row's fields where the row could be read, `Err` with
/// the reader's message where it reported an error for it.
pub uninterp spec fn csv_records(data: Seq<u8>) -> Seq<Result<Seq<Seq<char>>, Seq<char>>>;

/// Builds a reader with `csv::ReaderBuilder`, headers off and flexible
/// widths on, runs it on `data` and walks `Reader::records` to the end.
/// Each `StringRecord` is handed out as the list of its fields, each
/// `csv::Error` as its text.  The contract only names the outcome: CSV
/// parsing is the reader's business.
#[verifier::external_body]
fn parse_records(data: &[u8]) -> (rows: Vec<Result<Vec<String>, String>>)
    ensures
        rows_view(rows@) == csv_records(data@),
{
    let mut reader =
        csv::ReaderBuilder::new().has_headers(false).flexible(true).from_reader(data);
    reader.records().map(
        |row|
            match row {
                Ok(record) => Ok(record.iter().map(|field| field.to_string()).collect()),
                Err(error) => Err(error.to_string()),
            },
    ).collect()
}

/// The view of a row as the reader hands it out.
pub open spec fn row_view(row: Result<Vec<String>, String>) -> Result<Seq<Seq<char>>, Seq<char>> {
    match row {
        Ok(fields) => Ok(fields.deep_view()),
        Err(message) => Err(message@),
    }
}

/// The view of the rows as the reader hands them out.
pub open spec fn rows_view(rows: Seq<Result<Vec<String>, String>>) -> Seq<
    Result<Seq<Seq<char>>, Seq<char>>,
> {
    Seq::new(rows.len(), |i: int| row_view(rows[i]))
}

/// The link that a token column and a URL column make, if any: both are
/// trimmed, and a blank one spoils the row.
pub open spec fn entry_of(token_field: Seq<char>, url_field: Seq<char>) -> Option<
    (Seq<char>, Seq<char>),
> {
    if trimmed(token_field).len() > 0 && trimmed(url_field).len() > 0 {
        Some((trimmed(token_field), trimmed(url_field)))
    } else {
        None
    }
}

/// The link that a dataset row makes, if any.
pub open spec fn row_entry(row: Result<Seq<Seq<char>>, Seq<char>>) -> Option<
    (Seq<char>, Seq<char>),
> {
    match row {
        Ok(fields) => if fields.len() >= 2 {
            entry_of(fields[0], fields[1])
        } else {
            None
        },
        Err(_) => None,
    }
}

/// `links` after taking in `entry`.
pub open spec fn with_entry(
    links: Map<Seq<char>, Seq<char>>,
    entry: Option<(Seq<char>, Seq<char>)>,
) -> Map<Seq<char>, Seq<char>> {
    match entry {
        Some((token, url)) => links.insert(token, url),
        None => links,
    }
}

/// The links that a sequence of dataset rows makes, later rows overriding
/// earlier ones.
pub open spec fn links_of(rows: Seq<Result<Seq<Seq<char>>, Seq<char>>>) -> Map<
    Seq<char>,
    Seq<char>,
>
    decreases rows.len(),
{
    if rows.len() == 0 {
        Map::empty()
    } else {
        with_entry(links_of(rows.drop_last()), row_entry(rows.last()))
    }
}

/// The reader's messages for the rows it could not read, in the order of the
/// rows.
pub open spec fn malformed_of(rows: Seq<Result<Seq<Seq<char>>, Seq<char>>>) -> Seq<Seq<char>>
    decreases rows.len(),
{
    if rows.len() == 0 {
        Seq::empty()
    } else {
        match rows.last() {
            Ok(_) => malformed_of(rows.drop_last()),
            Err(message) => malformed_of(rows.drop_last()).push(message),
        }
    }
}

/// Whether `row` was read and yet makes no link: it has fewer than two
/// columns, or a blank token or URL.
pub open spec fn is_skipped(row: Result<Seq<Seq<char>>, Seq<char>>) -> bool {
    row is Ok && row_entry(row) is None
}

/// How many of the rows were read and yet make no link.
pub open spec fn skipped_of(rows: Seq<Result<Seq<Seq<char>>, Seq<char>>>) -> nat
    decreases rows.len(),
{
    if rows.len() == 0 {
        0
    } else {
        skipped_of(rows.drop_last()) + if is_skipped(rows.last()) {
            1nat
        } else {
            0nat
        }
    }
}

/// The rows of a dataset file: none where the file is absent.
pub open spec fn dataset_rows(contents: Option<Seq<u8>>) -> Seq<
    Result<Seq<Seq<char>>, Seq<char>>,
> {
    match contents {
        Some(data) => csv_records(data),
        None => Seq::empty(),
    }
}

/// No token and no URL of `links` is blank or has whitespace at an end.
pub open spec fn well_formed(links: Map<Seq<char>, Seq<char>>) -> bool {
    forall|token: Seq<char>| #[trigger]
        links.contains_key(token) ==> is_trimmed(token) && is_trimmed(links[token])
}

/// `s` is not empty and neither starts nor ends with whitespace.
pub open spec fn is_trimmed(s: Seq<char>) -> bool {
    s.len() > 0 && !white_space(s.first()) && !white_space(s.last())
}

/// Whether `row` makes a link for `token`.
pub open spec fn row_gives(row: Result<Seq<Seq<char>>, Seq<char>>, token: Seq<char>) -> bool {
    row_entry(row) matches Some(entry) && entry.0 == token
}

/// A token is among the links of a dataset exactly if some row makes a link
/// for it.
pub proof fn lemma_links_of_has_row_tokens(
    rows: Seq<Result<Seq<Seq<char>>, Seq<char>>>,
    token: Seq<char>,
)
    ensures
        links_of(rows).contains_key(token) <==> exists|i: int|
            0 <= i < rows.len() && row_gives(#[trigger] rows[i], token),
    decreases rows.len(),
{
    if rows.len() > 0 {
        let front = rows.drop_last();
        lemma_links_of_has_row_tokens(front, token);
        if links_of(rows).contains_key(token) {
            if row_gives(rows.last(), token) {
                assert(row_gives(rows[rows.len() - 1], token));
            } else {
                let i = choose|i: int| 0 <= i < front.len() && row_gives(#[trigger] front[i], token);
                assert(row_gives(rows[i], token));
            }
        }
        if exists|i: int| 0 <= i < rows.len() && row_gives(#[trigger] rows[i], token) {
            let i = choose|i: int| 0 <= i < rows.len() && row_gives(#[trigger] rows[i], token);
            if i < front.len() {
                assert(row_gives(front[i], token));
            }
        }
    }
}

/// Where several rows make a link for one token, the last of them decides
/// the URL.
pub proof fn lemma_links_of_last_row_wins(
    rows: Seq<Result<Seq<Seq<char>>, Seq<char>>>,
    token: Seq<char>,
    i: int,
)
    requires
        0 <= i < rows.len(),
        row_gives(rows[i], token),
        forall|j: int| i < j < rows.len() ==> !row_gives(#[trigger] rows[j], token),
    ensures
        links_of(rows).contains_key(token),
        row_entry(rows[i]) == Some((token, links_of(rows)[token])),
    decreases rows.len(),
{
    if i < rows.len() - 1 {
        let front = rows.drop_last();
        assert(!row_gives(rows[rows.len() - 1], token));
        assert forall|j: int| i < j < front.len() implies !row_gives(#[trigger] front[j], token) by {
            assert(front[j] == rows[j]);
        }
        lemma_links_of_last_row_wins(front, token, i);
    }
}

/// A row that makes no link is left out alone: the links are those of the
/// dataset without that row.
pub proof fn lemma_links_of_without_linkless_row(
    rows: Seq<Result<Seq<Seq<char>>, Seq<char>>>,
    i: int,
)
    requires
        0 <= i < rows.len(),
        row_entry(rows[i]) is None,
    ensures
        links_of(rows.remove(i)) == links_of(rows),
    decreases rows.len(),
{
    if i == rows.len() - 1 {
        assert(rows.remove(i) =~= rows.drop_last());
    } else {
        let front = rows.drop_last();
        lemma_links_of_without_linkless_row(front, i);
        assert(rows.remove(i).drop_last() =~= front.remove(i));
        assert(rows.remove(i).last() == rows.last());
    }
}

/// A dataset of one row has the link that the row makes, and no other.
pub proof fn lemma_links_of_single_row(row: Result<Seq<Seq<char>>, Seq<char>>)
    ensures
        links_of(seq![row]) == with_entry(Map::empty(), row_entry(row)),
{
    assert(seq![row].drop_last() =~= Seq::<Result<Seq<Seq<char>>, Seq<char>>>::empty());
    assert(links_of(Seq::<Result<Seq<Seq<char>>, Seq<char>>>::empty()) == Map::<
        Seq<char>,
        Seq<char>,
    >::empty());
}

/// No link of a dataset has a blank token or URL, or whitespace around one.
pub proof fn lemma_links_of_well_formed(rows: Seq<Result<Seq<Seq<char>>, Seq<char>>>)
    ensures
        well_formed(links_of(rows)),
    decreases rows.len(),
{
    if rows.len() > 0 {
        lemma_links_of_well_formed(rows.drop_last());
        if let Ok(fields) = rows.last() {
            if fields.len() >= 2 {
                lemma_trimmed_has_bare_ends(fields[0]);
                lemma_trimmed_has_bare_ends(fields[1]);
            }
        }
    }
}

/// Every row is accounted for once: it makes a link, or it is counted as
/// skipped, or its message is among the malformed.
pub proof fn lemma_rows_are_accounted_for(rows: Seq<Result<Seq<Seq<char>>, Seq<char>>>)
    ensures
        malformed_of(rows).len() + skipped_of(rows) <= rows.len(),
        malformed_of(rows).len() + skipped_of(rows) == rows.len() <==> forall|i: int|
            0 <= i < rows.len() ==> row_entry(#[trigger] rows[i]) is None,
    decreases rows.len(),
{
    if rows.len() > 0 {
        let front = rows.drop_last();
        lemma_rows_are_accounted_for(front);
        if malformed_of(rows).len() + skipped_of(rows) == rows.len() {
            assert forall|i: int| 0 <= i < rows.len() implies row_entry(#[trigger] rows[i])
                is None by {
                if i < front.len() {
                    assert(rows[i] == front[i]);
                }
            }
        }
        if forall|i: int| 0 <= i < rows.len() ==> row_entry(#[trigger] rows[i]) is None {
            assert(row_entry(rows[rows.len() - 1]) is None);
            assert forall|i: int| 0 <= i < front.len() implies row_entry(#[trigger] front[i])
                is None by {
                assert(front[i] == rows[i]);
            }
        }
    }
}

/// The fixed token-to-URL mapping loaded from the dataset.
pub struct CsvLinks {
    links: StringHashMap<String>,
}

impl View for CsvLinks {
    type V = Map<Seq<char>, Seq<char>>;

    closed spec fn view(&self) -> Map<Seq<char>, Seq<char>> {
        self.links@.map_values(|url: String| url@)
    }
}

impl CsvLinks {
    #[verifier::type_invariant]
    spec fn inv(self) -> bool {
        well_formed(self@)
    }

    /// An empty set of links.
    pub fn new() -> (links: CsvLinks)
        ensures
            links@ == Map::<Seq<char>, Seq<char>>::empty(),
    {
        let links = CsvLinks { links: StringHashMap::new() };
        assert(links@ =~= Map::<Seq<char>, Seq<char>>::empty());
        links
    }

    /// Takes in one link as a dataset row would give it: both columns are
    /// trimmed, and nothing is added where either is then blank.  An earlier
    /// link under the same token is replaced.
    pub fn add(&mut self, token_field: &str, url_field: &str) -> (added: bool)
        ensures
            final(self)@ == with_entry(old(self)@, entry_of(token_field@, url_field@)),
            added == entry_of(token_field@, url_field@).is_some(),
    {
        let token = trim(token_field);
        let url = trim(url_field);
        if token.is_empty() || url.is_empty() {
            return false;
        }
        proof {
            use_type_invariant(&*self);
            lemma_trimmed_has_bare_ends(token_field@);
            lemma_trimmed_has_bare_ends(url_field@);
        }
        // The map is taken out while it grows: the set's invariant is asked
        // for again only once the link is in.
        let ghost before = self@;
        let mut links = StringHashMap::new();
        assert(links@.map_values(|url: String| url@) =~= Map::<Seq<char>, Seq<char>>::empty());
        std::mem::swap(&mut self.links, &mut links);
        links.insert(token.to_owned(), url.to_owned());
        assert(links@.map_values(|url: String| url@) =~= before.insert(token@, url@));
        self.links = links;
        true
    }

    /// The destination that `token` stands for, if the dataset has it.
    pub fn get(&self, token: &str) -> (url: Option<&String>)
        ensures
            match url {
                Some(url) => self@.contains_key(token@) && url@ == self@[token@],
                None => !self@.contains_key(token@),
            },
            well_formed(self@),
    {
        proof {
            use_type_invariant(self);
        }
        self.links.get(token)
    }

    /// The number of links.
    pub fn len(&self) -> (n: usize)
        ensures
            n == self@.len(),
            well_formed(self@),
    {
        proof {
            use_type_invariant(self);
            assert(self@.dom() =~= self.links@.dom());
        }
        self.links.len()
    }
}

/// What loading a dataset gives.
pub struct CsvLoad {
    /// The links of the rows that were taken in.
    pub links: CsvLinks,
    /// The reader's message for each row that it could not read, in the
    /// order of the rows.
    pub malformed: Vec<String>,
    /// The number of rows that were read and left out: those with fewer than
    /// two columns or with a blank token or URL.
    pub skipped: usize,
}

/// Builds the set of links from parsed dataset rows, and reports the rows
/// left out.
pub fn links_from_records(rows: &Vec<Result<Vec<String>, String>>) -> (load: CsvLoad)
    ensures
        load.links@ == links_of(rows_view(rows@)),
        load.malformed.deep_view() == malformed_of(rows_view(rows@)),
        load.skipped == skipped_of(rows_view(rows@)),
        well_formed(load.links@),
{
    let ghost all = rows_view(rows@);
    let mut links = CsvLinks::new();
    let mut malformed: Vec<String> = Vec::new();
    let mut skipped: usize = 0;
    let mut i: usize = 0;
    assert(malformed.deep_view() =~= malformed_of(all.take(0)));
    while i < rows.len()
        invariant
            all == rows_view(rows@),
            i <= rows.len(),
            links@ == links_of(all.take(i as int)),
            malformed.deep_view() == malformed_of(all.take(i as int)),
            skipped == skipped_of(all.take(i as int)),
            skipped <= i,
        decreases rows.len() - i,
    {
        proof {
            assert(all.take(i + 1).drop_last() =~= all.take(i as int));
        }
        match &rows[i] {
            Ok(fields) => {
                let added = fields.len() >= 2 && links.add(
                    fields[0].as_str(),
                    fields[1].as_str(),
                );
                if !added {
                    skipped += 1;
                }
            },
            Err(message) => {
                let ghost before = malformed.deep_view();
                malformed.push(message.clone());
                assert(malformed.deep_view() =~= before.push(message@));
            },
        }
        i += 1;
    }
    proof {
        assert(all.take(i as int) =~= all);
        use_type_invariant(&links);
    }
    CsvLoad { links, malformed, skipped }
}

/// Loads the dataset from the bytes of its file, or from nothing where the
/// file is absent: an absent file gives an empty set.
pub fn read_csv_links(contents: Option<&[u8]>) -> (load: CsvLoad)
    ensures
        load.links@ == links_of(dataset_rows(contents_view(contents))),
        load.malformed.deep_view() == malformed_of(dataset_rows(contents_view(contents))),
        load.skipped == skipped_of(dataset_rows(contents_view(contents))),
        well_formed(load.links@),
{
    match contents {
        Some(data) => {
            let rows = parse_records(data);
            links_from_records(&rows)
        },
        None => {
            let malformed: Vec<String> = Vec::new();
            assert(malformed.deep_view() =~= Seq::<Seq<char>>::empty());
            CsvLoad { links: CsvLinks::new(), malformed, skipped: 0 }
        },
    }
}

/// The bytes of a dataset file, if there is one.
pub open spec fn contents_view(contents: Option<&[u8]>) -> Option<Seq<u8>> {
    match contents {
        Some(data) => Some(data@),
        None => None,
    }
}

} // verus!
