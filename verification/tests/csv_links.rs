use short_links::csv_links::{links_from_records, read_csv_links, CsvLinks};

fn url<'a>(links: &'a CsvLinks, token: &str) -> Option<&'a str> {
    links.get(token).map(|url| url.as_str())
}

/// The messages that the CSV reader itself gives for the rows of `data` that
/// it cannot read.
fn reader_errors(data: &[u8]) -> Vec<String> {
    let mut reader =
        csv::ReaderBuilder::new().has_headers(false).flexible(true).from_reader(data);
    reader.records().filter_map(|row| row.err()).map(|error| error.to_string()).collect()
}

#[test]
fn absent_dataset_gives_an_empty_set() {
    let load = read_csv_links(None);
    assert_eq!(load.links.len(), 0);
    assert!(load.malformed.is_empty());
    assert_eq!(load.skipped, 0);
    assert_eq!(url(&load.links, "promo"), None);
}

#[test]
fn empty_dataset_gives_an_empty_set() {
    let load = read_csv_links(Some(b""));
    assert_eq!(load.links.len(), 0);
    assert!(load.malformed.is_empty());
    assert_eq!(load.skipped, 0);
}

#[test]
fn a_single_row_is_a_link() {
    let load = read_csv_links(Some(b"promo,https://example.com/promo\n"));
    assert_eq!(load.links.len(), 1);
    assert_eq!(url(&load.links, "promo"), Some("https://example.com/promo"));
    assert!(load.malformed.is_empty());
    assert_eq!(load.skipped, 0);
}

#[test]
fn every_row_becomes_a_link() {
    let data = b"promo,https://example.com/promo\ndocs,https://example.com/docs\n";
    let load = read_csv_links(Some(data));
    assert_eq!(load.links.len(), 2);
    assert!(load.malformed.is_empty());
    assert_eq!(load.skipped, 0);
    assert_eq!(url(&load.links, "promo"), Some("https://example.com/promo"));
    assert_eq!(url(&load.links, "docs"), Some("https://example.com/docs"));
    assert_eq!(url(&load.links, "missing"), None);
}

#[test]
fn a_first_row_that_looks_like_a_header_is_a_row() {
    let load = read_csv_links(Some(b"token,url\npromo,https://example.com/promo\n"));
    assert_eq!(load.links.len(), 2);
    assert_eq!(url(&load.links, "token"), Some("url"));
    assert_eq!(url(&load.links, "promo"), Some("https://example.com/promo"));
}

#[test]
fn last_row_without_newline_is_read() {
    let load = read_csv_links(Some(b"docs,https://example.com/docs\npromo,https://example.com/promo"));
    assert_eq!(load.links.len(), 2);
    assert_eq!(url(&load.links, "promo"), Some("https://example.com/promo"));
}

#[test]
fn fields_are_trimmed() {
    let load = read_csv_links(Some(b"  promo\t, https://example.com/promo  \n"));
    assert_eq!(load.links.len(), 1);
    assert_eq!(url(&load.links, "promo"), Some("https://example.com/promo"));
    assert_eq!(url(&load.links, "  promo\t"), None);
}

#[test]
fn tokens_are_case_sensitive() {
    let load = read_csv_links(Some(b"Promo,https://example.com/upper\n"));
    assert_eq!(url(&load.links, "Promo"), Some("https://example.com/upper"));
    assert_eq!(url(&load.links, "promo"), None);
}

#[test]
fn rows_with_a_blank_token_or_url_are_skipped() {
    let data =
        b",https://example.com/a\nb,\n   ,https://example.com/c\nd,  \ne,https://example.com/e\n";
    let load = read_csv_links(Some(data));
    assert_eq!(load.links.len(), 1);
    assert!(load.malformed.is_empty());
    assert_eq!(load.skipped, 4);
    assert_eq!(url(&load.links, "e"), Some("https://example.com/e"));
    assert_eq!(url(&load.links, "b"), None);
    assert_eq!(url(&load.links, "d"), None);
    assert_eq!(url(&load.links, ""), None);
}

#[test]
fn a_later_row_overrides_an_earlier_one() {
    let data =
        b"promo,https://example.com/old\nother,https://example.com/o\npromo,https://example.com/new\n";
    let load = read_csv_links(Some(data));
    assert_eq!(load.links.len(), 2);
    assert_eq!(load.skipped, 0);
    assert_eq!(url(&load.links, "promo"), Some("https://example.com/new"));
}

#[test]
fn columns_after_the_second_are_ignored() {
    let data = b"promo,https://example.com/promo,spring campaign\n";
    let load = read_csv_links(Some(data));
    assert_eq!(load.links.len(), 1);
    assert_eq!(load.skipped, 0);
    assert_eq!(url(&load.links, "promo"), Some("https://example.com/promo"));
}

#[test]
fn single_column_rows_are_skipped() {
    let load = read_csv_links(Some(b"token\npromo\ndocs\n"));
    assert_eq!(load.links.len(), 0);
    assert!(load.malformed.is_empty());
    assert_eq!(load.skipped, 3);
}

#[test]
fn a_short_row_is_skipped_alone() {
    let data = b"promo,https://example.com/promo\nbroken\nabc,https://x.test\n";
    let load = read_csv_links(Some(data));
    assert_eq!(load.links.len(), 2);
    assert_eq!(url(&load.links, "promo"), Some("https://example.com/promo"));
    assert_eq!(url(&load.links, "abc"), Some("https://x.test"));
    assert_eq!(url(&load.links, "broken"), None);
    assert!(load.malformed.is_empty());
    assert_eq!(load.skipped, 1);
}

#[test]
fn a_short_first_row_does_not_fix_the_width() {
    let data = b"broken\na,https://a.test\nb,https://b.test\n";
    let load = read_csv_links(Some(data));
    assert_eq!(load.links.len(), 2);
    assert_eq!(url(&load.links, "a"), Some("https://a.test"));
    assert_eq!(url(&load.links, "b"), Some("https://b.test"));
    assert_eq!(load.skipped, 1);
}

#[test]
fn rows_of_any_width_are_read() {
    let data = b"promo,https://example.com/promo\nbroken\nextra,https://example.com/x,more\ndocs,https://example.com/docs\n";
    let load = read_csv_links(Some(data));
    assert!(load.malformed.is_empty());
    assert_eq!(load.skipped, 1);
    assert_eq!(load.links.len(), 3);
    assert_eq!(url(&load.links, "promo"), Some("https://example.com/promo"));
    assert_eq!(url(&load.links, "extra"), Some("https://example.com/x"));
    assert_eq!(url(&load.links, "docs"), Some("https://example.com/docs"));
    assert_eq!(url(&load.links, "broken"), None);
}

#[test]
fn removing_the_rows_left_out_keeps_the_set() {
    let with = b"broken\na,https://a.test\n,https://blank.test\nbad\xff,https://bad.test\nb,https://b.test\nc,  \n";
    let without = b"a,https://a.test\nb,https://b.test\n";
    let full = read_csv_links(Some(with));
    let clean = read_csv_links(Some(without));
    assert_eq!(full.links.len(), 2);
    assert_eq!(clean.links.len(), 2);
    for token in ["a", "b", "broken", "", "bad", "c"] {
        assert_eq!(url(&full.links, token), url(&clean.links, token), "token {:?}", token);
    }
    assert_eq!(full.skipped, 3);
    assert_eq!(full.malformed.len(), 1);
    assert_eq!(clean.skipped, 0);
    assert!(clean.malformed.is_empty());
}

#[test]
fn rows_that_are_no_utf8_are_malformed() {
    let data = b"bad\xff,https://example.com/bad\ngood,https://example.com/good\n";
    let load = read_csv_links(Some(data));
    assert_eq!(load.malformed.len(), 1);
    assert_eq!(load.skipped, 0);
    assert_eq!(load.links.len(), 1);
    assert_eq!(url(&load.links, "good"), Some("https://example.com/good"));
}

#[test]
fn malformed_rows_carry_the_reader_message() {
    let data = b"a,https://a.test\nbad\xff,https://example.com/bad\nb,https://b.test\n\xfe,x\n";
    let load = read_csv_links(Some(data));
    assert_eq!(load.malformed.len(), 2);
    assert_eq!(load.malformed, reader_errors(data));
    assert!(load.malformed[0].contains("invalid utf-8"), "{}", load.malformed[0]);
    assert_ne!(load.malformed[0], load.malformed[1]);
    assert_eq!(load.links.len(), 2);
}

#[test]
fn quoted_fields_may_hold_commas() {
    let data = b"q,\"https://example.com/?a=1,2\"\n";
    let load = read_csv_links(Some(data));
    assert_eq!(url(&load.links, "q"), Some("https://example.com/?a=1,2"));
}

#[test]
fn blank_lines_are_no_rows() {
    let data = b"\npromo,https://example.com/promo\n\n";
    let load = read_csv_links(Some(data));
    assert!(load.malformed.is_empty());
    assert_eq!(load.skipped, 0);
    assert_eq!(load.links.len(), 1);
}

#[test]
fn windows_line_ends_are_read() {
    let data = b"promo,https://example.com/promo\r\ndocs,https://example.com/docs\r\n";
    let load = read_csv_links(Some(data));
    assert_eq!(load.links.len(), 2);
    assert_eq!(url(&load.links, "promo"), Some("https://example.com/promo"));
    assert_eq!(url(&load.links, "docs"), Some("https://example.com/docs"));
}

#[test]
fn links_from_records_follows_the_rows() {
    let rows = vec![
        Ok(vec!["promo".to_string(), " https://example.com/old".to_string()]),
        Err("first message".to_string()),
        Ok(vec!["only-one-column".to_string()]),
        Ok(vec![]),
        Ok(vec![" ".to_string(), "https://example.com/blank".to_string()]),
        Ok(vec!["promo ".to_string(), "https://example.com/new".to_string(), "x".to_string()]),
        Err("second message".to_string()),
    ];
    let load = links_from_records(&rows);
    assert_eq!(load.malformed, vec!["first message".to_string(), "second message".to_string()]);
    assert_eq!(load.skipped, 3);
    assert_eq!(load.links.len(), 1);
    assert_eq!(url(&load.links, "promo"), Some("https://example.com/new"));
}

#[test]
fn links_from_no_records_are_none() {
    let load = links_from_records(&Vec::new());
    assert!(load.malformed.is_empty());
    assert_eq!(load.skipped, 0);
    assert_eq!(load.links.len(), 0);
}

#[test]
fn every_row_is_a_link_or_reported() {
    let data = b"a,https://a.test\nshort\n\xff,x\nb,https://b.test\n ,y\na,https://a2.test\n";
    let load = read_csv_links(Some(data));
    // Six rows: three make a link (two of them for one token), two are
    // skipped, one is malformed.
    assert_eq!(load.links.len(), 2);
    assert_eq!(load.skipped, 2);
    assert_eq!(load.malformed.len(), 1);
    assert_eq!(url(&load.links, "a"), Some("https://a2.test"));
}

#[test]
fn add_takes_a_link_in() {
    let mut links = CsvLinks::new();
    assert!(links.add(" promo ", "\thttps://example.com/promo\n"));
    assert_eq!(links.len(), 1);
    assert_eq!(url(&links, "promo"), Some("https://example.com/promo"));
}

#[test]
fn add_refuses_blank_columns() {
    let mut links = CsvLinks::new();
    assert!(!links.add("", "https://example.com/promo"));
    assert!(!links.add("promo", ""));
    assert!(!links.add(" \t", "https://example.com/promo"));
    assert!(!links.add("promo", "\n"));
    assert_eq!(links.len(), 0);
}

#[test]
fn add_replaces_an_earlier_link() {
    let mut links = CsvLinks::new();
    assert!(links.add("promo", "https://example.com/old"));
    assert!(links.add("promo", "https://example.com/new"));
    assert_eq!(links.len(), 1);
    assert_eq!(url(&links, "promo"), Some("https://example.com/new"));
}

#[test]
fn a_refused_add_leaves_the_set_alone() {
    let mut links = CsvLinks::new();
    assert!(links.add("promo", "https://example.com/promo"));
    assert!(!links.add("promo", "  "));
    assert_eq!(url(&links, "promo"), Some("https://example.com/promo"));
}
