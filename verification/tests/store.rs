use notion_digest::error::DigestError;
use notion_digest::notion::{NotionLink, SentLink};
use notion_digest::select::sent_link_ids;
use notion_digest::store::{
    append_sent, catalog_exists, decimal, load_catalog, load_sent, record_sent_links, saved,
    Stored, NOTION_LINKS_FILENAME, SENT_NOTION_LINKS_FILENAME,
};

fn link(id: &str) -> NotionLink {
    NotionLink { link_id: id.to_string(), url: format!("https://{}.example", id), title: String::new() }
}

fn sent(id: &str, at: &str) -> SentLink {
    SentLink { id: id.to_string(), sent_at: at.to_string() }
}

#[test]
fn the_documents_have_fixed_names() {
    assert_eq!(NOTION_LINKS_FILENAME, "notion_links.json");
    assert_eq!(SENT_NOTION_LINKS_FILENAME, "sent_notion_links.json");
}

#[test]
fn decimal_writes_numbers_without_leading_zeros() {
    assert_eq!(decimal(0), "0");
    assert_eq!(decimal(7), "7");
    assert_eq!(decimal(9), "9");
    assert_eq!(decimal(10), "10");
    assert_eq!(decimal(1705), "1705");
    assert_eq!(decimal(1700000000), "1700000000");
    assert_eq!(decimal(1234567890), "1234567890");
    assert_eq!(decimal(u64::MAX), "18446744073709551615");
}

#[test]
fn decimal_agrees_with_the_standard_library() {
    for n in (0..5000u64).chain([u64::MAX / 3, u64::MAX - 1]) {
        assert_eq!(decimal(n), n.to_string());
    }
}

#[test]
fn every_sent_link_gets_a_record_with_the_time() {
    let records = record_sent_links(&vec![link("b"), link("a")], 1700000123);
    assert_eq!(records, vec![sent("b", "1700000123"), sent("a", "1700000123")]);
    assert_eq!(record_sent_links(&Vec::new(), 5), Vec::<SentLink>::new());
}

#[test]
fn new_records_come_first() {
    let prior = vec![sent("x", "1"), sent("y", "2")];
    let new = vec![sent("a", "3"), sent("b", "3")];
    assert_eq!(
        append_sent(prior, new),
        vec![sent("a", "3"), sent("b", "3"), sent("x", "1"), sent("y", "2")]
    );
    assert_eq!(append_sent(Vec::new(), vec![sent("a", "3")]), vec![sent("a", "3")]);
    assert_eq!(append_sent(vec![sent("x", "1")], Vec::new()), vec![sent("x", "1")]);
}

#[test]
fn append_preserves_prior_content() {
    let prior = vec![sent("x", "1"), sent("y", "2"), sent("x", "4")];
    let log = append_sent(prior.clone(), record_sent_links(&vec![link("a")], 9));
    assert_eq!(&log[1..], &prior[..]);
    let ids = sent_link_ids(&log);
    for record in prior.iter() {
        assert!(ids.contains(&record.id));
    }
    assert!(ids.contains(&"a".to_string()));
}

#[test]
fn a_catalog_exists_unless_its_file_is_absent() {
    assert!(!catalog_exists(&Stored::Absent));
    assert!(catalog_exists(&Stored::Empty));
    assert!(catalog_exists(&Stored::Unreadable));
    assert!(catalog_exists(&Stored::Malformed));
    assert!(catalog_exists(&Stored::Parsed(Vec::new())));
}

#[test]
fn load_catalog_tells_corrupt_from_unreadable() {
    assert_eq!(load_catalog(Stored::Parsed(vec![link("a")])), Ok(vec![link("a")]));
    assert_eq!(load_catalog(Stored::Parsed(Vec::new())), Ok(Vec::new()));
    assert_eq!(load_catalog(Stored::Empty), Err(DigestError::StoreCorrupt));
    assert_eq!(load_catalog(Stored::Malformed), Err(DigestError::StoreCorrupt));
    assert_eq!(load_catalog(Stored::Unreadable), Err(DigestError::StoreIO));
    assert_eq!(load_catalog(Stored::Absent), Err(DigestError::StoreIO));
}

#[test]
fn load_sent_takes_a_missing_or_empty_file_as_an_empty_log() {
    assert_eq!(load_sent(Stored::Absent), Ok(Vec::new()));
    assert_eq!(load_sent(Stored::Empty), Ok(Vec::new()));
    assert_eq!(load_sent(Stored::Parsed(vec![sent("a", "1")])), Ok(vec![sent("a", "1")]));
    assert_eq!(load_sent(Stored::Malformed), Err(DigestError::StoreCorrupt));
    assert_eq!(load_sent(Stored::Unreadable), Err(DigestError::StoreIO));
}

#[test]
fn a_failed_write_is_a_store_failure() {
    assert_eq!(saved(true), Ok(()));
    assert_eq!(saved(false), Err(DigestError::StoreIO));
}
