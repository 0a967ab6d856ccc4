use notion_digest::enrich::{
    build_email_body, content_or_empty, enrich_all, get_description_and_image_url,
    get_og_attribute, EmailLink, FETCH_TIMEOUT_SECS,
};
use notion_digest::error::DigestError;
use notion_digest::notion::NotionLink;

fn link(id: &str) -> NotionLink {
    NotionLink {
        link_id: id.to_string(),
        url: format!("https://{}.example", id),
        title: format!("Title {}", id),
    }
}

fn shown(id: &str, description: &str, image_url: &str) -> EmailLink {
    EmailLink {
        title: format!("Title {}", id),
        url: format!("https://{}.example", id),
        description: description.to_string(),
        image_url: image_url.to_string(),
    }
}

const BOTH: &str = "<html><head><title>t</title>\
    <meta property=\"og:description\" content=\"A fine page\">\
    <meta property=\"og:image\" content=\"https://img.example/a.png\">\
    </head><body><p>text</p></body></html>";

#[test]
fn a_fetch_may_take_fifteen_seconds() {
    assert_eq!(FETCH_TIMEOUT_SECS, 15);
}

#[test]
fn og_extraction() {
    let page = "<html><head><meta property=\"og:description\" content=\"x\"/></head></html>";
    assert_eq!(get_description_and_image_url(page), Ok(("x".to_string(), String::new())));
    let made = EmailLink::new(&link("a"), Some(page));
    assert_eq!(made, Ok(shown("a", "x", "")));
}

#[test]
fn both_attributes_are_read() {
    assert_eq!(get_og_attribute(BOTH, "description"), Ok("A fine page".to_string()));
    assert_eq!(get_og_attribute(BOTH, "image"), Ok("https://img.example/a.png".to_string()));
    assert_eq!(
        get_description_and_image_url(BOTH),
        Ok(("A fine page".to_string(), "https://img.example/a.png".to_string()))
    );
}

#[test]
fn an_absent_attribute_is_empty() {
    assert_eq!(get_og_attribute("<html><head></head></html>", "description"), Ok(String::new()));
    assert_eq!(get_og_attribute("", "image"), Ok(String::new()));
    assert_eq!(get_og_attribute("no html at all", "image"), Ok(String::new()));
    assert_eq!(get_description_and_image_url(""), Ok((String::new(), String::new())));
}

#[test]
fn a_meta_element_without_content_is_empty() {
    let page = "<html><head><meta property=\"og:description\"></head></html>";
    assert_eq!(get_og_attribute(page, "description"), Ok(String::new()));
}

#[test]
fn the_first_matching_element_counts() {
    let page = "<html><head>\
        <meta property=\"og:title\" content=\"no\">\
        <meta property=\"og:description\" content=\"first\">\
        <meta property=\"og:description\" content=\"second\">\
        </head></html>";
    assert_eq!(get_og_attribute(page, "description"), Ok("first".to_string()));
    let bare = "<html><head>\
        <meta property=\"og:description\">\
        <meta property=\"og:description\" content=\"second\">\
        </head></html>";
    assert_eq!(get_og_attribute(bare, "description"), Ok(String::new()));
}

#[test]
fn the_property_must_match_exactly() {
    let page = "<html><head>\
        <meta name=\"og:description\" content=\"by name\">\
        <meta property=\"og:descriptions\" content=\"longer\">\
        <meta property=\"description\" content=\"shorter\">\
        </head></html>";
    assert_eq!(get_og_attribute(page, "description"), Ok(String::new()));
}

#[test]
fn entities_in_the_content_are_decoded() {
    let page = "<meta property=\"og:description\" content=\"Tom &amp; Jerry\">";
    assert_eq!(get_og_attribute(page, "description"), Ok("Tom & Jerry".to_string()));
}

#[test]
fn an_attribute_name_that_makes_no_selector_is_a_parse_failure() {
    assert_eq!(get_og_attribute(BOTH, "a'b"), Err(DigestError::EnrichParse));
    assert_eq!(get_og_attribute(BOTH, "x']["), Err(DigestError::EnrichParse));
}

#[test]
fn content_or_empty_maps_the_three_outcomes() {
    assert_eq!(content_or_empty(None), "");
    assert_eq!(content_or_empty(Some(None)), "");
    assert_eq!(content_or_empty(Some(Some("x".to_string()))), "x");
    assert_eq!(content_or_empty(Some(Some(String::new()))), "");
}

#[test]
fn a_page_that_was_not_fetched_is_a_fetch_failure() {
    assert_eq!(EmailLink::new(&link("a"), None), Err(DigestError::EnrichFetch));
}

#[test]
fn a_link_keeps_its_title_and_url() {
    assert_eq!(
        EmailLink::new(&link("a"), Some(BOTH)),
        Ok(shown("a", "A fine page", "https://img.example/a.png"))
    );
    assert_eq!(EmailLink::new(&link("b"), Some("")), Ok(shown("b", "", "")));
}

#[test]
fn failed_enrichments_are_dropped_and_order_is_kept() {
    let outcomes = vec![
        Ok(shown("a", "1", "")),
        Err(DigestError::EnrichFetch),
        Ok(shown("b", "2", "")),
        Err(DigestError::EnrichParse),
        Ok(shown("c", "3", "")),
    ];
    assert_eq!(
        build_email_body(outcomes),
        vec![shown("a", "1", ""), shown("b", "2", ""), shown("c", "3", "")]
    );
    assert_eq!(build_email_body(Vec::new()), Vec::<EmailLink>::new());
}

#[test]
fn total_enrichment_failure_gives_an_empty_digest() {
    let outcomes = vec![Err(DigestError::EnrichFetch), Err(DigestError::EnrichFetch)];
    assert_eq!(build_email_body(outcomes), Vec::<EmailLink>::new());
    let selected = vec![link("a"), link("b"), link("c")];
    let none = enrich_all(&selected, &vec![None, None, None]);
    assert_eq!(none, vec![Err(DigestError::EnrichFetch); 3]);
    assert_eq!(build_email_body(none), Vec::<EmailLink>::new());
}

#[test]
fn pages_belong_to_links_place_by_place() {
    let selected = vec![link("a"), link("b"), link("c")];
    let fetched = vec![
        Some("<meta property=\"og:description\" content=\"for a\">".to_string()),
        None,
        Some("<meta property=\"og:image\" content=\"for c\">".to_string()),
    ];
    assert_eq!(
        enrich_all(&selected, &fetched),
        vec![Ok(shown("a", "for a", "")), Err(DigestError::EnrichFetch), Ok(shown("c", "", "for c"))]
    );
}

#[test]
fn a_link_without_a_page_counts_as_not_fetched() {
    let selected = vec![link("a"), link("b")];
    let fetched = vec![Some(String::new())];
    assert_eq!(
        enrich_all(&selected, &fetched),
        vec![Ok(shown("a", "", "")), Err(DigestError::EnrichFetch)]
    );
    let more = vec![Some(String::new()), None, Some(BOTH.to_string())];
    assert_eq!(enrich_all(&vec![link("a")], &more), vec![Ok(shown("a", "", ""))]);
    assert_eq!(enrich_all(&Vec::new(), &more), Vec::new());
}
