use notion_digest::notion::{NotionLink, SentLink};
use notion_digest::select::{
    contains_id, filter_unsent, links_to_fetch, pick_links, position_list, select_links,
    sent_link_ids, shuffled_positions, NUMBER_OF_LINKS_TO_FETCH,
};

fn link(id: &str) -> NotionLink {
    NotionLink {
        link_id: id.to_string(),
        url: format!("https://example.com/{}", id),
        title: format!("Title {}", id),
    }
}

fn sent(id: &str) -> SentLink {
    SentLink { id: id.to_string(), sent_at: "1700000000".to_string() }
}

fn ids(links: &[NotionLink]) -> Vec<String> {
    links.iter().map(|l| l.link_id.clone()).collect()
}

#[test]
fn a_digest_holds_three_links_at_most() {
    assert_eq!(NUMBER_OF_LINKS_TO_FETCH, 3);
    assert_eq!(links_to_fetch(0), 0);
    assert_eq!(links_to_fetch(2), 2);
    assert_eq!(links_to_fetch(3), 3);
    assert_eq!(links_to_fetch(4), 3);
    assert_eq!(links_to_fetch(usize::MAX), 3);
}

#[test]
fn sent_ids_come_in_log_order() {
    let log = vec![sent("c"), sent("a"), sent("c")];
    assert_eq!(sent_link_ids(&log), vec!["c".to_string(), "a".to_string(), "c".to_string()]);
    assert_eq!(sent_link_ids(&Vec::new()), Vec::<String>::new());
}

#[test]
fn contains_id_compares_whole_ids() {
    let known = vec!["ab".to_string(), "c".to_string()];
    assert!(contains_id(&known, &"ab".to_string()));
    assert!(contains_id(&known, &"c".to_string()));
    assert!(!contains_id(&known, &"a".to_string()));
    assert!(!contains_id(&known, &"abc".to_string()));
    assert!(!contains_id(&Vec::new(), &"a".to_string()));
}

#[test]
fn filter_keeps_catalog_order() {
    let catalog = vec![link("a"), link("b"), link("c"), link("d")];
    let available = filter_unsent(&catalog, &vec!["a".to_string(), "c".to_string()]);
    assert_eq!(available, vec![link("b"), link("d")]);
    assert_eq!(filter_unsent(&catalog, &Vec::new()), catalog);
}

#[test]
fn position_list_counts_up() {
    assert_eq!(position_list(0), Vec::<usize>::new());
    assert_eq!(position_list(4), vec![0, 1, 2, 3]);
}

#[test]
fn shuffled_positions_hold_each_position_once() {
    for n in 0..20usize {
        let mut order = shuffled_positions(n);
        assert_eq!(order.len(), n);
        order.sort();
        assert_eq!(order, position_list(n));
    }
}

#[test]
fn shuffled_positions_are_not_always_in_order() {
    let first = position_list(32);
    let mut moved = false;
    for _ in 0..8 {
        if shuffled_positions(32) != first {
            moved = true;
        }
    }
    assert!(moved);
}

#[test]
fn pick_follows_the_order_of_the_draw() {
    let available = vec![link("a"), link("b"), link("c"), link("d")];
    let picked = pick_links(&available, &vec![2, 0, 3, 1], 3);
    assert_eq!(picked, vec![link("c"), link("a"), link("d")]);
    assert_eq!(pick_links(&available, &vec![2, 0, 3, 1], 0), Vec::<NotionLink>::new());
}

#[test]
fn dedup_against_history() {
    let catalog = vec![link("a"), link("b"), link("c"), link("d")];
    let log = vec![sent("a"), sent("c")];
    for _ in 0..20 {
        let selected = select_links(&catalog, &log);
        let mut got = ids(&selected);
        got.sort();
        assert_eq!(got, vec!["b".to_string(), "d".to_string()]);
    }
}

#[test]
fn selection_without_replacement() {
    let catalog = vec![link("x"), link("y")];
    for _ in 0..20 {
        let selected = select_links(&catalog, &Vec::new());
        assert_eq!(selected.len(), 2);
        assert_ne!(selected[0].link_id, selected[1].link_id);
        assert!(selected.contains(&link("x")));
        assert!(selected.contains(&link("y")));
    }
}

#[test]
fn selection_is_bounded_and_distinct() {
    let catalog: Vec<NotionLink> = (0..10).map(|i| link(&format!("id{}", i))).collect();
    let log = vec![sent("id3"), sent("id7"), sent("id3")];
    for _ in 0..20 {
        let selected = select_links(&catalog, &log);
        assert_eq!(selected.len(), 3);
        for (i, one) in selected.iter().enumerate() {
            assert!(catalog.contains(one));
            assert!(one.link_id != "id3" && one.link_id != "id7");
            for other in selected.iter().skip(i + 1) {
                assert_ne!(one.link_id, other.link_id);
            }
        }
    }
}

#[test]
fn empty_catalog_gives_empty_selection() {
    assert_eq!(select_links(&Vec::new(), &Vec::new()), Vec::<NotionLink>::new());
    assert_eq!(select_links(&Vec::new(), &vec![sent("a")]), Vec::<NotionLink>::new());
}

#[test]
fn small_catalog_is_selected_whole() {
    let catalog = vec![link("a"), link("b")];
    let selected = select_links(&catalog, &vec![sent("z")]);
    assert_eq!(selected.len(), catalog.len());
    let one = select_links(&vec![link("a")], &Vec::new());
    assert_eq!(one, vec![link("a")]);
}

#[test]
fn spent_catalog_gives_empty_selection() {
    let catalog = vec![link("a"), link("b")];
    let log = vec![sent("b"), sent("a"), sent("q")];
    assert_eq!(select_links(&catalog, &log), Vec::<NotionLink>::new());
}
