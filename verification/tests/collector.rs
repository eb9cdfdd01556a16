use feed_mirror::collector::Collector;
use feed_mirror::item_id::{normalize_all, texts_of, ItemId};

fn ids_from(raw: &[&str]) -> Vec<ItemId> {
    let raw: Vec<String> = raw.iter().map(|s| s.to_string()).collect();
    normalize_all(&raw)
}

#[test]
fn new_collector_is_empty() {
    let c = Collector::new();
    assert_eq!(c.len(), 0);
    assert!(c.items().is_empty());
    assert!(!c.contains(&ItemId::normalize("1")));
}

#[test]
fn insert_reports_new_ids_only() {
    let mut c = Collector::new();
    assert!(c.insert(ItemId::normalize("10")));
    assert!(c.insert(ItemId::normalize("20")));
    assert!(!c.insert(ItemId::normalize("10")));
    assert!(!c.insert(ItemId::normalize("10_la.jpg")));
    assert_eq!(c.len(), 2);
    assert!(c.contains(&ItemId::normalize("20")));
    assert!(!c.contains(&ItemId::normalize("30")));
}

#[test]
fn collector_keeps_first_seen_order() {
    let mut c = Collector::new();
    for raw in ["30", "10", "20", "10", "30", "40"] {
        c.insert(ItemId::normalize(raw));
    }
    assert_eq!(texts_of(&c.items()), vec!["30", "10", "20", "40"]);
}

#[test]
fn extend_hands_back_what_is_new() {
    let mut c = Collector::new();
    let first = c.extend(&ids_from(&["200", "150", "100"]));
    assert_eq!(texts_of(&first), vec!["200", "150", "100"]);
    let second = c.extend(&ids_from(&["150", "100", "50", "50", "200", "25"]));
    assert_eq!(texts_of(&second), vec!["50", "25"]);
    assert_eq!(texts_of(&c.items()), vec!["200", "150", "100", "50", "25"]);
    let third = c.extend(&ids_from(&[]));
    assert!(third.is_empty());
    assert_eq!(c.len(), 5);
}

#[test]
fn extend_drops_repeats_within_one_page() {
    let mut c = Collector::new();
    let added = c.extend(&ids_from(&["7", "7_la.jpg", "8", "7"]));
    assert_eq!(texts_of(&added), vec!["7", "8"]);
    assert_eq!(c.len(), 2);
}
