use std::collections::HashSet;

use feed_mirror::collector::Collector;
use feed_mirror::dispatcher::{Action, DispatchMode, Dispatcher, Phase};
use feed_mirror::item_id::{normalize_all, texts_of, ItemId};
use feed_mirror::listing::PageOrder;
use feed_mirror::text::{split, strip_suffix};

/// A small deterministic generator, so that every run tries the same inputs.
struct Dice {
    state: u64,
}

impl Dice {
    fn new(seed: u64) -> Dice {
        Dice { state: seed }
    }

    fn roll(&mut self, sides: u64) -> u64 {
        self.state = self.state.wrapping_mul(6364136223846793005).wrapping_add(1442695040888963407);
        (self.state >> 33) % sides
    }

    fn text(&mut self, alphabet: &[&str], max_len: u64) -> String {
        let len = self.roll(max_len + 1);
        (0..len).map(|_| alphabet[self.roll(alphabet.len() as u64) as usize]).collect()
    }
}

#[test]
fn split_agrees_with_the_standard_library() {
    let mut dice = Dice::new(1);
    for _ in 0..2000 {
        let text = dice.text(&["a", "/", "b", "ä", "/", "_"], 12);
        let expected: Vec<String> = text.split('/').map(|s| s.to_string()).collect();
        assert_eq!(split(&text, '/'), expected, "splitting {:?}", text);
        assert_eq!(split(&text, '/').join("/"), text);
    }
}

#[test]
fn strip_suffix_agrees_with_the_standard_library() {
    let mut dice = Dice::new(2);
    for _ in 0..2000 {
        let text = dice.text(&["_", "l", "a", ".", "j", "p", "g", "_la.jpg", "é"], 6);
        let expected = text.strip_suffix("_la.jpg").unwrap_or(&text).to_string();
        assert_eq!(strip_suffix(&text, "_la.jpg"), expected, "stripping {:?}", text);
        assert_eq!(ItemId::normalize(&text).as_str(), expected);
    }
}

#[test]
fn collector_agrees_with_a_hash_set() {
    let mut dice = Dice::new(3);
    for _ in 0..200 {
        let mut collector = Collector::new();
        let mut reference: HashSet<String> = HashSet::new();
        let mut order: Vec<String> = Vec::new();
        for _ in 0..dice.roll(6) {
            let page: Vec<String> =
                (0..dice.roll(8)).map(|_| dice.text(&["1", "2", "3"], 2)).collect();
            let added = texts_of(&collector.extend(&normalize_all(&page)));
            let mut expected = Vec::new();
            for id in &page {
                if reference.insert(id.clone()) {
                    expected.push(id.clone());
                    order.push(id.clone());
                }
            }
            assert_eq!(added, expected);
        }
        assert_eq!(texts_of(&collector.items()), order);
        assert_eq!(collector.len(), reference.len());
    }
}

#[test]
fn collect_mode_never_repeats_an_id() {
    let mut dice = Dice::new(4);
    for _ in 0..300 {
        let mut d = Dispatcher::new(2, PageOrder::NewestFirst, DispatchMode::Collect);
        let mut handed: Vec<String> = Vec::new();
        let mut requests = 0;
        let mut discovered: HashSet<String> = HashSet::new();
        loop {
            match d.action() {
                Action::List { .. } => {
                    requests += 1;
                    let len = if requests > 20 { 0 } else { dice.roll(6) };
                    let page: Vec<String> =
                        (0..len).map(|_| format!("{}_la.jpg", 1 + dice.roll(9))).collect();
                    for entry in &page {
                        discovered.insert(entry.trim_end_matches("_la.jpg").to_string());
                    }
                    d.page_received(&page);
                }
                Action::Send { item } => {
                    if !item.is_sentinel() {
                        handed.push(item.into_string());
                    }
                    d.sent();
                }
                Action::Join => d.joined(),
                Action::Done => break,
                Action::Abort { .. } => panic!("no failure was reported"),
            }
        }
        assert_eq!(d.phase(), Phase::Finished);
        let unique: HashSet<String> = handed.iter().cloned().collect();
        assert_eq!(unique.len(), handed.len(), "an id was handed over twice: {:?}", handed);
        assert_eq!(unique, discovered);
        assert_eq!(texts_of(&d.collected()), handed);
    }
}

#[test]
fn stream_mode_hands_over_every_entry_in_order() {
    let mut dice = Dice::new(5);
    for _ in 0..300 {
        let mut d = Dispatcher::new(3, PageOrder::OldestFirst, DispatchMode::Stream);
        let mut handed: Vec<String> = Vec::new();
        let mut served: Vec<String> = Vec::new();
        let mut requests = 0;
        let mut last_cursor = String::new();
        loop {
            match d.action() {
                Action::List { cursor } => {
                    assert_eq!(cursor.as_str(), last_cursor);
                    requests += 1;
                    let len = if requests > 10 { 0 } else { dice.roll(5) };
                    let page: Vec<String> = (0..len).map(|_| format!("{}", 1 + dice.roll(99))).collect();
                    last_cursor = page.first().cloned().unwrap_or_default();
                    served.extend(page.iter().cloned());
                    d.page_received(&page);
                    assert_eq!(d.backlog(), page.len());
                }
                Action::Send { item } => {
                    handed.push(item.into_string());
                    d.sent();
                }
                Action::Join => d.joined(),
                Action::Done => break,
                Action::Abort { .. } => panic!("no failure was reported"),
            }
        }
        served.extend(vec![String::new(); 3]);
        assert_eq!(handed, served);
    }
}
