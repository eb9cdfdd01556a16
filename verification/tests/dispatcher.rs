use feed_mirror::dispatcher::{Action, DispatchMode, Dispatcher, Fault, Phase};
use feed_mirror::item_id::texts_of;
use feed_mirror::listing::PageOrder;

fn page_of(raw: &[&str]) -> Vec<String> {
    raw.iter().map(|s| s.to_string()).collect()
}

fn expect_list(d: &Dispatcher) -> String {
    match d.action() {
        Action::List { cursor } => cursor.as_str().to_string(),
        other => panic!("expected a listing request, got {:?}", describe(&other)),
    }
}

fn expect_send(d: &Dispatcher) -> String {
    match d.action() {
        Action::Send { item } => item.as_str().to_string(),
        other => panic!("expected a send, got {:?}", describe(&other)),
    }
}

fn describe(action: &Action) -> String {
    match action {
        Action::List { cursor } => format!("List({})", cursor.as_str()),
        Action::Send { item } => format!("Send({})", item.as_str()),
        Action::Join => "Join".to_string(),
        Action::Done => "Done".to_string(),
        Action::Abort { fault } => format!("Abort({:?})", fault),
    }
}

/// Serves `pages` to the dispatcher, lets the queue take everything, and
/// returns the cursors requested and the items handed over, stop signals
/// included.
fn serve(d: &mut Dispatcher, pages: &[Vec<String>]) -> (Vec<String>, Vec<String>) {
    let mut cursors = Vec::new();
    let mut handed = Vec::new();
    let mut next = 0;
    loop {
        match d.action() {
            Action::List { cursor } => {
                cursors.push(cursor.as_str().to_string());
                assert!(next < pages.len(), "more requests than pages");
                d.page_received(&pages[next]);
                next += 1;
            }
            Action::Send { item } => {
                handed.push(item.as_str().to_string());
                d.sent();
            }
            Action::Join => d.joined(),
            Action::Done => break,
            Action::Abort { .. } => break,
        }
    }
    (cursors, handed)
}

#[test]
fn first_request_has_empty_cursor() {
    let d = Dispatcher::new(4, PageOrder::NewestFirst, DispatchMode::Stream);
    assert_eq!(d.phase(), Phase::Searching);
    assert_eq!(expect_list(&d), "");
    assert_eq!(d.backlog(), 0);
    assert_eq!(d.stops_sent(), 0);
    assert_eq!(d.exit_code(), 0);
}

#[test]
fn empty_first_page_ends_pagination() {
    let mut d = Dispatcher::new(2, PageOrder::NewestFirst, DispatchMode::Stream);
    d.page_received(&page_of(&[]));
    assert_eq!(d.phase(), Phase::Draining);
    assert_eq!(expect_send(&d), "");
}

#[test]
fn pagination_ends_within_the_pages_served() {
    let mut d = Dispatcher::new(4, PageOrder::NewestFirst, DispatchMode::Stream);
    let pages = vec![
        page_of(&["200_la.jpg", "150_la.jpg", "100_la.jpg"]),
        page_of(&["90_la.jpg", "80_la.jpg"]),
        page_of(&[]),
    ];
    let (cursors, handed) = serve(&mut d, &pages);
    assert_eq!(cursors, vec!["", "100", "80"]);
    assert_eq!(handed, vec!["200", "150", "100", "90", "80", "", "", "", ""]);
    assert_eq!(d.phase(), Phase::Finished);
    assert_eq!(d.exit_code(), 0);
}

#[test]
fn pagination_stops_at_the_first_empty_cursor() {
    let mut d = Dispatcher::new(1, PageOrder::NewestFirst, DispatchMode::Stream);
    let pages = vec![page_of(&["5", "4"]), page_of(&[]), page_of(&["3"]), page_of(&[])];
    let (cursors, handed) = serve(&mut d, &pages);
    assert_eq!(cursors, vec!["", "4"]);
    assert_eq!(handed, vec!["5", "4", ""]);
}

#[test]
fn oldest_first_pages_move_the_cursor_to_the_first_id() {
    let mut d = Dispatcher::new(1, PageOrder::OldestFirst, DispatchMode::Stream);
    let pages = vec![page_of(&["100", "150", "200"]), page_of(&["80", "90"]), page_of(&[])];
    let (cursors, handed) = serve(&mut d, &pages);
    assert_eq!(cursors, vec!["", "100", "80"]);
    assert_eq!(handed, vec!["100", "150", "200", "80", "90", ""]);
}

#[test]
fn terminal_page_is_still_handed_over() {
    let mut d = Dispatcher::new(1, PageOrder::NewestFirst, DispatchMode::Stream);
    let pages = vec![page_of(&["7", "_la.jpg"])];
    let (cursors, handed) = serve(&mut d, &pages);
    assert_eq!(cursors, vec![""]);
    assert_eq!(handed, vec!["7", "", ""]);
    assert_eq!(d.phase(), Phase::Finished);
}

#[test]
fn one_stop_signal_per_worker() {
    for workers in [0usize, 1, 3, 4, 9] {
        let mut d = Dispatcher::new(workers, PageOrder::NewestFirst, DispatchMode::Stream);
        let (_, handed) = serve(&mut d, &[page_of(&[])]);
        assert_eq!(handed.len(), workers);
        assert!(handed.iter().all(|item| item.is_empty()));
        assert_eq!(d.stops_sent(), workers);
        assert_eq!(d.phase(), Phase::Finished);
    }
}

#[test]
fn stream_mode_repeats_what_pages_repeat() {
    let mut d = Dispatcher::new(1, PageOrder::NewestFirst, DispatchMode::Stream);
    let pages = vec![page_of(&["3", "2"]), page_of(&["2", "1"]), page_of(&[])];
    let (_, handed) = serve(&mut d, &pages);
    assert_eq!(handed, vec!["3", "2", "2", "1", ""]);
    assert!(d.collected().is_empty());
}

#[test]
fn collect_mode_hands_each_id_over_once() {
    let mut d = Dispatcher::new(2, PageOrder::NewestFirst, DispatchMode::Collect);
    let pages = vec![
        page_of(&["200_la.jpg", "150_la.jpg", "100_la.jpg"]),
        page_of(&["150", "100_la.jpg", "50_la.jpg"]),
        page_of(&["100", "50", "50_la.jpg"]),
        page_of(&[]),
    ];
    let (cursors, handed) = serve(&mut d, &pages);
    assert_eq!(cursors, vec!["", "100", "50", "50"]);
    assert_eq!(handed, vec!["200", "150", "100", "50", "", ""]);
    assert_eq!(texts_of(&d.collected()), vec!["200", "150", "100", "50"]);
}

#[test]
fn collect_mode_page_without_news_goes_on_searching() {
    let mut d = Dispatcher::new(1, PageOrder::NewestFirst, DispatchMode::Collect);
    d.page_received(&page_of(&["9", "8"]));
    d.sent();
    d.sent();
    assert_eq!(expect_list(&d), "8");
    d.page_received(&page_of(&["9", "8"]));
    assert_eq!(d.backlog(), 0);
    assert_eq!(d.phase(), Phase::Searching);
    assert_eq!(expect_list(&d), "8");
}

#[test]
fn no_listing_while_items_wait() {
    let mut d = Dispatcher::new(4, PageOrder::NewestFirst, DispatchMode::Stream);
    d.page_received(&page_of(&["3", "2", "1"]));
    assert_eq!(d.phase(), Phase::Sending);
    assert_eq!(d.backlog(), 3);
    // While the queue takes nothing the dispatcher asks for the same item.
    for _ in 0..5 {
        assert_eq!(expect_send(&d), "3");
        assert_eq!(d.backlog(), 3);
    }
    // Events that do not answer the send change nothing.
    d.page_received(&page_of(&["x"]));
    d.listing_failed();
    d.joined();
    assert_eq!(expect_send(&d), "3");
    assert_eq!(d.backlog(), 3);
    d.sent();
    assert_eq!(expect_send(&d), "2");
    d.sent();
    assert_eq!(expect_send(&d), "1");
    assert_eq!(d.backlog(), 1);
    d.sent();
    assert_eq!(d.backlog(), 0);
    assert_eq!(expect_list(&d), "1");
}

#[test]
fn listing_failure_is_fatal() {
    let mut d = Dispatcher::new(4, PageOrder::NewestFirst, DispatchMode::Stream);
    d.page_received(&page_of(&["2", "1"]));
    d.sent();
    d.sent();
    d.listing_failed();
    assert_eq!(d.phase(), Phase::Failed(Fault::Listing));
    assert!(matches!(d.action(), Action::Abort { fault: Fault::Listing }));
    assert_eq!(d.exit_code(), 1);
    // Nothing is dispatched after the failure, stop signals included.
    d.page_received(&page_of(&["0"]));
    d.sent();
    d.joined();
    assert_eq!(d.phase(), Phase::Failed(Fault::Listing));
    assert_eq!(d.stops_sent(), 0);
}

#[test]
fn closed_queue_is_fatal_while_sending() {
    let mut d = Dispatcher::new(4, PageOrder::NewestFirst, DispatchMode::Stream);
    d.page_received(&page_of(&["2", "1"]));
    d.sent();
    d.queue_closed();
    assert_eq!(d.phase(), Phase::Failed(Fault::QueueClosed));
    assert!(matches!(d.action(), Action::Abort { fault: Fault::QueueClosed }));
    assert_eq!(d.exit_code(), 1);
}

#[test]
fn closed_queue_is_ignored_while_draining() {
    let mut d = Dispatcher::new(3, PageOrder::NewestFirst, DispatchMode::Stream);
    d.page_received(&page_of(&[]));
    d.queue_closed();
    assert_eq!(d.phase(), Phase::Draining);
    d.sent();
    d.queue_closed();
    assert_eq!(d.phase(), Phase::Joining);
    assert_eq!(d.stops_sent(), 3);
    assert!(matches!(d.action(), Action::Join));
    d.sent();
    assert_eq!(d.phase(), Phase::Joining);
    d.joined();
    assert_eq!(d.phase(), Phase::Finished);
    assert!(matches!(d.action(), Action::Done));
}

#[test]
fn listing_failure_after_pagination_changes_nothing() {
    let mut d = Dispatcher::new(1, PageOrder::NewestFirst, DispatchMode::Stream);
    d.page_received(&page_of(&[]));
    d.listing_failed();
    assert_eq!(d.phase(), Phase::Draining);
}

#[test]
fn cursor_follows_the_pages() {
    let mut d = Dispatcher::new(1, PageOrder::NewestFirst, DispatchMode::Stream);
    assert!(d.cursor().is_sentinel());
    d.page_received(&page_of(&["12_la.jpg", "11_la.jpg"]));
    assert_eq!(d.cursor().as_str(), "11");
    d.sent();
    d.sent();
    d.page_received(&page_of(&[]));
    assert!(d.cursor().is_sentinel());
}
