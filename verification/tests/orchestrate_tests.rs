use segelflug_classifieds::feed::{parse_feed, ClassifiedsItem, RawEntry};
use segelflug_classifieds::orchestrate::{
    collect_valid, cycle_next, filter_new_items, found_line, record_handled, CycleEvent,
    CycleState,
};
use segelflug_classifieds::store::GuidStore;
use CycleEvent as E;
use CycleState as S;

fn item(guid: &str, title: &str) -> ClassifiedsItem {
    ClassifiedsItem::from_raw(RawEntry {
        guid: Some(guid.to_string()),
        title: Some(title.to_string()),
        link: Some(format!("https://x/{}", guid)),
        description: None,
    })
    .unwrap()
}

#[test]
fn collect_valid_keeps_order_and_drops_rejected() {
    let results = vec![
        ClassifiedsItem::from_raw(RawEntry {
            guid: Some("a".to_string()),
            title: Some("A".to_string()),
            link: Some("https://x/a".to_string()),
            description: None,
        }),
        ClassifiedsItem::from_raw(RawEntry {
            guid: None,
            title: Some("bad".to_string()),
            link: Some("https://x/b".to_string()),
            description: None,
        }),
        ClassifiedsItem::from_raw(RawEntry {
            guid: Some("c".to_string()),
            title: Some("C".to_string()),
            link: Some("https://x/c".to_string()),
            description: None,
        }),
    ];
    let valid = collect_valid(results);
    let guids: Vec<&str> = valid.iter().map(|it| it.guid.as_str()).collect();
    assert_eq!(guids, vec!["a", "c"]);
}

// A notified identifier is never planned again, even when it reappears.
#[test]
fn seen_listings_are_never_replanned() {
    let mut store = GuidStore::new();
    record_handled(&mut store, "old".to_string());
    let items = vec![item("new1", "N1"), item("old", "Old"), item("new2", "N2")];
    let plan = filter_new_items(items, &store);
    let guids: Vec<&str> = plan.iter().map(|it| it.guid.as_str()).collect();
    // oldest first: feed order reversed, the seen one gone
    assert_eq!(guids, vec!["new2", "new1"]);
}

#[test]
fn record_handled_is_idempotent_and_monotone() {
    let mut store = GuidStore::new();
    record_handled(&mut store, "a".to_string());
    record_handled(&mut store, "a".to_string());
    record_handled(&mut store, "b".to_string());
    assert_eq!(store.len(), 2);
    assert!(store.contains_guid("a"));
    assert!(store.contains_guid("b"));
}

// End-to-end: two new entries against an empty store, notified oldest
// first, and the persisted store holds exactly both identifiers.
#[test]
fn two_new_entries_notify_oldest_first_and_persist() {
    // the entry added later ("A") sits at the top of the feed document
    let xml = "<rss version=\"2.0\"><channel><title>t</title><link>l</link><description>d</description><item><guid>A</guid><title>Newer</title><link>https://x/A</link></item><item><guid>B</guid><title>Older</title><link>https://x/B</link></item></channel></rss>";
    let outcomes = parse_feed(xml).unwrap();
    let items = collect_valid(outcomes);
    let mut store = GuidStore::from_json("[]");
    assert_eq!(store.len(), 0);

    let plan = filter_new_items(items, &store);
    let order: Vec<&str> = plan.iter().map(|it| it.guid.as_str()).collect();
    assert_eq!(order, vec!["B", "A"]);

    for listing in &plan {
        record_handled(&mut store, listing.guid.clone());
    }
    let persisted = store.to_json();
    let reloaded = GuidStore::from_json(&persisted);
    assert_eq!(reloaded.len(), 2);
    assert!(reloaded.contains_guid("A"));
    assert!(reloaded.contains_guid("B"));

    // a second cycle over the same feed plans nothing
    let outcomes2 = parse_feed(xml).unwrap();
    let items2 = collect_valid(outcomes2);
    let plan2 = filter_new_items(items2, &reloaded);
    assert!(plan2.is_empty());
}

#[test]
fn cycle_transitions_follow_the_design() {
    assert_eq!(cycle_next(S::Idle, E::Start), S::FetchingFeed);
    assert_eq!(cycle_next(S::FetchingFeed, E::FeedLoaded), S::Filtering);
    // a feed failure aborts the cycle without touching the store
    assert_eq!(cycle_next(S::FetchingFeed, E::FeedFailed), S::Idle);
    assert_eq!(cycle_next(S::Filtering, E::Filtered(true)), S::Enriching);
    assert_eq!(cycle_next(S::Filtering, E::Filtered(false)), S::Persisting);
    assert_eq!(cycle_next(S::Enriching, E::Enriched), S::Notifying);
    assert_eq!(cycle_next(S::Notifying, E::Notified), S::Recording);
    assert_eq!(cycle_next(S::Recording, E::Recorded(true)), S::Enriching);
    assert_eq!(cycle_next(S::Recording, E::Recorded(false)), S::Persisting);
    assert_eq!(cycle_next(S::Persisting, E::Persisted), S::Idle);
}

#[test]
fn found_line_renders_the_count() {
    assert_eq!(
        found_line(0),
        "\u{2708}\u{FE0F}  Found 0 new items on Segelflug.de"
    );
    assert_eq!(
        found_line(17),
        "\u{2708}\u{FE0F}  Found 17 new items on Segelflug.de"
    );
    assert_eq!(
        found_line(230),
        "\u{2708}\u{FE0F}  Found 230 new items on Segelflug.de"
    );
}
