use segelflug_classifieds::feed::{
    normalize_feed_text, parse_feed, ClassifiedsItem, RawEntry, RejectionReason,
};
use segelflug_classifieds::sanitize::{find_image_url, sanitize_description};

fn entry(
    guid: Option<&str>,
    title: Option<&str>,
    link: Option<&str>,
    description: Option<&str>,
) -> RawEntry {
    RawEntry {
        guid: guid.map(|s| s.to_string()),
        title: title.map(|s| s.to_string()),
        link: link.map(|s| s.to_string()),
        description: description.map(|s| s.to_string()),
    }
}

#[test]
fn valid_entry_is_accepted() {
    let item = ClassifiedsItem::from_raw(entry(
        Some("g1"),
        Some("Glider"),
        Some("https://example.org/1"),
        None,
    ))
    .unwrap();
    assert_eq!(item.guid, "g1");
    assert_eq!(item.title, "Glider");
    assert_eq!(item.link, "https://example.org/1");
    assert_eq!(item.description, None);
    assert_eq!(item.image_url, None);
}

#[test]
fn entry_without_guid_is_rejected() {
    let r = ClassifiedsItem::from_raw(entry(None, Some("t"), Some("l"), None));
    assert_eq!(r.unwrap_err(), RejectionReason::MissingGuid);
}

#[test]
fn entry_without_title_is_rejected() {
    let r = ClassifiedsItem::from_raw(entry(Some("g"), None, Some("l"), None));
    assert_eq!(r.unwrap_err(), RejectionReason::MissingTitle);
}

#[test]
fn entry_without_link_is_rejected() {
    let r = ClassifiedsItem::from_raw(entry(Some("g"), Some("t"), None, None));
    assert_eq!(r.unwrap_err(), RejectionReason::MissingLink);
}

#[test]
fn description_is_sanitized_and_image_extracted() {
    let desc = "<p>Nice&nbsp;glider</p><img src=\"https://www.segelflug.de/img/1.jpg\"> ";
    let item =
        ClassifiedsItem::from_raw(entry(Some("g"), Some("t"), Some("l"), Some(desc))).unwrap();
    assert_eq!(item.description.as_deref(), Some("Nice glider"));
    assert_eq!(
        item.image_url.as_deref(),
        Some("https://www.segelflug.de/img/1.jpg")
    );
}

// A malformed entry is excluded from the valid outcomes without
// disturbing its siblings.
#[test]
fn malformed_entry_does_not_abort_siblings() {
    let xml = "<rss version=\"2.0\"><channel><title>t</title><link>l</link><description>d</description><item><guid>ok-1</guid><title>First</title><link>https://x/1</link></item><item><title>No guid</title><link>https://x/2</link></item><item><guid>ok-3</guid><title>Third</title><link>https://x/3</link></item></channel></rss>";
    let outcomes = parse_feed(xml).unwrap();
    assert_eq!(outcomes.len(), 3);
    assert!(outcomes[0].is_ok());
    assert!(matches!(outcomes[1], Err(RejectionReason::MissingGuid)));
    assert!(outcomes[2].is_ok());
    assert_eq!(outcomes[0].as_ref().unwrap().guid, "ok-1");
    assert_eq!(outcomes[2].as_ref().unwrap().guid, "ok-3");
}

#[test]
fn malformed_document_is_fatal() {
    assert!(parse_feed("this is not a feed").is_err());
}

#[test]
fn cdata_wrappers_are_removed_before_parsing() {
    assert_eq!(
        normalize_feed_text("a// <![CDATA[b// ]]>c"),
        "abc".to_string()
    );
}

#[test]
fn sanitize_strips_tags_entities_and_whitespace() {
    assert_eq!(sanitize_description("  <b>Hi</b>&nbsp;there  "), "Hi there");
}

#[test]
fn sanitize_caps_long_descriptions() {
    let long = "x".repeat(4000);
    let capped = sanitize_description(&long);
    let chars: Vec<char> = capped.chars().collect();
    assert_eq!(chars.len(), 3500);
    assert_eq!(chars[3499], '\u{2026}');
    assert!(chars[..3499].iter().all(|c| *c == 'x'));
}

#[test]
fn short_description_is_not_capped() {
    let s = "y".repeat(3499);
    assert_eq!(sanitize_description(&s), s);
}

#[test]
fn description_at_the_limit_is_capped() {
    let s = "z".repeat(3500);
    let capped = sanitize_description(&s);
    let chars: Vec<char> = capped.chars().collect();
    assert_eq!(chars.len(), 3500);
    assert_eq!(chars[3499], '\u{2026}');
}

#[test]
fn sanitize_trims_unicode_whitespace() {
    assert_eq!(sanitize_description("\u{00A0} spaced \u{00A0}"), "spaced");
}

#[test]
fn image_url_requires_site_prefix() {
    assert_eq!(
        find_image_url(" src=\"https://elsewhere.example/i.jpg\""),
        None
    );
    assert_eq!(
        find_image_url("<img src=\"https://www.segelflug.de/a.png\">"),
        Some("https://www.segelflug.de/a.png".to_string())
    );
}

#[test]
fn image_url_takes_first_complete_match() {
    let d = "<img src=\"https://www.segelflug.de/one.jpg\"><img src=\"https://www.segelflug.de/two.jpg\">";
    assert_eq!(
        find_image_url(d),
        Some("https://www.segelflug.de/one.jpg".to_string())
    );
}

#[test]
fn image_url_absent_without_quote_or_value() {
    assert_eq!(find_image_url("no image here"), None);
    assert_eq!(find_image_url(" src=\"https://www.segelflug.de/"), None);
}
