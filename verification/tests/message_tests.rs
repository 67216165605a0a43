use segelflug_classifieds::extract::{ClassifiedsDetails, ClassifiedsUser};
use segelflug_classifieds::feed::{ClassifiedsItem, RawEntry};
use segelflug_classifieds::message::ItemWithExtraData;

fn item(description: Option<&str>) -> ClassifiedsItem {
    ClassifiedsItem::from_raw(RawEntry {
        guid: Some("g1".to_string()),
        title: Some("Nice Glider".to_string()),
        link: Some("https://x/item/1".to_string()),
        description: description.map(|d| d.to_string()),
    })
    .unwrap()
}

fn details(price: Option<&str>, photos: Vec<&str>, user_link: Option<&str>) -> ClassifiedsDetails {
    ClassifiedsDetails {
        price: price.map(|p| p.to_string()),
        photo_urls: photos.into_iter().map(|p| p.to_string()).collect(),
        location: None,
        user_link: user_link.map(|u| u.to_string()),
    }
}

fn user(name: Option<&str>, location: Option<&str>) -> ClassifiedsUser {
    ClassifiedsUser {
        name: name.map(|n| n.to_string()),
        address: None,
        location: location.map(|l| l.to_string()),
        website: None,
    }
}

#[test]
fn getters_pass_enrichment_through() {
    let it = ItemWithExtraData::new(
        item(Some("a <b>fine</b> glider")),
        Some(details(
            Some("1.500 \u{20ac}"),
            vec!["https://x/p1.jpg", "https://x/p2.jpg"],
            Some("https://x/profile"),
        )),
        Some(user(Some("Jane"), Some("Hessen"))),
    );
    assert_eq!(it.title(), "Nice Glider");
    assert_eq!(it.link(), "https://x/item/1");
    assert_eq!(it.price(), Some("1.500 \u{20ac}"));
    assert_eq!(it.description(), Some("a fine glider"));
    assert_eq!(it.photo_url(), Some("https://x/p1.jpg"));
    assert_eq!(it.thumbnail_url(), None);
    assert_eq!(it.user_name(), Some("Jane"));
    assert_eq!(it.user_location(), Some("Hessen"));
    assert_eq!(it.location(), Some("Hessen"));
    assert_eq!(it.item_location(), None);
    assert_eq!(it.user_link(), Some("https://x/profile"));
}

#[test]
fn item_location_wins_over_user_location() {
    let mut d = details(None, vec![], None);
    d.location = Some("Wasserkuppe".to_string());
    let it = ItemWithExtraData::new(item(None), Some(d), Some(user(None, Some("Hessen"))));
    assert_eq!(it.location(), Some("Wasserkuppe"));
}

#[test]
fn user_description_and_emoji_cases() {
    let both = ItemWithExtraData::new(item(None), None, Some(user(Some("Jane"), Some("Hessen"))));
    assert_eq!(both.user_description(), Some("Jane (Hessen)".to_string()));
    assert_eq!(both.user_emoji(), Some("\u{1F9D1}\u{200D}\u{2708}\u{FE0F}"));

    let name_only = ItemWithExtraData::new(item(None), None, Some(user(Some("Jane"), None)));
    assert_eq!(name_only.user_description(), Some("Jane".to_string()));
    assert_eq!(name_only.user_emoji(), Some("\u{1F9D1}\u{200D}\u{2708}\u{FE0F}"));

    let loc_only = ItemWithExtraData::new(item(None), None, Some(user(None, Some("Hessen"))));
    assert_eq!(loc_only.user_description(), Some("Hessen".to_string()));
    assert_eq!(loc_only.user_emoji(), Some("\u{1F30D}"));

    let neither = ItemWithExtraData::new(item(None), None, None);
    assert_eq!(neither.user_description(), None);
    assert_eq!(neither.user_emoji(), None);
}

#[test]
fn telegram_text_full_layout() {
    let it = ItemWithExtraData::new(
        item(Some("short text")),
        Some(details(
            Some("1.500 \u{20ac}"),
            vec![],
            Some("https://x/profile"),
        )),
        Some(user(Some("Jane"), None)),
    );
    let expected = "<a href=\"https://x/item/1\"><b>Nice Glider</b></a>\n<b>\u{1F4B6}  1.500 \u{20ac}</b>\n\u{1F9D1}\u{200D}\u{2708}\u{FE0F}  <a href=\"https://x/profile\"><b>Jane</b></a>\n\nshort text\n\nhttps://x/item/1";
    assert_eq!(it.telegram_text(), expected);
}

#[test]
fn telegram_text_minimal_layout() {
    let it = ItemWithExtraData::new(item(None), None, None);
    let expected = "<a href=\"https://x/item/1\"><b>Nice Glider</b></a>\n\nhttps://x/item/1";
    assert_eq!(it.telegram_text(), expected);
    assert_eq!(it.telegram_text_short(), expected);
}

#[test]
fn seller_without_profile_link_is_not_hyperlinked() {
    let it = ItemWithExtraData::new(item(None), None, Some(user(Some("Jane"), None)));
    let expected = "<a href=\"https://x/item/1\"><b>Nice Glider</b></a>\n\u{1F9D1}\u{200D}\u{2708}\u{FE0F}  <b>Jane</b>\n\nhttps://x/item/1";
    assert_eq!(it.telegram_text(), expected);
}

#[test]
fn long_body_falls_back_to_short_variant() {
    let long_desc = "d".repeat(2000);
    let it = ItemWithExtraData::new(item(Some(&long_desc)), None, None);
    let full = it.telegram_text();
    assert!(full.chars().count() > 1024);
    let chosen = it.message_for_limit(1024);
    assert_eq!(chosen, it.telegram_text_short());
    let roomy = it.message_for_limit(1_000_000);
    assert_eq!(roomy, full);
}

#[test]
fn console_lines_layout() {
    let it = ItemWithExtraData::new(
        item(None),
        Some(details(Some("900 \u{20ac}"), vec![], None)),
        Some(user(Some("Jane"), Some("Hessen"))),
    );
    let lines = it.console_lines();
    assert_eq!(
        lines,
        vec![
            " - Nice Glider".to_string(),
            "   \u{1F4B6}  900 \u{20ac}".to_string(),
            "   \u{1F9D1}\u{200D}\u{2708}\u{FE0F}  Jane (Hessen)".to_string(),
            "   https://x/item/1".to_string(),
        ]
    );
}

#[test]
fn console_lines_without_enrichment() {
    let it = ItemWithExtraData::new(item(None), None, None);
    let lines = it.console_lines();
    assert_eq!(
        lines,
        vec![" - Nice Glider".to_string(), "   https://x/item/1".to_string()]
    );
}
