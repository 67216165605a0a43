use segelflug_classifieds::dom::parse_document;
use segelflug_classifieds::extract::{
    absolutize_link, classify_generator, combine_location, effective_generator, extract_details,
    extract_user, filter_photo_urls, normalize_price, scrape_detail_page, scrape_user_page,
    strip_label, strip_prefix_then_trim, Generator, SelectorSet,
};

fn selectors() -> SelectorSet {
    SelectorSet::build().expect("the fixed selectors compile")
}

#[test]
fn detect_osclass_by_meta_prefix() {
    let doc = parse_document(
        "<html><head><meta name=\"generator\" content=\"Osclass 3.8\"></head><body></body></html>",
    );
    assert_eq!(Generator::detect(&doc, &selectors()), Some(Generator::Osclass));
}

#[test]
fn detect_dj_classifieds_by_meta_prefix() {
    let doc = parse_document(
        "<html><head><meta name=\"generator\" content=\"Joomla! - Open Source\"></head></html>",
    );
    assert_eq!(
        Generator::detect(&doc, &selectors()),
        Some(Generator::DjClassifieds)
    );
}

#[test]
fn unknown_generator_falls_back_with_diagnostic() {
    let doc = parse_document("<html><head></head><body></body></html>");
    let detected = Generator::detect(&doc, &selectors());
    assert_eq!(detected, None);
    assert_eq!(classify_generator("SomethingElse"), None);
    // unknown markup is deliberately treated as the more common variant,
    // and the flag reports the fallback
    assert_eq!(
        effective_generator(detected),
        (Generator::DjClassifieds, true)
    );
    assert_eq!(
        effective_generator(Some(Generator::Osclass)),
        (Generator::Osclass, false)
    );
}

// A price marker split across two sub-elements: the fragments are
// concatenated, the currency word becomes its symbol, whitespace goes.
#[test]
fn price_split_across_sub_elements() {
    let html = "<html><head><meta name=\"generator\" content=\"Osclass 3.8\"></head><body><div class=\"price-tag\"><i class=\"fa-money\"></i><span> 1.500 </span><span>Euro \u{20ac}</span></div></body></html>";
    let doc = parse_document(html);
    let details = extract_details(&doc, &selectors(), Generator::Osclass);
    assert_eq!(details.price.as_deref(), Some("1.500 \u{20ac}"));
}

#[test]
fn price_absent_without_marker() {
    let doc = parse_document("<html><body><p>no price</p></body></html>");
    let details = extract_details(&doc, &selectors(), Generator::Osclass);
    assert_eq!(details.price, None);
}

// A photo list holding only the placeholder yields no photos.
#[test]
fn placeholder_only_photo_list_is_empty() {
    let html = "<html><body><div class=\"item-photos\"><div class=\"thumbs\"><a href=\"https://site/images/no_photo.gif\"></a></div></div></body></html>";
    let doc = parse_document(html);
    let details = extract_details(&doc, &selectors(), Generator::Osclass);
    assert!(details.photo_urls.is_empty());
}

#[test]
fn real_photos_are_kept_in_order() {
    let html = "<html><body><div class=\"item-photos\"><div class=\"thumbs\"><a href=\"https://site/p/1.jpg\"></a><a href=\"https://site/images/no_photo.gif\"></a><a href=\"https://site/p/2.jpg\"></a></div></div></body></html>";
    let doc = parse_document(html);
    let details = extract_details(&doc, &selectors(), Generator::Osclass);
    assert_eq!(
        details.photo_urls,
        vec![
            "https://site/p/1.jpg".to_string(),
            "https://site/p/2.jpg".to_string()
        ]
    );
}

#[test]
fn osclass_location_and_profile_link() {
    let html = "<html><body><div id=\"item_location\"> Wasserkuppe </div><a href=\"/index.php?action=pub_profile&id=7\">seller</a></body></html>";
    let doc = parse_document(html);
    let details = extract_details(&doc, &selectors(), Generator::Osclass);
    assert_eq!(details.location.as_deref(), Some("Wasserkuppe"));
    assert_eq!(
        details.user_link.as_deref(),
        Some("https://www.segelflug.de/index.php?action=pub_profile&id=7")
    );
}

#[test]
fn dj_location_combines_airfield_and_region() {
    let html = "<html><body><div><i class=\"fa-map-marker\"></i> Flugplatz: Wasserkuppe </div><div><i class=\"fa-globe\"></i> Europa, Deutschland</div></body></html>";
    let doc = parse_document(html);
    let details = extract_details(&doc, &selectors(), Generator::DjClassifieds);
    assert_eq!(details.location.as_deref(), Some("Wasserkuppe, Deutschland"));
}

#[test]
fn dj_location_sentinels_count_as_absent() {
    let html = "<html><body><div><i class=\"fa-map-marker\"></i>Antarktis</div><div><i class=\"fa-globe\"></i>Europa, Antarktis</div></body></html>";
    let doc = parse_document(html);
    let details = extract_details(&doc, &selectors(), Generator::DjClassifieds);
    assert_eq!(details.location, None);

    let html2 = "<html><body><div><i class=\"fa-map-marker\"></i>not available</div></body></html>";
    let doc2 = parse_document(html2);
    let details2 = extract_details(&doc2, &selectors(), Generator::DjClassifieds);
    assert_eq!(details2.location, None);
}

// The sentinel placeholders count as absent on the first variant too.
#[test]
fn osclass_location_sentinels_count_as_absent() {
    let html = "<html><body><div id=\"item_location\"> not available </div></body></html>";
    let doc = parse_document(html);
    let details = extract_details(&doc, &selectors(), Generator::Osclass);
    assert_eq!(details.location, None);

    let html2 = "<html><body><div id=\"item_location\">Antarktis, Antarktis</div></body></html>";
    let doc2 = parse_document(html2);
    let details2 = extract_details(&doc2, &selectors(), Generator::Osclass);
    assert_eq!(details2.location, None);
}

#[test]
fn combine_location_rules() {
    assert_eq!(
        combine_location(Some("A".to_string()), Some("B".to_string())),
        Some("A, B".to_string())
    );
    assert_eq!(combine_location(Some("A".to_string()), None), Some("A".to_string()));
    assert_eq!(combine_location(None, Some("B".to_string())), Some("B".to_string()));
    assert_eq!(combine_location(None, None), None);
    assert_eq!(combine_location(Some("not available".to_string()), None), None);
    assert_eq!(
        combine_location(Some("Antarktis".to_string()), Some("Antarktis".to_string())),
        None
    );
}

#[test]
fn osclass_user_fields_are_label_stripped() {
    let html = "<html><body><ul><li class=\"name\"> Jane Doe </li><li class=\"address\">Adresse: Somewhere 1</li><li class=\"location\">Standort: Poppenhausen</li><li class=\"website\"> https://example.org </li></ul></body></html>";
    let doc = parse_document(html);
    let user = extract_user(&doc, &selectors(), Generator::Osclass);
    assert_eq!(user.name.as_deref(), Some("Jane Doe"));
    assert_eq!(user.address.as_deref(), Some("Somewhere 1"));
    assert_eq!(user.location.as_deref(), Some("Poppenhausen"));
    assert_eq!(user.website.as_deref(), Some("https://example.org"));
}

#[test]
fn dj_user_location_found_after_heading() {
    let html = "<html><body><div class=\"djcf-user-name\"> Max </div><h3>Standort</h3><p>irrelevant</p><div>Flugplatz: Poppenhausen</div><h3>Next section</h3></body></html>";
    let doc = parse_document(html);
    let user = extract_user(&doc, &selectors(), Generator::DjClassifieds);
    assert_eq!(user.name.as_deref(), Some("Max"));
    assert_eq!(user.location.as_deref(), Some("Poppenhausen"));
    assert_eq!(user.address, None);
    assert_eq!(user.website, None);
}

#[test]
fn dj_user_location_scan_stops_at_next_heading() {
    let html = "<html><body><h3>Standort</h3><h3>Other</h3><div>Flugplatz: TooLate</div></body></html>";
    let doc = parse_document(html);
    let user = extract_user(&doc, &selectors(), Generator::DjClassifieds);
    assert_eq!(user.location, None);
}

#[test]
fn dj_user_location_accepts_region_element() {
    let html = "<html><body><h4>Standort des Verkäufers</h4><span class=\"djcf-region\"> Hessen </span></body></html>";
    let doc = parse_document(html);
    let user = extract_user(&doc, &selectors(), Generator::DjClassifieds);
    assert_eq!(user.location.as_deref(), Some("Hessen"));
}

#[test]
fn scrape_detail_page_detects_and_extracts() {
    let html = "<html><head><meta name=\"generator\" content=\"Osclass 3.8\"></head><body><div><i class=\"fa-money\"></i><span>900</span> <span>Euro \u{20ac}</span></div></body></html>";
    let (details, generator, fell_back) = scrape_detail_page(html, &selectors());
    assert_eq!(generator, Generator::Osclass);
    assert!(!fell_back);
    assert_eq!(details.price.as_deref(), Some("900 \u{20ac}"));
}

#[test]
fn scrape_user_page_falls_back_on_unknown_markup() {
    let html = "<html><body><ul><li class=\"name\">Jane</li></ul></body></html>";
    let (user, generator, fell_back) = scrape_user_page(html, &selectors());
    // no generator meta element: the common variant is assumed and the
    // fallback is reported; that variant's name selector does not match
    assert_eq!(generator, Generator::DjClassifieds);
    assert!(fell_back);
    assert_eq!(user.name, None);
}

#[test]
fn pure_text_helpers() {
    assert_eq!(normalize_price("  1.500 Euro \u{20ac} "), "1.500 \u{20ac}");
    assert_eq!(normalize_price("ohne Preis"), "ohne Preis");
    assert_eq!(strip_label("Standort: X ", "Standort:"), "X");
    // the label is removed wherever it occurs, scanning left to right
    assert_eq!(strip_label("Standort:Standort: X", "Standort:"), "X");
    assert_eq!(strip_prefix_then_trim("  Europa, Hessen", "Europa, "), "Hessen");
    assert_eq!(strip_prefix_then_trim("Hessen", "Europa, "), "Hessen");
    assert_eq!(absolutize_link("/profile?id=1"), "https://www.segelflug.de/profile?id=1");
    assert_eq!(absolutize_link("https://a/b"), "https://a/b");
    assert_eq!(
        filter_photo_urls(vec!["https://x/images/no_photo.gif".to_string()]),
        Vec::<String>::new()
    );
}
