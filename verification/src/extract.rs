//! Generator detection and the per-variant extraction engine: price,
//! photo URLs, location and seller-profile link from a detail page,
//! seller name and location from a profile page.
//!
//! Every decision taken on the text that comes back from the document
//! queries is verified; the queries themselves live in `dom`.

use vstd::prelude::*;

use crate::dom::{
    attr_value, inner_html, next_sibling_element, parent_element, parse_document, parse_selector,
    select_all, select_first, tag_name,
};
use crate::sanitize::{strip_html, stripped_of};
use crate::text::{
    chars_end_with, chars_eq, chars_start_with, chars_to_string, ends_with, find_chars, push_all,
    replace_chars, replace_spec, starts_with, str_to_chars, trim_chars, trim_spec, trim_text,
};

verus! {

/// The site generator that produced a page's markup; it decides which
/// extraction rules apply.
#[derive(Clone, Copy, Debug, PartialEq, Eq, Structural)]
pub enum Generator {
    Osclass,
    DjClassifieds,
}

/// Classify a generator meta element's content by its prefix.
pub fn classify_generator(content: &str) -> (r: Option<Generator>)
    ensures
        starts_with(content@, "Osclass"@) ==> r == Some(Generator::Osclass),
        !starts_with(content@, "Osclass"@) && starts_with(content@, "Joomla"@) ==> r == Some(
            Generator::DjClassifieds,
        ),
        !starts_with(content@, "Osclass"@) && !starts_with(content@, "Joomla"@) ==> r is None,
{
    let chars = str_to_chars(content);
    let osclass = str_to_chars("Osclass");
    let joomla = str_to_chars("Joomla");
    if chars_start_with(&chars, &osclass) {
        Some(Generator::Osclass)
    } else if chars_start_with(&chars, &joomla) {
        Some(Generator::DjClassifieds)
    } else {
        None
    }
}

/// The variant the extractors are told to use, and whether that choice
/// was a fallback. An unrecognized page is treated as the more common
/// variant by deliberate policy, and the flag lets the caller log that
/// the markup was not actually recognized.
pub fn effective_generator(detected: Option<Generator>) -> (r: (Generator, bool))
    ensures
        match detected {
            Some(g) => r == (g, false),
            None => r == (Generator::DjClassifieds, true),
        },
{
    match detected {
        Some(g) => (g, false),
        None => (Generator::DjClassifieds, true),
    }
}

/// Price text normalization: the currency word becomes its symbol and
/// surrounding whitespace goes.
pub open spec fn price_norm_spec(s: Seq<char>) -> Seq<char> {
    trim_spec(replace_spec(s, "Euro \u{20ac}"@, "\u{20ac}"@))
}

/// Normalize a price fragment's plain text.
pub fn normalize_price(raw: &str) -> (r: String)
    ensures
        r@ == price_norm_spec(raw@),
{
    proof {
        reveal_strlit("Euro \u{20ac}");
        reveal_strlit("\u{20ac}");
    }
    let chars = str_to_chars(raw);
    let word = str_to_chars("Euro \u{20ac}");
    let symbol = str_to_chars("\u{20ac}");
    let replaced = replace_chars(&chars, &word, &symbol);
    let trimmed = trim_chars(&replaced);
    chars_to_string(&trimmed)
}

/// The gallery placeholder that marks a missing photo.
pub open spec fn placeholder_suffix() -> Seq<char> {
    "/no_photo.gif"@
}

/// Keep only real photo URLs: the known "no photo" placeholder, matched
/// by exact suffix, is dropped; order is kept.
pub fn filter_photo_urls(urls: Vec<String>) -> (r: Vec<String>)
    ensures
        r@ == urls@.filter(|u: String| !ends_with(u@, placeholder_suffix())),
{
    broadcast use vstd::seq_lib::group_seq_lib_default;

    let placeholder = str_to_chars("/no_photo.gif");
    let ghost pred = |u: String| !ends_with(u@, placeholder_suffix());
    let mut out: Vec<String> = Vec::new();
    let mut i: usize = 0;
    assert(urls@.take(0) =~= Seq::<String>::empty());
    assert(Seq::<String>::empty().filter(pred) =~= Seq::<String>::empty()) by {
        reveal(Seq::filter);
    }
    while i < urls.len()
        invariant
            0 <= i <= urls.len(),
            placeholder@ == placeholder_suffix(),
            pred == (|u: String| !ends_with(u@, placeholder_suffix())),
            out@ == urls@.take(i as int).filter(pred),
        decreases urls.len() - i,
    {
        let u = &urls[i];
        let chars = str_to_chars(u.as_str());
        let keep = !chars_end_with(&chars, &placeholder);
        if keep {
            out.push(u.clone());
        }
        proof {
            let prev = urls@.take(i as int);
            let next = urls@.take(i + 1);
            assert(next.drop_last() =~= prev);
            assert(next.last() == urls@[i as int]);
            reveal(Seq::filter);
            assert(next.filter(pred) == if pred(urls@[i as int]) {
                prev.filter(pred).push(urls@[i as int])
            } else {
                prev.filter(pred)
            });
            if keep {
                assert(out@ =~= prev.filter(pred).push(urls@[i as int]));
            }
        }
        i += 1;
    }
    assert(urls@.take(urls@.len() as int) =~= urls@);
    out
}

/// The origin used to absolutize site-relative links.
pub open spec fn site_origin() -> Seq<char> {
    "https://www.segelflug.de"@
}

/// A site-relative link rewritten against the site origin; an already
/// absolute link is left alone.
pub open spec fn absolutize_spec(href: Seq<char>) -> Seq<char> {
    if starts_with(href, "/"@) {
        site_origin() + href
    } else {
        href
    }
}

pub fn absolutize_link(href: &str) -> (r: String)
    ensures
        r@ == absolutize_spec(href@),
{
    proof {
        reveal_strlit("/");
        reveal_strlit("https://www.segelflug.de");
    }
    let chars = str_to_chars(href);
    let slash = str_to_chars("/");
    if chars_start_with(&chars, &slash) {
        let origin = str_to_chars("https://www.segelflug.de");
        let mut out: Vec<char> = Vec::new();
        push_all(&mut out, &origin);
        push_all(&mut out, &chars);
        chars_to_string(&out)
    } else {
        let mut out: Vec<char> = Vec::new();
        push_all(&mut out, &chars);
        assert(out@ =~= href@);
        chars_to_string(&out)
    }
}

/// Remove every occurrence of a field label and trim what is left; the
/// profile page writes values as `Label: value`.
pub fn strip_label(text: &str, label: &str) -> (r: String)
    ensures
        r@ == trim_spec(replace_spec(text@, label@, Seq::empty())),
{
    let chars = str_to_chars(text);
    let pat = str_to_chars(label);
    if pat.len() == 0 {
        // an empty label replaces nothing
        let trimmed = trim_chars(&chars);
        return chars_to_string(&trimmed);
    }
    let empty: Vec<char> = Vec::new();
    assert(empty@ =~= Seq::<char>::empty());
    let replaced = replace_chars(&chars, &pat, &empty);
    let trimmed = trim_chars(&replaced);
    chars_to_string(&trimmed)
}

/// `s` with `p` removed from its front when it is there.
pub open spec fn strip_prefix_spec(s: Seq<char>, p: Seq<char>) -> Seq<char> {
    if starts_with(s, p) {
        s.skip(p.len() as int)
    } else {
        s
    }
}

/// Trim, remove a label prefix when present, and trim what is left;
/// the text around an icon marker keeps stray whitespace on both sides
/// of the label.
pub fn strip_prefix_then_trim(text: &str, prefix: &str) -> (r: String)
    ensures
        r@ == trim_spec(strip_prefix_spec(trim_spec(text@), prefix@)),
{
    let raw = str_to_chars(text);
    let chars = trim_chars(&raw);
    let pat = str_to_chars(prefix);
    if chars_start_with(&chars, &pat) {
        let rest = crate::text::copy_range(&chars, pat.len(), chars.len());
        let trimmed = trim_chars(&rest);
        assert(chars@.subrange(pat@.len() as int, chars@.len() as int) =~= chars@.skip(
            pat@.len() as int,
        ));
        chars_to_string(&trimmed)
    } else {
        let trimmed = trim_chars(&chars);
        chars_to_string(&trimmed)
    }
}

/// The placeholder a page shows where no location was entered.
pub open spec fn unavailable_sentinel() -> Seq<char> {
    "not available"@
}

/// The placeholder pair a page shows where no region was chosen.
pub open spec fn antarktis_sentinel() -> Seq<char> {
    "Antarktis, Antarktis"@
}

pub open spec fn view_opt(o: Option<String>) -> Option<Seq<char>> {
    match o {
        Some(s) => Some(s@),
        None => None,
    }
}

/// Combine a location and a region into `"{location}, {region}"` when
/// both are present, else keep whichever is present; the "not available"
/// and "Antarktis, Antarktis" placeholders count as absent.
pub open spec fn combine_location_spec(l: Option<Seq<char>>, r: Option<Seq<char>>) -> Option<
    Seq<char>,
> {
    let l2 = match l {
        Some(a) => if a == unavailable_sentinel() {
            None
        } else {
            Some(a)
        },
        None => None,
    };
    let r2 = match r {
        Some(b) => if b == unavailable_sentinel() {
            None
        } else {
            Some(b)
        },
        None => None,
    };
    let c = match (l2, r2) {
        (Some(a), Some(b)) => Some(a + ", "@ + b),
        (Some(a), None) => Some(a),
        (None, Some(b)) => Some(b),
        (None, None) => None,
    };
    match c {
        Some(v) => if v == antarktis_sentinel() {
            None
        } else {
            Some(v)
        },
        None => None,
    }
}

pub fn combine_location(loc: Option<String>, region: Option<String>) -> (r: Option<String>)
    ensures
        view_opt(r) == combine_location_spec(view_opt(loc), view_opt(region)),
{
    proof {
        reveal_strlit("not available");
        reveal_strlit("Antarktis, Antarktis");
        reveal_strlit(", ");
    }
    let sentinel = str_to_chars("not available");
    let antarktis = str_to_chars("Antarktis, Antarktis");
    let l2: Option<Vec<char>> = match loc {
        Some(a) => {
            let chars = str_to_chars(a.as_str());
            if chars_eq(&chars, &sentinel) {
                None
            } else {
                Some(chars)
            }
        },
        None => None,
    };
    let r2: Option<Vec<char>> = match region {
        Some(b) => {
            let chars = str_to_chars(b.as_str());
            if chars_eq(&chars, &sentinel) {
                None
            } else {
                Some(chars)
            }
        },
        None => None,
    };
    let combined: Option<Vec<char>> = match (l2, r2) {
        (Some(a), Some(b)) => {
            let mut out: Vec<char> = Vec::new();
            push_all(&mut out, &a);
            let comma = str_to_chars(", ");
            push_all(&mut out, &comma);
            push_all(&mut out, &b);
            Some(out)
        },
        (Some(a), None) => Some(a),
        (None, Some(b)) => Some(b),
        (None, None) => None,
    };
    match combined {
        Some(v) => {
            if chars_eq(&v, &antarktis) {
                None
            } else {
                Some(chars_to_string(&v))
            }
        },
        None => None,
    }
}

/// How many following siblings the profile-page location scan is willing
/// to look at; the sibling chain of an opaque document cannot be given a
/// termination measure, so the walk is bounded.
pub const SIBLING_SCAN_LIMIT: usize = 64;

/// The compiled selectors both extractors work with, built once at
/// startup and passed in explicitly.
pub struct SelectorSet {
    pub generator_meta: scraper::Selector,
    pub a_price_icon: scraper::Selector,
    pub a_photo_links: scraper::Selector,
    pub a_profile_link: scraper::Selector,
    pub a_location: scraper::Selector,
    pub a_user_name: scraper::Selector,
    pub a_user_address: scraper::Selector,
    pub a_user_location: scraper::Selector,
    pub a_user_website: scraper::Selector,
    pub b_price: scraper::Selector,
    pub b_photos: scraper::Selector,
    pub b_profile_link: scraper::Selector,
    pub b_location_icon: scraper::Selector,
    pub b_region_icon: scraper::Selector,
    pub b_user_name: scraper::Selector,
    pub b_headings: scraper::Selector,
}

impl SelectorSet {
    /// Compile every selector the extractors use; `None` only if one of
    /// the fixed selector strings fails to compile.
    pub fn build() -> Option<SelectorSet> {
        let generator_meta = parse_selector("meta[name=\"generator\"]")?;
        let a_price_icon = parse_selector(".fa-money")?;
        let a_photo_links = parse_selector(".item-photos .thumbs a")?;
        let a_profile_link = parse_selector("a[href*=\"action=pub_profile\"]")?;
        let a_location = parse_selector("#item_location")?;
        let a_user_name = parse_selector("li.name")?;
        let a_user_address = parse_selector("li.address")?;
        let a_user_location = parse_selector("li.location")?;
        let a_user_website = parse_selector("li.website")?;
        let b_price = parse_selector(".djcf-price")?;
        let b_photos = parse_selector(".djcf-gallery img")?;
        let b_profile_link = parse_selector("a[href*=\"user_profile\"]")?;
        let b_location_icon = parse_selector(".fa-map-marker")?;
        let b_region_icon = parse_selector(".fa-globe")?;
        let b_user_name = parse_selector(".djcf-user-name")?;
        let b_headings = parse_selector("h1, h2, h3, h4, h5, h6")?;
        Some(
            SelectorSet {
                generator_meta,
                a_price_icon,
                a_photo_links,
                a_profile_link,
                a_location,
                a_user_name,
                a_user_address,
                a_user_location,
                a_user_website,
                b_price,
                b_photos,
                b_profile_link,
                b_location_icon,
                b_region_icon,
                b_user_name,
                b_headings,
            },
        )
    }
}

impl Generator {
    /// Classify a page by its generator meta element's content prefix;
    /// `None` when the element is missing or its prefix is unknown.
    pub fn detect(doc: &scraper::Html, sels: &SelectorSet) -> Option<Generator> {
        match select_first(doc, &sels.generator_meta) {
            Some(el) => match attr_value(&el, "content") {
                Some(content) => classify_generator(content.as_str()),
                None => None,
            },
            None => None,
        }
    }
}

/// Enrichment scraped from a listing's detail page; every field is
/// best-effort and optional.
#[derive(Debug)]
pub struct ClassifiedsDetails {
    pub price: Option<String>,
    pub photo_urls: Vec<String>,
    pub location: Option<String>,
    pub user_link: Option<String>,
}

/// Enrichment scraped from a seller's profile page.
#[derive(Debug)]
pub struct ClassifiedsUser {
    pub name: Option<String>,
    pub address: Option<String>,
    pub location: Option<String>,
    pub website: Option<String>,
}

/// The tag-free text of the first element matching `sel`, if any.
fn stripped_of_first(doc: &scraper::Html, sel: &scraper::Selector) -> (r: Option<String>)
    ensures
        r is Some ==> exists|h: Seq<char>| r->Some_0@ == stripped_of(h),
{
    match select_first(doc, sel) {
        Some(el) => {
            let html = inner_html(&el);
            let s = strip_html(html.as_str());
            Some(s)
        },
        None => None,
    }
}

/// The tag-free text of the parent of the first element matching `sel`:
/// the marker-icon pattern, where an icon sits inside the element whose
/// text carries the value, split over sub-elements that stripping
/// concatenates.
fn stripped_of_parent(doc: &scraper::Html, sel: &scraper::Selector) -> (r: Option<String>)
    ensures
        r is Some ==> exists|h: Seq<char>| r->Some_0@ == stripped_of(h),
{
    match select_first(doc, sel) {
        Some(el) => match parent_element(&el) {
            Some(parent) => {
                let html = inner_html(&parent);
                let s = strip_html(html.as_str());
                Some(s)
            },
            None => None,
        },
        None => None,
    }
}

/// The value of `attr` on every element matching `sel`, in document order.
fn collect_attrs(doc: &scraper::Html, sel: &scraper::Selector, attr: &str) -> Vec<String> {
    let els = select_all(doc, sel);
    let mut out: Vec<String> = Vec::new();
    let mut i: usize = 0;
    while i < els.len()
        decreases els.len() - i,
    {
        match attr_value(&els[i], attr) {
            Some(v) => out.push(v),
            None => {},
        }
        i += 1;
    }
    out
}

/// The price found near the variant's price marker, normalized.
fn extract_price(doc: &scraper::Html, sels: &SelectorSet, gen: Generator) -> (r: Option<String>)
    ensures
        r is Some ==> exists|h: Seq<char>| r->Some_0@ == price_norm_spec(stripped_of(h)),
{
    let raw = match gen {
        Generator::Osclass => stripped_of_parent(doc, &sels.a_price_icon),
        Generator::DjClassifieds => stripped_of_first(doc, &sels.b_price),
    };
    match raw {
        Some(t) => {
            let ghost h = choose|h: Seq<char>| t@ == stripped_of(h);
            let p = normalize_price(t.as_str());
            assert(p@ == price_norm_spec(stripped_of(h)));
            Some(p)
        },
        None => None,
    }
}

/// The absolutized seller-profile link, when the page carries one.
fn extract_user_link(doc: &scraper::Html, sels: &SelectorSet, gen: Generator) -> (r: Option<
    String,
>)
    ensures
        r is Some ==> exists|h: Seq<char>| r->Some_0@ == absolutize_spec(h),
{
    let sel = match gen {
        Generator::Osclass => &sels.a_profile_link,
        Generator::DjClassifieds => &sels.b_profile_link,
    };
    match select_first(doc, sel) {
        Some(el) => match attr_value(&el, "href") {
            Some(href) => {
                let link = absolutize_link(href.as_str());
                Some(link)
            },
            None => None,
        },
        None => None,
    }
}

/// Extract price, photo URLs, location and seller-profile link from a
/// detail page, under the given variant's rules. Every field is
/// best-effort: a missing selector match yields an absent field, never
/// an error.
pub fn extract_details(doc: &scraper::Html, sels: &SelectorSet, gen: Generator) -> (r:
    ClassifiedsDetails)
    ensures
        r.price is Some ==> exists|h: Seq<char>| r.price->Some_0@ == price_norm_spec(
            stripped_of(h),
        ),
        gen == Generator::Osclass ==> forall|k: int|
            0 <= k < r.photo_urls@.len() ==> !ends_with(
                (#[trigger] r.photo_urls@[k])@,
                placeholder_suffix(),
            ),
        r.user_link is Some ==> exists|h: Seq<char>| r.user_link->Some_0@ == absolutize_spec(h),
        r.location is Some ==> r.location->Some_0@ != antarktis_sentinel(),
        gen == Generator::Osclass ==> (r.location is Some ==> r.location->Some_0@
            != unavailable_sentinel()),
{
    broadcast use vstd::seq_lib::group_seq_lib_default;

    let price = extract_price(doc, sels, gen);
    let user_link = extract_user_link(doc, sels, gen);
    let (photo_urls, location) = match gen {
        Generator::Osclass => {
            let hrefs = collect_attrs(doc, &sels.a_photo_links, "href");
            let photos = filter_photo_urls(hrefs);
            let raw_location = match stripped_of_first(doc, &sels.a_location) {
                Some(t) => Some(trim_text(t.as_str())),
                None => None,
            };
            // the placeholder values count as absent, as on the other variant
            let location = combine_location(raw_location, None);
            (photos, location)
        },
        Generator::DjClassifieds => {
            let photos = collect_attrs(doc, &sels.b_photos, "src");
            let loc = match stripped_of_parent(doc, &sels.b_location_icon) {
                Some(t) => Some(strip_prefix_then_trim(t.as_str(), "Flugplatz:")),
                None => None,
            };
            let region = match stripped_of_parent(doc, &sels.b_region_icon) {
                Some(t) => Some(strip_prefix_then_trim(t.as_str(), "Europa, ")),
                None => None,
            };
            let location = combine_location(loc, region);
            (photos, location)
        },
    };
    ClassifiedsDetails { price, photo_urls, location, user_link }
}

/// Whether the element's tag is one of the heading tags the profile-page
/// scan stops at.
fn is_heading_tag(tag: &String) -> bool {
    let chars = str_to_chars(tag.as_str());
    let h1 = str_to_chars("h1");
    let h2 = str_to_chars("h2");
    let h3 = str_to_chars("h3");
    let h4 = str_to_chars("h4");
    let h5 = str_to_chars("h5");
    let h6 = str_to_chars("h6");
    chars_eq(&chars, &h1) || chars_eq(&chars, &h2) || chars_eq(&chars, &h3) || chars_eq(
        &chars,
        &h4,
    ) || chars_eq(&chars, &h5) || chars_eq(&chars, &h6)
}

/// Walk a profile page of the second variant for the seller's location:
/// find the heading that announces the location section, then scan its
/// following siblings for a labelled location or a region element,
/// stopping at the next heading.
fn b_user_location<'a>(doc: &'a scraper::Html, sels: &SelectorSet) -> (r: Option<String>)
    ensures
        r is Some ==> exists|h: Seq<char>|
            r->Some_0@ == trim_spec(strip_prefix_spec(trim_spec(stripped_of(h)), "Flugplatz:"@))
                || r->Some_0@ == trim_spec(stripped_of(h)),
{
    proof {
        reveal_strlit("Standort");
        reveal_strlit("region");
    }
    let keyword = str_to_chars("Standort");
    let region_word = str_to_chars("region");
    let flugplatz = str_to_chars("Flugplatz:");
    let headings = select_all(doc, &sels.b_headings);
    let mut hi: usize = 0;
    while hi < headings.len()
        invariant
            flugplatz@ == "Flugplatz:"@,
            region_word@ == "region"@,
            keyword@ == "Standort"@,
        decreases headings.len() - hi,
    {
        let heading = &headings[hi];
        let html = inner_html(heading);
        let text = strip_html(html.as_str());
        let text_chars = str_to_chars(text.as_str());
        if find_chars(&text_chars, &keyword).is_some() {
            // scan the siblings that follow this heading
            let mut cur = next_sibling_element(heading);
            let mut steps: usize = 0;
            while steps < SIBLING_SCAN_LIMIT
                invariant
                    flugplatz@ == "Flugplatz:"@,
                    region_word@ == "region"@,
                decreases SIBLING_SCAN_LIMIT - steps,
            {
                match cur {
                    Some(el) => {
                        let tag = tag_name(&el);
                        if is_heading_tag(&tag) {
                            return None;
                        }
                        let sib_html = inner_html(&el);
                        let sib_text = strip_html(sib_html.as_str());
                        let sib_chars = str_to_chars(sib_text.as_str());
                        let sib_trimmed = trim_chars(&sib_chars);
                        if chars_start_with(&sib_trimmed, &flugplatz) {
                            let loc = strip_prefix_then_trim(sib_text.as_str(), "Flugplatz:");
                            return Some(loc);
                        }
                        let is_region = match attr_value(&el, "class") {
                            Some(classes) => {
                                let class_chars = str_to_chars(classes.as_str());
                                find_chars(&class_chars, &region_word).is_some()
                            },
                            None => false,
                        };
                        if is_region {
                            let loc = trim_text(sib_text.as_str());
                            return Some(loc);
                        }
                        cur = next_sibling_element(&el);
                    },
                    None => {
                        return None;
                    },
                }
                steps += 1;
            }
            return None;
        }
        hi += 1;
    }
    None
}

/// Extract seller name and location (and, where the page offers them,
/// address and website) from a profile page, under the given variant's
/// rules. Extraction failures degrade to absent fields.
pub fn extract_user(doc: &scraper::Html, sels: &SelectorSet, gen: Generator) -> (r:
    ClassifiedsUser)
    ensures
        r.name is Some ==> exists|h: Seq<char>| r.name->Some_0@ == trim_spec(stripped_of(h)),
        gen == Generator::Osclass ==> (r.address is Some ==> exists|h: Seq<char>|
            r.address->Some_0@ == trim_spec(
                replace_spec(stripped_of(h), "Adresse:"@, Seq::empty()),
            )),
        gen == Generator::Osclass ==> (r.location is Some ==> exists|h: Seq<char>|
            r.location->Some_0@ == trim_spec(
                replace_spec(stripped_of(h), "Standort:"@, Seq::empty()),
            )),
        gen == Generator::DjClassifieds ==> (r.location is Some ==> exists|h: Seq<char>|
            r.location->Some_0@ == trim_spec(
                strip_prefix_spec(trim_spec(stripped_of(h)), "Flugplatz:"@),
            ) || r.location->Some_0@ == trim_spec(stripped_of(h))),
        r.website is Some ==> exists|h: Seq<char>| r.website->Some_0@ == trim_spec(stripped_of(h)),
        gen == Generator::DjClassifieds ==> r.address is None && r.website is None,
{
    proof {
        reveal_strlit("Adresse:");
        reveal_strlit("Standort:");
    }
    match gen {
        Generator::Osclass => {
            let name = match stripped_of_first(doc, &sels.a_user_name) {
                Some(t) => Some(trim_text(t.as_str())),
                None => None,
            };
            let address = match stripped_of_first(doc, &sels.a_user_address) {
                Some(t) => Some(strip_label(t.as_str(), "Adresse:")),
                None => None,
            };
            let location = match stripped_of_first(doc, &sels.a_user_location) {
                Some(t) => Some(strip_label(t.as_str(), "Standort:")),
                None => None,
            };
            let website = match stripped_of_first(doc, &sels.a_user_website) {
                Some(t) => Some(trim_text(t.as_str())),
                None => None,
            };
            ClassifiedsUser { name, address, location, website }
        },
        Generator::DjClassifieds => {
            let name = match stripped_of_first(doc, &sels.b_user_name) {
                Some(t) => Some(trim_text(t.as_str())),
                None => None,
            };
            let location = b_user_location(doc, sels);
            ClassifiedsUser { name, address: None, location, website: None }
        },
    }
}

/// Scrape a detail page from its raw text: parse it, classify its
/// generator (falling back to the common variant for unrecognized
/// markup, which the returned flag reports), and extract under that
/// variant's rules.
pub fn scrape_detail_page(text: &str, sels: &SelectorSet) -> (r: (
    ClassifiedsDetails,
    Generator,
    bool,
))
    ensures
        r.0.price is Some ==> exists|h: Seq<char>| r.0.price->Some_0@ == price_norm_spec(
            stripped_of(h),
        ),
        r.1 == Generator::Osclass ==> forall|k: int|
            0 <= k < r.0.photo_urls@.len() ==> !ends_with(
                (#[trigger] r.0.photo_urls@[k])@,
                placeholder_suffix(),
            ),
        r.0.user_link is Some ==> exists|h: Seq<char>| r.0.user_link->Some_0@ == absolutize_spec(
            h,
        ),
        r.0.location is Some ==> r.0.location->Some_0@ != antarktis_sentinel(),
        r.1 == Generator::Osclass ==> (r.0.location is Some ==> r.0.location->Some_0@
            != unavailable_sentinel()),
{
    let doc = parse_document(text);
    let detected = Generator::detect(&doc, sels);
    let (generator, fell_back) = effective_generator(detected);
    let details = extract_details(&doc, sels, generator);
    (details, generator, fell_back)
}

/// Scrape a seller-profile page from its raw text, under the detected
/// (or fallen-back-to) variant's rules.
pub fn scrape_user_page(text: &str, sels: &SelectorSet) -> (r: (ClassifiedsUser, Generator, bool))
    ensures
        r.0.name is Some ==> exists|h: Seq<char>| r.0.name->Some_0@ == trim_spec(stripped_of(h)),
        r.1 == Generator::Osclass ==> (r.0.address is Some ==> exists|h: Seq<char>|
            r.0.address->Some_0@ == trim_spec(
                replace_spec(stripped_of(h), "Adresse:"@, Seq::empty()),
            )),
        r.1 == Generator::Osclass ==> (r.0.location is Some ==> exists|h: Seq<char>|
            r.0.location->Some_0@ == trim_spec(
                replace_spec(stripped_of(h), "Standort:"@, Seq::empty()),
            )),
        r.1 == Generator::DjClassifieds ==> (r.0.location is Some ==> exists|h: Seq<char>|
            r.0.location->Some_0@ == trim_spec(
                strip_prefix_spec(trim_spec(stripped_of(h)), "Flugplatz:"@),
            ) || r.0.location->Some_0@ == trim_spec(stripped_of(h))),
        r.0.website is Some ==> exists|h: Seq<char>| r.0.website->Some_0@ == trim_spec(
            stripped_of(h),
        ),
        r.1 == Generator::DjClassifieds ==> r.0.address is None && r.0.website is None,
{
    let doc = parse_document(text);
    let detected = Generator::detect(&doc, sels);
    let (generator, fell_back) = effective_generator(detected);
    let user = extract_user(&doc, sels, generator);
    (user, generator, fell_back)
}

} // verus!
