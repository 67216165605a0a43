//! Thin trusted layer over the HTML parser and CSS selector engine.
//! Each wrapper makes exactly one kind of query; everything the
//! extractors decide from the answers is verified code elsewhere.

use vstd::prelude::*;

use scraper::Element;

verus! {

#[verifier::external_type_specification]
#[verifier::external_body]
pub struct ExHtml(scraper::Html);

#[verifier::external_type_specification]
#[verifier::external_body]
pub struct ExSelector(scraper::Selector);

#[verifier::external_type_specification]
#[verifier::external_body]
pub struct ExElementRef<'a>(scraper::ElementRef<'a>);

/// Relies on `scraper::Selector::parse`: compiles a CSS selector group,
/// or reports that the selector text is invalid.
#[verifier::external_body]
pub fn parse_selector(css: &str) -> Option<scraper::Selector> {
    match scraper::Selector::parse(css) {
        Ok(sel) => Some(sel),
        Err(_) => None,
    }
}

/// Relies on `scraper::Html::parse_document`: parsing is total; structural
/// errors are tolerated and recorded inside the document.
#[verifier::external_body]
pub fn parse_document(text: &str) -> scraper::Html {
    scraper::Html::parse_document(text)
}

/// Relies on `scraper::Html::select`: all elements of the document
/// matching the selector, in document order.
#[verifier::external_body]
pub fn select_all<'a>(
    doc: &'a scraper::Html,
    sel: &scraper::Selector,
) -> Vec<scraper::ElementRef<'a>> {
    doc.select(sel).collect()
}

/// The first element of the document matching the selector, in document
/// order, if any.
pub fn select_first<'a>(
    doc: &'a scraper::Html,
    sel: &scraper::Selector,
) -> Option<scraper::ElementRef<'a>> {
    let mut els = select_all(doc, sel);
    if els.len() > 0 {
        Some(els.remove(0))
    } else {
        None
    }
}

/// Relies on `scraper::ElementRef::inner_html`: the markup between the
/// element's opening and closing tags.
#[verifier::external_body]
pub fn inner_html(el: &scraper::ElementRef) -> String {
    el.inner_html()
}

/// Relies on `scraper::ElementRef::attr`: the value of the named
/// attribute, if the element carries it.
#[verifier::external_body]
pub fn attr_value(el: &scraper::ElementRef, name: &str) -> Option<String> {
    match el.attr(name) {
        Some(v) => Some(v.to_string()),
        None => None,
    }
}

/// Relies on `selectors::Element::parent_element` as scraper implements
/// it: the closest enclosing element, if the element has one.
#[verifier::external_body]
pub fn parent_element<'a>(el: &scraper::ElementRef<'a>) -> Option<scraper::ElementRef<'a>> {
    el.parent_element()
}

/// Relies on `selectors::Element::next_sibling_element` as scraper
/// implements it: the next element among the element's following siblings.
#[verifier::external_body]
pub fn next_sibling_element<'a>(el: &scraper::ElementRef<'a>) -> Option<scraper::ElementRef<'a>> {
    el.next_sibling_element()
}

/// Relies on `scraper::node::Element::name`: the element's tag name.
#[verifier::external_body]
pub fn tag_name(el: &scraper::ElementRef) -> String {
    el.value().name().to_string()
}

} // verus!
