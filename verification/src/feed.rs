//! Feed parser: turns a raw feed document into an ordered sequence of
//! candidate listing records, rejecting malformed entries one by one
//! without aborting their siblings.

use vstd::prelude::*;

use crate::sanitize::{
    find_image_url, finish_description_spec, image_url_spec, sanitize_description, stripped_of,
};
use crate::text::{chars_to_string, replace_chars, replace_spec, str_to_chars};

verus! {

/// One entry of the feed as the document parser hands it over, every
/// element still optional.
pub struct RawEntry {
    pub guid: Option<String>,
    pub title: Option<String>,
    pub link: Option<String>,
    pub description: Option<String>,
}

/// Why a feed entry was rejected.
#[derive(Clone, Copy, Debug, PartialEq, Eq, Structural)]
pub enum RejectionReason {
    MissingGuid,
    MissingTitle,
    MissingLink,
}

/// The whole feed document could not be parsed; fatal for the cycle.
#[derive(Clone, Copy, Debug, PartialEq, Eq, Structural)]
pub enum FeedError {
    Malformed,
}

/// A validated feed entry: identifier, title and link are present, the
/// description is already sanitized and the feed-derived image extracted.
#[derive(Clone, Debug)]
pub struct ClassifiedsItem {
    pub guid: String,
    pub title: String,
    pub link: String,
    pub description: Option<String>,
    pub image_url: Option<String>,
}

#[verifier::external_type_specification]
#[verifier::external_body]
pub struct ExRssError(rss::Error);

/// What the feed reader yields for a document: its channel's entries in
/// document order, or nothing when the document is malformed. A
/// function of the text alone.
pub uninterp spec fn rss_entries_of(s: Seq<char>) -> Option<Seq<RawEntry>>;

/// Relies on `rss::Channel::read_from`: it parses the document and, on
/// success, yields the channel's items in document order; the body only
/// moves each item's guid value, title, link and description over.
#[verifier::external_body]
fn read_channel(text: &str) -> (r: Result<Vec<RawEntry>, rss::Error>)
    ensures
        match r {
            Ok(v) => rss_entries_of(text@) == Some(v@),
            Err(_) => rss_entries_of(text@) is None,
        },
{
    let channel = rss::Channel::read_from(text.as_bytes())?;
    let entries = channel
        .items
        .into_iter()
        .map(|item| RawEntry {
            guid: item.guid.map(|g| g.value),
            title: item.title,
            link: item.link,
            description: item.description,
        })
        .collect();
    Ok(entries)
}

/// The reason the validator gives for a malformed entry: the first
/// missing element, checked in the order guid, title, link.
pub open spec fn rejection_of(e: RawEntry) -> RejectionReason {
    if e.guid is None {
        RejectionReason::MissingGuid
    } else if e.title is None {
        RejectionReason::MissingTitle
    } else {
        RejectionReason::MissingLink
    }
}

/// How one raw entry relates to its validation outcome: rejected exactly
/// when guid, title or link is missing; otherwise every field of the
/// listing is pinned to the entry's elements.
pub open spec fn entry_outcome(e: RawEntry, r: Result<ClassifiedsItem, RejectionReason>) -> bool {
    &&& (r is Ok <==> e.guid is Some && e.title is Some && e.link is Some)
    &&& (r is Err ==> r->Err_0 == rejection_of(e))
    &&& (r is Ok ==> {
        let item = r->Ok_0;
        &&& item.guid@ == e.guid->Some_0@
        &&& item.title@ == e.title->Some_0@
        &&& item.link@ == e.link->Some_0@
        &&& (match e.description {
            Some(d) => {
                &&& item.description is Some
                &&& item.description->Some_0@ == finish_description_spec(stripped_of(d@))
                &&& (match image_url_spec(d@) {
                    Some(u) => item.image_url is Some && item.image_url->Some_0@ == u,
                    None => item.image_url is None,
                })
            },
            None => item.description is None && item.image_url is None,
        })
    })
}

impl ClassifiedsItem {
    /// Validate one raw entry; an entry without guid, title or link is
    /// rejected entirely, never silently coerced.
    pub fn from_raw(e: RawEntry) -> (r: Result<ClassifiedsItem, RejectionReason>)
        ensures
            entry_outcome(e, r),
    {
        let guid = match e.guid {
            Some(g) => g,
            None => {
                return Err(RejectionReason::MissingGuid);
            },
        };
        let title = match e.title {
            Some(t) => t,
            None => {
                return Err(RejectionReason::MissingTitle);
            },
        };
        let link = match e.link {
            Some(l) => l,
            None => {
                return Err(RejectionReason::MissingLink);
            },
        };
        let (description, image_url) = match e.description {
            Some(d) => (Some(sanitize_description(d.as_str())), find_image_url(d.as_str())),
            None => (None, None),
        };
        Ok(ClassifiedsItem { guid, title, link, description, image_url })
    }
}

/// Validate every entry independently, in feed order: one malformed entry
/// never disturbs the outcome of its siblings.
pub fn validate_entries(entries: Vec<RawEntry>) -> (out: Vec<
    Result<ClassifiedsItem, RejectionReason>,
>)
    ensures
        out@.len() == entries@.len(),
        forall|k: int| 0 <= k < out@.len() ==> entry_outcome(entries@[k], #[trigger] out@[k]),
{
    let mut out: Vec<Result<ClassifiedsItem, RejectionReason>> = Vec::new();
    let mut rest = entries;
    let ghost all = rest@;
    while rest.len() > 0
        invariant
            out@.len() + rest@.len() == all.len(),
            rest@ == all.skip(out@.len() as int),
            forall|k: int| 0 <= k < out@.len() ==> entry_outcome(all[k], #[trigger] out@[k]),
        decreases rest@.len(),
    {
        let ghost n = out@.len();
        let e = rest.remove(0);
        assert(e == all[n as int]);
        out.push(ClassifiedsItem::from_raw(e));
        assert(rest@ =~= all.skip(out@.len() as int));
    }
    out
}

/// The pre-parse normalization that neutralizes the feed's stray
/// script-comment wrappers before structural parsing.
pub open spec fn feed_normalize_spec(s: Seq<char>) -> Seq<char> {
    replace_spec(replace_spec(s, "// <![CDATA["@, Seq::empty()), "// ]]>"@, Seq::empty())
}

/// Remove the feed's stray script-comment wrappers.
pub fn normalize_feed_text(text: &str) -> (r: String)
    ensures
        r@ == feed_normalize_spec(text@),
{
    proof {
        reveal_strlit("// <![CDATA[");
        reveal_strlit("// ]]>");
        reveal_strlit("");
    }
    let chars = str_to_chars(text);
    let open_marker = str_to_chars("// <![CDATA[");
    let close_marker = str_to_chars("// ]]>");
    let empty = str_to_chars("");
    let step = replace_chars(&chars, &open_marker, &empty);
    let done = replace_chars(&step, &close_marker, &empty);
    assert(empty@ =~= Seq::<char>::empty());
    chars_to_string(&done)
}

/// How a sequence of raw entries relates to the parser's output: same
/// length, same order, each entry validated independently.
pub open spec fn feed_outcome(
    es: Seq<RawEntry>,
    out: Seq<Result<ClassifiedsItem, RejectionReason>>,
) -> bool {
    out.len() == es.len() && forall|k: int|
        0 <= k < out.len() ==> entry_outcome(es[k], #[trigger] out[k])
}

/// Parse a feed document into an ordered sequence of per-entry outcomes:
/// exactly the reader's entries for the normalized text, each validated
/// independently. A malformed document is fatal for the cycle; a
/// malformed entry only costs that entry.
pub fn parse_feed(text: &str) -> (r: Result<
    Vec<Result<ClassifiedsItem, RejectionReason>>,
    FeedError,
>)
    ensures
        r is Ok <==> rss_entries_of(feed_normalize_spec(text@)) is Some,
        r is Ok ==> feed_outcome(rss_entries_of(feed_normalize_spec(text@))->Some_0, r->Ok_0@),
        r is Err ==> r->Err_0 == FeedError::Malformed,
{
    let normalized = normalize_feed_text(text);
    match read_channel(normalized.as_str()) {
        Ok(entries) => {
            let ghost es = entries@;
            let out = validate_entries(entries);
            assert(feed_outcome(es, out@));
            let res: Result<Vec<Result<ClassifiedsItem, RejectionReason>>, FeedError> = Ok(out);
            assert(feed_outcome(es, res->Ok_0@));
            res
        },
        Err(_) => Err(FeedError::Malformed),
    }
}

} // verus!
