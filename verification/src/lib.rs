//! Watches a classifieds feed, extracts listing data from the site's
//! heterogeneous detail and seller pages, and prepares notifications,
//! with a durable store that guarantees each listing is reported at
//! most once across process restarts.

use vstd::prelude::*;

pub mod delivery;
pub mod dom;
pub mod extract;
pub mod feed;
pub mod message;
pub mod orchestrate;
pub mod sanitize;
pub mod store;
pub mod text;

verus! {

/// Upper bound on a sanitized description, in characters.
pub const DESCRIPTION_LIMIT: usize = 3500;

} // verus!
