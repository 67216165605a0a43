//! Delivery policy for the messaging endpoint: the retry/backoff rule
//! for rate-limited requests and the photo -> photo -> text-only
//! fallback chain for one listing. The caller performs the actual
//! sends and sleeps and feeds every outcome back in.

use vstd::prelude::*;

use crate::message::ItemWithExtraData;
use crate::text::str_to_chars;

verus! {

/// Attempts allowed for one request before the delivery error becomes
/// terminal for the listing.
pub const MAX_SEND_ATTEMPTS: u32 = 5;

/// The messaging endpoint's per-message length ceiling.
pub const MESSAGE_LIMIT: usize = 4096;

/// The messaging endpoint's ceiling for a photo caption.
pub const CAPTION_LIMIT: usize = 1024;

/// What one request to the messaging endpoint came back with.
#[derive(Clone, Copy, Debug, PartialEq, Eq, Structural)]
pub enum SendOutcome {
    /// The message was accepted.
    Delivered,
    /// The endpoint asked to retry after this many seconds.
    RateLimited(u32),
    /// Any other error; not retried.
    Failed,
}

/// What to do after one request's outcome.
#[derive(Clone, Copy, Debug, PartialEq, Eq, Structural)]
pub enum RetryAction {
    /// Delivered; stop.
    Accept,
    /// Wait at least this many seconds, then send the same request again.
    WaitAndRetry(u32),
    /// The attempt budget is exhausted; surface a terminal delivery error.
    GiveUp,
    /// A non-rate-limit error; propagate immediately, no retry.
    FailNow,
}

/// The retry rule for one request: a rate-limit answer is retried after
/// the server-specified wait, up to the fixed attempt budget; any other
/// error propagates at once. `attempt` is the 0-based index of the
/// request that produced this outcome.
pub fn retry_decision(attempt: u32, outcome: SendOutcome) -> (r: RetryAction)
    ensures
        outcome is Delivered ==> r == RetryAction::Accept,
        outcome is Failed ==> r == RetryAction::FailNow,
        outcome matches SendOutcome::RateLimited(s) ==> r == (if attempt < MAX_SEND_ATTEMPTS - 1 {
            RetryAction::WaitAndRetry(s)
        } else {
            RetryAction::GiveUp
        }),
{
    match outcome {
        SendOutcome::Delivered => RetryAction::Accept,
        SendOutcome::Failed => RetryAction::FailNow,
        SendOutcome::RateLimited(s) => {
            if attempt < MAX_SEND_ATTEMPTS - 1 {
                RetryAction::WaitAndRetry(s)
            } else {
                RetryAction::GiveUp
            }
        },
    }
}

/// Where the fallback chain for one listing stands.
#[derive(Clone, Copy, Debug, PartialEq, Eq, Structural)]
pub enum DeliveryPhase {
    /// Send the detail-page photo with the rich body as caption.
    PrimaryPhoto,
    /// Send the feed-derived thumbnail with the rich body as caption.
    ThumbnailPhoto,
    /// Send the rich body as a plain text message.
    TextOnly,
    /// The caption was shortened; send the full body as a follow-up.
    FollowUpText,
    /// Nothing left to send.
    Done,
}

/// The first step of the chain: the detail-page photo when there is
/// one, else the feed thumbnail, else text only.
pub fn delivery_start(has_photo: bool, has_thumbnail: bool) -> (r: DeliveryPhase)
    ensures
        r == (if has_photo {
            DeliveryPhase::PrimaryPhoto
        } else if has_thumbnail {
            DeliveryPhase::ThumbnailPhoto
        } else {
            DeliveryPhase::TextOnly
        }),
{
    if has_photo {
        DeliveryPhase::PrimaryPhoto
    } else if has_thumbnail {
        DeliveryPhase::ThumbnailPhoto
    } else {
        DeliveryPhase::TextOnly
    }
}

/// What the chain does after one phase finishes. A failed photo send
/// falls back to the thumbnail and then to text; a successful photo
/// send is followed by the full body only when the caption had to be
/// shortened; a text send ends the chain either way.
pub open spec fn delivery_step_spec(
    phase: DeliveryPhase,
    succeeded: bool,
    has_thumbnail: bool,
    follow_up_pending: bool,
) -> DeliveryPhase {
    match phase {
        DeliveryPhase::PrimaryPhoto => if succeeded {
            if follow_up_pending {
                DeliveryPhase::FollowUpText
            } else {
                DeliveryPhase::Done
            }
        } else {
            if has_thumbnail {
                DeliveryPhase::ThumbnailPhoto
            } else {
                DeliveryPhase::TextOnly
            }
        },
        DeliveryPhase::ThumbnailPhoto => if succeeded {
            if follow_up_pending {
                DeliveryPhase::FollowUpText
            } else {
                DeliveryPhase::Done
            }
        } else {
            DeliveryPhase::TextOnly
        },
        DeliveryPhase::TextOnly => DeliveryPhase::Done,
        DeliveryPhase::FollowUpText => DeliveryPhase::Done,
        DeliveryPhase::Done => DeliveryPhase::Done,
    }
}

pub fn delivery_step(
    phase: DeliveryPhase,
    succeeded: bool,
    has_thumbnail: bool,
    follow_up_pending: bool,
) -> (r: DeliveryPhase)
    ensures
        r == delivery_step_spec(phase, succeeded, has_thumbnail, follow_up_pending),
{
    match phase {
        DeliveryPhase::PrimaryPhoto => {
            if succeeded {
                if follow_up_pending {
                    DeliveryPhase::FollowUpText
                } else {
                    DeliveryPhase::Done
                }
            } else {
                if has_thumbnail {
                    DeliveryPhase::ThumbnailPhoto
                } else {
                    DeliveryPhase::TextOnly
                }
            }
        },
        DeliveryPhase::ThumbnailPhoto => {
            if succeeded {
                if follow_up_pending {
                    DeliveryPhase::FollowUpText
                } else {
                    DeliveryPhase::Done
                }
            } else {
                DeliveryPhase::TextOnly
            }
        },
        DeliveryPhase::TextOnly => DeliveryPhase::Done,
        DeliveryPhase::FollowUpText => DeliveryPhase::Done,
        DeliveryPhase::Done => DeliveryPhase::Done,
    }
}

/// Whether a photo caption for this listing has to be shortened, so
/// that a successful photo send owes a follow-up with the full body.
pub fn needs_follow_up(item: &ItemWithExtraData) -> (r: bool)
    ensures
        r == (item.telegram_text_spec().len() > CAPTION_LIMIT),
{
    let full = item.telegram_text();
    let chars = str_to_chars(full.as_str());
    chars.len() > CAPTION_LIMIT
}

/// The caption for a photo send: the full rich body when it fits the
/// caption ceiling, else the short body.
pub fn caption_for(item: &ItemWithExtraData) -> (r: String)
    ensures
        r@ == if item.telegram_text_spec().len() <= CAPTION_LIMIT {
            item.telegram_text_spec()
        } else {
            item.telegram_text_short_spec()
        },
{
    item.message_for_limit(CAPTION_LIMIT)
}

} // verus!
