use segelflug_classifieds::delivery::{
    caption_for, delivery_start, delivery_step, needs_follow_up, retry_decision, DeliveryPhase,
    RetryAction, SendOutcome, CAPTION_LIMIT, MAX_SEND_ATTEMPTS,
};
use segelflug_classifieds::feed::{ClassifiedsItem, RawEntry};
use segelflug_classifieds::message::ItemWithExtraData;

fn plain_item(description: Option<&str>) -> ItemWithExtraData {
    let item = ClassifiedsItem::from_raw(RawEntry {
        guid: Some("g".to_string()),
        title: Some("T".to_string()),
        link: Some("https://x/1".to_string()),
        description: description.map(|d| d.to_string()),
    })
    .unwrap();
    ItemWithExtraData::new(item, None, None)
}

// A rate-limit answer with retry_after = 3 causes exactly one retry
// after a >= 3-second wait; a successful second attempt ends it there.
#[test]
fn rate_limit_retries_once_then_succeeds() {
    let first = retry_decision(0, SendOutcome::RateLimited(3));
    assert_eq!(first, RetryAction::WaitAndRetry(3));
    let second = retry_decision(1, SendOutcome::Delivered);
    assert_eq!(second, RetryAction::Accept);
}

#[test]
fn rate_limit_gives_up_after_attempt_budget() {
    for attempt in 0..MAX_SEND_ATTEMPTS - 1 {
        assert_eq!(
            retry_decision(attempt, SendOutcome::RateLimited(7)),
            RetryAction::WaitAndRetry(7)
        );
    }
    assert_eq!(
        retry_decision(MAX_SEND_ATTEMPTS - 1, SendOutcome::RateLimited(7)),
        RetryAction::GiveUp
    );
}

#[test]
fn other_errors_are_not_retried() {
    assert_eq!(retry_decision(0, SendOutcome::Failed), RetryAction::FailNow);
    assert_eq!(retry_decision(3, SendOutcome::Failed), RetryAction::FailNow);
}

// A listing whose only image is the feed thumbnail: one successful
// photo send with the thumbnail, zero text sends.
#[test]
fn thumbnail_only_listing_sends_one_photo_no_text() {
    let phase = delivery_start(false, true);
    assert_eq!(phase, DeliveryPhase::ThumbnailPhoto);
    let next = delivery_step(phase, true, true, false);
    assert_eq!(next, DeliveryPhase::Done);
}

#[test]
fn failed_primary_photo_falls_back_to_thumbnail() {
    let phase = delivery_start(true, true);
    assert_eq!(phase, DeliveryPhase::PrimaryPhoto);
    let after_fail = delivery_step(phase, false, true, false);
    assert_eq!(after_fail, DeliveryPhase::ThumbnailPhoto);
    let after_ok = delivery_step(after_fail, true, true, false);
    assert_eq!(after_ok, DeliveryPhase::Done);
}

#[test]
fn all_photo_paths_failing_falls_back_to_text() {
    let phase = delivery_start(true, false);
    let after_fail = delivery_step(phase, false, false, false);
    assert_eq!(after_fail, DeliveryPhase::TextOnly);
    assert_eq!(delivery_step(after_fail, true, false, false), DeliveryPhase::Done);
}

#[test]
fn no_images_means_text_only() {
    assert_eq!(delivery_start(false, false), DeliveryPhase::TextOnly);
}

#[test]
fn shortened_caption_owes_a_follow_up() {
    let phase = delivery_start(true, false);
    let next = delivery_step(phase, true, false, true);
    assert_eq!(next, DeliveryPhase::FollowUpText);
    assert_eq!(delivery_step(next, true, false, true), DeliveryPhase::Done);
}

#[test]
fn caption_respects_the_ceiling() {
    let short = plain_item(Some("tiny"));
    assert!(!needs_follow_up(&short));
    assert_eq!(caption_for(&short), short.telegram_text());

    let long = plain_item(Some(&"d".repeat(2 * CAPTION_LIMIT)));
    assert!(needs_follow_up(&long));
    assert_eq!(caption_for(&long), long.telegram_text_short());
}
