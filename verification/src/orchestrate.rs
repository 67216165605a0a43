//! Orchestration logic for one processing cycle: keep the valid feed
//! entries, pick the listings not yet notified (oldest first), drive the
//! per-listing state machine, and record every handled listing exactly
//! once.

use vstd::prelude::*;

use crate::feed::{ClassifiedsItem, RejectionReason};
use crate::store::GuidStore;
use crate::text::chars_to_string;

verus! {

/// The validated listings among the per-entry outcomes, in feed order.
pub open spec fn oks_spec(rs: Seq<Result<ClassifiedsItem, RejectionReason>>) -> Seq<
    ClassifiedsItem,
> {
    rs.filter(|x: Result<ClassifiedsItem, RejectionReason>| x is Ok).map_values(
        |x: Result<ClassifiedsItem, RejectionReason>| x->Ok_0,
    )
}

/// Keep the validated listings; the rejected entries cost nothing more
/// than their own absence.
pub fn collect_valid(results: Vec<Result<ClassifiedsItem, RejectionReason>>) -> (r: Vec<
    ClassifiedsItem,
>)
    ensures
        r@ == oks_spec(results@),
{
    let ghost is_ok = |x: Result<ClassifiedsItem, RejectionReason>| x is Ok;
    let ghost get_ok = |x: Result<ClassifiedsItem, RejectionReason>| x->Ok_0;
    let mut out: Vec<ClassifiedsItem> = Vec::new();
    let mut rest = results;
    let ghost all = rest@;
    let ghost done = Seq::<Result<ClassifiedsItem, RejectionReason>>::empty();
    proof {
        reveal(Seq::filter);
        assert(done.filter(is_ok) =~= Seq::<Result<ClassifiedsItem, RejectionReason>>::empty());
        assert(out@ =~= oks_spec(done));
    }
    while rest.len() > 0
        invariant
            done.len() + rest@.len() == all.len(),
            done == all.take(done.len() as int),
            rest@ == all.skip(done.len() as int),
            out@ == oks_spec(done),
            is_ok == (|x: Result<ClassifiedsItem, RejectionReason>| x is Ok),
            get_ok == (|x: Result<ClassifiedsItem, RejectionReason>| x->Ok_0),
        decreases rest@.len(),
    {
        let ghost n = done.len() as int;
        let x = rest.remove(0);
        assert(x == all[n]);
        let ghost done_next = done.push(all[n]);
        proof {
            reveal(Seq::filter);
            assert(done_next.drop_last() =~= done);
            assert(done_next.last() == all[n]);
            assert(done_next.filter(is_ok) == if is_ok(all[n]) {
                done.filter(is_ok).push(all[n])
            } else {
                done.filter(is_ok)
            });
        }
        match x {
            Ok(item) => {
                out.push(item);
                proof {
                    assert(out@ =~= done.filter(is_ok).map_values(get_ok).push(all[n]->Ok_0));
                    assert(done_next.filter(is_ok).map_values(get_ok) =~= done.filter(
                        is_ok,
                    ).map_values(get_ok).push(all[n]->Ok_0));
                }
            },
            Err(_) => {
                proof {
                    assert(done_next.filter(is_ok).map_values(get_ok) =~= done.filter(
                        is_ok,
                    ).map_values(get_ok));
                }
            },
        }
        proof {
            done = done_next;
            assert(done =~= all.take(n + 1));
            assert(rest@ =~= all.skip(n + 1));
        }
    }
    proof {
        assert(done =~= all);
    }
    out
}

/// The listings of one fetch that are due for notification: those whose
/// identifier the store does not hold, oldest first (the feed lists
/// newest first, so its order is reversed).
pub open spec fn plan_spec(items: Seq<ClassifiedsItem>, seen: Seq<Seq<char>>) -> Seq<
    ClassifiedsItem,
> {
    items.reverse().filter(|it: ClassifiedsItem| !seen.contains(it.guid@))
}

/// Pick the listings still owed a notification, oldest first. No listing
/// whose identifier the store already holds is ever in the result: a
/// notified listing is never re-emitted, even when it reappears in a
/// later fetch.
pub fn filter_new_items(items: Vec<ClassifiedsItem>, store: &GuidStore) -> (r: Vec<
    ClassifiedsItem,
>)
    ensures
        r@ == plan_spec(items@, store@),
        forall|k: int| 0 <= k < r@.len() ==> !store@.contains((#[trigger] r@[k]).guid@),
{
    let ghost fresh = |it: ClassifiedsItem| !store@.contains(it.guid@);
    let ghost all = items@;
    let mut rest = items;
    let mut out: Vec<ClassifiedsItem> = Vec::new();
    proof {
        reveal(Seq::filter);
        assert(all.skip(all.len() as int) =~= Seq::<ClassifiedsItem>::empty());
        assert(all.skip(all.len() as int).reverse() =~= Seq::<ClassifiedsItem>::empty());
        assert(out@ =~= all.skip(all.len() as int).reverse().filter(fresh));
    }
    while rest.len() > 0
        invariant
            rest@.len() <= all.len(),
            rest@ == all.take(rest@.len() as int),
            out@ == all.skip(rest@.len() as int).reverse().filter(fresh),
            fresh == (|it: ClassifiedsItem| !store@.contains(it.guid@)),
        decreases rest@.len(),
    {
        let ghost n = rest@.len() as int;
        let item = match rest.pop() {
            Some(item) => item,
            None => {
                proof {
                    assert(false);
                }
                unreached()
            },
        };
        proof {
            assert(item == all.take(n).last());
            assert(all.take(n).last() == all[n - 1]);
        }
        let ghost prev = all.skip(n).reverse();
        let ghost next = all.skip(n - 1).reverse();
        proof {
            assert(all.skip(n - 1) =~= seq![all[n - 1]] + all.skip(n));
            assert(next =~= prev.push(all[n - 1]));
            reveal(Seq::filter);
            assert(next.drop_last() =~= prev);
            assert(next.filter(fresh) == if fresh(all[n - 1]) {
                prev.filter(fresh).push(all[n - 1])
            } else {
                prev.filter(fresh)
            });
        }
        if !store.contains_guid(item.guid.as_str()) {
            out.push(item);
            assert(out@ =~= prev.filter(fresh).push(all[n - 1]));
        }
        proof {
            assert(rest@ =~= all.take(n - 1));
        }
    }
    proof {
        assert(all.skip(0) =~= all);
        broadcast use vstd::seq_lib::group_seq_lib_default;

        assert forall|k: int| 0 <= k < out@.len() implies !store@.contains(
            (#[trigger] out@[k]).guid@,
        ) by {
            all.reverse().lemma_filter_pred(fresh, k);
        }
    }
    out
}

/// A notified identifier stays notified: whatever a later fetch brings,
/// a listing whose identifier the store holds is never planned again.
pub proof fn lemma_no_renotification(
    items: Seq<ClassifiedsItem>,
    seen: Seq<Seq<char>>,
    g: Seq<char>,
)
    requires
        seen.contains(g),
    ensures
        forall|k: int| 0 <= k < plan_spec(items, seen).len() ==> (#[trigger] plan_spec(
            items,
            seen,
        )[k]).guid@ != g,
{
    broadcast use vstd::seq_lib::group_seq_lib_default;

    let fresh = |it: ClassifiedsItem| !seen.contains(it.guid@);
    assert forall|k: int| 0 <= k < plan_spec(items, seen).len() implies (#[trigger] plan_spec(
        items,
        seen,
    )[k]).guid@ != g by {
        items.reverse().lemma_filter_pred(fresh, k);
    }
}

/// Record a handled listing, whatever came of its enrichment or
/// delivery: the at-most-once policy marks a listing as seen once it
/// has been attempted, so it is never retried in a later cycle.
pub fn record_handled(store: &mut GuidStore, guid: String)
    requires
        old(store).wf(),
    ensures
        final(store).wf(),
        final(store)@ == if old(store)@.contains(guid@) {
            old(store)@
        } else {
            old(store)@.push(guid@)
        },
        final(store)@.contains(guid@),
{
    let ghost old_view = store@;
    store.insert(guid);
    proof {
        if !old_view.contains(guid@) {
            assert(store@[store@.len() - 1] == guid@);
        }
    }
}

/// The states of one processing cycle, in the order they are passed
/// through; the per-listing loop cycles through enriching, notifying
/// and recording.
#[derive(Clone, Copy, Debug, PartialEq, Eq, Structural)]
pub enum CycleState {
    Idle,
    FetchingFeed,
    Filtering,
    Enriching,
    Notifying,
    Recording,
    Persisting,
}

/// What happened in the current state.
#[derive(Clone, Copy, Debug, PartialEq, Eq, Structural)]
pub enum CycleEvent {
    /// The scheduler starts a cycle.
    Start,
    /// The feed was fetched and parsed.
    FeedLoaded,
    /// The feed fetch or parse failed; fatal for this cycle.
    FeedFailed,
    /// Filtering finished; true when any listing is due.
    Filtered(bool),
    /// Enrichment finished for the current listing, fully or partially;
    /// either way the listing moves on.
    Enriched,
    /// Notification finished for the current listing, delivered or
    /// given up on; either way the listing is recorded.
    Notified,
    /// The current listing was recorded; true when more listings wait.
    Recorded(bool),
    /// The store was persisted.
    Persisted,
}

/// The strictly sequential transition relation of the cycle. A feed
/// failure aborts the cycle without touching the store; per-listing
/// failures move on, so a listing is attempted at most once; an event
/// that does not belong to the state leaves the machine idle.
pub open spec fn cycle_next_spec(state: CycleState, event: CycleEvent) -> CycleState {
    match (state, event) {
        (CycleState::Idle, CycleEvent::Start) => CycleState::FetchingFeed,
        (CycleState::FetchingFeed, CycleEvent::FeedLoaded) => CycleState::Filtering,
        (CycleState::FetchingFeed, CycleEvent::FeedFailed) => CycleState::Idle,
        (CycleState::Filtering, CycleEvent::Filtered(any)) => if any {
            CycleState::Enriching
        } else {
            CycleState::Persisting
        },
        (CycleState::Enriching, CycleEvent::Enriched) => CycleState::Notifying,
        (CycleState::Notifying, CycleEvent::Notified) => CycleState::Recording,
        (CycleState::Recording, CycleEvent::Recorded(more)) => if more {
            CycleState::Enriching
        } else {
            CycleState::Persisting
        },
        (CycleState::Persisting, CycleEvent::Persisted) => CycleState::Idle,
        _ => CycleState::Idle,
    }
}

pub fn cycle_next(state: CycleState, event: CycleEvent) -> (r: CycleState)
    ensures
        r == cycle_next_spec(state, event),
{
    match (state, event) {
        (CycleState::Idle, CycleEvent::Start) => CycleState::FetchingFeed,
        (CycleState::FetchingFeed, CycleEvent::FeedLoaded) => CycleState::Filtering,
        (CycleState::FetchingFeed, CycleEvent::FeedFailed) => CycleState::Idle,
        (CycleState::Filtering, CycleEvent::Filtered(any)) => {
            if any {
                CycleState::Enriching
            } else {
                CycleState::Persisting
            }
        },
        (CycleState::Enriching, CycleEvent::Enriched) => CycleState::Notifying,
        (CycleState::Notifying, CycleEvent::Notified) => CycleState::Recording,
        (CycleState::Recording, CycleEvent::Recorded(more)) => {
            if more {
                CycleState::Enriching
            } else {
                CycleState::Persisting
            }
        },
        (CycleState::Persisting, CycleEvent::Persisted) => CycleState::Idle,
        _ => CycleState::Idle,
    }
}

/// The decimal digit for a value below ten.
pub open spec fn dec_digit(d: int) -> char {
    if d == 0 {
        '0'
    } else if d == 1 {
        '1'
    } else if d == 2 {
        '2'
    } else if d == 3 {
        '3'
    } else if d == 4 {
        '4'
    } else if d == 5 {
        '5'
    } else if d == 6 {
        '6'
    } else if d == 7 {
        '7'
    } else if d == 8 {
        '8'
    } else {
        '9'
    }
}

/// The decimal rendering of a non-negative number.
pub open spec fn dec_of(n: int) -> Seq<char>
    decreases n,
{
    if n < 10 {
        seq![dec_digit(n)]
    } else {
        dec_of(n / 10) + seq![dec_digit(n % 10)]
    }
}

fn digit_char(d: u64) -> (r: char)
    requires
        d < 10,
    ensures
        r == dec_digit(d as int),
{
    if d == 0 {
        '0'
    } else if d == 1 {
        '1'
    } else if d == 2 {
        '2'
    } else if d == 3 {
        '3'
    } else if d == 4 {
        '4'
    } else if d == 5 {
        '5'
    } else if d == 6 {
        '6'
    } else if d == 7 {
        '7'
    } else if d == 8 {
        '8'
    } else {
        '9'
    }
}

fn u64_to_dec(n: u64) -> (r: Vec<char>)
    ensures
        r@ == dec_of(n as int),
    decreases n,
{
    if n < 10 {
        let mut out: Vec<char> = Vec::new();
        out.push(digit_char(n));
        assert(out@ =~= seq![dec_digit(n as int)]);
        out
    } else {
        let mut out = u64_to_dec(n / 10);
        out.push(digit_char(n % 10));
        assert(out@ =~= dec_of(n as int / 10) + seq![dec_digit(n as int % 10)]);
        out
    }
}

/// The console line reporting how many new listings a cycle found; it
/// appears whatever becomes of their enrichment or delivery.
pub fn found_line(count: u64) -> (r: String)
    ensures
        r@ == "\u{2708}\u{FE0F}  Found "@ + dec_of(count as int)
            + " new items on Segelflug.de"@,
{
    // airplane marker, count, site name
    let mut out: Vec<char> = Vec::new();
    let head = crate::text::str_to_chars("\u{2708}\u{FE0F}  Found ");
    let digits = u64_to_dec(count);
    let tail = crate::text::str_to_chars(" new items on Segelflug.de");
    crate::text::push_all(&mut out, &head);
    crate::text::push_all(&mut out, &digits);
    crate::text::push_all(&mut out, &tail);
    assert(out@ =~= "\u{2708}\u{FE0F}  Found "@ + dec_of(count as int)
        + " new items on Segelflug.de"@);
    chars_to_string(&out)
}

} // verus!
