//! What holds of the controllers' results across operations and across reports.

use vstd::prelude::*;
use crate::controllers::looked_up;
use crate::error::{is_get_info, ControllerError, PulseCtlError};
use crate::reports::{
    entry_item, flag_outcome, last_flag, last_reported, list_outcome, lookup_outcome,
    reported_items, ListEntry,
};

verus! {

/// Items reported in two batches are listed as the items of the first batch followed by
/// those of the second: a listing keeps the server's order and loses nothing.
pub proof fn lemma_listing_keeps_order<T>(first: Seq<ListEntry<T>>, second: Seq<ListEntry<T>>)
    ensures
        reported_items(first + second) == reported_items(first) + reported_items(second),
    decreases second.len(),
{
    if second.len() == 0 {
        assert(first + second =~= first);
        assert(reported_items(first) + reported_items(second) =~= reported_items(first));
    } else {
        let both = first + second;
        assert(both.drop_last() =~= first + second.drop_last());
        assert(both.last() == second.last());
        lemma_listing_keeps_order(first, second.drop_last());
        match entry_item(second.last()) {
            Some(x) => {
                assert(reported_items(first) + reported_items(second.drop_last()) + seq![x]
                    =~= reported_items(first) + (reported_items(second.drop_last()) + seq![x]));
            },
            None => {},
        }
    }
}

/// Ends of lists and failures among the entries leave the listing as it is: only items are
/// listed, each item entry gives exactly one listed item.
pub proof fn lemma_listing_ignores_ends<T>(entries: Seq<ListEntry<T>>)
    ensures
        reported_items(entries.push(ListEntry::End)) == reported_items(entries),
        reported_items(entries.push(ListEntry::Error)) == reported_items(entries),
        forall|x: T| #[trigger] reported_items(entries.push(ListEntry::Item(x))) == reported_items(entries).push(x),
{
    assert(entries.push(ListEntry::<T>::End).drop_last() =~= entries);
    assert(entries.push(ListEntry::<T>::Error).drop_last() =~= entries);
    assert forall|x: T| #[trigger] reported_items(entries.push(ListEntry::Item(x))) == reported_items(entries).push(x) by {
        assert(entries.push(ListEntry::Item(x)).drop_last() =~= entries);
        assert(reported_items(entries) + seq![x] =~= reported_items(entries).push(x));
    }
}

/// A lookup answers with the last item entry the server reported, and fails to find one
/// only when no entry is an item.
pub proof fn lemma_lookup_answers_last_item<T>(entries: Seq<ListEntry<T>>)
    ensures
        looked_up(entries) is None <==> (forall|i: int| 0 <= i < entries.len() ==> !(#[trigger] entries[i] is Item)),
        looked_up(entries) matches Some(x) ==> exists|i: int|
            0 <= i < entries.len() && entries[i] == ListEntry::Item(x) && (forall|j: int|
                i < j < entries.len() ==> !(#[trigger] entries[j] is Item)),
    decreases entries.len(),
{
    if entries.len() > 0 {
        let rest = entries.drop_last();
        lemma_lookup_answers_last_item(rest);
        match entries.last() {
            ListEntry::Item(x) => {
                assert(reported_items(entries) == reported_items(rest) + seq![x]);
                assert(looked_up(entries) == Some(x));
                let i = entries.len() - 1;
                assert(entries[i] == ListEntry::Item(x));
            },
            _ => {
                assert(reported_items(entries) == reported_items(rest));
                assert forall|i: int| 0 <= i < rest.len() implies rest[i] == entries[i] by {}
                if looked_up(rest) is None {
                    assert forall|i: int| 0 <= i < entries.len() implies !(#[trigger] entries[i] is Item) by {
                        if i < rest.len() {
                            assert(!(rest[i] is Item));
                        }
                    }
                } else {
                    let x = looked_up(rest)->0;
                    let i = choose|i: int|
                        0 <= i < rest.len() && rest[i] == ListEntry::Item(x) && (forall|j: int|
                            i < j < rest.len() ==> !(#[trigger] rest[j] is Item));
                    assert(entries[i] == ListEntry::Item(x));
                    assert forall|j: int| i < j < entries.len() implies !(#[trigger] entries[j] is Item) by {
                        if j < rest.len() {
                            assert(!(rest[j] is Item));
                        }
                    }
                }
            },
        }
    }
}

/// A later report replaces an earlier one: a lookup over two batches of entries answers with
/// what the second batch answers, unless the second batch holds no item.
pub proof fn lemma_later_report_wins<T>(first: Seq<ListEntry<T>>, second: Seq<ListEntry<T>>)
    ensures
        looked_up(first + second) == (if looked_up(second) is Some {
            looked_up(second)
        } else {
            looked_up(first)
        }),
{
    lemma_listing_keeps_order(first, second);
}

/// A later success flag replaces an earlier one.
pub proof fn lemma_later_flag_wins(first: Seq<bool>, second: Seq<bool>)
    ensures
        last_flag(first + second) == (if second.len() > 0 {
            last_flag(second)
        } else {
            last_flag(first)
        }),
{
    if second.len() == 0 {
        assert(first + second =~= first);
    }
}

/// Looking up and listing on the same report agree: the lookup answers with the last listed
/// item, fails with its `GetInfo` error when nothing is listed, and both fail alike when the
/// wait failed.
pub proof fn lemma_lookup_agrees_with_listing<T>(
    entries: Seq<ListEntry<T>>,
    waited: Result<(), PulseCtlError>,
    listed: Result<Vec<T>, ControllerError>,
    found: Result<T, ControllerError>,
    msg: Seq<char>,
)
    requires
        list_outcome(listed, reported_items(entries), waited),
        lookup_outcome(found, looked_up(entries), waited, msg),
    ensures
        listed matches Ok(v) ==> (v@.len() > 0 ==> found == Ok::<T, ControllerError>(v@.last())),
        listed matches Ok(v) ==> (v@.len() == 0 ==> is_get_info(found, msg)),
        listed matches Err(e) ==> found == Err::<T, ControllerError>(e),
{
}

/// Whatever the server reported, a failed wait is the result of every operation that
/// reports one: lookups, listings and operations that report success alike.
pub proof fn lemma_failed_wait_wins<T>(
    e: PulseCtlError,
    entries: Seq<ListEntry<T>>,
    flags: Seq<bool>,
    found: Result<T, ControllerError>,
    listed: Result<Vec<T>, ControllerError>,
    flagged: Result<bool, ControllerError>,
    msg: Seq<char>,
)
    requires
        lookup_outcome(found, looked_up(entries), Err(e), msg),
        list_outcome(listed, reported_items(entries), Err(e)),
        flag_outcome(flagged, flags, Err(e)),
    ensures
        found == Err::<T, ControllerError>(ControllerError::PulseCtl(e)),
        listed == Err::<Vec<T>, ControllerError>(ControllerError::PulseCtl(e)),
        flagged == Err::<bool, ControllerError>(ControllerError::PulseCtl(e)),
{
}

} // verus!
