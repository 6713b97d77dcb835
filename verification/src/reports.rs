//! What the server hands to an operation's callback, and how an operation's result follows
//! from it and from the way the wait for the operation ended.

use vstd::prelude::*;
use crate::error::{get_info_error, is_get_info, ControllerError, PulseCtlError};

verus! {

/// One call of a list callback: an item, the end of the list, or a failure.
#[derive(Debug, Clone, PartialEq, Eq)]
pub enum ListEntry<T> {
    Item(T),
    End,
    Error,
}

/// The item an entry carries, if it carries one.
pub open spec fn entry_item<T>(e: ListEntry<T>) -> Option<T> {
    match e {
        ListEntry::Item(x) => Some(x),
        _ => None,
    }
}

/// The items among the entries, in the order the server reported them.
pub open spec fn reported_items<T>(entries: Seq<ListEntry<T>>) -> Seq<T> {
    entries.filter_map(|e: ListEntry<T>| entry_item(e))
}

/// The last of the values, if there is one: a callback that stores what it is given keeps
/// the last value of all its calls.
pub open spec fn last_reported<T>(s: Seq<T>) -> Option<T> {
    if s.len() > 0 {
        Some(s.last())
    } else {
        None
    }
}

/// The success flag an operation ends with: the last one the server reported, `false`
/// when it reported none.
pub open spec fn last_flag(flags: Seq<bool>) -> bool {
    if flags.len() > 0 {
        flags.last()
    } else {
        false
    }
}

/// The result of a lookup: the wait's failure, else the value found, else a `GetInfo`
/// error with the text `msg`.
pub open spec fn lookup_outcome<T>(
    r: Result<T, ControllerError>,
    found: Option<T>,
    waited: Result<(), PulseCtlError>,
    msg: Seq<char>,
) -> bool {
    match waited {
        Err(e) => r == Err::<T, ControllerError>(ControllerError::PulseCtl(e)),
        Ok(_) => match found {
            Some(x) => r == Ok::<T, ControllerError>(x),
            None => is_get_info(r, msg),
        },
    }
}

/// The result of a listing: the wait's failure, else every reported item in order.
pub open spec fn list_outcome<T>(
    r: Result<Vec<T>, ControllerError>,
    items: Seq<T>,
    waited: Result<(), PulseCtlError>,
) -> bool {
    match waited {
        Err(e) => r == Err::<Vec<T>, ControllerError>(ControllerError::PulseCtl(e)),
        Ok(_) => r matches Ok(v) && v@ == items,
    }
}

/// The result of an operation that reports success: the wait's failure, else the last
/// reported flag.
pub open spec fn flag_outcome(
    r: Result<bool, ControllerError>,
    flags: Seq<bool>,
    waited: Result<(), PulseCtlError>,
) -> bool {
    match waited {
        Err(e) => r == Err::<bool, ControllerError>(ControllerError::PulseCtl(e)),
        Ok(_) => r == Ok::<bool, ControllerError>(last_flag(flags)),
    }
}

/// Keeps the items of the entries, in order, and drops the ends and failures.
pub fn collect_items<T>(entries: Vec<ListEntry<T>>) -> (items: Vec<T>)
    ensures
        items@ == reported_items(entries@),
{
    let ghost all = entries@;
    let mut rest = entries;
    let mut items: Vec<T> = Vec::new();
    while rest.len() > 0
        invariant
            reported_items(all) == reported_items(rest@) + items@,
        decreases rest.len(),
    {
        let ghost before = rest@;
        let ghost old_items = items@;
        let last = rest.pop();
        proof {
            assert(before.drop_last() =~= rest@);
        }
        match last {
            Some(ListEntry::Item(x)) => {
                items.insert(0, x);
                proof {
                    assert(reported_items(before) == reported_items(rest@) + seq![x]);
                    assert(reported_items(rest@) + seq![x] + old_items
                        =~= reported_items(rest@) + items@);
                }
            },
            _ => {},
        }
    }
    proof {
        assert(reported_items(rest@) =~= Seq::<T>::empty());
        assert(reported_items(all) =~= items@);
    }
    items
}

/// Takes the last of the values out of the vector.
pub fn take_last<T>(values: Vec<T>) -> (r: Option<T>)
    ensures
        r == last_reported(values@),
{
    let mut values = values;
    values.pop()
}

/// Finishes a lookup from what was found and how the wait ended.
pub fn finish_lookup<T>(found: Option<T>, waited: Result<(), PulseCtlError>, msg: &str) -> (r:
    Result<T, ControllerError>)
    ensures
        lookup_outcome(r, found, waited, msg@),
{
    match waited {
        Err(e) => Err(ControllerError::PulseCtl(e)),
        Ok(()) => match found {
            Some(x) => Ok(x),
            None => Err(get_info_error(msg)),
        },
    }
}

/// Finishes a listing from the reported entries and how the wait ended.
pub fn finish_list<T>(entries: Vec<ListEntry<T>>, waited: Result<(), PulseCtlError>) -> (r: Result<
    Vec<T>,
    ControllerError,
>)
    ensures
        list_outcome(r, reported_items(entries@), waited),
{
    match waited {
        Err(e) => Err(ControllerError::PulseCtl(e)),
        Ok(()) => Ok(collect_items(entries)),
    }
}

/// Finishes an operation that reports success, from the reported flags and how the wait
/// ended.
pub fn finish_flag(flags: Vec<bool>, waited: Result<(), PulseCtlError>) -> (r: Result<
    bool,
    ControllerError,
>)
    ensures
        flag_outcome(r, flags@, waited),
{
    match waited {
        Err(e) => Err(ControllerError::PulseCtl(e)),
        Ok(()) => match take_last(flags) {
            Some(b) => Ok(b),
            None => Ok(false),
        },
    }
}

} // verus!
