//! The changes that are handed to `kevent`, and the receipts that come back for them.
use vstd::prelude::*;

use super::filter::Filter;
use crate::error::Error;

verus! {

/// Add the event.
pub const EV_ADD: u16 = 0x1;

/// Report the event once.
pub const EV_ONESHOT: u16 = 0x10;

/// Report edges.
pub const EV_CLEAR: u16 = 0x20;

/// Answer the change with a receipt.
pub const EV_RECEIPT: u16 = 0x40;

/// The entry is an error or a receipt.
pub const EV_ERROR: u16 = 0x4000;

/// The class of a mach port that a message waits at.
pub const EVFILT_MACHPORT: i16 = -8;

/// The class of an event that a program raises itself.
pub const EVFILT_USER: i16 = -10;

/// Raise the event.
pub const NOTE_TRIGGER: u32 = 0x0100_0000;

/// A change as `kevent` takes it. `udata` is the token that comes back with the event.
#[derive(Clone, Copy, PartialEq, Eq, Debug)]
pub struct Change {
    pub ident: usize,
    pub filter: i16,
    pub flags: u16,
    pub fflags: u32,
    pub data: isize,
    pub udata: usize,
}

/// The flags that ask for one event, and for a receipt: edges, once, receipt, add.
pub open spec fn single_event_flags() -> u16 {
    EV_CLEAR | EV_ONESHOT | EV_RECEIPT | EV_ADD
}

/// The change that asks for one event of a class of a descriptor.
pub fn fd_change(fd: i32, filter: Filter, token: usize) -> (change: Change)
    ensures
        change == (Change {
            ident: fd as usize,
            filter: filter.0,
            flags: single_event_flags(),
            fflags: 0,
            data: 0,
            udata: token,
        }),
{
    Change {
        ident: fd as usize,
        filter: filter.0,
        flags: EV_CLEAR | EV_ONESHOT | EV_RECEIPT | EV_ADD,
        fflags: 0,
        data: 0,
        udata: token,
    }
}

/// The change that asks for one event of a mach port.
pub fn port_change(port: u32, token: usize) -> (change: Change)
    ensures
        change == (Change {
            ident: port as usize,
            filter: EVFILT_MACHPORT,
            flags: single_event_flags(),
            fflags: 0,
            data: 0,
            udata: token,
        }),
{
    Change {
        ident: port as usize,
        filter: EVFILT_MACHPORT,
        flags: EV_CLEAR | EV_ONESHOT | EV_RECEIPT | EV_ADD,
        fflags: 0,
        data: 0,
        udata: token,
    }
}

/// The change that raises a user event with a value; the event is named by its own token.
pub fn trigger_change(token: usize, data: usize) -> (change: Change)
    ensures
        change == (Change {
            ident: token,
            filter: EVFILT_USER,
            flags: EV_RECEIPT | EV_ADD | EV_CLEAR | EV_ONESHOT,
            fflags: NOTE_TRIGGER,
            data: data as isize,
            udata: 0,
        }),
{
    Change {
        ident: token,
        filter: EVFILT_USER,
        flags: EV_RECEIPT | EV_ADD | EV_CLEAR | EV_ONESHOT,
        fflags: NOTE_TRIGGER,
        data: data as isize,
        udata: 0,
    }
}

/// A receipt: the code of the error, zero for none, and the error that the code stands for.
#[derive(Clone, Copy, PartialEq, Eq, Debug)]
pub struct Receipt {
    pub data: isize,
    pub error: Error,
}

/// The first of the receipts that reports an error.
pub open spec fn first_refusal(receipts: Seq<Receipt>) -> Option<Error>
    decreases receipts.len(),
{
    if receipts.len() == 0 {
        None
    } else if receipts.first().data != 0 {
        Some(receipts.first().error)
    } else {
        first_refusal(receipts.drop_first())
    }
}

/// What a call of `kevent` for a list of changes came to: it failed as a whole where the count is
/// negative, and otherwise where a receipt reports an error.
pub open spec fn change_result(count: i32, last_error: Error, receipts: Seq<Receipt>) -> Result<
    (),
    Error,
> {
    if count < 0 {
        Err(last_error)
    } else {
        match first_refusal(receipts) {
            Some(error) => Err(error),
            None => Ok(()),
        }
    }
}

/// Reads the answer of `kevent` to a list of changes.
pub fn change_answer(count: i32, last_error: Error, receipts: &Vec<Receipt>) -> (result: Result<
    (),
    Error,
>)
    ensures
        result == change_result(count, last_error, receipts@),
{
    if count < 0 {
        return Err(last_error);
    }
    let length: usize = receipts.len();
    assert(receipts@.skip(0) == receipts@);
    for index in 0..length
        invariant
            length == receipts@.len(),
            first_refusal(receipts@) == first_refusal(receipts@.skip(index as int)),
            count >= 0,
    {
        assert(receipts@.skip(index as int).drop_first() == receipts@.skip(index + 1));
        if receipts[index].data != 0 {
            return Err(receipts[index].error);
        }
    }
    Ok(())
}

/// A list of changes went through only where the call did not fail and no receipt reports an error;
/// otherwise it comes to the error of the call, or else to that of the first receipt that reports
/// one.
pub proof fn law_changes_go_through_together(
    count: i32,
    last_error: Error,
    receipts: Seq<Receipt>,
    at: int,
)
    ensures
        change_result(count, last_error, receipts) is Ok <==> count >= 0 && forall|place: int|
            0 <= place < receipts.len() ==> (#[trigger] receipts[place]).data == 0,
        count < 0 ==> change_result(count, last_error, receipts) == Err::<(), Error>(last_error),
        count >= 0 && 0 <= at < receipts.len() && receipts[at].data != 0 && (forall|place: int|
            0 <= place < at ==> (#[trigger] receipts[place]).data == 0) ==> change_result(
            count,
            last_error,
            receipts,
        ) == Err::<(), Error>(receipts[at].error),
{
    lemma_first_refusal(receipts, at);
}

proof fn lemma_first_refusal(receipts: Seq<Receipt>, at: int)
    ensures
        first_refusal(receipts) is None <==> forall|place: int|
            0 <= place < receipts.len() ==> (#[trigger] receipts[place]).data == 0,
        0 <= at < receipts.len() && receipts[at].data != 0 && (forall|place: int|
            0 <= place < at ==> (#[trigger] receipts[place]).data == 0) ==> first_refusal(receipts)
            == Some(receipts[at].error),
    decreases receipts.len(),
{
    if receipts.len() > 0 {
        let rest = receipts.drop_first();
        lemma_first_refusal(rest, at - 1);
        assert(forall|place: int| 0 <= place < rest.len() ==> #[trigger] rest[place] == receipts[place
            + 1]);
        assert(forall|place: int|
            1 <= place < receipts.len() ==> #[trigger] receipts[place] == rest[place - 1]);
        if receipts[0].data == 0 {
            if first_refusal(rest) is None {
                assert forall|place: int| 0 <= place < receipts.len() implies (
                #[trigger] receipts[place]).data == 0 by {
                    if place > 0 {
                        assert(rest[place - 1].data == 0);
                    }
                }
            } else {
                let place = choose|place: int| 0 <= place < rest.len() && rest[place].data != 0;
                assert(receipts[place + 1].data != 0);
            }
        }
    }
}

/// An event is asked for as an edge and a single time, with a receipt, and by nothing else.
pub proof fn law_request_is_for_one_event()
    ensures
        single_event_flags() == 0x71,
{
    assert(0x20u16 | 0x10u16 | 0x40u16 | 0x1u16 == 0x71u16) by (bit_vector);
}

} // verus!
