//! The variable-length output protocol: discover a count, then fill a
//! buffer of exactly that many records, retrying a bounded number of times
//! when the available count grew in between.
//!
//! A count of zero short-circuits to an empty success without a fill call.
//! A fill call that reports more records available than were sized for is
//! retried from the discovery step; exceeding the retry bound surfaces as a
//! protocol-violation error distinct from a plain native failure.

use crate::dispatch::Dispatch;
use crate::dispatch::RawCall;
use crate::loader::FnSlot;
use crate::vk::definitions::word_at;
use crate::vk::definitions::read_word;
use crate::vk::Status;
use vstd::prelude::*;

verus! {

/// How many times the discovery step is repeated after the available count
/// outgrew the buffer, before the operation gives up.
pub const FETCH_RETRY_BOUND: u32 = 4;

/// The largest record count this layer will allocate for in one retrieval.
/// A discovery call reporting more is treated as a misbehaving backend.
pub const MAX_FETCH_RECORDS: u32 = 0x0100_0000;

/// Failure of a variable-length retrieval.
#[derive(Clone, Copy, PartialEq, Eq, Structural, Debug)]
pub enum FetchError {
    /// The native operation itself failed; carries its status verbatim.
    Native(Status),
    /// The count-then-fill invariant was violated past the retry bound:
    /// the backend kept reporting a larger count than it was sized for, or
    /// reported an absurd one. Distinct from a native failure so a caller
    /// can tell a refusal from a misbehaving or racing backend.
    Protocol,
}

/// What the discovery sub-call decides.
#[derive(Clone, Copy, PartialEq, Eq, Structural, Debug)]
pub enum CountDecision {
    /// Nothing to retrieve: finish with an empty success, no fill call.
    Empty,
    /// Retrieve this many records with a fill call.
    Fill(u32),
    /// The reported count is past the allocation cap: a misbehaving
    /// backend, surfaced as the protocol-violation error, no fill call.
    Oversized,
    /// The discovery call failed with this status.
    Fail(Status),
}

/// The decision after a discovery reply: success with a zero count ends
/// empty, success with a count up to the allocation cap proceeds to fill
/// exactly that many records, success with a count past the cap is the
/// protocol violation, and any other status is the operation's failure,
/// verbatim.
pub fn decide_count(status: Status, count: u32) -> (r: CountDecision)
    ensures
        status is Success && count == 0 ==> r is Empty,
        status is Success && 0 < count <= MAX_FETCH_RECORDS ==> r == CountDecision::Fill(count),
        status is Success && count > MAX_FETCH_RECORDS ==> r is Oversized,
        !(status is Success) ==> r == CountDecision::Fail(status),
{
    match status {
        Status::Success => {
            if count == 0 {
                CountDecision::Empty
            } else if count > MAX_FETCH_RECORDS {
                CountDecision::Oversized
            } else {
                CountDecision::Fill(count)
            }
        },
        _ => CountDecision::Fail(status),
    }
}

/// What the fill sub-call decides.
#[derive(Clone, Copy, PartialEq, Eq, Structural, Debug)]
pub enum FillDecision {
    /// The buffer was filled with this many records: the reported count,
    /// never more than the capacity the buffer was sized for.
    Done(u32),
    /// More records were available than the buffer was sized for: run the
    /// discovery step again.
    Retry,
    /// The fill call failed with this status.
    Fail(Status),
}

/// The decision after a fill reply sized for `capacity` records: success
/// keeps the reported record count (clamped to the capacity, since the
/// native contract fills at most that many), the more-data status retries,
/// and any other status is the operation's failure, verbatim.
pub fn decide_fill(status: Status, reported: u32, capacity: u32) -> (r: FillDecision)
    ensures
        status is Success && reported <= capacity ==> r == FillDecision::Done(reported),
        status is Success && reported > capacity ==> r == FillDecision::Done(capacity),
        status is Incomplete ==> r is Retry,
        !(status is Success) && !(status is Incomplete) ==> r == FillDecision::Fail(status),
{
    match status {
        Status::Success => {
            if reported <= capacity {
                FillDecision::Done(reported)
            } else {
                FillDecision::Done(capacity)
            }
        },
        Status::Incomplete => FillDecision::Retry,
        _ => FillDecision::Fail(status),
    }
}

/// The outcome of a caller-sized fill, which must observe the count its
/// buffers were sized for: success with that count is the operation's
/// success, success with any other count is the protocol-violation error
/// (the backend and the earlier discovery disagree), and any other status
/// is the operation's failure, verbatim.
pub fn check_filled_count(status: Status, reported: u32, expected: u32) -> (r: Result<
    (),
    FetchError,
>)
    ensures
        r is Ok <==> status is Success && reported == expected,
        status is Success && reported != expected ==> r == Result::<(), FetchError>::Err(
            FetchError::Protocol,
        ),
        !(status is Success) ==> r == Result::<(), FetchError>::Err(FetchError::Native(status)),
{
    match status {
        Status::Success => {
            if reported == expected {
                Ok(())
            } else {
                Err(FetchError::Protocol)
            }
        },
        _ => Err(FetchError::Native(status)),
    }
}

/// The first `count * record_words` words of a filled buffer, read as the
/// zero-initialized buffer the protocol allocated: a word the reply did
/// not carry reads as zero.
pub fn take_records(items: &Vec<u64>, count: u32, record_words: u32) -> (r: Vec<u64>)
    requires
        count <= MAX_FETCH_RECORDS,
        1 <= record_words <= 8,
    ensures
        r@.len() == count * record_words,
        forall|i: int| 0 <= i < r@.len() ==> r@[i] == word_at(items@, i),
{
    proof {
        assert(count * record_words <= 0x0800_0000) by (nonlinear_arith)
            requires
                count <= 0x0100_0000,
                record_words <= 8,
        ;
    }
    let total: usize = (count as usize) * (record_words as usize);
    let mut r: Vec<u64> = Vec::new();
    let mut i: usize = 0;
    while i < total
        invariant
            i <= total,
            total == count * record_words,
            r@.len() == i,
            forall|j: int| 0 <= j < i ==> r@[j] == word_at(items@, j),
        decreases total - i,
    {
        r.push(read_word(items, i));
        i = i + 1;
    }
    r
}

/// Retrieves a variable-length output through the slot's native operation:
/// discover the record count, fill a zero-initialized buffer of exactly
/// that many records, and return the filled words with the record count.
///
/// Success returns `count * record_words` words for `count` records. A
/// native failure of either sub-call propagates verbatim, untried again; a
/// count that keeps outgrowing the buffer exhausts the retry bound, and a
/// count past the allocation cap is refused outright: both surface as the
/// protocol-violation error.
pub fn fetch_records<D: Dispatch>(
    dispatcher: &mut D,
    slot: FnSlot,
    handle: u64,
    args: Vec<u64>,
    record_words: u32,
) -> (r: Result<(Vec<u64>, u32), FetchError>)
    requires
        !slot.is_null_spec(),
        1 <= record_words <= 8,
    ensures
        r is Ok ==> r->Ok_0.1 <= MAX_FETCH_RECORDS && r->Ok_0.0@.len() == r->Ok_0.1
            * record_words,
        r is Err && r->Err_0 is Native ==> !(r->Err_0->Native_0 is Success),
{
    let mut call = RawCall { addr: slot.addr, handle, args, capacity: None };
    let mut attempt: u32 = 0;
    while attempt < FETCH_RETRY_BOUND
        invariant
            call.addr == slot.addr,
            !slot.is_null_spec(),
            1 <= record_words <= 8,
        decreases FETCH_RETRY_BOUND - attempt,
    {
        call.capacity = None;
        let discovery = dispatcher.call(&call);
        match decide_count(discovery.status, discovery.count) {
            CountDecision::Empty => {
                return Ok((Vec::new(), 0));
            },
            CountDecision::Oversized => {
                return Err(FetchError::Protocol);
            },
            CountDecision::Fail(status) => {
                return Err(FetchError::Native(status));
            },
            CountDecision::Fill(count) => {
                call.capacity = Some(count);
                let filled = dispatcher.call(&call);
                match decide_fill(filled.status, filled.count, count) {
                    FillDecision::Done(written) => {
                        let words = take_records(&filled.items, written, record_words);
                        return Ok((words, written));
                    },
                    FillDecision::Retry => {
                        attempt = attempt + 1;
                    },
                    FillDecision::Fail(status) => {
                        return Err(FetchError::Native(status));
                    },
                }
            },
        }
    }
    Err(FetchError::Protocol)
}

} // verus!
