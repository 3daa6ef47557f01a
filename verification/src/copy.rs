//! The buffered copy of one file, as a sequence of decisions.
//!
//! The caller opens the two files, reads into a buffer of `BUFFER_SIZE`
//! bytes and writes out of it; after each read and each write it reports
//! what came of it and is told what to do next. The chunks are written in
//! the order in which they were read, a write that takes fewer bytes than it
//! was given ends the copy with an error, and the running total counts the
//! bytes that reached the destination.

use vstd::prelude::*;

verus! {

/// The size of the buffer that a copy reads through, in bytes.
pub const BUFFER_SIZE: usize = 102400;

/// How far a copy has come.
#[derive(Clone, Copy, Debug, PartialEq, Eq, Structural)]
pub struct CopyState {
    /// The bytes written to the destination so far.
    pub total: usize,
    /// The size of the chunk that was read and is not yet written.
    pub pending: usize,
}

/// What the caller reports.
#[derive(Clone, Copy, Debug, PartialEq, Eq, Structural)]
pub enum CopyEvent {
    /// A read into the buffer gave this many bytes; none at the end of the
    /// source.
    Read(usize),
    /// A write of the pending chunk took this many bytes.
    Written(usize),
}

/// What the caller is to do next.
#[derive(Clone, Copy, Debug, PartialEq, Eq, Structural)]
pub enum CopyAction {
    /// Read into the buffer. The total stands at this many bytes, for the
    /// caller to show.
    Read(usize),
    /// Write this many bytes from the start of the buffer.
    Write(usize),
    /// The source is at its end: the copy is complete, with this many bytes
    /// in all.
    Done(usize),
}

/// Why a copy was given up.
#[derive(Clone, Copy, Debug, PartialEq, Eq, Structural)]
pub enum CopyError {
    /// A write took fewer bytes than the chunk holds.
    ShortWrite { expected: usize, written: usize },
    /// A read claims more bytes than the buffer holds.
    ReadTooLong { read: usize },
    /// The total no longer fits the machine's word.
    TotalOverflow,
}

/// The state in which a copy begins: nothing written, nothing pending. The
/// first thing to do in it is to read.
pub open spec fn initial() -> CopyState {
    CopyState { total: 0, pending: 0 }
}

/// What follows from `event` in `state`.
///
/// A read of no bytes completes the copy. A read of some bytes makes them
/// the pending chunk, to be written. A write that took the whole pending
/// chunk adds it to the total and calls for the next read; one that took
/// less is an error.
pub open spec fn copy_step(state: CopyState, event: CopyEvent) -> Result<
    (CopyState, CopyAction),
    CopyError,
> {
    match event {
        CopyEvent::Read(read) => if read == 0 {
            Ok((state, CopyAction::Done(state.total)))
        } else if read > BUFFER_SIZE {
            Err(CopyError::ReadTooLong { read })
        } else {
            Ok((CopyState { total: state.total, pending: read }, CopyAction::Write(read)))
        },
        CopyEvent::Written(written) => if written < state.pending {
            Err(CopyError::ShortWrite { expected: state.pending, written })
        } else if state.total + state.pending > usize::MAX {
            Err(CopyError::TotalOverflow)
        } else {
            let total = (state.total + state.pending) as usize;
            Ok((CopyState { total, pending: 0 }, CopyAction::Read(total)))
        },
    }
}

impl CopyState {
    /// The state in which a copy begins.
    pub fn new() -> (state: CopyState)
        ensures
            state == initial(),
    {
        CopyState { total: 0, pending: 0 }
    }
}

impl CopyError {
    /// The line that reports this error.
    pub fn message(&self) -> (line: String)
        ensures
            line@ == match *self {
                CopyError::ShortWrite { .. } => "short write"@,
                CopyError::ReadTooLong { .. } => "read beyond the buffer"@,
                CopyError::TotalOverflow => "too many bytes to count"@,
            },
    {
        match self {
            CopyError::ShortWrite { .. } => "short write".to_owned(),
            CopyError::ReadTooLong { .. } => "read beyond the buffer".to_owned(),
            CopyError::TotalOverflow => "too many bytes to count".to_owned(),
        }
    }
}

/// Takes `event` in and says what to do next, or why the copy is given up.
pub fn copy(state: CopyState, event: CopyEvent) -> (result: Result<
    (CopyState, CopyAction),
    CopyError,
>)
    ensures
        result == copy_step(state, event),
{
    match event {
        CopyEvent::Read(read) => {
            if read == 0 {
                Ok((state, CopyAction::Done(state.total)))
            } else if read > BUFFER_SIZE {
                Err(CopyError::ReadTooLong { read })
            } else {
                Ok((CopyState { total: state.total, pending: read }, CopyAction::Write(read)))
            }
        },
        CopyEvent::Written(written) => {
            if written < state.pending {
                Err(CopyError::ShortWrite { expected: state.pending, written })
            } else {
                match state.total.checked_add(state.pending) {
                    Some(total) => Ok(
                        (CopyState { total, pending: 0 }, CopyAction::Read(total)),
                    ),
                    None => Err(CopyError::TotalOverflow),
                }
            }
        },
    }
}

/// The sum of the sizes in `chunks`.
pub open spec fn sum(chunks: Seq<usize>) -> nat
    decreases chunks.len(),
{
    if chunks.len() == 0 {
        0
    } else {
        sum(chunks.drop_last()) + chunks.last() as nat
    }
}

/// The state after the chunks of the sizes in `chunks` have each been read
/// and then written in full, one after the other from the beginning; `None`
/// where the copy was given up on the way.
pub open spec fn after_chunks(chunks: Seq<usize>) -> Option<CopyState>
    decreases chunks.len(),
{
    if chunks.len() == 0 {
        Some(initial())
    } else {
        match after_chunks(chunks.drop_last()) {
            None => None,
            Some(before) => match copy_step(before, CopyEvent::Read(chunks.last())) {
                Ok((reading, CopyAction::Write(size))) => match copy_step(
                    reading,
                    CopyEvent::Written(size),
                ) {
                    Ok((written, _)) => Some(written),
                    Err(_) => None,
                },
                _ => None,
            },
        }
    }
}

/// The running total never goes down.
pub proof fn lemma_total_never_decreases(state: CopyState, event: CopyEvent)
    ensures
        copy_step(state, event) matches Ok((next, _)) ==> next.total >= state.total,
{
}

/// Where every read fills some of the buffer and never more than all of it,
/// every write is taken in full, and the sizes add up to a number the
/// machine can hold, the copy goes through, nothing is left pending, the
/// total is the sum of what was read, and the read of no bytes that follows
/// completes the copy with that total.
pub proof fn lemma_total_is_what_was_read(chunks: Seq<usize>)
    requires
        forall|i: int| 0 <= i < chunks.len() ==> 0 < #[trigger] chunks[i] <= BUFFER_SIZE,
        sum(chunks) <= usize::MAX,
    ensures
        after_chunks(chunks) == Some(CopyState { total: sum(chunks) as usize, pending: 0 }),
        copy_step(after_chunks(chunks).unwrap(), CopyEvent::Read(0)) matches Ok((_, action))
            && action == CopyAction::Done(sum(chunks) as usize),
    decreases chunks.len(),
{
    if chunks.len() > 0 {
        lemma_total_is_what_was_read(chunks.drop_last());
    }
}

} // verus!
