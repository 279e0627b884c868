//! The caller's side of the stream: applying each delivered message and
//! recording the cursor that goes with it.
//!
//! A message is applied first and its cursor persisted next. Until the cursor
//! is recorded, no other message is accepted; the same message may be applied
//! again.

use crate::error::StreamError;
use crate::ledger::{rolled_back, BlockSummary, Ledger, ReorgHandler};
use crate::model::{BlockScopedData, BlockUndoSignal, Cursor};
use vstd::prelude::*;

verus! {

/// The text in which every match of `pattern` in `text` is replaced by
/// `with`. Matches are taken from left to right and do not overlap. An empty
/// pattern is not meant and leaves the text as it is.
pub open spec fn replaced(text: Seq<char>, pattern: Seq<char>, with: Seq<char>) -> Seq<char>
    decreases text.len(),
{
    if pattern.len() == 0 || text.len() < pattern.len() {
        text
    } else if text.subrange(0, pattern.len() as int) == pattern {
        with + replaced(text.skip(pattern.len() as int), pattern, with)
    } else {
        seq![text[0]] + replaced(text.skip(1), pattern, with)
    }
}

/// Calls `str::replace` of the standard library. Trusted: for a pattern that
/// is not empty, the result is the text with every match of the pattern,
/// found from left to right without overlap, replaced.
#[verifier::external_body]
fn replace_all(text: &str, pattern: &str, with: &str) -> (r: String)
    requires
        pattern@.len() > 0,
    ensures
        r@ == replaced(text@, pattern@, with@),
{
    text.replace(pattern, with)
}

/// A match at the very front is replaced, and the rest is treated alike.
pub proof fn lemma_leading_match_is_replaced(pattern: Seq<char>, rest: Seq<char>, with: Seq<char>)
    requires
        pattern.len() > 0,
    ensures
        replaced(pattern + rest, pattern, with) == with + replaced(rest, pattern, with),
{
    let text = pattern + rest;
    assert(text.subrange(0, pattern.len() as int) =~= pattern);
    assert(text.skip(pattern.len() as int) =~= rest);
}

/// A text shorter than the pattern holds no match and is left as it is.
pub proof fn lemma_short_text_is_kept(text: Seq<char>, pattern: Seq<char>, with: Seq<char>)
    requires
        text.len() < pattern.len(),
    ensures
        replaced(text, pattern, with) == text,
{
}

/// Whether `summary` is the summary of `data`: its block number, its payload
/// type without the type-URL prefix, and its payload size.
pub open spec fn summarizes(summary: BlockSummary, data: BlockScopedData) -> bool {
    &&& summary.block_number == data.clock.block.number
    &&& summary.payload_type@ == replaced(data.output.type_tag@, "type.googleapis.com/"@, ""@)
    &&& summary.payload_len == data.output.payload@.len()
}

/// The summary of `data`, given its payload type already stripped of the prefix.
pub fn summarize_with(data: &BlockScopedData, payload_type: String) -> (s: BlockSummary)
    ensures
        s == (BlockSummary {
            block_number: data.clock.block.number,
            payload_type,
            payload_len: data.output.payload.len(),
        }),
{
    BlockSummary {
        block_number: data.clock.block.number,
        payload_type,
        payload_len: data.output.payload.len(),
    }
}

/// The summary of `data`.
pub fn summarize(data: &BlockScopedData) -> (s: BlockSummary)
    ensures
        summarizes(s, *data),
{
    proof {
        reveal_strlit("type.googleapis.com/");
    }
    let payload_type = replace_all(data.output.type_tag.as_str(), "type.googleapis.com/", "");
    summarize_with(data, payload_type)
}

/// What is known of the durable cursor.
#[derive(Clone, Debug, PartialEq, Eq)]
pub struct Checkpoint {
    /// The cursor recorded last, if any.
    pub persisted: Option<Cursor>,
    /// The cursor of a message that was applied and is not yet recorded.
    pub pending: Option<Cursor>,
}

impl Checkpoint {
    /// A checkpoint at `persisted`, with nothing pending.
    pub fn new(persisted: Option<Cursor>) -> (c: Checkpoint)
        ensures
            c == (Checkpoint { persisted, pending: None }),
    {
        Checkpoint { persisted, pending: None }
    }

    /// Whether an applied message still waits for its cursor to be recorded.
    pub fn has_pending(&self) -> (b: bool)
        ensures
            b == self.pending is Some,
    {
        self.pending.is_some()
    }
}

/// Reads a stored token as a cursor. Every stored token is a cursor, whatever
/// it holds; only the absence of a token means that the stream starts from
/// its start block.
pub fn load_persisted_cursor(stored: Option<String>) -> (r: Result<Option<Cursor>, StreamError>)
    ensures
        r == Ok::<Option<Cursor>, StreamError>(
            match stored {
                Some(token) => Some(Cursor { token }),
                None => None,
            },
        ),
{
    match stored {
        Some(token) => Ok(Some(Cursor::new(token))),
        None => Ok(None),
    }
}

/// Records the outcome of writing `cursor` to durable storage.
///
/// A failed write is surfaced as a persist error that carries the storage's
/// detail. A write of any cursor but the pending one is out of order and is
/// refused with a persist error that carries the cursor. In both cases the
/// checkpoint stays as it was. Otherwise `cursor` becomes the persisted one
/// and nothing is pending.
pub fn persist_cursor(
    checkpoint: &mut Checkpoint,
    cursor: Cursor,
    outcome: Result<(), String>,
) -> (r: Result<(), StreamError>)
    ensures
        match outcome {
            Err(detail) => r == Err::<(), StreamError>(StreamError::Persist(detail)) && *final(checkpoint) == *old(checkpoint),
            Ok(_) => if old(checkpoint).pending is Some && old(checkpoint).pending.unwrap()@
                != cursor@ {
                r == Err::<(), StreamError>(StreamError::Persist(cursor.token)) && *final(checkpoint) == *old(checkpoint)
            } else {
                r is Ok && *final(checkpoint) == (Checkpoint {
                    persisted: Some(cursor),
                    pending: None,
                })
            },
        },
{
    match outcome {
        Err(detail) => Err(StreamError::Persist(detail)),
        Ok(_) => {
            let in_order = match &checkpoint.pending {
                Some(p) => p.token == cursor.token,
                None => true,
            };
            if in_order {
                checkpoint.persisted = Some(cursor);
                checkpoint.pending = None;
                Ok(())
            } else {
                Err(StreamError::Persist(cursor.token))
            }
        },
    }
}

impl Checkpoint {
    /// Whether a message with this cursor may be applied now: nothing is
    /// pending, or the pending cursor is this very one, which is the case of
    /// a message delivered again before its cursor was recorded.
    pub open spec fn admits(self, cursor: Cursor) -> bool {
        self.pending is None || self.pending.unwrap()@ == cursor@
    }

    /// The checkpoint once a message with this cursor has been applied.
    pub open spec fn awaiting(self, cursor: Cursor) -> Checkpoint {
        Checkpoint { persisted: self.persisted, pending: Some(cursor) }
    }

    /// The cursor that stands in the way of a message with `cursor`, if one
    /// does: a pending cursor other than `cursor`.
    pub fn blocking(&self, cursor: &Cursor) -> (r: Option<Cursor>)
        ensures
            r is None <==> self.admits(*cursor),
            r is Some ==> self.pending == r,
    {
        match &self.pending {
            Some(p) => {
                if p.token == cursor.token {
                    None
                } else {
                    Some(p.duplicate())
                }
            },
            None => None,
        }
    }
}

/// Applies a new block: records its summary in the ledger under its block
/// number and marks its cursor as pending.
///
/// While the cursor of another message is pending the block is refused with a
/// persist error that carries that cursor, and nothing changes. The block
/// whose cursor is the pending one is applied again.
pub fn process_block_scoped_data(
    ledger: &mut Ledger,
    checkpoint: &mut Checkpoint,
    data: &BlockScopedData,
) -> (r: Result<BlockSummary, StreamError>)
    ensures
        r is Ok <==> old(checkpoint).admits(data.cursor),
        r is Ok ==> {
            &&& summarizes(r.unwrap(), *data)
            &&& final(ledger)@ == old(ledger)@.insert(data.clock.block.number, r.unwrap()@)
            &&& *final(checkpoint) == old(checkpoint).awaiting(data.cursor)
        },
        r is Err ==> {
            &&& r == Err::<BlockSummary, StreamError>(
                StreamError::Persist(old(checkpoint).pending.unwrap().token),
            )
            &&& *final(checkpoint) == *old(checkpoint)
            &&& final(ledger)@ == old(ledger)@
        },
{
    match checkpoint.blocking(&data.cursor) {
        Some(p) => {
            return Err(StreamError::Persist(p.token));
        },
        None => {},
    }
    let summary = summarize(data);
    ledger.apply(summary.duplicate());
    checkpoint.pending = Some(data.cursor.duplicate());
    Ok(summary)
}

/// Settles a rollback once the handler has answered: on success the rollback
/// cursor becomes the pending one, and a failure of the handler is handed on
/// as it is, with the checkpoint untouched.
pub fn record_undo(
    checkpoint: &mut Checkpoint,
    undo_signal: &BlockUndoSignal,
    outcome: Result<(), StreamError>,
) -> (r: Result<(), StreamError>)
    ensures
        match outcome {
            Ok(_) => r is Ok && *final(checkpoint) == old(checkpoint).awaiting(
                undo_signal.last_valid_cursor,
            ),
            Err(error) => r == Err::<(), StreamError>(error) && *final(checkpoint) == *old(checkpoint),
        },
{
    match outcome {
        Ok(_) => {
            checkpoint.pending = Some(undo_signal.last_valid_cursor.duplicate());
            Ok(())
        },
        Err(error) => Err(error),
    }
}

/// Handles a rollback: has the handler discard every effect above the last
/// valid block and marks the rollback cursor as pending.
///
/// While the cursor of another message is pending the signal is refused with
/// a persist error that carries that cursor, and the handler is not called.
/// A signal whose cursor is the pending one is handled again. The call
/// succeeds exactly when the signal is admitted and the handler can unwind;
/// a failure of the handler is surfaced as it is. On every failure nothing
/// changes.
pub fn process_block_undo_signal<H: ReorgHandler>(
    handler: &mut H,
    checkpoint: &mut Checkpoint,
    undo_signal: &BlockUndoSignal,
) -> (r: Result<(), StreamError>)
    ensures
        r is Ok <==> old(checkpoint).admits(undo_signal.last_valid_cursor) && old(handler).can_undo(undo_signal.last_valid_block.number),
        r is Ok ==> {
            &&& final(handler).in_place() == rolled_back(
                old(handler).in_place(),
                undo_signal.last_valid_block.number,
            )
            &&& *final(checkpoint) == old(checkpoint).awaiting(undo_signal.last_valid_cursor)
        },
        r is Err ==> *final(checkpoint) == *old(checkpoint) && final(handler).in_place() == old(handler).in_place(),
        !old(checkpoint).admits(undo_signal.last_valid_cursor) ==> r == Err::<(), StreamError>(
            StreamError::Persist(old(checkpoint).pending.unwrap().token),
        ),
{
    match checkpoint.blocking(&undo_signal.last_valid_cursor) {
        Some(p) => {
            return Err(StreamError::Persist(p.token));
        },
        None => {},
    }
    let outcome = handler.apply_undo(&undo_signal.last_valid_block);
    record_undo(checkpoint, undo_signal, outcome)
}

/// Checks at wiring time that rollback handling was supplied.
pub fn require_handler<H>(handler: Option<H>) -> (r: Result<H, StreamError>)
    ensures
        r == match handler {
            Some(h) => Ok::<H, StreamError>(h),
            None => Err::<H, StreamError>(StreamError::UnimplementedPolicy),
        },
{
    match handler {
        Some(h) => Ok(h),
        None => Err(StreamError::UnimplementedPolicy),
    }
}

} // verus!
