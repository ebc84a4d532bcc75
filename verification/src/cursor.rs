//! The lazily paginated cursor state machine.
//!
//! A [`QueryCursor`] owns the client side of one server-side cursor: a
//! buffer of yet-unconsumed documents, the server's `has_more` flag, and the
//! server-assigned continuation handle. It yields a lazy, finite,
//! non-restartable sequence. Because the network round trips themselves
//! cannot be performed here, the cursor is driven in two verified halves:
//! [`QueryCursor::advance`] decides — pop a buffered document, request one
//! continuation round trip, or end the sequence — and the caller's driver
//! performs the requested fetch and hands the batch back through
//! [`QueryCursor::supply_batch`]. [`lemma_cursor_protocol`] proves the
//! pagination protocol: a buffer of `n` documents answers the first `n`
//! calls in order without any round trip, the `n+1`-th call is the single
//! continuation request, and once the server has reported the end the
//! sequence drains and terminates without ever requesting another.

use vstd::prelude::*;

verus! {

/// What one "produce next" call does.
#[derive(Debug)]
pub enum CursorStep<T> {
    /// The next document of the sequence, taken from the buffer with no
    /// network work.
    Yield(T),
    /// The buffer is drained and the server holds more: the driver must
    /// perform one continuation round trip and hand the batch back through
    /// [`QueryCursor::supply_batch`], then ask again.
    NeedsFetch,
    /// The sequence has ended: the buffer is drained and the server holds
    /// nothing more. No further round trip is ever requested.
    Exhausted,
}

/// The decision "produce next" takes, as a function of the buffered
/// documents and the server's `has_more` flag alone.
pub open spec fn next_step_spec<T>(buffered: Seq<T>, has_more: bool) -> CursorStep<T> {
    if buffered.len() > 0 {
        CursorStep::Yield(buffered[0])
    } else if has_more {
        CursorStep::NeedsFetch
    } else {
        CursorStep::Exhausted
    }
}

/// The client side of one server-side cursor. Single-owner: it is mutated
/// only by its own `advance` and `supply_batch` calls.
#[derive(Debug)]
pub struct QueryCursor<T> {
    /// Yet-unconsumed documents of the current batch, in order.
    buffer: Vec<T>,
    /// The server-assigned continuation handle, when the server returned
    /// one; surrendered by [`QueryCursor::release`].
    cursor_id: Option<String>,
    /// Whether the server reported more results beyond the buffer.
    has_more: bool,
}

impl<T> QueryCursor<T> {
    /// The documents still buffered, in the order they will be yielded.
    pub closed spec fn buffered(self) -> Seq<T> {
        self.buffer@
    }

    /// Whether the server reported more results beyond the buffer.
    pub closed spec fn more(self) -> bool {
        self.has_more
    }

    /// The continuation handle, if the cursor still holds one.
    pub closed spec fn handle(self) -> Option<String> {
        self.cursor_id
    }

    /// Wraps the response of an "open cursor" round trip: its first batch,
    /// its `has_more` flag and its optional continuation handle.
    pub fn new(batch: Vec<T>, has_more: bool, cursor_id: Option<String>) -> (r: QueryCursor<T>)
        ensures
            r.buffered() == batch@,
            r.more() == has_more,
            r.handle() == cursor_id,
    {
        QueryCursor { buffer: batch, cursor_id, has_more }
    }

    /// One "produce next" call: yields the next buffered document without
    /// network work, or asks the driver for exactly one continuation round
    /// trip, or reports the end of the sequence. Documents already yielded
    /// are never revisited: the sequence is not restartable.
    pub fn advance(&mut self) -> (r: CursorStep<T>)
        ensures
            r == next_step_spec(old(self).buffered(), old(self).more()),
            old(self).buffered().len() > 0 ==> final(self).buffered() == old(
                self,
            ).buffered().drop_first(),
            old(self).buffered().len() == 0 ==> final(self).buffered() == old(self).buffered(),
            final(self).more() == old(self).more(),
            final(self).handle() == old(self).handle(),
    {
        if self.buffer.len() > 0 {
            let d = self.buffer.remove(0);
            proof {
                assert(self.buffer@ =~= old(self).buffer@.drop_first());
            }
            CursorStep::Yield(d)
        } else if self.has_more {
            CursorStep::NeedsFetch
        } else {
            CursorStep::Exhausted
        }
    }

    /// Hands the cursor the response of the continuation round trip it
    /// asked for: the next batch and the server's new `has_more` flag.
    /// Only ever called on a drained cursor that requested a fetch.
    pub fn supply_batch(&mut self, batch: Vec<T>, has_more: bool)
        requires
            old(self).buffered().len() == 0,
            old(self).more(),
        ensures
            final(self).buffered() == batch@,
            final(self).more() == has_more,
            final(self).handle() == old(self).handle(),
    {
        self.buffer = batch;
        self.has_more = has_more;
    }

    /// Surrenders the continuation handle so the driver can release the
    /// server-side resource: on normal exhaustion and, best-effort, on
    /// early abandonment. The cursor afterwards never requests another
    /// round trip; documents still buffered remain valid.
    pub fn release(&mut self) -> (id: Option<String>)
        ensures
            id == old(self).handle(),
            final(self).handle() is None,
            !final(self).more(),
            final(self).buffered() == old(self).buffered(),
    {
        self.has_more = false;
        let mut id: Option<String> = None;
        core::mem::swap(&mut id, &mut self.cursor_id);
        id
    }

    /// How many documents the buffer still holds.
    pub fn buffered_len(&self) -> (n: usize)
        ensures
            n == self.buffered().len(),
    {
        self.buffer.len()
    }

    /// Whether the server reported more results beyond the buffer.
    pub fn has_more(&self) -> (b: bool)
        ensures
            b == self.more(),
    {
        self.has_more
    }

    /// The continuation handle, for the driver performing the fetch the
    /// cursor asked for.
    pub fn continuation(&self) -> (id: &Option<String>)
        ensures
            *id == self.handle(),
    {
        &self.cursor_id
    }
}

/// The pagination protocol. For a cursor state holding `buffered` documents
/// with server flag `has_more`, after `k` documents have been produced:
/// while the buffer lasts, "produce next" yields its documents in order and
/// requests no round trip; at the `buffered.len() + 1`-th call — and only
/// there — it requests exactly one continuation when the server holds more;
/// and when the server has reported the end, the sequence terminates right
/// after the buffer drains, never requesting a round trip.
pub proof fn lemma_cursor_protocol<T>(buffered: Seq<T>, has_more: bool, k: int)
    requires
        0 <= k <= buffered.len(),
    ensures
        k < buffered.len() ==> next_step_spec(buffered.skip(k), has_more) == CursorStep::Yield(
            buffered[k],
        ),
        k == buffered.len() && has_more ==> next_step_spec(buffered.skip(k), has_more)
            is NeedsFetch,
        k == buffered.len() && !has_more ==> next_step_spec(buffered.skip(k), has_more)
            is Exhausted,
        !has_more ==> !(next_step_spec(buffered.skip(k), has_more) is NeedsFetch),
{
    if k < buffered.len() {
        assert(buffered.skip(k)[0] == buffered[k]);
    } else {
        assert(buffered.skip(k).len() == 0);
    }
}

} // verus!
