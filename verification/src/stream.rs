//! The record stream parser's bookkeeping: batch containers and progress.

use vstd::prelude::*;
use crossbeam_channel::Receiver;
use crate::errors::{Failure, HprofSlurpError};
use crate::pool::{law_ledger_balances, BufferPool, PoolCounts};
use crate::prefetch::{chunk_plan, law_plan_covers_remaining, total};

verus! {

/// Batch containers that the parser's pool starts with.
pub const BATCH_POOL_SEED: usize = 1;

/// The number of records at which a batch is sent on, unless another is
/// asked for.
pub const DEFAULT_BATCH_TARGET: usize = 65_536;

/// The progress values that follow from consuming `amounts` one after the
/// other: each is the sum of the amounts up to and including its own.
pub open spec fn running_totals(amounts: Seq<nat>) -> Seq<nat> {
    Seq::new(amounts.len(), |i: int| total(amounts.take(i + 1)))
}

/// What a record stream parser stands at.
pub struct StreamView {
    /// Length of the stream: the file without its preamble.
    pub stream_len: nat,
    /// Number of records at which a batch is sent on.
    pub batch_target: nat,
    /// The amounts consumed, one for each progress value reported so far.
    pub consumed: Seq<nat>,
    /// Length of the chunk that is being decoded.
    pub chunk_len: nat,
    /// Bytes of that chunk consumed so far.
    pub offset: nat,
    /// Bytes consumed since the last progress value was reported.
    pub unreported: nat,
    /// The ledger of the batch container pool.
    pub pool: PoolCounts,
}

/// Bookkeeping of the record stream parser: the pool of batch containers,
/// the place in the chunk that is being decoded, and the count of stream
/// bytes consumed.
pub struct RecordStreamParser<T> {
    stream_len: usize,
    processed_len: usize,
    batch_target: usize,
    consumed: Ghost<Seq<nat>>,
    chunk_len: usize,
    offset: usize,
    unreported: usize,
    pool: BufferPool<T>,
}

impl<T> View for RecordStreamParser<T> {
    type V = StreamView;

    closed spec fn view(&self) -> StreamView {
        StreamView {
            stream_len: self.stream_len as nat,
            batch_target: self.batch_target as nat,
            consumed: self.consumed@,
            chunk_len: self.chunk_len as nat,
            offset: self.offset as nat,
            unreported: self.unreported as nat,
            pool: self.pool@,
        }
    }
}

impl<T> RecordStreamParser<T> {
    /// The count of consumed bytes is the total of the amounts reported
    /// and lies within the stream; the place in the chunk lies within the
    /// chunk; the pool is sound and was seeded with one container.
    pub closed spec fn wf(&self) -> bool {
        &&& self.processed_len == total(self.consumed@)
        &&& self.processed_len <= self.stream_len
        &&& self.offset <= self.chunk_len
        &&& self.pool.wf()
        &&& self.pool@.seeded == BATCH_POOL_SEED
    }

    /// Bookkeeping for a stream of `stream_len` bytes, with a pool of one
    /// batch container and no chunk yet.
    pub fn new(stream_len: usize, batch_target: usize) -> (parser: Self)
        ensures
            parser.wf(),
            parser@ == (StreamView {
                stream_len: stream_len as nat,
                batch_target: batch_target as nat,
                consumed: Seq::empty(),
                chunk_len: 0,
                offset: 0,
                unreported: 0,
                pool: PoolCounts {
                    pooled: BATCH_POOL_SEED as nat,
                    in_flight: 0,
                    seeded: BATCH_POOL_SEED as nat,
                    allocated: 0,
                },
            }),
    {
        RecordStreamParser {
            stream_len,
            processed_len: 0,
            batch_target,
            consumed: Ghost(Seq::empty()),
            chunk_len: 0,
            offset: 0,
            unreported: 0,
            pool: BufferPool::seeded(BATCH_POOL_SEED, 0),
        }
    }

    /// The bytes of the stream reported as consumed so far.
    pub fn processed_len(&self) -> (n: usize)
        requires
            self.wf(),
        ensures
            n == total(self@.consumed),
            n <= self@.stream_len,
    {
        self.processed_len
    }

    /// Whether the pool can hand out one more batch container.
    pub fn can_continue(&self) -> (ok: bool)
        requires
            self.wf(),
        ensures
            ok == (self@.pool.pooled > 0 || self@.pool.created() < usize::MAX),
    {
        self.pool.can_acquire()
    }

    /// An empty container for the next batch. Containers that came back on
    /// `returned` are pooled first; then one is taken out, and a new one is
    /// created only if the pool is empty at that moment. The container
    /// handed out counts as in flight until it comes back. How many came
    /// back is up to the channel and shows in the count of those in flight
    /// afterwards; the rest of the ledger follows from it.
    pub fn next_batch(&mut self, returned: &Receiver<Vec<T>>) -> (batch: Vec<T>)
        requires
            old(self).wf(),
            old(self)@.pool.pooled > 0 || old(self)@.pool.created() < usize::MAX,
        ensures
            final(self).wf(),
            batch@.len() == 0,
            final(self)@ == (StreamView { pool: final(self)@.pool, ..old(self)@ }),
            1 <= final(self)@.pool.in_flight <= old(self)@.pool.in_flight + 1,
            final(self)@.pool == old(self)@.pool.with_reclaimed(
                (old(self)@.pool.in_flight + 1 - final(self)@.pool.in_flight) as nat,
            ).with_one_taken(),
            final(self)@.pool.seeded == old(self)@.pool.seeded,
            old(self)@.pool.allocated <= final(self)@.pool.allocated <= old(self)@.pool.allocated
                + 1,
            old(self)@.pool.pooled > 0 ==> final(self)@.pool.allocated == old(
                self,
            )@.pool.allocated,
    {
        self.pool.reclaim(returned);
        self.pool.acquire()
    }

    /// Turns to a new chunk of `chunk_len` bytes, at its start.
    pub fn begin_chunk(&mut self, chunk_len: usize)
        requires
            old(self).wf(),
        ensures
            final(self).wf(),
            final(self)@ == (StreamView { chunk_len: chunk_len as nat, offset: 0, ..old(self)@ }),
    {
        self.chunk_len = chunk_len;
        self.offset = 0;
    }

    /// The place in the chunk at which decoding goes on.
    pub fn offset(&self) -> (offset: usize)
        requires
            self.wf(),
        ensures
            offset == self@.offset,
            offset <= self@.chunk_len,
    {
        self.offset
    }

    /// Whether the chunk is consumed to its end.
    pub fn chunk_exhausted(&self) -> (exhausted: bool)
        ensures
            exhausted == (self@.offset == self@.chunk_len),
    {
        self.offset == self.chunk_len
    }

    /// Whether the decoder may have consumed `amount` bytes at the present
    /// place: at least one, and no more than the chunk has left.
    pub open spec fn plausible(view: StreamView, amount: nat) -> bool {
        0 < amount && view.offset + amount <= view.chunk_len && view.unreported + amount
            <= usize::MAX
    }

    /// Moves on in the chunk by the `amount` of bytes that the decoder has
    /// consumed. An amount that is not plausible is refused and changes
    /// nothing: the decoder has lost its place.
    pub fn consume(&mut self, amount: usize) -> (result: Result<(), HprofSlurpError>)
        requires
            old(self).wf(),
        ensures
            final(self).wf(),
            Self::plausible(old(self)@, amount as nat) ==> result is Ok && final(self)@ == (StreamView {
                offset: old(self)@.offset + amount as nat,
                unreported: old(self)@.unreported + amount as nat,
                ..old(self)@
            }),
            !Self::plausible(old(self)@, amount as nat) ==> final(self)@ == old(self)@ && (
            result matches Err(error) && error@ == (Failure::InvalidHprofFile {
                message: "the decoder lost its place in the stream"@,
            })),
    {
        if amount == 0 || amount > self.chunk_len - self.offset || amount > usize::MAX
            - self.unreported {
            return Err(
                HprofSlurpError::InvalidHprofFile {
                    message: "the decoder lost its place in the stream".to_string(),
                },
            );
        }
        self.offset = self.offset + amount;
        self.unreported = self.unreported + amount;
        Ok(())
    }

    /// Whether a batch of `batch_len` records is sent on now: it has
    /// reached the target size, or the chunk is exhausted.
    pub fn batch_is_due(&self, batch_len: usize) -> (due: bool)
        ensures
            due == (self@.offset == self@.chunk_len || batch_len >= self@.batch_target),
    {
        self.offset == self.chunk_len || batch_len >= self.batch_target
    }

    /// Counts the bytes consumed since the last report and gives the
    /// progress value to report: all bytes consumed so far. A count that
    /// would pass the end of the stream is refused and changes nothing.
    pub fn report(&mut self) -> (result: Result<usize, HprofSlurpError>)
        requires
            old(self).wf(),
        ensures
            final(self).wf(),
            total(old(self)@.consumed) + old(self)@.unreported <= old(self)@.stream_len ==> {
                &&& result == Ok::<usize, HprofSlurpError>(
                    (total(old(self)@.consumed) + old(self)@.unreported) as usize,
                )
                &&& final(self)@ == (StreamView {
                    consumed: old(self)@.consumed.push(old(self)@.unreported),
                    unreported: 0,
                    ..old(self)@
                })
                &&& result.unwrap() == running_totals(final(self)@.consumed).last()
            },
            total(old(self)@.consumed) + old(self)@.unreported > old(self)@.stream_len ==> {
                &&& result matches Err(error)
                &&& error@ == (Failure::InvalidHprofFile {
                    message: "record stream is longer than the input"@,
                })
                &&& final(self)@ == old(self)@
            },
    {
        if self.unreported > self.stream_len - self.processed_len {
            return Err(
                HprofSlurpError::InvalidHprofFile {
                    message: "record stream is longer than the input".to_string(),
                },
            );
        }
        self.processed_len = self.processed_len + self.unreported;
        proof {
            let after = self.consumed@.push(self.unreported as nat);
            assert(after.drop_last() =~= self.consumed@);
            assert(after.take(after.len() as int) =~= after);
            self.consumed@ = after;
        }
        self.unreported = 0;
        Ok(self.processed_len)
    }
}

/// The batch containers in the pool and in flight are at every moment the
/// one that the pool was seeded with and those created on demand.
pub proof fn law_batch_containers_are_accounted_for<T>(parser: RecordStreamParser<T>)
    requires
        parser.wf(),
    ensures
        parser@.pool.pooled + parser@.pool.in_flight == BATCH_POOL_SEED + parser@.pool.allocated,
{
    law_ledger_balances(parser.pool);
}

/// Progress values never decrease.
pub proof fn law_progress_never_decreases(amounts: Seq<nat>, i: int, j: int)
    requires
        0 <= i <= j < amounts.len(),
    ensures
        running_totals(amounts)[i] <= running_totals(amounts)[j],
    decreases j - i,
{
    if i < j {
        law_progress_never_decreases(amounts, i, j - 1);
        assert(amounts.take(j + 1).drop_last() =~= amounts.take(j));
    }
}

/// The last progress value is the total of everything consumed.
pub proof fn law_progress_ends_at_total(amounts: Seq<nat>)
    requires
        amounts.len() > 0,
    ensures
        running_totals(amounts).last() == total(amounts),
{
    assert(amounts.take(amounts.len() as int) =~= amounts);
}

/// Where every planned chunk is consumed whole, the last progress value is
/// the number of bytes read past the preamble.
pub proof fn law_progress_ends_at_stream_length(file_len: nat, header_len: nat, read_size: nat)
    requires
        header_len < file_len,
        read_size > 0,
    ensures
        running_totals(chunk_plan((file_len - header_len) as nat, read_size)).len() > 0,
        running_totals(chunk_plan((file_len - header_len) as nat, read_size)).last() == file_len
            - header_len,
{
    let plan = chunk_plan((file_len - header_len) as nat, read_size);
    law_plan_covers_remaining((file_len - header_len) as nat, read_size);
    law_progress_ends_at_total(plan);
}

} // verus!
