//! The byte prefetcher's plan: which slice of the file comes next, and in
//! which buffer.

use vstd::prelude::*;
use crossbeam_channel::Receiver;
use crate::pool::{law_ledger_balances, BufferPool, PoolCounts};

verus! {

/// Standard size of a chunk of raw file bytes: 64 MiB. It is the dominant
/// memory cost of a run.
pub const READ_BUFFER_SIZE: usize = 64 * 1024 * 1024;

/// Raw buffers that the prefetcher's pool starts with. More than one, so
/// that reading goes on while a chunk is being parsed.
pub const RAW_POOL_SEED: usize = 2;

/// The smaller of two numbers.
pub open spec fn smaller(a: nat, b: nat) -> nat {
    if a <= b {
        a
    } else {
        b
    }
}

/// The sizes of the chunks that `remaining` bytes are read in: full chunks
/// of `read_size`, then one partial chunk if bytes are left.
pub open spec fn chunk_plan(remaining: nat, read_size: nat) -> Seq<nat>
    decreases remaining,
{
    if remaining == 0 || read_size == 0 {
        Seq::empty()
    } else {
        seq![smaller(remaining, read_size)] + chunk_plan(
            (remaining - smaller(remaining, read_size)) as nat,
            read_size,
        )
    }
}

/// The sum of the numbers in `sizes`.
pub open spec fn total(sizes: Seq<nat>) -> nat
    decreases sizes.len(),
{
    if sizes.len() == 0 {
        0
    } else {
        total(sizes.drop_last()) + sizes.last()
    }
}

/// What a prefetcher stands at.
pub struct PrefetchView {
    /// Bytes of the file not yet planned for.
    pub remaining: nat,
    /// Size of a full chunk.
    pub read_size: nat,
    /// The ledger of the raw buffer pool.
    pub pool: PoolCounts,
}

/// Plans the sequential reads of the rest of a file and owns the pool of
/// raw buffers that the reads fill.
pub struct PrefetchReader {
    file_len: usize,
    processed_len: usize,
    read_size: usize,
    pool: BufferPool<u8>,
}

impl View for PrefetchReader {
    type V = PrefetchView;

    closed spec fn view(&self) -> PrefetchView {
        PrefetchView {
            remaining: (self.file_len - self.processed_len) as nat,
            read_size: self.read_size as nat,
            pool: self.pool@,
        }
    }
}

impl PrefetchReader {
    /// The position lies inside the file, a chunk has a size, and the pool
    /// is sound.
    pub closed spec fn wf(&self) -> bool {
        &&& self.processed_len <= self.file_len
        &&& self.read_size > 0
        &&& self.pool.wf()
        &&& self.pool.capacity() == self.read_size
        &&& self.pool@.seeded == RAW_POOL_SEED
    }

    /// A prefetcher for a file of `file_len` bytes of which the first
    /// `processed_len` were read already, with a pool of two buffers.
    pub fn new(file_len: usize, processed_len: usize, read_size: usize) -> (reader: Self)
        requires
            processed_len <= file_len,
            read_size > 0,
        ensures
            reader.wf(),
            reader@ == (PrefetchView {
                remaining: (file_len - processed_len) as nat,
                read_size: read_size as nat,
                pool: PoolCounts {
                    pooled: RAW_POOL_SEED as nat,
                    in_flight: 0,
                    seeded: RAW_POOL_SEED as nat,
                    allocated: 0,
                },
            }),
    {
        PrefetchReader {
            file_len,
            processed_len,
            read_size,
            pool: BufferPool::seeded(RAW_POOL_SEED, read_size),
        }
    }

    /// The size of the next read, or `None` at the end of the file.
    pub fn next_size(&self) -> (size: Option<usize>)
        requires
            self.wf(),
        ensures
            self@.remaining == 0 ==> size is None,
            self@.remaining > 0 ==> size == Some(smaller(self@.remaining, self@.read_size) as usize),
            size is Some ==> chunk_plan(self@.remaining, self@.read_size).len() > 0 && size.unwrap()
                == chunk_plan(self@.remaining, self@.read_size)[0],
    {
        let remaining = self.file_len - self.processed_len;
        if remaining == 0 {
            None
        } else if remaining > self.read_size {
            Some(self.read_size)
        } else {
            Some(remaining)
        }
    }

    /// Whether the pool can hand out one more buffer.
    pub fn can_continue(&self) -> (ok: bool)
        requires
            self.wf(),
        ensures
            ok == (self@.pool.pooled > 0 || self@.pool.created() < usize::MAX),
    {
        self.pool.can_acquire()
    }

    /// The buffer for the next read, zero-filled to the size of that read,
    /// or `None` at the end of the file. Buffers that came back on
    /// `returned` are pooled first; a new buffer is created only if the
    /// pool is empty after that. The position moves past the planned read.
    pub fn next_chunk(&mut self, returned: &Receiver<Vec<u8>>) -> (chunk: Option<Vec<u8>>)
        requires
            old(self).wf(),
            old(self)@.pool.pooled > 0 || old(self)@.pool.created() < usize::MAX,
        ensures
            final(self).wf(),
            final(self)@.read_size == old(self)@.read_size,
            final(self)@.pool.seeded == old(self)@.pool.seeded,
            old(self)@.remaining == 0 ==> chunk is None && final(self)@ == old(self)@,
            old(self)@.remaining > 0 ==> {
                let size = smaller(old(self)@.remaining, old(self)@.read_size);
                &&& chunk is Some
                &&& chunk.unwrap()@ == Seq::new(size, |i: int| 0u8)
                &&& final(self)@.remaining == old(self)@.remaining - size
                &&& chunk_plan(final(self)@.remaining, final(self)@.read_size) == chunk_plan(
                    old(self)@.remaining,
                    old(self)@.read_size,
                ).drop_first()
                &&& old(self)@.pool.allocated <= final(self)@.pool.allocated <= old(
                    self,
                )@.pool.allocated + 1
                &&& old(self)@.pool.pooled > 0 ==> final(self)@.pool.allocated == old(
                    self,
                )@.pool.allocated
            },
    {
        match self.next_size() {
            None => None,
            Some(size) => {
                self.pool.reclaim(returned);
                let mut buffer = self.pool.acquire();
                buffer.resize(size, 0u8);
                self.processed_len = self.processed_len + size;
                proof {
                    let plan = chunk_plan(old(self)@.remaining, old(self)@.read_size);
                    assert(plan.drop_first() =~= chunk_plan(
                        (old(self)@.remaining - size) as nat,
                        old(self)@.read_size,
                    ));
                }
                Some(buffer)
            },
        }
    }
}

/// The raw buffers in the pool and in flight are at every moment the two
/// that the pool was seeded with and those created on demand.
pub proof fn law_raw_buffers_are_accounted_for(reader: PrefetchReader)
    requires
        reader.wf(),
    ensures
        reader@.pool.pooled + reader@.pool.in_flight == RAW_POOL_SEED + reader@.pool.allocated,
{
    law_ledger_balances(reader.pool);
}

/// The planned chunks are not empty, none is larger than a full chunk, and
/// together they hold every remaining byte.
pub proof fn law_plan_covers_remaining(remaining: nat, read_size: nat)
    requires
        read_size > 0,
    ensures
        total(chunk_plan(remaining, read_size)) == remaining,
        forall|i: int|
            0 <= i < chunk_plan(remaining, read_size).len() ==> 0 < #[trigger] chunk_plan(
                remaining,
                read_size,
            )[i] <= read_size,
    decreases remaining,
{
    if remaining > 0 {
        let first = smaller(remaining, read_size);
        let rest = chunk_plan((remaining - first) as nat, read_size);
        law_plan_covers_remaining((remaining - first) as nat, read_size);
        lemma_total_prepend(first, rest);
    }
}

/// The total of a sequence with one number put in front.
proof fn lemma_total_prepend(first: nat, rest: Seq<nat>)
    ensures
        total(seq![first] + rest) == first + total(rest),
    decreases rest.len(),
{
    let whole = seq![first] + rest;
    if rest.len() == 0 {
        assert(whole.drop_last() =~= Seq::<nat>::empty());
        assert(total(whole.drop_last()) == 0);
    } else {
        assert(whole.drop_last() =~= seq![first] + rest.drop_last());
        lemma_total_prepend(first, rest.drop_last());
    }
}

} // verus!
