//! Recycling pools of reusable containers.
//!
//! A producer owns a pool. It takes a container out, fills it and sends it
//! downstream; the consumer empties it and sends it back on a return
//! channel; the producer puts what came back into the pool again. A
//! container is held by one party at a time: taking it out of the pool and
//! sending it both move it.

use vstd::prelude::*;
use crossbeam_channel::{Receiver, TryRecvError};

verus! {

/// The receiving end of a channel.
#[verifier::external_type_specification]
#[verifier::external_body]
#[verifier::reject_recursive_types(T)]
pub struct ExReceiver<T>(Receiver<T>);

/// Why nothing was received without waiting.
#[verifier::external_type_specification]
#[verifier::external_body]
pub struct ExTryRecvError(TryRecvError);

/// `Receiver::try_recv` takes a message if one is waiting and never blocks.
/// Whether one is waiting, and which, is up to the sending side: nothing is
/// promised of the result.
pub assume_specification<T>[ Receiver::<T>::try_recv ](receiver: &Receiver<T>) -> (result: Result<
    T,
    TryRecvError,
>)
;

/// What a pool has counted.
pub struct PoolCounts {
    /// Containers lying in the pool.
    pub pooled: nat,
    /// Containers taken out and not yet put back.
    pub in_flight: nat,
    /// Containers the pool was created with.
    pub seeded: nat,
    /// Containers created later, when one was asked for and none lay in the
    /// pool.
    pub allocated: nat,
}

impl PoolCounts {
    /// Every container ever created.
    pub open spec fn created(self) -> nat {
        self.seeded + self.allocated
    }

    /// Every container ever created is either in the pool or in flight.
    pub open spec fn balanced(self) -> bool {
        self.pooled + self.in_flight == self.created()
    }

    /// The counts after `reclaimed` of the containers in flight have come
    /// back into the pool.
    pub open spec fn with_reclaimed(self, reclaimed: nat) -> PoolCounts
        recommends
            reclaimed <= self.in_flight,
    {
        PoolCounts {
            pooled: self.pooled + reclaimed,
            in_flight: (self.in_flight - reclaimed) as nat,
            ..self
        }
    }

    /// The counts after one container has been taken out: one from the
    /// pool if one lies there, else a newly created one.
    pub open spec fn with_one_taken(self) -> PoolCounts {
        if self.pooled > 0 {
            PoolCounts {
                pooled: (self.pooled - 1) as nat,
                in_flight: self.in_flight + 1,
                ..self
            }
        } else {
            PoolCounts { in_flight: self.in_flight + 1, allocated: self.allocated + 1, ..self }
        }
    }
}

/// A pool of reusable `Vec<T>` containers with its ledger.
pub struct BufferPool<T> {
    free: Vec<Vec<T>>,
    capacity: usize,
    seeded: usize,
    allocated: usize,
    in_flight: usize,
}

impl<T> View for BufferPool<T> {
    type V = PoolCounts;

    closed spec fn view(&self) -> PoolCounts {
        PoolCounts {
            pooled: self.free@.len(),
            in_flight: self.in_flight as nat,
            seeded: self.seeded as nat,
            allocated: self.allocated as nat,
        }
    }
}

impl<T> BufferPool<T> {
    /// The ledger balances, its counts fit the machine, and every pooled
    /// container is empty.
    pub closed spec fn wf(&self) -> bool {
        &&& self@.balanced()
        &&& self@.created() <= usize::MAX
        &&& forall|i: int| 0 <= i < self.free@.len() ==> (#[trigger] self.free@[i])@.len() == 0
    }

    /// The capacity that a newly created container gets.
    pub closed spec fn capacity(&self) -> nat {
        self.capacity as nat
    }

    /// A pool seeded with `count` empty containers of the given capacity.
    pub fn seeded(count: usize, capacity: usize) -> (pool: Self)
        ensures
            pool.wf(),
            pool.capacity() == capacity,
            pool@ == (PoolCounts {
                pooled: count as nat,
                in_flight: 0,
                seeded: count as nat,
                allocated: 0,
            }),
    {
        let mut free: Vec<Vec<T>> = Vec::new();
        let mut i: usize = 0;
        while i < count
            invariant
                i <= count,
                free@.len() == i,
                forall|k: int| 0 <= k < free@.len() ==> (#[trigger] free@[k])@.len() == 0,
            decreases count - i,
        {
            free.push(Vec::with_capacity(capacity));
            i += 1;
        }
        BufferPool { free, capacity, seeded: count, allocated: 0, in_flight: 0 }
    }

    /// How many containers are out.
    pub fn in_flight(&self) -> (n: usize)
        ensures
            n == self@.in_flight,
    {
        self.in_flight
    }

    /// How many containers were created on demand.
    pub fn allocated(&self) -> (n: usize)
        ensures
            n == self@.allocated,
    {
        self.allocated
    }

    /// How many containers lie in the pool.
    pub fn pooled(&self) -> (n: usize)
        ensures
            n == self@.pooled,
    {
        self.free.len()
    }

    /// Whether one more container can be taken out and counted.
    pub fn can_acquire(&self) -> (ok: bool)
        requires
            self.wf(),
        ensures
            ok == (self@.pooled > 0 || self@.created() < usize::MAX),
    {
        self.free.len() > 0 || self.seeded < usize::MAX - self.allocated
    }

    /// Takes an empty container out: one from the pool if one lies there,
    /// else a newly created one.
    pub fn acquire(&mut self) -> (buffer: Vec<T>)
        requires
            old(self).wf(),
            old(self)@.pooled > 0 || old(self)@.created() < usize::MAX,
        ensures
            final(self).wf(),
            final(self).capacity() == old(self).capacity(),
            buffer@.len() == 0,
            final(self)@.seeded == old(self)@.seeded,
            final(self)@.in_flight == old(self)@.in_flight + 1,
            old(self)@.pooled > 0 ==> final(self)@.pooled == old(self)@.pooled - 1
                && final(self)@.allocated == old(self)@.allocated,
            old(self)@.pooled == 0 ==> final(self)@.pooled == 0 && final(self)@.allocated == old(
                self,
            )@.allocated + 1,
    {
        match self.free.pop() {
            Some(buffer) => {
                self.in_flight = self.in_flight + 1;
                buffer
            },
            None => {
                self.allocated = self.allocated + 1;
                self.in_flight = self.in_flight + 1;
                Vec::with_capacity(self.capacity)
            },
        }
    }

    /// Puts a container that was taken out back into the pool, emptied.
    pub fn release(&mut self, buffer: Vec<T>)
        requires
            old(self).wf(),
            old(self)@.in_flight > 0,
        ensures
            final(self).wf(),
            final(self).capacity() == old(self).capacity(),
            final(self)@ == (PoolCounts {
                pooled: old(self)@.pooled + 1,
                in_flight: (old(self)@.in_flight - 1) as nat,
                ..old(self)@
            }),
    {
        let mut buffer = buffer;
        buffer.clear();
        self.free.push(buffer);
        self.in_flight = self.in_flight - 1;
    }

    /// Puts back what the consumer has returned so far, without waiting.
    /// No more is taken from the channel than is in flight, so nothing is
    /// taken while nothing is in flight. How many containers are taken is
    /// up to the channel; each one taken leaves the count of those in
    /// flight and enters the pool, emptied.
    pub fn reclaim(&mut self, returned: &Receiver<Vec<T>>)
        requires
            old(self).wf(),
        ensures
            final(self).wf(),
            final(self).capacity() == old(self).capacity(),
            final(self)@.in_flight <= old(self)@.in_flight,
            final(self)@ == old(self)@.with_reclaimed(
                (old(self)@.in_flight - final(self)@.in_flight) as nat,
            ),
    {
        while self.in_flight > 0
            invariant
                self.wf(),
                self.capacity() == old(self).capacity(),
                self@.in_flight <= old(self)@.in_flight,
                self@ == old(self)@.with_reclaimed(
                    (old(self)@.in_flight - self@.in_flight) as nat,
                ),
            decreases self.in_flight,
        {
            match returned.try_recv() {
                Ok(buffer) => {
                    self.release(buffer);
                },
                Err(_) => {
                    return ;
                },
            }
        }
    }
}

/// At every moment the containers in the pool and those in flight are
/// exactly the containers ever created: the seeded ones and those created
/// on demand.
pub proof fn law_ledger_balances<T>(pool: BufferPool<T>)
    requires
        pool.wf(),
    ensures
        pool@.pooled + pool@.in_flight == pool@.seeded + pool@.allocated,
{
}

} // verus!
