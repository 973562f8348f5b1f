//! The shared state of a bounded FIFO channel built on a counting semaphore.
//!
//! A `send` first reserves a slot with the semaphore (waiting while none is free),
//! then appends its value; a `recv` takes the front value, if any, and frees its
//! slot (waiting for a value while the queue is empty). A blocking runtime keeps
//! this state behind a mutex and performs each step under it.

use std::collections::VecDeque;
use vstd::prelude::*;
use crate::semaphore::{acquire_step, release_step, sem_init, SemState, Semaphore};

verus! {

/// Channel state: the slot semaphore, the queued values, and, as ghost history,
/// every value ever appended and every value ever taken, in order.
pub struct Channel<T> {
    sem: Semaphore,
    queue: VecDeque<T>,
    sent: Ghost<Seq<T>>,
    received: Ghost<Seq<T>>,
}

impl<T> Channel<T> {
    /// The slot semaphore's state: reserved slots and capacity.
    pub closed spec fn slots(&self) -> SemState {
        self.sem@
    }

    /// The values waiting in the channel, front first.
    pub closed spec fn queued(&self) -> Seq<T> {
        self.queue@
    }

    /// Every value appended so far, in the order of appending.
    pub closed spec fn sent(&self) -> Seq<T> {
        self.sent@
    }

    /// Every value taken so far, in the order of taking.
    pub closed spec fn received(&self) -> Seq<T> {
        self.received@
    }

    /// Well formed: the semaphore is, each queued value holds a reserved slot, and
    /// what was appended is what was taken followed by what is queued.
    pub closed spec fn wf(&self) -> bool {
        &&& self.sem.wf()
        &&& self.queue@.len() <= self.sem@.count
        &&& self.sent@ == self.received@ + self.queue@
    }

    /// An empty channel of the given capacity.
    pub fn new(capacity: usize) -> (r: Channel<T>)
        requires
            capacity > 0,
        ensures
            r.wf(),
            r.slots() == sem_init(capacity as nat),
            r.queued() == Seq::<T>::empty(),
            r.sent() == Seq::<T>::empty(),
            r.received() == Seq::<T>::empty(),
    {
        let r = Channel {
            sem: Semaphore::new(capacity),
            queue: VecDeque::new(),
            sent: Ghost(Seq::empty()),
            received: Ghost(Seq::empty()),
        };
        proof {
            assert(r.sent@ =~= r.received@ + r.queue@);
        }
        r
    }

    /// First half of a `send`: reserves a slot. `false` means the channel is full and
    /// the sender has to wait for a `recv`.
    pub fn try_reserve(&mut self) -> (r: bool)
        requires
            old(self).wf(),
        ensures
            final(self).wf(),
            (final(self).slots(), r) == acquire_step(old(self).slots()),
            final(self).queued() == old(self).queued(),
            final(self).sent() == old(self).sent(),
            final(self).received() == old(self).received(),
    {
        self.sem.try_acquire()
    }

    /// Second half of a `send`: appends `value` into a slot reserved before.
    pub fn deliver(&mut self, value: T)
        requires
            old(self).wf(),
            old(self).queued().len() < old(self).slots().count,
        ensures
            final(self).wf(),
            final(self).slots() == old(self).slots(),
            final(self).queued() == old(self).queued().push(value),
            final(self).sent() == old(self).sent().push(value),
            final(self).received() == old(self).received(),
    {
        let ghost v = value;
        self.queue.push_back(value);
        proof {
            self.sent@ = self.sent@.push(v);
            assert(self.sent@ =~= self.received@ + self.queue@);
        }
    }

    /// A `recv` step: takes the front value and frees its slot, or returns `None`
    /// when nothing is queued and the receiver has to wait for a `send`.
    pub fn try_recv(&mut self) -> (r: Option<T>)
        requires
            old(self).wf(),
        ensures
            final(self).wf(),
            old(self).queued().len() == 0 ==> {
                &&& r is None
                &&& final(self).queued() == old(self).queued()
                &&& final(self).slots() == old(self).slots()
                &&& final(self).sent() == old(self).sent()
                &&& final(self).received() == old(self).received()
            },
            old(self).queued().len() > 0 ==> {
                &&& r == Some(old(self).queued()[0])
                &&& final(self).queued() == old(self).queued().drop_first()
                &&& final(self).slots() == release_step(old(self).slots())
                &&& final(self).sent() == old(self).sent()
                &&& final(self).received() == old(self).received().push(old(self).queued()[0])
            },
    {
        let ghost q0 = self.queue@;
        match self.queue.pop_front() {
            Some(v) => {
                self.sem.release();
                proof {
                    self.received@ = self.received@.push(v);
                    assert(q0 == seq![v] + self.queue@) by {
                        assert(q0 =~= seq![v] + self.queue@);
                    }
                    assert(self.sent@ =~= self.received@ + self.queue@);
                }
                Some(v)
            },
            None => None,
        }
    }

    /// Number of queued values.
    pub fn len(&self) -> (r: usize)
        requires
            self.wf(),
        ensures
            r == self.queued().len(),
    {
        self.queue.len()
    }

    /// Whether nothing is queued.
    pub fn is_empty(&self) -> (r: bool)
        requires
            self.wf(),
        ensures
            r == (self.queued().len() == 0),
    {
        self.queue.len() == 0
    }

    /// The capacity the channel was created with.
    pub fn capacity(&self) -> (r: usize)
        requires
            self.wf(),
        ensures
            r == self.slots().max,
    {
        self.sem.max()
    }
}

/// The slot state after `k` consecutive `send` reservations with no `recv`, and
/// whether every one of them was admitted.
pub open spec fn reserve_times(s: SemState, k: nat) -> (SemState, bool)
    decreases k,
{
    if k == 0 {
        (s, true)
    } else {
        let (s1, all) = reserve_times(s, (k - 1) as nat);
        let (s2, ok) = acquire_step(s1);
        (s2, all && ok)
    }
}

proof fn lemma_reserve_times_fresh(c: nat, k: nat)
    requires
        k <= c,
    ensures
        reserve_times(sem_init(c), k) == (SemState { count: k, max: c }, true),
    decreases k,
{
    if k > 0 {
        lemma_reserve_times_fresh(c, (k - 1) as nat);
    }
}

/// FIFO: the values are taken in exactly the order in which they were appended, so
/// a single sender's `send(0), send(1), ..., send(k)` reach a receiver as `0, 1, ...`.
pub proof fn lemma_fifo_order<T>(ch: &Channel<T>)
    requires
        ch.wf(),
    ensures
        ch.received().len() <= ch.sent().len(),
        ch.received() == ch.sent().subrange(0, ch.received().len() as int),
        ch.queued() == ch.sent().subrange(ch.received().len() as int, ch.sent().len() as int),
{
    assert(ch.received() =~= ch.sent().subrange(0, ch.received().len() as int));
    assert(ch.queued() =~= ch.sent().subrange(
        ch.received().len() as int,
        ch.sent().len() as int,
    ));
}

/// Conservation: the values taken plus the values still queued are, as a multiset,
/// exactly the values appended: nothing is lost and nothing is duplicated.
pub proof fn lemma_conservation<T>(ch: &Channel<T>)
    requires
        ch.wf(),
    ensures
        ch.received().to_multiset().add(ch.queued().to_multiset()) == ch.sent().to_multiset(),
{
    vstd::seq_lib::lemma_multiset_commutative(ch.received(), ch.queued());
}

/// Backpressure: on a fresh channel of capacity `c`, `c` sends in a row are all
/// admitted without any `recv`; the next one is refused (its sender waits), and it
/// is admitted once a `recv` has freed a slot.
pub proof fn lemma_backpressure(c: nat)
    requires
        c > 0,
    ensures
        reserve_times(sem_init(c), c).1,
        !acquire_step(reserve_times(sem_init(c), c).0).1,
        acquire_step(release_step(reserve_times(sem_init(c), c).0)).1,
{
    lemma_reserve_times_fresh(c, c);
}

} // verus!
