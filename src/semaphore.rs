//! The admission state of a counting semaphore.
//!
//! `acquire` and `release` of a blocking semaphore each run one transition of this
//! state under the semaphore's mutex: an `acquire` that finds no free slot waits on
//! the condition variable and asks again after the next `release`.

use vstd::prelude::*;

verus! {

/// Abstract state of a semaphore: holders currently admitted, and the capacity.
pub struct SemState {
    pub count: nat,
    pub max: nat,
}

/// The state of a fresh semaphore of capacity `max`.
pub open spec fn sem_init(max: nat) -> SemState {
    SemState { count: 0, max }
}

/// One `acquire` attempt: it admits the caller exactly when a slot is free.
pub open spec fn acquire_step(s: SemState) -> (SemState, bool) {
    if s.count < s.max {
        (SemState { count: s.count + 1, max: s.max }, true)
    } else {
        (s, false)
    }
}

/// One `release` by a holder: it frees one slot.
pub open spec fn release_step(s: SemState) -> SemState {
    SemState { count: (s.count - 1) as nat, max: s.max }
}

/// A request made to a semaphore by a thread, named by a number.
pub enum SemOp {
    Acquire(nat),
    Release(nat),
}

/// Applies one request to the semaphore state and the set of threads inside
/// (between a successful `acquire` and their `release`). An `acquire` by a thread
/// already inside, or a `release` by one outside, is not a request of a correct
/// caller and changes nothing.
pub open spec fn apply_op(s: SemState, inside: Set<nat>, op: SemOp) -> (SemState, Set<nat>) {
    match op {
        SemOp::Acquire(t) => if inside.contains(t) {
            (s, inside)
        } else {
            let (s2, admitted) = acquire_step(s);
            if admitted {
                (s2, inside.insert(t))
            } else {
                (s2, inside)
            }
        },
        SemOp::Release(t) => if inside.contains(t) {
            (release_step(s), inside.remove(t))
        } else {
            (s, inside)
        },
    }
}

/// The semaphore state and the threads inside after a run of requests.
pub open spec fn run_ops(s: SemState, inside: Set<nat>, ops: Seq<SemOp>) -> (SemState, Set<nat>)
    decreases ops.len(),
{
    if ops.len() == 0 {
        (s, inside)
    } else {
        let (s2, in2) = apply_op(s, inside, ops[0]);
        run_ops(s2, in2, ops.drop_first())
    }
}

proof fn lemma_run_keeps_bound(s: SemState, inside: Set<nat>, ops: Seq<SemOp>)
    requires
        inside.finite(),
        inside.len() == s.count,
        s.count <= s.max,
    ensures
        run_ops(s, inside, ops).1.finite(),
        run_ops(s, inside, ops).1.len() == run_ops(s, inside, ops).0.count,
        run_ops(s, inside, ops).0.count <= s.max,
        run_ops(s, inside, ops).0.max == s.max,
    decreases ops.len(),
{
    if ops.len() > 0 {
        let (s2, in2) = apply_op(s, inside, ops[0]);
        match ops[0] {
            SemOp::Acquire(t) => {},
            SemOp::Release(t) => {
                if inside.contains(t) {
                    assert(inside.len() > 0) by {
                        vstd::set_lib::lemma_set_empty_equivalency_len(inside);
                    }
                }
            },
        }
        lemma_run_keeps_bound(s2, in2, ops.drop_first());
    }
}

/// Admission bound: whatever requests any number of threads make, in any order,
/// to a semaphore created with capacity `max`, the number of threads inside never
/// exceeds `max`, and it is exactly the semaphore's count.
pub proof fn lemma_admission_bound(max: nat, ops: Seq<SemOp>)
    requires
        max > 0,
    ensures
        run_ops(sem_init(max), Set::empty(), ops).1.finite(),
        run_ops(sem_init(max), Set::empty(), ops).1.len() <= max,
        run_ops(sem_init(max), Set::empty(), ops).1.len() == run_ops(
            sem_init(max),
            Set::empty(),
            ops,
        ).0.count,
{
    lemma_run_keeps_bound(sem_init(max), Set::empty(), ops);
}

/// Counting semaphore state: `count` holders admitted out of at most `max`.
pub struct Semaphore {
    count: usize,
    max: usize,
}

impl View for Semaphore {
    type V = SemState;

    closed spec fn view(&self) -> SemState {
        SemState { count: self.count as nat, max: self.max as nat }
    }
}

impl Semaphore {
    /// Well formed: the capacity is positive and never exceeded.
    pub open spec fn wf(&self) -> bool {
        0 < self@.max && self@.count <= self@.max
    }

    /// A semaphore of capacity `max` with nobody admitted.
    pub fn new(max: usize) -> (r: Semaphore)
        requires
            max > 0,
        ensures
            r@ == sem_init(max as nat),
            r.wf(),
    {
        Semaphore { count: 0, max }
    }

    /// Tries to admit one more holder; `true` when admitted, `false` when the caller
    /// has to wait for a `release`.
    pub fn try_acquire(&mut self) -> (r: bool)
        requires
            old(self).wf(),
        ensures
            (final(self)@, r) == acquire_step(old(self)@),
            final(self).wf(),
    {
        if self.count < self.max {
            self.count = self.count + 1;
            true
        } else {
            false
        }
    }

    /// A holder leaves; one waiting `acquire` may then be woken.
    pub fn release(&mut self)
        requires
            old(self).wf(),
            old(self)@.count > 0,
        ensures
            final(self)@ == release_step(old(self)@),
            final(self).wf(),
    {
        self.count = self.count - 1;
    }

    /// Number of holders currently admitted.
    pub fn count(&self) -> (r: usize)
        ensures
            r == self@.count,
    {
        self.count
    }

    /// Capacity fixed at construction.
    pub fn max(&self) -> (r: usize)
        ensures
            r == self@.max,
    {
        self.max
    }
}

} // verus!
