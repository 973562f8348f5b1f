//! Lamport's bakery lock as a verified state machine.
//!
//! Each participant runs a small program of single memory accesses to the shared
//! arrays `entering` and `tickets`: announce that it is choosing, read every ticket,
//! publish one more than the largest, withdraw the announcement, then for each other
//! participant wait while it is choosing and while it holds a smaller ticket (ties
//! broken by index). [`access`] says which memory access a participant's phase
//! performs next and [`advance`] gives the phase that follows from what it saw; a
//! runtime performs the accesses with full fences between them. [`BakeryLock`]
//! holds the shared arrays together with every participant's phase, so that any
//! interleaving of single steps can be run, and keeps the invariant from which
//! mutual exclusion follows.

use vstd::prelude::*;

verus! {

/// Where a participant stands in its lock/unlock program.
#[derive(Clone, Copy, PartialEq, Eq, Structural, Debug)]
pub enum Phase {
    /// Not holding and not asking for the lock.
    Idle,
    /// Announced as choosing; reading `tickets[scan]` next, largest seen so far `max`.
    Doorway { scan: usize, max: u64 },
    /// Published `ticket`; the announcement is withdrawn next.
    Chosen { ticket: u64 },
    /// Waiting while participant `other` is choosing.
    WaitEntering { other: usize, ticket: u64 },
    /// Waiting while participant `other` holds a ticket ahead of its own.
    WaitTicket { other: usize, ticket: u64 },
    /// Inside the critical section; leaving clears its ticket.
    Critical { ticket: u64 },
}

/// The single memory access that a phase performs next.
#[derive(Clone, Copy, PartialEq, Eq, Structural, Debug)]
pub enum Access {
    /// Write the participant's own `entering` flag.
    SetEntering(bool),
    /// Write the participant's own ticket.
    SetTicket(Option<u64>),
    /// Read `entering[j]`.
    ReadEntering(usize),
    /// Read `tickets[j]`.
    ReadTicket(usize),
    /// No shared memory is touched.
    Nothing,
}

/// What the access returned.
#[derive(Clone, Copy, PartialEq, Eq, Structural, Debug)]
pub enum Seen {
    Flag(bool),
    Ticket(Option<u64>),
    Done,
}

/// Whether ticket `a` of participant `i` comes before ticket `b` of participant `j`:
/// the smaller ticket first, equal tickets by the smaller index.
pub open spec fn precedes(a: u64, i: usize, b: u64, j: usize) -> bool {
    a < b || (a == b && i < j)
}

/// The larger of a running maximum and a ticket read, an empty slot counting as 0.
pub open spec fn max_with(m: u64, t: Option<u64>) -> u64 {
    match t {
        Some(v) => if v > m { v } else { m },
        None => m,
    }
}

/// The access performed next by participant `me` of `n` in phase `p`.
pub open spec fn access_spec(p: Phase, me: usize, n: usize) -> Access {
    match p {
        Phase::Idle => Access::SetEntering(true),
        Phase::Doorway { scan, max } => if scan < n {
            Access::ReadTicket(scan)
        } else if max < u64::MAX {
            Access::SetTicket(Some((max + 1) as u64))
        } else {
            Access::Nothing
        },
        Phase::Chosen { ticket } => Access::SetEntering(false),
        Phase::WaitEntering { other, ticket } => if other < n && other != me {
            Access::ReadEntering(other)
        } else {
            Access::Nothing
        },
        Phase::WaitTicket { other, ticket } => Access::ReadTicket(other),
        Phase::Critical { ticket } => Access::SetTicket(None),
    }
}

/// Whether `seen` is what the access `a` can return.
pub open spec fn fits(a: Access, seen: Seen) -> bool {
    match a {
        Access::ReadEntering(_) => seen is Flag,
        Access::ReadTicket(_) => seen is Ticket,
        _ => seen is Done,
    }
}

/// The phase that follows phase `p` of participant `me` of `n` once its access
/// returned `seen`. A ticket that would exceed `u64::MAX` is never published: the
/// participant stays where it is.
pub open spec fn advance_spec(p: Phase, me: usize, n: usize, seen: Seen) -> Phase {
    match p {
        Phase::Idle => Phase::Doorway { scan: 0, max: 0 },
        Phase::Doorway { scan, max } => if scan < n {
            match seen {
                Seen::Ticket(t) => Phase::Doorway { scan: (scan + 1) as usize, max: max_with(max, t) },
                _ => p,
            }
        } else if max < u64::MAX {
            Phase::Chosen { ticket: (max + 1) as u64 }
        } else {
            p
        },
        Phase::Chosen { ticket } => Phase::WaitEntering { other: 0, ticket },
        Phase::WaitEntering { other, ticket } => if other >= n {
            Phase::Critical { ticket }
        } else if other == me {
            Phase::WaitEntering { other: (other + 1) as usize, ticket }
        } else {
            match seen {
                Seen::Flag(true) => p,
                _ => Phase::WaitTicket { other, ticket },
            }
        },
        Phase::WaitTicket { other, ticket } => match seen {
            Seen::Ticket(Some(t)) => if precedes(t, other, ticket, me) {
                p
            } else {
                Phase::WaitEntering { other: (other + 1) as usize, ticket }
            },
            _ => Phase::WaitEntering { other: (other + 1) as usize, ticket },
        },
        Phase::Critical { ticket } => Phase::Idle,
    }
}

/// Whether a participant in phase `p` of `n` participants is in a phase its program
/// can reach (its loop positions in range).
pub open spec fn phase_in_range(p: Phase, me: usize, n: usize) -> bool {
    match p {
        Phase::Doorway { scan, max } => scan <= n,
        Phase::WaitEntering { other, ticket } => other <= n,
        Phase::WaitTicket { other, ticket } => other < n && other != me,
        _ => true,
    }
}

/// The memory access that participant `me` of `n` performs next in phase `p`.
pub fn access(p: Phase, me: usize, n: usize) -> (r: Access)
    ensures
        r == access_spec(p, me, n),
{
    match p {
        Phase::Idle => Access::SetEntering(true),
        Phase::Doorway { scan, max } => if scan < n {
            Access::ReadTicket(scan)
        } else if max < u64::MAX {
            Access::SetTicket(Some(max + 1))
        } else {
            Access::Nothing
        },
        Phase::Chosen { ticket: _ } => Access::SetEntering(false),
        Phase::WaitEntering { other, ticket: _ } => if other < n && other != me {
            Access::ReadEntering(other)
        } else {
            Access::Nothing
        },
        Phase::WaitTicket { other, ticket: _ } => Access::ReadTicket(other),
        Phase::Critical { ticket: _ } => Access::SetTicket(None),
    }
}

/// The phase that follows `p` for participant `me` of `n` after its access
/// returned `seen`.
pub fn advance(p: Phase, me: usize, n: usize, seen: Seen) -> (r: Phase)
    requires
        phase_in_range(p, me, n),
        fits(access_spec(p, me, n), seen),
    ensures
        r == advance_spec(p, me, n, seen),
        phase_in_range(r, me, n),
{
    match p {
        Phase::Idle => Phase::Doorway { scan: 0, max: 0 },
        Phase::Doorway { scan, max } => if scan < n {
            match seen {
                Seen::Ticket(t) => {
                    let m = match t {
                        Some(v) => if v > max { v } else { max },
                        None => max,
                    };
                    Phase::Doorway { scan: scan + 1, max: m }
                },
                _ => p,
            }
        } else if max < u64::MAX {
            Phase::Chosen { ticket: max + 1 }
        } else {
            p
        },
        Phase::Chosen { ticket } => Phase::WaitEntering { other: 0, ticket },
        Phase::WaitEntering { other, ticket } => if other >= n {
            Phase::Critical { ticket }
        } else if other == me {
            Phase::WaitEntering { other: other + 1, ticket }
        } else {
            match seen {
                Seen::Flag(true) => p,
                _ => Phase::WaitTicket { other, ticket },
            }
        },
        Phase::WaitTicket { other, ticket } => match seen {
            Seen::Ticket(Some(t)) => if t < ticket || (t == ticket && other < me) {
                p
            } else {
                Phase::WaitEntering { other: other + 1, ticket }
            },
            _ => Phase::WaitEntering { other: other + 1, ticket },
        },
        Phase::Critical { ticket: _ } => Phase::Idle,
    }
}

/// Shared memory of the lock together with every participant's phase.
pub struct BakeryState {
    pub entering: Seq<bool>,
    pub tickets: Seq<Option<u64>>,
    pub phases: Seq<Phase>,
}

/// All participants idle, nobody choosing, no tickets.
pub open spec fn bakery_init(n: nat) -> BakeryState {
    BakeryState {
        entering: Seq::new(n, |i: int| false),
        tickets: Seq::new(n, |i: int| None),
        phases: Seq::new(n, |i: int| Phase::Idle),
    }
}

/// What the access `a` returns on the memory of `s`.
pub open spec fn observe(s: BakeryState, a: Access) -> Seen {
    match a {
        Access::ReadEntering(j) => Seen::Flag(s.entering[j as int]),
        Access::ReadTicket(j) => Seen::Ticket(s.tickets[j as int]),
        _ => Seen::Done,
    }
}

/// One atomic step of participant `i`: its access is performed on the shared memory
/// and its phase advances on what the access returned.
pub open spec fn bakery_step(s: BakeryState, i: int) -> BakeryState {
    let n = s.phases.len();
    let p = s.phases[i];
    let a = access_spec(p, i as usize, n as usize);
    let next = advance_spec(p, i as usize, n as usize, observe(s, a));
    match a {
        Access::SetEntering(b) => BakeryState {
            entering: s.entering.update(i, b),
            phases: s.phases.update(i, next),
            ..s
        },
        Access::SetTicket(t) => BakeryState {
            tickets: s.tickets.update(i, t),
            phases: s.phases.update(i, next),
            ..s
        },
        _ => BakeryState { phases: s.phases.update(i, next), ..s },
    }
}

/// The states after running the participants in the order `schedule` names them.
pub open spec fn bakery_run(s: BakeryState, schedule: Seq<int>) -> BakeryState
    decreases schedule.len(),
{
    if schedule.len() == 0 {
        s
    } else {
        bakery_run(bakery_step(s, schedule[0]), schedule.drop_first())
    }
}

/// Whether a participant in phase `p` is inside the critical section.
pub open spec fn is_critical(p: Phase) -> bool {
    p is Critical
}

/// Whether phase `p` holds a published ticket.
pub open spec fn holds_ticket(p: Phase) -> bool {
    p is Chosen || p is WaitEntering || p is WaitTicket || p is Critical
}

/// The ticket held in phase `p` (0 where it holds none).
pub open spec fn ticket_of(p: Phase) -> u64 {
    match p {
        Phase::Chosen { ticket } => ticket,
        Phase::WaitEntering { other, ticket } => ticket,
        Phase::WaitTicket { other, ticket } => ticket,
        Phase::Critical { ticket } => ticket,
        _ => 0,
    }
}

/// Whether a participant in phase `p` has finished both of its waits on `j`.
pub open spec fn past_ticket(p: Phase, j: int) -> bool {
    match p {
        Phase::WaitEntering { other, ticket } => other > j,
        Phase::WaitTicket { other, ticket } => other > j,
        Phase::Critical { ticket } => true,
        _ => false,
    }
}

/// Whether a participant in phase `p` has at least seen `j` not choosing.
pub open spec fn past_flag(p: Phase, j: int) -> bool {
    past_ticket(p, j) || (p is WaitTicket && p->WaitTicket_other == j)
}

/// Participant `i`'s phase agrees with its own slots of shared memory.
pub open spec fn slot_ok(s: BakeryState, i: int) -> bool {
    let p = s.phases[i];
    &&& phase_in_range(p, i as usize, s.phases.len() as usize)
    &&& match p {
        Phase::Idle => !s.entering[i] && s.tickets[i] is None,
        Phase::Doorway { scan, max } => s.entering[i] && s.tickets[i] is None,
        Phase::Chosen { ticket } => s.entering[i] && s.tickets[i] == Some(ticket),
        _ => !s.entering[i] && s.tickets[i] == Some(ticket_of(p)),
    }
}

/// What a participant `i` that got past `j` knows of `j`: if `j` is choosing and has
/// already read `i`'s ticket, its running maximum is at least that ticket; and once
/// `i` is past both waits on `j`, any ticket `j` holds comes after `i`'s.
pub open spec fn pair_ok(s: BakeryState, i: int, j: int) -> bool {
    let pi = s.phases[i];
    let pj = s.phases[j];
    &&& (past_flag(pi, j) && pj is Doorway && pj->Doorway_scan > i) ==> pj->Doorway_max
        >= ticket_of(pi)
    &&& (past_ticket(pi, j) && holds_ticket(pj)) ==> precedes(
        ticket_of(pi),
        i as usize,
        ticket_of(pj),
        j as usize,
    )
}

/// The lock's invariant.
pub open spec fn bakery_inv(s: BakeryState) -> bool {
    &&& s.entering.len() == s.phases.len()
    &&& s.tickets.len() == s.phases.len()
    &&& s.phases.len() <= usize::MAX
    &&& forall|i: int| 0 <= i < s.phases.len() ==> #[trigger] slot_ok(s, i)
    &&& forall|i: int, j: int|
        0 <= i < s.phases.len() && 0 <= j < s.phases.len() && i != j ==> #[trigger] pair_ok(
            s,
            i,
            j,
        )
}

proof fn lemma_init_inv(n: nat)
    requires
        n <= usize::MAX,
    ensures
        bakery_inv(bakery_init(n)),
{
    let s = bakery_init(n);
    assert forall|i: int| 0 <= i < s.phases.len() implies #[trigger] slot_ok(s, i) by {}
    assert forall|i: int, j: int|
        0 <= i < s.phases.len() && 0 <= j < s.phases.len() && i != j implies #[trigger] pair_ok(
        s,
        i,
        j,
    ) by {}
}

proof fn lemma_step_inv(s: BakeryState, i: int)
    requires
        bakery_inv(s),
        0 <= i < s.phases.len(),
    ensures
        bakery_inv(bakery_step(s, i)),
        bakery_step(s, i).phases.len() == s.phases.len(),
{
    let n = s.phases.len();
    let s2 = bakery_step(s, i);
    assert(slot_ok(s, i));
    assert forall|a: int| 0 <= a < n implies #[trigger] slot_ok(s2, a) by {
        assert(slot_ok(s, a));
    }
    assert forall|a: int, b: int| 0 <= a < n && 0 <= b < n && a != b implies #[trigger] pair_ok(
        s2,
        a,
        b,
    ) by {
        assert(slot_ok(s, a));
        assert(slot_ok(s, b));
        assert(pair_ok(s, a, b));
        assert(pair_ok(s, b, a));
    }
}

/// Mutual exclusion: in any state of the invariant, two participants inside the
/// critical section are the same participant.
pub proof fn lemma_mutual_exclusion(s: BakeryState, i: int, j: int)
    requires
        bakery_inv(s),
        0 <= i < s.phases.len(),
        0 <= j < s.phases.len(),
        is_critical(s.phases[i]),
        is_critical(s.phases[j]),
    ensures
        i == j,
{
    if i != j {
        assert(pair_ok(s, i, j));
        assert(pair_ok(s, j, i));
    }
}

proof fn lemma_run_inv(s: BakeryState, schedule: Seq<int>)
    requires
        bakery_inv(s),
        forall|k: int| 0 <= k < schedule.len() ==> 0 <= #[trigger] schedule[k] < s.phases.len(),
    ensures
        bakery_inv(bakery_run(s, schedule)),
        bakery_run(s, schedule).phases.len() == s.phases.len(),
    decreases schedule.len(),
{
    if schedule.len() > 0 {
        assert(0 <= schedule[0] < s.phases.len());
        lemma_step_inv(s, schedule[0]);
        let rest = schedule.drop_first();
        assert forall|k: int| 0 <= k < rest.len() implies 0 <= #[trigger] rest[k] < s.phases.len() by {
            assert(rest[k] == schedule[k + 1]);
        }
        lemma_run_inv(bakery_step(s, schedule[0]), rest);
    }
}

/// Mutual exclusion over every interleaving: whatever order `n` participants take
/// their single steps in, starting from the idle lock, no two of them are ever
/// inside the critical section at once.
pub proof fn lemma_exclusion_on_every_schedule(n: nat, schedule: Seq<int>, i: int, j: int)
    requires
        n <= usize::MAX,
        forall|k: int| 0 <= k < schedule.len() ==> 0 <= #[trigger] schedule[k] < n,
        0 <= i < n,
        0 <= j < n,
        is_critical(bakery_run(bakery_init(n), schedule).phases[i]),
        is_critical(bakery_run(bakery_init(n), schedule).phases[j]),
    ensures
        i == j,
{
    lemma_init_inv(n);
    lemma_run_inv(bakery_init(n), schedule);
    lemma_mutual_exclusion(bakery_run(bakery_init(n), schedule), i, j);
}

/// Whether phase `p` is stuck because its ticket would exceed `u64::MAX`.
pub open spec fn at_ticket_limit(p: Phase, n: nat) -> bool {
    p is Doorway && p->Doorway_scan >= n && p->Doorway_max == u64::MAX
}

/// Among participants `0..k`, the one holding the first ticket in the order of
/// `precedes`, or -1 when none of them holds a ticket.
pub open spec fn least_holder(s: BakeryState, k: nat) -> int
    decreases k,
{
    if k == 0 {
        -1
    } else {
        let m = least_holder(s, (k - 1) as nat);
        let c = k - 1;
        if holds_ticket(s.phases[c]) && (m < 0 || precedes(
            ticket_of(s.phases[c]),
            c as usize,
            ticket_of(s.phases[m]),
            m as usize,
        )) {
            c
        } else {
            m
        }
    }
}

proof fn lemma_least_holder(s: BakeryState, k: nat)
    requires
        k <= s.phases.len() <= usize::MAX,
    ensures
        least_holder(s, k) == -1 ==> forall|j: int| 0 <= j < k ==> !holds_ticket(#[trigger] s.phases[j]),
        least_holder(s, k) != -1 ==> {
            let m = least_holder(s, k);
            &&& 0 <= m < k
            &&& holds_ticket(s.phases[m])
            &&& forall|j: int|
                0 <= j < k && j != m && holds_ticket(#[trigger] s.phases[j]) ==> precedes(
                    ticket_of(s.phases[m]),
                    m as usize,
                    ticket_of(s.phases[j]),
                    j as usize,
                )
        },
    decreases k,
{
    if k > 0 {
        lemma_least_holder(s, (k - 1) as nat);
    }
}

/// Progress, without deadlock: whenever some participant is asking for the lock
/// (or holds it), some participant asking for it takes a step that changes its
/// phase, provided no participant is stuck at the ticket limit. It is the holder of
/// the first ticket, or the participant it waits for while that one chooses, or a
/// participant still choosing.
pub proof fn lemma_progress(s: BakeryState, i: int)
    requires
        bakery_inv(s),
        0 <= i < s.phases.len(),
        !(s.phases[i] is Idle),
        forall|k: int| 0 <= k < s.phases.len() ==> !at_ticket_limit(#[trigger] s.phases[k], s.phases.len()),
    ensures
        exists|k: int|
            0 <= k < s.phases.len() && !(s.phases[k] is Idle) && #[trigger] bakery_step(s, k).phases[k]
                != s.phases[k],
{
    let n = s.phases.len();
    lemma_least_holder(s, n);
    let m = least_holder(s, n);
    assert(slot_ok(s, i));
    assert(!at_ticket_limit(s.phases[i], n));
    if m == -1 {
        assert(!holds_ticket(s.phases[i]));
        assert(bakery_step(s, i).phases[i] != s.phases[i]);
    } else {
        assert(slot_ok(s, m));
        assert(!at_ticket_limit(s.phases[m], n));
        match s.phases[m] {
            Phase::WaitEntering { other, ticket } => {
                if other < n && other != m && s.entering[other as int] {
                    let j = other as int;
                    assert(slot_ok(s, j));
                    assert(!at_ticket_limit(s.phases[j], n));
                    assert(bakery_step(s, j).phases[j] != s.phases[j]);
                } else {
                    assert(bakery_step(s, m).phases[m] != s.phases[m]);
                }
            },
            Phase::WaitTicket { other, ticket } => {
                let j = other as int;
                assert(slot_ok(s, j));
                assert(bakery_step(s, m).phases[m] != s.phases[m]);
            },
            _ => {
                assert(bakery_step(s, m).phases[m] != s.phases[m]);
            },
        }
    }
}

/// The bakery lock of a fixed number of participants: the shared `entering` flags
/// and tickets, and each participant's phase.
pub struct BakeryLock {
    entering: Vec<bool>,
    tickets: Vec<Option<u64>>,
    phases: Vec<Phase>,
}

impl View for BakeryLock {
    type V = BakeryState;

    closed spec fn view(&self) -> BakeryState {
        BakeryState { entering: self.entering@, tickets: self.tickets@, phases: self.phases@ }
    }
}

impl BakeryLock {
    /// Well formed: the lock's invariant holds.
    pub open spec fn wf(&self) -> bool {
        bakery_inv(self@)
    }

    /// A lock for `n` participants, all idle.
    pub fn new(n: usize) -> (r: BakeryLock)
        ensures
            r@ == bakery_init(n as nat),
            r.wf(),
    {
        let mut entering: Vec<bool> = Vec::new();
        let mut tickets: Vec<Option<u64>> = Vec::new();
        let mut phases: Vec<Phase> = Vec::new();
        let mut k: usize = 0;
        while k < n
            invariant
                k <= n,
                entering@ == Seq::new(k as nat, |i: int| false),
                tickets@ == Seq::new(k as nat, |i: int| None::<u64>),
                phases@ == Seq::new(k as nat, |i: int| Phase::Idle),
            decreases n - k,
        {
            entering.push(false);
            tickets.push(None);
            phases.push(Phase::Idle);
            k = k + 1;
            assert(entering@ =~= Seq::new(k as nat, |i: int| false));
            assert(tickets@ =~= Seq::new(k as nat, |i: int| None::<u64>));
            assert(phases@ =~= Seq::new(k as nat, |i: int| Phase::Idle));
        }
        let r = BakeryLock { entering, tickets, phases };
        proof {
            assert(r@ =~= bakery_init(n as nat));
            lemma_init_inv(n as nat);
        }
        r
    }

    /// Number of participants.
    pub fn participants(&self) -> (r: usize)
        requires
            self.wf(),
        ensures
            r == self@.phases.len(),
    {
        self.phases.len()
    }

    /// Participant `i`'s phase.
    pub fn phase(&self, i: usize) -> (r: Phase)
        requires
            self.wf(),
            i < self@.phases.len(),
        ensures
            r == self@.phases[i as int],
    {
        self.phases[i]
    }

    /// Whether participant `i` is inside the critical section.
    pub fn in_critical(&self, i: usize) -> (r: bool)
        requires
            self.wf(),
            i < self@.phases.len(),
        ensures
            r == is_critical(self@.phases[i as int]),
    {
        match self.phases[i] {
            Phase::Critical { ticket: _ } => true,
            _ => false,
        }
    }

    /// One atomic step of participant `i`: an idle participant starts asking for the
    /// lock, a waiting one checks again, and one inside the critical section leaves.
    pub fn step(&mut self, i: usize)
        requires
            old(self).wf(),
            i < old(self)@.phases.len(),
        ensures
            final(self)@ == bakery_step(old(self)@, i as int),
            final(self).wf(),
    {
        let ghost s = self@;
        proof {
            assert(slot_ok(s, i as int));
        }
        let n = self.phases.len();
        let p = self.phases[i];
        let a = access(p, i, n);
        let seen = match a {
            Access::ReadEntering(j) => Seen::Flag(self.entering[j]),
            Access::ReadTicket(j) => Seen::Ticket(self.tickets[j]),
            _ => Seen::Done,
        };
        let next = advance(p, i, n, seen);
        match a {
            Access::SetEntering(b) => {
                self.entering.set(i, b);
            },
            Access::SetTicket(t) => {
                self.tickets.set(i, t);
            },
            _ => {},
        }
        self.phases.set(i, next);
        proof {
            assert(self@ =~= bakery_step(s, i as int));
            lemma_step_inv(s, i as int);
        }
    }
}

} // verus!
