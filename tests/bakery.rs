use sync_guides::bakery::{access, advance, Access, BakeryLock, Phase, Seen};

/// Runs `n` participants, each entering the critical section `loops` times, one
/// atomic step at a time in the order `pick` chooses; returns the shared counter
/// and each participant's number of entries.
fn run(n: usize, loops: usize, pick: impl Fn(usize) -> usize) -> (usize, Vec<usize>) {
    let mut lock = BakeryLock::new(n);
    let mut done = vec![0usize; n];
    let mut counter = 0usize;
    let mut tick = 0usize;
    while done.iter().any(|d| *d < loops) {
        assert!(tick < 10_000_000, "no progress");
        let i = pick(tick) % n;
        tick += 1;
        if lock.phase(i) == Phase::Idle && done[i] == loops {
            continue;
        }
        if lock.in_critical(i) {
            let inside = (0..n).filter(|j| lock.in_critical(*j)).count();
            assert_eq!(inside, 1);
            let c = counter;
            counter = c + 1;
            done[i] += 1;
        }
        lock.step(i);
    }
    (counter, done)
}

#[test]
fn fresh_lock_is_idle() {
    let lock = BakeryLock::new(4);
    assert_eq!(lock.participants(), 4);
    for i in 0..4 {
        assert_eq!(lock.phase(i), Phase::Idle);
        assert!(!lock.in_critical(i));
    }
}

#[test]
fn lone_participant_enters() {
    let mut lock = BakeryLock::new(3);
    let mut steps = 0;
    while !lock.in_critical(1) {
        lock.step(1);
        steps += 1;
        assert!(steps < 100);
    }
    assert_eq!(lock.phase(1), Phase::Critical { ticket: 1 });
    lock.step(1);
    assert_eq!(lock.phase(1), Phase::Idle);
}

#[test]
fn round_robin_counts_every_entry() {
    let (count, done) = run(4, 100, |t| t);
    assert_eq!(count, 400);
    assert_eq!(done, vec![100; 4]);
}

#[test]
fn scrambled_schedule_counts_every_entry() {
    let (count, done) = run(4, 50, |t| t.wrapping_mul(2654435761usize) >> 7);
    assert_eq!(count, 200);
    assert_eq!(done, vec![50; 4]);
}

#[test]
fn bursty_schedule_counts_every_entry() {
    let (count, done) = run(3, 30, |t| (t / 5) % 3 + (t / 17) % 2);
    assert_eq!(count, 90);
    assert_eq!(done, vec![30; 3]);
}

#[test]
fn ticket_is_one_more_than_largest_seen() {
    let mut p = Phase::Idle;
    assert_eq!(access(p, 0, 3), Access::SetEntering(true));
    p = advance(p, 0, 3, Seen::Done);
    assert_eq!(p, Phase::Doorway { scan: 0, max: 0 });
    for t in [Some(4u64), None, Some(9u64)] {
        p = advance(p, 0, 3, Seen::Ticket(t));
    }
    assert_eq!(p, Phase::Doorway { scan: 3, max: 9 });
    assert_eq!(access(p, 0, 3), Access::SetTicket(Some(10)));
    p = advance(p, 0, 3, Seen::Done);
    assert_eq!(p, Phase::Chosen { ticket: 10 });
    assert_eq!(access(p, 0, 3), Access::SetEntering(false));
}

#[test]
fn equal_tickets_go_by_index() {
    // participant 2 holding ticket 5 waits on participant 1 holding ticket 5
    let p = Phase::WaitTicket { other: 1, ticket: 5 };
    assert_eq!(access(p, 2, 3), Access::ReadTicket(1));
    assert_eq!(advance(p, 2, 3, Seen::Ticket(Some(5))), p);
    // participant 1 holding ticket 5 passes participant 2 holding ticket 5
    let q = Phase::WaitTicket { other: 2, ticket: 5 };
    assert_eq!(
        advance(q, 1, 3, Seen::Ticket(Some(5))),
        Phase::WaitEntering { other: 3, ticket: 5 }
    );
    // a smaller ticket is waited for, a larger one or none is passed
    assert_eq!(advance(q, 1, 3, Seen::Ticket(Some(4))), q);
    assert_eq!(
        advance(q, 1, 3, Seen::Ticket(Some(6))),
        Phase::WaitEntering { other: 3, ticket: 5 }
    );
    assert_eq!(
        advance(q, 1, 3, Seen::Ticket(None)),
        Phase::WaitEntering { other: 3, ticket: 5 }
    );
}

#[test]
fn waits_while_other_is_choosing() {
    let p = Phase::WaitEntering { other: 0, ticket: 2 };
    assert_eq!(access(p, 1, 2), Access::ReadEntering(0));
    assert_eq!(advance(p, 1, 2, Seen::Flag(true)), p);
    assert_eq!(
        advance(p, 1, 2, Seen::Flag(false)),
        Phase::WaitTicket { other: 0, ticket: 2 }
    );
    // its own slot is skipped without a read
    let own = Phase::WaitEntering { other: 1, ticket: 2 };
    assert_eq!(access(own, 1, 2), Access::Nothing);
    assert_eq!(advance(own, 1, 2, Seen::Done), Phase::WaitEntering { other: 2, ticket: 2 });
    let last = Phase::WaitEntering { other: 2, ticket: 2 };
    assert_eq!(advance(last, 1, 2, Seen::Done), Phase::Critical { ticket: 2 });
    assert_eq!(access(Phase::Critical { ticket: 2 }, 1, 2), Access::SetTicket(None));
}

#[test]
fn ticket_at_the_limit_is_never_published() {
    let p = Phase::Doorway { scan: 2, max: u64::MAX };
    assert_eq!(access(p, 0, 2), Access::Nothing);
    assert_eq!(advance(p, 0, 2, Seen::Done), p);
}
