use pomo::timer::{Notice, Phase, Pomo, Timer};

/// Drive the timer `n` ticks, returning every notification fired, in order,
/// including the one fired at start.
fn collect_notices(p: &Pomo, n: usize) -> Vec<Notice> {
    let (mut t, first) = p.start();
    let mut out = vec![first];
    for _ in 0..n {
        if let Some(notice) = t.tick() {
            out.push(notice);
        }
    }
    out
}

/// Drive the timer `n` ticks, recording the active phase during each tick.
fn collect_phases(p: &Pomo, n: usize) -> Vec<Phase> {
    let (mut t, _) = p.start();
    let mut out = Vec::new();
    for _ in 0..n {
        out.push(t.phase);
        t.tick();
    }
    out
}

#[test]
fn working_comes_first() {
    for (w, s, l, c) in [(25, 5, 20, 4), (1, 1, 1, 0), (1, 1, 1, 1), (3, 2, 4, 2)] {
        let p = Pomo::new(w, s, l, c);
        let (t, first) = p.start();
        assert_eq!(t.phase, Phase::Working);
        assert_eq!(first, Notice::StartWorking);
        assert_eq!(t.remaining, w);
        assert_eq!(t.cycles_remaining, c);
    }
}

#[test]
fn scenario_all_ones_two_cycles() {
    // w=1, s=1, l=1, c=2: each phase lasts one tick, and the long break
    // falls after every second work phase, forever.
    let p = Pomo::new(1, 1, 1, 2);
    let phases = collect_phases(&p, 8);
    assert_eq!(
        phases,
        vec![
            Phase::Working,
            Phase::ShortBreak,
            Phase::Working,
            Phase::LongBreak,
            Phase::Working,
            Phase::ShortBreak,
            Phase::Working,
            Phase::LongBreak,
        ]
    );
}

#[test]
fn scenario_no_long_break_when_cycles_disabled() {
    // c=0 and c=1 both disable long breaks: no LongBreak over many phases.
    for c in [0, 1] {
        let p = Pomo::new(2, 1, 3, c);
        let (mut t, _) = p.start();
        for _ in 0..500 {
            assert_ne!(t.phase, Phase::LongBreak);
            let notice = t.tick();
            assert_ne!(notice, Some(Notice::TakeLongBreak));
        }
    }
}

#[test]
fn phase_lasts_exactly_its_duration() {
    let p = Pomo::new(3, 2, 4, 2);
    let phases = collect_phases(&p, 3 + 2 + 3 + 4 + 3);
    let mut expected = Vec::new();
    expected.extend(std::iter::repeat(Phase::Working).take(3));
    expected.extend(std::iter::repeat(Phase::ShortBreak).take(2));
    expected.extend(std::iter::repeat(Phase::Working).take(3));
    expected.extend(std::iter::repeat(Phase::LongBreak).take(4));
    expected.extend(std::iter::repeat(Phase::Working).take(3));
    assert_eq!(phases, expected);
}

#[test]
fn countdown_runs_from_duration_down_to_one() {
    // Within a phase of duration d the countdown shows d, d-1, ..., 1, one
    // value per tick; the tick that shows 1 completes the phase.
    let p = Pomo::new(4, 2, 3, 0);
    let (mut t, _) = p.start();
    for expected in [4u64, 3, 2, 1] {
        assert_eq!(t.phase, Phase::Working);
        assert_eq!(t.remaining, expected);
        let notice = t.tick();
        assert_eq!(notice.is_some(), expected == 1);
    }
    assert_eq!(t.phase, Phase::ShortBreak);
    assert_eq!(t.remaining, 2);
}

#[test]
fn notice_order_is_fixed() {
    // Notifications alternate: "start working", then one break notice, and
    // so on; the long break notice comes exactly every second work phase.
    let p = Pomo::new(2, 1, 1, 2);
    let notices = collect_notices(&p, 40);
    for (i, pair) in notices.chunks(2).enumerate() {
        assert_eq!(pair[0], Notice::StartWorking);
        if pair.len() == 2 {
            if i % 2 == 1 {
                assert_eq!(pair[1], Notice::TakeLongBreak);
            } else {
                assert_eq!(pair[1], Notice::TakeShortBreak);
            }
        }
    }
}

#[test]
fn one_long_break_per_cycle_budget() {
    // c=3: over many completed work phases, exactly one long break for
    // every 3 of them, and the cycle countdown stays within 0..=c.
    let p = Pomo::new(1, 1, 1, 3);
    let (mut t, _) = p.start();
    let mut works: u64 = 0;
    let mut longs: u64 = 0;
    for _ in 0..300 {
        assert!(t.cycles_remaining <= 3);
        match t.tick() {
            Some(Notice::TakeShortBreak) => works += 1,
            Some(Notice::TakeLongBreak) => {
                works += 1;
                longs += 1;
            }
            _ => {}
        }
        assert_eq!(longs, works / 3);
    }
    assert!(longs > 0);
}

#[test]
fn long_break_resets_cycle_budget() {
    let p = Pomo::new(1, 1, 2, 2);
    let (mut t, _) = p.start();
    assert_eq!(t.tick(), Some(Notice::TakeShortBreak));
    assert_eq!(t.cycles_remaining, 1);
    assert_eq!(t.tick(), Some(Notice::StartWorking));
    assert_eq!(t.tick(), Some(Notice::TakeLongBreak));
    assert_eq!(t.cycles_remaining, 0);
    assert_eq!(t.tick(), None);
    assert_eq!(t.tick(), Some(Notice::StartWorking));
    assert_eq!(t.cycles_remaining, 2);
    assert_eq!(t.remaining, 1);
}

#[test]
fn tick_never_changes_the_configuration() {
    let p = Pomo::new(2, 3, 4, 5);
    let (mut t, _) = p.start();
    for _ in 0..100 {
        t.tick();
        assert_eq!(t.config, p);
    }
}

#[test]
fn notice_messages() {
    assert_eq!(Notice::StartWorking.message(), "start working");
    assert_eq!(Notice::TakeShortBreak.message(), "take a short break");
    assert_eq!(Notice::TakeLongBreak.message(), "take a long break");
}

#[test]
fn timer_state_is_plain_data() {
    let t = Timer {
        config: Pomo::new(25, 5, 20, 4),
        phase: Phase::Working,
        remaining: 25,
        cycles_remaining: 4,
    };
    let u = t;
    assert_eq!(t, u);
}
