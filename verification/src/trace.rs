//! The timer's behaviour over time: the state reached after any number of
//! ticks, the notifications fired along the way, and the laws the machine
//! obeys (well-formedness everywhere, no long break when the cycle feature
//! is off, exactly one long break per completed cycle budget, phases lasting
//! exactly their configured duration, and notifications firing exactly at
//! phase entry in the fixed order).

use vstd::arithmetic::div_mod::lemma_fundamental_div_mod_converse;
use vstd::prelude::*;

use crate::timer::{notice_of, spec_tick, use_cycles, Notice, Phase, Pomo, Timer};

verus! {

/// The state of the timer after `n` ticks from state `t`.
pub open spec fn run(t: Timer, n: nat) -> Timer
    decreases n,
{
    if n == 0 {
        t
    } else {
        spec_tick(run(t, (n - 1) as nat)).0
    }
}

/// The notification, if any, returned by tick number `i` of the run from `t`
/// (ticks are numbered from 0).
pub open spec fn event_at(t: Timer, i: nat) -> Option<Notice> {
    spec_tick(run(t, i)).1
}

/// How many of the first `n` ticks of the run from `t` return notification `v`.
pub open spec fn count_events(t: Timer, n: nat, v: Notice) -> nat
    decreases n,
{
    if n == 0 {
        0
    } else {
        count_events(t, (n - 1) as nat, v) + if event_at(t, (n - 1) as nat) == Some(v) {
            1nat
        } else {
            0nat
        }
    }
}

/// How many Working phases complete within the first `n` ticks of the run
/// from `t`: each completion fires exactly one break notification.
pub open spec fn works_completed(t: Timer, n: nat) -> nat {
    count_events(t, n, Notice::TakeShortBreak) + count_events(t, n, Notice::TakeLongBreak)
}

/// Every state the timer reaches from a well-formed state is well-formed,
/// under the unchanged configuration. In particular the cycle countdown
/// stays within 0..=cycles on the whole run: it never goes negative.
pub proof fn lemma_run_wf(t: Timer, n: nat)
    requires
        t.wf(),
    ensures
        run(t, n).wf(),
        run(t, n).config == t.config,
    decreases n,
{
    if n > 0 {
        lemma_run_wf(t, (n - 1) as nat);
    }
}

/// Law: when the configured cycle count is 0 or 1 the long break is never
/// entered and its notification never fired, however many ticks elapse.
pub proof fn lemma_no_long_break(t: Timer, n: nat)
    requires
        t.wf(),
        !use_cycles(t.config.cycles),
        t.phase != Phase::LongBreak,
    ensures
        run(t, n).phase != Phase::LongBreak,
        event_at(t, n) != Some(Notice::TakeLongBreak),
    decreases n,
{
    if n > 0 {
        lemma_no_long_break(t, (n - 1) as nat);
        lemma_run_wf(t, (n - 1) as nat);
    }
    lemma_run_wf(t, n);
}

/// Within a phase the countdown just falls by one per tick: for `i` below
/// the ticks left, tick `i` of the run leaves the phase, the cycle countdown
/// and the configuration alone, and only the very last of those ticks
/// returns a notification.
pub proof fn lemma_countdown(t: Timer, i: nat)
    requires
        t.wf(),
        i < t.remaining,
    ensures
        run(t, i).phase == t.phase,
        run(t, i).cycles_remaining == t.cycles_remaining,
        run(t, i).config == t.config,
        run(t, i).remaining == t.remaining - i,
        event_at(t, i) is Some <==> i == t.remaining - 1,
    decreases i,
{
    if i > 0 {
        lemma_countdown(t, (i - 1) as nat);
    }
}

/// Law: a phase entered with a full countdown lasts exactly its configured
/// duration `d`: it is still active on each of the `d` ticks that follow
/// entry, exactly the last of those returns a notification, and after `d`
/// ticks the phase has changed.
pub proof fn lemma_phase_lasts_duration(t: Timer)
    requires
        t.wf(),
        t.remaining == t.config.duration_of(t.phase),
    ensures
        forall|i: nat| i < t.remaining ==> (#[trigger] run(t, i)).phase == t.phase,
        forall|i: nat|
            i < t.remaining ==> ((#[trigger] event_at(t, i)) is Some <==> i == t.remaining - 1),
        run(t, t.remaining as nat).phase != t.phase,
{
    assert forall|i: nat| i < t.remaining implies (#[trigger] run(t, i)).phase == t.phase by {
        lemma_countdown(t, i);
    }
    assert forall|i: nat|
        i < t.remaining implies ((#[trigger] event_at(t, i)) is Some <==> i == t.remaining
        - 1) by {
        lemma_countdown(t, i);
    }
    let d = t.remaining as nat;
    lemma_countdown(t, (d - 1) as nat);
    lemma_run_wf(t, (d - 1) as nat);
    assert(run(t, d) == spec_tick(run(t, (d - 1) as nat)).0);
}

/// Law: a notification is returned exactly on the last tick of the active
/// phase; it announces precisely the phase being entered, which then starts
/// with its full configured countdown; and the order is fixed: the tick that
/// ends a Working phase fires a break notification and the tick that ends a
/// break fires "start working".
pub proof fn lemma_notice_at_entry(t: Timer, i: nat)
    requires
        t.wf(),
    ensures
        event_at(t, i) is Some <==> run(t, i).remaining == 1,
        event_at(t, i) is None ==> run(t, i + 1).phase == run(t, i).phase,
        event_at(t, i) is Some ==> {
            &&& run(t, i + 1).phase != run(t, i).phase
            &&& event_at(t, i) == Some(notice_of(run(t, i + 1).phase))
            &&& run(t, i + 1).remaining == run(t, i).config.duration_of(run(t, i + 1).phase)
            &&& (run(t, i).phase == Phase::Working <==> event_at(t, i) != Some(
                Notice::StartWorking,
            ))
        },
{
    lemma_run_wf(t, i);
    assert(run(t, i + 1) == spec_tick(run(t, i)).0);
}

/// The budget kept while the cycle feature is on: the completed Working
/// phases always amount to a whole number of long-break rounds plus the part
/// of the current round already worked off.
proof fn lemma_cycle_invariant(p: Pomo, n: nat)
    requires
        p.valid(),
        use_cycles(p.cycles),
    ensures
        ({
            let s = run(p.initial(), n);
            let w = works_completed(p.initial(), n);
            let l = count_events(p.initial(), n, Notice::TakeLongBreak);
            let c = p.cycles as nat;
            if s.phase == Phase::LongBreak {
                w == c * l
            } else {
                w == c * l + (c - s.cycles_remaining)
            }
        }),
    decreases n,
{
    let init = p.initial();
    if n == 0 {
        assert(run(init, 0) == init);
        assert(count_events(init, 0, Notice::TakeShortBreak) == 0);
        assert(count_events(init, 0, Notice::TakeLongBreak) == 0);
        assert(works_completed(init, 0) == 0);
        assert(init.phase == Phase::Working);
        assert(init.cycles_remaining == p.cycles);
    }
    if n > 0 {
        let m = (n - 1) as nat;
        lemma_cycle_invariant(p, m);
        lemma_run_wf(init, m);
        let s = run(init, m);
        let l = count_events(init, m, Notice::TakeLongBreak);
        let c = p.cycles as nat;
        assert(run(init, n) == spec_tick(s).0);
        assert(event_at(init, m) == spec_tick(s).1);
        assert(count_events(init, n, Notice::TakeShortBreak) == count_events(
            init,
            m,
            Notice::TakeShortBreak,
        ) + if event_at(init, m) == Some(Notice::TakeShortBreak) {
            1nat
        } else {
            0nat
        });
        assert(count_events(init, n, Notice::TakeLongBreak) == count_events(
            init,
            m,
            Notice::TakeLongBreak,
        ) + if event_at(init, m) == Some(Notice::TakeLongBreak) {
            1nat
        } else {
            0nat
        });
        let s2 = run(init, n);
        let w = works_completed(init, m);
        let w2 = works_completed(init, n);
        let l2 = count_events(init, n, Notice::TakeLongBreak);
        if s.remaining > 1 {
            assert(w2 == w && l2 == l && s2.phase == s.phase && s2.cycles_remaining
                == s.cycles_remaining);
        } else {
            match s.phase {
                Phase::Working => {
                    if s.cycles_remaining == 1 {
                        assert(event_at(init, m) == Some(Notice::TakeLongBreak));
                        assert(w2 == w + 1 && l2 == l + 1);
                        assert(s2.phase == Phase::LongBreak);
                        assert(w == c * l + (c - 1));
                        assert(c * (l + 1) == c * l + c) by (nonlinear_arith);
                        assert(w2 == c * l2);
                    } else {
                        assert(event_at(init, m) == Some(Notice::TakeShortBreak));
                        assert(w2 == w + 1 && l2 == l);
                        assert(s2.phase == Phase::ShortBreak && s2.cycles_remaining
                            == s.cycles_remaining - 1);
                        assert(w2 == c * l2 + (c - s2.cycles_remaining));
                    }
                },
                Phase::ShortBreak => {
                    assert(event_at(init, m) == Some(Notice::StartWorking));
                    assert(w2 == w && l2 == l);
                    assert(s2.phase == Phase::Working && s2.cycles_remaining
                        == s.cycles_remaining);
                },
                Phase::LongBreak => {
                    assert(event_at(init, m) == Some(Notice::StartWorking));
                    assert(w2 == w && l2 == l);
                    assert(s2.phase == Phase::Working && s2.cycles_remaining == c);
                    assert(w2 == c * l2 + (c - s2.cycles_remaining));
                },
            }
        }
    }
}

/// Law: with the cycle feature on (a configured cycle count of at least 2),
/// exactly one long break occurs per `cycles` completed Working phases: over
/// every prefix of the run from the start state, the number of long-break
/// notifications equals the number of completed Working phases divided by
/// the configured cycle count.
pub proof fn lemma_long_break_rate(p: Pomo, n: nat)
    requires
        p.valid(),
        use_cycles(p.cycles),
    ensures
        count_events(p.initial(), n, Notice::TakeLongBreak) == works_completed(p.initial(), n)
            / (p.cycles as nat),
        run(p.initial(), n).cycles_remaining <= p.cycles,
    decreases n,
{
    lemma_cycle_invariant(p, n);
    lemma_run_wf(p.initial(), n);
    let s = run(p.initial(), n);
    let w = works_completed(p.initial(), n);
    let l = count_events(p.initial(), n, Notice::TakeLongBreak);
    let c = p.cycles as nat;
    if s.phase == Phase::LongBreak {
        lemma_fundamental_div_mod_converse(w as int, c as int, l as int, 0);
    } else {
        lemma_fundamental_div_mod_converse(w as int, c as int, l as int, c - s.cycles_remaining);
    }
}

} // verus!
