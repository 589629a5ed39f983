//! The timer state machine: phases, the per-tick step, and the entry
//! notifications it emits.

use vstd::prelude::*;

verus! {

/// One timed interval of the timer. Exactly one phase is active at a time.
#[derive(Clone, Copy, PartialEq, Eq, Structural, Debug)]
pub enum Phase {
    Working,
    ShortBreak,
    LongBreak,
}

/// The notification fired when a phase is entered.
#[derive(Clone, Copy, PartialEq, Eq, Structural, Debug)]
pub enum Notice {
    StartWorking,
    TakeShortBreak,
    TakeLongBreak,
}

/// The configuration fixed at startup: the three phase durations in minutes
/// and the number of work cycles before a long break.
#[derive(Clone, Copy, PartialEq, Eq, Structural, Debug)]
pub struct Pomo {
    pub work_time: u64,
    pub short_break: u64,
    pub long_break: u64,
    pub cycles: u64,
}

/// Long breaks are taken only when the configured cycle count is neither 0
/// nor 1; otherwise every work phase is followed by a short break forever.
pub open spec fn use_cycles(cycles: u64) -> bool {
    cycles != 0 && cycles != 1
}

/// The notification that announces entry into `p`.
pub open spec fn notice_of(p: Phase) -> Notice {
    match p {
        Phase::Working => Notice::StartWorking,
        Phase::ShortBreak => Notice::TakeShortBreak,
        Phase::LongBreak => Notice::TakeLongBreak,
    }
}

impl Pomo {
    /// All three durations are positive; the timer counts each phase from
    /// its duration down to 1, one tick per minute.
    pub open spec fn valid(self) -> bool {
        self.work_time >= 1 && self.short_break >= 1 && self.long_break >= 1
    }

    /// The configured duration, in minutes, of phase `p`.
    pub open spec fn duration_of(self, p: Phase) -> u64 {
        match p {
            Phase::Working => self.work_time,
            Phase::ShortBreak => self.short_break,
            Phase::LongBreak => self.long_break,
        }
    }

    /// The state the timer is in when it starts: a full work phase, with the
    /// whole cycle budget ahead of it.
    pub open spec fn initial(self) -> Timer {
        Timer {
            config: self,
            phase: Phase::Working,
            remaining: self.work_time,
            cycles_remaining: self.cycles,
        }
    }

    pub fn new(work_time: u64, short_break: u64, long_break: u64, cycles: u64) -> (p: Pomo)
        ensures
            p == (Pomo { work_time, short_break, long_break, cycles }),
    {
        Pomo { work_time, short_break, long_break, cycles }
    }

    /// Start the timer: the Working phase always comes first, and its entry
    /// notification is "start working".
    pub fn start(&self) -> (r: (Timer, Notice))
        requires
            self.valid(),
        ensures
            r.0 == self.initial(),
            r.0.phase == Phase::Working,
            r.1 == Notice::StartWorking,
            r.0.wf(),
    {
        let t = Timer {
            config: *self,
            phase: Phase::Working,
            remaining: self.work_time,
            cycles_remaining: self.cycles,
        };
        (t, Notice::StartWorking)
    }
}

/// The live state of the timer: the static configuration, the active phase,
/// how many ticks of it are left, and how many work cycles remain before the
/// next long break.
#[derive(Clone, Copy, PartialEq, Eq, Structural, Debug)]
pub struct Timer {
    pub config: Pomo,
    pub phase: Phase,
    pub remaining: u64,
    pub cycles_remaining: u64,
}

/// The phase transition taken when the active phase's countdown is spent:
/// the next state (countdown reloaded from the configured duration) and the
/// notification fired on entering it.
pub open spec fn spec_transition(t: Timer) -> (Timer, Notice) {
    match t.phase {
        Phase::Working => {
            if use_cycles(t.config.cycles) {
                let cr = (t.cycles_remaining - 1) as u64;
                if cr == 0 {
                    (
                        Timer {
                            phase: Phase::LongBreak,
                            remaining: t.config.long_break,
                            cycles_remaining: cr,
                            ..t
                        },
                        Notice::TakeLongBreak,
                    )
                } else {
                    (
                        Timer {
                            phase: Phase::ShortBreak,
                            remaining: t.config.short_break,
                            cycles_remaining: cr,
                            ..t
                        },
                        Notice::TakeShortBreak,
                    )
                }
            } else {
                (
                    Timer { phase: Phase::ShortBreak, remaining: t.config.short_break, ..t },
                    Notice::TakeShortBreak,
                )
            }
        },
        Phase::ShortBreak => (
            Timer { phase: Phase::Working, remaining: t.config.work_time, ..t },
            Notice::StartWorking,
        ),
        Phase::LongBreak => (
            Timer {
                phase: Phase::Working,
                remaining: t.config.work_time,
                cycles_remaining: t.config.cycles,
                ..t
            },
            Notice::StartWorking,
        ),
    }
}

/// One tick of the one-minute clock: while more than one minute of the phase
/// is left the countdown just drops by one; on the phase's last minute the
/// transition is taken and its notification returned.
pub open spec fn spec_tick(t: Timer) -> (Timer, Option<Notice>) {
    if t.remaining > 1 {
        (Timer { remaining: (t.remaining - 1) as u64, ..t }, None::<Notice>)
    } else {
        let (t2, n) = spec_transition(t);
        (t2, Some(n))
    }
}

impl Timer {
    /// Well-formedness, established by `Pomo::start` and preserved by every
    /// tick: the countdown sits between 1 and the active phase's configured
    /// duration, and the cycle countdown never strays outside 1..=cycles
    /// while a work or short-break phase is active (it is exactly 0 during a
    /// long break, and pinned to the configured value when the cycle feature
    /// is off).
    pub open spec fn wf(self) -> bool {
        &&& self.config.valid()
        &&& 1 <= self.remaining <= self.config.duration_of(self.phase)
        &&& if use_cycles(self.config.cycles) {
            match self.phase {
                Phase::LongBreak => self.cycles_remaining == 0,
                _ => 1 <= self.cycles_remaining <= self.config.cycles,
            }
        } else {
            self.cycles_remaining == self.config.cycles
        }
    }

    /// Advance the timer by one tick of the one-minute clock, returning the
    /// entry notification if this tick completed the active phase.
    pub fn tick(&mut self) -> (n: Option<Notice>)
        requires
            old(self).wf(),
        ensures
            (*final(self), n) == spec_tick(*old(self)),
            final(self).wf(),
            final(self).config == old(self).config,
    {
        if self.remaining > 1 {
            self.remaining = self.remaining - 1;
            None
        } else {
            match self.phase {
                Phase::Working => {
                    if use_cycles_exec(self.config.cycles) {
                        self.cycles_remaining = self.cycles_remaining - 1;
                        if self.cycles_remaining == 0 {
                            self.phase = Phase::LongBreak;
                            self.remaining = self.config.long_break;
                            Some(Notice::TakeLongBreak)
                        } else {
                            self.phase = Phase::ShortBreak;
                            self.remaining = self.config.short_break;
                            Some(Notice::TakeShortBreak)
                        }
                    } else {
                        self.phase = Phase::ShortBreak;
                        self.remaining = self.config.short_break;
                        Some(Notice::TakeShortBreak)
                    }
                },
                Phase::ShortBreak => {
                    self.phase = Phase::Working;
                    self.remaining = self.config.work_time;
                    Some(Notice::StartWorking)
                },
                Phase::LongBreak => {
                    self.phase = Phase::Working;
                    self.remaining = self.config.work_time;
                    self.cycles_remaining = self.config.cycles;
                    Some(Notice::StartWorking)
                },
            }
        }
    }
}

/// Executable mirror of `use_cycles`.
pub fn use_cycles_exec(cycles: u64) -> (r: bool)
    ensures
        r == use_cycles(cycles),
{
    cycles != 0 && cycles != 1
}

impl Notice {
    /// The message text carried by this notification, exactly as the desktop
    /// alert shows it.
    pub fn message(&self) -> (r: &'static str)
        ensures
            r@ == spec_message(*self),
    {
        match self {
            Notice::StartWorking => "start working",
            Notice::TakeShortBreak => "take a short break",
            Notice::TakeLongBreak => "take a long break",
        }
    }
}

/// The message text of each notification.
pub open spec fn spec_message(n: Notice) -> Seq<char> {
    match n {
        Notice::StartWorking => "start working"@,
        Notice::TakeShortBreak => "take a short break"@,
        Notice::TakeLongBreak => "take a long break"@,
    }
}

} // verus!
