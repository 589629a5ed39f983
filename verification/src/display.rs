//! The status screen text. The redraw deliberately shows the four values as
//! configured at startup, not the live countdowns: the screen is a pure
//! function of the configuration and is therefore identical on every tick
//! of a run.

use vstd::prelude::*;

use crate::timer::{Pomo, Timer};
use crate::trace::{lemma_run_wf, run};

verus! {

/// The decimal digit character for `d` (0 through 9).
pub open spec fn digit_char(d: nat) -> char {
    if d == 0 {
        '0'
    } else if d == 1 {
        '1'
    } else if d == 2 {
        '2'
    } else if d == 3 {
        '3'
    } else if d == 4 {
        '4'
    } else if d == 5 {
        '5'
    } else if d == 6 {
        '6'
    } else if d == 7 {
        '7'
    } else if d == 8 {
        '8'
    } else {
        '9'
    }
}

/// The decimal digits of `n`, most significant first, with no leading
/// zeros (a lone zero for 0).
pub open spec fn dec_str(n: nat) -> Seq<char>
    decreases n,
{
    if n < 10 {
        seq![digit_char(n)]
    } else {
        dec_str(n / 10).push(digit_char(n % 10))
    }
}

/// The single-character string for decimal digit `d`.
fn digit_str(d: u64) -> (s: &'static str)
    requires
        d < 10,
    ensures
        s@ == seq![digit_char(d as nat)],
{
    let s: &'static str = if d == 0 {
        "0"
    } else if d == 1 {
        "1"
    } else if d == 2 {
        "2"
    } else if d == 3 {
        "3"
    } else if d == 4 {
        "4"
    } else if d == 5 {
        "5"
    } else if d == 6 {
        "6"
    } else if d == 7 {
        "7"
    } else if d == 8 {
        "8"
    } else {
        "9"
    };
    proof {
        reveal_strlit("0");
        reveal_strlit("1");
        reveal_strlit("2");
        reveal_strlit("3");
        reveal_strlit("4");
        reveal_strlit("5");
        reveal_strlit("6");
        reveal_strlit("7");
        reveal_strlit("8");
        reveal_strlit("9");
        assert(s@ =~= seq![digit_char(d as nat)]);
    }
    s
}

/// Render `n` in decimal.
pub fn u64_to_decimal(n: u64) -> (s: String)
    ensures
        s@ == dec_str(n as nat),
    decreases n,
{
    if n < 10 {
        let s = digit_str(n).to_owned();
        s
    } else {
        let mut s = u64_to_decimal(n / 10);
        s.append(digit_str(n % 10));
        proof {
            assert(dec_str(n as nat) =~= dec_str((n as nat) / 10) + seq![
                digit_char((n as nat) % 10),
            ]);
        }
        s
    }
}

/// The full status screen text for configuration `p`: the timer label and
/// the four configured values, one per line. It depends on nothing but
/// those four values.
pub open spec fn spec_render(p: Pomo) -> Seq<char> {
    "POMO\nW:"@ + dec_str(p.work_time as nat) + "\nS:"@ + dec_str(p.short_break as nat) + "\nL:"@
        + dec_str(p.long_break as nat) + "\nC:"@ + dec_str(p.cycles as nat)
}

impl Pomo {
    /// The text the status screen shows, rebuilt identically on every tick:
    /// a pure function of the four configured values.
    pub fn render(&self) -> (r: String)
        ensures
            r@ == spec_render(*self),
    {
        let mut r = "POMO\nW:".to_owned();
        let w = u64_to_decimal(self.work_time);
        r.append(w.as_str());
        r.append("\nS:");
        let s = u64_to_decimal(self.short_break);
        r.append(s.as_str());
        r.append("\nL:");
        let l = u64_to_decimal(self.long_break);
        r.append(l.as_str());
        r.append("\nC:");
        let c = u64_to_decimal(self.cycles);
        r.append(c.as_str());
        r
    }
}

/// Law: the redraw text never changes within a run. Ticks leave the
/// configuration alone and the screen is a pure function of it, so the text
/// after any number of ticks equals the text at the start, even as the
/// countdowns differ.
pub proof fn lemma_redraw_constant(t: Timer, n: nat)
    requires
        t.wf(),
    ensures
        spec_render(run(t, n).config) == spec_render(t.config),
{
    lemma_run_wf(t, n);
}

} // verus!
