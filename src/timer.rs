use vstd::prelude::*;

verus! {

/// Ticks from an overflow of TIMA to its resolution: TIMA is reloaded from
/// TMA, and the interrupt requested, on the fifth tick after the overflow.
pub const OVERFLOW_DELAY: i8 = 5;

/// The divider/counter pair: DIV counts every tick, TIMA counts falling edges
/// of the DIV bit that TAC selects, and reloads from TMA some ticks after it
/// overflows.
#[derive(Debug, Clone, Copy, PartialEq, Eq)]
pub struct Timer {
    pub div: u16,
    pub tima: u8,
    pub tma: u8,
    pub tac: u8,
    /// Ticks left until a scheduled reload is done; 0 or negative when none is.
    pub schedule: i8,
    /// The tap bit seen at the end of the previous tick.
    pub last_tap: u16,
}

/// The DIV bit that TAC's low two bits select (half-periods 512, 8, 32, 128).
pub open spec fn speed_mask(tac: u8) -> u16 {
    if tac & 3 == 0 {
        512
    } else if tac & 3 == 1 {
        8
    } else if tac & 3 == 2 {
        32
    } else {
        128
    }
}

/// The selected DIV bit, or 0 while TAC's enable bit is clear.
pub open spec fn tap(div: u16, tac: u8) -> u16 {
    if tac & 4 != 0 {
        div & speed_mask(tac)
    } else {
        0
    }
}

pub open spec fn div_next(div: u16) -> u16 {
    if div == 0xFFFF {
        0
    } else {
        (div + 1) as u16
    }
}

/// One tick of the timer: the state after it, and whether it requests the
/// timer interrupt.
pub open spec fn timer_step(t: Timer) -> (Timer, bool) {
    let div = div_next(t.div);
    let reload = t.schedule == 1;
    let tima1 = if reload { t.tma } else { t.tima };
    let last1 = if reload { tap(div, t.tac) } else { t.last_tap };
    let sched1 = if t.schedule > 0 { (t.schedule - 1) as i8 } else { t.schedule };
    let b = tap(div, t.tac);
    let edge = (!b & last1) != 0;
    let tima2 = if edge { (if tima1 == 0xFF { 0 } else { tima1 + 1 }) as u8 } else { tima1 };
    let sched2 = if edge && tima1 == 0xFF { OVERFLOW_DELAY } else { sched1 };
    (Timer { div, tima: tima2, tma: t.tma, tac: t.tac, schedule: sched2, last_tap: b }, reload)
}

/// The timer after `n` ticks.
pub open spec fn timer_steps(t: Timer, n: nat) -> Timer
    decreases n,
{
    if n == 0 {
        t
    } else {
        timer_step(timer_steps(t, (n - 1) as nat)).0
    }
}

fn tap_of(div: u16, tac: u8) -> (r: u16)
    ensures
        r == tap(div, tac),
{
    if tac & 4 != 0 {
        let m: u16 = if tac & 3 == 0 {
            512
        } else if tac & 3 == 1 {
            8
        } else if tac & 3 == 2 {
            32
        } else {
            128
        };
        div & m
    } else {
        0
    }
}

impl Timer {
    pub open spec fn new_spec() -> Timer {
        Timer { div: 0, tima: 0, tma: 0, tac: 0xF8, schedule: -1i8, last_tap: 0 }
    }

    /// The timer at power-on: all counters 0, TAC's unused bits set, nothing scheduled.
    pub fn new() -> (r: Timer)
        ensures
            r == Timer::new_spec(),
    {
        Timer { div: 0, tima: 0, tma: 0, tac: 0b1111_1000, schedule: -1, last_tap: 0 }
    }

    /// Advances the timer by one tick; returns whether the timer interrupt is
    /// requested on this tick.
    pub fn tick(&mut self) -> (irq: bool)
        ensures
            (*final(self), irq) == timer_step(*old(self)),
    {
        self.div = self.div.wrapping_add(1);
        let mut irq = false;
        if self.schedule > 0 {
            self.schedule = self.schedule - 1;
            if self.schedule == 0 {
                self.tima = self.tma;
                irq = true;
                self.last_tap = tap_of(self.div, self.tac);
            }
        }
        let b = tap_of(self.div, self.tac);
        if (!b & self.last_tap) != 0 {
            let overflow = self.tima == 0xFF;
            self.tima = self.tima.wrapping_add(1);
            if overflow {
                self.schedule = OVERFLOW_DELAY;
            }
        }
        self.last_tap = b;
        irq
    }

    /// A write to DIV: it restarts at 0, TIMA is reloaded from TMA at once, and
    /// a scheduled reload is dropped.
    pub fn write_div(&mut self)
        ensures
            *final(self) == (Timer { div: 0, tima: old(self).tma, schedule: -1i8, ..*old(self) }),
    {
        self.div = 0;
        self.tima = self.tma;
        self.schedule = -1;
    }

    /// A write to TIMA. While a reload is scheduled (its resolving tick still
    /// ahead), the write is ignored and the reload wins; otherwise it stores the
    /// value.
    pub fn write_tima(&mut self, val: u8)
        ensures
            *final(self) == if old(self).schedule >= 1 {
                *old(self)
            } else {
                Timer { tima: val, schedule: -1i8, ..*old(self) }
            },
    {
        if self.schedule < 1 {
            self.schedule = -1;
            self.tima = val;
        }
    }

    /// A write to TAC: its five unused bits always read as set.
    pub fn write_tac(&mut self, val: u8)
        ensures
            *final(self) == (Timer { tac: 0xF8 | val, ..*old(self) }),
    {
        self.tac = 0b1111_1000 | val;
    }
}

/// A tick on which no reload is pending and the tapped bit stays high leaves
/// everything but DIV as it was.
proof fn lemma_quiet_step(t: Timer)
    requires
        t.tac & 0x07 == 0x05,
        t.schedule <= 0,
        t.last_tap == 8,
        div_next(t.div) & 8 == 8,
    ensures
        timer_step(t).0 == (Timer { div: div_next(t.div), ..t }),
        !timer_step(t).1,
{
    let tac = t.tac;
    assert(tac & 0x07 == 0x05 ==> tac & 4 != 0 && tac & 3 == 1) by (bit_vector);
    assert(!8u16 & 8u16 == 0) by (bit_vector);
}

/// The first `k` ticks (up to 7) of a timer as in
/// `lemma_timer_counts_falling_edge` only advance DIV.
proof fn lemma_quiet_prefix(t: Timer, k: nat)
    requires
        t.tac & 0x07 == 0x05,
        t.schedule <= 0,
        t.div & 0x0F == 0x08,
        t.last_tap == 8,
        k <= 7,
    ensures
        timer_steps(t, k) == (Timer { div: (t.div + k) as u16, ..t }),
    decreases k,
{
    let d = t.div;
    assert(d & 0x0F == 0x08 ==> d <= 0xFFF8) by (bit_vector);
    if k > 0 {
        lemma_quiet_prefix(t, (k - 1) as nat);
        let s = timer_steps(t, (k - 1) as nat);
        assert(div_next(s.div) == (d + k) as u16);
        assert(d & 0x0F == 0x08 ==> (d + 1) as u16 & 8 == 8 && (d + 2) as u16 & 8 == 8 && (d + 3)
            as u16 & 8 == 8 && (d + 4) as u16 & 8 == 8 && (d + 5) as u16 & 8 == 8 && (d + 6) as u16
            & 8 == 8 && (d + 7) as u16 & 8 == 8) by (bit_vector);
        lemma_quiet_step(s);
    }
}

/// With counting enabled at the 8-tick half-period, and DIV's low four bits
/// at 8 (the tapped bit high, the falling edge eight ticks away), TIMA keeps
/// its value for seven ticks and goes up by exactly one on the eighth.
pub proof fn lemma_timer_counts_falling_edge(t: Timer)
    requires
        t.tac & 0x07 == 0x05,
        t.schedule <= 0,
        t.div & 0x0F == 0x08,
        t.last_tap == 8,
        t.tima < 0xFF,
    ensures
        forall|n: nat| 1 <= n <= 7 ==> (#[trigger] timer_steps(t, n)).tima == t.tima,
        timer_steps(t, 8).tima == t.tima + 1,
        timer_steps(t, 8).schedule == t.schedule,
{
    let d = t.div;
    let tac = t.tac;
    assert(tac & 0x07 == 0x05 ==> tac & 4 != 0 && tac & 3 == 1) by (bit_vector);
    assert(d & 0x0F == 0x08 ==> d <= 0xFFF8) by (bit_vector);
    assert(d & 0x0F == 0x08 ==> (d + 8) as u16 & 8 == 0) by (bit_vector);
    assert(!0u16 & 8u16 != 0) by (bit_vector);
    assert forall|n: nat| 1 <= n <= 7 implies (#[trigger] timer_steps(t, n)).tima == t.tima by {
        lemma_quiet_prefix(t, n);
    }
    lemma_quiet_prefix(t, 7);
    let s7 = timer_steps(t, 7);
    assert(0u16 & 8u16 == 0) by (bit_vector);
    assert(div_next(s7.div) & 8 == 0);
    assert(timer_steps(t, 8) == timer_step(s7).0);
}

/// The tick moves TIMA through a falling edge of the tapped bit.
pub open spec fn falling_edge(t: Timer) -> bool {
    (!tap(div_next(t.div), t.tac) & t.last_tap) != 0
}

/// An overflow is not resolved on the tick it happens: TIMA reads 0 and no
/// interrupt is requested. Nor on the next four ticks; on the fifth tick after
/// the overflow TIMA is reloaded from TMA and the timer interrupt requested.
pub proof fn lemma_timer_overflow_delay(t: Timer)
    requires
        t.tima == 0xFF,
        t.schedule <= 0,
        falling_edge(t),
    ensures
        timer_steps(t, 1).tima == 0,
        !timer_step(t).1,
        forall|k: nat| 1 <= k <= 4 ==> !(#[trigger] timer_step(timer_steps(t, k))).1,
        timer_step(timer_steps(t, 5)).1,
        timer_steps(t, 6).tima == t.tma,
{
    assert(timer_steps(t, 0) == t);
    assert(timer_steps(t, 1) == timer_step(t).0);
    assert(timer_steps(t, 1).schedule == OVERFLOW_DELAY);
    assert(timer_steps(t, 2) == timer_step(timer_steps(t, 1)).0);
    assert(timer_steps(t, 2).schedule == 4);
    assert(timer_steps(t, 3) == timer_step(timer_steps(t, 2)).0);
    assert(timer_steps(t, 3).schedule == 3);
    assert(timer_steps(t, 4) == timer_step(timer_steps(t, 3)).0);
    assert(timer_steps(t, 4).schedule == 2);
    assert(timer_steps(t, 5) == timer_step(timer_steps(t, 4)).0);
    assert(timer_steps(t, 5).schedule == 1);
    let s5 = timer_steps(t, 5);
    let last1 = tap(div_next(s5.div), s5.tac);
    assert((!last1 & last1) == 0) by (bit_vector);
    assert(timer_steps(t, 6) == timer_step(s5).0);
}

} // verus!
