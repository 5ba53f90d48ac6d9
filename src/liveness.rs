//! Detection of a silent command link.
use vstd::prelude::*;

verus! {

/// A wrapping tick counter that reports when no alive notification has come
/// for `max_link_wait` ticks.
pub struct Liveliness {
    current_tick: u16,
    last_msg_tick: u16,
    got_first_msg: bool,
    max_link_wait: u16,
}

#[derive(Clone, Copy, Debug, PartialEq, Eq, Structural)]
pub enum LivelinessError {
    LinkDisconnected,
}

pub const MAX_U16: u16 = 65535;

/// Ticks from `past` to `current` on a counter that wraps after 65535.
pub open spec fn tick_gap(current: u16, past: u16) -> int {
    (current - past) % 0x1_0000
}

/// The tick after `t`.
pub open spec fn next_tick(t: u16) -> u16 {
    if t == MAX_U16 {
        0
    } else {
        (t + 1) as u16
    }
}

/// The counter after `n` ticks from `t`.
pub open spec fn ticks_after(t: u16, n: nat) -> u16
    decreases n,
{
    if n == 0 {
        t
    } else {
        next_tick(ticks_after(t, (n - 1) as nat))
    }
}

/// The counter counts modulo 65536.
pub proof fn lemma_ticks_after_wrap(t: u16, n: nat)
    ensures
        ticks_after(t, n) == (t + n) % 0x1_0000,
    decreases n,
{
    if n > 0 {
        lemma_ticks_after_wrap(t, (n - 1) as nat);
        let prev = ticks_after(t, (n - 1) as nat);
        vstd::arithmetic::div_mod::lemma_add_mod_noop(t + n - 1, 1, 0x1_0000);
        assert((prev + 1) % 0x1_0000 == (t + n) % 0x1_0000);
        if prev == MAX_U16 {
            assert(0int == (prev + 1) % 0x1_0000);
        } else {
            assert(prev + 1 == (prev + 1) % 0x1_0000);
        }
    }
}

/// After an alive notification at tick `t`, the distance the monitor
/// measures `n` ticks later is exactly `n`, across the wraparound after
/// 65535 as well; so a tick reports a lost link exactly when `n` has
/// reached the limit.
pub proof fn lemma_gap_counts_ticks(t: u16, n: nat)
    requires
        n < 0x1_0000,
    ensures
        tick_gap(ticks_after(t, n), t) == n,
{
    lemma_ticks_after_wrap(t, n);
    let c = ticks_after(t, n);
    if t + n < 0x1_0000 {
        assert(c == t + n);
    } else {
        vstd::arithmetic::div_mod::lemma_fundamental_div_mod(t + n, 0x1_0000);
        assert(c == t + n - 0x1_0000);
        vstd::arithmetic::div_mod::lemma_mod_add_multiples_vanish(n as int - 0x1_0000, 0x1_0000);
    }
}

impl Liveliness {
    pub closed spec fn current(self) -> u16 {
        self.current_tick
    }

    pub closed spec fn last_alive(self) -> u16 {
        self.last_msg_tick
    }

    pub closed spec fn seen_alive(self) -> bool {
        self.got_first_msg
    }

    pub closed spec fn max_wait(self) -> u16 {
        self.max_link_wait
    }

    /// A monitor at tick zero that has heard nothing yet.
    pub fn new(max_link_wait_ticks: u16) -> (r: Liveliness)
        ensures
            r.current() == 0,
            r.last_alive() == 0,
            !r.seen_alive(),
            r.max_wait() == max_link_wait_ticks,
    {
        Liveliness { current_tick: 0, last_msg_tick: 0, got_first_msg: false, max_link_wait: max_link_wait_ticks }
    }

    /// Advances the counter; once any alive notification has come, reports a
    /// disconnected link when the ticks since the last one reach the limit.
    pub fn tick(&mut self) -> (r: Option<LivelinessError>)
        ensures
            final(self).current() == next_tick(old(self).current()),
            final(self).last_alive() == old(self).last_alive(),
            final(self).seen_alive() == old(self).seen_alive(),
            final(self).max_wait() == old(self).max_wait(),
            r is Some <==> (old(self).seen_alive() && tick_gap(final(self).current(), final(self).last_alive())
                >= old(self).max_wait()),
    {
        if self.current_tick == MAX_U16 {
            self.current_tick = 0;
        } else {
            self.current_tick += 1;
        }
        if self.got_first_msg && self.tick_distance(self.last_msg_tick) >= self.max_link_wait {
            Some(LivelinessError::LinkDisconnected)
        } else {
            None
        }
    }

    /// Records that the link is alive at the current tick.
    pub fn notify_alive(&mut self)
        ensures
            final(self).current() == old(self).current(),
            final(self).last_alive() == old(self).current(),
            final(self).seen_alive(),
            final(self).max_wait() == old(self).max_wait(),
    {
        self.got_first_msg = true;
        self.last_msg_tick = self.current_tick;
    }

    /// Ticks from `past_tick` to now, across at most one wraparound.
    fn tick_distance(&self, past_tick: u16) -> (r: u16)
        ensures
            r == tick_gap(self.current_tick, past_tick),
    {
        if past_tick <= self.current_tick {
            self.current_tick - past_tick
        } else {
            (MAX_U16 - past_tick) + self.current_tick + 1
        }
    }
}

} // verus!
