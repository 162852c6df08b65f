//! The tick counter that keys scheduled work.

use vstd::prelude::*;
use crate::time::packet::TickSync;

verus! {

/// The current simulation tick. Incrementing past `usize::MAX` wraps to zero.
#[derive(Clone, Copy)]
pub struct Tick {
    current: usize,
}

impl View for Tick {
    type V = nat;

    closed spec fn view(&self) -> nat {
        self.current as nat
    }
}

/// The tick that follows `tick`, wrapping at the width of `usize`.
pub open spec fn next_tick(tick: nat) -> nat {
    if tick == usize::MAX as nat {
        0
    } else {
        tick + 1
    }
}

impl Tick {
    /// A counter that starts at `at`.
    pub fn new(at: usize) -> (tick: Self)
        ensures
            tick@ == at as nat,
    {
        Tick { current: at }
    }

    pub fn set(&mut self, to: usize)
        ensures
            final(self)@ == to as nat,
    {
        self.current = to;
    }

    pub fn increment(&mut self)
        ensures
            final(self)@ == next_tick(old(self)@),
    {
        self.current = self.current.wrapping_add(1);
    }

    pub fn current(self) -> (now: usize)
        ensures
            now as nat == self@,
    {
        self.current
    }
}

impl Default for Tick {
    fn default() -> (tick: Self)
        ensures
            tick@ == 0,
    {
        Tick { current: 0 }
    }
}


/// The tick that a client steers its own clock towards: the last one that
/// the server announced.
#[derive(Clone, Copy)]
pub struct TickTarget {
    current: usize,
}

impl View for TickTarget {
    type V = nat;

    closed spec fn view(&self) -> nat {
        self.current as nat
    }
}

impl TickTarget {
    /// A target that stands at `at`.
    pub fn new(at: usize) -> (target: Self)
        ensures
            target@ == at as nat,
    {
        TickTarget { current: at }
    }

    pub fn set(&mut self, to: usize)
        ensures
            final(self)@ == to as nat,
    {
        self.current = to;
    }

    pub fn increment(&mut self)
        ensures
            final(self)@ == next_tick(old(self)@),
    {
        self.current = self.current.wrapping_add(1);
    }

    pub fn current(self) -> (now: usize)
        ensures
            now as nat == self@,
    {
        self.current
    }
}

/// Advances the clock by one tick.
pub fn increment_tick(tick: &mut Tick)
    ensures
        final(tick)@ == next_tick(old(tick)@),
{
    tick.increment();
}

/// Takes the server's announcements in: the target stands at the last one,
/// and stays where it was if there was none.
pub fn sync_from_server(tick_target: &mut TickTarget, packets: &[TickSync])
    ensures
        final(tick_target)@ == if packets@.len() > 0 {
            packets@.last().current as nat
        } else {
            old(tick_target)@
        },
{
    let mut i: usize = 0;
    while i < packets.len()
        invariant
            i <= packets@.len(),
            tick_target@ == if i > 0 {
                packets@[i - 1].current as nat
            } else {
                old(tick_target)@
            },
        decreases packets@.len() - i,
    {
        tick_target.set(packets[i].current);
        i = i + 1;
    }
}

} // verus!
