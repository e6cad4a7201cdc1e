use vstd::prelude::*;

verus! {

/// The two countdown registers as the 60 Hz clock sees them.
#[derive(Clone, Copy, Debug, PartialEq, Eq, Structural)]
pub struct Countdown {
    pub delay: u8,
    pub sound: u8,
}

/// One step down, stopping at 0.
pub open spec fn count_down(t: u8) -> u8 {
    if t > 0 { (t - 1) as u8 } else { 0 }
}

impl Countdown {
    /// The registers after `n` ticks.
    pub open spec fn ticked(self, n: nat) -> Countdown
        decreases n,
    {
        if n == 0 {
            self
        } else {
            let c = self.ticked((n - 1) as nat);
            Countdown { delay: count_down(c.delay), sound: count_down(c.sound) }
        }
    }

    /// Both registers at zero.
    pub fn new() -> (r: Countdown)
        ensures
            r.delay == 0 && r.sound == 0,
    {
        Countdown { delay: 0, sound: 0 }
    }

    /// One tick of the clock: each register that is not zero goes down by 1.
    pub fn tick(&mut self)
        ensures
            final(self).delay == count_down(old(self).delay),
            final(self).sound == count_down(old(self).sound),
    {
        if self.delay > 0 {
            self.delay = self.delay - 1;
        }
        if self.sound > 0 {
            self.sound = self.sound - 1;
        }
    }
}

/// However often the clock ticks, a delay timer at 0 stays at 0: it never
/// wraps to 0xFF. The same holds of the sound timer.
pub proof fn lemma_countdown_floor(c: Countdown, n: nat)
    ensures
        c.delay == 0 ==> c.ticked(n).delay == 0,
        c.sound == 0 ==> c.ticked(n).sound == 0,
    decreases n,
{
    if n > 0 {
        lemma_countdown_floor(c, (n - 1) as nat);
    }
}

} // verus!
