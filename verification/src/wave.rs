//! The hue-rotation wave animation.
//!
//! The state is a hue angle in whole degrees, `[0, 360)`, and a ring of
//! trailing colors, newest first, whose length is fixed at the LED count.
//! Each tick advances the hue by a fixed increment, takes the color for the
//! new hue (computed outside this crate, where the float color conversion
//! lives), drops the oldest ring entry and inserts the new color at the
//! front — always both, so the ring never grows.

use vstd::prelude::*;
use crate::Rgb;
use crate::tpm2::MAX_FRAME_LEDS;

verus! {

/// One full turn of the hue circle, in degrees.
pub const HUE_TURN: u16 = 360;

/// The canonical hue increment per tick, in degrees.
pub const HUE_STEP: u16 = 1;

/// The hue reached from `h` after `k` ticks of increment `d`, one modular
/// step at a time, as the animation takes them.
pub open spec fn hue_after(h: int, d: int, k: nat) -> int
    decreases k,
{
    if k == 0 {
        h
    } else {
        (hue_after(h, d, (k - 1) as nat) + d) % 360
    }
}

/// Stepping the hue `k` times lands on `(h + k*d) mod 360`: the wave's hue
/// rotates uniformly, never drifting from the closed form.
pub proof fn lemma_hue_rotation(h: int, d: int, k: nat)
    requires
        0 <= h < 360,
        0 <= d,
    ensures
        hue_after(h, d, k) == (h + k * d) % 360,
    decreases k,
{
    if k == 0 {
        vstd::arithmetic::div_mod::lemma_small_mod(h as nat, 360);
    } else {
        lemma_hue_rotation(h, d, (k - 1) as nat);
        assert(k * d == (k - 1) * d + d) by (nonlinear_arith);
        vstd::arithmetic::div_mod::lemma_add_mod_noop_right(d, h + (k - 1) * d, 360);
    }
}

/// The wave animation's state.
pub struct WaveState {
    /// Current hue angle in degrees, always below a full turn.
    pub hue: u16,
    /// Hue increment per tick, in degrees.
    pub step: u16,
    /// The trailing colors, newest first; its length is the LED count and
    /// never changes.
    pub ring: Vec<Rgb>,
}

impl WaveState {
    pub open spec fn wf(self) -> bool {
        &&& self.hue < 360
        &&& self.step < 360
        &&& 1 <= self.ring@.len() <= MAX_FRAME_LEDS
    }

    /// A wave over `leds` LEDs, starting black at the given hue.
    pub fn new(leds: usize, hue: u16, step: u16) -> (w: WaveState)
        requires
            1 <= leds <= MAX_FRAME_LEDS,
            hue < 360,
            step < 360,
        ensures
            w.wf(),
            w.hue == hue,
            w.step == step,
            w.ring@.len() == leds,
            forall|i: int| 0 <= i < leds ==> w.ring@[i] == (Rgb { red: 0, green: 0, blue: 0 }),
    {
        let mut ring: Vec<Rgb> = Vec::new();
        let mut i: usize = 0;
        while i < leds
            invariant
                i <= leds,
                ring@.len() == i,
                forall|j: int| 0 <= j < i ==> ring@[j] == (Rgb { red: 0, green: 0, blue: 0 }),
            decreases leds - i,
        {
            ring.push(Rgb { red: 0, green: 0, blue: 0 });
            i = i + 1;
        }
        WaveState { hue, step, ring }
    }

    /// The hue the next tick will advance to.
    pub fn next_hue(&self) -> (h: u16)
        requires
            self.wf(),
        ensures
            h as int == (self.hue as int + self.step as int) % 360,
            h < 360,
    {
        (self.hue + self.step) % HUE_TURN
    }

    /// Advance one tick: step the hue and shift `c`, the color for the new
    /// hue, into the front of the ring while the oldest entry leaves. The
    /// ring's length is invariant.
    pub fn tick(&mut self, c: Rgb)
        requires
            old(self).wf(),
        ensures
            final(self).wf(),
            final(self).hue as int == (old(self).hue as int + old(self).step as int) % 360,
            final(self).step == old(self).step,
            final(self).ring@ == seq![c] + old(self).ring@.drop_last(),
            final(self).ring@.len() == old(self).ring@.len(),
    {
        self.hue = (self.hue + self.step) % HUE_TURN;
        self.ring.pop();
        self.ring.insert(0, c);
        proof {
            assert(self.ring@ =~= seq![c] + old(self).ring@.drop_last());
        }
    }

    /// The current buffer, front to back: newest color first.
    pub fn buffer(&self) -> (buf: &Vec<Rgb>)
        ensures
            buf@ == self.ring@,
    {
        &self.ring
    }
}

} // verus!
