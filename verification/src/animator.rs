//! The animation scheduler's per-tick logic.
//!
//! Each tick drains the menu channel — a shutdown ends the loop at once,
//! and of several overrides the last one wins — then picks the effective
//! state: the manual override while one is set, else the bridge's derived
//! state. In Wave mode the wave advances and its buffer is encoded; in
//! Chroma mode the latest snapshot is zone-mapped and encoded, and with no
//! snapshot at hand the tick produces no frame. The channel reads, the
//! float color conversion and the sleeping happen outside this crate; a
//! tick takes the drained batch and the wave color and returns the frame,
//! if any.

use vstd::prelude::*;
use crate::{ColorSnapshot, ColorState, Rgb, TrayMessage};
use crate::tpm2;
use crate::wave::WaveState;
use crate::zones;

verus! {

/// What draining a batch of menu messages means: the override left active,
/// and whether a shutdown was reached, everything after it ignored.
pub ghost struct TrayDrain {
    /// The active override afterwards: of several, the last before any
    /// shutdown.
    pub override_state: Option<ColorState>,
    /// Whether a shutdown message was reached.
    pub quit: bool,
}

pub open spec fn tray_drain(cur: Option<ColorState>, msgs: Seq<TrayMessage>) -> TrayDrain
    decreases msgs.len(),
{
    if msgs.len() == 0 {
        TrayDrain { override_state: cur, quit: false }
    } else {
        match msgs[0] {
            TrayMessage::Quit => TrayDrain { override_state: cur, quit: true },
            TrayMessage::OverrideState(s) => tray_drain(Some(s), msgs.drop_first()),
        }
    }
}

/// The state a tick animates in: the manual override while set, else the
/// state derived by the color bridge.
pub open spec fn effective(ov: Option<ColorState>, derived: ColorState) -> ColorState {
    match ov {
        Some(s) => s,
        None => derived,
    }
}

/// The animation scheduler's state between ticks.
pub struct Animator {
    /// The wave animation; its ring length is the LED count.
    pub wave: WaveState,
    /// The manual override, once one was chosen from the menu. It takes
    /// precedence until replaced; nothing in this loop clears it.
    pub override_state: Option<ColorState>,
}

/// What one tick produced.
pub struct AnimTick {
    /// The encoded data frame to forward, if this tick made one.
    pub frame: Option<Vec<u8>>,
    /// Whether the loop must terminate.
    pub quit: bool,
}

impl Animator {
    pub open spec fn wf(self) -> bool {
        self.wave.wf()
    }

    /// A scheduler for `leds` LEDs with no override active.
    pub fn new(leds: usize, hue: u16, step: u16) -> (a: Animator)
        requires
            1 <= leds <= tpm2::MAX_FRAME_LEDS,
            hue < 360,
            step < 360,
        ensures
            a.wf(),
            a.wave.ring@.len() == leds,
            a.wave.hue == hue,
            a.wave.step == step,
            a.override_state is None,
    {
        Animator { wave: WaveState::new(leds, hue, step), override_state: None }
    }

    /// Run one tick: drain the menu batch, then animate in the effective
    /// state. `derived` and `snap` are what the color bridge read gave;
    /// `wave_color` is the color for the hue the wave would advance to,
    /// used only in Wave mode.
    pub fn step(
        &mut self,
        msgs: &Vec<TrayMessage>,
        derived: ColorState,
        snap: &Option<ColorSnapshot>,
        wave_color: Rgb,
    ) -> (out: AnimTick)
        requires
            old(self).wf(),
        ensures
            final(self).wf(),
            final(self).wave.ring@.len() == old(self).wave.ring@.len(),
            final(self).wave.step == old(self).wave.step,
            ({
                let d = tray_drain(old(self).override_state, msgs@);
                &&& out.quit == d.quit
                &&& final(self).override_state == d.override_state
                &&& d.quit ==> out.frame is None && final(self).wave == old(self).wave
                &&& !d.quit ==> ({
                    let eff = effective(d.override_state, derived);
                    &&& eff is Wave ==> final(self).wave.ring@ == seq![wave_color] + old(
                        self,
                    ).wave.ring@.drop_last() && final(self).wave.hue as int == (
                    old(self).wave.hue as int + old(self).wave.step as int) % 360 && (
                    out.frame matches Some(f) && f@ == tpm2::frame_bytes(
                        final(self).wave.ring@,
                        tpm2::TPM2_TYPE_DATA,
                    ))
                    &&& eff is Chroma ==> final(self).wave == old(self).wave
                    &&& (eff is Chroma && snap is Some) ==> (out.frame matches Some(f) && f@
                        == tpm2::frame_bytes(
                        zones::zone_buffer(snap->0, old(self).wave.ring@.len() as int),
                        tpm2::TPM2_TYPE_DATA,
                    ))
                    &&& (eff is Chroma && snap is None) ==> out.frame is None
                })
            }),
    {
        let ghost d = tray_drain(self.override_state, msgs@);
        let mut quit = false;
        let mut i: usize = 0;
        proof {
            assert(msgs@.skip(0) =~= msgs@);
        }
        while i < msgs.len() && !quit
            invariant
                i <= msgs@.len(),
                self.wave == old(self).wave,
                d == tray_drain(old(self).override_state, msgs@),
                !quit ==> tray_drain(self.override_state, msgs@.skip(i as int)) == d,
                quit ==> d.quit && self.override_state == d.override_state,
            decreases msgs@.len() - i,
        {
            proof {
                assert(msgs@.skip(i as int)[0] == msgs@[i as int]);
                assert(msgs@.skip(i as int).drop_first() =~= msgs@.skip(i + 1));
            }
            match &msgs[i] {
                TrayMessage::Quit => {
                    proof {
                        assert(msgs@[i as int] == TrayMessage::Quit);
                    }
                    quit = true;
                },
                TrayMessage::OverrideState(s) => {
                    proof {
                        assert(msgs@[i as int] == TrayMessage::OverrideState(*s));
                    }
                    self.override_state = Some(*s);
                },
            }
            i = i + 1;
        }
        if quit {
            return AnimTick { frame: None, quit: true };
        }
        proof {
            assert(msgs@.skip(msgs@.len() as int) =~= Seq::<TrayMessage>::empty());
        }
        let state = match self.override_state {
            Some(s) => s,
            None => derived,
        };
        match state {
            ColorState::Wave => {
                self.wave.tick(wave_color);
                let frame = tpm2::pack(self.wave.buffer());
                AnimTick { frame: Some(frame), quit: false }
            },
            ColorState::Chroma => {
                match snap {
                    Some(s) => {
                        let leds = self.wave.buffer().len();
                        let buf = zones::map_zones(s, leds);
                        let frame = tpm2::pack(&buf);
                        AnimTick { frame: Some(frame), quit: false }
                    },
                    None => AnimTick { frame: None, quit: false },
                }
            },
        }
    }
}

} // verus!
