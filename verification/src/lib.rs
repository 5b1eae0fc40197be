//! Core of an addressable-LED strip controller: frame encoding for the wire
//! protocol, the shared color-state bridge fed by an external broadcaster,
//! the wave and zone animations, and the step logic of the two scheduler
//! loops. I/O, timing and the platform glue live outside this crate.

use vstd::prelude::*;

pub mod animator;
pub mod bridge;
pub mod razer;
pub mod transmit;
pub mod tpm2;
pub mod wave;
pub mod wled;
pub mod zones;

verus! {

use crate::wled::WLEDMessage;

/// One LED color: a red/green/blue triple, one byte per channel.
#[derive(Clone, Copy, PartialEq, Eq, Structural, Debug)]
pub struct Rgb {
    pub red: u8,
    pub green: u8,
    pub blue: u8,
}

impl Rgb {
    pub fn new(red: u8, green: u8, blue: u8) -> (c: Rgb)
        ensures
            c == (Rgb { red, green, blue }),
    {
        Rgb { red, green, blue }
    }
}

/// Which animation feeds the strip: the local hue-rotation wave, or the
/// zone colors pushed by the external broadcaster.
#[derive(Clone, Copy, PartialEq, Eq, Structural, Debug)]
pub enum ColorState {
    Wave,
    Chroma,
}

/// A fully copied capture of the four zone colors pushed by the external
/// broadcaster at one point in time. It is replaced wholesale on each push,
/// never partially mutated.
#[derive(Clone, Copy, PartialEq, Eq, Structural, Debug)]
pub struct ColorSnapshot {
    pub zone1: Rgb,
    pub zone2: Rgb,
    pub zone3: Rgb,
    pub zone4: Rgb,
}

impl ColorSnapshot {
    /// The color of zone `i`, `0 <= i <= 3`.
    pub open spec fn zone(self, i: int) -> Rgb {
        if i == 0 {
            self.zone1
        } else if i == 1 {
            self.zone2
        } else if i == 2 {
            self.zone3
        } else {
            self.zone4
        }
    }
}

/// What the animation scheduler hands the transmit scheduler: an encoded
/// frame to coalesce, a device command to run at once, or the order to stop.
pub enum RenderMessage {
    Render(Vec<u8>),
    WLED(WLEDMessage),
    Quit,
}

/// What the user-facing menu hands the animation scheduler: a manual
/// animation override, or the order to stop.
pub enum TrayMessage {
    Quit,
    OverrideState(ColorState),
}

} // verus!
