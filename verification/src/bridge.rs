//! The color-state bridge: the one surface shared between the external
//! broadcaster's callback and the animation scheduler.
//!
//! The callback publishes liveness and color snapshots; the scheduler reads
//! the derived state and the latest snapshot. Values are owned and copied
//! wholesale — the bridge never keeps a reference into the caller's memory.
//! The callers serialize access (the callback and the scheduler each hold a
//! lock around one whole call), so each method sees and leaves a complete
//! value.

use vstd::prelude::*;
use crate::{ColorSnapshot, ColorState, Rgb};

verus! {

/// The bridge's cell: the latest pushed snapshot, if any, and the state
/// derived from the liveness signals.
pub struct ColorBridge {
    pub snapshot: Option<ColorSnapshot>,
    pub derived: ColorState,
}

impl ColorBridge {
    /// What `publish_status` leaves behind: a live signal arms Chroma mode
    /// and clears the stored snapshot; a not-live signal falls back to Wave
    /// only while no snapshot is stored.
    pub open spec fn after_status(self, live: bool) -> ColorBridge {
        if live {
            ColorBridge { snapshot: None, derived: ColorState::Chroma }
        } else if self.snapshot is None {
            ColorBridge { snapshot: self.snapshot, derived: ColorState::Wave }
        } else {
            self
        }
    }

    /// What `publish_colors` leaves behind: the snapshot is replaced
    /// wholesale and the derived state is kept at Chroma.
    pub open spec fn after_colors(self, snap: ColorSnapshot) -> ColorBridge {
        ColorBridge { snapshot: Some(snap), derived: ColorState::Chroma }
    }

    /// What `read` returns.
    pub open spec fn read_spec(self) -> (ColorState, Option<ColorSnapshot>) {
        (self.derived, self.snapshot)
    }

    /// A fresh bridge: no snapshot, wave animation.
    pub fn new() -> (b: ColorBridge)
        ensures
            b.snapshot is None,
            b.derived == ColorState::Wave,
    {
        ColorBridge { snapshot: None, derived: ColorState::Wave }
    }

    /// Record a liveness signal from the external broadcaster.
    pub fn publish_status(&mut self, live: bool)
        ensures
            *final(self) == old(self).after_status(live),
    {
        if live {
            self.snapshot = None;
            self.derived = ColorState::Chroma;
        } else if self.snapshot.is_none() {
            self.derived = ColorState::Wave;
        }
    }

    /// Store a copy of a pushed snapshot; Chroma mode stays armed.
    pub fn publish_colors(&mut self, snap: ColorSnapshot)
        ensures
            *final(self) == old(self).after_colors(snap),
    {
        self.snapshot = Some(snap);
        self.derived = ColorState::Chroma;
    }

    /// What the animation scheduler sees: the derived state and the latest
    /// snapshot, copied out.
    pub fn read(&self) -> (r: (ColorState, Option<ColorSnapshot>))
        ensures
            r == self.read_spec(),
    {
        (self.derived, self.snapshot)
    }
}

/// Every read is determined by the publishes before it: a live status arms
/// Chroma with the snapshot cleared; a pushed snapshot is then read back
/// whole, still in Chroma; a not-live status with nothing stored falls back
/// to Wave — whatever state the bridge started in.
pub proof fn lemma_bridge_reads(b: ColorBridge, snap: ColorSnapshot)
    ensures
        b.after_status(true).read_spec() == (ColorState::Chroma, Option::<ColorSnapshot>::None),
        b.after_status(true).after_colors(snap).read_spec() == (
            ColorState::Chroma,
            Some(snap),
        ),
        b.snapshot is None ==> b.after_status(false).read_spec() == (
            ColorState::Wave,
            Option::<ColorSnapshot>::None,
        ),
{
}

/// Whether a status payload reports the external source as live: any
/// nonzero value does.
pub fn status_is_live(raw: i32) -> (live: bool)
    ensures
        live == (raw != 0),
{
    raw != 0
}

/// The color packed into one broadcast word: red in the lowest byte, then
/// green, then blue; the top byte is unused.
pub open spec fn rgb_of_word(w: u32) -> Rgb {
    Rgb { red: (w & 0xff) as u8, green: ((w >> 8) & 0xff) as u8, blue: ((w >> 16) & 0xff) as u8 }
}

/// Unpack one broadcast color word.
pub fn color_from_data(data: u32) -> (c: Rgb)
    ensures
        c == rgb_of_word(data),
{
    proof {
        assert(data & 0xff < 256) by (bit_vector);
        assert((data >> 8) & 0xff < 256) by (bit_vector);
        assert((data >> 16) & 0xff < 256) by (bit_vector);
    }
    Rgb {
        red: (data & 0xff) as u8,
        green: ((data >> 8) & 0xff) as u8,
        blue: ((data >> 16) & 0xff) as u8,
    }
}

/// Decode a color broadcast payload: five packed words, the first reserved,
/// the next four the zone colors in order. Anything shorter is not a valid
/// payload and means "no update".
pub fn snapshot_from_words(words: &Vec<u32>) -> (r: Option<ColorSnapshot>)
    ensures
        match r {
            Some(s) => words@.len() >= 5 && s == (ColorSnapshot {
                zone1: rgb_of_word(words@[1]),
                zone2: rgb_of_word(words@[2]),
                zone3: rgb_of_word(words@[3]),
                zone4: rgb_of_word(words@[4]),
            }),
            None => words@.len() < 5,
        },
{
    if words.len() < 5 {
        return None;
    }
    Some(
        ColorSnapshot {
            zone1: color_from_data(words[1]),
            zone2: color_from_data(words[2]),
            zone3: color_from_data(words[3]),
            zone4: color_from_data(words[4]),
        },
    )
}

} // verus!
