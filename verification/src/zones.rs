//! Zone mapping: spreading a four-color snapshot over the whole strip.
//!
//! The strip splits into four contiguous zones. With `q = leds / 4`, the
//! first three zones hold `q` LEDs each and the fourth holds the remainder
//! `leds - 3*q`, so the four sizes always sum to the LED count. Each zone is
//! filled uniformly with its snapshot color.

use vstd::prelude::*;
use crate::{ColorSnapshot, Rgb};

verus! {

/// Which zone LED `i` belongs to on a strip of `leds` LEDs.
pub open spec fn zone_index(leds: int, i: int) -> int {
    let q = leds / 4;
    if i < q {
        0
    } else if i < 2 * q {
        1
    } else if i < 3 * q {
        2
    } else {
        3
    }
}

/// The whole strip, zone by zone: LED `i` shows its zone's snapshot color.
pub open spec fn zone_buffer(snap: ColorSnapshot, leds: int) -> Seq<Rgb> {
    Seq::new(leds as nat, |i: int| snap.zone(zone_index(leds, i)))
}

/// The four zone sizes are non-negative, the fourth is never empty, and they
/// sum exactly to the LED count, for every count of at least one.
pub proof fn lemma_zone_sizes(leds: int)
    requires
        leds >= 1,
    ensures
        leds / 4 >= 0,
        leds - 3 * (leds / 4) >= 1,
        (leds / 4) + (leds / 4) + (leds / 4) + (leds - 3 * (leds / 4)) == leds,
{
    vstd::arithmetic::div_mod::lemma_fundamental_div_mod(leds, 4);
}

/// Paint a snapshot onto a strip of `leds` LEDs, one uniform color per zone.
pub fn map_zones(snap: &ColorSnapshot, leds: usize) -> (buf: Vec<Rgb>)
    requires
        leds >= 1,
    ensures
        buf@.len() == leds,
        forall|i: int| 0 <= i < leds ==> buf@[i] == snap.zone(zone_index(leds as int, i)),
        buf@ == zone_buffer(*snap, leds as int),
{
    let q: usize = leds / 4;
    proof {
        vstd::arithmetic::div_mod::lemma_fundamental_div_mod(leds as int, 4);
    }
    let mut buf: Vec<Rgb> = Vec::new();
    let mut i: usize = 0;
    while i < leds
        invariant
            i <= leds,
            q == leds as int / 4,
            3 * q <= leds,
            buf@.len() == i,
            forall|j: int| 0 <= j < i ==> buf@[j] == snap.zone(zone_index(leds as int, j)),
        decreases leds - i,
    {
        let c = if i < q {
            snap.zone1
        } else if i < 2 * q {
            snap.zone2
        } else if i < 3 * q {
            snap.zone3
        } else {
            snap.zone4
        };
        buf.push(c);
        i = i + 1;
    }
    proof {
        assert(buf@ =~= zone_buffer(*snap, leds as int));
    }
    buf
}

} // verus!
