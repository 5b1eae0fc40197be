//! TPM2-style wire framing for the LED driver.
//!
//! A frame is: start marker `0xC9`, a kind byte (`0xDA` data, `0xAA` ping),
//! a 16-bit big-endian payload length, the payload (three bytes per LED, in
//! LED order), and the end marker `0x36`. There is no checksum or escaping.

use vstd::prelude::*;
use crate::Rgb;

verus! {

pub const TPM2_START: u8 = 0xC9;
pub const TPM2_TYPE_DATA: u8 = 0xDA;
pub const TPM2_TYPE_PING: u8 = 0xAA;
pub const TPM2_END: u8 = 0x36;

/// The largest LED count whose payload length (three bytes per LED) still
/// fits the 16-bit length field: 65535 / 3.
pub const MAX_FRAME_LEDS: usize = 21845;

/// The three payload bytes of one LED color, in R, G, B order.
pub open spec fn color_bytes(c: Rgb) -> Seq<u8> {
    seq![c.red, c.green, c.blue]
}

/// The payload of a data frame: the colors' bytes, concatenated in order.
pub open spec fn payload_bytes(colors: Seq<Rgb>) -> Seq<u8>
    decreases colors.len(),
{
    if colors.len() == 0 {
        Seq::empty()
    } else {
        color_bytes(colors[0]) + payload_bytes(colors.drop_first())
    }
}

/// A whole frame of the given kind carrying the given colors.
pub open spec fn frame_bytes(colors: Seq<Rgb>, kind: u8) -> Seq<u8> {
    seq![
        TPM2_START,
        kind,
        (((colors.len() * 3) as int / 256) as u8),
        (((colors.len() * 3) as int % 256) as u8),
    ] + payload_bytes(colors) + seq![TPM2_END]
}

pub proof fn lemma_payload_len(colors: Seq<Rgb>)
    ensures
        payload_bytes(colors).len() == 3 * colors.len(),
    decreases colors.len(),
{
    if colors.len() > 0 {
        lemma_payload_len(colors.drop_first());
    }
}

proof fn lemma_payload_push(colors: Seq<Rgb>, c: Rgb)
    ensures
        payload_bytes(colors.push(c)) == payload_bytes(colors) + color_bytes(c),
    decreases colors.len(),
{
    if colors.len() == 0 {
        assert(colors.push(c)[0] == c);
        assert(colors.push(c).drop_first() =~= Seq::<Rgb>::empty());
        assert(payload_bytes(colors.push(c)) == color_bytes(c) + payload_bytes(Seq::<Rgb>::empty()));
        assert(payload_bytes(colors.push(c)) =~= payload_bytes(colors) + color_bytes(c));
    } else {
        assert(colors.push(c)[0] == colors[0]);
        assert(colors.push(c).drop_first() =~= colors.drop_first().push(c));
        lemma_payload_push(colors.drop_first(), c);
        assert(payload_bytes(colors.push(c))
            == color_bytes(colors[0]) + (payload_bytes(colors.drop_first()) + color_bytes(c)));
        assert(payload_bytes(colors) == color_bytes(colors[0]) + payload_bytes(colors.drop_first()));
        assert(payload_bytes(colors.push(c)) =~= payload_bytes(colors) + color_bytes(c));
    }
}

/// Shape of every data frame: length `5 + 3N`, the fixed markers and kind
/// byte, and the payload length split big-endian over bytes 2 and 3.
pub proof fn lemma_data_frame_shape(colors: Seq<Rgb>)
    requires
        colors.len() <= MAX_FRAME_LEDS,
    ensures
        frame_bytes(colors, TPM2_TYPE_DATA).len() == 5 + 3 * colors.len(),
        frame_bytes(colors, TPM2_TYPE_DATA)[0] == TPM2_START,
        frame_bytes(colors, TPM2_TYPE_DATA)[1] == TPM2_TYPE_DATA,
        frame_bytes(colors, TPM2_TYPE_DATA)[2] == (3 * colors.len()) as int / 256,
        frame_bytes(colors, TPM2_TYPE_DATA)[3] == (3 * colors.len()) as int % 256,
        frame_bytes(colors, TPM2_TYPE_DATA).last() == TPM2_END,
{
    lemma_payload_len(colors);
}

/// Encode a frame of the given kind. This is the only place frame bytes are
/// produced; `pack` and `ping` fix the kind byte.
pub fn pack_type(colors: &Vec<Rgb>, kind: u8) -> (packet: Vec<u8>)
    requires
        colors@.len() <= MAX_FRAME_LEDS,
    ensures
        packet@ == frame_bytes(colors@, kind),
{
    let mut packet: Vec<u8> = Vec::new();

    packet.push(TPM2_START);
    packet.push(kind);

    let len: u16 = (colors.len() as u16) * 3;
    proof {
        assert(len >> 8 == len / 256) by (bit_vector);
        assert(len & 0xFF == len % 256) by (bit_vector);
    }
    packet.push((len >> 8) as u8);
    packet.push((len & 0xFF) as u8);

    let ghost header: Seq<u8> = packet@;

    let mut i: usize = 0;
    while i < colors.len()
        invariant
            i <= colors@.len(),
            colors@.len() <= MAX_FRAME_LEDS,
            packet@ == header + payload_bytes(colors@.take(i as int)),
        decreases colors@.len() - i,
    {
        let c = colors[i];
        packet.push(c.red);
        packet.push(c.green);
        packet.push(c.blue);
        proof {
            assert(colors@.take(i + 1) =~= colors@.take(i as int).push(colors@[i as int]));
            lemma_payload_push(colors@.take(i as int), colors@[i as int]);
            assert(packet@ =~= header + payload_bytes(colors@.take(i + 1)));
        }
        i = i + 1;
    }

    packet.push(TPM2_END);
    proof {
        assert(colors@.take(colors@.len() as int) =~= colors@);
        assert(packet@ =~= frame_bytes(colors@, kind));
    }
    packet
}

/// Encode a data frame carrying the given LED buffer.
pub fn pack(colors: &Vec<Rgb>) -> (packet: Vec<u8>)
    requires
        colors@.len() <= MAX_FRAME_LEDS,
    ensures
        packet@ == frame_bytes(colors@, TPM2_TYPE_DATA),
{
    pack_type(colors, TPM2_TYPE_DATA)
}

/// Encode a ping frame: empty payload, so exactly the five fixed bytes.
pub fn ping() -> (packet: Vec<u8>)
    ensures
        packet@ == frame_bytes(Seq::<Rgb>::empty(), TPM2_TYPE_PING),
        packet@ == seq![TPM2_START, TPM2_TYPE_PING, 0u8, 0u8, TPM2_END],
{
    let empty: Vec<Rgb> = Vec::new();
    let packet = pack_type(&empty, TPM2_TYPE_PING);
    proof {
        assert(packet@ =~= seq![TPM2_START, TPM2_TYPE_PING, 0u8, 0u8, TPM2_END]);
    }
    packet
}

} // verus!
