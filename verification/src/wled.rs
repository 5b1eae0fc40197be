//! Device-control messages for the LED driver, and the parse of its
//! LED-count discovery reply.
//!
//! Control commands travel as raw JSON-style byte strings outside the frame
//! protocol: `{"on":true}`, `{"on":false}`, `{"on":"t"}`, `{"bri":<0-255>}`.

use vstd::prelude::*;

verus! {

/// A message for the LED driver: either an already-encoded frame or one of
/// the textual device-control commands.
pub enum WLEDMessage {
    Raw(Vec<u8>),
    On,
    Off,
    Toggle,
    AdjustBrightness(u8),
}

/// Failure of the transport that carries these messages. The writing itself
/// happens outside this crate; this is the error type it reports with.
#[derive(Clone, Copy, PartialEq, Eq, Structural, Debug)]
pub enum Error {
    PortNotSet,
    IO,
}

/// The ASCII digit for `n`, `0 <= n <= 9`.
pub open spec fn digit(n: int) -> u8 {
    (48 + n) as u8
}

/// The shortest decimal rendering of a byte value: one to three ASCII digits,
/// no leading zeros.
pub open spec fn dec_bytes(n: u8) -> Seq<u8> {
    if n < 10 {
        seq![digit(n as int)]
    } else if n < 100 {
        seq![digit(n as int / 10), digit(n as int % 10)]
    } else {
        seq![digit(n as int / 100), digit((n as int / 10) % 10), digit(n as int % 10)]
    }
}

impl WLEDMessage {
    /// The exact bytes this message puts on the wire.
    pub open spec fn bytes_spec(self) -> Seq<u8> {
        match self {
            WLEDMessage::Raw(packet) => packet@,
            // {"on":true}
            WLEDMessage::On => seq![123u8, 34, 111, 110, 34, 58, 116, 114, 117, 101, 125],
            // {"on":false}
            WLEDMessage::Off => seq![123u8, 34, 111, 110, 34, 58, 102, 97, 108, 115, 101, 125],
            // {"on":"t"}
            WLEDMessage::Toggle => seq![123u8, 34, 111, 110, 34, 58, 34, 116, 34, 125],
            // {"bri":<n>}
            WLEDMessage::AdjustBrightness(b) => seq![123u8, 34, 98, 114, 105, 34, 58] + dec_bytes(
                b,
            ) + seq![125u8],
        }
    }

    /// Encode this message as its wire bytes.
    pub fn encode(&self) -> (data: Vec<u8>)
        ensures
            data@ == self.bytes_spec(),
    {
        match self {
            WLEDMessage::Raw(packet) => {
                let mut data: Vec<u8> = Vec::new();
                let mut i: usize = 0;
                while i < packet.len()
                    invariant
                        i <= packet@.len(),
                        data@ == packet@.take(i as int),
                    decreases packet@.len() - i,
                {
                    data.push(packet[i]);
                    proof {
                        assert(data@ =~= packet@.take(i + 1));
                    }
                    i = i + 1;
                }
                proof {
                    assert(data@ =~= packet@);
                }
                data
            },
            WLEDMessage::On => {
                let data: Vec<u8> = vec![123u8, 34, 111, 110, 34, 58, 116, 114, 117, 101, 125];
                proof {
                    assert(data@ =~= self.bytes_spec());
                }
                data
            },
            WLEDMessage::Off => {
                let data: Vec<u8> = vec![123u8, 34, 111, 110, 34, 58, 102, 97, 108, 115, 101, 125];
                proof {
                    assert(data@ =~= self.bytes_spec());
                }
                data
            },
            WLEDMessage::Toggle => {
                let data: Vec<u8> = vec![123u8, 34, 111, 110, 34, 58, 34, 116, 34, 125];
                proof {
                    assert(data@ =~= self.bytes_spec());
                }
                data
            },
            WLEDMessage::AdjustBrightness(b) => {
                let mut data: Vec<u8> = vec![123u8, 34, 98, 114, 105, 34, 58];
                push_decimal(&mut data, *b);
                data.push(125);
                proof {
                    assert(data@ =~= self.bytes_spec());
                }
                data
            },
        }
    }
}

/// Append the decimal digits of `n` to `out`.
fn push_decimal(out: &mut Vec<u8>, n: u8)
    ensures
        final(out)@ == old(out)@ + dec_bytes(n),
{
    if n >= 100 {
        out.push(48 + n / 100);
    }
    if n >= 10 {
        out.push(48 + (n / 10) % 10);
    }
    out.push(48 + n % 10);
    proof {
        assert(final(out)@ =~= old(out)@ + dec_bytes(n));
    }
}

/// How many separator bytes (ASCII comma, 44) a discovery reply holds.
pub open spec fn sep_count(reply: Seq<u8>) -> nat
    decreases reply.len(),
{
    if reply.len() == 0 {
        0
    } else {
        sep_count(reply.drop_last()) + if reply.last() == 44 {
            1nat
        } else {
            0nat
        }
    }
}

/// The LED count a discovery reply stands for: no bytes means no LEDs were
/// reported; otherwise the reply lists one entry per LED, comma-separated,
/// so the count is one more than the number of separators. A structured
/// reply is a bracketed list and is counted the same way.
pub open spec fn led_count_spec(reply: Seq<u8>) -> nat {
    if reply.len() == 0 {
        0
    } else {
        sep_count(reply) + 1
    }
}

/// Infer the LED count from the bytes the driver sent back during the
/// startup discovery handshake.
pub fn count_leds(reply: &Vec<u8>) -> (n: usize)
    requires
        reply@.len() < usize::MAX,
    ensures
        n == led_count_spec(reply@),
{
    if reply.len() == 0 {
        return 0;
    }
    let mut seps: usize = 0;
    let mut i: usize = 0;
    while i < reply.len()
        invariant
            i <= reply@.len(),
            reply@.len() < usize::MAX,
            seps == sep_count(reply@.take(i as int)),
            seps <= i,
        decreases reply@.len() - i,
    {
        if reply[i] == 44 {
            seps = seps + 1;
        }
        proof {
            assert(reply@.take(i + 1).drop_last() =~= reply@.take(i as int));
            assert(reply@.take(i + 1).last() == reply@[i as int]);
        }
        i = i + 1;
    }
    proof {
        assert(reply@.take(reply@.len() as int) =~= reply@);
    }
    seps + 1
}

} // verus!
