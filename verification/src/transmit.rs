//! The transmit scheduler's per-tick logic.
//!
//! The scheduler owns the last-transmitted frame (a ping at first, so an
//! idle pipeline keeps emitting keepalives) and a count of ticks since the
//! last flush. Each tick it drains the render channel: frames coalesce so
//! only the newest survives, device commands are written out at once in
//! arrival order, and a shutdown ends the loop, dropping whatever follows
//! it in the same drain. It then flushes the surviving frame if its bytes
//! differ from the last-transmitted frame, or unconditionally once the
//! elapsed-tick counter passes the threshold. The writing itself — and the
//! sleeping — happen outside this crate; a tick returns the byte strings to
//! write, in order.

use vstd::prelude::*;
use crate::RenderMessage;
use crate::tpm2;
use crate::Rgb;

verus! {

/// The canonical number of ticks after which a flush is forced even with
/// no change, so the driver keeps seeing keepalives.
pub const FLUSH_THRESHOLD: u64 = 100;

/// What draining a batch of render messages means: commands collected in
/// arrival order, the newest frame surviving, and everything after a
/// shutdown ignored.
pub ghost struct DrainSpec {
    /// The device-command byte strings, in arrival order.
    pub writes: Seq<Seq<u8>>,
    /// The frame left standing: the last one before any shutdown, or the
    /// starting frame if none arrived.
    pub frame: Seq<u8>,
    /// Whether a shutdown message was reached.
    pub quit: bool,
}

pub open spec fn drain(cur: Seq<u8>, msgs: Seq<RenderMessage>) -> DrainSpec
    decreases msgs.len(),
{
    if msgs.len() == 0 {
        DrainSpec { writes: Seq::empty(), frame: cur, quit: false }
    } else {
        match msgs[0] {
            RenderMessage::Quit => DrainSpec { writes: Seq::empty(), frame: cur, quit: true },
            RenderMessage::Render(d) => drain(d@, msgs.drop_first()),
            RenderMessage::WLED(w) => {
                let rest = drain(cur, msgs.drop_first());
                DrainSpec {
                    writes: seq![w.bytes_spec()] + rest.writes,
                    frame: rest.frame,
                    quit: rest.quit,
                }
            },
        }
    }
}

/// Whether a tick that leaves candidate `eff` standing must flush: the
/// counter, this tick included, has passed the threshold, or the candidate's
/// bytes differ from the last-transmitted frame's.
pub open spec fn flush_due(elapsed: u64, threshold: u64, eff: Seq<u8>, last: Seq<u8>) -> bool {
    elapsed + 1 > threshold || eff != last
}

/// The transmit scheduler's state between ticks.
pub struct Transmitter {
    /// The last frame handed out for transmission.
    pub last: Vec<u8>,
    /// Ticks since the last flush.
    pub elapsed: u64,
    /// Forced-flush threshold, in ticks.
    pub threshold: u64,
}

/// What one tick asks of the transport.
pub struct TxTick {
    /// The byte strings to write, in order: the drained device commands,
    /// then the flushed frame if one is due.
    pub writes: Vec<Vec<u8>>,
    /// Whether the loop must terminate after these writes.
    pub quit: bool,
}

impl Transmitter {
    pub open spec fn wf(self) -> bool {
        &&& self.elapsed <= self.threshold
        &&& self.threshold < u64::MAX
    }

    /// A fresh scheduler: the last-transmitted frame starts as a ping, so
    /// an idle pipeline degrades to a periodic ping loop.
    pub fn new(threshold: u64) -> (t: Transmitter)
        requires
            threshold < u64::MAX,
        ensures
            t.wf(),
            t.last@ == tpm2::frame_bytes(Seq::<Rgb>::empty(), tpm2::TPM2_TYPE_PING),
            t.elapsed == 0,
            t.threshold == threshold,
    {
        Transmitter { last: tpm2::ping(), elapsed: 0, threshold }
    }

    /// Run one tick over a drained batch of render messages: the returned
    /// writes are the drained device commands in order, then, unless the
    /// batch shut the loop down, the surviving frame whenever a flush is
    /// due. A shutdown leaves the state untouched and drops everything
    /// after it.
    pub fn tick(&mut self, msgs: &Vec<RenderMessage>) -> (out: TxTick)
        requires
            old(self).wf(),
        ensures
            final(self).wf(),
            final(self).threshold == old(self).threshold,
            ({
                let d = drain(old(self).last@, msgs@);
                &&& out.quit == d.quit
                &&& forall|j: int| 0 <= j < d.writes.len() ==> out.writes@[j]@ == d.writes[j]
                &&& d.quit ==> out.writes@.len() == d.writes.len() && *final(self) == *old(self)
                &&& !d.quit ==> ({
                    let due = flush_due(
                        old(self).elapsed,
                        old(self).threshold,
                        d.frame,
                        old(self).last@,
                    );
                    &&& due ==> out.writes@.len() == d.writes.len() + 1
                        && out.writes@.last()@ == d.frame && final(self).last@ == d.frame
                        && final(self).elapsed == 0
                    &&& !due ==> out.writes@.len() == d.writes.len() && final(self).last@ == old(
                        self,
                    ).last@ && final(self).elapsed == old(self).elapsed + 1
                })
            }),
    {
        let ghost full = drain(self.last@, msgs@);
        let mut writes: Vec<Vec<u8>> = Vec::new();
        let mut cand: Vec<u8> = clone_bytes(&self.last);
        let mut quit = false;
        let mut i: usize = 0;
        proof {
            assert(msgs@.skip(0) =~= msgs@);
            assert(full.writes.skip(0) =~= full.writes);
        }
        while i < msgs.len() && !quit
            invariant
                i <= msgs@.len(),
                full == drain(old(self).last@, msgs@),
                self == old(self),
                writes@.len() <= full.writes.len(),
                forall|j: int| 0 <= j < writes@.len() ==> writes@[j]@ == full.writes[j],
                !quit ==> drain(cand@, msgs@.skip(i as int)) == (DrainSpec {
                    writes: full.writes.skip(writes@.len() as int),
                    frame: full.frame,
                    quit: full.quit,
                }),
                quit ==> full.quit && writes@.len() == full.writes.len(),
            decreases msgs@.len() - i,
        {
            proof {
                assert(msgs@.skip(i as int)[0] == msgs@[i as int]);
                assert(msgs@.skip(i as int).drop_first() =~= msgs@.skip(i + 1));
            }
            let ghost n0 = writes@.len() as int;
            match &msgs[i] {
                RenderMessage::Render(d) => {
                    proof {
                        assert(msgs@[i as int] == RenderMessage::Render(*d));
                    }
                    cand = clone_bytes(d);
                },
                RenderMessage::WLED(w) => {
                    proof {
                        assert(msgs@[i as int] == RenderMessage::WLED(*w));
                        assert(full.writes.skip(n0) == seq![w.bytes_spec()] + drain(
                            cand@,
                            msgs@.skip(i + 1),
                        ).writes);
                        assert(full.writes.skip(n0)[0] == full.writes[n0]);
                        assert(full.writes[n0] == w.bytes_spec());
                        assert(full.writes.skip(n0).drop_first() =~= full.writes.skip(n0 + 1));
                        assert((seq![w.bytes_spec()] + drain(cand@, msgs@.skip(i + 1)).writes)
                            .drop_first() =~= drain(cand@, msgs@.skip(i + 1)).writes);
                        assert(drain(cand@, msgs@.skip(i + 1)).writes == full.writes.skip(n0 + 1));
                        assert(drain(cand@, msgs@.skip(i + 1)) == (DrainSpec {
                            writes: full.writes.skip(n0 + 1),
                            frame: full.frame,
                            quit: full.quit,
                        }));
                    }
                    let bytes = w.encode();
                    writes.push(bytes);
                },
                RenderMessage::Quit => {
                    proof {
                        assert(msgs@[i as int] == RenderMessage::Quit);
                        assert(full.writes.skip(n0).len() == 0);
                    }
                    quit = true;
                },
            }
            i = i + 1;
        }
        if quit {
            return TxTick { writes, quit: true };
        }
        proof {
            assert(msgs@.skip(msgs@.len() as int) =~= Seq::<RenderMessage>::empty());
            assert(full.writes.skip(writes@.len() as int).len() == 0);
        }
        let due = self.elapsed >= self.threshold || !bytes_eq(&cand, &self.last);
        if due {
            self.last = clone_bytes(&cand);
            self.elapsed = 0;
            writes.push(cand);
        } else {
            self.elapsed = self.elapsed + 1;
        }
        TxTick { writes, quit: false }
    }
}

/// Diff suppression: a drained batch whose only frame carries the very
/// bytes last transmitted leaves no command and no changed candidate, and
/// while the elapsed counter is still below the threshold no flush is due —
/// so such a tick issues zero writes.
pub proof fn lemma_diff_suppression(f: Vec<u8>, elapsed: u64, threshold: u64)
    requires
        elapsed < threshold,
    ensures
        !drain(f@, seq![RenderMessage::Render(f)]).quit,
        drain(f@, seq![RenderMessage::Render(f)]).frame == f@,
        drain(f@, seq![RenderMessage::Render(f)]).writes.len() == 0,
        !flush_due(elapsed, threshold, f@, f@),
{
    let msgs = seq![RenderMessage::Render(f)];
    assert(msgs[0] == RenderMessage::Render(f));
    assert(msgs.drop_first() =~= Seq::<RenderMessage>::empty());
    assert(drain(f@, Seq::<RenderMessage>::empty()) == (DrainSpec {
        writes: Seq::<Seq<u8>>::empty(),
        frame: f@,
        quit: false,
    }));
    assert(drain(f@, msgs) == drain(f@, Seq::<RenderMessage>::empty()));
}

/// The elapsed counter and the number of flushes after `k` ticks in which
/// nothing arrives and so the candidate never changes, starting right after
/// a flush. Each such tick steps exactly as `tick` does with an empty batch:
/// flush only once the counter, the tick included, passes the threshold.
pub open spec fn quiet_run(threshold: u64, k: nat) -> (int, nat)
    decreases k,
{
    if k == 0 {
        (0int, 0nat)
    } else {
        let (e, flushes) = quiet_run(threshold, (k - 1) as nat);
        if e + 1 > threshold {
            (0int, flushes + 1)
        } else {
            (e + 1, flushes)
        }
    }
}

/// Up to the threshold, quiet ticks only count: no flush, the counter at
/// `k`.
pub proof fn lemma_quiet_run_counts(threshold: u64, k: nat)
    requires
        k <= threshold,
    ensures
        quiet_run(threshold, k).0 == k,
        quiet_run(threshold, k).1 == 0,
    decreases k,
{
    if k > 0 {
        lemma_quiet_run_counts(threshold, (k - 1) as nat);
    }
}

/// Forced flush: after exactly `threshold + 1` quiet ticks there has been
/// exactly one flush, and the counter stands reset at zero.
pub proof fn lemma_forced_flush(threshold: u64)
    requires
        threshold < u64::MAX,
    ensures
        quiet_run(threshold, (threshold + 1) as nat) == (0int, 1nat),
{
    lemma_quiet_run_counts(threshold, threshold as nat);
}

/// Shutdown precedence: a drained batch of a frame, a shutdown, then
/// another frame shuts the loop down with no write at all — in particular
/// the frame queued behind the shutdown is never transmitted.
pub proof fn lemma_shutdown_precedence(last: Seq<u8>, a: Vec<u8>, b: Vec<u8>)
    ensures
        drain(
            last,
            seq![
                RenderMessage::Render(a),
                RenderMessage::Quit,
                RenderMessage::Render(b),
            ],
        ).quit,
        drain(
            last,
            seq![
                RenderMessage::Render(a),
                RenderMessage::Quit,
                RenderMessage::Render(b),
            ],
        ).writes.len() == 0,
{
    let msgs = seq![RenderMessage::Render(a), RenderMessage::Quit, RenderMessage::Render(b)];
    let tail = seq![RenderMessage::Quit, RenderMessage::Render(b)];
    assert(msgs[0] == RenderMessage::Render(a));
    assert(msgs.drop_first() =~= tail);
    assert(tail[0] == RenderMessage::Quit);
    assert(drain(a@, tail) == (DrainSpec {
        writes: Seq::<Seq<u8>>::empty(),
        frame: a@,
        quit: true,
    }));
    assert(drain(last, msgs) == drain(a@, tail));
}

/// Whether two byte strings are equal at every position.
pub fn bytes_eq(a: &Vec<u8>, b: &Vec<u8>) -> (r: bool)
    ensures
        r == (a@ == b@),
{
    if a.len() != b.len() {
        return false;
    }
    let mut i: usize = 0;
    while i < a.len()
        invariant
            i <= a@.len(),
            a@.len() == b@.len(),
            forall|j: int| 0 <= j < i ==> a@[j] == b@[j],
        decreases a@.len() - i,
    {
        if a[i] != b[i] {
            return false;
        }
        i = i + 1;
    }
    proof {
        assert(a@ =~= b@);
    }
    true
}

/// An owned copy of a byte string.
fn clone_bytes(v: &Vec<u8>) -> (r: Vec<u8>)
    ensures
        r@ == v@,
{
    let r = v.clone();
    proof {
        assert forall|i: int| 0 <= i < v@.len() implies r@[i] == v@[i] by {
            assert(vstd::pervasive::cloned::<u8>(v@[i], r@[i]));
        }
        assert(r@ =~= v@);
    }
    r
}

} // verus!
