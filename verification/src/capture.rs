//! The capture loop's decisions: what each cadence tick contributes to the
//! channel, and when the loop stops.
//!
//! The outside work of a tick — reading the source, analyzing the raw image,
//! encoding it — happens at the caller; the loop's logic takes the tick's
//! outcome and decides. Every tick, whatever its outcome, is followed by the
//! same fixed cadence delay (`CADENCE_MS`), measured from the start of one
//! capture to the start of the next.

use vstd::prelude::*;
use crate::channel::FrameChannel;
use crate::packet::{FramePacket, PacketView};

verus! {

/// What one cadence tick produced.
pub enum TickOutcome {
    /// The source yielded a frame; analysis and encoding gave this packet.
    Captured(FramePacket),
    /// The source yielded a zero-sized image: not ready yet, not an error.
    Empty,
    /// One capture attempt failed transiently; the loop retries next tick.
    ReadFailed,
}

/// The packets a schedule of ticks contributes, in order: one per captured
/// frame, none for an empty frame or a transient failure.
pub open spec fn captured_packets(ticks: Seq<TickOutcome>) -> Seq<PacketView>
    decreases ticks.len(),
{
    if ticks.len() == 0 {
        Seq::empty()
    } else {
        let rest = captured_packets(ticks.skip(1));
        match ticks[0] {
            TickOutcome::Captured(p) => seq![p@] + rest,
            TickOutcome::Empty => rest,
            TickOutcome::ReadFailed => rest,
        }
    }
}

/// Splitting a tick schedule splits its contribution at the matching point.
pub proof fn lemma_captured_packets_append(a: Seq<TickOutcome>, b: Seq<TickOutcome>)
    ensures
        captured_packets(a + b) == captured_packets(a) + captured_packets(b),
    decreases a.len(),
{
    if a.len() == 0 {
        assert(a + b =~= b);
        assert(captured_packets(a) + captured_packets(b) =~= captured_packets(b));
    } else {
        assert((a + b).skip(1) =~= a.skip(1) + b);
        lemma_captured_packets_append(a.skip(1), b);
        assert(captured_packets(a + b) =~= captured_packets(a) + captured_packets(b));
    }
}

/// One tick of the capture loop. A captured packet goes onto the channel; an
/// empty frame or a transient read failure contributes nothing and the loop
/// goes on. The loop stops (`false`) only when the channel can no longer
/// take a packet — its consumer is gone.
pub fn capture_tick(channel: &mut FrameChannel, outcome: TickOutcome) -> (go_on: bool)
    ensures
        final(channel).is_closed() == old(channel).is_closed(),
        match outcome {
            TickOutcome::Captured(p) => {
                if old(channel).is_closed() {
                    !go_on && final(channel).pending() == old(channel).pending()
                } else {
                    go_on && final(channel).pending() == old(channel).pending().push(p@)
                }
            },
            TickOutcome::Empty => go_on && final(channel).pending() == old(channel).pending(),
            TickOutcome::ReadFailed => go_on && final(channel).pending() == old(
                channel,
            ).pending(),
        },
{
    match outcome {
        TickOutcome::Captured(p) => match channel.push(p) {
            Ok(()) => true,
            Err(_) => false,
        },
        TickOutcome::Empty => true,
        TickOutcome::ReadFailed => true,
    }
}

/// The capture loop over a finite schedule of tick outcomes, against an open
/// channel: every captured packet lands on the channel, in capture order;
/// empty frames and transient failures leave no trace.
pub fn run_capture(channel: &mut FrameChannel, ticks: Vec<TickOutcome>)
    requires
        !old(channel).is_closed(),
    ensures
        !final(channel).is_closed(),
        final(channel).pending() == old(channel).pending() + captured_packets(ticks@),
{
    let ghost all = ticks@;
    let n = ticks.len();
    let mut ticks = ticks;
    for i in 0..n
        invariant
            n == all.len(),
            ticks@ == all.skip(i as int),
            !channel.is_closed(),
            channel.pending() == old(channel).pending() + captured_packets(all.take(i as int)),
    {
        let outcome = ticks.remove(0);
        proof {
            assert(outcome == all[i as int]);
            assert(ticks@ =~= all.skip(i + 1));
        }
        let go_on = capture_tick(channel, outcome);
        proof {
            assert(go_on);
            let t = all[i as int];
            assert(all.take(i + 1) =~= all.take(i as int) + seq![t]);
            lemma_captured_packets_append(all.take(i as int), seq![t]);
            assert(seq![t].skip(1) =~= Seq::<TickOutcome>::empty());
            assert(captured_packets(Seq::<TickOutcome>::empty()) =~= Seq::<PacketView>::empty());
            match t {
                TickOutcome::Captured(p) => {
                    assert(captured_packets(seq![t]) =~= seq![p@]);
                },
                TickOutcome::Empty => {
                    assert(captured_packets(seq![t]) =~= Seq::<PacketView>::empty());
                },
                TickOutcome::ReadFailed => {
                    assert(captured_packets(seq![t]) =~= Seq::<PacketView>::empty());
                },
            }
            assert(channel.pending() =~= old(channel).pending() + captured_packets(
                all.take(i + 1),
            ));
        }
    }
    proof {
        assert(all.take(n as int) =~= all);
    }
}

} // verus!
