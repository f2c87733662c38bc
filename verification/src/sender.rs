//! The sender loop: drains the channel and serializes every packet as its
//! ordered message pair through the exclusive writer.

use vstd::prelude::*;
use crate::channel::FrameChannel;
use crate::packet::{packet_messages, stream_messages};
use crate::writer::ExclusiveWriter;

verus! {

/// Drains the channel, sending each packet's pair in order — binary frame,
/// then decimal metric — until the channel is empty (a clean end; the real
/// loop would suspend there) or a send fails (the loop stops at once, and
/// nothing later is ever sent).
///
/// The wire receives exactly the prefix of the packets' message stream that
/// the transport accepted: all of it when the transport never fails.
pub fn run_sender(channel: &mut FrameChannel, w: &mut ExclusiveWriter) -> (clean: bool)
    requires
        old(w).wf(),
    ensures
        final(w).wf(),
        final(w).fault() == old(w).fault(),
        final(channel).is_closed() == old(channel).is_closed(),
        final(w).sent() == old(w).sent() + stream_messages(old(channel).pending()).take(
            old(w).allowance(stream_messages(old(channel).pending()).len()) as int,
        ),
        clean <==> old(w).allowance(stream_messages(old(channel).pending()).len())
            == stream_messages(old(channel).pending()).len(),
        clean ==> final(channel).pending().len() == 0,
        old(w).fault() is None ==> clean,
    decreases old(channel).pending().len(),
{
    let ghost full = old(channel).pending();
    let ghost want = stream_messages(full).len();
    match channel.pop() {
        None => {
            proof {
                assert(full =~= Seq::<crate::packet::PacketView>::empty());
                assert(w.sent() =~= old(w).sent() + stream_messages(full).take(
                    old(w).allowance(want) as int,
                ));
            }
            true
        },
        Some(p) => {
            let ghost pair = packet_messages(p@);
            let ghost rest = full.skip(1);
            proof {
                assert(stream_messages(full) == pair + stream_messages(rest));
                assert(want == 2 + stream_messages(rest).len());
            }
            match w.send_pair(p) {
                Err(_) => {
                    proof {
                        assert(old(w).allowance(2) < 2);
                        assert(old(w).allowance(want) == old(w).allowance(2));
                        assert(w.sent() =~= old(w).sent() + stream_messages(full).take(
                            old(w).allowance(want) as int,
                        ));
                    }
                    false
                },
                Ok(()) => {
                    let ghost w_mid = *w;
                    let ghost rest_want = stream_messages(rest).len();
                    let clean = run_sender(channel, w);
                    proof {
                        assert(w_mid.sent() =~= old(w).sent() + pair);
                        assert(old(w).allowance(want) == 2 + w_mid.allowance(rest_want)) by {
                            assert(w_mid.sent().len() == old(w).sent().len() + 2);
                        }
                        assert(stream_messages(full).take(old(w).allowance(want) as int) =~= pair
                            + stream_messages(rest).take(w_mid.allowance(rest_want) as int));
                        assert(w.sent() =~= old(w).sent() + stream_messages(full).take(
                            old(w).allowance(want) as int,
                        ));
                    }
                    clean
                },
            }
        },
    }
}

} // verus!
