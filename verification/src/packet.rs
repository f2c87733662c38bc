//! Frame packets and their serialization as ordered message pairs.

use vstd::prelude::*;
use crate::message::{Message, MessageView, spec_decimal, decimal_string};

verus! {

/// The mathematical value of a frame packet.
pub struct PacketView {
    pub frame: Seq<u8>,
    pub metric: u64,
}

/// The unit of transfer from the capture loop to the sender loop: one encoded
/// frame and the metric derived from it. A packet is immutable once produced
/// and its metric never travels apart from its frame.
#[derive(Clone, Debug, PartialEq, Eq)]
pub struct FramePacket {
    pub frame: Vec<u8>,
    pub metric: u64,
}

impl View for FramePacket {
    type V = PacketView;

    open spec fn view(&self) -> PacketView {
        PacketView { frame: self.frame@, metric: self.metric }
    }
}

/// The two messages one packet puts on the wire, in their fixed order:
/// first the binary frame, then the metric rendered in decimal.
pub open spec fn packet_messages(p: PacketView) -> Seq<MessageView> {
    seq![
        MessageView::Binary(p.frame),
        MessageView::Text(spec_decimal(p.metric as nat)),
    ]
}

/// The wire stream for a sequence of packets: each packet's pair, packet
/// after packet, never interleaved or reordered.
pub open spec fn stream_messages(ps: Seq<PacketView>) -> Seq<MessageView>
    decreases ps.len(),
{
    if ps.len() == 0 {
        Seq::empty()
    } else {
        packet_messages(ps[0]) + stream_messages(ps.skip(1))
    }
}

/// Law: N captured packets put exactly 2N messages on the wire, in the order
/// binary(F1), text(M1), binary(F2), text(M2), ..., binary(FN), text(MN).
pub proof fn lemma_stream_pairing(ps: Seq<PacketView>)
    ensures
        stream_messages(ps).len() == 2 * ps.len(),
        forall|i: int|
            0 <= i < ps.len() ==> stream_messages(ps)[2 * i] == MessageView::Binary(
                (#[trigger] ps[i]).frame,
            ),
        forall|i: int|
            0 <= i < ps.len() ==> stream_messages(ps)[2 * i + 1] == MessageView::Text(
                spec_decimal((#[trigger] ps[i]).metric as nat),
            ),
    decreases ps.len(),
{
    if ps.len() > 0 {
        lemma_stream_pairing(ps.skip(1));
        assert forall|i: int| 0 <= i < ps.len() implies stream_messages(ps)[2 * i]
            == MessageView::Binary((#[trigger] ps[i]).frame) && stream_messages(ps)[2 * i + 1]
            == MessageView::Text(spec_decimal((#[trigger] ps[i]).metric as nat)) by {
            if i > 0 {
                assert(ps.skip(1)[i - 1] == ps[i]);
                assert(stream_messages(ps)[2 * i] == stream_messages(ps.skip(1))[2 * (i - 1)]);
                assert(stream_messages(ps)[2 * i + 1] == stream_messages(ps.skip(1))[2 * (i - 1)
                    + 1]);
            }
        }
    }
}

/// Serializes one packet into its message pair, consuming the packet.
pub fn packet_to_messages(p: FramePacket) -> (r: (Message, Message))
    ensures
        r.0@ == MessageView::Binary(p@.frame),
        r.1@ == MessageView::Text(spec_decimal(p@.metric as nat)),
        seq![r.0@, r.1@] == packet_messages(p@),
{
    let FramePacket { frame, metric } = p;
    let text = decimal_string(metric);
    (Message::Binary(frame), Message::Text(text))
}

} // verus!
