//! One connection end to end: establish, stream, tear down.
//!
//! The real tasks run concurrently and unboundedly; this module runs the
//! same decisions over a finite schedule — first the capture ticks, then the
//! drain of the channel, then the inbound events — and states exactly what
//! the client sees on the wire for every schedule and every transport fault.

use vstd::prelude::*;
use crate::capture::{TickOutcome, captured_packets, run_capture};
use crate::channel::FrameChannel;
use crate::message::{Message, MessageView, message_views};
use crate::packet::stream_messages;
use crate::sender::run_sender;
use crate::supervisor::{
    InboundEvent, Supervisor, SupervisorState, ack_stream, reaches_end, run_inbound,
};
use crate::writer::ExclusiveWriter;

verus! {

/// Everything the outside world hands one connection: whether the frame
/// source could be opened at all, what each capture tick yields, what the
/// client sends, and where the transport first refuses a write (nothing for
/// a transport that never fails).
pub struct ConnectionScript {
    /// False when the source or its model resource is unavailable at
    /// startup: the capture loop then terminates before its first tick, no
    /// frame is ever produced, and the connection idles on inbound traffic
    /// alone — a deliberate reproduction of the source behaviour.
    pub source_ready: bool,
    pub ticks: Vec<TickOutcome>,
    pub inbound: Vec<InboundEvent>,
    pub fault: Option<usize>,
}

/// What one connection's run left behind: the messages that reached the
/// wire in order, the supervisor's final state, and whether the frame
/// stream ended cleanly rather than on a send failure.
pub struct ConnectionTrace {
    pub wire: Vec<Message>,
    pub state: SupervisorState,
    pub stream_clean: bool,
}

/// Every message the connection would offer the wire, in order: the captured
/// packets' pairs (none when the source never opened), then the
/// acknowledgements.
pub open spec fn connection_messages(
    source_ready: bool,
    ticks: Seq<TickOutcome>,
    inbound: Seq<InboundEvent>,
) -> Seq<MessageView> {
    let frames = if source_ready {
        stream_messages(captured_packets(ticks))
    } else {
        Seq::<MessageView>::empty()
    };
    frames + ack_stream(inbound)
}

/// What actually reaches the wire: everything offered, cut off at the
/// transport's fault index.
pub open spec fn connection_wire(
    source_ready: bool,
    ticks: Seq<TickOutcome>,
    inbound: Seq<InboundEvent>,
    fault: Option<usize>,
) -> Seq<MessageView> {
    let full = connection_messages(source_ready, ticks, inbound);
    match fault {
        None => full,
        Some(k) => if k < full.len() {
            full.take(k as int)
        } else {
            full
        },
    }
}

/// Runs one connection over its schedule: the supervisor walks
/// `Establishing` to `Closed`, every captured packet is serialized as its
/// ordered pair, every inbound text message is answered with the fixed
/// acknowledgement, and the wire holds exactly the accepted prefix of those
/// messages.
pub fn run_connection(script: ConnectionScript) -> (t: ConnectionTrace)
    ensures
        message_views(t.wire@) == connection_wire(
            script.source_ready,
            script.ticks@,
            script.inbound@,
            script.fault,
        ),
        t.state == SupervisorState::Closed,
        script.fault is None ==> t.stream_clean,
{
    let ConnectionScript { source_ready, ticks, inbound, fault } = script;
    let ghost frame_messages = if source_ready {
        stream_messages(captured_packets(ticks@))
    } else {
        Seq::<MessageView>::empty()
    };
    let ghost acks = ack_stream(inbound@);

    let mut sup = Supervisor::new();
    let mut channel = FrameChannel::new();
    let mut w = ExclusiveWriter::new(fault);
    sup.start_streaming();

    if source_ready {
        run_capture(&mut channel, ticks);
    }
    proof {
        if source_ready {
            assert(channel.pending() =~= captured_packets(script.ticks@));
            assert(stream_messages(channel.pending()) == frame_messages);
        } else {
            assert(channel.pending() =~= Seq::<crate::packet::PacketView>::empty());
            assert(stream_messages(channel.pending()) =~= frame_messages);
        }
    }
    let ghost w0 = w;
    let stream_clean = run_sender(&mut channel, &mut w);
    let ghost w1 = w;
    run_inbound(&mut sup, &mut w, inbound);
    channel.close();
    if sup.state == SupervisorState::Streaming {
        sup.begin_closing();
    }
    sup.finish();

    proof {
        let n1 = frame_messages.len();
        let n2 = acks.len();
        assert(w1.sent() =~= frame_messages.take(w0.allowance(n1) as int));
        match fault {
            None => {
                assert(w.sent() =~= connection_wire(
                    script.source_ready,
                    script.ticks@,
                    script.inbound@,
                    fault,
                ));
            },
            Some(k) => {
                if k < n1 {
                    assert(w0.allowance(n1) == k);
                    assert(w1.sent().len() == k);
                    assert(w1.allowance(n2) == 0);
                    assert(acks.take(0) =~= Seq::<MessageView>::empty());
                    assert(w.sent() =~= connection_wire(
                        script.source_ready,
                        script.ticks@,
                        script.inbound@,
                        fault,
                    ));
                } else {
                    assert(w0.allowance(n1) == n1);
                    assert(frame_messages.take(n1 as int) =~= frame_messages);
                    assert(w1.sent().len() == n1);
                    assert(w.sent() =~= connection_wire(
                        script.source_ready,
                        script.ticks@,
                        script.inbound@,
                        fault,
                    ));
                }
            },
        }
    }
    let wire = w.into_sent();
    ConnectionTrace { wire, state: sup.state, stream_clean }
}

/// Law: two concurrently accepted connections produce fully independent
/// message streams. Each trace below is pinned by its own connection's
/// schedule alone: a fault or any other event on one connection never
/// appears in what the other's wire must hold.
pub fn run_two_connections(a: ConnectionScript, b: ConnectionScript) -> (r: (
    ConnectionTrace,
    ConnectionTrace,
))
    ensures
        message_views(r.0.wire@) == connection_wire(a.source_ready, a.ticks@, a.inbound@, a.fault),
        message_views(r.1.wire@) == connection_wire(b.source_ready, b.ticks@, b.inbound@, b.fault),
        r.0.state == SupervisorState::Closed,
        r.1.state == SupervisorState::Closed,
{
    let ta = run_connection(a);
    let tb = run_connection(b);
    (ta, tb)
}

/// One exclusive acquisition of a connection's outbound writer: a whole
/// frame pair from the sender loop, or one acknowledgement from the inbound
/// handler. These are the only two writers, and each holds the writer for
/// its whole operation.
pub enum OutboundOp {
    Pair(crate::packet::PacketView),
    Ack,
}

/// The messages one exclusive operation puts on the wire.
pub open spec fn op_messages(op: OutboundOp) -> Seq<MessageView> {
    match op {
        OutboundOp::Pair(p) => crate::packet::packet_messages(p),
        OutboundOp::Ack => seq![MessageView::Text(crate::supervisor::ack_text())],
    }
}

/// The wire under any interleaving of exclusive operations.
pub open spec fn ops_messages(ops: Seq<OutboundOp>) -> Seq<MessageView>
    decreases ops.len(),
{
    if ops.len() == 0 {
        Seq::empty()
    } else {
        op_messages(ops[0]) + ops_messages(ops.skip(1))
    }
}

/// Where operation `j`'s first message stands on the wire.
pub open spec fn op_start(ops: Seq<OutboundOp>, j: nat) -> int
    decreases j,
{
    if j == 0 {
        0
    } else {
        op_messages(ops[0]).len() + op_start(ops.skip(1), (j - 1) as nat)
    }
}

/// Law: however frame pairs and acknowledgements interleave on one
/// connection, a frame's two messages stand adjacent on the wire — binary
/// frame immediately followed by its decimal metric. No acknowledgement, and
/// no other pair's message, is ever emitted in the middle of a pair.
pub proof fn lemma_pair_never_split(ops: Seq<OutboundOp>, j: nat)
    requires
        j < ops.len(),
        ops[j as int] is Pair,
    ensures
        0 <= op_start(ops, j),
        op_start(ops, j) + 2 <= ops_messages(ops).len(),
        ops_messages(ops)[op_start(ops, j)] == MessageView::Binary(ops[j as int]->Pair_0.frame),
        ops_messages(ops)[op_start(ops, j) + 1] == MessageView::Text(
            crate::message::spec_decimal(ops[j as int]->Pair_0.metric as nat),
        ),
    decreases j,
{
    if j > 0 {
        lemma_pair_never_split(ops.skip(1), (j - 1) as nat);
        assert(ops.skip(1)[j - 1] == ops[j as int]);
    }
}

} // verus!
