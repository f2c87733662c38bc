//! The per-connection supervisor: its lifecycle state machine and the
//! handling of inbound client messages.

use vstd::prelude::*;
use crate::message::{Message, MessageView};
use crate::writer::ExclusiveWriter;

verus! {

/// The lifecycle of one connection. Each accepted connection walks this
/// machine once, forward only: no reconnection, no retry.
#[derive(Clone, Copy, PartialEq, Eq, Structural, Debug)]
pub enum SupervisorState {
    /// The connection was accepted; channel and tasks are being set up.
    Establishing,
    /// Frames flow out, inbound messages are consumed.
    Streaming,
    /// One direction ended or failed; the tasks are running out.
    Closing,
    /// Terminal: nothing is sent or received any more.
    Closed,
}

/// One inbound item observed by the supervisor's own loop.
pub enum InboundEvent {
    /// A text message from the client; it is answered with the fixed
    /// acknowledgement.
    Text(String),
    /// A non-text message (binary or control); ignored.
    Other,
    /// The client closed its side: the inbound stream ended.
    Ended,
    /// Reading the inbound stream failed.
    Failed,
}

/// What the supervisor does with one inbound event.
pub enum InboundAction {
    /// Send this message — always the fixed acknowledgement — through the
    /// connection's exclusive writer.
    Reply(Message),
    /// Do nothing.
    Ignore,
    /// Stop consuming inbound messages and tear the connection down.
    TearDown,
}

/// The fixed acknowledgement text for an inbound text message.
pub open spec fn ack_text() -> Seq<char> {
    "ack"@
}

/// The fixed acknowledgement message.
pub fn ack_message() -> (m: Message)
    ensures
        m@ == MessageView::Text(ack_text()),
{
    Message::Text("ack".to_owned())
}

/// An inbound event that ends the supervisor's loop.
pub open spec fn is_terminal(ev: InboundEvent) -> bool {
    ev is Ended || ev is Failed
}

/// The acknowledgements a schedule of inbound events asks for: exactly one
/// per text message, none for anything else, stopping at the first event
/// that ends the inbound stream.
pub open spec fn ack_stream(evs: Seq<InboundEvent>) -> Seq<MessageView>
    decreases evs.len(),
{
    if evs.len() == 0 {
        Seq::empty()
    } else if is_terminal(evs[0]) {
        Seq::empty()
    } else {
        let rest = ack_stream(evs.skip(1));
        if evs[0] is Text {
            seq![MessageView::Text(ack_text())] + rest
        } else {
            rest
        }
    }
}

/// Whether a schedule of inbound events ends the supervisor's loop.
pub open spec fn reaches_end(evs: Seq<InboundEvent>) -> bool
    decreases evs.len(),
{
    if evs.len() == 0 {
        false
    } else if is_terminal(evs[0]) {
        true
    } else {
        reaches_end(evs.skip(1))
    }
}

/// Owns one connection for its lifetime and walks its lifecycle.
pub struct Supervisor {
    pub state: SupervisorState,
}

impl Supervisor {
    /// A supervisor for a freshly accepted connection.
    pub fn new() -> (s: Self)
        ensures
            s.state == SupervisorState::Establishing,
    {
        Supervisor { state: SupervisorState::Establishing }
    }

    /// Channel created, capture and sender tasks spawned: streaming starts
    /// at once, without waiting for a first frame.
    pub fn start_streaming(&mut self)
        requires
            old(self).state == SupervisorState::Establishing,
        ensures
            final(self).state == SupervisorState::Streaming,
    {
        self.state = SupervisorState::Streaming;
    }

    /// Law: one inbound event, one decision. A text message is answered with
    /// exactly one fixed acknowledgement; a non-text message is ignored; the
    /// end or failure of the inbound stream moves the connection to
    /// `Closing`. Nothing else changes the state.
    pub fn on_inbound(&mut self, ev: &InboundEvent) -> (a: InboundAction)
        requires
            old(self).state == SupervisorState::Streaming,
        ensures
            final(self).state == if is_terminal(*ev) {
                SupervisorState::Closing
            } else {
                SupervisorState::Streaming
            },
            *ev is Text ==> (a matches InboundAction::Reply(m) && m@ == MessageView::Text(
                ack_text(),
            )),
            *ev is Other ==> a is Ignore,
            is_terminal(*ev) ==> a is TearDown,
    {
        match ev {
            InboundEvent::Text(_) => InboundAction::Reply(ack_message()),
            InboundEvent::Other => InboundAction::Ignore,
            InboundEvent::Ended => {
                self.state = SupervisorState::Closing;
                InboundAction::TearDown
            },
            InboundEvent::Failed => {
                self.state = SupervisorState::Closing;
                InboundAction::TearDown
            },
        }
    }

    /// The inbound loop is over without an explicit end event — its stream
    /// ran out, or the producer and sender tasks were observed to have
    /// stopped: closing begins.
    pub fn begin_closing(&mut self)
        requires
            old(self).state == SupervisorState::Streaming,
        ensures
            final(self).state == SupervisorState::Closing,
    {
        self.state = SupervisorState::Closing;
    }

    /// Teardown is complete; the state is terminal.
    pub fn finish(&mut self)
        requires
            old(self).state == SupervisorState::Closing,
        ensures
            final(self).state == SupervisorState::Closed,
    {
        self.state = SupervisorState::Closed;
    }
}

/// The supervisor's inbound loop over a finite schedule of events: each text
/// message is answered with the fixed acknowledgement through the exclusive
/// writer (a refused acknowledgement is dropped; the loop goes on until its
/// own stream ends), everything else is ignored, and the first end-of-stream
/// event moves the connection to `Closing`.
///
/// The wire receives exactly the prefix of the acknowledgement stream that
/// the transport accepted.
pub fn run_inbound(sup: &mut Supervisor, w: &mut ExclusiveWriter, events: Vec<InboundEvent>)
    requires
        old(sup).state == SupervisorState::Streaming,
        old(w).wf(),
    ensures
        final(w).wf(),
        final(w).fault() == old(w).fault(),
        final(w).sent() == old(w).sent() + ack_stream(events@).take(
            old(w).allowance(ack_stream(events@).len()) as int,
        ),
        final(sup).state == if reaches_end(events@) {
            SupervisorState::Closing
        } else {
            SupervisorState::Streaming
        },
    decreases events@.len(),
{
    let ghost evs = events@;
    let ghost acks = ack_stream(evs);
    let mut events = events;
    if events.len() == 0 {
        proof {
            assert(w.sent() =~= old(w).sent() + acks.take(old(w).allowance(acks.len()) as int));
        }
        return ;
    }
    let ev = events.remove(0);
    proof {
        assert(ev == evs[0]);
        assert(events@ =~= evs.skip(1));
    }
    let action = sup.on_inbound(&ev);
    match action {
        InboundAction::TearDown => {
            proof {
                assert(is_terminal(ev));
                assert(acks =~= Seq::<MessageView>::empty());
                assert(w.sent() =~= old(w).sent() + acks.take(
                    old(w).allowance(acks.len()) as int,
                ));
            }
        },
        InboundAction::Ignore => {
            run_inbound(sup, w, events);
        },
        InboundAction::Reply(m) => {
            let ghost rest_acks = ack_stream(evs.skip(1));
            proof {
                assert(!is_terminal(ev));
                assert(ev is Text);
                assert(acks == seq![MessageView::Text(ack_text())] + rest_acks);
            }
            let sent_ok = w.send(m);
            let ghost w_mid = *w;
            run_inbound(sup, w, events);
            proof {
                let a1 = w_mid.allowance(rest_acks.len());
                if sent_ok is Ok {
                    assert(w_mid.sent() =~= old(w).sent().push(MessageView::Text(ack_text())));
                    assert(old(w).allowance(acks.len()) == 1 + a1);
                    assert(acks.take((1 + a1) as int) =~= seq![MessageView::Text(ack_text())]
                        + rest_acks.take(a1 as int));
                } else {
                    assert(old(w).allowance(acks.len()) == 0);
                    assert(a1 == 0);
                    assert(acks.take(0) =~= Seq::<MessageView>::empty());
                    assert(rest_acks.take(0) =~= Seq::<MessageView>::empty());
                }
                assert(w.sent() =~= old(w).sent() + acks.take(
                    old(w).allowance(acks.len()) as int,
                ));
            }
        },
    }
}

} // verus!
