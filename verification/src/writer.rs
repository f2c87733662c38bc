//! The single point of mutual exclusion around one connection's outbound
//! direction, with an explicit model of transport write failure.

use vstd::prelude::*;
use crate::message::{Message, MessageView, message_views};
use crate::packet::{FramePacket, packet_messages, packet_to_messages};

verus! {

/// An outbound write was refused: the client is gone or the network failed.
/// A broken connection cannot be repaired in place, so it stays broken.
pub struct SendError;

/// The exclusive outbound writer for one connection. Every task that writes
/// to the connection — the sender loop with its frame pairs, the inbound
/// handler with its acknowledgements — goes through one value of this type,
/// so writes never interleave inside one send operation.
///
/// The transport is modelled by `fault`: the index of the first write the
/// transport refuses, or nothing for a transport that never fails. Once a
/// write at that index is refused, every later write is refused too, as on a
/// broken socket. The writer records what actually reached the wire.
pub struct ExclusiveWriter {
    log: Vec<Message>,
    fault_at: Option<usize>,
}

impl ExclusiveWriter {
    /// The messages that reached the wire, in order.
    pub closed spec fn sent(&self) -> Seq<MessageView> {
        message_views(self.log@)
    }

    /// The index of the first write the transport refuses, if any.
    pub closed spec fn fault(&self) -> Option<usize> {
        self.fault_at
    }

    /// Validity: a broken transport has never accepted a message at or past
    /// its fault index.
    pub open spec fn wf(&self) -> bool {
        self.fault() matches Some(k) ==> self.sent().len() <= k
    }

    /// How many of `want` further messages this writer will accept.
    pub open spec fn allowance(&self, want: nat) -> nat {
        match self.fault() {
            None => want,
            Some(k) => if k - self.sent().len() < want {
                (k - self.sent().len()) as nat
            } else {
                want
            },
        }
    }

    /// A writer for a fresh connection whose transport will refuse the write
    /// at `fault_at`, or never fail.
    pub fn new(fault_at: Option<usize>) -> (w: Self)
        ensures
            w.sent() == Seq::<MessageView>::empty(),
            w.fault() == fault_at,
            w.wf(),
    {
        let w = ExclusiveWriter { log: Vec::new(), fault_at };
        proof {
            assert(w.sent() =~= Seq::<MessageView>::empty());
        }
        w
    }

    /// Sends one message. Fails exactly when the transport's fault index has
    /// been reached, and then puts nothing on the wire.
    pub fn send(&mut self, m: Message) -> (r: Result<(), SendError>)
        requires
            old(self).wf(),
        ensures
            final(self).wf(),
            final(self).fault() == old(self).fault(),
            r is Ok ==> final(self).sent() == old(self).sent().push(m@),
            r is Err ==> final(self).sent() == old(self).sent(),
            r is Err <==> (old(self).fault() matches Some(k) && old(self).sent().len() >= k),
    {
        let refused = match self.fault_at {
            Some(k) => self.log.len() >= k,
            None => false,
        };
        if refused {
            Err(SendError)
        } else {
            let ghost before = self.log@;
            self.log.push(m);
            proof {
                assert(self.sent() =~= message_views(before).push(m@));
            }
            Ok(())
        }
    }

    /// Sends one packet's pair — binary frame, then decimal metric — as a
    /// single exclusive operation, so no other writer's message can stand
    /// between the two. On failure the wire holds the pair's prefix that was
    /// accepted, and nothing more is ever sent.
    pub fn send_pair(&mut self, p: FramePacket) -> (r: Result<(), SendError>)
        requires
            old(self).wf(),
        ensures
            final(self).wf(),
            final(self).fault() == old(self).fault(),
            final(self).sent() == old(self).sent() + packet_messages(p@).take(
                old(self).allowance(2) as int,
            ),
            r is Ok <==> old(self).allowance(2) == 2,
    {
        let ghost start = self.sent();
        let ghost pair = packet_messages(p@);
        let (bin, txt) = packet_to_messages(p);
        match self.send(bin) {
            Err(e) => {
                proof {
                    assert(self.sent() =~= start + pair.take(0));
                }
                Err(e)
            },
            Ok(()) => {
                match self.send(txt) {
                    Err(e) => {
                        proof {
                            assert(self.sent() =~= start + pair.take(1));
                        }
                        Err(e)
                    },
                    Ok(()) => {
                        proof {
                            assert(self.sent() =~= start + pair.take(2));
                        }
                        Ok(())
                    },
                }
            },
        }
    }

    /// Hands out the wire as the client saw it, consuming the writer.
    pub fn into_sent(self) -> (v: Vec<Message>)
        ensures
            message_views(v@) == self.sent(),
    {
        let ExclusiveWriter { log, fault_at: _ } = self;
        log
    }
}

/// Law: if the transport refused the write of message k, no message k+1 or
/// later is ever sent on that connection — the wire never holds more than k
/// messages.
pub proof fn lemma_no_send_after_fault(w: ExclusiveWriter)
    requires
        w.wf(),
    ensures
        w.fault() matches Some(k) ==> w.sent().len() <= k,
{
}

} // verus!
