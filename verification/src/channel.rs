//! The ordered single-producer/single-consumer channel between the capture
//! loop and the sender loop.

use vstd::prelude::*;
use crate::packet::{FramePacket, PacketView};

verus! {

/// The consumer side of the channel is gone: a push can no longer be
/// delivered, which tells the capture loop to stop.
pub struct ChannelClosed;

/// An ordered queue of frame packets. The capture loop is its sole writer
/// and the sender loop its sole reader; packets come out in exactly the
/// order they went in, none dropped, none reordered. It is unbounded by
/// design: the producer's cadence is never throttled by slow delivery, at
/// the accepted cost of growth while the consumer stalls.
pub struct FrameChannel {
    queue: Vec<FramePacket>,
    closed: bool,
}

impl FrameChannel {
    /// The packets now waiting, oldest first.
    pub closed spec fn pending(&self) -> Seq<PacketView> {
        self.queue@.map_values(|p: FramePacket| p@)
    }

    /// Whether the channel has been shut by its owner's teardown.
    pub closed spec fn is_closed(&self) -> bool {
        self.closed
    }

    /// A fresh channel for one connection: empty and open.
    pub fn new() -> (c: Self)
        ensures
            c.pending() == Seq::<PacketView>::empty(),
            !c.is_closed(),
    {
        let c = FrameChannel { queue: Vec::new(), closed: false };
        proof {
            assert(c.pending() =~= Seq::<PacketView>::empty());
        }
        c
    }

    /// Appends one packet. Fails exactly when the channel is closed, and
    /// then changes nothing.
    pub fn push(&mut self, p: FramePacket) -> (r: Result<(), ChannelClosed>)
        ensures
            final(self).is_closed() == old(self).is_closed(),
            old(self).is_closed() ==> r is Err && final(self).pending() == old(self).pending(),
            !old(self).is_closed() ==> r is Ok && final(self).pending() == old(
                self,
            ).pending().push(p@),
    {
        if self.closed {
            Err(ChannelClosed)
        } else {
            let ghost before = self.queue@;
            self.queue.push(p);
            proof {
                assert(self.pending() =~= before.map_values(|q: FramePacket| q@).push(p@));
            }
            Ok(())
        }
    }

    /// Removes and returns the oldest packet, or returns nothing when the
    /// queue is empty (the real consumer suspends instead).
    pub fn pop(&mut self) -> (r: Option<FramePacket>)
        ensures
            final(self).is_closed() == old(self).is_closed(),
            old(self).pending().len() == 0 ==> r is None && final(self).pending() == old(
                self,
            ).pending(),
            old(self).pending().len() > 0 ==> (r matches Some(p) && p@ == old(self).pending()[0]
                && final(self).pending() == old(self).pending().skip(1)),
    {
        if self.queue.len() == 0 {
            None
        } else {
            let ghost before = self.queue@;
            let p = self.queue.remove(0);
            proof {
                assert(self.pending() =~= before.map_values(|q: FramePacket| q@).skip(1));
            }
            Some(p)
        }
    }

    /// How many packets are waiting.
    pub fn len(&self) -> (n: usize)
        ensures
            n == self.pending().len(),
    {
        self.queue.len()
    }

    /// Shuts the channel at connection teardown; waiting packets stay
    /// readable, further pushes fail.
    pub fn close(&mut self)
        ensures
            final(self).is_closed(),
            final(self).pending() == old(self).pending(),
    {
        self.closed = true;
    }
}

} // verus!
