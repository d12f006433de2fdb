use std::collections::VecDeque;
use vstd::prelude::*;

verus! {

/// The number of packets a stream's channel holds before the sender has to wait.
pub const PACKET_CHANNEL_CAPACITY: usize = 128;

/// One encoded packet as read from the container: its stream, its decode timestamp if
/// any, and the payload.
#[derive(Debug)]
pub struct EncodedPacket {
    pub stream_index: usize,
    pub pts: Option<i64>,
    pub data: Vec<u8>,
}

/// Why a packet was not taken; the packet comes back with the refusal.
#[derive(Debug)]
pub enum SendRefusal<T> {
    /// The channel is at capacity: the sender waits for the decode side to take one.
    Full(T),
    /// The receiving side has shut down.
    Closed(T),
}

/// Why nothing was received.
#[derive(Clone, Copy, Debug, PartialEq, Eq, Structural)]
pub enum RecvRefusal {
    /// Nothing is queued yet.
    Empty,
    /// Nothing is queued and nothing ever will be.
    Closed,
}

/// A bounded first-in first-out channel between the dispatcher and one pipeline. It never
/// drops a packet: a full channel refuses the send and hands the packet back.
pub struct PacketQueue<T> {
    items: VecDeque<T>,
    capacity: usize,
    closed: bool,
}

impl<T> PacketQueue<T> {
    pub closed spec fn contents(&self) -> Seq<T> {
        self.items@
    }

    pub closed spec fn cap(&self) -> nat {
        self.capacity as nat
    }

    pub closed spec fn is_closed_spec(&self) -> bool {
        self.closed
    }

    /// A channel never holds more packets than its capacity, which is positive.
    pub open spec fn wf(&self) -> bool {
        0 < self.cap() && self.contents().len() <= self.cap()
    }

    /// An empty, open channel that holds at most `capacity` packets.
    pub fn bounded(capacity: usize) -> (r: PacketQueue<T>)
        requires
            capacity > 0,
        ensures
            r.wf(),
            r.contents() == Seq::<T>::empty(),
            r.cap() == capacity,
            !r.is_closed_spec(),
    {
        PacketQueue { items: VecDeque::new(), capacity, closed: false }
    }

    pub fn len(&self) -> (r: usize)
        requires
            self.wf(),
        ensures
            r == self.contents().len(),
    {
        self.items.len()
    }

    pub fn capacity(&self) -> (r: usize)
        ensures
            r == self.cap(),
    {
        self.capacity
    }

    pub fn is_full(&self) -> (r: bool)
        requires
            self.wf(),
        ensures
            r == (self.contents().len() == self.cap()),
    {
        self.items.len() == self.capacity
    }

    pub fn is_closed(&self) -> (r: bool)
        ensures
            r == self.is_closed_spec(),
    {
        self.closed
    }

    /// Offers a packet. It is appended when the channel is open and below capacity;
    /// otherwise it is handed back unchanged and the channel stays as it was.
    pub fn try_send(&mut self, packet: T) -> (r: Result<(), SendRefusal<T>>)
        requires
            old(self).wf(),
        ensures
            final(self).wf(),
            final(self).cap() == old(self).cap(),
            final(self).is_closed_spec() == old(self).is_closed_spec(),
            old(self).is_closed_spec() ==> r == Err::<(), SendRefusal<T>>(SendRefusal::Closed(packet))
                && final(self).contents() == old(self).contents(),
            !old(self).is_closed_spec() && old(self).contents().len() == old(self).cap() ==> r
                == Err::<(), SendRefusal<T>>(SendRefusal::Full(packet)) && final(self).contents()
                == old(self).contents(),
            !old(self).is_closed_spec() && old(self).contents().len() < old(self).cap() ==> r
                is Ok && final(self).contents() == old(self).contents().push(packet),
            !old(self).is_closed_spec() ==> forall|t: QueueTrace<T>|
                t.contents == old(self).contents() ==> #[trigger] apply_op(
                    old(self).cap(),
                    t,
                    QueueOp::Send(packet),
                ) == (QueueTrace {
                    contents: final(self).contents(),
                    accepted: if r is Ok {
                        t.accepted.push(packet)
                    } else {
                        t.accepted
                    },
                    delivered: t.delivered,
                }),
    {
        if self.closed {
            Err(SendRefusal::Closed(packet))
        } else if self.items.len() == self.capacity {
            Err(SendRefusal::Full(packet))
        } else {
            self.items.push_back(packet);
            Ok(())
        }
    }

    /// Takes the oldest queued packet. Packets queued before the channel was closed are
    /// still delivered; only an empty closed channel reports `Closed`.
    pub fn try_recv(&mut self) -> (r: Result<T, RecvRefusal>)
        requires
            old(self).wf(),
        ensures
            final(self).wf(),
            final(self).cap() == old(self).cap(),
            final(self).is_closed_spec() == old(self).is_closed_spec(),
            old(self).contents().len() > 0 ==> r == Ok::<T, RecvRefusal>(old(self).contents()[0])
                && final(self).contents() == old(self).contents().drop_first(),
            old(self).contents().len() == 0 ==> final(self).contents() == old(self).contents() && r
                == Err::<T, RecvRefusal>(
                if old(self).is_closed_spec() {
                    RecvRefusal::Closed
                } else {
                    RecvRefusal::Empty
                },
            ),
            forall|t: QueueTrace<T>|
                t.contents == old(self).contents() ==> #[trigger] apply_op(
                    old(self).cap(),
                    t,
                    QueueOp::Recv,
                ) == (QueueTrace {
                    contents: final(self).contents(),
                    accepted: t.accepted,
                    delivered: match r {
                        Ok(p) => t.delivered.push(p),
                        Err(_) => t.delivered,
                    },
                }),
    {
        match self.items.pop_front() {
            Some(p) => Ok(p),
            None => {
                if self.closed {
                    Err(RecvRefusal::Closed)
                } else {
                    Err(RecvRefusal::Empty)
                }
            },
        }
    }

    /// Closes the channel for good. What is queued stays queued.
    pub fn close(&mut self)
        requires
            old(self).wf(),
        ensures
            final(self).wf(),
            final(self).is_closed_spec(),
            final(self).contents() == old(self).contents(),
            final(self).cap() == old(self).cap(),
    {
        self.closed = true;
    }
}

/// One operation on an open channel.
pub enum QueueOp<T> {
    Send(T),
    Recv,
}

/// What an open channel has seen: what it holds now, every packet it accepted, and every
/// packet it delivered, each in order.
pub struct QueueTrace<T> {
    pub contents: Seq<T>,
    pub accepted: Seq<T>,
    pub delivered: Seq<T>,
}

/// One operation on an open channel of capacity `cap`: a send is accepted only below
/// capacity, a receive takes the oldest packet. `try_send` and `try_recv` each state that
/// they perform exactly this step.
pub open spec fn apply_op<T>(cap: nat, t: QueueTrace<T>, op: QueueOp<T>) -> QueueTrace<T> {
    match op {
        QueueOp::Send(p) => if t.contents.len() < cap {
            QueueTrace { contents: t.contents.push(p), accepted: t.accepted.push(p), ..t }
        } else {
            t
        },
        QueueOp::Recv => if t.contents.len() > 0 {
            QueueTrace {
                contents: t.contents.drop_first(),
                delivered: t.delivered.push(t.contents[0]),
                ..t
            }
        } else {
            t
        },
    }
}

pub open spec fn run_ops<T>(cap: nat, t: QueueTrace<T>, ops: Seq<QueueOp<T>>) -> QueueTrace<T>
    decreases ops.len(),
{
    if ops.len() == 0 {
        t
    } else {
        run_ops(cap, apply_op(cap, t, ops[0]), ops.drop_first())
    }
}

/// Whatever sends and receives an open channel sees, starting empty, the packets it
/// delivers are exactly the packets it accepted, in the order it accepted them, followed by
/// those it still holds: nothing is reordered and nothing is lost.
pub proof fn lemma_channel_preserves_order<T>(cap: nat, ops: Seq<QueueOp<T>>)
    ensures
        ({
            let t = run_ops(
                cap,
                QueueTrace { contents: Seq::empty(), accepted: Seq::empty(), delivered: Seq::empty() },
                ops,
            );
            t.delivered + t.contents == t.accepted && t.contents.len() <= cap
        }),
{
    lemma_run_keeps_order(
        cap,
        QueueTrace { contents: Seq::empty(), accepted: Seq::empty(), delivered: Seq::empty() },
        ops,
    );
}

proof fn lemma_run_keeps_order<T>(cap: nat, t: QueueTrace<T>, ops: Seq<QueueOp<T>>)
    requires
        t.delivered + t.contents == t.accepted,
        t.contents.len() <= cap,
    ensures
        run_ops(cap, t, ops).delivered + run_ops(cap, t, ops).contents == run_ops(
            cap,
            t,
            ops,
        ).accepted,
        run_ops(cap, t, ops).contents.len() <= cap,
    decreases ops.len(),
{
    if ops.len() > 0 {
        let n = apply_op(cap, t, ops[0]);
        match ops[0] {
            QueueOp::Send(p) => {
                if t.contents.len() < cap {
                    assert(n.delivered + n.contents =~= n.accepted);
                }
            },
            QueueOp::Recv => {
                if t.contents.len() > 0 {
                    assert(n.delivered + n.contents =~= t.delivered + t.contents);
                }
            },
        }
        lemma_run_keeps_order(cap, n, ops.drop_first());
    }
}

/// On a full open channel a send is refused, and once the decode side has taken one packet
/// the same send is accepted: the sender waits, it is neither failed nor buffered beyond
/// capacity.
pub proof fn lemma_receive_frees_slot<T>(cap: nat, t: QueueTrace<T>, p: T)
    requires
        cap > 0,
        t.contents.len() == cap,
    ensures
        apply_op(cap, t, QueueOp::Send(p)) == t,
        apply_op(cap, apply_op(cap, t, QueueOp::Recv), QueueOp::Send(p)).contents == t.contents.drop_first().push(p),
        apply_op(cap, apply_op(cap, t, QueueOp::Recv), QueueOp::Send(p)).accepted == t.accepted.push(p),
{
}

} // verus!
