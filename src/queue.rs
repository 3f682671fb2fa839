use smol::channel::{Receiver, SendError, Sender, TrySendError};
use vstd::prelude::*;


verus! {

/// Capacity of the bounded queue of encoded packets between the controller
/// and each worker: when it is full, the controller waits.
pub const PACKET_QUEUE_CAPACITY: usize = 64;

#[verifier::external_type_specification]
#[verifier::external_body]
#[verifier::reject_recursive_types(T)]
pub struct ExSender<T>(Sender<T>);

#[verifier::external_type_specification]
#[verifier::external_body]
#[verifier::reject_recursive_types(T)]
pub struct ExReceiver<T>(Receiver<T>);

#[verifier::external_type_specification]
#[verifier::reject_recursive_types(T)]
pub struct ExTrySendError<T>(TrySendError<T>);

#[verifier::external_type_specification]
#[verifier::reject_recursive_types(T)]
pub struct ExSendError<T>(SendError<T>);

/// The sending side of a bounded packet queue, with the capacity it was made
/// with and an upper bound on the packets it holds.
///
/// `queued` bounds the queue's length from above: it starts at zero, each
/// send that the queue takes raises it by one, and only this sender ever adds
/// packets (the worker only removes them).
#[verifier::reject_recursive_types(T)]
pub struct PacketSender<T> {
    sender: Sender<T>,
    capacity: Ghost<nat>,
    queued: Ghost<nat>,
}

impl<T> PacketSender<T> {
    /// The number of packets the queue holds at most.
    pub closed spec fn capacity(&self) -> nat {
        self.capacity@
    }

    /// An upper bound on the number of packets in the queue.
    pub closed spec fn queued(&self) -> nat {
        self.queued@
    }

    /// Relies on `async_channel::Sender::try_send`: a message that the
    /// channel does not take (full or closed) is handed back in the error; the
    /// channel is full only when it holds its capacity.
    #[verifier::external_body]
    fn try_send(&mut self, msg: T) -> (r: Result<(), TrySendError<T>>)
        ensures
            final(self).capacity() == old(self).capacity(),
            match r {
                Ok(()) => final(self).queued() == old(self).queued() + 1,
                Err(TrySendError::Full(m)) => {
                    &&& m == msg
                    &&& old(self).queued() >= old(self).capacity()
                    &&& final(self).queued() == old(self).queued()
                },
                Err(TrySendError::Closed(m)) => {
                    &&& m == msg
                    &&& final(self).queued() == old(self).queued()
                },
            },
    {
        self.sender.try_send(msg)
    }

    /// Relies on `async_channel::Sender::send_blocking`: waits until the
    /// channel has room and takes the message, or hands it back once the
    /// channel is closed.
    #[verifier::external_body]
    fn send_blocking(&mut self, msg: T) -> (r: Result<(), SendError<T>>)
        ensures
            final(self).capacity() == old(self).capacity(),
            match r {
                Ok(()) => final(self).queued() == old(self).queued() + 1,
                Err(SendError(m)) => {
                    &&& m == msg
                    &&& final(self).queued() == old(self).queued()
                },
            },
    {
        self.sender.send_blocking(msg)
    }
}

/// Relies on `async_channel::bounded` (re-exported as `smol::channel::bounded`):
/// an empty channel that holds at most `cap` messages; it panics on a zero
/// capacity.
#[verifier::external_body]
fn bounded_channel<T>(cap: usize) -> (r: (PacketSender<T>, Receiver<T>))
    requires
        cap > 0,
    ensures
        r.0.capacity() == cap,
        r.0.queued() == 0,
{
    let (sender, receiver) = smol::channel::bounded(cap);
    (PacketSender { sender, capacity: Ghost(cap as nat), queued: Ghost(0) }, receiver)
}

/// Why a packet was not taken by a queue; the packet itself is handed back.
pub enum OfferError<T> {
    /// The queue holds its full capacity: the producer must wait for room.
    Full(T),
    /// The consumer has gone.
    Closed(T),
}

/// A bounded queue of encoded packets from the controller to a worker, of
/// capacity `PACKET_QUEUE_CAPACITY`, empty at first. A full queue makes the
/// controller wait: that is the backpressure that paces demuxing.
pub fn packet_queue<T>() -> (r: (PacketSender<T>, Receiver<T>))
    ensures
        r.0.capacity() == PACKET_QUEUE_CAPACITY,
        r.0.queued() == 0,
{
    bounded_channel(PACKET_QUEUE_CAPACITY)
}

/// Offers a packet to a queue without waiting. While the queue may hold fewer
/// packets than its capacity, the offer never fails for lack of room. A
/// packet that the queue does not take is never lost: it comes back in the
/// error, and the caller waits for room with `send_packet`.
pub fn offer_packet<T>(sender: &mut PacketSender<T>, packet: T) -> (r: Result<(), OfferError<T>>)
    ensures
        final(sender).capacity() == old(sender).capacity(),
        match r {
            Ok(()) => final(sender).queued() == old(sender).queued() + 1,
            Err(OfferError::Full(p)) => {
                &&& p == packet
                &&& old(sender).queued() >= old(sender).capacity()
                &&& final(sender).queued() == old(sender).queued()
            },
            Err(OfferError::Closed(p)) => {
                &&& p == packet
                &&& final(sender).queued() == old(sender).queued()
            },
        },
{
    match sender.try_send(packet) {
        Ok(()) => Ok(()),
        Err(TrySendError::Full(p)) => Err(OfferError::Full(p)),
        Err(TrySendError::Closed(p)) => Err(OfferError::Closed(p)),
    }
}

/// Sends a packet, waiting while the queue is full: the backpressure on the
/// controller. A packet that a closed queue does not take comes back.
pub fn send_packet<T>(sender: &mut PacketSender<T>, packet: T) -> (r: Result<(), T>)
    ensures
        final(sender).capacity() == old(sender).capacity(),
        match r {
            Ok(()) => final(sender).queued() == old(sender).queued() + 1,
            Err(p) => p == packet && final(sender).queued() == old(sender).queued(),
        },
{
    match sender.send_blocking(packet) {
        Ok(()) => Ok(()),
        Err(SendError(p)) => Err(p),
    }
}

} // verus!
