//! The delivery layer: two bounded byte queues between the protocol layer and
//! the transport. Outbound payloads wait for the transport; a payload whose
//! sending failed is queued once more, or dropped if the queue is full.
//! Inbound payloads wait for the response handler; a full queue drops them.
use vstd::prelude::*;
use crate::bindings::{
    payload_channel_len, payload_channel_new, payload_channel_try_receive,
    payload_channel_try_send, queued_payloads, PayloadChannel,
};

verus! {

/// Number of payloads each queue holds.
pub const PAYLOAD_QUEUE_CAPACITY: usize = 5;

/// Largest payload, in bytes.
pub const MAX_PAYLOAD_LEN: usize = 2048;

/// Why a payload was not queued.
#[derive(Debug, Clone, Copy, PartialEq, Eq, Structural)]
pub enum QueueError {
    /// The queue already holds `PAYLOAD_QUEUE_CAPACITY` payloads.
    Full,
    /// The payload is longer than `MAX_PAYLOAD_LEN` bytes.
    TooLarge,
}

/// A bounded FIFO of payloads.
pub struct PayloadQueue {
    channel: PayloadChannel,
}

impl View for PayloadQueue {
    type V = Seq<Seq<u8>>;

    closed spec fn view(&self) -> Seq<Seq<u8>> {
        queued_payloads(self.channel)
    }
}

impl PayloadQueue {
    pub fn new() -> (r: PayloadQueue)
        ensures
            r@ == Seq::<Seq<u8>>::empty(),
    {
        PayloadQueue { channel: payload_channel_new() }
    }

    /// Queues a payload without blocking. A payload that is too large, or a
    /// full queue, leaves the queue as it was.
    pub fn try_send(&mut self, payload: &[u8]) -> (r: Result<(), QueueError>)
        ensures
            payload@.len() > MAX_PAYLOAD_LEN ==> r == Err::<(), QueueError>(QueueError::TooLarge),
            payload@.len() <= MAX_PAYLOAD_LEN && old(self)@.len() >= PAYLOAD_QUEUE_CAPACITY ==> r
                == Err::<(), QueueError>(QueueError::Full),
            payload@.len() <= MAX_PAYLOAD_LEN && old(self)@.len() < PAYLOAD_QUEUE_CAPACITY ==> r
                is Ok,
            r is Ok ==> final(self)@ == old(self)@.push(payload@),
            r is Err ==> final(self)@ == old(self)@,
    {
        if payload.len() > MAX_PAYLOAD_LEN {
            return Err(QueueError::TooLarge);
        }
        if payload_channel_try_send(&mut self.channel, payload) {
            Ok(())
        } else {
            Err(QueueError::Full)
        }
    }

    /// Takes the oldest payload, if any.
    pub fn try_receive(&mut self) -> (r: Option<Vec<u8>>)
        ensures
            old(self)@.len() == 0 ==> r is None && final(self)@ == old(self)@,
            old(self)@.len() > 0 ==> r is Some && r.unwrap()@ == old(self)@[0] && final(self)@
                == old(self)@.drop_first(),
            r matches Some(v) ==> v@.len() <= MAX_PAYLOAD_LEN,
    {
        payload_channel_try_receive(&mut self.channel)
    }

    pub fn len(&self) -> (r: usize)
        ensures
            r == self@.len(),
    {
        payload_channel_len(&self.channel)
    }
}

/// The outbound and inbound queues between the protocol layer and the transport.
pub struct Delivery {
    pub outbound: PayloadQueue,
    pub inbound: PayloadQueue,
}

impl Delivery {
    pub fn new() -> (r: Delivery)
        ensures
            r.outbound@ == Seq::<Seq<u8>>::empty(),
            r.inbound@ == Seq::<Seq<u8>>::empty(),
    {
        Delivery { outbound: PayloadQueue::new(), inbound: PayloadQueue::new() }
    }

    /// A payload came in from the transport: queue it for the response
    /// handler, or drop it when the inbound queue is full (or it is too large).
    pub fn accept_inbound(&mut self, payload: &[u8]) -> (r: bool)
        ensures
            r == (payload@.len() <= MAX_PAYLOAD_LEN && old(self).inbound@.len()
                < PAYLOAD_QUEUE_CAPACITY),
            r ==> final(self).inbound@ == old(self).inbound@.push(payload@),
            !r ==> final(self).inbound@ == old(self).inbound@,
            final(self).outbound@ == old(self).outbound@,
    {
        self.inbound.try_send(payload).is_ok()
    }

    /// The next payload to hand to the transport, if any.
    pub fn next_outbound(&mut self) -> (r: Option<Vec<u8>>)
        ensures
            old(self).outbound@.len() == 0 ==> r is None && final(self).outbound@ == old(
                self,
            ).outbound@,
            old(self).outbound@.len() > 0 ==> r is Some && r.unwrap()@ == old(self).outbound@[0]
                && final(self).outbound@ == old(self).outbound@.drop_first(),
            final(self).inbound@ == old(self).inbound@,
            r matches Some(v) ==> v@.len() <= MAX_PAYLOAD_LEN,
    {
        self.outbound.try_receive()
    }

    /// The transport failed to send `payload`: queue it once more at the back,
    /// or drop it when the outbound queue is full. Never more than that one retry.
    pub fn send_failed(&mut self, payload: &[u8]) -> (r: bool)
        ensures
            r == (payload@.len() <= MAX_PAYLOAD_LEN && old(self).outbound@.len()
                < PAYLOAD_QUEUE_CAPACITY),
            r ==> final(self).outbound@ == old(self).outbound@.push(payload@),
            !r ==> final(self).outbound@ == old(self).outbound@,
            final(self).inbound@ == old(self).inbound@,
    {
        self.outbound.try_send(payload).is_ok()
    }

    /// The next inbound payload for the response handler, if any.
    pub fn next_inbound(&mut self) -> (r: Option<Vec<u8>>)
        ensures
            old(self).inbound@.len() == 0 ==> r is None && final(self).inbound@ == old(
                self,
            ).inbound@,
            old(self).inbound@.len() > 0 ==> r is Some && r.unwrap()@ == old(self).inbound@[0]
                && final(self).inbound@ == old(self).inbound@.drop_first(),
            final(self).outbound@ == old(self).outbound@,
            r matches Some(v) ==> v@.len() <= MAX_PAYLOAD_LEN,
    {
        self.inbound.try_receive()
    }
}

} // verus!
