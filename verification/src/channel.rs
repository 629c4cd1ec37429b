//! The single-slot hand-off between the capture thread and the consumer.
//!
//! The channel buffers at most one frame. A producer that is faster than the
//! consumer blocks in [`FrameSender::push`] until the previous frame has been
//! taken, so the pipeline throttles the camera instead of queueing frames.

use crate::frame::{rgb_len, Frame};
use flume::{Receiver, Sender};
use vstd::prelude::*;

verus! {

/// `flume::Sender`, the sending end of a channel, carried as an opaque value.
#[verifier::external_type_specification]
#[verifier::external_body]
#[verifier::reject_recursive_types(T)]
pub struct ExSender<T>(Sender<T>);

/// `flume::Receiver`, the receiving end of a channel, carried as an opaque
/// value.
#[verifier::external_type_specification]
#[verifier::external_body]
#[verifier::reject_recursive_types(T)]
pub struct ExReceiver<T>(Receiver<T>);

/// Number of frames the channel may buffer.
pub const FRAME_CHANNEL_CAPACITY: usize = 1;

/// The maximum capacity of the channel behind a sending end: `None` for an
/// unbounded channel, otherwise the capacity the channel was created with.
pub uninterp spec fn sender_bound(tx: Sender<Frame>) -> Option<usize>;

/// The maximum capacity of the channel behind a receiving end: `None` for an
/// unbounded channel, otherwise the capacity the channel was created with.
pub uninterp spec fn receiver_bound(rx: Receiver<Frame>) -> Option<usize>;

/// `flume::bounded` creates a channel with the given maximum capacity and
/// returns its two ends.
#[verifier::external_body]
fn bounded_channel(cap: usize) -> (ends: (Sender<Frame>, Receiver<Frame>))
    ensures
        sender_bound(ends.0) == Some(cap),
        receiver_bound(ends.1) == Some(cap),
{
    flume::bounded(cap)
}

/// `Sender::send` blocks while the channel is full. It fails only when every
/// receiver has been dropped, and then hands the unsent value back.
#[verifier::external_body]
fn send_blocking(tx: &Sender<Frame>, frame: Frame) -> (sent: Result<(), Frame>)
    ensures
        sent matches Err(back) ==> back == frame,
{
    match tx.send(frame) {
        Ok(()) => Ok(()),
        Err(flume::SendError(back)) => Err(back),
    }
}

/// `Receiver::recv` blocks until a value arrives and fails only when every
/// sender has been dropped and nothing is left in the channel. Which of the
/// two happens depends on the other thread, so nothing is stated.
#[verifier::external_body]
fn receive_blocking(rx: &Receiver<Frame>) -> (got: Option<Frame>) {
    rx.recv().ok()
}

/// `Sender::capacity` returns the capacity of a bounded channel and `None`
/// for an unbounded one.
#[verifier::external_body]
fn sender_capacity(tx: &Sender<Frame>) -> (cap: Option<usize>)
    ensures
        cap == sender_bound(*tx),
{
    tx.capacity()
}

/// `Receiver::capacity` returns the capacity of a bounded channel and `None`
/// for an unbounded one.
#[verifier::external_body]
fn receiver_capacity(rx: &Receiver<Frame>) -> (cap: Option<usize>)
    ensures
        cap == receiver_bound(*rx),
{
    rx.capacity()
}

/// `Receiver::len` returns the number of messages in the channel, which never
/// exceeds the maximum capacity of a bounded channel.
#[verifier::external_body]
fn receiver_len(rx: &Receiver<Frame>) -> (n: usize)
    ensures
        receiver_bound(*rx) matches Some(cap) ==> n <= cap,
{
    rx.len()
}

/// The producing end of the frame channel, owned by the capture thread.
pub struct FrameSender {
    tx: Sender<Frame>,
}

/// The consuming end of the frame channel, owned by the match loop.
pub struct FrameReceiver {
    rx: Receiver<Frame>,
}

/// Creates the frame channel: capacity exactly [`FRAME_CHANNEL_CAPACITY`],
/// seen from either end.
pub fn frame_channel() -> (ends: (FrameSender, FrameReceiver))
    ensures
        ends.0.bound() == FRAME_CHANNEL_CAPACITY,
        ends.1.bound() == FRAME_CHANNEL_CAPACITY,
{
    let (tx, rx) = bounded_channel(FRAME_CHANNEL_CAPACITY);
    (FrameSender { tx }, FrameReceiver { rx })
}

impl FrameSender {
    /// The channel behind a frame sender has exactly one slot.
    #[verifier::type_invariant]
    pub open spec fn single_slot(self) -> bool {
        self.bound() == FRAME_CHANNEL_CAPACITY
    }

    /// The capacity of the channel this end belongs to; zero stands for a
    /// channel without a bound.
    pub closed spec fn bound(self) -> nat {
        match sender_bound(self.tx) {
            Some(cap) => cap as nat,
            None => 0,
        }
    }

    /// The number of frames the channel may buffer: always one.
    pub fn capacity(&self) -> (cap: usize)
        ensures
            cap == FRAME_CHANNEL_CAPACITY,
            cap == self.bound(),
    {
        proof {
            use_type_invariant(self);
        }
        match sender_capacity(&self.tx) {
            Some(n) => n,
            None => FRAME_CHANNEL_CAPACITY,
        }
    }

    /// Hands a frame to the consumer, waiting until the slot is free.
    ///
    /// Returns the frame when the consumer has gone away. Whether it has is
    /// decided by the other thread.
    pub fn push(&self, frame: Frame) -> (sent: Result<(), Frame>)
        ensures
            sent matches Err(back) ==> back == frame,
    {
        send_blocking(&self.tx, frame)
    }
}

impl FrameReceiver {
    #[verifier::type_invariant]
    spec fn single_slot(self) -> bool {
        receiver_bound(self.rx) == Some(FRAME_CHANNEL_CAPACITY)
    }

    /// The capacity of the channel this end belongs to.
    pub closed spec fn bound(self) -> nat {
        match receiver_bound(self.rx) {
            Some(cap) => cap as nat,
            None => 0,
        }
    }

    /// Waits for the next frame. `None` is the end of the stream: the
    /// producer has dropped its end and nothing is buffered.
    pub fn recv(&self) -> (got: Option<Frame>)
        ensures
            got matches Some(frame) ==> frame@.pixels.len() == rgb_len(
                frame@.width,
                frame@.height,
            ),
    {
        match receive_blocking(&self.rx) {
            Some(frame) => {
                proof {
                    use_type_invariant(&frame);
                }
                Some(frame)
            },
            None => None,
        }
    }

    /// The number of frames the channel may buffer: always one.
    pub fn capacity(&self) -> (cap: usize)
        ensures
            cap == FRAME_CHANNEL_CAPACITY,
            cap == self.bound(),
    {
        proof {
            use_type_invariant(self);
        }
        match receiver_capacity(&self.rx) {
            Some(n) => n,
            None => FRAME_CHANNEL_CAPACITY,
        }
    }

    /// The number of frames waiting in the channel: never more than one.
    pub fn pending(&self) -> (n: usize)
        ensures
            n <= FRAME_CHANNEL_CAPACITY,
    {
        proof {
            use_type_invariant(self);
        }
        receiver_len(&self.rx)
    }
}

} // verus!
