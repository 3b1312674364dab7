//! The receive path: taking wire frames from the transport's channel and turning them
//! into stamped frames for the caller.

use vstd::prelude::*;
use std::time::{Duration, Instant};
use crossbeam_channel::{Receiver, RecvError};
use crate::frame::{decode, dlc_len, Frame, FrameView, MAX_DLC};
use crate::wire::{HostFrame, HostFrameView, GSUSB_ID_MASK};

verus! {

/// The receiving end of a `crossbeam_channel` channel, opaque to the verifier.
#[verifier::external_type_specification]
#[verifier::external_body]
#[verifier::reject_recursive_types(T)]
pub struct ExReceiver<T>(crossbeam_channel::Receiver<T>);

/// The error of `crossbeam_channel::Receiver::recv`, opaque to the verifier.
#[verifier::external_type_specification]
#[verifier::external_body]
pub struct ExRecvError(crossbeam_channel::RecvError);

/// A point in time of the monotonic clock, opaque to the verifier.
#[verifier::external_type_specification]
#[verifier::external_body]
pub struct ExInstant(std::time::Instant);

/// Calls `crossbeam_channel::Receiver::recv`, which waits until a message is in the
/// channel and takes it out, or returns an error once the channel is empty and every
/// sender is gone. Nothing is claimed about what comes back: that depends on the
/// other threads.
#[verifier::external_body]
fn recv(rx: &Receiver<HostFrame>) -> Result<HostFrame, RecvError> {
    rx.recv()
}

/// Calls `std::time::Instant::elapsed`, the time that has passed since `start`.
/// Nothing is claimed about the result: it depends on the clock.
#[verifier::external_body]
fn elapsed(start: &Instant) -> Duration {
    start.elapsed()
}

/// What the receive task has to do after waiting for a wire frame.
#[derive(Clone, Debug, PartialEq, Eq)]
pub enum Received {
    /// Hand the frame to the caller.
    Frame(Frame),
    /// The wire frame has a data length code that does not exist: the adapter and the
    /// host disagree about the protocol.
    Invalid(HostFrame),
    /// The transport is gone; end the task.
    Disconnected,
}

/// The frame that the wire frame `hf` carries, stamped with the time of its reception.
pub open spec fn stamped(hf: HostFrameView, at: Duration) -> FrameView {
    FrameView { timestamp: Some(at), ..decode(hf) }
}

/// Whether `r` is what the receive task has to do when its wait ended with `event`,
/// `at` after the start of the interface: a wire frame is decoded and stamped, unless
/// its data length code does not exist; no wire frame means that the transport is gone.
pub open spec fn follows(r: Received, event: Option<HostFrame>, at: Duration) -> bool {
    match event {
        Some(hf) => if hf.can_dlc <= MAX_DLC {
            r matches Received::Frame(f) && f@ == stamped(hf@, at)
        } else {
            r matches Received::Invalid(bad) && bad == hf
        },
        None => r is Disconnected,
    }
}

/// Decides what the receive task has to do when its wait ended with `event`, `at`
/// after the start of the interface.
pub fn accept(event: Option<HostFrame>, at: Duration) -> (r: Received)
    ensures
        follows(r, event, at),
{
    match event {
        Some(hf) => {
            if hf.can_dlc <= MAX_DLC {
                let mut f = Frame::from_host_frame(hf);
                f.timestamp = Some(at);
                Received::Frame(f)
            } else {
                Received::Invalid(hf)
            }
        },
        None => Received::Disconnected,
    }
}

/// Waits for the next wire frame on `rx` and decides what the receive task has to do
/// with it. The frame is stamped with the time that has passed since `started`. The
/// call returns only when a frame has arrived or the transport has dropped its sender.
pub fn receive(rx: &Receiver<HostFrame>, started: &Instant) -> (r: Received)
    ensures
        exists|event: Option<HostFrame>, at: Duration| follows(r, event, at),
        r matches Received::Frame(f) ==> {
            &&& f.timestamp is Some
            &&& f.can_id <= GSUSB_ID_MASK
            &&& f.can_dlc <= MAX_DLC
            &&& f.data@.len() == dlc_len(f.can_dlc)
        },
        r matches Received::Invalid(hf) ==> hf.can_dlc > MAX_DLC,
{
    let event = match recv(rx) {
        Ok(hf) => Some(hf),
        Err(_) => None,
    };
    let at = elapsed(started);
    let r = accept(event, at);
    assert(follows(r, event, at));
    proof {
        if let Some(hf) = event {
            let id = hf.can_id;
            assert(id & 0x1FFF_FFFFu32 <= 0x1FFF_FFFFu32) by (bit_vector);
        }
    }
    r
}

} // verus!
