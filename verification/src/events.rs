//! The demand protocol: events the audio subsystem sends to the
//! production thread, and the channel endpoint the production side
//! consumes them from.
//!
//! Events travel over a FIFO channel with a single consumer, so each is
//! delivered exactly once and in emission order. The channel itself is an
//! outside collaborator; the bridge only receives from it.

use vstd::prelude::*;
use crate::sample_queue::SampleQueue;
use crossbeam_channel::Receiver;

verus! {

/// One hardware-driven event for the production thread.
pub enum DemandEvent<T> {
    /// The audio device has (re)opened at `sample_rate`. `queue` is a
    /// fresh frame queue that fully replaces whatever queue the
    /// production side was writing to; no frame may be pushed to any
    /// queue but the most recently received one.
    Reset { sample_rate: usize, queue: SampleQueue<T> },
    /// The audio callback needs `frame_count` more frames at or after
    /// `timestamp`. The timestamp is advisory telemetry for drift
    /// tracking and does not affect what is produced.
    NeedsAudio { timestamp: u64, frame_count: usize },
    /// Terminal event: the production thread must stop after processing
    /// it and write to no queue again.
    Quit,
}

/// The mathematical shadow of a [`DemandEvent`]: the queue inside a
/// `Reset` is reduced to its contents, capacity and silence frame, and
/// the advisory timestamp is dropped.
pub enum EventModel<T> {
    Reset { sample_rate: usize, queue: Seq<T>, cap: nat, silence: T },
    NeedsAudio { frame_count: usize },
    Quit,
}

impl<T> View for DemandEvent<T> {
    type V = EventModel<T>;

    open spec fn view(&self) -> EventModel<T> {
        match self {
            DemandEvent::Reset { sample_rate, queue } => EventModel::Reset {
                sample_rate: *sample_rate,
                queue: queue@,
                cap: queue.cap(),
                silence: queue.spec_silence(),
            },
            DemandEvent::NeedsAudio { timestamp: _, frame_count } => EventModel::NeedsAudio {
                frame_count: *frame_count,
            },
            DemandEvent::Quit => EventModel::Quit,
        }
    }
}

#[verifier::external_type_specification]
#[verifier::external_body]
#[verifier::reject_recursive_types(T)]
pub struct ExReceiver<T>(Receiver<T>);

/// Receives the next demand event, suspending until one arrives.
///
/// Relies on `crossbeam_channel::Receiver::recv`: it blocks until a
/// message is received (returned here as `Some`) or until the channel is
/// empty with every sender gone (returned here as `None`). Which event
/// arrives depends on the sending threads, so nothing is stated about
/// the value; the production loop handles every possible event.
#[verifier::external_body]
pub fn recv_demand<T>(rx: &Receiver<DemandEvent<T>>) -> (ev: Option<DemandEvent<T>>) {
    match rx.recv() {
        Ok(event) => Some(event),
        Err(_) => None,
    }
}

} // verus!
