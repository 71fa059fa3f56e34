//! Behaviour of the production state machine against the demand
//! protocol: premature demand, block rounding, queue replacement,
//! overflow, termination.

use audio_bridge::events::DemandEvent;
use audio_bridge::production::{Action, Phase, ProductionLoop};
use audio_bridge::sample_queue::SampleQueue;

fn ramp(from: u64, count: usize) -> Vec<u64> {
    let mut frames = Vec::new();
    for i in 0..count {
        frames.push(from + i as u64);
    }
    frames
}

#[test]
fn premature_demand_is_a_noop() {
    let mut pl: ProductionLoop<u64> = ProductionLoop::new(64);
    assert_eq!(pl.phase(), Phase::AwaitingReset);
    let action = pl.handle_event(DemandEvent::NeedsAudio { timestamp: 0, frame_count: 256 });
    assert_eq!(action, Action::Idle);
    assert_eq!(pl.phase(), Phase::AwaitingReset);
    assert_eq!(pl.frames_queued(), 0);
}

#[test]
fn reset_adopts_rate_and_queue() {
    let mut pl: ProductionLoop<u64> = ProductionLoop::new(64);
    let queue = SampleQueue::new(1024, 0);
    let action = pl.handle_event(DemandEvent::Reset { sample_rate: 48000, queue });
    assert_eq!(action, Action::Configure { sample_rate: 48000 });
    assert_eq!(pl.phase(), Phase::Streaming);
    assert_eq!(pl.sample_rate(), 48000);
    assert_eq!(pl.frames_queued(), 0);
}

#[test]
fn partial_demand_rounds_down_to_whole_blocks() {
    let mut pl: ProductionLoop<u64> = ProductionLoop::new(64);
    pl.handle_event(DemandEvent::Reset { sample_rate: 44100, queue: SampleQueue::new(1024, 0) });
    let action = pl.handle_event(DemandEvent::NeedsAudio { timestamp: 7, frame_count: 100 });
    assert_eq!(action, Action::Produce { frame_count: 64 });
    let accepted = pl.deliver_frames(&ramp(0, 64));
    assert_eq!(accepted, 64);
    assert_eq!(pl.frames_queued(), 64);
}

#[test]
fn demand_smaller_than_a_block_produces_nothing() {
    let mut pl: ProductionLoop<u64> = ProductionLoop::new(64);
    pl.handle_event(DemandEvent::Reset { sample_rate: 44100, queue: SampleQueue::new(1024, 0) });
    let action = pl.handle_event(DemandEvent::NeedsAudio { timestamp: 0, frame_count: 63 });
    assert_eq!(action, Action::Produce { frame_count: 0 });
    assert_eq!(pl.frames_queued(), 0);
}

#[test]
fn frames_stay_in_production_order_across_events() {
    let mut pl: ProductionLoop<u64> = ProductionLoop::new(64);
    pl.handle_event(DemandEvent::Reset { sample_rate: 48000, queue: SampleQueue::new(1024, 0) });

    let mut produced_so_far: u64 = 0;
    for demand in [64usize, 128, 64] {
        let action = pl.handle_event(DemandEvent::NeedsAudio { timestamp: 0, frame_count: demand });
        assert_eq!(action, Action::Produce { frame_count: demand });
        let accepted = pl.deliver_frames(&ramp(produced_so_far, demand));
        assert_eq!(accepted, demand);
        produced_so_far += demand as u64;
    }

    assert_eq!(pl.frames_queued(), 256);
    for expected in 0..256u64 {
        assert_eq!(pl.pop_frame(), Some(expected));
    }
    assert_eq!(pl.frames_queued(), 0);
}

#[test]
fn reset_replaces_queue_wholesale() {
    let mut pl: ProductionLoop<u64> = ProductionLoop::new(1);
    pl.handle_event(DemandEvent::Reset { sample_rate: 44100, queue: SampleQueue::new(8, 0) });
    pl.handle_event(DemandEvent::NeedsAudio { timestamp: 0, frame_count: 3 });
    pl.deliver_frames(&vec![1, 2, 3]);
    assert_eq!(pl.frames_queued(), 3);

    // A new device configuration arrives while the first queue still
    // holds frames: the fresh queue fully replaces it.
    let action =
        pl.handle_event(DemandEvent::Reset { sample_rate: 48000, queue: SampleQueue::new(8, 0) });
    assert_eq!(action, Action::Configure { sample_rate: 48000 });
    assert_eq!(pl.phase(), Phase::Streaming);
    assert_eq!(pl.sample_rate(), 48000);
    assert_eq!(pl.frames_queued(), 0);

    pl.handle_event(DemandEvent::NeedsAudio { timestamp: 0, frame_count: 2 });
    pl.deliver_frames(&vec![9, 8]);
    assert_eq!(pl.pop_frame(), Some(9));
    assert_eq!(pl.pop_frame(), Some(8));
}

#[test]
fn overflowing_delivery_drops_the_excess() {
    let mut pl: ProductionLoop<u64> = ProductionLoop::new(1);
    pl.handle_event(DemandEvent::Reset { sample_rate: 48000, queue: SampleQueue::new(4, 0) });
    let accepted = pl.deliver_frames(&ramp(1, 6));
    assert_eq!(accepted, 4);
    assert_eq!(pl.frames_queued(), 4);
    for expected in 1..=4u64 {
        assert_eq!(pl.pop_frame(), Some(expected));
    }
}

#[test]
fn empty_streaming_queue_pops_silence() {
    let mut pl: ProductionLoop<u64> = ProductionLoop::new(64);
    pl.handle_event(DemandEvent::Reset { sample_rate: 48000, queue: SampleQueue::new(16, 77) });
    assert_eq!(pl.pop_frame(), Some(77));
    assert_eq!(pl.frames_queued(), 0);
}

#[test]
fn pop_before_any_reset_yields_nothing() {
    let mut pl: ProductionLoop<u64> = ProductionLoop::new(64);
    assert_eq!(pl.pop_frame(), None);
}

#[test]
fn quit_terminates_and_later_events_are_ignored() {
    let mut pl: ProductionLoop<u64> = ProductionLoop::new(64);
    pl.handle_event(DemandEvent::Reset { sample_rate: 48000, queue: SampleQueue::new(16, 0) });
    let action = pl.handle_event(DemandEvent::Quit);
    assert_eq!(action, Action::Stop);
    assert_eq!(pl.phase(), Phase::Terminated);

    let after_demand =
        pl.handle_event(DemandEvent::NeedsAudio { timestamp: 0, frame_count: 128 });
    assert_eq!(after_demand, Action::Idle);
    let after_reset =
        pl.handle_event(DemandEvent::Reset { sample_rate: 96000, queue: SampleQueue::new(16, 0) });
    assert_eq!(after_reset, Action::Idle);
    assert_eq!(pl.phase(), Phase::Terminated);
    assert_eq!(pl.frames_queued(), 0);

    // A terminated loop writes no queue even if frames are offered.
    let accepted = pl.deliver_frames(&vec![1, 2, 3]);
    assert_eq!(accepted, 0);
    assert_eq!(pl.pop_frame(), None);
}
