//! The production state machine: how the production thread answers
//! demand events.
//!
//! The loop has three phases. Before the first `Reset` it only waits
//! (demand with nowhere to write is dropped). While streaming it answers
//! each `NeedsAudio` by asking the engine for whole synthesis blocks —
//! the demanded count rounded down to a multiple of the engine's block
//! size, the remainder left for the next event — and pushing the
//! produced frames, in order, into the current queue. A further `Reset`
//! re-arms it with a new sample rate and a fresh queue. After `Quit` it
//! is terminated for good: every later event is ignored and no queue is
//! written again.
//!
//! The engine itself is an outside collaborator: this module decides
//! what must be done ([`Action`]), the surrounding program performs the
//! engine calls and hands the produced frames back to
//! [`ProductionLoop::deliver_frames`]. Every transition is pinned to the
//! mathematical step functions below ([`handle_model`], [`action_model`],
//! [`deliver_model`]), and the bridge's laws are proved about those.

use vstd::prelude::*;
use vstd::arithmetic::div_mod::{lemma_fundamental_div_mod, lemma_mod_bound, lemma_mod_multiples_basic};
use crate::sample_queue::SampleQueue;
use crate::events::{DemandEvent, EventModel, recv_demand};
use crossbeam_channel::Receiver;

verus! {

/// The phase of the production state machine.
#[derive(Clone, Copy, Debug, PartialEq, Eq, Structural)]
pub enum Phase {
    /// No queue has been adopted yet; only `Reset` has any effect.
    AwaitingReset,
    /// A queue and sample rate are adopted; demand is answered.
    Streaming,
    /// `Quit` was processed; nothing is ever processed again.
    Terminated,
}

/// What the surrounding program must do after an event was processed.
#[derive(Clone, Copy, Debug, PartialEq, Eq, Structural)]
pub enum Action {
    /// Nothing: the event was dropped or the loop is terminated.
    Idle,
    /// A reset was adopted: propagate this sample rate into the engine
    /// before the next demand is processed.
    Configure { sample_rate: usize },
    /// Demand was accepted: advance the engine by whole blocks until
    /// `frame_count` frames exist and hand them to `deliver_frames`.
    Produce { frame_count: usize },
    /// Quit was processed: leave the event loop; the thread ends.
    Stop,
}

/// Mathematical state of the production loop: the phase, the engine's
/// synthesis block size, the adopted sample rate, and the adopted
/// queue's contents, capacity and silence frame (empty, zero and
/// meaningless while no queue is adopted).
#[verifier::ext_equal]
pub struct LoopModel<T> {
    pub phase: Phase,
    pub block_frames: usize,
    pub sample_rate: usize,
    pub queue: Seq<T>,
    pub cap: nat,
    pub silence: T,
}

/// How many of the demanded frames are granted: the demand rounded down
/// to a whole number of synthesis blocks. The remainder is covered by
/// the next demand event, never produced early.
pub open spec fn granted_frames(frame_count: usize, block_frames: usize) -> int {
    (frame_count as int / block_frames as int) * (block_frames as int)
}

/// How many of `frames` a queue holding `queue` with capacity `cap`
/// retains when they are pushed one by one: all of them if they fit,
/// otherwise only the oldest ones up to capacity — the rest are dropped,
/// never blocked on.
pub open spec fn frames_kept<T>(queue: Seq<T>, cap: nat, frames: Seq<T>) -> int {
    if queue.len() + frames.len() <= cap {
        frames.len() as int
    } else {
        cap - queue.len()
    }
}

/// The queue contents after a burst of frames is pushed in order:
/// the old contents, then the retained prefix of the burst.
pub open spec fn deliver<T>(queue: Seq<T>, cap: nat, frames: Seq<T>) -> Seq<T> {
    queue + frames.take(frames_kept(queue, cap, frames))
}

/// State transition for one demand event (production aside). A
/// terminated loop ignores everything; `Reset` adopts the fresh queue
/// and sample rate wholesale; `NeedsAudio` changes no state by itself;
/// `Quit` terminates and drops the queue.
pub open spec fn handle_model<T>(m: LoopModel<T>, ev: EventModel<T>) -> LoopModel<T> {
    if m.phase is Terminated {
        m
    } else {
        match ev {
            EventModel::Reset { sample_rate, queue, cap, silence } => LoopModel {
                phase: Phase::Streaming,
                block_frames: m.block_frames,
                sample_rate,
                queue,
                cap,
                silence,
            },
            EventModel::NeedsAudio { .. } => m,
            EventModel::Quit => LoopModel {
                phase: Phase::Terminated,
                queue: Seq::empty(),
                cap: 0,
                silence: vstd::pervasive::arbitrary(),
                ..m
            },
        }
    }
}

/// The action owed for one demand event: configure after a reset,
/// produce whole blocks for demand while streaming, stop on quit,
/// nothing otherwise.
pub open spec fn action_model<T>(m: LoopModel<T>, ev: EventModel<T>) -> Action {
    if m.phase is Terminated {
        Action::Idle
    } else {
        match ev {
            EventModel::Reset { sample_rate, .. } => Action::Configure { sample_rate },
            EventModel::NeedsAudio { frame_count } => {
                if m.phase is Streaming {
                    Action::Produce {
                        frame_count: granted_frames(frame_count, m.block_frames) as usize,
                    }
                } else {
                    Action::Idle
                }
            },
            EventModel::Quit => Action::Stop,
        }
    }
}

/// State transition for a burst of produced frames: while streaming they
/// are delivered to the queue; in any other phase nothing is written.
pub open spec fn deliver_model<T>(m: LoopModel<T>, frames: Seq<T>) -> LoopModel<T> {
    if m.phase is Streaming {
        LoopModel { queue: deliver(m.queue, m.cap, frames), ..m }
    } else {
        m
    }
}

/// One whole round of the loop: process the event, and if it called for
/// production, deliver whatever the engine produced for it.
pub open spec fn step_model<T>(m: LoopModel<T>, ev: EventModel<T>, produced: Seq<T>) -> LoopModel<T> {
    if action_model(m, ev) is Produce {
        deliver_model(handle_model(m, ev), produced)
    } else {
        handle_model(m, ev)
    }
}

/// The loop's state after a whole script of rounds, each an event paired
/// with whatever the engine produced for it.
pub open spec fn run_model<T>(m: LoopModel<T>, script: Seq<(EventModel<T>, Seq<T>)>) -> LoopModel<T>
    decreases script.len(),
{
    if script.len() == 0 {
        m
    } else {
        run_model(step_model(m, script[0].0, script[0].1), script.skip(1))
    }
}

/// The production state machine. Its abstract state is a [`LoopModel`],
/// written `self@` in contracts; every method's effect is stated against
/// the model step functions.
pub struct ProductionLoop<T> {
    /// The engine's native synthesis block size, in frames; fixed at
    /// construction, at least one.
    block_frames: usize,
    /// The sample rate adopted from the most recent `Reset`.
    sample_rate: usize,
    /// Whether `Quit` has been processed.
    terminated: bool,
    /// The queue adopted from the most recent `Reset`, if any. Only the
    /// most recently received queue is ever written.
    queue: Option<SampleQueue<T>>,
}

impl<T> ProductionLoop<T> {
    /// The block size is positive and a terminated loop holds no queue,
    /// so it can never write one.
    #[verifier::type_invariant]
    pub closed spec fn wf(&self) -> bool {
        &&& self.block_frames >= 1
        &&& self.terminated ==> self.queue is None
    }
}

impl<T> View for ProductionLoop<T> {
    type V = LoopModel<T>;

    closed spec fn view(&self) -> LoopModel<T> {
        LoopModel {
            phase: if self.queue is Some {
                Phase::Streaming
            } else if self.terminated {
                Phase::Terminated
            } else {
                Phase::AwaitingReset
            },
            block_frames: self.block_frames,
            sample_rate: self.sample_rate,
            queue: match self.queue {
                Some(q) => q@,
                None => Seq::empty(),
            },
            cap: match self.queue {
                Some(q) => q.cap(),
                None => 0,
            },
            silence: match self.queue {
                Some(q) => q.spec_silence(),
                None => vstd::pervasive::arbitrary(),
            },
        }
    }
}

impl<T: Copy> ProductionLoop<T> {
    /// Makes a loop that has seen no event yet. `block_frames` is the
    /// engine's native synthesis block size.
    pub fn new(block_frames: usize) -> (pl: Self)
        requires
            block_frames >= 1,
        ensures
            pl@.phase is AwaitingReset,
            pl@.block_frames == block_frames,
            pl@.sample_rate == 0,
            pl@.queue == Seq::<T>::empty(),
            pl@.cap == 0,
    {
        ProductionLoop { block_frames, sample_rate: 0, terminated: false, queue: None }
    }

    /// The current phase.
    pub fn phase(&self) -> (p: Phase)
        ensures
            p == self@.phase,
    {
        if self.queue.is_some() {
            Phase::Streaming
        } else if self.terminated {
            Phase::Terminated
        } else {
            Phase::AwaitingReset
        }
    }

    /// The sample rate adopted from the most recent reset.
    pub fn sample_rate(&self) -> (r: usize)
        ensures
            r == self@.sample_rate,
    {
        self.sample_rate
    }

    /// The engine's synthesis block size this loop was built for.
    pub fn block_frames(&self) -> (b: usize)
        ensures
            b == self@.block_frames,
    {
        self.block_frames
    }

    /// How many frames sit in the current queue (zero while none is
    /// adopted).
    pub fn frames_queued(&self) -> (n: usize)
        ensures
            n == self@.queue.len(),
    {
        match &self.queue {
            Some(q) => q.len(),
            None => 0,
        }
    }

    /// Processes one demand event and returns the action the
    /// surrounding program owes for it. The state change is exactly
    /// [`handle_model`] and the action exactly [`action_model`].
    pub fn handle_event(&mut self, ev: DemandEvent<T>) -> (action: Action)
        ensures
            final(self)@ == handle_model(old(self)@, ev@),
            action == action_model(old(self)@, ev@),
    {
        proof {
            use_type_invariant(&*self);
        }
        let ghost evm = ev@;
        if self.terminated {
            return Action::Idle;
        }
        match ev {
            DemandEvent::Reset { sample_rate, queue } => {
                self.sample_rate = sample_rate;
                self.queue = Some(queue);
                proof {
                    assert(self@ =~= handle_model(old(self)@, evm));
                }
                Action::Configure { sample_rate }
            },
            DemandEvent::NeedsAudio { timestamp: _, frame_count } => {
                let action = if self.queue.is_some() {
                    let whole_blocks = frame_count / self.block_frames;
                    proof {
                        lemma_fundamental_div_mod(frame_count as int, self.block_frames as int);
                        lemma_mod_bound(frame_count as int, self.block_frames as int);
                        assert(whole_blocks as int * self.block_frames as int <= frame_count as int);
                    }
                    let granted = whole_blocks * self.block_frames;
                    Action::Produce { frame_count: granted }
                } else {
                    Action::Idle
                };
                proof {
                    assert(self@ =~= handle_model(old(self)@, evm));
                }
                action
            },
            DemandEvent::Quit => {
                self.queue = None;
                self.terminated = true;
                proof {
                    assert(self@ =~= handle_model(old(self)@, evm));
                }
                Action::Stop
            },
        }
    }

    /// Delivers a burst of engine-produced frames, in generation order,
    /// to the current queue. Frames beyond capacity are dropped, never
    /// blocked on; in any phase but streaming nothing is written and the
    /// burst is discarded. Returns how many frames the queue accepted.
    pub fn deliver_frames(&mut self, frames: &Vec<T>) -> (accepted: usize)
        ensures
            final(self)@ == deliver_model(old(self)@, frames@),
            old(self)@.phase is Streaming ==> accepted
                == frames_kept(old(self)@.queue, old(self)@.cap, frames@),
            !(old(self)@.phase is Streaming) ==> accepted == 0,
    {
        proof {
            use_type_invariant(&*self);
        }
        let mut taken: Option<SampleQueue<T>> = None;
        core::mem::swap(&mut taken, &mut self.queue);
        match taken {
            Some(mut q) => {
                proof {
                    use_type_invariant(&q);
                    q.lemma_bounds();
                }
                let ghost q0 = q@;
                let ghost cap0 = q.cap();
                let mut i: usize = 0;
                let mut accepted: usize = 0;
                while i < frames.len()
                    invariant
                        i <= frames@.len(),
                        accepted <= i,
                        q.cap() == cap0,
                        q.spec_silence() == old(self)@.silence,
                        q0.len() <= cap0,
                        q0.len() + i <= cap0 ==> {
                            &&& q@ == q0 + frames@.take(i as int)
                            &&& accepted == i
                        },
                        q0.len() + i > cap0 ==> {
                            &&& q@ == q0 + frames@.take(cap0 as int - q0.len() as int)
                            &&& accepted + q0.len() == cap0
                        },
                    decreases frames@.len() - i,
                {
                    let pushed = q.push(frames[i]);
                    proof {
                        if q0.len() + i < cap0 {
                            assert(q@ =~= q0 + frames@.take(i as int + 1));
                        }
                    }
                    if pushed {
                        accepted = accepted + 1;
                    }
                    i = i + 1;
                }
                self.queue = Some(q);
                proof {
                    assert(self@ =~= deliver_model(old(self)@, frames@));
                }
                accepted
            },
            None => {
                proof {
                    assert(self@ =~= deliver_model(old(self)@, frames@));
                }
                0
            },
        }
    }

    /// Yields the next frame for the audio side: the oldest queued
    /// frame, or the silence frame when the queue is empty — the
    /// consumer is never blocked. While no queue is adopted there is
    /// nothing to play and `None` is returned.
    pub fn pop_frame(&mut self) -> (frame: Option<T>)
        ensures
            !(old(self)@.phase is Streaming) ==> frame is None && final(self)@ == old(self)@,
            old(self)@.phase is Streaming && old(self)@.queue.len() == 0 ==> {
                &&& frame == Some(old(self)@.silence)
                &&& final(self)@ == old(self)@
            },
            old(self)@.phase is Streaming && old(self)@.queue.len() > 0 ==> {
                &&& frame == Some(old(self)@.queue[0])
                &&& final(self)@ == (LoopModel {
                    queue: old(self)@.queue.subrange(1, old(self)@.queue.len() as int),
                    ..old(self)@
                })
            },
    {
        proof {
            use_type_invariant(&*self);
        }
        let mut taken: Option<SampleQueue<T>> = None;
        core::mem::swap(&mut taken, &mut self.queue);
        match taken {
            Some(mut q) => {
                let frame = q.pop();
                self.queue = Some(q);
                proof {
                    if old(self)@.queue.len() > 0 {
                        assert(self@ =~= (LoopModel {
                            queue: old(self)@.queue.subrange(1, old(self)@.queue.len() as int),
                            ..old(self)@
                        }));
                    } else {
                        assert(self@ =~= old(self)@);
                    }
                }
                Some(frame)
            },
            None => None,
        }
    }

    /// Waits for the next demand event on the channel and processes it,
    /// returning the action owed. A closed channel — every sender gone
    /// without a `Quit` — is treated exactly like `Quit`. Which event
    /// arrives depends on the sending threads, so the effect is pinned
    /// for every possible event rather than for one in particular.
    pub fn next_action(&mut self, rx: &Receiver<DemandEvent<T>>) -> (action: Action)
        ensures
            exists|ev: EventModel<T>|
                final(self)@ == #[trigger] handle_model(old(self)@, ev)
                && action == action_model(old(self)@, ev),
    {
        match recv_demand(rx) {
            Some(event) => {
                let ghost evm = event@;
                let action = self.handle_event(event);
                proof {
                    assert(self@ == handle_model(old(self)@, evm)
                        && action == action_model(old(self)@, evm));
                }
                action
            },
            None => {
                let action = self.handle_event(DemandEvent::Quit);
                proof {
                    assert(self@ == handle_model(old(self)@, EventModel::<T>::Quit)
                        && action == action_model(old(self)@, EventModel::<T>::Quit));
                }
                action
            },
        }
    }
}

/// LAW — pushes to a full queue drop, never block: a queue already at
/// capacity keeps nothing of any burst delivered to it, however long;
/// every frame of the burst is dropped and the queue is unchanged.
pub proof fn lemma_full_queue_drops_burst<T>(queue: Seq<T>, cap: nat, frames: Seq<T>)
    requires
        queue.len() == cap,
    ensures
        deliver(queue, cap, frames) == queue,
{
    assert(deliver(queue, cap, frames) =~= queue);
}

/// LAW — FIFO production across demand events: the frames produced for
/// consecutive demand events sit in the queue in exactly the order the
/// engine produced them, with no reordering across event boundaries,
/// whenever everything fits.
pub proof fn lemma_fifo_across_events<T>(
    m: LoopModel<T>,
    count1: usize,
    produced1: Seq<T>,
    count2: usize,
    produced2: Seq<T>,
)
    requires
        m.phase is Streaming,
        m.queue.len() + produced1.len() + produced2.len() <= m.cap,
    ensures
        step_model(
            step_model(m, (EventModel::NeedsAudio { frame_count: count1 }), produced1),
            (EventModel::NeedsAudio { frame_count: count2 }),
            produced2,
        ).queue == m.queue + produced1 + produced2,
{
    let m1 = step_model(m, (EventModel::NeedsAudio { frame_count: count1 }), produced1);
    assert(produced1.take(produced1.len() as int) =~= produced1);
    assert(m1.queue == m.queue + produced1);
    let m2 = step_model(m1, (EventModel::NeedsAudio { frame_count: count2 }), produced2);
    assert(produced2.take(produced2.len() as int) =~= produced2);
    assert(m2.queue == m.queue + produced1 + produced2);
}

/// LAW — a reset replaces the queue atomically: processed in any live
/// phase, `Reset` leaves the loop streaming into exactly the fresh queue
/// that came with the event, at the event's sample rate; nothing of the
/// old queue remains reachable, so no later frame can go to it.
pub proof fn lemma_reset_replaces_queue<T>(
    m: LoopModel<T>,
    sample_rate: usize,
    queue: Seq<T>,
    cap: nat,
    silence: T,
    produced: Seq<T>,
)
    requires
        !(m.phase is Terminated),
    ensures
        ({
            let stepped = step_model(
                m,
                (EventModel::Reset { sample_rate, queue, cap, silence }),
                produced,
            );
            &&& stepped.phase is Streaming
            &&& stepped.queue == queue
            &&& stepped.cap == cap
            &&& stepped.sample_rate == sample_rate
        }),
{
}

/// LAW — premature demand is a no-op: demand arriving before any reset
/// leaves the state untouched and asks for no production at all.
pub proof fn lemma_premature_demand_is_noop<T>(
    m: LoopModel<T>,
    frame_count: usize,
    produced: Seq<T>,
)
    requires
        m.phase is AwaitingReset,
    ensures
        step_model(m, (EventModel::NeedsAudio { frame_count }), produced) == m,
        action_model(m, (EventModel::NeedsAudio { frame_count })) == Action::Idle,
{
}

/// LAW — demand is met in whole synthesis blocks, rounded down: what a
/// demand event asks the engine for is a multiple of the block size, at
/// most the demanded count, and short of it by less than one block; the
/// remainder is carried to the next event, never produced early.
pub proof fn lemma_demand_rounds_down<T>(m: LoopModel<T>, frame_count: usize)
    requires
        m.phase is Streaming,
        m.block_frames >= 1,
    ensures
        action_model(m, (EventModel::NeedsAudio { frame_count }))
            == (Action::Produce {
            frame_count: granted_frames(frame_count, m.block_frames) as usize,
        }),
        granted_frames(frame_count, m.block_frames) % (m.block_frames as int) == 0,
        granted_frames(frame_count, m.block_frames) <= frame_count,
        frame_count - granted_frames(frame_count, m.block_frames) < m.block_frames,
{
    lemma_fundamental_div_mod(frame_count as int, m.block_frames as int);
    lemma_mod_bound(frame_count as int, m.block_frames as int);
    lemma_mod_multiples_basic(frame_count as int / m.block_frames as int, m.block_frames as int);
}

/// LAW — quit terminates: after `Quit` the loop is terminated whatever
/// phase it was in, and (unless it was already terminated) its queue is
/// discarded, so no frame can be written again.
pub proof fn lemma_quit_terminates<T>(m: LoopModel<T>, produced: Seq<T>)
    ensures
        step_model(m, EventModel::Quit, produced).phase is Terminated,
        !(m.phase is Terminated) ==> step_model(m, EventModel::Quit, produced).queue
            == Seq::<T>::empty(),
{
}

/// LAW — a terminated loop processes nothing: any script of further
/// rounds, whatever events arrive and whatever the engine would produce,
/// changes nothing at all.
pub proof fn lemma_terminated_ignores_script<T>(
    m: LoopModel<T>,
    script: Seq<(EventModel<T>, Seq<T>)>,
)
    requires
        m.phase is Terminated,
    ensures
        run_model(m, script) == m,
    decreases script.len(),
{
    if script.len() > 0 {
        assert(step_model(m, script[0].0, script[0].1) == m);
        lemma_terminated_ignores_script(m, script.skip(1));
    }
}

/// LAW — quit terminates cleanly: once `Quit` is processed, no later
/// event is processed, even if more demand or resets are sent afterward.
pub proof fn lemma_no_processing_after_quit<T>(
    m: LoopModel<T>,
    produced: Seq<T>,
    script: Seq<(EventModel<T>, Seq<T>)>,
)
    ensures
        run_model(step_model(m, EventModel::Quit, produced), script)
            == step_model(m, EventModel::Quit, produced),
{
    lemma_quit_terminates(m, produced);
    lemma_terminated_ignores_script(step_model(m, EventModel::Quit, produced), script);
}


/// Everything a script of rounds produced, in production order.
pub open spec fn concat_produced<T>(script: Seq<(EventModel<T>, Seq<T>)>) -> Seq<T>
    decreases script.len(),
{
    if script.len() == 0 {
        Seq::empty()
    } else {
        script[0].1 + concat_produced(script.skip(1))
    }
}

/// Whether every round of a script is a demand event.
pub open spec fn all_demand_rounds<T>(script: Seq<(EventModel<T>, Seq<T>)>) -> bool {
    forall|i: int| 0 <= i < script.len() ==> script[i].0 is NeedsAudio
}

/// LAW — FIFO production over any run of demand events: across a whole
/// script of demand rounds, the queue ends up holding the old contents
/// followed by everything the engine produced, in exactly production
/// order, whenever everything fits.
pub proof fn lemma_fifo_across_script<T>(m: LoopModel<T>, script: Seq<(EventModel<T>, Seq<T>)>)
    requires
        m.phase is Streaming,
        all_demand_rounds(script),
        m.queue.len() + concat_produced(script).len() <= m.cap,
    ensures
        run_model(m, script).phase is Streaming,
        run_model(m, script).queue == m.queue + concat_produced(script),
    decreases script.len(),
{
    if script.len() == 0 {
        assert(m.queue + concat_produced(script) =~= m.queue);
    } else {
        let produced = script[0].1;
        let m1 = step_model(m, script[0].0, produced);
        assert(produced.take(produced.len() as int) =~= produced);
        assert(m1.queue == m.queue + produced);
        assert(all_demand_rounds(script.skip(1))) by {
            assert forall|i: int| 0 <= i < script.skip(1).len() implies script.skip(
                1,
            )[i].0 is NeedsAudio by {
                assert(script.skip(1)[i] == script[i + 1]);
            }
        }
        lemma_fifo_across_script(m1, script.skip(1));
        assert(m1.queue + concat_produced(script.skip(1)) =~= m.queue + concat_produced(script));
    }
}

} // verus!
