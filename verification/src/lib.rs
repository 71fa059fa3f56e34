//! Audio streaming bridge: the machinery that keeps a real-time audio
//! output device fed with synthesized frames while a shared synthesis
//! engine is concurrently mutated by a non-real-time UI thread.
//!
//! The bridge has four parts:
//! - [`sample_queue::SampleQueue`], a bounded queue of stereo frames that
//!   never blocks either side: a full queue drops the newest frame, an
//!   empty queue yields silence.
//! - [`events::DemandEvent`], the protocol by which the audio subsystem
//!   asks the production side for work (reset, demand, shutdown).
//! - [`engine::EngineHandle`], an exclusively locked slot holding the
//!   synthesis engine, shared by the UI thread and the production thread.
//! - [`production::ProductionLoop`], the state machine that turns demand
//!   events into frame production and queue writes.
//!
//! The synthesis engine itself and the platform audio device are outside
//! collaborators: the bridge decides what to do, the surrounding program
//! performs engine calls and device I/O.

pub mod engine;
pub mod events;
pub mod production;
pub mod sample_queue;

