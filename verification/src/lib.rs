//! Core of a network-protocol event loop: a pluggable message decoder and a
//! verified state machine that folds byte reads, end-of-stream, transport
//! failures and two inactivity deadlines (10 s and 30 s after the last fully
//! received buffer region) into a single ordered stream of events.
//!
//! The asynchronous plumbing (the actual socket read and the timer futures)
//! lives outside this crate; a driver performs one racing wait per step and
//! reports what it observed. Everything that decides — which event to emit,
//! when the timers rearm, and that the loop is dead for good once the 30 s
//! deadline has fired — is verified here.

pub mod decoder;
pub mod event_loop;
pub mod frame;

pub use decoder::DecodeKind;
pub use decoder::Decoder;
pub use event_loop::DecodeFailure;
pub use event_loop::Event;
pub use event_loop::EventLoop;
pub use event_loop::ReadOutcome;
pub use event_loop::Step;
pub use frame::FrameDecoder;
pub use frame::FrameError;
