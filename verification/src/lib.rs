//! Verified core of a single-pipeline GPU frame lifecycle: surface format
//! negotiation and (re)configuration, pipeline and resource descriptions,
//! geometry and texture upload layout, the per-frame acquire/encode/present
//! state machine with its recovery policy, and the event-loop decisions.
//!
//! The platform work itself (window system, GPU driver calls, floating-point
//! camera math) lives outside this crate; the functions here decide what those
//! collaborators must do and are verified for every input they can hand back.

pub mod controller;
pub mod format;
pub mod frame;
pub mod geometry;
pub mod pipeline;
pub mod surface;
pub mod texture;
pub mod uniform;

pub use controller::{App, EventDirective, FrameResult, KeyCode, LoopEvent};
pub use format::FormatId;
pub use frame::AcquireOutcome;
pub use pipeline::PipelineVariant;
