//! Orchestration core of a windowed GPU application shell: the engine
//! configuration, the frame clock, surface negotiation, the per-frame
//! resource holder and the lifecycle / event-dispatch state machine.
//!
//! Nothing here touches the window system, the GPU device or the overlay UI:
//! the host program drives them, step by step, from the plans that
//! [`engine::Engine`] hands out, and reports back what they returned.

pub mod config;
pub mod surface;
pub mod graphics;
pub mod renderer;
pub mod utils;
pub mod engine;

pub use config::EngineConfig;
pub use engine::Engine;
