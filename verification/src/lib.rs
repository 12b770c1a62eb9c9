//! A minimal real-time rendering harness, modelled and verified.
//!
//! The crate holds the logic of a small triangle renderer: the fixed-function
//! pipeline state, the surface configuration, the static vertex data and its
//! byte layout, the device-acquisition decisions, and the strict per-frame
//! command sequence. The platform work itself (window system, GPU driver)
//! happens outside; the engine here decides what is asked of the platform,
//! checks every response, and accounts for every per-frame resource.

pub mod context;
pub mod engine;
pub mod frame;
pub mod pipeline;
pub mod surface;
pub mod vertex;

pub use engine::RenderEngine;
pub use vertex::Vertex;
