//! Orchestration of a planar 4:2:0 video encode with per-frame quality scoring.
//!
//! The library holds the decisions of the pipeline: frame layout, stride-aware
//! plane copies, encoder configuration and session bookkeeping, the single-shot
//! delivery protocol of the quality engine, and the controller that ties them.
//! The encoder and the quality engine themselves are driven by the caller.
pub mod error;
pub mod frame;
pub mod plane;
pub mod config;
pub mod session;
pub mod quality;
pub mod source;
pub mod pipeline;

pub use pipeline::run;


