//! Render-graph core: resource handles, deferred deletion, barrier derivation
//! and frame planning, kept free of any device call so that every rule can be
//! stated and proved.
//!
//! The caller creates and destroys device objects and records commands; this
//! crate decides which keys are live, which descriptor slots are bound, which
//! barriers precede each pass, and when a destroyed resource may go.

pub mod error;
pub mod flags;
pub mod pipeline;
pub mod types;

pub mod access;
pub mod barrier;

pub mod resource;
pub mod slots;
pub mod descriptor;
pub mod resource_manager;
pub mod lifetime;

pub mod render_graph;
pub mod builder;
pub mod sizing;
pub mod resolve;
pub mod executor;
pub mod frame_laws;

pub mod swapchain;
pub mod texture;
pub mod device;
