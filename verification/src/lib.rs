//! Render-synchronization engine for compositing an externally decoded video
//! stream into a host render loop.
//!
//! The verified core owns the logical state of the three components — the GPU
//! surface, the media-render bridge, and the per-tick frame-sync controller —
//! and computes, for every host notification, the exact ordered sequence of
//! plain-data [`actions::Action`] commands to perform, together with the
//! values republished to the UI (timestamp text and seek-bar position).  An
//! unverified embedding shell executes those commands against the real GPU
//! context and media engine.

pub mod actions;
pub mod bridge;
pub mod controller;
pub mod surface;
pub mod timing;
