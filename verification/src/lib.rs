//! Overlay surface lifecycle for a small always-on-top desktop clock.
//!
//! The crate holds the decisions of the overlay: where each window goes,
//! which windows have to be created or destroyed, which rendering context
//! is current, in what order a frame is drawn and how compositor events
//! become input events. Talking to the compositor and to the GPU is left
//! to the program that links this library.

pub mod app;
pub mod config;
pub mod features;
pub mod frame;
pub mod gfx;
pub mod wayland;
