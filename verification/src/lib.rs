//! Host side of a small LED-matrix display driven by sandboxed widgets.
//!
//! Independently authored plugins render into private pixel buffers inside a
//! bytecode sandbox; the canvas assigns each plugin a non-overlapping region
//! of the display and composes all rendered fragments into one frame per
//! tick. This crate holds the pixel grid, the canvas and its placement
//! rules, the plugin binding, and the sandbox host; reading configuration
//! and module files, the system-facts provider, and the serial transport
//! live with the surrounding application.

pub mod canvas;
pub mod config;
pub mod controller;
pub mod led_controller;
pub mod matrix;
pub mod picture;
pub mod plugin;
pub mod wasm_module;
