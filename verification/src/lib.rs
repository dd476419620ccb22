//! Frame timing, sprite batching and configuration logic of the ANF game framework.
//!
//! The window, the graphics device and the floating-point geometry live outside this
//! library; here stand the decisions and the integer arithmetic that they are driven by.

pub mod adapter;
pub mod batch;
pub mod batcher;
pub mod clear;
pub mod clock;
pub mod config;
pub mod event;
pub mod font;
pub mod gameloop;
pub mod texture;
pub mod time;
pub mod utils;
pub mod vertices;
