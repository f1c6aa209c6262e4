//! Per-extension wrappers: each module binds one extension's function table
//! to the handle it was resolved against and exposes its typed operations.

pub mod calibrated_timestamps;
pub mod debug_utils;
pub mod full_screen_exclusive;
pub mod performance_query;
pub mod sample_locations;
pub mod swapchain;
