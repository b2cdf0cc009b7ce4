//! Verified core of a small SDL2/Vulkan binding layer.
//!
//! The crate models the data that crosses the C boundary as plain values
//! (byte buffers, integers, addresses) and verifies the logic around it:
//! the dual string holder that keeps a text view and a nul-terminated
//! byte view in sync, the version number packing and formatting helpers,
//! the decoding of fixed-size C string fields, and the handle lifecycle
//! state of the windowing and graphics wrappers. The native calls
//! themselves live outside this crate and hand plain values in and out.

pub mod rc_string;
pub mod sdl2;
pub mod vulkan;
