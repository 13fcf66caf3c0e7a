//! A verified core for a small 2D rendering engine.
//!
//! The library decides everything the renderer does — vertex packing,
//! capacity bookkeeping, texture-slot assignment, buffer layout and the
//! begin/add/end batch protocol — and hands the host a plain description
//! of each device action (which bytes to upload, which texture to bind to
//! which unit, how many indices to draw). The host that owns the graphics
//! context performs those actions; no device state lives here.

pub mod array_buffer;
pub mod commands;
pub mod index_buffer;
pub mod laws;
pub mod math;
pub mod renderer;
pub mod renderer_2d;
pub mod shader;
pub mod texture;
pub mod vertex_array;
