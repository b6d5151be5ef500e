//! Sprite batching for a 2D renderer.
//!
//! Each frame the sprites of a scene are extracted into a flat list, expanded
//! into one shared vertex buffer and one shared index buffer, queued as draw
//! items into the transparency phase of every view, and finally turned into
//! the commands of a render pass, one indexed draw per sprite.
//!
//! The library decides and lays out; it never computes with a scalar and never
//! touches the GPU. Scalars are carried as IEEE-754 bit patterns, and GPU
//! objects are named by small integer handles that the host resolves.

pub mod draw;
pub mod extract;
pub mod math;
pub mod pipeline;
pub mod prepare;
pub mod queue;
