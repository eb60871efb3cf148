//! Core logic of a GPU stroke renderer that draws chained quadratic curves as
//! constant-width ribbons and composites overlapping strokes with an
//! XOR-style coverage rule.
//!
//! This crate holds the parts of the renderer that are plain computation: the
//! tessellation structure (how a path is cut into three-point windows, how
//! each window is subdivided, and which vertices are emitted in which order),
//! the growable buffer cache that stages per-frame geometry, the per-frame
//! rendering options, and the frame-level decisions (when a frame yields no
//! command buffer, when repeated surface failures become fatal). The
//! floating-point curve evaluation and the GPU calls themselves live in the
//! host program, which feeds their results back into these verified
//! functions.

pub mod cache;
pub mod frame;
pub mod options;
pub mod pipelines;
pub mod renderer;
pub mod tessellate;
