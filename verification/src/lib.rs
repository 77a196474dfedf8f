//! Typed vertex input for OpenGL's direct-state-access interface.
//!
//! A vertex record describes its fields once, as a list of
//! [`VertexAttributeFormat`]s. A [`VertexArray`] registers such lists
//! against binding slots, hands out attribute locations, and checks every
//! buffer that is attached to a slot against the format registered there.
//! A [`CommandBuffer`] stages indirect draw commands as the contiguous
//! parameter block that a multi-draw call reads.
//!
//! The crate never calls the driver. Each operation that changes native
//! state returns the calls that bring the change about, as [`GlCall`]
//! values; the owner of the rendering context issues them.

pub mod attribute;
pub mod commands;
pub mod native;
pub mod vertex;

pub use attribute::VertexAttribute;
pub use commands::{
    CommandBuffer, CommandBufferAbstract, DrawArraysIndirectCommand, DrawCommand,
    DrawElementsIndirectCommand,
};
pub use native::GlCall;
pub use vertex::{
    same_format, vertex_format, FieldLayout, Vertex, VertexArray, VertexArrayError,
    VertexAttributeFormat,
};
