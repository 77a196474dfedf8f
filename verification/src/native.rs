//! The native side of the vertex-input stage: the component type tags that
//! the `gl` bindings define, and the state-configuration calls of a vertex
//! array object written down as values.
//!
//! Nothing here talks to a driver. An operation on a vertex array returns
//! the calls it asks for as [`GlCall`] values, in the order in which they
//! have to be issued; whoever owns the rendering context issues them.

use gl::types::{GLboolean, GLenum, GLint, GLintptr, GLsizei, GLuint};
use vstd::prelude::*;

verus! {

/// The tag of 8-bit unsigned components, `GL_UNSIGNED_BYTE`.
pub open spec fn unsigned_byte() -> GLenum {
    0x1401
}

/// The tag of 32-bit unsigned components, `GL_UNSIGNED_INT`.
pub open spec fn unsigned_int() -> GLenum {
    0x1405
}

/// The tag of 32-bit floating-point components, `GL_FLOAT`.
pub open spec fn float() -> GLenum {
    0x1406
}

/// The boolean `GL_FALSE`.
pub open spec fn gl_false() -> GLboolean {
    0
}

/// Reads the constant `gl::UNSIGNED_BYTE`.
///
/// Trusted: the bindings are generated from the OpenGL registry, which
/// gives `GL_UNSIGNED_BYTE` the value 0x1401.
#[verifier::external_body]
pub(crate) fn unsigned_byte_tag() -> (tag: GLenum)
    ensures
        tag == unsigned_byte(),
{
    gl::UNSIGNED_BYTE
}

/// Reads the constant `gl::UNSIGNED_INT`.
///
/// Trusted: the bindings are generated from the OpenGL registry, which
/// gives `GL_UNSIGNED_INT` the value 0x1405.
#[verifier::external_body]
pub(crate) fn unsigned_int_tag() -> (tag: GLenum)
    ensures
        tag == unsigned_int(),
{
    gl::UNSIGNED_INT
}

/// Reads the constant `gl::FLOAT`.
///
/// Trusted: the bindings are generated from the OpenGL registry, which
/// gives `GL_FLOAT` the value 0x1406.
#[verifier::external_body]
pub(crate) fn float_tag() -> (tag: GLenum)
    ensures
        tag == float(),
{
    gl::FLOAT
}

/// Reads the constant `gl::FALSE`.
///
/// Trusted: the bindings are generated from the OpenGL registry, which
/// gives `GL_FALSE` the value 0.
#[verifier::external_body]
pub(crate) fn false_flag() -> (flag: GLboolean)
    ensures
        flag == gl_false(),
{
    gl::FALSE
}

/// One call into the native vertex-array interface, with its arguments in
/// the order of the native signature.
#[derive(Clone, Copy, Debug, PartialEq, Eq, Structural)]
pub enum GlCall {
    /// `glEnableVertexArrayAttrib(vaobj, index)`
    EnableVertexArrayAttrib { vaobj: GLuint, index: GLuint },
    /// `glVertexArrayAttribFormat(vaobj, attribindex, size, type, normalized, relativeoffset)`
    VertexArrayAttribFormat {
        vaobj: GLuint,
        attribindex: GLuint,
        size: GLint,
        typ: GLenum,
        normalized: GLboolean,
        relativeoffset: GLuint,
    },
    /// `glVertexArrayAttribBinding(vaobj, attribindex, bindingindex)`
    VertexArrayAttribBinding { vaobj: GLuint, attribindex: GLuint, bindingindex: GLuint },
    /// `glVertexArrayBindingDivisor(vaobj, bindingindex, divisor)`
    VertexArrayBindingDivisor { vaobj: GLuint, bindingindex: GLuint, divisor: GLuint },
    /// `glVertexArrayElementBuffer(vaobj, buffer)`
    VertexArrayElementBuffer { vaobj: GLuint, buffer: GLuint },
    /// `glVertexArrayVertexBuffer(vaobj, bindingindex, buffer, offset, stride)`
    VertexArrayVertexBuffer {
        vaobj: GLuint,
        bindingindex: GLuint,
        buffer: GLuint,
        offset: GLintptr,
        stride: GLsizei,
    },
    /// `glDeleteVertexArrays(1, &array)`
    DeleteVertexArray { array: GLuint },
}

} // verus!
