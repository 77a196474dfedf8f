//! The attribute type registry: which host types may stand in a vertex
//! record, and what the GPU is told about each of them.
//!
//! | host type                          | components | component type   |
//! |------------------------------------|------------|------------------|
//! | `u8`                               | 1          | `UNSIGNED_BYTE`  |
//! | `u32`                              | 1          | `UNSIGNED_INT`   |
//! | `GLfloat`                          | 1          | `FLOAT`          |
//! | `nalgebra::SVector<S, D>`          | `D`        | that of `S`      |
//! | `nalgebra::Quaternion<S>`          | 4          | that of `S`      |
//! | `nalgebra::Unit<T>`                | that of `T`| that of `T`      |
//!
//! A type outside the table does not implement [`VertexAttribute`], so a
//! record that holds one cannot be described: there is no failure at run
//! time.

use crate::native::{float, float_tag, unsigned_byte, unsigned_byte_tag, unsigned_int, unsigned_int_tag};
use gl::types::{GLenum, GLfloat, GLint};
use nalgebra::{ArrayStorage, Const, Matrix, Quaternion, SVector, Unit};
use vstd::prelude::*;

verus! {

/// A host type that can be the type of a vertex record's field.
pub trait VertexAttribute {
    /// How many components a value of the type has.
    spec fn component_count() -> int;

    /// The tag of the type of each component.
    spec fn scalar_type() -> GLenum;

    /// The component count, as the native attribute-format call takes it.
    fn size() -> (n: GLint)
        ensures
            n == Self::component_count(),
    ;

    /// The component type tag, as the native attribute-format call takes it.
    fn typ() -> (t: GLenum)
        ensures
            t == Self::scalar_type(),
    ;
}

impl VertexAttribute for u8 {
    open spec fn component_count() -> int {
        1
    }

    open spec fn scalar_type() -> GLenum {
        unsigned_byte()
    }

    fn size() -> (n: GLint) {
        1
    }

    fn typ() -> (t: GLenum) {
        unsigned_byte_tag()
    }
}

impl VertexAttribute for u32 {
    open spec fn component_count() -> int {
        1
    }

    open spec fn scalar_type() -> GLenum {
        unsigned_int()
    }

    fn size() -> (n: GLint) {
        1
    }

    fn typ() -> (t: GLenum) {
        unsigned_int_tag()
    }
}

impl VertexAttribute for GLfloat {
    open spec fn component_count() -> int {
        1
    }

    open spec fn scalar_type() -> GLenum {
        float()
    }

    fn size() -> (n: GLint) {
        1
    }

    fn typ() -> (t: GLenum) {
        float_tag()
    }
}

/// `nalgebra::Matrix`, the type behind every vector alias. Opaque here:
/// only its type parameters are read.
#[verifier::external_type_specification]
#[verifier::external_body]
#[verifier::reject_recursive_types(T)]
#[verifier::reject_recursive_types(R)]
#[verifier::reject_recursive_types(C)]
#[verifier::reject_recursive_types(S)]
pub struct ExMatrix<T, R, C, S>(Matrix<T, R, C, S>);

/// `nalgebra::Const`, a dimension known at compile time.
#[verifier::external_type_specification]
#[verifier::external_body]
pub struct ExConst<const N: usize>(Const<N>);

/// `nalgebra::ArrayStorage`, the storage of a statically sized matrix.
#[verifier::external_type_specification]
#[verifier::external_body]
#[verifier::reject_recursive_types(T)]
pub struct ExArrayStorage<T, const R: usize, const C: usize>(ArrayStorage<T, R, C>);

/// `nalgebra::Quaternion`. Opaque here: only its type parameter is read.
#[verifier::external_type_specification]
#[verifier::external_body]
#[verifier::reject_recursive_types(T)]
pub struct ExQuaternion<T>(Quaternion<T>);

/// `nalgebra::Unit`, the wrapper of normalized values. Opaque here: only
/// its type parameter is read.
#[verifier::external_type_specification]
#[verifier::external_body]
#[verifier::reject_recursive_types(T)]
pub struct ExUnit<T>(Unit<T>);

/// Calls `nalgebra::Dim::try_to_usize` for the dimension `Const<D>`.
///
/// Trusted: nalgebra implements the method for `Const<D>` by returning
/// `Some(D)`; `None` is the answer of the run-time dimension `Dyn` alone.
#[verifier::external_body]
fn static_dimension<const D: usize>() -> (dim: Option<usize>)
    ensures
        dim == Some(D),
{
    <Const<D> as nalgebra::Dim>::try_to_usize()
}

impl<S: VertexAttribute, const D: usize> VertexAttribute for SVector<S, D> {
    /// The dimension `D`, narrowed to the width of the native parameter.
    open spec fn component_count() -> int {
        (D as GLint) as int
    }

    open spec fn scalar_type() -> GLenum {
        S::scalar_type()
    }

    fn size() -> (n: GLint) {
        let dim: usize = static_dimension::<D>().unwrap();
        #[verifier::truncate]
        (dim as GLint)
    }

    fn typ() -> (t: GLenum) {
        S::typ()
    }
}

impl<S: VertexAttribute> VertexAttribute for Quaternion<S> {
    open spec fn component_count() -> int {
        4
    }

    open spec fn scalar_type() -> GLenum {
        S::scalar_type()
    }

    fn size() -> (n: GLint) {
        4
    }

    fn typ() -> (t: GLenum) {
        S::typ()
    }
}

impl<T: VertexAttribute> VertexAttribute for Unit<T> {
    open spec fn component_count() -> int {
        T::component_count()
    }

    open spec fn scalar_type() -> GLenum {
        T::scalar_type()
    }

    fn size() -> (n: GLint) {
        T::size()
    }

    fn typ() -> (t: GLenum) {
        T::typ()
    }
}

/// The registry's table. The three scalars have one component each and
/// their own tag; a vector has as many components as dimensions, a
/// quaternion has four, both with the tag of their scalar; a unit wrapper
/// is described exactly as what it wraps.
pub proof fn lemma_registry_table<T: VertexAttribute, const D: usize>()
    ensures
        u8::component_count() == 1 && u8::scalar_type() == 0x1401,
        u32::component_count() == 1 && u32::scalar_type() == 0x1405,
        GLfloat::component_count() == 1 && GLfloat::scalar_type() == 0x1406,
        D <= i32::MAX ==> SVector::<T, D>::component_count() == D,
        SVector::<T, D>::scalar_type() == T::scalar_type(),
        Quaternion::<T>::component_count() == 4,
        Quaternion::<T>::scalar_type() == T::scalar_type(),
        Unit::<T>::component_count() == T::component_count(),
        Unit::<T>::scalar_type() == T::scalar_type(),
{
}

} // verus!
