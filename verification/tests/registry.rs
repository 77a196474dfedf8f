use gl_vertex::VertexAttribute;
use nalgebra::{Quaternion, SVector, Unit, UnitQuaternion, Vector2, Vector3, Vector4};

#[test]
fn scalars_have_one_component_and_their_own_tag() {
    assert_eq!(<u8 as VertexAttribute>::size(), 1);
    assert_eq!(<u8 as VertexAttribute>::typ(), 0x1401);
    assert_eq!(<u32 as VertexAttribute>::size(), 1);
    assert_eq!(<u32 as VertexAttribute>::typ(), 0x1405);
    assert_eq!(<f32 as VertexAttribute>::size(), 1);
    assert_eq!(<f32 as VertexAttribute>::typ(), 0x1406);
}

#[test]
fn tags_are_those_of_the_bindings() {
    assert_eq!(<u8 as VertexAttribute>::typ(), gl::UNSIGNED_BYTE);
    assert_eq!(<u32 as VertexAttribute>::typ(), gl::UNSIGNED_INT);
    assert_eq!(<f32 as VertexAttribute>::typ(), gl::FLOAT);
}

#[test]
fn three_dimensional_float_vector() {
    assert_eq!(<Vector3<f32> as VertexAttribute>::size(), 3);
    assert_eq!(<Vector3<f32> as VertexAttribute>::typ(), gl::FLOAT);
}

#[test]
fn vectors_have_as_many_components_as_dimensions() {
    assert_eq!(<SVector<u8, 1> as VertexAttribute>::size(), 1);
    assert_eq!(<Vector2<u32> as VertexAttribute>::size(), 2);
    assert_eq!(<Vector4<u8> as VertexAttribute>::size(), 4);
    assert_eq!(<SVector<f32, 7> as VertexAttribute>::size(), 7);
    assert_eq!(<SVector<f32, 0> as VertexAttribute>::size(), 0);
    assert_eq!(<Vector2<u32> as VertexAttribute>::typ(), gl::UNSIGNED_INT);
    assert_eq!(<Vector4<u8> as VertexAttribute>::typ(), gl::UNSIGNED_BYTE);
}

#[test]
fn rotation_over_float() {
    assert_eq!(<Quaternion<f32> as VertexAttribute>::size(), 4);
    assert_eq!(<Quaternion<f32> as VertexAttribute>::typ(), gl::FLOAT);
}

#[test]
fn unit_wrapper_is_transparent() {
    assert_eq!(<Unit<Vector3<f32>> as VertexAttribute>::size(), 3);
    assert_eq!(<Unit<Vector3<f32>> as VertexAttribute>::typ(), gl::FLOAT);
    assert_eq!(<UnitQuaternion<f32> as VertexAttribute>::size(), 4);
    assert_eq!(<UnitQuaternion<f32> as VertexAttribute>::typ(), gl::FLOAT);
    assert_eq!(<Unit<u8> as VertexAttribute>::size(), 1);
    assert_eq!(<Unit<u8> as VertexAttribute>::typ(), gl::UNSIGNED_BYTE);
    assert_eq!(<Unit<Unit<Vector2<u32>>> as VertexAttribute>::size(), 2);
}

#[test]
fn dimension_is_narrowed_to_32_bits() {
    assert_eq!(<SVector<u8, 2147483647> as VertexAttribute>::size(), i32::MAX);
    assert_eq!(<SVector<u8, 2147483648> as VertexAttribute>::size(), i32::MIN);
    assert_eq!(<SVector<u8, 4294967295> as VertexAttribute>::size(), -1);
}
