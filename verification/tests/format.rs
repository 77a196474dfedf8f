use gl_vertex::{same_format, vertex_format, FieldLayout, VertexAttributeFormat};
use nalgebra::{UnitQuaternion, Vector2, Vector3};

#[test]
fn field_layout_looks_the_type_up() {
    let field = FieldLayout::of::<Vector3<f32>>(24);
    assert_eq!(field, FieldLayout { offset: 24, size: 3, typ: gl::FLOAT });
    let field = FieldLayout::of::<u8>(3);
    assert_eq!(field, FieldLayout { offset: 3, size: 1, typ: gl::UNSIGNED_BYTE });
}

#[test]
fn format_has_one_entry_per_field_in_order() {
    let fields = vec![
        FieldLayout::of::<Vector3<f32>>(0),
        FieldLayout::of::<UnitQuaternion<f32>>(12),
        FieldLayout::of::<Vector2<u32>>(28),
        FieldLayout::of::<u8>(36),
    ];
    let format = vertex_format(&fields);
    assert_eq!(
        format,
        vec![
            VertexAttributeFormat { offset: 0, size: 3, typ: 0x1406 },
            VertexAttributeFormat { offset: 12, size: 4, typ: 0x1406 },
            VertexAttributeFormat { offset: 28, size: 2, typ: 0x1405 },
            VertexAttributeFormat { offset: 36, size: 1, typ: 0x1401 },
        ]
    );
}

#[test]
fn format_keeps_the_order_of_the_fields_not_of_the_offsets() {
    let fields = vec![FieldLayout::of::<u32>(8), FieldLayout::of::<u8>(0)];
    let format = vertex_format(&fields);
    assert_eq!(format.len(), 2);
    assert_eq!(format[0], VertexAttributeFormat { offset: 8, size: 1, typ: gl::UNSIGNED_INT });
    assert_eq!(format[1], VertexAttributeFormat { offset: 0, size: 1, typ: gl::UNSIGNED_BYTE });
}

#[test]
fn format_of_no_fields_is_empty() {
    assert_eq!(vertex_format(&vec![]), vec![]);
}

#[test]
fn format_is_the_same_on_every_call() {
    let fields = vec![FieldLayout::of::<Vector3<f32>>(0), FieldLayout::of::<u32>(12)];
    assert_eq!(vertex_format(&fields), vertex_format(&fields));
}

#[test]
fn offset_is_narrowed_to_32_bits() {
    let wide: u64 = (1 << 32) + 5;
    let fields = vec![FieldLayout { offset: wide as usize, size: 1, typ: gl::UNSIGNED_INT }];
    let format = vertex_format(&fields);
    assert_eq!(format[0].offset, wide as usize as u32);
}

#[test]
fn same_format_compares_entry_by_entry() {
    let a = vec![
        VertexAttributeFormat { offset: 0, size: 3, typ: gl::FLOAT },
        VertexAttributeFormat { offset: 12, size: 1, typ: gl::UNSIGNED_INT },
    ];
    let b = a.clone();
    assert!(same_format(&a, &b));
    assert!(same_format(&vec![], &vec![]));

    let mut offset = a.clone();
    offset[1].offset = 16;
    assert!(!same_format(&a, &offset));

    let mut size = a.clone();
    size[0].size = 4;
    assert!(!same_format(&a, &size));

    let mut typ = a.clone();
    typ[1].typ = gl::UNSIGNED_BYTE;
    assert!(!same_format(&a, &typ));

    let shorter = vec![a[0]];
    assert!(!same_format(&a, &shorter));
    assert!(!same_format(&shorter, &a));

    let swapped = vec![a[1], a[0]];
    assert!(!same_format(&a, &swapped));
}
