use glbind::errors::ConfigurationError;
use glbind::format::{ScalarRepr, StorageFormat};
use glbind::glsl::GlslKind;
use glbind::layout::{LayoutEntry, VertexLayout};

fn fmt(kind: GlslKind, repr: ScalarRepr) -> StorageFormat {
    StorageFormat::describe(kind, repr, false).unwrap()
}

fn entry(name: &str, kind: GlslKind, repr: ScalarRepr) -> LayoutEntry {
    LayoutEntry { name: String::from(name), format: fmt(kind, repr) }
}

#[test]
fn offsets_of_two_float_vectors() {
    // [(A: Vec3, 32-bit float), (B: Vec2, 32-bit float)]:
    // offset(A)=0, offset(B)=12, total 20, no padding needed.
    let layout = VertexLayout::new(vec![
        entry("A", GlslKind::Vec3, ScalarRepr::F32),
        entry("B", GlslKind::Vec2, ScalarRepr::F32),
    ])
    .unwrap();
    assert_eq!(layout.offset_of("A"), Some(0));
    assert_eq!(layout.offset_of("B"), Some(12));
    assert_eq!(layout.total_size(), 20);
}

#[test]
fn one_byte_scalar_pads_following_entry() {
    // A 1-byte-scalar entry before a 4-byte-scalar entry: the second
    // entry's offset is padded up to a 4-byte boundary.
    let layout = VertexLayout::new(vec![
        entry("A", GlslKind::Float, ScalarRepr::U8),
        entry("B", GlslKind::Float, ScalarRepr::F32),
    ])
    .unwrap();
    assert_eq!(layout.offset_of("A"), Some(0));
    assert_eq!(layout.offset_of("B"), Some(4));
    assert_eq!(layout.total_size(), 8);
}

#[test]
fn two_byte_scalars_pack_tightly() {
    let layout = VertexLayout::new(vec![
        entry("uv", GlslKind::Vec2, ScalarRepr::U16),
        entry("w", GlslKind::Float, ScalarRepr::U16),
    ])
    .unwrap();
    assert_eq!(layout.offset_of("uv"), Some(0));
    assert_eq!(layout.offset_of("w"), Some(4));
    assert_eq!(layout.total_size(), 6);
}

#[test]
fn empty_layout_has_no_size() {
    let layout = VertexLayout::new(Vec::new()).unwrap();
    assert_eq!(layout.total_size(), 0);
    assert_eq!(layout.len(), 0);
    assert_eq!(layout.offset_of("A"), None);
}

#[test]
fn duplicate_name_is_rejected() {
    let r = VertexLayout::new(vec![
        entry("pos", GlslKind::Vec3, ScalarRepr::F32),
        entry("pos", GlslKind::Vec2, ScalarRepr::F32),
    ]);
    match r {
        Err(ConfigurationError::DuplicateAttribute { name }) => assert_eq!(name, "pos"),
        _ => panic!("expected a duplicate-attribute error"),
    }
}

#[test]
fn matrix_entry_is_rejected() {
    let r = StorageFormat::describe(GlslKind::Mat3, ScalarRepr::F32, false);
    match r {
        Err(ConfigurationError::AttributeKindRequired { kind }) => {
            assert_eq!(kind, GlslKind::Mat3)
        },
        _ => panic!("expected an attribute-kind error"),
    }
}

#[test]
fn sampler_format_is_rejected() {
    assert!(StorageFormat::describe(GlslKind::Sampler2D, ScalarRepr::U8, false).is_err());
}

#[test]
fn normalized_is_dropped_for_floats() {
    let f = StorageFormat::describe(GlslKind::Vec4, ScalarRepr::F32, true).unwrap();
    assert!(!f.normalized);
    let g = StorageFormat::describe(GlslKind::Vec4, ScalarRepr::I16, true).unwrap();
    assert!(g.normalized);
}

#[test]
fn format_sizes_follow_kind_and_repr() {
    assert_eq!(fmt(GlslKind::Vec3, ScalarRepr::F32).size(), 12);
    assert_eq!(fmt(GlslKind::Vec2, ScalarRepr::U16).size(), 4);
    assert_eq!(fmt(GlslKind::Float, ScalarRepr::I8).size(), 1);
    assert_eq!(fmt(GlslKind::Vec4, ScalarRepr::U32).size(), 16);
    assert_eq!(fmt(GlslKind::Vec3, ScalarRepr::F32).align(), 4);
    assert_eq!(fmt(GlslKind::Vec3, ScalarRepr::I8).align(), 1);
}

#[test]
fn reorder_keeps_entries_and_repacks() {
    let layout = VertexLayout::new(vec![
        entry("a", GlslKind::Float, ScalarRepr::U8),
        entry("b", GlslKind::Float, ScalarRepr::F32),
    ])
    .unwrap();
    assert_eq!(layout.total_size(), 8);
    let order = vec![String::from("b"), String::from("a")];
    let swapped = layout.reorder(&order).unwrap();
    assert_eq!(swapped.offset_of("b"), Some(0));
    assert_eq!(swapped.offset_of("a"), Some(4));
    assert_eq!(swapped.total_size(), 5);
    assert!(!swapped.entries_match(&layout));
}

#[test]
fn reorder_rejects_bad_orders() {
    let layout = VertexLayout::new(vec![
        entry("a", GlslKind::Float, ScalarRepr::F32),
        entry("b", GlslKind::Float, ScalarRepr::F32),
    ])
    .unwrap();
    assert!(matches!(
        layout.reorder(&vec![String::from("a")]),
        Err(ConfigurationError::IncompleteOrder)
    ));
    assert!(matches!(
        layout.reorder(&vec![String::from("a"), String::from("a")]),
        Err(ConfigurationError::DuplicateAttribute { .. })
    ));
    match layout.reorder(&vec![String::from("a"), String::from("c")]) {
        Err(ConfigurationError::UnknownAttribute { name }) => assert_eq!(name, "c"),
        _ => panic!("expected an unknown-attribute error"),
    }
}

#[test]
fn entries_match_is_order_sensitive() {
    let l1 = VertexLayout::new(vec![
        entry("a", GlslKind::Float, ScalarRepr::F32),
        entry("b", GlslKind::Vec2, ScalarRepr::F32),
    ])
    .unwrap();
    let l2 = VertexLayout::new(vec![
        entry("a", GlslKind::Float, ScalarRepr::F32),
        entry("b", GlslKind::Vec2, ScalarRepr::F32),
    ])
    .unwrap();
    let l3 = VertexLayout::new(vec![
        entry("b", GlslKind::Vec2, ScalarRepr::F32),
        entry("a", GlslKind::Float, ScalarRepr::F32),
    ])
    .unwrap();
    assert!(l1.entries_match(&l2));
    assert!(!l1.entries_match(&l3));
}

#[test]
fn kind_metadata_matches_the_registry() {
    assert_eq!(GlslKind::Float.attribute_components(), 1);
    assert_eq!(GlslKind::Vec4.attribute_components(), 4);
    assert_eq!(GlslKind::Mat2.attribute_components(), 0);
    assert!(!GlslKind::Mat4.is_attribute_kind());
    assert!(GlslKind::Vec2.is_attribute_kind());
    assert_eq!(GlslKind::Mat3.uniform_components(), 9);
    assert_eq!(GlslKind::Mat4.uniform_components(), 16);
    assert_eq!(GlslKind::Vec3.type_string(), "vec3");
    assert_eq!(GlslKind::Sampler2D.type_string(), "sampler2D");
    assert_eq!(GlslKind::Mat4.type_string(), "mat4");
}
