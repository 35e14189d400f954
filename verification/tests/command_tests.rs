use glbind::buffer::VertexBuffer;
use glbind::command::{RenderCommand, UniformValue};
use glbind::errors::{BindingError, ConfigurationError};
use glbind::format::{ScalarRepr, StorageFormat};
use glbind::glsl::GlslKind;
use glbind::layout::{LayoutEntry, VertexLayout};
use glbind::program::{ProgramBinding, ShaderInput, StageOutcome};
use glbind::record::VertexRecord;

fn input(name: &str, kind: GlslKind) -> ShaderInput {
    ShaderInput { name: String::from(name), kind }
}

fn ok_stage() -> StageOutcome {
    StageOutcome { ok: true, log: String::new() }
}

/// A program declaring three vec2 attributes and one float uniform.
fn program() -> ProgramBinding {
    ProgramBinding::resolve(
        11,
        &vec![
            input("a", GlslKind::Vec2),
            input("b", GlslKind::Vec2),
            input("c", GlslKind::Vec2),
        ],
        &vec![input("t", GlslKind::Float)],
        &ok_stage(),
        &ok_stage(),
        &ok_stage(),
        &vec![0, 1, 2],
        &vec![5],
    )
    .unwrap()
}

fn vec2_layout(name: &str) -> VertexLayout {
    VertexLayout::new(vec![LayoutEntry {
        name: String::from(name),
        format: StorageFormat::describe(GlslKind::Vec2, ScalarRepr::F32, false).unwrap(),
    }])
    .unwrap()
}

/// A buffer recorded as holding `elems` single-attribute records.
fn buffer(handle: u64, name: &str, elems: usize) -> VertexBuffer {
    let mut buf = VertexBuffer::new(handle);
    let layout = vec2_layout(name);
    let mut records = Vec::new();
    for _ in 0..elems {
        records.push(VertexRecord::new(vec2_layout(name)));
    }
    buf.allocate(&layout, &records).unwrap();
    buf
}

fn float_uniform(bits: u32) -> UniformValue {
    UniformValue::new(GlslKind::Float, vec![bits]).unwrap()
}

#[test]
fn exactly_one_call_per_schema_entry_reaches_ready() {
    // The successful attach/uniform calls needed to finalize number
    // exactly the attribute entries plus the uniform entries.
    let p = program();
    let mut cmd = RenderCommand::new(&p);
    let mut successful_calls: usize = 0;
    for name in ["a", "b", "c"] {
        cmd.attach(name, &buffer(1, name, 3), &vec2_layout(name)).unwrap();
        successful_calls += 1;
    }
    cmd.uniform("t", float_uniform(0)).unwrap();
    successful_calls += 1;
    let ready = cmd.finalize().unwrap();
    assert_eq!(successful_calls, p.attribute_count() + p.uniform_count());
    assert_eq!(ready.bindings().len() + ready.uniforms().len(), successful_calls);
}

#[test]
fn claiming_the_same_attribute_twice_fails_regardless_of_order() {
    // Second claim of `a` immediately after the first.
    let p = program();
    let mut cmd = RenderCommand::new(&p);
    cmd.attach("a", &buffer(1, "a", 3), &vec2_layout("a")).unwrap();
    assert!(matches!(
        cmd.attach("a", &buffer(2, "a", 3), &vec2_layout("a")),
        Err(BindingError::UnknownOrClaimed { .. })
    ));
    // Second claim of `a` with other claims in between.
    let mut cmd = RenderCommand::new(&p);
    cmd.attach("a", &buffer(1, "a", 3), &vec2_layout("a")).unwrap();
    cmd.attach("b", &buffer(2, "b", 3), &vec2_layout("b")).unwrap();
    cmd.uniform("t", float_uniform(0)).unwrap();
    assert!(matches!(
        cmd.attach("a", &buffer(3, "a", 3), &vec2_layout("a")),
        Err(BindingError::UnknownOrClaimed { .. })
    ));
    // The failed claim cost nothing: the rest still completes.
    cmd.attach("c", &buffer(4, "c", 3), &vec2_layout("c")).unwrap();
    assert!(cmd.finalize().is_ok());
}

#[test]
fn finalize_names_what_is_missing_and_retry_succeeds() {
    let p = program();
    let mut cmd = RenderCommand::new(&p);
    cmd.attach("a", &buffer(1, "a", 3), &vec2_layout("a")).unwrap();
    cmd.attach("c", &buffer(2, "c", 3), &vec2_layout("c")).unwrap();
    cmd.uniform("t", float_uniform(0)).unwrap();
    let err = cmd.finalize().unwrap_err();
    assert_eq!(err.missing_attributes, vec![String::from("b")]);
    assert!(err.missing_uniforms.is_empty());
    assert!(!err.vertex_count_unset);
    // Supply the missing binding and retry: finalize now succeeds.
    cmd.attach("b", &buffer(3, "b", 3), &vec2_layout("b")).unwrap();
    assert!(cmd.finalize().is_ok());
}

#[test]
fn finalize_without_any_claims_names_everything() {
    let p = program();
    let cmd = RenderCommand::new(&p);
    let err = cmd.finalize().unwrap_err();
    assert_eq!(
        err.missing_attributes,
        vec![String::from("a"), String::from("b"), String::from("c")]
    );
    assert_eq!(err.missing_uniforms, vec![String::from("t")]);
    assert!(err.vertex_count_unset);
}

#[test]
fn vertex_count_is_the_minimum_across_buffers_and_limits() {
    // Buffers of 10, 7 and 12 elements give a count of 7; a limit of 5
    // lowers it; a later limit of 100 leaves it at 5.
    let p = program();
    let mut cmd = RenderCommand::new(&p);
    cmd.attach("a", &buffer(1, "a", 10), &vec2_layout("a")).unwrap();
    cmd.attach("b", &buffer(2, "b", 7), &vec2_layout("b")).unwrap();
    cmd.attach("c", &buffer(3, "c", 12), &vec2_layout("c")).unwrap();
    cmd.uniform("t", float_uniform(0)).unwrap();
    assert_eq!(cmd.finalize().unwrap().vertex_count(), 7);
    cmd.limit_vertices(5);
    assert_eq!(cmd.finalize().unwrap().vertex_count(), 5);
    cmd.limit_vertices(100);
    assert_eq!(cmd.finalize().unwrap().vertex_count(), 5);
}

#[test]
fn a_negative_limit_counts_as_zero() {
    let p = program();
    let mut cmd = RenderCommand::new(&p);
    cmd.limit_vertices(-3);
    cmd.attach("a", &buffer(1, "a", 10), &vec2_layout("a")).unwrap();
    cmd.attach("b", &buffer(2, "b", 7), &vec2_layout("b")).unwrap();
    cmd.attach("c", &buffer(3, "c", 12), &vec2_layout("c")).unwrap();
    cmd.uniform("t", float_uniform(0)).unwrap();
    assert_eq!(cmd.finalize().unwrap().vertex_count(), 0);
}

#[test]
fn a_kind_mismatch_fails_before_anything_is_recorded() {
    // The layout offers a Vec3 for an attribute declared Vec2: the
    // attach fails with a kind mismatch and records nothing - there is
    // no backend call anywhere in the builder to have happened first.
    let p = program();
    let mut cmd = RenderCommand::new(&p);
    let wrong = VertexLayout::new(vec![LayoutEntry {
        name: String::from("a"),
        format: StorageFormat::describe(GlslKind::Vec3, ScalarRepr::F32, false).unwrap(),
    }])
    .unwrap();
    match cmd.attach("a", &buffer(1, "a", 3), &wrong) {
        Err(BindingError::KindMismatch { name, required, supplied }) => {
            assert_eq!(name, "a");
            assert_eq!(required, GlslKind::Vec2);
            assert_eq!(supplied, GlslKind::Vec3);
        },
        _ => panic!("expected a kind mismatch"),
    }
    // The attribute is still claimable afterwards.
    assert!(cmd.attach("a", &buffer(1, "a", 3), &vec2_layout("a")).is_ok());
}

#[test]
fn attaching_an_attribute_missing_from_the_layout_fails() {
    let p = program();
    let mut cmd = RenderCommand::new(&p);
    match cmd.attach("a", &buffer(1, "a", 3), &vec2_layout("other")) {
        Err(BindingError::NotInRecordLayout { name }) => assert_eq!(name, "a"),
        _ => panic!("expected a not-in-layout error"),
    }
}

#[test]
fn attaching_an_undeclared_attribute_fails() {
    let p = program();
    let mut cmd = RenderCommand::new(&p);
    match cmd.attach("z", &buffer(1, "z", 3), &vec2_layout("z")) {
        Err(BindingError::UnknownOrClaimed { name }) => assert_eq!(name, "z"),
        _ => panic!("expected an unknown-or-claimed error"),
    }
}

#[test]
fn uniform_kind_must_match_the_declaration() {
    let p = program();
    let mut cmd = RenderCommand::new(&p);
    let wrong = UniformValue::new(GlslKind::Vec3, vec![1, 2, 3]).unwrap();
    match cmd.uniform("t", wrong) {
        Err(BindingError::KindMismatch { name, required, supplied }) => {
            assert_eq!(name, "t");
            assert_eq!(required, GlslKind::Float);
            assert_eq!(supplied, GlslKind::Vec3);
        },
        _ => panic!("expected a kind mismatch"),
    }
    // Setting the same uniform twice fails the second time.
    cmd.uniform("t", float_uniform(1)).unwrap();
    assert!(matches!(
        cmd.uniform("t", float_uniform(2)),
        Err(BindingError::UnknownOrClaimed { .. })
    ));
}

#[test]
fn uniform_values_check_their_arity() {
    assert!(UniformValue::new(GlslKind::Mat3, vec![0; 9]).is_ok());
    match UniformValue::new(GlslKind::Mat3, vec![0; 4]) {
        Err(ConfigurationError::UniformArity { kind, got }) => {
            assert_eq!(kind, GlslKind::Mat3);
            assert_eq!(got, 4);
        },
        _ => panic!("expected a uniform-arity error"),
    }
    assert!(UniformValue::new(GlslKind::Sampler2D, Vec::new()).is_err());
    let v = UniformValue::new(GlslKind::Vec2, vec![10, 20]).unwrap();
    assert_eq!(v.kind(), GlslKind::Vec2);
    assert_eq!(v.bits(), &vec![10, 20]);
    let d = v.duplicate();
    assert_eq!(d.kind(), GlslKind::Vec2);
    assert_eq!(d.bits(), &vec![10, 20]);
}

#[test]
fn attachment_is_indifferent_to_layout_order() {
    // Two layouts with the same (name, kind) pairs in different orders
    // satisfy the same attach; only the packing differs.
    let p = program();
    let forward = VertexLayout::new(vec![
        LayoutEntry {
            name: String::from("a"),
            format: StorageFormat::describe(GlslKind::Vec2, ScalarRepr::F32, false).unwrap(),
        },
        LayoutEntry {
            name: String::from("extra"),
            format: StorageFormat::describe(GlslKind::Vec3, ScalarRepr::F32, false).unwrap(),
        },
    ])
    .unwrap();
    let backward = forward
        .reorder(&vec![String::from("extra"), String::from("a")])
        .unwrap();
    let mut cmd = RenderCommand::new(&p);
    cmd.attach("a", &buffer(1, "a", 3), &forward).unwrap();
    let mut cmd = RenderCommand::new(&p);
    cmd.attach("a", &buffer(1, "a", 3), &backward).unwrap();
}

#[test]
fn recorded_descriptors_carry_the_layout_geometry() {
    let p = program();
    let mut cmd = RenderCommand::new(&p);
    let layout = VertexLayout::new(vec![
        LayoutEntry {
            name: String::from("pad"),
            format: StorageFormat::describe(GlslKind::Float, ScalarRepr::U8, false).unwrap(),
        },
        LayoutEntry {
            name: String::from("a"),
            format: StorageFormat::describe(GlslKind::Vec2, ScalarRepr::F32, true).unwrap(),
        },
    ])
    .unwrap();
    let buf = buffer(9, "a", 4);
    cmd.attach("a", &buf, &layout).unwrap();
    cmd.attach("b", &buffer(1, "b", 4), &vec2_layout("b")).unwrap();
    cmd.attach("c", &buffer(2, "c", 4), &vec2_layout("c")).unwrap();
    cmd.uniform("t", float_uniform(3)).unwrap();
    let ready = cmd.finalize().unwrap();
    let d = ready.bindings()[0];
    assert_eq!(d.buffer, 9);
    assert_eq!(d.location, 0);
    assert_eq!(d.components, 2);
    assert_eq!(d.repr, ScalarRepr::F32);
    assert!(!d.normalized);
    assert_eq!(d.stride, 12);
    assert_eq!(d.offset, 4);
    assert_eq!(ready.program(), 11);
    assert_eq!(ready.uniforms()[0].0, 5);
}
