use glbind::errors::{ProgramError, ShaderStage};
use glbind::glsl::GlslKind;
use glbind::program::{generate_shader_source, ProgramBinding, ShaderInput, StageOutcome};
use glbind::require::{Requirement, RequirementSet};

fn input(name: &str, kind: GlslKind) -> ShaderInput {
    ShaderInput { name: String::from(name), kind }
}

fn ok_stage() -> StageOutcome {
    StageOutcome { ok: true, log: String::new() }
}

fn failed_stage(log: &str) -> StageOutcome {
    StageOutcome { ok: false, log: String::from(log) }
}

fn attrs() -> Vec<ShaderInput> {
    vec![input("position", GlslKind::Vec3), input("color", GlslKind::Vec4)]
}

fn unis() -> Vec<ShaderInput> {
    vec![input("mvp", GlslKind::Mat4)]
}

#[test]
fn resolve_builds_a_binding_with_locations() {
    let p = ProgramBinding::resolve(
        7,
        &attrs(),
        &unis(),
        &ok_stage(),
        &ok_stage(),
        &ok_stage(),
        &vec![0, 1],
        &vec![3],
    )
    .unwrap();
    assert_eq!(p.handle(), 7);
    assert_eq!(p.attribute_count(), 2);
    assert_eq!(p.uniform_count(), 1);
    let mut req = p.fresh_attribute_requirements();
    assert_eq!(req.len(), 2);
    assert_eq!(req.claim("color", GlslKind::Vec4).unwrap(), 1);
    assert_eq!(req.claim("position", GlslKind::Vec3).unwrap(), 0);
    assert!(req.is_empty());
    let mut ureq = p.fresh_uniform_requirements();
    assert_eq!(ureq.claim("mvp", GlslKind::Mat4).unwrap(), 3);
}

#[test]
fn vertex_stage_failure_is_reported_first() {
    let r = ProgramBinding::resolve(
        7,
        &attrs(),
        &unis(),
        &failed_stage("bad vertex"),
        &failed_stage("bad fragment"),
        &ok_stage(),
        &vec![0, 1],
        &vec![3],
    );
    match r {
        Err(ProgramError::Compile(e)) => {
            assert_eq!(e.stage, ShaderStage::Vertex);
            assert_eq!(e.log, "bad vertex");
        },
        _ => panic!("expected a vertex compile error"),
    }
}

#[test]
fn fragment_and_link_failures_carry_their_logs() {
    let r = ProgramBinding::resolve(
        7,
        &attrs(),
        &unis(),
        &ok_stage(),
        &failed_stage("bad fragment"),
        &ok_stage(),
        &vec![0, 1],
        &vec![3],
    );
    match r {
        Err(ProgramError::Compile(e)) => {
            assert_eq!(e.stage, ShaderStage::Fragment);
            assert_eq!(e.log, "bad fragment");
        },
        _ => panic!("expected a fragment compile error"),
    }
    let r = ProgramBinding::resolve(
        7,
        &attrs(),
        &unis(),
        &ok_stage(),
        &ok_stage(),
        &failed_stage("undefined symbol"),
        &vec![0, 1],
        &vec![3],
    );
    match r {
        Err(ProgramError::Compile(e)) => {
            assert_eq!(e.stage, ShaderStage::Link);
            assert_eq!(e.log, "undefined symbol");
        },
        _ => panic!("expected a link error"),
    }
}

#[test]
fn a_missing_declared_input_is_named() {
    let r = ProgramBinding::resolve(
        7,
        &attrs(),
        &unis(),
        &ok_stage(),
        &ok_stage(),
        &ok_stage(),
        &vec![0, -1],
        &vec![3],
    );
    match r {
        Err(ProgramError::Schema(se)) => assert_eq!(se.name, "color"),
        _ => panic!("expected a schema error"),
    }
    let r = ProgramBinding::resolve(
        7,
        &attrs(),
        &unis(),
        &ok_stage(),
        &ok_stage(),
        &ok_stage(),
        &vec![0, 1],
        &vec![-1],
    );
    match r {
        Err(ProgramError::Schema(se)) => assert_eq!(se.name, "mvp"),
        _ => panic!("expected a schema error"),
    }
}

#[test]
fn a_repeated_declared_name_is_refused() {
    let r = ProgramBinding::resolve(
        7,
        &vec![input("p", GlslKind::Vec3), input("p", GlslKind::Vec3)],
        &unis(),
        &ok_stage(),
        &ok_stage(),
        &ok_stage(),
        &vec![0, 1],
        &vec![3],
    );
    assert!(matches!(r, Err(ProgramError::Configuration(..))));
}

#[test]
fn generated_source_spells_every_declaration() {
    let inputs = vec![input("position", GlslKind::Vec3), input("uv", GlslKind::Vec2)];
    let uniforms = vec![input("mvp", GlslKind::Mat4)];
    let outputs = vec![input("frag_uv", GlslKind::Vec2)];
    let src = generate_shader_source(&inputs, &uniforms, &outputs, "void main() {}");
    assert_eq!(
        src,
        "#version 330 core\nin vec3 position;in vec2 uv;uniform mat4 mvp;out vec2 frag_uv;void main() {}"
    );
}

#[test]
fn generated_source_with_empty_schema_is_header_and_body() {
    let none: Vec<ShaderInput> = Vec::new();
    let src = generate_shader_source(&none, &none, &none, "void main() {}");
    assert_eq!(src, "#version 330 core\nvoid main() {}");
}

#[test]
fn requirement_sets_claim_once() {
    let entries = vec![
        Requirement { name: String::from("a"), kind: GlslKind::Vec2, location: 4 },
        Requirement { name: String::from("b"), kind: GlslKind::Float, location: 5 },
    ];
    let mut set = RequirementSet::new(entries).unwrap();
    assert_eq!(set.kind_of("a"), Some(GlslKind::Vec2));
    assert_eq!(set.kind_of("c"), None);
    assert_eq!(set.claim("a", GlslKind::Vec2).unwrap(), 4);
    assert!(set.claim("a", GlslKind::Vec2).is_err());
    assert_eq!(set.names(), vec![String::from("b")]);
}
