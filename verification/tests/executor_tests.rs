use glbind::buffer::VertexBuffer;
use glbind::command::RenderCommand;
use glbind::command::UniformValue;
use glbind::executor::{execution_plan, BackendOp};
use glbind::format::{ScalarRepr, StorageFormat};
use glbind::glsl::GlslKind;
use glbind::layout::{LayoutEntry, VertexLayout};
use glbind::program::{ProgramBinding, ShaderInput, StageOutcome};
use glbind::record::VertexRecord;
use glbind::surface::Surface;

fn ok_stage() -> StageOutcome {
    StageOutcome { ok: true, log: String::new() }
}

fn vec2_layout(name: &str) -> VertexLayout {
    VertexLayout::new(vec![LayoutEntry {
        name: String::from(name),
        format: StorageFormat::describe(GlslKind::Vec2, ScalarRepr::F32, false).unwrap(),
    }])
    .unwrap()
}

fn buffer(handle: u64, name: &str, elems: usize) -> VertexBuffer {
    let mut buf = VertexBuffer::new(handle);
    let layout = vec2_layout(name);
    let mut records = Vec::new();
    for _ in 0..elems {
        records.push(VertexRecord::new(vec2_layout(name)));
    }
    buf.allocate(&layout, &records).unwrap();
    buf
}

#[test]
fn the_plan_binds_draws_and_disables_in_order() {
    let p = ProgramBinding::resolve(
        11,
        &vec![
            ShaderInput { name: String::from("a"), kind: GlslKind::Vec2 },
            ShaderInput { name: String::from("b"), kind: GlslKind::Vec2 },
        ],
        &vec![ShaderInput { name: String::from("t"), kind: GlslKind::Float }],
        &ok_stage(),
        &ok_stage(),
        &ok_stage(),
        &vec![0, 1],
        &vec![4],
    )
    .unwrap();
    let mut cmd = RenderCommand::new(&p);
    cmd.attach("a", &buffer(21, "a", 6), &vec2_layout("a")).unwrap();
    cmd.attach("b", &buffer(22, "b", 5), &vec2_layout("b")).unwrap();
    cmd.uniform("t", UniformValue::new(GlslKind::Float, vec![77]).unwrap()).unwrap();
    let ready = cmd.finalize().unwrap();
    let target = Surface::new(3, 640, 480);
    let plan = execution_plan(&ready, &target);

    assert_eq!(plan.len(), 2 + 3 * 2 + 1 + 1 + 2);
    assert!(matches!(
        plan[0],
        BackendOp::BindTarget { target: 3, x: 0, y: 0, width: 640, height: 480 }
    ));
    assert!(matches!(plan[1], BackendOp::UseProgram { program: 11 }));
    assert!(matches!(plan[2], BackendOp::BindArrayBuffer { buffer: 21 }));
    match &plan[3] {
        BackendOp::SetAttribPointer { pointer } => {
            assert_eq!(pointer.buffer, 21);
            assert_eq!(pointer.location, 0);
            assert_eq!(pointer.components, 2);
            assert_eq!(pointer.stride, 8);
            assert_eq!(pointer.offset, 0);
        },
        _ => panic!("expected an attribute pointer"),
    }
    assert!(matches!(plan[4], BackendOp::EnableAttribArray { location: 0 }));
    assert!(matches!(plan[5], BackendOp::BindArrayBuffer { buffer: 22 }));
    assert!(matches!(plan[6], BackendOp::SetAttribPointer { .. }));
    assert!(matches!(plan[7], BackendOp::EnableAttribArray { location: 1 }));
    match &plan[8] {
        BackendOp::SubmitUniform { location, kind, bits } => {
            assert_eq!(*location, 4);
            assert_eq!(*kind, GlslKind::Float);
            assert_eq!(bits, &vec![77]);
        },
        _ => panic!("expected a uniform submission"),
    }
    assert!(matches!(plan[9], BackendOp::DrawTriangles { count: 5 }));
    assert!(matches!(plan[10], BackendOp::DisableAttribArray { location: 0 }));
    assert!(matches!(plan[11], BackendOp::DisableAttribArray { location: 1 }));
}

#[test]
fn surfaces_subdivide_without_overlap() {
    let screen = Surface::new(0, 800, 600);
    assert_eq!(screen.get_width(), 800);
    assert_eq!(screen.get_height(), 600);

    let sub = screen.subsurface(100, 50, 200, 100);
    assert_eq!((sub.x, sub.y, sub.width, sub.height), (100, 50, 200, 100));
    assert_eq!(sub.id, 0);

    let nested = sub.subsurface(10, 20, 30, 40);
    assert_eq!((nested.x, nested.y), (110, 70));

    let (left, right) = screen.split_vertical(300);
    assert_eq!((left.x, left.width), (0, 300));
    assert_eq!((right.x, right.width), (300, 500));
    assert_eq!(left.width + right.width, screen.width);

    let (bottom, top) = right.split_horizontal(200);
    assert_eq!((bottom.y, bottom.height), (0, 200));
    assert_eq!((top.y, top.height), (200, 400));
    assert_eq!(bottom.x, 300);
}
