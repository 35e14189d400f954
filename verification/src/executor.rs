//! The draw executor's plan.
//!
//! Executing a ready command is a fixed sequence of backend calls: bind
//! the render target, activate the program, bind and enable every
//! recorded attribute pointer, submit every recorded uniform, issue one
//! triangle-list draw of the command's vertex count starting at vertex
//! 0, and disable the attribute arrays again.  This module computes that
//! sequence as data, so its order and completeness are checked here and
//! the embedding application only performs the calls one by one; all
//! mutation of the backend's global binding state stays behind this
//! plan, and none of it is reachable from the command builder.

use vstd::prelude::*;

use crate::command::{AttribPointerData, ReadyCommand, UniformValue};
use crate::glsl::GlslKind;
use crate::surface::Surface;

verus! {

/// One backend call of a draw, in the order the executor performs them.
#[derive(Debug)]
pub enum BackendOp {
    /// Bind the render target and set its viewport rectangle.
    BindTarget { target: u64, x: u32, y: u32, width: u32, height: u32 },
    /// Activate the program.
    UseProgram { program: u64 },
    /// Bind the vertex buffer the next attribute pointer reads from.
    BindArrayBuffer { buffer: u64 },
    /// Describe one attribute's data within the bound buffer.
    SetAttribPointer { pointer: AttribPointerData },
    /// Enable the attribute array at the given location.
    EnableAttribArray { location: i32 },
    /// Submit one uniform value to the given location.
    SubmitUniform { location: i32, kind: GlslKind, bits: Vec<u32> },
    /// Issue a triangle-list draw of `count` vertices starting at 0.
    DrawTriangles { count: usize },
    /// Disable the attribute array at the given location.
    DisableAttribArray { location: i32 },
}

/// Computes the exact backend call sequence that draws a ready command
/// into a render target: target and program first, then for each
/// recorded binding a buffer bind, a pointer description and an enable,
/// then every uniform submission, one draw of the command's vertex
/// count, and finally a disable for every enabled attribute array.
pub fn execution_plan(cmd: &ReadyCommand, target: &Surface) -> (r: Vec<BackendOp>)
    requires
        cmd.wf(),
    ensures
        ({
            let b = cmd.spec_bindings().len() as int;
            let u = cmd.spec_uniform_values().len() as int;
            &&& r@.len() == 2 + 3 * b + u + 1 + b
            &&& r@[0] == (BackendOp::BindTarget {
                target: target.id,
                x: target.x,
                y: target.y,
                width: target.width,
                height: target.height,
            })
            &&& r@[1] == (BackendOp::UseProgram { program: cmd.spec_program() })
            &&& forall|i: int|
                0 <= i < b ==> {
                    &&& r@[2 + 3 * i] == (BackendOp::BindArrayBuffer {
                        buffer: (#[trigger] cmd.spec_bindings()[i]).buffer,
                    })
                    &&& r@[2 + 3 * i + 1] == (BackendOp::SetAttribPointer {
                        pointer: cmd.spec_bindings()[i],
                    })
                    &&& r@[2 + 3 * i + 2] == (BackendOp::EnableAttribArray {
                        location: cmd.spec_bindings()[i].location,
                    })
                }
            &&& forall|j: int|
                0 <= j < u ==> {
                    let op = #[trigger] r@[2 + 3 * b + j];
                    &&& op matches BackendOp::SubmitUniform { location, kind, bits }
                    &&& (op matches BackendOp::SubmitUniform { location, kind, bits } ==> {
                        &&& location == cmd.spec_uniform_values()[j].0
                        &&& kind == cmd.spec_uniform_values()[j].1.spec_kind()
                        &&& bits@ == cmd.spec_uniform_values()[j].1.spec_bits()
                    })
                }
            &&& r@[2 + 3 * b + u] == (BackendOp::DrawTriangles {
                count: cmd.spec_vertex_count(),
            })
            &&& forall|i: int|
                0 <= i < b ==> r@[2 + 3 * b + u + 1 + i] == (BackendOp::DisableAttribArray {
                    location: (#[trigger] cmd.spec_bindings()[i]).location,
                })
        }),
{
    let mut r: Vec<BackendOp> = Vec::new();
    r.push(
        BackendOp::BindTarget {
            target: target.id,
            x: target.x,
            y: target.y,
            width: target.width,
            height: target.height,
        },
    );
    r.push(BackendOp::UseProgram { program: cmd.program() });
    let bindings = cmd.bindings();
    let b: usize = bindings.len();
    let mut i: usize = 0;
    while i < b
        invariant
            b == cmd.spec_bindings().len(),
            bindings@ == cmd.spec_bindings(),
            0 <= i <= b,
            r@.len() == 2 + 3 * i,
            r@[0] == (BackendOp::BindTarget {
                target: target.id,
                x: target.x,
                y: target.y,
                width: target.width,
                height: target.height,
            }),
            r@[1] == (BackendOp::UseProgram { program: cmd.spec_program() }),
            forall|k: int|
                0 <= k < i ==> {
                    &&& r@[2 + 3 * k] == (BackendOp::BindArrayBuffer {
                        buffer: (#[trigger] cmd.spec_bindings()[k]).buffer,
                    })
                    &&& r@[2 + 3 * k + 1] == (BackendOp::SetAttribPointer {
                        pointer: cmd.spec_bindings()[k],
                    })
                    &&& r@[2 + 3 * k + 2] == (BackendOp::EnableAttribArray {
                        location: cmd.spec_bindings()[k].location,
                    })
                },
        decreases b - i,
    {
        r.push(BackendOp::BindArrayBuffer { buffer: bindings[i].buffer });
        r.push(BackendOp::SetAttribPointer { pointer: bindings[i] });
        r.push(BackendOp::EnableAttribArray { location: bindings[i].location });
        i += 1;
    }
    let uniforms = cmd.uniforms();
    let u: usize = uniforms.len();
    let mut j: usize = 0;
    while j < u
        invariant
            b == cmd.spec_bindings().len(),
            u == cmd.spec_uniform_values().len(),
            uniforms@ == cmd.spec_uniform_values(),
            cmd.wf(),
            0 <= j <= u,
            r@.len() == 2 + 3 * b + j,
            r@[0] == (BackendOp::BindTarget {
                target: target.id,
                x: target.x,
                y: target.y,
                width: target.width,
                height: target.height,
            }),
            r@[1] == (BackendOp::UseProgram { program: cmd.spec_program() }),
            forall|k: int|
                0 <= k < b ==> {
                    &&& r@[2 + 3 * k] == (BackendOp::BindArrayBuffer {
                        buffer: (#[trigger] cmd.spec_bindings()[k]).buffer,
                    })
                    &&& r@[2 + 3 * k + 1] == (BackendOp::SetAttribPointer {
                        pointer: cmd.spec_bindings()[k],
                    })
                    &&& r@[2 + 3 * k + 2] == (BackendOp::EnableAttribArray {
                        location: cmd.spec_bindings()[k].location,
                    })
                },
            forall|k: int|
                0 <= k < j ==> {
                    let op = #[trigger] r@[2 + 3 * b + k];
                    &&& op matches BackendOp::SubmitUniform { location, kind, bits }
                    &&& (op matches BackendOp::SubmitUniform { location, kind, bits } ==> {
                        &&& location == cmd.spec_uniform_values()[k].0
                        &&& kind == cmd.spec_uniform_values()[k].1.spec_kind()
                        &&& bits@ == cmd.spec_uniform_values()[k].1.spec_bits()
                    })
                },
        decreases u - j,
    {
        let value: &UniformValue = &uniforms[j].1;
        let mut bits: Vec<u32> = Vec::new();
        let m: usize = value.bits().len();
        let mut t: usize = 0;
        while t < m
            invariant
                m == value.spec_bits().len(),
                0 <= t <= m,
                bits@.len() == t,
                forall|q: int| 0 <= q < t ==> bits@[q] == value.spec_bits()[q],
            decreases m - t,
        {
            bits.push(value.bits()[t]);
            t += 1;
        }
        proof {
            assert(bits@ =~= value.spec_bits());
        }
        r.push(BackendOp::SubmitUniform { location: uniforms[j].0, kind: value.kind(), bits });
        j += 1;
    }
    r.push(BackendOp::DrawTriangles { count: cmd.vertex_count() });
    let mut i2: usize = 0;
    while i2 < b
        invariant
            b == cmd.spec_bindings().len(),
            u == cmd.spec_uniform_values().len(),
            0 <= i2 <= b,
            r@.len() == 2 + 3 * b + u + 1 + i2,
            r@[0] == (BackendOp::BindTarget {
                target: target.id,
                x: target.x,
                y: target.y,
                width: target.width,
                height: target.height,
            }),
            r@[1] == (BackendOp::UseProgram { program: cmd.spec_program() }),
            forall|k: int|
                0 <= k < b ==> {
                    &&& r@[2 + 3 * k] == (BackendOp::BindArrayBuffer {
                        buffer: (#[trigger] cmd.spec_bindings()[k]).buffer,
                    })
                    &&& r@[2 + 3 * k + 1] == (BackendOp::SetAttribPointer {
                        pointer: cmd.spec_bindings()[k],
                    })
                    &&& r@[2 + 3 * k + 2] == (BackendOp::EnableAttribArray {
                        location: cmd.spec_bindings()[k].location,
                    })
                },
            forall|k: int|
                0 <= k < u ==> {
                    let op = #[trigger] r@[2 + 3 * b + k];
                    &&& op matches BackendOp::SubmitUniform { location, kind, bits }
                    &&& (op matches BackendOp::SubmitUniform { location, kind, bits } ==> {
                        &&& location == cmd.spec_uniform_values()[k].0
                        &&& kind == cmd.spec_uniform_values()[k].1.spec_kind()
                        &&& bits@ == cmd.spec_uniform_values()[k].1.spec_bits()
                    })
                },
            r@[2 + 3 * b + u] == (BackendOp::DrawTriangles { count: cmd.spec_vertex_count() }),
            forall|k: int|
                0 <= k < i2 ==> r@[2 + 3 * b + u + 1 + k] == (BackendOp::DisableAttribArray {
                    location: (#[trigger] cmd.spec_bindings()[k]).location,
                }),
        decreases b - i2,
    {
        r.push(BackendOp::DisableAttribArray { location: cmd.bindings()[i2].location });
        i2 += 1;
    }
    r
}

} // verus!
