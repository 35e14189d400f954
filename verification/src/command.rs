//! The render command builder.
//!
//! A render command is born from a program binding with fresh, full
//! copies of the program's two requirement sets and no vertex count.
//! Each `attach` claims one attribute requirement and records a backend
//! attribute-pointer descriptor; each `uniform` claims one uniform
//! requirement and records the value to submit; the implied vertex count
//! is the minimum element count across the attached buffers, and an
//! explicit limit can only lower it.  `finalize` yields a ready command
//! only once both requirement sets are empty and a vertex count is set;
//! otherwise it names every outstanding input.  The builder touches no
//! backend state: everything it records is plain data for the draw
//! executor.

use vstd::prelude::*;

use crate::buffer::VertexBuffer;
use crate::errors::{BindingError, ConfigurationError, IncompleteCommandError};
use crate::format::{spec_is_integer, ScalarRepr};
use crate::glsl::{spec_uniform_components, GlslKind};
use crate::layout::{
    spec_contains_name, spec_index_of, spec_offset_of_idx, spec_total_size, VertexLayout,
};
use crate::program::ProgramBinding;
use crate::require::{
    spec_req_contains, spec_req_index_of, Requirement, RequirementSet,
};

verus! {

/// A per-draw uniform value: a kind and one raw 32-bit scalar pattern
/// per component.  The builder and executor read only the kind; the bit
/// patterns pass through to the backend untouched.
#[derive(Debug)]
pub struct UniformValue {
    kind: GlslKind,
    bits: Vec<u32>,
}

impl UniformValue {
    /// The shading-language kind of this value.
    pub closed spec fn spec_kind(self) -> GlslKind {
        self.kind
    }

    /// The raw scalar bit patterns, one per component.
    pub closed spec fn spec_bits(self) -> Seq<u32> {
        self.bits@
    }

    /// A value is well formed when it carries exactly one scalar per
    /// component of its kind, and its kind takes a host-side value at
    /// all.
    pub open spec fn wf(self) -> bool {
        &&& !(self.spec_kind() is Sampler2D)
        &&& self.spec_bits().len() == spec_uniform_components(self.spec_kind())
    }

    /// Wraps raw scalar patterns as a uniform value of the given kind.
    ///
    /// Fails when the kind is a sampler kind, which takes no host-side
    /// value here, or when the number of scalars does not match the
    /// kind's component count.
    pub fn new(kind: GlslKind, bits: Vec<u32>) -> (r: Result<UniformValue, ConfigurationError>)
        ensures
            r is Ok <==> !(kind is Sampler2D) && bits@.len() == spec_uniform_components(kind),
            r matches Ok(v) ==> v.wf() && v.spec_kind() == kind && v.spec_bits() == bits@,
            r matches Err(e) ==> e == (ConfigurationError::UniformArity {
                kind,
                got: bits@.len() as usize,
            }),
    {
        let got: usize = bits.len();
        if matches!(kind, GlslKind::Sampler2D) || got != kind.uniform_components() as usize {
            return Err(ConfigurationError::UniformArity { kind, got });
        }
        Ok(UniformValue { kind, bits })
    }

    /// The shading-language kind of this value.
    pub fn kind(&self) -> (k: GlslKind)
        ensures
            k == self.spec_kind(),
    {
        self.kind
    }

    /// The raw scalar bit patterns, one per component.
    pub fn bits(&self) -> (r: &Vec<u32>)
        ensures
            r@ == self.spec_bits(),
    {
        &self.bits
    }

    /// A value carrying the same kind and the same bit patterns.
    pub fn duplicate(&self) -> (r: UniformValue)
        ensures
            r.spec_kind() == self.spec_kind(),
            r.spec_bits() == self.spec_bits(),
    {
        let n: usize = self.bits.len();
        let mut bits: Vec<u32> = Vec::new();
        let mut i: usize = 0;
        while i < n
            invariant
                n == self.bits@.len(),
                0 <= i <= n,
                bits@.len() == i,
                forall|k: int| 0 <= k < i ==> bits@[k] == self.bits@[k],
            decreases n - i,
        {
            bits.push(self.bits[i]);
            i += 1;
        }
        proof {
            assert(bits@ =~= self.bits@);
        }
        UniformValue { kind: self.kind, bits }
    }
}

/// The backend attribute-pointer descriptor one `attach` records: which
/// buffer feeds which attribute location, and how its bytes are laid
/// out within each record.
#[derive(Clone, Copy, Debug, PartialEq, Eq, Structural)]
pub struct AttribPointerData {
    /// The backend handle of the attached vertex buffer.
    pub buffer: u64,
    /// The backend location of the claimed attribute.
    pub location: i32,
    /// Scalar components per vertex, from the storage format.
    pub components: u8,
    /// Host scalar representation, from the storage format.
    pub repr: ScalarRepr,
    /// Whether the backend normalizes integer components.
    pub normalized: bool,
    /// Byte stride between consecutive records: the layout's total size.
    pub stride: usize,
    /// Byte offset of this attribute within one record.
    pub offset: usize,
}

/// The vertex count after one more buffer of `n` elements is attached:
/// `n` itself when no count was set, else the smaller of the two.
pub open spec fn spec_capped(vc: Option<usize>, n: nat) -> nat {
    match vc {
        Option::None => n,
        Option::Some(v) => if v <= n {
            v as nat
        } else {
            n
        },
    }
}

/// A draw command under construction.
pub struct RenderCommand {
    program: u64,
    bindings: Vec<AttribPointerData>,
    uniforms: Vec<(i32, UniformValue)>,
    remaining_attributes: RequirementSet,
    remaining_uniforms: RequirementSet,
    vertex_count: Option<usize>,
    schema_attributes: Ghost<Seq<Requirement>>,
    schema_uniforms: Ghost<Seq<Requirement>>,
}

impl RenderCommand {
    /// The backend program handle this command draws with.
    pub closed spec fn spec_program(self) -> u64 {
        self.program
    }

    /// The recorded attribute-pointer descriptors, one per successful
    /// `attach`, in call order.
    pub closed spec fn spec_bindings(self) -> Seq<AttribPointerData> {
        self.bindings@
    }

    /// The recorded uniform submissions, one per successful `uniform`
    /// call, in call order.
    pub closed spec fn spec_uniform_values(self) -> Seq<(i32, UniformValue)> {
        self.uniforms@
    }

    /// The attribute requirements still outstanding.
    pub closed spec fn spec_remaining_attributes(self) -> RequirementSet {
        self.remaining_attributes
    }

    /// The uniform requirements still outstanding.
    pub closed spec fn spec_remaining_uniforms(self) -> RequirementSet {
        self.remaining_uniforms
    }

    /// The implied vertex count, if any `attach` or explicit limit has
    /// set one.
    pub closed spec fn spec_vertex_count(self) -> Option<usize> {
        self.vertex_count
    }

    /// The full attribute schema this command was born with.
    pub closed spec fn spec_schema_attributes(self) -> Seq<Requirement> {
        self.schema_attributes@
    }

    /// The full uniform schema this command was born with.
    pub closed spec fn spec_schema_uniforms(self) -> Seq<Requirement> {
        self.schema_uniforms@
    }

    /// A command is well formed when its requirement sets are, its
    /// recorded uniform values are, and each schema entry is either
    /// still outstanding or recorded: the recorded calls and the
    /// outstanding requirements always add up to the schema size.
    pub open spec fn wf(self) -> bool {
        &&& self.spec_remaining_attributes().wf()
        &&& self.spec_remaining_uniforms().wf()
        &&& forall|i: int|
            0 <= i < self.spec_uniform_values().len()
                ==> (#[trigger] self.spec_uniform_values()[i].1).wf()
        &&& self.spec_bindings().len() + self.spec_remaining_attributes().spec_entries().len()
            == self.spec_schema_attributes().len()
        &&& self.spec_uniform_values().len() + self.spec_remaining_uniforms().spec_entries().len()
            == self.spec_schema_uniforms().len()
    }

    /// A fresh command over a program binding: full copies of both
    /// requirement sets, nothing recorded, no vertex count.
    pub fn new(program: &ProgramBinding) -> (r: RenderCommand)
        requires
            program.wf(),
        ensures
            r.wf(),
            r.spec_program() == program.spec_handle(),
            r.spec_bindings().len() == 0,
            r.spec_uniform_values().len() == 0,
            r.spec_remaining_attributes().spec_entries() == program.spec_attributes(),
            r.spec_remaining_uniforms().spec_entries() == program.spec_uniforms(),
            r.spec_schema_attributes() == program.spec_attributes(),
            r.spec_schema_uniforms() == program.spec_uniforms(),
            r.spec_vertex_count() is None,
    {
        RenderCommand {
            program: program.handle(),
            bindings: Vec::new(),
            uniforms: Vec::new(),
            remaining_attributes: program.fresh_attribute_requirements(),
            remaining_uniforms: program.fresh_uniform_requirements(),
            vertex_count: None,
            schema_attributes: Ghost(program.spec_attributes()),
            schema_uniforms: Ghost(program.spec_uniforms()),
        }
    }

    /// Attaches a vertex buffer to the named attribute, claiming that
    /// attribute's requirement.
    ///
    /// The claim fails when the attribute is unknown or already bound;
    /// the attachment fails when the record layout has no entry of that
    /// name, or when the entry's format encodes a different kind than
    /// the requirement declares.  A failed call leaves the command
    /// unchanged and no backend state is touched at any point.  On
    /// success the recorded descriptor carries the buffer's handle, the
    /// claimed location, the entry's format, the layout's total size as
    /// the stride and the entry's byte offset, and the vertex count
    /// drops to the buffer's element count if that is smaller.
    pub fn attach(&mut self, name: &str, buffer: &VertexBuffer, record_layout: &VertexLayout) -> (r:
        Result<(), BindingError>)
        requires
            old(self).wf(),
            record_layout.wf(),
        ensures
            final(self).wf(),
            final(self).spec_program() == old(self).spec_program(),
            final(self).spec_schema_attributes() == old(self).spec_schema_attributes(),
            final(self).spec_schema_uniforms() == old(self).spec_schema_uniforms(),
            r is Ok <==> {
                let rem = old(self).spec_remaining_attributes().spec_entries();
                let entries = record_layout.spec_entries();
                &&& spec_req_contains(rem, name@)
                &&& spec_contains_name(entries, name@)
                &&& entries[spec_index_of(entries, name@)].format.kind == rem[spec_req_index_of(
                    rem,
                    name@,
                )].kind
            },
            r is Ok ==> {
                let rem = old(self).spec_remaining_attributes().spec_entries();
                let entries = record_layout.spec_entries();
                let e = entries[spec_index_of(entries, name@)];
                let claimed = rem[spec_req_index_of(rem, name@)];
                &&& final(self).spec_remaining_attributes().spec_entries() == rem.remove(
                    spec_req_index_of(rem, name@),
                )
                &&& final(self).spec_remaining_uniforms() == old(self).spec_remaining_uniforms()
                &&& final(self).spec_uniform_values() == old(self).spec_uniform_values()
                &&& final(self).spec_bindings() == old(self).spec_bindings().push(
                    AttribPointerData {
                        buffer: buffer.spec_handle(),
                        location: claimed.location,
                        components: e.format.spec_components() as u8,
                        repr: e.format.repr,
                        normalized: e.format.normalized && spec_is_integer(e.format.repr),
                        stride: spec_total_size(entries) as usize,
                        offset: spec_offset_of_idx(entries, spec_index_of(entries, name@)) as usize,
                    },
                )
                &&& final(self).spec_vertex_count() == Some(
                    spec_capped(old(self).spec_vertex_count(), buffer.spec_len()) as usize,
                )
            },
            r is Err ==> *final(self) == *old(self),
            r matches Err(BindingError::UnknownOrClaimed { name: n }) ==> n@ == name@
                && !spec_req_contains(old(self).spec_remaining_attributes().spec_entries(), name@),
            r matches Err(BindingError::NotInRecordLayout { name: n }) ==> n@ == name@
                && spec_req_contains(old(self).spec_remaining_attributes().spec_entries(), name@)
                && !spec_contains_name(record_layout.spec_entries(), name@),
            r matches Err(BindingError::KindMismatch { name: n, required, supplied }) ==> {
                let rem = old(self).spec_remaining_attributes().spec_entries();
                let entries = record_layout.spec_entries();
                &&& n@ == name@
                &&& spec_req_contains(rem, name@)
                &&& spec_contains_name(entries, name@)
                &&& required == rem[spec_req_index_of(rem, name@)].kind
                &&& supplied == entries[spec_index_of(entries, name@)].format.kind
                &&& required != supplied
            },
    {
        let required = match self.remaining_attributes.kind_of(name) {
            Some(k) => k,
            None => {
                return Err(BindingError::UnknownOrClaimed { name: String::from_str(name) });
            },
        };
        let fmt = match record_layout.format_of(name) {
            Some(f) => f,
            None => {
                return Err(BindingError::NotInRecordLayout { name: String::from_str(name) });
            },
        };
        if fmt.kind != required {
            return Err(
                BindingError::KindMismatch {
                    name: String::from_str(name),
                    required,
                    supplied: fmt.kind,
                },
            );
        }
        let offset = match record_layout.offset_of(name) {
            Some(o) => o,
            None => {
                proof {
                    assert(false);
                }
                return Err(BindingError::UnknownOrClaimed { name: String::from_str(name) });
            },
        };
        let location = match self.remaining_attributes.claim(name, fmt.kind) {
            Ok(loc) => loc,
            Err(_) => {
                proof {
                    assert(false);
                }
                return Err(BindingError::UnknownOrClaimed { name: String::from_str(name) });
            },
        };
        self.bindings.push(
            AttribPointerData {
                buffer: buffer.handle(),
                location,
                components: fmt.components(),
                repr: fmt.repr,
                normalized: fmt.normalized && fmt.repr.is_integer(),
                stride: record_layout.total_size(),
                offset,
            },
        );
        let elems = buffer.element_count();
        self.vertex_count = Some(
            match self.vertex_count {
                Some(v) => if v <= elems {
                    v
                } else {
                    elems
                },
                None => elems,
            },
        );
        Ok(())
    }

    /// Assigns a value to the named uniform, claiming that uniform's
    /// requirement.
    ///
    /// Fails when the uniform is unknown or already assigned, or when
    /// the value's kind differs from the declared kind; a failed call
    /// leaves the command unchanged.  On success the claimed location
    /// and the value are recorded and nothing else changes.
    pub fn uniform(&mut self, name: &str, value: UniformValue) -> (r: Result<(), BindingError>)
        requires
            old(self).wf(),
            value.wf(),
        ensures
            final(self).wf(),
            final(self).spec_program() == old(self).spec_program(),
            final(self).spec_schema_attributes() == old(self).spec_schema_attributes(),
            final(self).spec_schema_uniforms() == old(self).spec_schema_uniforms(),
            r is Ok <==> {
                let rem = old(self).spec_remaining_uniforms().spec_entries();
                &&& spec_req_contains(rem, name@)
                &&& rem[spec_req_index_of(rem, name@)].kind == value.spec_kind()
            },
            r is Ok ==> {
                let rem = old(self).spec_remaining_uniforms().spec_entries();
                &&& final(self).spec_remaining_uniforms().spec_entries() == rem.remove(
                    spec_req_index_of(rem, name@),
                )
                &&& final(self).spec_remaining_attributes() == old(self).spec_remaining_attributes()
                &&& final(self).spec_bindings() == old(self).spec_bindings()
                &&& final(self).spec_vertex_count() == old(self).spec_vertex_count()
                &&& final(self).spec_uniform_values().len() == old(self).spec_uniform_values().len() + 1
                &&& forall|i: int|
                    0 <= i < old(self).spec_uniform_values().len() ==> final(self).spec_uniform_values()[i] == old(self).spec_uniform_values()[i]
                &&& final(self).spec_uniform_values().last().0 == rem[spec_req_index_of(
                    rem,
                    name@,
                )].location
                &&& final(self).spec_uniform_values().last().1 == value
            },
            r is Err ==> *final(self) == *old(self),
            r matches Err(BindingError::UnknownOrClaimed { name: n }) ==> n@ == name@
                && !spec_req_contains(old(self).spec_remaining_uniforms().spec_entries(), name@),
            r matches Err(BindingError::KindMismatch { name: n, required, supplied }) ==> {
                let rem = old(self).spec_remaining_uniforms().spec_entries();
                &&& n@ == name@
                &&& spec_req_contains(rem, name@)
                &&& required == rem[spec_req_index_of(rem, name@)].kind
                &&& required != value.spec_kind()
                &&& supplied == value.spec_kind()
            },
            r matches Err(e) ==> (e matches BindingError::UnknownOrClaimed { .. }) || (
            e matches BindingError::KindMismatch { .. }),
    {
        let location = match self.remaining_uniforms.claim(name, value.kind()) {
            Ok(loc) => loc,
            Err(e) => {
                return Err(e);
            },
        };
        self.uniforms.push((location, value));
        Ok(())
    }

    /// Lowers the vertex count to at most `limit` (a negative limit
    /// counts as zero); when no count was set yet, sets it.  Claims no
    /// requirement and may be called at any time before finalize.
    pub fn limit_vertices(&mut self, limit: i32)
        requires
            old(self).wf(),
        ensures
            final(self).wf(),
            final(self).spec_program() == old(self).spec_program(),
            final(self).spec_schema_attributes() == old(self).spec_schema_attributes(),
            final(self).spec_schema_uniforms() == old(self).spec_schema_uniforms(),
            final(self).spec_bindings() == old(self).spec_bindings(),
            final(self).spec_uniform_values() == old(self).spec_uniform_values(),
            final(self).spec_remaining_attributes() == old(self).spec_remaining_attributes(),
            final(self).spec_remaining_uniforms() == old(self).spec_remaining_uniforms(),
            final(self).spec_vertex_count() == Some(
                spec_capped(
                    old(self).spec_vertex_count(),
                    (if limit < 0 {
                        0
                    } else {
                        limit as int
                    }) as nat,
                ) as usize,
            ),
    {
        let clamped: usize = if limit < 0 {
            0
        } else {
            limit as usize
        };
        self.vertex_count = Some(
            match self.vertex_count {
                Some(v) => if v <= clamped {
                    v
                } else {
                    clamped
                },
                None => clamped,
            },
        );
    }

    /// Finalizes the command.
    ///
    /// Succeeds exactly when both requirement sets are empty and a
    /// vertex count has been set, by at least one `attach` or by an
    /// explicit limit; the ready command carries everything recorded.
    /// Otherwise it fails, naming every attribute and every uniform
    /// still outstanding, and the builder stays usable: the missing
    /// claims can be supplied and finalize retried.
    pub fn finalize(&self) -> (r: Result<ReadyCommand, IncompleteCommandError>)
        requires
            self.wf(),
        ensures
            r is Ok <==> {
                &&& self.spec_remaining_attributes().spec_entries().len() == 0
                &&& self.spec_remaining_uniforms().spec_entries().len() == 0
                &&& self.spec_vertex_count() is Some
            },
            r matches Ok(c) ==> {
                &&& c.wf()
                &&& c.spec_program() == self.spec_program()
                &&& c.spec_bindings() == self.spec_bindings()
                &&& c.spec_uniform_values().len() == self.spec_uniform_values().len()
                &&& forall|j: int|
                    0 <= j < c.spec_uniform_values().len() ==> {
                        &&& (#[trigger] c.spec_uniform_values()[j]).0
                            == self.spec_uniform_values()[j].0
                        &&& c.spec_uniform_values()[j].1.spec_kind()
                            == self.spec_uniform_values()[j].1.spec_kind()
                        &&& c.spec_uniform_values()[j].1.spec_bits()
                            == self.spec_uniform_values()[j].1.spec_bits()
                    }
                &&& Some(c.spec_vertex_count()) == self.spec_vertex_count()
            },
            r matches Err(e) ==> {
                let rem_a = self.spec_remaining_attributes().spec_entries();
                let rem_u = self.spec_remaining_uniforms().spec_entries();
                &&& e.missing_attributes@.len() == rem_a.len()
                &&& forall|i: int|
                    0 <= i < rem_a.len() ==> (#[trigger] e.missing_attributes@[i])@
                        == rem_a[i].name@
                &&& e.missing_uniforms@.len() == rem_u.len()
                &&& forall|i: int|
                    0 <= i < rem_u.len() ==> (#[trigger] e.missing_uniforms@[i])@
                        == rem_u[i].name@
                &&& e.vertex_count_unset == (self.spec_vertex_count() is None)
            },
    {
        let count_set = matches!(self.vertex_count, Some(_));
        if !(self.remaining_attributes.is_empty() && self.remaining_uniforms.is_empty()
            && count_set) {
            return Err(
                IncompleteCommandError {
                    missing_attributes: self.remaining_attributes.names(),
                    missing_uniforms: self.remaining_uniforms.names(),
                    vertex_count_unset: !count_set,
                },
            );
        }
        let vertex_count: usize = match self.vertex_count {
            Some(v) => v,
            None => {
                proof {
                    assert(false);
                }
                0
            },
        };
        let n: usize = self.bindings.len();
        let mut bindings: Vec<AttribPointerData> = Vec::new();
        let mut i: usize = 0;
        while i < n
            invariant
                n == self.bindings@.len(),
                0 <= i <= n,
                bindings@.len() == i,
                forall|k: int| 0 <= k < i ==> bindings@[k] == self.bindings@[k],
            decreases n - i,
        {
            bindings.push(self.bindings[i]);
            i += 1;
        }
        proof {
            assert(bindings@ =~= self.bindings@);
        }
        let m: usize = self.uniforms.len();
        let mut uniforms: Vec<(i32, UniformValue)> = Vec::new();
        let mut j: usize = 0;
        while j < m
            invariant
                m == self.uniforms@.len(),
                self.wf(),
                0 <= j <= m,
                uniforms@.len() == j,
                forall|k: int|
                    0 <= k < j ==> {
                        &&& (#[trigger] uniforms@[k]).0 == self.uniforms@[k].0
                        &&& uniforms@[k].1.spec_kind() == self.uniforms@[k].1.spec_kind()
                        &&& uniforms@[k].1.spec_bits() == self.uniforms@[k].1.spec_bits()
                        &&& uniforms@[k].1.wf()
                    },
            decreases m - j,
        {
            uniforms.push((self.uniforms[j].0, self.uniforms[j].1.duplicate()));
            j += 1;
        }
        Ok(ReadyCommand { program: self.program, bindings, uniforms, vertex_count })
    }
}

/// A finalized draw command: everything the draw executor needs, and
/// nothing left outstanding.  It is built by exactly one successful
/// `finalize`, consumed by one draw, and never reused.
#[derive(Debug)]
pub struct ReadyCommand {
    program: u64,
    bindings: Vec<AttribPointerData>,
    uniforms: Vec<(i32, UniformValue)>,
    vertex_count: usize,
}

impl ReadyCommand {
    /// The backend program handle to draw with.
    pub closed spec fn spec_program(self) -> u64 {
        self.program
    }

    /// The recorded attribute-pointer descriptors, in `attach` order.
    pub closed spec fn spec_bindings(self) -> Seq<AttribPointerData> {
        self.bindings@
    }

    /// The recorded uniform submissions, in call order.
    pub closed spec fn spec_uniform_values(self) -> Seq<(i32, UniformValue)> {
        self.uniforms@
    }

    /// The number of vertices to draw.
    pub closed spec fn spec_vertex_count(self) -> usize {
        self.vertex_count
    }

    /// A ready command is well formed when its recorded uniform values
    /// are.
    pub open spec fn wf(self) -> bool {
        forall|i: int|
            0 <= i < self.spec_uniform_values().len()
                ==> (#[trigger] self.spec_uniform_values()[i].1).wf()
    }

    /// The backend program handle to draw with.
    pub fn program(&self) -> (h: u64)
        ensures
            h == self.spec_program(),
    {
        self.program
    }

    /// The recorded attribute-pointer descriptors, in `attach` order.
    pub fn bindings(&self) -> (r: &Vec<AttribPointerData>)
        ensures
            r@ == self.spec_bindings(),
    {
        &self.bindings
    }

    /// The recorded uniform submissions, in call order.
    pub fn uniforms(&self) -> (r: &Vec<(i32, UniformValue)>)
        ensures
            r@ == self.spec_uniform_values(),
    {
        &self.uniforms
    }

    /// The number of vertices to draw.
    pub fn vertex_count(&self) -> (n: usize)
        ensures
            n == self.spec_vertex_count(),
    {
        self.vertex_count
    }
}

/// Claim-once exhaustiveness: a command whose requirement sets are both
/// empty has recorded exactly one successful `attach` per entry of its
/// attribute schema and one successful `uniform` call per entry of its
/// uniform schema, so the successful calls needed to reach a ready
/// command number exactly the program's schema entries.
pub proof fn lemma_claims_exhaustive(c: RenderCommand)
    requires
        c.wf(),
        c.spec_remaining_attributes().spec_entries().len() == 0,
        c.spec_remaining_uniforms().spec_entries().len() == 0,
    ensures
        c.spec_bindings().len() + c.spec_uniform_values().len() == c.spec_schema_attributes().len()
            + c.spec_schema_uniforms().len(),
        c.spec_bindings().len() == c.spec_schema_attributes().len(),
        c.spec_uniform_values().len() == c.spec_schema_uniforms().len(),
{
}

/// Retrying after an incomplete finalize: when exactly one attribute is
/// outstanding and everything else is complete, the claim a successful
/// `attach` of that attribute performs empties the remaining set, so
/// the retried finalize succeeds.
pub proof fn lemma_retry_after_missing(before: RenderCommand, after: RenderCommand, name: Seq<char>)
    requires
        before.wf(),
        after.wf(),
        before.spec_remaining_attributes().spec_entries().len() == 1,
        before.spec_remaining_attributes().spec_entries()[0].name@ == name,
        before.spec_remaining_uniforms().spec_entries().len() == 0,
        before.spec_vertex_count() is Some,
        after.spec_remaining_attributes().spec_entries() == before.spec_remaining_attributes(
        ).spec_entries().remove(
            spec_req_index_of(before.spec_remaining_attributes().spec_entries(), name),
        ),
        after.spec_remaining_uniforms().spec_entries() == before.spec_remaining_uniforms(
        ).spec_entries(),
        after.spec_vertex_count() is Some,
    ensures
        after.spec_remaining_attributes().spec_entries().len() == 0,
        after.spec_remaining_uniforms().spec_entries().len() == 0,
        after.spec_vertex_count() is Some,
{
    let rem = before.spec_remaining_attributes().spec_entries();
    assert(spec_req_contains(rem, name));
    let i = spec_req_index_of(rem, name);
    assert(0 <= i < rem.len() && rem[i].name@ == name);
}

} // verus!
