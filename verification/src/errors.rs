//! The error taxonomy.
//!
//! Every failure this crate reports is deterministic and caller-induced;
//! none indicates a backend or hardware fault.  Construction-time misuse is
//! a [`ConfigurationError`]; a backend compile or link failure is carried as
//! a [`CompileError`]; a declared input the backend cannot locate is a
//! [`SchemaError`]; a failed claim while building a draw command is a
//! [`BindingError`]; finalizing an incomplete command is an
//! [`IncompleteCommandError`].

use vstd::prelude::*;

use crate::glsl::GlslKind;

verus! {

/// An invalid construction request: a caller bug, reported before any state
/// is created.
#[derive(Clone, Debug)]
pub enum ConfigurationError {
    /// A storage format or layout entry was requested for a kind that
    /// cannot be a vertex attribute.
    AttributeKindRequired { kind: GlslKind },
    /// Two entries of one vertex layout carry the same attribute name.
    DuplicateAttribute { name: String },
    /// An operation named an attribute that the layout involved does not
    /// contain.
    UnknownAttribute { name: String },
    /// A reordering of a vertex layout did not name each attribute exactly
    /// once.
    IncompleteOrder,
    /// The byte layout of a vertex record does not fit in host memory.
    RecordTooLarge,
    /// A uniform value was supplied with the wrong number of scalars for
    /// its kind, or for a sampler kind, which takes no host-side value.
    UniformArity { kind: GlslKind, got: usize },
    /// A field of a vertex record was written with data of the wrong
    /// byte length for its storage format.
    FieldSize { name: String, expected: usize, got: usize },
    /// A record handed to a buffer upload is packed by a different
    /// layout than the buffer upload declares; `index` is the first such
    /// record.
    LayoutMismatch { index: usize },
    /// A partial buffer update whose target range exceeds the currently
    /// allocated element count.
    UpdateOutOfBounds { start: usize, len: usize, available: usize },
}

/// Which shader stage, or the link step, the backend rejected.
#[derive(Clone, Copy, Debug, PartialEq, Eq, Structural)]
pub enum ShaderStage {
    Vertex,
    Fragment,
    Link,
}

/// A backend compile or link failure, carrying the backend's diagnostic
/// text; recoverable by the caller.
#[derive(Clone, Debug)]
pub struct CompileError {
    /// The stage the backend rejected.
    pub stage: ShaderStage,
    /// The backend-reported diagnostic text.
    pub log: String,
}

/// A declared input that the backend could not resolve to a location after
/// a successful link: a caller bug (the source does not use the input).
#[derive(Clone, Debug)]
pub struct SchemaError {
    /// The declared name that has no backend location.
    pub name: String,
}

/// Any failure while turning backend compile, link and location results
/// into a program binding.
#[derive(Clone, Debug)]
pub enum ProgramError {
    /// A stage compile or the link failed.
    Compile(CompileError),
    /// A declared input has no backend location.
    Schema(SchemaError),
    /// The declared schema itself is invalid.
    Configuration(ConfigurationError),
}

/// A failed claim while building a draw command, raised at the exact
/// `attach` or `uniform` call.
#[derive(Clone, Debug)]
pub enum BindingError {
    /// The named input is not among the remaining requirements: it was
    /// never declared, or it has already been claimed.
    UnknownOrClaimed { name: String },
    /// The supplied value or format has a different kind than the
    /// requirement declares.
    KindMismatch { name: String, required: GlslKind, supplied: GlslKind },
    /// The record layout offered to `attach` has no entry for the named
    /// attribute.
    NotInRecordLayout { name: String },
}

/// A `finalize` call on a command that still has outstanding requirements,
/// listing every one of them.
#[derive(Clone, Debug)]
pub struct IncompleteCommandError {
    /// Every attribute still unclaimed, in declaration order.
    pub missing_attributes: Vec<String>,
    /// Every uniform still unclaimed, in declaration order.
    pub missing_uniforms: Vec<String>,
    /// Whether the vertex count was never set, neither by an `attach` nor
    /// by an explicit limit.
    pub vertex_count_unset: bool,
}

} // verus!
