//! Storage format descriptors.
//!
//! A storage format describes how one vertex attribute's data is encoded in
//! host memory: how many scalar components it has, which host scalar
//! representation each component uses, and whether the backend normalizes
//! integer components into the unit range.  A format is only valid for
//! attribute kinds; matrix and sampler kinds are uniform-only and have no
//! attribute format.

use vstd::prelude::*;

use crate::errors::ConfigurationError;
use crate::glsl::{GlslKind, spec_attribute_components, spec_is_attribute_kind};

verus! {

/// The host scalar representation of one component of a vertex attribute.
#[derive(Clone, Copy, Debug, PartialEq, Eq, Structural)]
pub enum ScalarRepr {
    /// 32-bit floating point.
    F32,
    /// 32-bit signed integer.
    I32,
    /// 32-bit unsigned integer.
    U32,
    /// 16-bit signed integer.
    I16,
    /// 16-bit unsigned integer.
    U16,
    /// 8-bit signed integer.
    I8,
    /// 8-bit unsigned integer.
    U8,
}

/// Size in bytes of one scalar of this representation; also its natural
/// alignment in a packed vertex record.
pub open spec fn spec_scalar_size(r: ScalarRepr) -> nat {
    match r {
        ScalarRepr::F32 => 4,
        ScalarRepr::I32 => 4,
        ScalarRepr::U32 => 4,
        ScalarRepr::I16 => 2,
        ScalarRepr::U16 => 2,
        ScalarRepr::I8 => 1,
        ScalarRepr::U8 => 1,
    }
}

/// Whether this representation is an integer one; normalization is only
/// meaningful for integer representations.
pub open spec fn spec_is_integer(r: ScalarRepr) -> bool {
    !(r is F32)
}

impl ScalarRepr {
    /// Size in bytes of one scalar of this representation.
    pub fn scalar_size(self) -> (n: u8)
        ensures
            n as nat == spec_scalar_size(self),
    {
        match self {
            ScalarRepr::F32 => 4,
            ScalarRepr::I32 => 4,
            ScalarRepr::U32 => 4,
            ScalarRepr::I16 => 2,
            ScalarRepr::U16 => 2,
            ScalarRepr::I8 => 1,
            ScalarRepr::U8 => 1,
        }
    }

    /// Whether this representation is an integer one.
    pub fn is_integer(self) -> (b: bool)
        ensures
            b == spec_is_integer(self),
    {
        !matches!(self, ScalarRepr::F32)
    }
}

/// The host-memory encoding of one vertex attribute: a shading-language
/// kind (which fixes the component count), a scalar representation, and a
/// normalization flag.
#[derive(Clone, Copy, Debug, PartialEq, Eq, Structural)]
pub struct StorageFormat {
    /// The shading-language kind this format encodes; always an attribute
    /// kind.
    pub kind: GlslKind,
    /// The host representation of each scalar component.
    pub repr: ScalarRepr,
    /// Whether the backend normalizes integer components into the unit
    /// range; always false for floating-point representations.
    pub normalized: bool,
}

impl StorageFormat {
    /// A format is well formed when its kind is an attribute kind and
    /// normalization is only claimed for integer representations.
    pub open spec fn wf(self) -> bool {
        &&& spec_is_attribute_kind(self.kind)
        &&& self.normalized ==> spec_is_integer(self.repr)
    }

    /// Number of scalar components, fixed by the kind.
    pub open spec fn spec_components(self) -> nat {
        spec_attribute_components(self.kind)
    }

    /// Total size in bytes of one value of this format in host memory.
    pub open spec fn spec_size(self) -> nat {
        self.spec_components() * spec_scalar_size(self.repr)
    }

    /// Alignment in bytes of a value of this format: the natural size of
    /// its scalar representation.
    pub open spec fn spec_align(self) -> nat {
        spec_scalar_size(self.repr)
    }

    /// Describes how an attribute of kind `kind` is stored in host memory.
    ///
    /// Fails when `kind` is a matrix or sampler kind, which cannot be a
    /// vertex attribute.  For floating-point representations a `normalized`
    /// request is meaningless and is dropped rather than mis-encoded.
    pub fn describe(kind: GlslKind, repr: ScalarRepr, normalized: bool) -> (r: Result<
        StorageFormat,
        ConfigurationError,
    >)
        ensures
            r is Ok <==> spec_is_attribute_kind(kind),
            r matches Ok(f) ==> {
                &&& f.kind == kind
                &&& f.repr == repr
                &&& f.normalized == (normalized && spec_is_integer(repr))
                &&& f.wf()
            },
            r matches Err(e) ==> e == (ConfigurationError::AttributeKindRequired { kind }),
    {
        if !kind.is_attribute_kind() {
            return Err(ConfigurationError::AttributeKindRequired { kind });
        }
        Ok(StorageFormat { kind, repr, normalized: normalized && repr.is_integer() })
    }

    /// Number of scalar components of this format.
    pub fn components(self) -> (n: u8)
        ensures
            n as nat == self.spec_components(),
    {
        self.kind.attribute_components()
    }

    /// Size in bytes of one value of this format.
    pub fn size(self) -> (n: u8)
        ensures
            n as nat == self.spec_size(),
    {
        self.components() * self.repr.scalar_size()
    }

    /// Alignment in bytes of a value of this format.
    pub fn align(self) -> (n: u8)
        ensures
            n as nat == self.spec_align(),
            1 <= n <= 4,
    {
        self.repr.scalar_size()
    }
}

} // verus!
