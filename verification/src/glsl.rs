//! The closed registry of shading-language data kinds.
//!
//! Every shader input - a per-vertex attribute or a per-draw uniform - is
//! tagged with one of these kinds.  The kind decides how many scalar
//! components an attribute carries, whether the kind may appear as a vertex
//! attribute at all (matrix and sampler kinds are uniform-only), and the
//! exact spelling used when the kind is embedded in generated shader source.

use vstd::prelude::*;

verus! {

/// One of the fixed scalar/vector/matrix data kinds of the shading language.
#[derive(Clone, Copy, Debug, PartialEq, Eq, Structural)]
pub enum GlslKind {
    Float,
    Vec2,
    Vec3,
    Vec4,
    Mat2,
    Mat3,
    Mat4,
    Sampler2D,
}

/// How many scalar components a value of this kind carries when it is used
/// as a vertex attribute; 0 for the kinds that cannot be vertex attributes.
pub open spec fn spec_attribute_components(k: GlslKind) -> nat {
    match k {
        GlslKind::Float => 1,
        GlslKind::Vec2 => 2,
        GlslKind::Vec3 => 3,
        GlslKind::Vec4 => 4,
        GlslKind::Mat2 => 0,
        GlslKind::Mat3 => 0,
        GlslKind::Mat4 => 0,
        GlslKind::Sampler2D => 0,
    }
}

/// Whether this kind may tag a vertex attribute (matrix and sampler kinds
/// are uniform-only).
pub open spec fn spec_is_attribute_kind(k: GlslKind) -> bool {
    spec_attribute_components(k) >= 1
}

/// How many scalars a uniform value of this kind carries; 0 for sampler
/// kinds, which take no host-side value here.
pub open spec fn spec_uniform_components(k: GlslKind) -> nat {
    match k {
        GlslKind::Float => 1,
        GlslKind::Vec2 => 2,
        GlslKind::Vec3 => 3,
        GlslKind::Vec4 => 4,
        GlslKind::Mat2 => 4,
        GlslKind::Mat3 => 9,
        GlslKind::Mat4 => 16,
        GlslKind::Sampler2D => 0,
    }
}

/// The canonical spelling of this kind in generated shader source.
pub open spec fn spec_type_string(k: GlslKind) -> Seq<char> {
    match k {
        GlslKind::Float => "float"@,
        GlslKind::Vec2 => "vec2"@,
        GlslKind::Vec3 => "vec3"@,
        GlslKind::Vec4 => "vec4"@,
        GlslKind::Mat2 => "mat2"@,
        GlslKind::Mat3 => "mat3"@,
        GlslKind::Mat4 => "mat4"@,
        GlslKind::Sampler2D => "sampler2D"@,
    }
}

impl GlslKind {
    /// Component count of this kind as a vertex attribute; 0 when the kind
    /// cannot be a vertex attribute.
    pub fn attribute_components(self) -> (n: u8)
        ensures
            n as nat == spec_attribute_components(self),
    {
        match self {
            GlslKind::Float => 1,
            GlslKind::Vec2 => 2,
            GlslKind::Vec3 => 3,
            GlslKind::Vec4 => 4,
            GlslKind::Mat2 => 0,
            GlslKind::Mat3 => 0,
            GlslKind::Mat4 => 0,
            GlslKind::Sampler2D => 0,
        }
    }

    /// Whether this kind may tag a vertex attribute.
    pub fn is_attribute_kind(self) -> (b: bool)
        ensures
            b == spec_is_attribute_kind(self),
    {
        self.attribute_components() >= 1
    }

    /// Number of scalars a uniform value of this kind carries.
    pub fn uniform_components(self) -> (n: u8)
        ensures
            n as nat == spec_uniform_components(self),
    {
        match self {
            GlslKind::Float => 1,
            GlslKind::Vec2 => 2,
            GlslKind::Vec3 => 3,
            GlslKind::Vec4 => 4,
            GlslKind::Mat2 => 4,
            GlslKind::Mat3 => 9,
            GlslKind::Mat4 => 16,
            GlslKind::Sampler2D => 0,
        }
    }

    /// The canonical type-name spelling used in generated shader source.
    pub fn type_string(self) -> (s: &'static str)
        ensures
            s@ == spec_type_string(self),
    {
        match self {
            GlslKind::Float => "float",
            GlslKind::Vec2 => "vec2",
            GlslKind::Vec3 => "vec3",
            GlslKind::Vec4 => "vec4",
            GlslKind::Mat2 => "mat2",
            GlslKind::Mat3 => "mat3",
            GlslKind::Mat4 => "mat4",
            GlslKind::Sampler2D => "sampler2D",
        }
    }
}

} // verus!
