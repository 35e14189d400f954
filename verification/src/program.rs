//! Program bindings.
//!
//! A program binding pairs a backend program handle with the program's
//! fixed input schema: the declared vertex attributes and the declared
//! uniforms, each resolved to a backend location when the binding is
//! created.  The backend compiles and links the source and looks up the
//! locations; this module takes those backend results as plain values and
//! decides, exactly once and before any draw, whether they yield a valid
//! binding or which error they amount to.  It also generates the
//! declaration header of structured shader source.

use vstd::prelude::*;
use vstd::string::StringExecFns;

use crate::errors::{CompileError, ConfigurationError, ProgramError, SchemaError, ShaderStage};
use crate::glsl::{GlslKind, spec_type_string};
use crate::require::{Requirement, RequirementSet, spec_req_distinct};

verus! {

/// One declared shader input: a name and its shading-language kind.
#[derive(Clone, Debug)]
pub struct ShaderInput {
    /// The declared name, as it appears in the shader source.
    pub name: String,
    /// The declared kind.
    pub kind: GlslKind,
}

/// What the backend reported for one compile or link step.
#[derive(Clone, Debug)]
pub struct StageOutcome {
    /// Whether the step succeeded.
    pub ok: bool,
    /// The backend's diagnostic text; meaningful when the step failed.
    pub log: String,
}

/// No two declared inputs of one list carry the same name.
pub open spec fn spec_inputs_distinct(s: Seq<ShaderInput>) -> bool {
    forall|i: int, j: int| 0 <= i < j < s.len() ==> s[i].name@ != s[j].name@
}

/// Every location in the list is a real backend location (the backend
/// reports a missing input as a negative value).
pub open spec fn spec_locations_ok(locs: Seq<i32>) -> bool {
    forall|i: int| 0 <= i < locs.len() ==> #[trigger] locs[i] >= 0
}

/// All three backend steps succeeded.
pub open spec fn spec_stages_ok(
    vertex: StageOutcome,
    fragment: StageOutcome,
    link: StageOutcome,
) -> bool {
    vertex.ok && fragment.ok && link.ok
}

/// The requirement list a schema resolves to under the given locations.
pub open spec fn spec_resolved(inputs: Seq<ShaderInput>, locs: Seq<i32>) -> Seq<Requirement> {
    Seq::new(
        inputs.len(),
        |i: int| Requirement { name: inputs[i].name, kind: inputs[i].kind, location: locs[i] },
    )
}

/// A compiled, linked program with its two resolved input schemas.
pub struct ProgramBinding {
    handle: u64,
    attributes: Vec<Requirement>,
    uniforms: Vec<Requirement>,
}

impl ProgramBinding {
    /// The backend program handle.
    pub closed spec fn spec_handle(self) -> u64 {
        self.handle
    }

    /// The resolved vertex attribute schema.
    pub closed spec fn spec_attributes(self) -> Seq<Requirement> {
        self.attributes@
    }

    /// The resolved uniform schema.
    pub closed spec fn spec_uniforms(self) -> Seq<Requirement> {
        self.uniforms@
    }

    /// A binding is well formed when the names within each schema are
    /// distinct.
    pub open spec fn wf(self) -> bool {
        &&& spec_req_distinct(self.spec_attributes())
        &&& spec_req_distinct(self.spec_uniforms())
    }

    /// Decides what the backend's compile, link and location results
    /// amount to: a resolved binding, or the exact error.
    ///
    /// The vertex stage is judged first, then the fragment stage, then
    /// the link; a failure carries that stage's diagnostic text.  After a
    /// successful link, a schema with a repeated name is refused, and
    /// then every declared name must have a backend location: the first
    /// attribute, or else the first uniform, with a negative location is
    /// reported as missing.
    pub fn resolve(
        handle: u64,
        attributes: &Vec<ShaderInput>,
        uniforms: &Vec<ShaderInput>,
        vertex: &StageOutcome,
        fragment: &StageOutcome,
        link: &StageOutcome,
        attr_locations: &Vec<i32>,
        uniform_locations: &Vec<i32>,
    ) -> (r: Result<ProgramBinding, ProgramError>)
        requires
            attr_locations@.len() == attributes@.len(),
            uniform_locations@.len() == uniforms@.len(),
        ensures
            r is Ok <==> {
                &&& spec_stages_ok(*vertex, *fragment, *link)
                &&& spec_inputs_distinct(attributes@)
                &&& spec_inputs_distinct(uniforms@)
                &&& spec_locations_ok(attr_locations@)
                &&& spec_locations_ok(uniform_locations@)
            },
            r matches Ok(p) ==> {
                &&& p.wf()
                &&& p.spec_handle() == handle
                &&& p.spec_attributes() == spec_resolved(attributes@, attr_locations@)
                &&& p.spec_uniforms() == spec_resolved(uniforms@, uniform_locations@)
            },
            !spec_stages_ok(*vertex, *fragment, *link) ==> r matches Err(ProgramError::Compile(..)),
            r matches Err(ProgramError::Compile(e)) ==> {
                ||| !vertex.ok && e.stage == ShaderStage::Vertex && e.log@ == vertex.log@
                ||| vertex.ok && !fragment.ok && e.stage == ShaderStage::Fragment && e.log@
                    == fragment.log@
                ||| vertex.ok && fragment.ok && !link.ok && e.stage == ShaderStage::Link && e.log@
                    == link.log@
            },
            r matches Err(ProgramError::Configuration(..)) ==> spec_stages_ok(
                *vertex,
                *fragment,
                *link,
            ) && !(spec_inputs_distinct(attributes@) && spec_inputs_distinct(uniforms@)),
            r matches Err(ProgramError::Schema(se)) ==> {
                &&& spec_stages_ok(*vertex, *fragment, *link)
                &&& spec_inputs_distinct(attributes@)
                &&& spec_inputs_distinct(uniforms@)
                &&& {
                    ||| exists|i: int|
                        0 <= i < attributes@.len() && #[trigger] attr_locations@[i] < 0
                            && se.name@ == attributes@[i].name@
                    ||| spec_locations_ok(attr_locations@) && exists|i: int|
                        0 <= i < uniforms@.len() && #[trigger] uniform_locations@[i] < 0
                            && se.name@ == uniforms@[i].name@
                }
            },
    {
        if !vertex.ok {
            return Err(
                ProgramError::Compile(
                    CompileError { stage: ShaderStage::Vertex, log: vertex.log.clone() },
                ),
            );
        }
        if !fragment.ok {
            return Err(
                ProgramError::Compile(
                    CompileError { stage: ShaderStage::Fragment, log: fragment.log.clone() },
                ),
            );
        }
        if !link.ok {
            return Err(
                ProgramError::Compile(
                    CompileError { stage: ShaderStage::Link, log: link.log.clone() },
                ),
            );
        }
        if let Some(name) = first_duplicate(attributes) {
            return Err(
                ProgramError::Configuration(ConfigurationError::DuplicateAttribute { name }),
            );
        }
        if let Some(name) = first_duplicate(uniforms) {
            return Err(
                ProgramError::Configuration(ConfigurationError::DuplicateAttribute { name }),
            );
        }
        let attrs = match resolve_inputs(attributes, attr_locations) {
            Ok(v) => v,
            Err(name) => {
                return Err(ProgramError::Schema(SchemaError { name }));
            },
        };
        let unis = match resolve_inputs(uniforms, uniform_locations) {
            Ok(v) => v,
            Err(name) => {
                return Err(ProgramError::Schema(SchemaError { name }));
            },
        };
        Ok(ProgramBinding { handle, attributes: attrs, uniforms: unis })
    }

    /// The backend program handle, as the draw executor binds it.
    pub fn handle(&self) -> (h: u64)
        ensures
            h == self.spec_handle(),
    {
        self.handle
    }

    /// How many vertex attributes the program declares.
    pub fn attribute_count(&self) -> (n: usize)
        ensures
            n == self.spec_attributes().len(),
    {
        self.attributes.len()
    }

    /// How many uniforms the program declares.
    pub fn uniform_count(&self) -> (n: usize)
        ensures
            n == self.spec_uniforms().len(),
    {
        self.uniforms.len()
    }

    /// A fresh, full requirement set over the attribute schema; one is
    /// made for every new render command and never shared.
    pub fn fresh_attribute_requirements(&self) -> (r: RequirementSet)
        requires
            self.wf(),
        ensures
            r.wf(),
            r.spec_entries() == self.spec_attributes(),
    {
        clone_into_set(&self.attributes)
    }

    /// A fresh, full requirement set over the uniform schema; one is
    /// made for every new render command and never shared.
    pub fn fresh_uniform_requirements(&self) -> (r: RequirementSet)
        requires
            self.wf(),
        ensures
            r.wf(),
            r.spec_entries() == self.spec_uniforms(),
    {
        clone_into_set(&self.uniforms)
    }
}

/// The name of the first input that repeats an earlier input's name, if
/// any.
fn first_duplicate(inputs: &Vec<ShaderInput>) -> (r: Option<String>)
    ensures
        r is None <==> spec_inputs_distinct(inputs@),
{
    let n: usize = inputs.len();
    let mut i: usize = 0;
    while i < n
        invariant
            n == inputs@.len(),
            0 <= i <= n,
            forall|k: int, j: int| 0 <= k < j < i ==> inputs@[k].name@ != inputs@[j].name@,
        decreases n - i,
    {
        let mut j: usize = 0;
        while j < i
            invariant
                0 <= j <= i < n,
                n == inputs@.len(),
                forall|k: int| 0 <= k < j ==> inputs@[k].name@ != inputs@[i as int].name@,
            decreases i - j,
        {
            if inputs[j].name == inputs[i].name {
                return Some(inputs[i].name.clone());
            }
            j += 1;
        }
        i += 1;
    }
    None
}

/// Pairs each declared input with its backend location, or names the
/// first input whose location is missing.
fn resolve_inputs(inputs: &Vec<ShaderInput>, locs: &Vec<i32>) -> (r: Result<
    Vec<Requirement>,
    String,
>)
    requires
        locs@.len() == inputs@.len(),
    ensures
        r is Ok <==> spec_locations_ok(locs@),
        r matches Ok(v) ==> v@ == spec_resolved(inputs@, locs@),
        r matches Err(name) ==> exists|i: int|
            0 <= i < inputs@.len() && #[trigger] locs@[i] < 0 && name@ == inputs@[i].name@,
{
    let n: usize = inputs.len();
    let mut v: Vec<Requirement> = Vec::new();
    let mut i: usize = 0;
    while i < n
        invariant
            n == inputs@.len(),
            locs@.len() == n,
            0 <= i <= n,
            v@.len() == i,
            forall|k: int| 0 <= k < i ==> #[trigger] locs@[k] >= 0,
            forall|k: int|
                0 <= k < i ==> #[trigger] v@[k] == (Requirement {
                    name: inputs@[k].name,
                    kind: inputs@[k].kind,
                    location: locs@[k],
                }),
        decreases n - i,
    {
        if locs[i] < 0 {
            return Err(inputs[i].name.clone());
        }
        v.push(
            Requirement {
                name: inputs[i].name.clone(),
                kind: inputs[i].kind,
                location: locs[i],
            },
        );
        i += 1;
    }
    proof {
        assert(v@ =~= spec_resolved(inputs@, locs@));
    }
    Ok(v)
}

/// The declaration line of one input under the given qualifier, spelled
/// `<qualifier> <type_name> <declared_name>;`.
pub open spec fn spec_decl_line(qualifier: Seq<char>, input: ShaderInput) -> Seq<char> {
    qualifier + " "@ + spec_type_string(input.kind) + " "@ + input.name@ + ";"@
}

/// The concatenated declaration lines of a list of inputs, in declaration
/// order.
pub open spec fn spec_decl_lines(qualifier: Seq<char>, inputs: Seq<ShaderInput>) -> Seq<char>
    decreases inputs.len(),
{
    if inputs.len() == 0 {
        Seq::empty()
    } else {
        spec_decl_lines(qualifier, inputs.drop_last()) + spec_decl_line(qualifier, inputs.last())
    }
}

/// The full generated source: the version/profile header line, then the
/// input, uniform and output declarations in that order, then the
/// caller's function body text.
pub open spec fn spec_shader_source(
    inputs: Seq<ShaderInput>,
    uniforms: Seq<ShaderInput>,
    outputs: Seq<ShaderInput>,
    body: Seq<char>,
) -> Seq<char> {
    "#version 330 core\n"@ + spec_decl_lines("in"@, inputs) + spec_decl_lines("uniform"@, uniforms)
        + spec_decl_lines("out"@, outputs) + body
}

/// Appends the declaration lines of one qualifier's inputs.
fn push_decl_lines(out: &mut String, qualifier: &str, inputs: &Vec<ShaderInput>)
    ensures
        final(out)@ == old(out)@ + spec_decl_lines(qualifier@, inputs@),
{
    let n: usize = inputs.len();
    let mut i: usize = 0;
    while i < n
        invariant
            n == inputs@.len(),
            0 <= i <= n,
            out@ == old(out)@ + spec_decl_lines(qualifier@, inputs@.take(i as int)),
        decreases n - i,
    {
        out.append(qualifier);
        out.append(" ");
        out.append(inputs[i].kind.type_string());
        out.append(" ");
        out.append(inputs[i].name.as_str());
        out.append(";");
        proof {
            assert(inputs@.take(i + 1).drop_last() =~= inputs@.take(i as int));
            assert(inputs@.take(i + 1).last() == inputs@[i as int]);
            assert(out@ =~= old(out)@ + spec_decl_lines(qualifier@, inputs@.take(i + 1)));
        }
        i += 1;
    }
    proof {
        assert(inputs@.take(n as int) =~= inputs@);
    }
}

/// Generates shader source from a structured schema, exactly as the
/// backend compiler is handed it: a version/profile header, one
/// declaration line per schema entry using the registry's canonical type
/// spellings, inputs then uniforms then outputs, then the caller's body
/// text.
pub fn generate_shader_source(
    inputs: &Vec<ShaderInput>,
    uniforms: &Vec<ShaderInput>,
    outputs: &Vec<ShaderInput>,
    body: &str,
) -> (r: String)
    ensures
        r@ == spec_shader_source(inputs@, uniforms@, outputs@, body@),
{
    let mut s = String::new();
    s.append("#version 330 core\n");
    push_decl_lines(&mut s, "in", inputs);
    push_decl_lines(&mut s, "uniform", uniforms);
    push_decl_lines(&mut s, "out", outputs);
    s.append(body);
    proof {
        assert(s@ =~= spec_shader_source(inputs@, uniforms@, outputs@, body@));
    }
    s
}

/// Copies resolved requirements into a fresh set.
fn clone_into_set(entries: &Vec<Requirement>) -> (r: RequirementSet)
    requires
        spec_req_distinct(entries@),
    ensures
        r.wf(),
        r.spec_entries() == entries@,
{
    let n: usize = entries.len();
    let mut v: Vec<Requirement> = Vec::new();
    let mut i: usize = 0;
    while i < n
        invariant
            n == entries@.len(),
            0 <= i <= n,
            v@.len() == i,
            forall|k: int| 0 <= k < i ==> #[trigger] v@[k] == entries@[k],
        decreases n - i,
    {
        v.push(
            Requirement {
                name: entries[i].name.clone(),
                kind: entries[i].kind,
                location: entries[i].location,
            },
        );
        i += 1;
    }
    proof {
        assert(v@ =~= entries@);
    }
    RequirementSet::from_distinct(v)
}

} // verus!
