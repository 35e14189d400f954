//! Requirement sets.
//!
//! A requirement set holds the not-yet-satisfied named inputs of one draw
//! command: for each name, the declared kind and the backend-resolved
//! location.  Its single operation is to claim one requirement by name and
//! kind, which removes the entry; claiming an absent name, or claiming
//! with the wrong kind, fails and leaves the set unchanged.  A set starts
//! full (one entry per schema input) and must be emptied, claim by claim,
//! before a command can finalize.

use vstd::prelude::*;
use vstd::string::StringExecFns;

use crate::errors::{BindingError, ConfigurationError};
use crate::glsl::GlslKind;

verus! {

/// One outstanding input: its name, declared kind, and backend location.
#[derive(Clone, Debug)]
pub struct Requirement {
    /// The declared input name; unique within one set.
    pub name: String,
    /// The kind a claim must supply.
    pub kind: GlslKind,
    /// The backend-assigned location handle.
    pub location: i32,
}

/// No two requirements carry the same name.
pub open spec fn spec_req_distinct(s: Seq<Requirement>) -> bool {
    forall|i: int, j: int| 0 <= i < j < s.len() ==> s[i].name@ != s[j].name@
}

/// Whether some requirement carries the given name.
pub open spec fn spec_req_contains(s: Seq<Requirement>, name: Seq<char>) -> bool {
    exists|i: int| 0 <= i < s.len() && #[trigger] s[i].name@ == name
}

/// The index of the requirement carrying the given name; meaningful only
/// when the name is present and names are distinct.
pub open spec fn spec_req_index_of(s: Seq<Requirement>, name: Seq<char>) -> int {
    choose|i: int| 0 <= i < s.len() && #[trigger] s[i].name@ == name
}

/// Claiming removes the claimed name: once an entry is taken out of a
/// set with distinct names, no entry of that name remains.
pub proof fn lemma_claim_removes_name(s: Seq<Requirement>, name: Seq<char>)
    requires
        spec_req_distinct(s),
        spec_req_contains(s, name),
    ensures
        !spec_req_contains(s.remove(spec_req_index_of(s, name)), name),
        spec_req_distinct(s.remove(spec_req_index_of(s, name))),
{
    let i = spec_req_index_of(s, name);
    assert(0 <= i < s.len() && s[i].name@ == name);
    let s2 = s.remove(i);
    assert forall|k: int| 0 <= k < s2.len() implies (#[trigger] s2[k].name)@ != name by {
        if k < i {
            assert(s2[k] == s[k]);
        } else {
            assert(s2[k] == s[k + 1]);
        }
    }
}

/// Claims of other names never remove the entry of a different name, nor
/// restore one already claimed: absence of a name survives any claim of
/// another name.
pub proof fn lemma_claim_preserves_absence(s: Seq<Requirement>, other: Seq<char>, name: Seq<char>)
    requires
        !spec_req_contains(s, name),
        spec_req_contains(s, other),
        other != name,
    ensures
        !spec_req_contains(s.remove(spec_req_index_of(s, other)), name),
{
    let i = spec_req_index_of(s, other);
    assert(0 <= i < s.len() && s[i].name@ == other);
    let s2 = s.remove(i);
    assert forall|k: int| 0 <= k < s2.len() implies (#[trigger] s2[k].name)@ != name by {
        if k < i {
            assert(s2[k] == s[k]);
        } else {
            assert(s2[k] == s[k + 1]);
        }
    }
}

/// The set left after claiming each of `names` in turn: a present name
/// is removed, an absent one is a failed claim and changes nothing.
pub open spec fn spec_after_claims(s: Seq<Requirement>, names: Seq<Seq<char>>) -> Seq<Requirement>
    decreases names.len(),
{
    if names.len() == 0 {
        s
    } else {
        let t = spec_after_claims(s, names.drop_last());
        if spec_req_contains(t, names.last()) {
            t.remove(spec_req_index_of(t, names.last()))
        } else {
            t
        }
    }
}

/// Claim-once, under any call order: once a name has been claimed, no
/// sequence of claims of other names brings it back, so a second claim
/// of the same name finds it absent and fails - no matter which other
/// claims come between the two.
pub proof fn lemma_second_claim_fails(s: Seq<Requirement>, name: Seq<char>, others: Seq<Seq<char>>)
    requires
        spec_req_distinct(s),
        spec_req_contains(s, name),
        forall|k: int| 0 <= k < others.len() ==> others[k] != name,
    ensures
        !spec_req_contains(
            spec_after_claims(s.remove(spec_req_index_of(s, name)), others),
            name,
        ),
    decreases others.len(),
{
    lemma_claim_removes_name(s, name);
    let s1 = s.remove(spec_req_index_of(s, name));
    if others.len() == 0 {
    } else {
        lemma_second_claim_fails(s, name, others.drop_last());
        let t = spec_after_claims(s1, others.drop_last());
        if spec_req_contains(t, others.last()) {
            lemma_claim_preserves_absence(t, others.last(), name);
        }
    }
}

/// The not-yet-satisfied inputs of one draw command.
pub struct RequirementSet {
    entries: Vec<Requirement>,
}

impl RequirementSet {
    /// The outstanding requirements, in declaration order.
    pub closed spec fn spec_entries(self) -> Seq<Requirement> {
        self.entries@
    }

    /// A set is well formed when its names are distinct.
    pub open spec fn wf(self) -> bool {
        spec_req_distinct(self.spec_entries())
    }

    /// A full set holding the given schema entries.
    ///
    /// Fails when two entries carry the same name.
    pub fn new(entries: Vec<Requirement>) -> (r: Result<RequirementSet, ConfigurationError>)
        ensures
            r is Ok <==> spec_req_distinct(entries@),
            r matches Ok(s) ==> s.wf() && s.spec_entries() == entries@,
            r matches Err(e) ==> e matches ConfigurationError::DuplicateAttribute { .. },
    {
        let n: usize = entries.len();
        let mut i: usize = 0;
        while i < n
            invariant
                n == entries@.len(),
                0 <= i <= n,
                forall|k: int, j: int| 0 <= k < j < i ==> entries@[k].name@ != entries@[j].name@,
            decreases n - i,
        {
            let mut j: usize = 0;
            while j < i
                invariant
                    0 <= j <= i < n,
                    n == entries@.len(),
                    forall|k: int| 0 <= k < j ==> entries@[k].name@ != entries@[i as int].name@,
                decreases i - j,
            {
                if entries[j].name == entries[i].name {
                    return Err(
                        ConfigurationError::DuplicateAttribute { name: entries[i].name.clone() },
                    );
                }
                j += 1;
            }
            i += 1;
        }
        Ok(RequirementSet { entries })
    }

    /// A full set over entries already known to be distinct.
    pub(crate) fn from_distinct(entries: Vec<Requirement>) -> (r: RequirementSet)
        requires
            spec_req_distinct(entries@),
        ensures
            r.wf(),
            r.spec_entries() == entries@,
    {
        RequirementSet { entries }
    }

    /// How many requirements are still outstanding.
    pub fn len(&self) -> (n: usize)
        ensures
            n == self.spec_entries().len(),
    {
        self.entries.len()
    }

    /// Whether every requirement has been claimed.
    pub fn is_empty(&self) -> (b: bool)
        ensures
            b == (self.spec_entries().len() == 0),
    {
        self.entries.len() == 0
    }

    /// The names still outstanding, in declaration order.
    pub fn names(&self) -> (r: Vec<String>)
        ensures
            r@.len() == self.spec_entries().len(),
            forall|i: int|
                0 <= i < r@.len() ==> (#[trigger] r@[i])@ == self.spec_entries()[i].name@,
    {
        let n: usize = self.entries.len();
        let mut r: Vec<String> = Vec::new();
        let mut i: usize = 0;
        while i < n
            invariant
                n == self.entries@.len(),
                0 <= i <= n,
                r@.len() == i,
                forall|k: int| 0 <= k < i ==> (#[trigger] r@[k])@ == self.entries@[k].name@,
            decreases n - i,
        {
            r.push(self.entries[i].name.clone());
            i += 1;
        }
        r
    }

    /// The declared kind of the named outstanding requirement, or `None`
    /// when no requirement of that name is outstanding.
    pub fn kind_of(&self, name: &str) -> (r: Option<GlslKind>)
        requires
            self.wf(),
        ensures
            r is Some <==> spec_req_contains(self.spec_entries(), name@),
            r matches Some(k) ==> k == self.spec_entries()[spec_req_index_of(
                self.spec_entries(),
                name@,
            )].kind,
    {
        let key = String::from_str(name);
        let n: usize = self.entries.len();
        let mut i: usize = 0;
        while i < n
            invariant
                n == self.entries@.len(),
                key@ == name@,
                self.wf(),
                0 <= i <= n,
                forall|k: int| 0 <= k < i ==> (#[trigger] self.entries@[k].name)@ != name@,
            decreases n - i,
        {
            if self.entries[i].name == key {
                proof {
                    let w = spec_req_index_of(self.entries@, name@);
                    assert(0 <= w < self.entries@.len() && self.entries@[w].name@ == name@);
                    assert(w == i);
                }
                return Some(self.entries[i].kind);
            }
            i += 1;
        }
        None
    }

    /// Claims the requirement of the given name with a value or format of
    /// the given kind, removing it from the set.
    ///
    /// Fails when no requirement of that name is outstanding - it was
    /// never declared or it has already been claimed - or when the kinds
    /// do not match; a failed claim leaves the set unchanged.
    pub fn claim(&mut self, name: &str, kind: GlslKind) -> (r: Result<i32, BindingError>)
        requires
            old(self).wf(),
        ensures
            final(self).wf(),
            r is Ok <==> spec_req_contains(old(self).spec_entries(), name@) && old(
                self,
            ).spec_entries()[spec_req_index_of(old(self).spec_entries(), name@)].kind == kind,
            r matches Ok(loc) ==> {
                let s = old(self).spec_entries();
                let i = spec_req_index_of(s, name@);
                &&& loc == s[i].location
                &&& final(self).spec_entries() == s.remove(i)
                &&& !spec_req_contains(final(self).spec_entries(), name@)
            },
            r is Err ==> *final(self) == *old(self),
            r matches Err(BindingError::UnknownOrClaimed { name: n }) ==> n@ == name@
                && !spec_req_contains(old(self).spec_entries(), name@),
            r matches Err(BindingError::KindMismatch { name: n, required, supplied }) ==> {
                let s = old(self).spec_entries();
                &&& n@ == name@
                &&& spec_req_contains(s, name@)
                &&& required == s[spec_req_index_of(s, name@)].kind
                &&& required != kind
                &&& supplied == kind
            },
            r matches Err(e) ==> (e matches BindingError::UnknownOrClaimed { .. }) || (
            e matches BindingError::KindMismatch { .. }),
    {
        let key = String::from_str(name);
        let n: usize = self.entries.len();
        let mut i: usize = 0;
        while i < n
            invariant
                *self == *old(self),
                n == self.entries@.len(),
                key@ == name@,
                self.wf(),
                0 <= i <= n,
                forall|k: int| 0 <= k < i ==> (#[trigger] self.entries@[k].name)@ != name@,
            decreases n - i,
        {
            if self.entries[i].name == key {
                proof {
                    let w = spec_req_index_of(self.entries@, name@);
                    assert(0 <= w < self.entries@.len() && self.entries@[w].name@ == name@);
                    assert(w == i);
                }
                if self.entries[i].kind != kind {
                    return Err(
                        BindingError::KindMismatch {
                            name: key,
                            required: self.entries[i].kind,
                            supplied: kind,
                        },
                    );
                }
                let loc = self.entries[i].location;
                let ghost before = self.entries@;
                self.entries.remove(i);
                proof {
                    lemma_claim_removes_name(before, name@);
                }
                return Ok(loc);
            }
            i += 1;
        }
        Err(BindingError::UnknownOrClaimed { name: key })
    }
}

} // verus!
