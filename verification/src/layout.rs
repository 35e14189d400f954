//! Packed vertex structure layouts.
//!
//! A vertex structure layout takes an ordered list of (attribute name,
//! storage format) entries and computes a packed, backend-independent byte
//! layout: each entry's byte offset and the total record size.  Offsets are
//! assigned left to right; each entry is placed at the first byte at or
//! after the end of the previous entry that is aligned to the natural size
//! of the entry's scalar representation.

use vstd::prelude::*;
use vstd::string::StringExecFns;

use crate::errors::ConfigurationError;
use crate::format::StorageFormat;
use crate::glsl::{GlslKind, spec_is_attribute_kind};

verus! {

/// One named attribute of a vertex record together with its host storage
/// format.
#[derive(Clone, Debug)]
pub struct LayoutEntry {
    /// The attribute's name; unique within one layout.
    pub name: String,
    /// How the attribute's data is stored in host memory.
    pub format: StorageFormat,
}

/// The first multiple of `a` at or after `o`.
pub open spec fn spec_align_up(o: int, a: int) -> int {
    if o % a == 0 {
        o
    } else {
        o + a - o % a
    }
}

/// Byte offset of entry `i`: entry 0 sits at offset 0, and each later
/// entry sits at the end of its predecessor, rounded up to its own
/// alignment.
pub open spec fn spec_offset_of_idx(entries: Seq<LayoutEntry>, i: int) -> int
    decreases i,
{
    if i <= 0 {
        0
    } else {
        spec_align_up(
            spec_offset_of_idx(entries, i - 1) + entries[i - 1].format.spec_size(),
            entries[i].format.spec_align() as int,
        )
    }
}

/// Total size in bytes of one packed record: the end of the last entry.
pub open spec fn spec_total_size(entries: Seq<LayoutEntry>) -> int {
    if entries.len() == 0 {
        0
    } else {
        spec_offset_of_idx(entries, entries.len() - 1) + entries[entries.len()
            - 1].format.spec_size()
    }
}

/// No two entries carry the same attribute name.
pub open spec fn spec_distinct_names(entries: Seq<LayoutEntry>) -> bool {
    forall|i: int, j: int|
        0 <= i < j < entries.len() ==> entries[i].name@ != entries[j].name@
}

/// Every entry's kind may tag a vertex attribute.
pub open spec fn spec_attribute_kinds_ok(entries: Seq<LayoutEntry>) -> bool {
    forall|i: int| 0 <= i < entries.len() ==> spec_is_attribute_kind(#[trigger] entries[i].format.kind)
}

/// Whether some entry carries the given name.
pub open spec fn spec_contains_name(entries: Seq<LayoutEntry>, name: Seq<char>) -> bool {
    exists|i: int| 0 <= i < entries.len() && #[trigger] entries[i].name@ == name
}

/// The index of the entry carrying the given name; meaningful only when
/// the name is present and names are distinct.
pub open spec fn spec_index_of(entries: Seq<LayoutEntry>, name: Seq<char>) -> int {
    choose|i: int| 0 <= i < entries.len() && #[trigger] entries[i].name@ == name
}

/// Rounding up to an alignment of 1, 2 or 4 moves an offset forward by
/// less than the alignment and lands on a multiple of it.
pub proof fn lemma_align_up(o: int, a: int)
    requires
        o >= 0,
        a == 1 || a == 2 || a == 4,
    ensures
        o <= spec_align_up(o, a) < o + a,
        spec_align_up(o, a) % a == 0,
{
}

/// Each entry ends no later than the next entry begins, so entries occupy
/// disjoint, left-to-right byte ranges.
pub proof fn lemma_offsets_monotone(entries: Seq<LayoutEntry>, i: int, j: int)
    requires
        0 <= i < j < entries.len(),
    ensures
        spec_offset_of_idx(entries, i) + entries[i].format.spec_size() <= spec_offset_of_idx(
            entries,
            j,
        ),
    decreases j - i,
{
    let a = entries[j].format.spec_align() as int;
    assert(a == 1 || a == 2 || a == 4);
    let prev_end = spec_offset_of_idx(entries, j - 1) + entries[j - 1].format.spec_size();
    lemma_offset_nonneg(entries, j - 1);
    lemma_align_up(prev_end, a);
    if i < j - 1 {
        lemma_offsets_monotone(entries, i, j - 1);
    }
}

/// Every entry offset is non-negative.
pub proof fn lemma_offset_nonneg(entries: Seq<LayoutEntry>, i: int)
    requires
        i < entries.len(),
    ensures
        spec_offset_of_idx(entries, i) >= 0,
    decreases i,
{
    if i > 0 {
        let a = entries[i].format.spec_align() as int;
        assert(a == 1 || a == 2 || a == 4);
        lemma_offset_nonneg(entries, i - 1);
        lemma_align_up(
            spec_offset_of_idx(entries, i - 1) + entries[i - 1].format.spec_size(),
            a,
        );
    }
}

/// The end of every entry is at most the total record size.
pub proof fn lemma_entry_within_total(entries: Seq<LayoutEntry>, i: int)
    requires
        0 <= i < entries.len(),
    ensures
        spec_offset_of_idx(entries, i) + entries[i].format.spec_size() <= spec_total_size(entries),
{
    if i < entries.len() - 1 {
        lemma_offsets_monotone(entries, i, entries.len() - 1);
    }
}

/// Well-formedness of a layout carries distinct names and attribute-only
/// kinds for its entries.
pub proof fn lemma_wf_facts(l: VertexLayout)
    requires
        l.wf(),
    ensures
        spec_distinct_names(l.spec_entries()),
        spec_attribute_kinds_ok(l.spec_entries()),
{
}

/// A well-formed layout's total size fits the machine word, since it is
/// cached in a `usize` field.
pub proof fn lemma_total_fits(l: VertexLayout)
    requires
        l.wf(),
    ensures
        0 <= spec_total_size(l.spec_entries()) <= usize::MAX,
{
    if l.spec_entries().len() > 0 {
        lemma_offset_nonneg(l.spec_entries(), l.spec_entries().len() - 1);
    }
}

/// A packed, immutable byte layout for one vertex record type.
#[derive(Clone, Debug)]
pub struct VertexLayout {
    entries: Vec<LayoutEntry>,
    offsets: Vec<usize>,
    total: usize,
}

impl VertexLayout {
    /// The ordered entries this layout was built from.
    pub closed spec fn spec_entries(self) -> Seq<LayoutEntry> {
        self.entries@
    }

    /// A layout is well formed when its kinds are attribute kinds, its
    /// names are distinct, and its cached offsets and total match the
    /// packing rule.
    pub closed spec fn wf(self) -> bool {
        &&& spec_attribute_kinds_ok(self.entries@)
        &&& spec_distinct_names(self.entries@)
        &&& self.offsets@.len() == self.entries@.len()
        &&& forall|i: int|
            0 <= i < self.entries@.len() ==> self.offsets@[i] == spec_offset_of_idx(
                self.entries@,
                i,
            )
        &&& self.total == spec_total_size(self.entries@)
    }

    /// Computes the packed layout of the given entries.
    ///
    /// Fails when an entry's kind cannot be a vertex attribute, when two
    /// entries carry the same name, or when the packed record would not
    /// fit in host memory.
    pub fn new(entries: Vec<LayoutEntry>) -> (r: Result<VertexLayout, ConfigurationError>)
        ensures
            r is Ok <==> {
                &&& spec_attribute_kinds_ok(entries@)
                &&& spec_distinct_names(entries@)
                &&& spec_total_size(entries@) <= usize::MAX
            },
            r matches Ok(l) ==> l.wf() && l.spec_entries() == entries@,
            r matches Err(ConfigurationError::AttributeKindRequired { kind }) ==> exists|i: int|
                0 <= i < entries@.len() && (#[trigger] entries@[i].format).kind == kind
                    && !spec_is_attribute_kind(kind),
            r matches Err(ConfigurationError::DuplicateAttribute { name }) ==> exists|i: int, j: int|
                #![trigger entries@[i].name, entries@[j].name]
                0 <= i < j < entries@.len() && entries@[i].name@ == entries@[j].name@
                    && entries@[j].name@ == name@,
            r matches Err(e) ==> (e matches ConfigurationError::AttributeKindRequired { .. })
                || (e matches ConfigurationError::DuplicateAttribute { .. }) || (
            e matches ConfigurationError::RecordTooLarge),
    {
        let n: usize = entries.len();
        let mut offsets: Vec<usize> = Vec::new();
        let mut end: usize = 0;
        let mut i: usize = 0;
        while i < n
            invariant
                n == entries@.len(),
                0 <= i <= n,
                offsets@.len() == i,
                forall|k: int|
                    0 <= k < i ==> spec_is_attribute_kind(
                        (#[trigger] entries@[k].format).kind,
                    ),
                forall|k: int, j: int| 0 <= k < j < i ==> entries@[k].name@ != entries@[j].name@,
                forall|k: int| 0 <= k < i ==> self_offsets_match(offsets@, entries@, k),
                i == 0 ==> end == 0,
                i > 0 ==> end == spec_offset_of_idx(entries@, i - 1) + entries@[
                    i - 1
                ].format.spec_size(),
            decreases n - i,
        {
            let e = &entries[i];
            if !e.format.kind.is_attribute_kind() {
                return Err(ConfigurationError::AttributeKindRequired { kind: e.format.kind });
            }
            let mut j: usize = 0;
            while j < i
                invariant
                    0 <= j <= i < n,
                    n == entries@.len(),
                    forall|k: int| 0 <= k < j ==> entries@[k].name@ != entries@[i as int].name@,
                decreases i - j,
            {
                if entries[j].name == entries[i].name {
                    return Err(
                        ConfigurationError::DuplicateAttribute { name: entries[i].name.clone() },
                    );
                }
                j += 1;
            }
            let a: usize = e.format.align() as usize;
            let rem: usize = end % a;
            let pad: usize = if rem == 0 { 0 } else { a - rem };
            proof {
                lemma_align_up(end as int, a as int);
                if i > 0 {
                    lemma_offset_nonneg(entries@, i - 1);
                }
            }
            let off = match end.checked_add(pad) {
                Some(v) => v,
                None => {
                    proof {
                        lemma_too_large(entries@, i as int, end as int + pad);
                    }
                    return Err(ConfigurationError::RecordTooLarge);
                },
            };
            assert(off == spec_offset_of_idx(entries@, i as int));
            let sz: usize = e.format.size() as usize;
            let new_end = match off.checked_add(sz) {
                Some(v) => v,
                None => {
                    proof {
                        lemma_too_large(entries@, i as int, off as int + sz);
                    }
                    return Err(ConfigurationError::RecordTooLarge);
                },
            };
            let ghost offsets_before = offsets@;
            offsets.push(off);
            proof {
                assert forall|k: int| 0 <= k < i + 1 implies self_offsets_match(
                    offsets@,
                    entries@,
                    k,
                ) by {
                    if k < i {
                        assert(self_offsets_match(offsets_before, entries@, k));
                        assert(offsets@[k] == offsets_before[k]);
                    } else {
                        assert(offsets@[k] == off);
                    }
                }
            }
            end = new_end;
            i += 1;
        }
        proof {
            assert forall|k: int| 0 <= k < n implies offsets@[k] == spec_offset_of_idx(
                entries@,
                k,
            ) by {
                assert(self_offsets_match(offsets@, entries@, k));
            }
            if n > 0 {
                assert(end == spec_total_size(entries@));
            }
        }
        Ok(VertexLayout { entries, offsets, total: end })
    }

    /// Number of entries.
    pub fn len(&self) -> (n: usize)
        ensures
            n == self.spec_entries().len(),
    {
        self.entries.len()
    }

    /// Total size in bytes of one packed record; the stride between
    /// consecutive records in a vertex buffer.
    pub fn total_size(&self) -> (n: usize)
        requires
            self.wf(),
        ensures
            n == spec_total_size(self.spec_entries()),
    {
        self.total
    }

    /// Byte offset of the named attribute within one packed record, or
    /// `None` when the layout has no entry of that name.
    pub fn offset_of(&self, name: &str) -> (r: Option<usize>)
        requires
            self.wf(),
        ensures
            r is Some <==> spec_contains_name(self.spec_entries(), name@),
            r matches Some(off) ==> off == spec_offset_of_idx(
                self.spec_entries(),
                spec_index_of(self.spec_entries(), name@),
            ),
    {
        match self.position_of(name) {
            Some(i) => Some(self.offsets[i]),
            None => None,
        }
    }

    /// The storage format of the named attribute, or `None` when the
    /// layout has no entry of that name.
    pub fn format_of(&self, name: &str) -> (r: Option<StorageFormat>)
        requires
            self.wf(),
        ensures
            r is Some <==> spec_contains_name(self.spec_entries(), name@),
            r matches Some(f) ==> f == self.spec_entries()[spec_index_of(
                self.spec_entries(),
                name@,
            )].format,
    {
        match self.position_of(name) {
            Some(i) => Some(self.entries[i].format),
            None => None,
        }
    }

    /// Index of the named entry, or `None` when absent.
    fn position_of(&self, name: &str) -> (r: Option<usize>)
        requires
            spec_distinct_names(self.spec_entries()),
        ensures
            r is Some <==> spec_contains_name(self.spec_entries(), name@),
            r matches Some(i) ==> i == spec_index_of(self.spec_entries(), name@)
                && i < self.spec_entries().len() && self.spec_entries()[i as int].name@ == name@,
    {
        let key = String::from_str(name);
        let n: usize = self.entries.len();
        let mut i: usize = 0;
        while i < n
            invariant
                n == self.entries@.len(),
                key@ == name@,
                spec_distinct_names(self.entries@),
                0 <= i <= n,
                forall|k: int| 0 <= k < i ==> (#[trigger] self.entries@[k].name)@ != name@,
            decreases n - i,
        {
            if self.entries[i].name == key {
                proof {
                    let w = spec_index_of(self.entries@, name@);
                    assert(0 <= w < self.entries@.len() && self.entries@[w].name@ == name@);
                }
                return Some(i);
            }
            i += 1;
        }
        None
    }
}

/// Some entry carries the given name with the given kind.
pub open spec fn spec_has_name_kind(s: Seq<LayoutEntry>, name: Seq<char>, kind: GlslKind) -> bool {
    exists|i: int|
        0 <= i < s.len() && (#[trigger] s[i]).name@ == name && s[i].format.kind == kind
}

/// The two entry lists declare the same (name, kind) pairs, in whatever
/// order.
pub open spec fn spec_same_name_kinds(a: Seq<LayoutEntry>, b: Seq<LayoutEntry>) -> bool {
    &&& forall|i: int|
        0 <= i < a.len() ==> spec_has_name_kind(b, (#[trigger] a[i]).name@, a[i].format.kind)
    &&& forall|j: int|
        0 <= j < b.len() ==> spec_has_name_kind(a, (#[trigger] b[j]).name@, b[j].format.kind)
}

/// Layouts are interchangeable for attachment exactly when they declare
/// the same (name, kind) pairs: entry order affects only memory packing.
/// Under two such layouts, any name is present in one exactly when it is
/// present in the other, and with the same kind - so a claim checked
/// against either layout succeeds or fails identically.
pub proof fn lemma_attachment_interchangeable(
    a: Seq<LayoutEntry>,
    b: Seq<LayoutEntry>,
    name: Seq<char>,
)
    requires
        spec_distinct_names(a),
        spec_distinct_names(b),
        spec_same_name_kinds(a, b),
    ensures
        spec_contains_name(a, name) == spec_contains_name(b, name),
        spec_contains_name(a, name) ==> a[spec_index_of(a, name)].format.kind == b[spec_index_of(
            b,
            name,
        )].format.kind,
{
    if spec_contains_name(a, name) {
        let i = spec_index_of(a, name);
        assert(0 <= i < a.len() && a[i].name@ == name);
        assert(spec_has_name_kind(b, name, a[i].format.kind));
        let j = choose|j: int|
            0 <= j < b.len() && (#[trigger] b[j]).name@ == name && b[j].format.kind
                == a[i].format.kind;
        assert(spec_contains_name(b, name));
        let w = spec_index_of(b, name);
        assert(0 <= w < b.len() && b[w].name@ == name);
        assert(w == j);
    }
    if spec_contains_name(b, name) {
        let j = spec_index_of(b, name);
        assert(0 <= j < b.len() && b[j].name@ == name);
        assert(spec_has_name_kind(a, name, b[j].format.kind));
    }
}

/// Two entry lists describe the same packed record type: same length,
/// and entry for entry the same name and storage format.
pub open spec fn spec_entries_match(a: Seq<LayoutEntry>, b: Seq<LayoutEntry>) -> bool {
    &&& a.len() == b.len()
    &&& forall|i: int|
        0 <= i < a.len() ==> (#[trigger] a[i]).name@ == b[i].name@ && a[i].format == b[i].format
}

impl VertexLayout {
    /// Whether this layout and `other` hold the same entries: the same
    /// names with the same formats, in the same order.
    pub fn entries_match(&self, other: &VertexLayout) -> (r: bool)
        ensures
            r == spec_entries_match(self.spec_entries(), other.spec_entries()),
    {
        let n: usize = self.entries.len();
        if other.entries.len() != n {
            return false;
        }
        let mut i: usize = 0;
        while i < n
            invariant
                n == self.entries@.len(),
                n == other.entries@.len(),
                0 <= i <= n,
                forall|k: int|
                    0 <= k < i ==> (#[trigger] self.entries@[k]).name@ == other.entries@[k].name@
                        && self.entries@[k].format == other.entries@[k].format,
            decreases n - i,
        {
            if self.entries[i].name != other.entries[i].name {
                return false;
            }
            if self.entries[i].format != other.entries[i].format {
                return false;
            }
            i += 1;
        }
        true
    }
}

/// A reordering request is valid when it names each attribute of the
/// layout exactly once: same length, every named attribute present, no
/// name repeated.
pub open spec fn spec_order_ok(entries: Seq<LayoutEntry>, order: Seq<String>) -> bool {
    &&& order.len() == entries.len()
    &&& forall|k: int| 0 <= k < order.len() ==> spec_contains_name(entries, (#[trigger] order[k])@)
    &&& forall|k: int, m: int| 0 <= k < m < order.len() ==> order[k]@ != order[m]@
}

/// The entries of `entries` rearranged into the order given by `order`.
pub open spec fn spec_reordered(entries: Seq<LayoutEntry>, order: Seq<String>) -> Seq<
    LayoutEntry,
> {
    Seq::new(order.len(), |k: int| entries[spec_index_of(entries, order[k]@)])
}

impl VertexLayout {
    /// Recomputes this layout with its entries rearranged into the given
    /// name order.  Order affects only memory packing: the reordered
    /// layout carries the same (name, format) entries.
    ///
    /// Fails when `order` does not name each attribute of this layout
    /// exactly once, or when the reordered record would not fit in host
    /// memory.
    pub fn reorder(&self, order: &Vec<String>) -> (r: Result<VertexLayout, ConfigurationError>)
        requires
            self.wf(),
        ensures
            r is Ok <==> spec_order_ok(self.spec_entries(), order@) && spec_total_size(
                spec_reordered(self.spec_entries(), order@),
            ) <= usize::MAX,
            r matches Ok(l) ==> l.wf() && l.spec_entries() == spec_reordered(
                self.spec_entries(),
                order@,
            ),
            r matches Err(ConfigurationError::IncompleteOrder) ==> order@.len()
                != self.spec_entries().len(),
            r matches Err(ConfigurationError::UnknownAttribute { name }) ==> exists|k: int|
                0 <= k < order@.len() && (#[trigger] order@[k])@ == name@ && !spec_contains_name(
                    self.spec_entries(),
                    name@,
                ),
            r matches Err(ConfigurationError::DuplicateAttribute { name }) ==> exists|k: int, m: int|
                #![trigger order@[k], order@[m]]
                0 <= k < m < order@.len() && order@[k]@ == order@[m]@ && order@[m]@ == name@,
            r matches Err(e) ==> (e matches ConfigurationError::IncompleteOrder) || (
            e matches ConfigurationError::UnknownAttribute { .. }) || (
            e matches ConfigurationError::DuplicateAttribute { .. }) || (
            e matches ConfigurationError::RecordTooLarge),
    {
        let n: usize = self.entries.len();
        if order.len() != n {
            return Err(ConfigurationError::IncompleteOrder);
        }
        let mut picked: Vec<LayoutEntry> = Vec::new();
        let mut k: usize = 0;
        while k < n
            invariant
                self.wf(),
                n == self.entries@.len(),
                order@.len() == n,
                0 <= k <= n,
                picked@.len() == k,
                forall|m: int|
                    0 <= m < k ==> spec_contains_name(self.entries@, (#[trigger] order@[m])@),
                forall|m: int, t: int| 0 <= m < t < k ==> order@[m]@ != order@[t]@,
                forall|m: int|
                    0 <= m < k ==> #[trigger] picked@[m] == self.entries@[spec_index_of(
                        self.entries@,
                        order@[m]@,
                    )],
            decreases n - k,
        {
            let mut m: usize = 0;
            while m < k
                invariant
                    0 <= m <= k < n,
                    order@.len() == n,
                    forall|t: int| 0 <= t < m ==> order@[t]@ != order@[k as int]@,
                decreases k - m,
            {
                if order[m] == order[k] {
                    return Err(
                        ConfigurationError::DuplicateAttribute { name: order[k].clone() },
                    );
                }
                m += 1;
            }
            match self.position_of(order[k].as_str()) {
                Some(i) => {
                    picked.push(
                        LayoutEntry {
                            name: self.entries[i].name.clone(),
                            format: self.entries[i].format,
                        },
                    );
                    proof {
                        assert(picked@[k as int] == self.entries@[spec_index_of(
                            self.entries@,
                            order@[k as int]@,
                        )]);
                    }
                },
                None => {
                    return Err(
                        ConfigurationError::UnknownAttribute { name: order[k].clone() },
                    );
                },
            }
            k += 1;
        }
        proof {
            assert(picked@ =~= spec_reordered(self.entries@, order@));
            assert forall|i: int, j: int| 0 <= i < j < picked@.len() implies picked@[i].name@
                != picked@[j].name@ by {
                assert(picked@[i].name@ == order@[i]@);
                assert(picked@[j].name@ == order@[j]@);
            }
            assert forall|i: int|
                0 <= i < picked@.len() implies spec_is_attribute_kind(
                #[trigger] picked@[i].format.kind,
            ) by {
                let w = spec_index_of(self.entries@, order@[i]@);
                assert(spec_contains_name(self.entries@, order@[i]@));
                assert(0 <= w < self.entries@.len() && self.entries@[w].name@ == order@[i]@);
                assert(spec_is_attribute_kind(self.entries@[w].format.kind));
            }
        }
        let ghost target = spec_reordered(self.entries@, order@);
        match VertexLayout::new(picked) {
            Ok(l) => Ok(l),
            Err(e) => {
                proof {
                    assert(e matches ConfigurationError::RecordTooLarge);
                }
                Err(ConfigurationError::RecordTooLarge)
            },
        }
    }
}

/// Helper predicate tying a cached offset to the packing rule; spelled out
/// so it can serve as a loop-invariant trigger.
pub open spec fn self_offsets_match(
    offsets: Seq<usize>,
    entries: Seq<LayoutEntry>,
    k: int,
) -> bool {
    offsets[k] == spec_offset_of_idx(entries, k)
}

/// When an entry's placement overflows the machine word, the whole record
/// is too large for host memory.
proof fn lemma_too_large(entries: Seq<LayoutEntry>, i: int, candidate: int)
    requires
        0 <= i < entries.len(),
        candidate > usize::MAX,
        candidate <= spec_offset_of_idx(entries, i) + entries[i].format.spec_size(),
    ensures
        spec_total_size(entries) > usize::MAX,
{
    lemma_entry_within_total(entries, i);
}

} // verus!
