//! Packed vertex records.
//!
//! A vertex record is one packed value of a vertex structure layout: a
//! byte buffer of exactly the layout's total size, with each named field
//! occupying its layout-assigned byte range.  Fields are read and written
//! by name; reordering a record into another field order moves every
//! field's bytes to the offsets of the reordered layout without changing
//! any field's value.

use vstd::prelude::*;

use crate::errors::ConfigurationError;
use crate::layout::{
    VertexLayout, lemma_entry_within_total, lemma_offset_nonneg, lemma_offsets_monotone,
    lemma_total_fits, lemma_wf_facts, spec_contains_name, spec_distinct_names, spec_index_of,
    spec_offset_of_idx, spec_order_ok, spec_reordered, spec_total_size, LayoutEntry,
};

verus! {

/// With distinct names, the index chosen for an entry's own name is that
/// entry's index.
pub proof fn lemma_index_of_entry(entries: Seq<LayoutEntry>, i: int)
    requires
        spec_distinct_names(entries),
        0 <= i < entries.len(),
    ensures
        spec_index_of(entries, entries[i].name@) == i,
{
    assert(spec_contains_name(entries, entries[i].name@));
    let w = spec_index_of(entries, entries[i].name@);
    assert(0 <= w < entries.len() && entries[w].name@ == entries[i].name@);
}

/// The entry of a reordered layout at position `i` is the source entry of
/// the name the order lists at `i`.
pub proof fn lemma_reordered_name(src_entries: Seq<LayoutEntry>, order: Seq<String>, i: int)
    requires
        spec_order_ok(src_entries, order),
        0 <= i < order.len(),
    ensures
        0 <= spec_index_of(src_entries, order[i]@) < src_entries.len(),
        spec_reordered(src_entries, order)[i] == src_entries[spec_index_of(
            src_entries,
            order[i]@,
        )],
        spec_reordered(src_entries, order)[i].name@ == order[i]@,
{
    assert(spec_contains_name(src_entries, order[i]@));
    let w = spec_index_of(src_entries, order[i]@);
    assert(0 <= w < src_entries.len() && src_entries[w].name@ == order[i]@);
}

/// One step of repacking a record into a new field order: once the bytes
/// of the source field named at position `k` have been written into the
/// reordered record's entry `k`, every field up to and including `k`
/// carries the bytes of the source field of the same name.
proof fn lemma_reorder_step(
    before: VertexRecord,
    after: VertexRecord,
    src: VertexRecord,
    order: Seq<String>,
    k: int,
    m: int,
)
    requires
        src.wf(),
        before.wf(),
        after.wf(),
        after.spec_layout() == before.spec_layout(),
        after.spec_bytes().len() == before.spec_bytes().len(),
        before.spec_layout().spec_entries() == spec_reordered(
            src.spec_layout().spec_entries(),
            order,
        ),
        spec_order_ok(src.spec_layout().spec_entries(), order),
        0 <= m <= k < order.len(),
        m < k ==> before.spec_field(order[m]@) == src.spec_field(order[m]@),
        ({
            let entries = before.spec_layout().spec_entries();
            let off = spec_offset_of_idx(entries, k);
            let sz = entries[k].format.spec_size() as int;
            &&& forall|t: int|
                off <= t < off + sz ==> after.spec_bytes()[t] == src.spec_field(order[k]@)[t - off]
            &&& forall|t: int|
                0 <= t < before.spec_bytes().len() && !(off <= t < off + sz)
                    ==> after.spec_bytes()[t] == before.spec_bytes()[t]
        }),
    ensures
        after.spec_field(order[m]@) == src.spec_field(order[m]@),
{
    let src_entries = src.spec_layout().spec_entries();
    let entries = before.spec_layout().spec_entries();
    assert forall|i: int, j: int| 0 <= i < j < entries.len() implies entries[i].name@
        != entries[j].name@ by {
        lemma_reordered_name(src_entries, order, i);
        lemma_reordered_name(src_entries, order, j);
    }
    lemma_reordered_name(src_entries, order, m);
    lemma_reordered_name(src_entries, order, k);
    lemma_index_of_entry(entries, m);
    lemma_entry_within_total(entries, m);
    lemma_offset_nonneg(entries, m);
    let w = spec_index_of(src_entries, order[k]@);
    lemma_offset_nonneg(src_entries, w);
    lemma_entry_within_total(src_entries, w);
    if m < k {
        lemma_offsets_monotone(entries, m, k);
        assert(after.spec_field_at(m) =~= before.spec_field_at(m));
    } else {
        assert(after.spec_field_at(k) =~= src.spec_field(order[k]@));
    }
}

/// One packed vertex value of a fixed layout.
#[derive(Clone, Debug)]
pub struct VertexRecord {
    layout: VertexLayout,
    bytes: Vec<u8>,
}

impl VertexRecord {
    /// The layout this record is packed by.
    pub closed spec fn spec_layout(self) -> VertexLayout {
        self.layout
    }

    /// The packed bytes of the whole record.
    pub closed spec fn spec_bytes(self) -> Seq<u8> {
        self.bytes@
    }

    /// A record is well formed when its layout is and its byte buffer has
    /// exactly the layout's total size.
    pub open spec fn wf(self) -> bool {
        &&& self.spec_layout().wf()
        &&& self.spec_bytes().len() == spec_total_size(self.spec_layout().spec_entries())
    }

    /// The bytes of the field at entry index `i`.
    pub open spec fn spec_field_at(self, i: int) -> Seq<u8> {
        let entries = self.spec_layout().spec_entries();
        self.spec_bytes().subrange(
            spec_offset_of_idx(entries, i),
            spec_offset_of_idx(entries, i) + entries[i].format.spec_size(),
        )
    }

    /// The bytes of the field carrying the given name.
    pub open spec fn spec_field(self, name: Seq<char>) -> Seq<u8> {
        self.spec_field_at(spec_index_of(self.spec_layout().spec_entries(), name))
    }

    /// A fresh, zero-filled record of the given layout.
    pub fn new(layout: VertexLayout) -> (r: VertexRecord)
        requires
            layout.wf(),
        ensures
            r.wf(),
            r.spec_layout() == layout,
            forall|t: int| 0 <= t < r.spec_bytes().len() ==> r.spec_bytes()[t] == 0u8,
    {
        let total: usize = layout.total_size();
        let mut bytes: Vec<u8> = Vec::new();
        while bytes.len() < total
            invariant
                bytes@.len() <= total,
                forall|t: int| 0 <= t < bytes@.len() ==> bytes@[t] == 0u8,
            decreases total - bytes@.len(),
        {
            bytes.push(0u8);
        }
        VertexRecord { layout, bytes }
    }

    /// The layout this record is packed by.
    pub fn record_layout(&self) -> (r: &VertexLayout)
        ensures
            *r == self.spec_layout(),
    {
        &self.layout
    }

    /// The packed bytes of the whole record, ready for upload into a
    /// vertex buffer.
    pub fn as_bytes(&self) -> (r: &Vec<u8>)
        ensures
            r@ == self.spec_bytes(),
    {
        &self.bytes
    }

    /// Writes the named field's bytes.
    ///
    /// Fails when the layout has no field of that name or when `data` is
    /// not exactly the field's size; a failed call leaves the record
    /// unchanged.
    pub fn set_field(&mut self, name: &str, data: &[u8]) -> (r: Result<(), ConfigurationError>)
        requires
            old(self).wf(),
        ensures
            final(self).wf(),
            final(self).spec_layout() == old(self).spec_layout(),
            final(self).spec_bytes().len() == old(self).spec_bytes().len(),
            r is Ok <==> {
                let entries = old(self).spec_layout().spec_entries();
                &&& spec_contains_name(entries, name@)
                &&& data@.len() == entries[spec_index_of(entries, name@)].format.spec_size()
            },
            r is Ok ==> {
                let entries = old(self).spec_layout().spec_entries();
                let i = spec_index_of(entries, name@);
                let off = spec_offset_of_idx(entries, i);
                let sz = entries[i].format.spec_size() as int;
                &&& forall|t: int|
                    off <= t < off + sz ==> final(self).spec_bytes()[t] == data@[t - off]
                &&& forall|t: int|
                    0 <= t < old(self).spec_bytes().len() && !(off <= t < off + sz)
                        ==> final(self).spec_bytes()[t] == old(self).spec_bytes()[t]
            },
            r is Err ==> final(self).spec_bytes() == old(self).spec_bytes(),
            r matches Err(ConfigurationError::UnknownAttribute { name: n }) ==> n@ == name@
                && !spec_contains_name(old(self).spec_layout().spec_entries(), name@),
            r matches Err(e) ==> (e matches ConfigurationError::UnknownAttribute { .. }) || (
            e matches ConfigurationError::FieldSize { .. }),
    {
        let off: usize = match self.layout.offset_of(name) {
            Some(o) => o,
            None => {
                return Err(
                    ConfigurationError::UnknownAttribute { name: String::from_str(name) },
                );
            },
        };
        let fmt = match self.layout.format_of(name) {
            Some(f) => f,
            None => {
                proof {
                    assert(false);
                }
                return Err(
                    ConfigurationError::UnknownAttribute { name: String::from_str(name) },
                );
            },
        };
        let sz: usize = fmt.size() as usize;
        if data.len() != sz {
            return Err(
                ConfigurationError::FieldSize {
                    name: String::from_str(name),
                    expected: sz,
                    got: data.len(),
                },
            );
        }
        let ghost entries = self.layout.spec_entries();
        let ghost fidx = spec_index_of(entries, name@);
        proof {
            lemma_entry_within_total(entries, fidx);
            lemma_total_fits(self.layout);
        }
        let mut j: usize = 0;
        while j < sz
            invariant
                0 <= j <= sz,
                off + sz <= usize::MAX,
                self.layout.wf(),
                self.layout == old(self).spec_layout(),
                entries == self.layout.spec_entries(),
                fidx == spec_index_of(entries, name@),
                off == spec_offset_of_idx(entries, fidx),
                sz == entries[fidx].format.spec_size(),
                data@.len() == sz,
                off + sz <= self.bytes@.len(),
                self.bytes@.len() == old(self).spec_bytes().len(),
                self.bytes@.len() == spec_total_size(entries),
                forall|t: int| off <= t < off + j ==> self.bytes@[t] == data@[t - off],
                forall|t: int|
                    0 <= t < self.bytes@.len() && !(off <= t < off + j) ==> self.bytes@[t] == old(
                        self,
                    ).spec_bytes()[t],
            decreases sz - j,
        {
            self.bytes[off + j] = data[j];
            j += 1;
        }
        Ok(())
    }

    /// Reads the named field's bytes, or `None` when the layout has no
    /// field of that name.
    pub fn get_field(&self, name: &str) -> (r: Option<Vec<u8>>)
        requires
            self.wf(),
        ensures
            r is Some <==> spec_contains_name(self.spec_layout().spec_entries(), name@),
            r matches Some(v) ==> v@ == self.spec_field(name@),
    {
        let off: usize = match self.layout.offset_of(name) {
            Some(o) => o,
            None => {
                return None;
            },
        };
        let fmt = match self.layout.format_of(name) {
            Some(f) => f,
            None => {
                proof {
                    assert(false);
                }
                return None;
            },
        };
        let sz: usize = fmt.size() as usize;
        let ghost entries = self.layout.spec_entries();
        let ghost fidx = spec_index_of(entries, name@);
        proof {
            lemma_entry_within_total(entries, fidx);
            lemma_total_fits(self.layout);
        }
        let mut v: Vec<u8> = Vec::new();
        let mut j: usize = 0;
        while j < sz
            invariant
                0 <= j <= sz,
                off + sz <= usize::MAX,
                off + sz <= self.bytes@.len(),
                v@.len() == j,
                forall|t: int| 0 <= t < j ==> v@[t] == self.bytes@[off + t],
            decreases sz - j,
        {
            v.push(self.bytes[off + j]);
            j += 1;
        }
        proof {
            assert(v@ =~= self.spec_field(name@));
        }
        Some(v)
    }

    /// Repacks this record into the given field order.
    ///
    /// The reordered record is byte-identical to one built directly in
    /// that order: every named field carries the same bytes as before.
    /// Fails exactly as [`VertexLayout::reorder`] does, leaving nothing
    /// allocated.
    #[verifier::rlimit(60)]
    pub fn reorder(&self, order: &Vec<String>) -> (r: Result<VertexRecord, ConfigurationError>)
        requires
            self.wf(),
        ensures
            r is Ok <==> spec_order_ok(self.spec_layout().spec_entries(), order@)
                && spec_total_size(
                spec_reordered(self.spec_layout().spec_entries(), order@),
            ) <= usize::MAX,
            r matches Ok(rec) ==> {
                &&& rec.wf()
                &&& rec.spec_layout().spec_entries() == spec_reordered(
                    self.spec_layout().spec_entries(),
                    order@,
                )
                &&& forall|m: int|
                    0 <= m < order@.len() ==> rec.spec_field((#[trigger] order@[m])@)
                        == self.spec_field(order@[m]@)
            },
    {
        let l2 = match self.layout.reorder(order) {
            Ok(l) => l,
            Err(e) => {
                return Err(e);
            },
        };
        let ghost old_entries = self.spec_layout().spec_entries();
        let ghost new_entries = l2.spec_entries();
        let mut out = VertexRecord::new(l2);
        let n: usize = order.len();
        let mut k: usize = 0;
        while k < n
            invariant
                self.wf(),
                out.wf(),
                n == order@.len(),
                0 <= k <= n,
                old_entries == self.spec_layout().spec_entries(),
                new_entries == out.spec_layout().spec_entries(),
                new_entries == spec_reordered(old_entries, order@),
                spec_order_ok(old_entries, order@),
                forall|m: int|
                    0 <= m < k ==> out.spec_field((#[trigger] order@[m])@) == self.spec_field(
                        order@[m]@,
                    ),
            decreases n - k,
        {
            proof {
                // The reordered layout's entry k is the old entry of the
                // same name, so both lookups land on compatible fields.
                lemma_wf_facts(out.spec_layout());
                lemma_reordered_name(old_entries, order@, k as int);
                lemma_index_of_entry(new_entries, k as int);
                let w = spec_index_of(old_entries, order@[k as int]@);
                lemma_offset_nonneg(old_entries, w);
                lemma_entry_within_total(old_entries, w);
            }
            let data = match self.get_field(order[k].as_str()) {
                Some(d) => d,
                None => {
                    proof {
                        assert(false);
                    }
                    return Err(ConfigurationError::RecordTooLarge);
                },
            };
            let ghost out_before = out;
            match out.set_field(order[k].as_str(), data.as_slice()) {
                Ok(()) => (),
                Err(_) => {
                    proof {
                        assert(false);
                    }
                    return Err(ConfigurationError::RecordTooLarge);
                },
            }
            proof {
                assert forall|m: int|
                    0 <= m < k + 1 implies out.spec_field((#[trigger] order@[m])@)
                    == self.spec_field(order@[m]@) by {
                    lemma_reorder_step(out_before, out, *self, order@, k as int, m);
                }
            }
            k += 1;
        }
        Ok(out)
    }
}

} // verus!
