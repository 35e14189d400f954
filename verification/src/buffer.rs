//! Vertex buffer bookkeeping.
//!
//! A vertex buffer owns a backend buffer handle and an element count.  The
//! backend allocates the handle and receives the uploaded bytes; this
//! module packs vertex records into those bytes, tracks how many records
//! the buffer holds, and validates every partial update against the
//! currently allocated element count before any bytes are sent.

use vstd::prelude::*;

use crate::errors::ConfigurationError;
use crate::layout::{spec_entries_match, VertexLayout};
use crate::record::VertexRecord;

verus! {

/// The packed concatenation of the given records' bytes, first record
/// first.
pub open spec fn spec_packed(records: Seq<VertexRecord>) -> Seq<u8>
    decreases records.len(),
{
    if records.len() == 0 {
        Seq::empty()
    } else {
        spec_packed(records.drop_last()) + records.last().spec_bytes()
    }
}

/// A backend vertex buffer and the element count it was allocated with.
pub struct VertexBuffer {
    handle: u64,
    elems: usize,
}

impl VertexBuffer {
    /// The backend buffer handle.
    pub closed spec fn spec_handle(self) -> u64 {
        self.handle
    }

    /// How many vertex records the buffer currently holds.
    pub closed spec fn spec_len(self) -> nat {
        self.elems as nat
    }

    /// A fresh, empty buffer over a backend handle.
    pub fn new(handle: u64) -> (r: VertexBuffer)
        ensures
            r.spec_handle() == handle,
            r.spec_len() == 0,
    {
        VertexBuffer { handle, elems: 0 }
    }

    /// The backend buffer handle.
    pub fn handle(&self) -> (h: u64)
        ensures
            h == self.spec_handle(),
    {
        self.handle
    }

    /// How many vertex records the buffer currently holds.
    pub fn element_count(&self) -> (n: usize)
        ensures
            n == self.spec_len(),
    {
        self.elems
    }

    /// Records a bulk (re)allocation of the buffer with the given
    /// records, and packs their bytes for upload.
    ///
    /// Fails, changing nothing, when some record is not packed by the
    /// given layout; otherwise the buffer holds `records.len()` elements
    /// and the returned bytes are the records' bytes in order.
    pub fn allocate(&mut self, layout: &VertexLayout, records: &Vec<VertexRecord>) -> (r: Result<
        Vec<u8>,
        ConfigurationError,
    >)
        requires
            layout.wf(),
            forall|i: int| 0 <= i < records@.len() ==> (#[trigger] records@[i]).wf(),
        ensures
            final(self).spec_handle() == old(self).spec_handle(),
            r is Ok <==> forall|i: int|
                0 <= i < records@.len() ==> spec_entries_match(
                    (#[trigger] records@[i]).spec_layout().spec_entries(),
                    layout.spec_entries(),
                ),
            r matches Ok(bytes) ==> {
                &&& final(self).spec_len() == records@.len()
                &&& bytes@ == spec_packed(records@)
            },
            r is Err ==> *final(self) == *old(self),
            r matches Err(ConfigurationError::LayoutMismatch { index }) ==> 0 <= index
                < records@.len() && !spec_entries_match(
                records@[index as int].spec_layout().spec_entries(),
                layout.spec_entries(),
            ),
            r matches Err(e) ==> e matches ConfigurationError::LayoutMismatch { .. },
    {
        let n: usize = records.len();
        let mut bytes: Vec<u8> = Vec::new();
        let mut i: usize = 0;
        while i < n
            invariant
                *self == *old(self),
                n == records@.len(),
                layout.wf(),
                forall|k: int| 0 <= k < records@.len() ==> (#[trigger] records@[k]).wf(),
                0 <= i <= n,
                forall|k: int|
                    0 <= k < i ==> spec_entries_match(
                        (#[trigger] records@[k]).spec_layout().spec_entries(),
                        layout.spec_entries(),
                    ),
                bytes@ == spec_packed(records@.take(i as int)),
            decreases n - i,
        {
            if !records[i].record_layout().entries_match(layout) {
                return Err(ConfigurationError::LayoutMismatch { index: i });
            }
            let rec_bytes = records[i].as_bytes();
            let mut j: usize = 0;
            let m: usize = rec_bytes.len();
            let ghost before = bytes@;
            while j < m
                invariant
                    0 <= j <= m,
                    m == rec_bytes@.len(),
                    bytes@ == before + rec_bytes@.take(j as int),
                decreases m - j,
            {
                bytes.push(rec_bytes[j]);
                proof {
                    assert(bytes@ =~= before + rec_bytes@.take(j + 1));
                }
                j += 1;
            }
            proof {
                assert(rec_bytes@.take(m as int) =~= rec_bytes@);
                assert(records@.take(i + 1).drop_last() =~= records@.take(i as int));
                assert(records@.take(i + 1).last() == records@[i as int]);
                assert(bytes@ =~= spec_packed(records@.take(i + 1)));
            }
            i += 1;
        }
        proof {
            assert(records@.take(n as int) =~= records@);
        }
        self.elems = n;
        Ok(bytes)
    }

    /// Validates a bounded partial update of `len` records starting at
    /// record `start`.
    ///
    /// Fails - reporting the requested range and the allocated count, and
    /// sending nothing - when the target range exceeds the currently
    /// allocated element count.
    pub fn set_slice(&self, start: usize, len: usize) -> (r: Result<(), ConfigurationError>)
        ensures
            r is Ok <==> start + len <= self.spec_len(),
            r matches Err(e) ==> e == (ConfigurationError::UpdateOutOfBounds {
                start,
                len,
                available: self.spec_len() as usize,
            }),
    {
        let fits: bool = match start.checked_add(len) {
            Some(end) => end <= self.elems,
            None => false,
        };
        if fits {
            Ok(())
        } else {
            Err(ConfigurationError::UpdateOutOfBounds { start, len, available: self.elems })
        }
    }
}

} // verus!
