//! The handle codec: a 32-bit opaque reference packing a pool-slot index in
//! its low half and a generation identifier in its high half.
//!
//! Handles are correlated elsewhere in the engine by index only, never by full
//! equality: the observed process itself does not reliably enforce identifier
//! matching when it resolves a handle, and matching by full equality would
//! silently miss valid associations during some in-game transitions.

use vstd::prelude::*;

verus! {

/// The all-ones raw value that denotes "no reference".
pub const INVALID_HANDLE: u32 = 0xFFFFFFFF;

/// A packed pool reference of the observed engine.
#[derive(Clone, Copy, Debug, PartialEq, Eq, Structural)]
pub struct Datum(pub u32);

/// The raw 32-bit value holding `index` in its low half and `id` in its high half.
pub open spec fn spec_compose(index: u16, id: u16) -> u32 {
    ((id as u32) << 16) | (index as u32)
}

/// The slot-index half of a raw handle value.
pub open spec fn spec_index_of(raw: u32) -> u16 {
    (raw & 0xFFFF) as u16
}

/// The generation-identifier half of a raw handle value.
pub open spec fn spec_id_of(raw: u32) -> u16 {
    ((raw >> 16) & 0xFFFF) as u16
}

impl Datum {
    /// The raw 32-bit value of this handle.
    pub open spec fn spec_raw(self) -> u32 {
        self.0
    }

    /// The slot-index half of this handle.
    pub open spec fn spec_index(self) -> u16 {
        spec_index_of(self.0)
    }

    /// The generation-identifier half of this handle.
    pub open spec fn spec_id(self) -> u16 {
        spec_id_of(self.0)
    }

    /// Whether this handle is the "no reference" sentinel.
    pub open spec fn spec_is_invalid(self) -> bool {
        self.0 == INVALID_HANDLE
    }

    /// Packs a slot index and a generation identifier into one handle.
    pub fn from_parts(index: u16, id: u16) -> (r: Datum)
        ensures
            r.spec_raw() == spec_compose(index, id),
            r.spec_index() == index,
            r.spec_id() == id,
    {
        proof {
            lemma_compose_extract(index, id);
        }
        Datum(((id as u32) << 16) | (index as u32))
    }

    /// Wraps a raw 32-bit value read from the observed process.
    pub fn from_raw(handle: u32) -> (r: Datum)
        ensures
            r.spec_raw() == handle,
    {
        Datum(handle)
    }

    /// The slot-index half.
    pub fn get_index(&self) -> (r: u16)
        ensures
            r == self.spec_index(),
    {
        let raw: u32 = self.0;
        let lower_word: u32 = raw & 0xFFFF;
        proof {
            assert(raw & 0xFFFF <= 0xFFFF) by (bit_vector);
        }
        lower_word as u16
    }

    /// The generation-identifier half.
    pub fn get_id(&self) -> (r: u16)
        ensures
            r == self.spec_id(),
    {
        let raw: u32 = self.0;
        let upper_word: u32 = (raw >> 16) & 0xFFFF;
        proof {
            assert((raw >> 16) & 0xFFFF <= 0xFFFF) by (bit_vector);
        }
        upper_word as u16
    }

    /// The raw 32-bit value.
    pub fn get_handle(&self) -> (r: u32)
        ensures
            r == self.spec_raw(),
    {
        self.0
    }

    /// Whether this handle is the "no reference" sentinel.
    pub fn is_invalid(&self) -> (r: bool)
        ensures
            r == self.spec_is_invalid(),
    {
        self.get_handle() == INVALID_HANDLE
    }
}

/// Round trip of the codec: packing any index and identifier and extracting
/// either half gives back exactly what was packed.
pub proof fn lemma_compose_extract(index: u16, id: u16)
    ensures
        spec_index_of(spec_compose(index, id)) == index,
        spec_id_of(spec_compose(index, id)) == id,
{
    assert((((id as u32) << 16) | (index as u32)) & 0xFFFF == index as u32) by (bit_vector);
    assert(((((id as u32) << 16) | (index as u32)) >> 16) & 0xFFFF == id as u32) by (bit_vector);
}

/// The invalid sentinel arises from exactly one packing: both halves all-ones.
/// Any other index or identifier composes to a valid handle.
pub proof fn lemma_invalid_sentinel(index: u16, id: u16)
    ensures
        spec_compose(index, id) == INVALID_HANDLE <==> (index == 0xFFFF && id == 0xFFFF),
{
    assert((((id as u32) << 16) | (index as u32)) == 0xFFFFFFFF <==> (index == 0xFFFF && id
        == 0xFFFF)) by (bit_vector);
}

} // verus!
