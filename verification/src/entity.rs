//! The generic fixed-capacity pool reader.
//!
//! Every pool of the observed engine is a fixed array of homogeneous,
//! fixed-size slots behind a small header.  The header carries a signature
//! word and a validity flag; a pool may only be scanned after both have been
//! checked.  A slot whose leading 16-bit identifier is zero counts as empty
//! when the pool's identifier-zero convention is enabled.

use vstd::prelude::*;

use crate::memory::{byte_at, spec_fix_pointer, u16_at, u32_at, Memory};

verus! {

/// The signature word every live pool header carries.
pub const POOL_SIGNATURE: u32 = 1681945664;

/// A fixed-size record type that can be decoded from one pool slot.
pub trait SlotRecord: View + Sized {
    /// The decoding of one record of this type beginning at `addr`.
    spec fn spec_decode(mem: Seq<u8>, addr: int) -> Self::V;

    /// Decodes one record of this type beginning at `addr`.
    fn decode(memory: &Memory, addr: u64) -> (r: Self)
        ensures
            r@ == Self::spec_decode(memory@, addr as int),
    ;
}

/// The header of one fixed-capacity pool.
#[derive(Clone, Copy, Debug, PartialEq, Eq, Structural)]
pub struct EntityManager {
    /// Number of logical slots a full scan reports; may exceed `capacity`.
    pub max_entries: u16,
    /// Size in bytes of one slot.
    pub data_sizeof: u16,
    /// Validity flag; the pool is live only when this is 1.
    pub valid: u8,
    /// When non-zero, a slot whose leading identifier is zero is empty.
    pub identifier_zero_invalid: u8,
    pub unknown_1: u16,
    /// Signature word; must equal `POOL_SIGNATURE`.
    pub signature: u32,
    /// Cursor of the next slot the engine would hand out.
    pub next_index: u16,
    /// Number of slots actually backed by memory and scanned.
    pub capacity: u16,
    pub size: u16,
    /// Cursor of the next generation identifier the engine would hand out.
    pub next_id: u16,
    /// Raw address of the first slot.
    pub data_begin: u32,
}

/// The pool header decoded at `addr`.  The 32 bytes before `max_entries` hold
/// the pool's display name, which nothing here reads.
pub open spec fn spec_entity_manager_at(mem: Seq<u8>, addr: int) -> EntityManager {
    EntityManager {
        max_entries: u16_at(mem, addr + 32),
        data_sizeof: u16_at(mem, addr + 34),
        valid: byte_at(mem, addr + 36),
        identifier_zero_invalid: byte_at(mem, addr + 37),
        unknown_1: u16_at(mem, addr + 38),
        signature: u32_at(mem, addr + 40),
        next_index: u16_at(mem, addr + 44),
        capacity: u16_at(mem, addr + 46),
        size: u16_at(mem, addr + 48),
        next_id: u16_at(mem, addr + 50),
        data_begin: u32_at(mem, addr + 52),
    }
}

/// Address of slot `i` of a pool: the fixed-up data base plus `i` slot sizes.
pub open spec fn spec_slot_addr(hdr: EntityManager, i: int) -> int {
    spec_fix_pointer(hdr.data_begin) + hdr.data_sizeof * i
}

/// Whether slot `i` counts as occupied: its leading identifier is non-zero, or
/// the pool does not treat identifier zero as an empty marker.
pub open spec fn spec_slot_present(mem: Seq<u8>, hdr: EntityManager, i: int) -> bool {
    u16_at(mem, spec_slot_addr(hdr, i)) != 0 || hdr.identifier_zero_invalid == 0
}

/// The decoded content of logical slot `i`: a record for an occupied slot in
/// the scanned range, absent otherwise.
pub open spec fn spec_pool_slot<T: SlotRecord>(mem: Seq<u8>, hdr: EntityManager, i: int) -> Option<
    T::V,
> {
    if 0 <= i && i < hdr.capacity as int && spec_slot_present(mem, hdr, i) {
        Some(T::spec_decode(mem, spec_slot_addr(hdr, i)))
    } else {
        None
    }
}

/// Whether an optional decoded record has exactly the given abstract content.
pub open spec fn opt_entry_matches<T: View>(e: Option<T>, s: Option<T::V>) -> bool {
    match e {
        Some(v) => s == Some(v@),
        None => s is None,
    }
}

/// Whether `entries` is exactly the scan of the pool behind `hdr`: one
/// optional record per logical slot, each matching `spec_pool_slot`.
pub open spec fn pool_entries_match<T: SlotRecord>(
    entries: Seq<Option<T>>,
    mem: Seq<u8>,
    hdr: EntityManager,
) -> bool {
    &&& entries.len() == hdr.max_entries as int
    &&& forall|i: int|
        0 <= i && i < entries.len() ==> opt_entry_matches(
            #[trigger] entries[i],
            spec_pool_slot::<T>(mem, hdr, i),
        )
}

/// The zero-identifier convention: a scanned slot whose leading identifier
/// field is zero decodes as absent exactly when the pool treats identifier
/// zero as an empty marker, and as present otherwise.
pub proof fn lemma_zero_identifier_convention<T: SlotRecord>(
    mem: Seq<u8>,
    hdr: EntityManager,
    i: int,
)
    requires
        0 <= i && i < hdr.capacity as int,
        u16_at(mem, spec_slot_addr(hdr, i)) == 0,
    ensures
        spec_pool_slot::<T>(mem, hdr, i) is Some <==> hdr.identifier_zero_invalid == 0,
{
}

impl EntityManager {
    /// Whether the header's signature word is the known constant.
    pub open spec fn spec_is_signature_valid(self) -> bool {
        self.signature == POOL_SIGNATURE
    }

    /// Whether the header may be trusted: signature intact and validity flag set.
    pub open spec fn spec_is_valid(self) -> bool {
        self.spec_is_signature_valid() && self.valid == 1
    }

    /// Whether the header's signature word is the known constant.
    pub fn is_signature_valid(&self) -> (r: bool)
        ensures
            r == self.spec_is_signature_valid(),
    {
        self.signature == POOL_SIGNATURE
    }

    /// Whether the header may be trusted: signature intact and validity flag set.
    pub fn is_valid(&self) -> (r: bool)
        ensures
            r == self.spec_is_valid(),
    {
        self.is_signature_valid() && self.valid == 1
    }

    /// Decodes a pool header at `addr`.
    pub fn decode(memory: &Memory, addr: u32) -> (r: EntityManager)
        ensures
            r == spec_entity_manager_at(memory@, addr as int),
    {
        EntityManager {
            max_entries: memory.read_u16(addr as u64 + 32),
            data_sizeof: memory.read_u16(addr as u64 + 34),
            valid: memory.read_u8(addr as u64 + 36),
            identifier_zero_invalid: memory.read_u8(addr as u64 + 37),
            unknown_1: memory.read_u16(addr as u64 + 38),
            signature: memory.read_u32(addr as u64 + 40),
            next_index: memory.read_u16(addr as u64 + 44),
            capacity: memory.read_u16(addr as u64 + 46),
            size: memory.read_u16(addr as u64 + 48),
            next_id: memory.read_u16(addr as u64 + 50),
            data_begin: memory.read_u32(addr as u64 + 52),
        }
    }

    /// Scans the pool and decodes every occupied slot.
    ///
    /// The result always has exactly `max_entries` elements, whatever the
    /// scanned `capacity`; slots beyond the scanned range, and scanned slots
    /// whose identifier marks them empty, are absent.  Validating the header
    /// first is the caller's duty, which is why it stands as a precondition
    /// rather than a check here.
    pub fn read<T: SlotRecord>(&self, memory: &Memory) -> (entries: Vec<Option<T>>)
        requires
            self.spec_is_valid(),
        ensures
            pool_entries_match::<T>(entries@, memory@, *self),
    {
        let max: usize = self.max_entries as usize;
        let mut entries: Vec<Option<T>> = Vec::new();
        while entries.len() < max
            invariant
                entries@.len() <= max as int,
                forall|j: int| 0 <= j && j < entries@.len() ==> (#[trigger] entries@[j]) is None,
            decreases max - entries.len(),
        {
            entries.push(None);
        }

        let data_begin: u32 = Memory::fix_pointer(self.data_begin);
        let scan: usize = if (self.capacity as usize) < max {
            self.capacity as usize
        } else {
            max
        };
        let mut index: usize = 0;
        while index < scan
            invariant
                scan <= max,
                max == self.max_entries as usize,
                scan <= self.capacity as usize,
                entries@.len() == max as int,
                data_begin == spec_fix_pointer(self.data_begin),
                data_begin <= 0xFFFFFF,
                forall|j: int|
                    0 <= j && j < index ==> opt_entry_matches(
                        #[trigger] entries@[j],
                        spec_pool_slot::<T>(memory@, *self, j),
                    ),
                forall|j: int| index <= j && j < max as int ==> (#[trigger] entries@[j]) is None,
            decreases scan - index,
        {
            proof {
                let s = self.data_sizeof as int;
                let i = index as int;
                assert(s * i <= 65535 * 65535) by (nonlinear_arith)
                    requires
                        0 <= s <= 65535,
                        0 <= i <= 65535,
                ;
            }
            let addr: u64 = data_begin as u64 + (self.data_sizeof as u64) * (index as u64);
            let id: u16 = memory.read_u16(addr);
            if id != 0 || self.identifier_zero_invalid == 0 {
                let rec: T = T::decode(memory, addr);
                entries[index] = Some(rec);
            }
            index = index + 1;
        }
        proof {
            assert forall|i: int| 0 <= i && i < entries@.len() implies opt_entry_matches(
                #[trigger] entries@[i],
                spec_pool_slot::<T>(memory@, *self, i),
            ) by {
                if i >= scan as int {
                    assert(entries@[i] is None);
                    assert(i >= self.capacity as int || i >= self.max_entries as int);
                }
            }
        }
        entries
    }
}

} // verus!
