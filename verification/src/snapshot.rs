//! The snapshot assembler: one linear pass that validates the required global
//! structures, scans both pools, reconstructs the object graph behind its
//! guard markers, and resolves the tag tables.
//!
//! The pass is all-or-nothing over the required headers and globals — any of
//! their validations failing discards the attempt with an error naming the
//! failed structure — and best-effort over individual pool slots, object
//! bodies and tag strings, whose failures only leave single entries absent.

use std::collections::HashMap;

use vstd::prelude::*;
use vstd::utf8::{decode_utf8, valid_utf8};

use crate::datum::Datum;
use crate::engine::{
    spec_game_globals, spec_game_time_globals, spec_map_name_chars, spec_object_at,
    spec_object_list_header_at, spec_game_options_valid, spec_players_globals,
    spec_tag_entry_at, spec_tag_header, EngineError, GameGlobals, GameTimeGlobals, Object,
    ObjectHeaderEntry, ObjectListHeader, PlayerDataEntry, PlayersGlobals, TagEntry, TagHeader,
    DEAH, HALO_OBJECT_POOL_HEADER_ADDR, HALO_PLAYER_POOL_HEADER_ADDR, LIAT,
    OBJECT_LIST_HEADER_SIZE, TAG_ENTRY_SIZE,
};
use crate::entity::{
    pool_entries_match, spec_entity_manager_at, spec_pool_slot, EntityManager, SlotRecord,
};
use crate::memory::{cstr_bytes_at, spec_fix_pointer, Memory};

verus! {

/// The object pool header decoded at its fixed address.
pub open spec fn spec_object_header(mem: Seq<u8>) -> EntityManager {
    spec_entity_manager_at(mem, HALO_OBJECT_POOL_HEADER_ADDR as int)
}

/// The player pool header decoded at its fixed address.
pub open spec fn spec_player_header(mem: Seq<u8>) -> EntityManager {
    spec_entity_manager_at(mem, HALO_PLAYER_POOL_HEADER_ADDR as int)
}

/// The object body at `addr`, accepted only when the guard structure that
/// precedes it carries both guard words intact; absent on any mismatch.
pub open spec fn spec_read_game_object(mem: Seq<u8>, addr: int) -> Option<Object> {
    let guard = spec_object_list_header_at(mem, addr - OBJECT_LIST_HEADER_SIZE as int);
    if guard.header_head == DEAH && guard.header_tail == LIAT {
        Some(spec_object_at(mem, addr))
    } else {
        None
    }
}

/// The object bound to pool slot `i`: present only when the slot is occupied,
/// its stored body address survives fix-up and range checks, and the body's
/// guard words are intact.
pub open spec fn spec_object_slot(mem: Seq<u8>, hdr: EntityManager, i: int) -> Option<Object> {
    match spec_pool_slot::<ObjectHeaderEntry>(mem, hdr, i) {
        Some(e) => {
            let a = spec_fix_pointer(e.object_address);
            if a != 0 && a >= OBJECT_LIST_HEADER_SIZE {
                spec_read_game_object(mem, a as int)
            } else {
                None
            }
        },
        None => None,
    }
}

/// Whether `entries` is exactly the reconstructed object graph of the pool
/// behind `hdr`.
pub open spec fn object_entries_match(
    entries: Seq<Option<Object>>,
    mem: Seq<u8>,
    hdr: EntityManager,
) -> bool {
    &&& entries.len() == hdr.max_entries as int
    &&& forall|i: int|
        0 <= i && i < entries.len() ==> #[trigger] entries[i] == spec_object_slot(mem, hdr, i)
}

/// The tag-index-to-descriptor table after the first `n` descriptors: the
/// first descriptor carrying each tag index records itself, and every later
/// duplicate of that index is ignored.
pub open spec fn spec_tag_entries_map(mem: Seq<u8>, base: int, n: int) -> Map<u32, TagEntry>
    decreases n,
{
    if n <= 0 {
        Map::empty()
    } else {
        let prev = spec_tag_entries_map(mem, base, n - 1);
        let e = spec_tag_entry_at(mem, base + TAG_ENTRY_SIZE * (n - 1));
        if prev.contains_key(e.tag_index) {
            prev
        } else {
            prev.insert(e.tag_index, e)
        }
    }
}

/// The tag-index-to-path table after the first `n` descriptors.  Only the
/// first descriptor carrying each tag index — the one the descriptor table
/// records — may resolve its path, and it enters this table exactly when that
/// path string decodes as text; a failed read leaves the index out of this
/// table for good, and later duplicates stay ignored either way.
pub open spec fn spec_tag_paths_map(mem: Seq<u8>, base: int, n: int) -> Map<u32, Seq<char>>
    decreases n,
{
    if n <= 0 {
        Map::empty()
    } else {
        let prev = spec_tag_paths_map(mem, base, n - 1);
        let e = spec_tag_entry_at(mem, base + TAG_ENTRY_SIZE * (n - 1));
        if spec_tag_entries_map(mem, base, n - 1).contains_key(e.tag_index) {
            prev
        } else {
            let bs = cstr_bytes_at(mem, spec_fix_pointer(e.tag_path_ptr) as int);
            if valid_utf8(bs) {
                prev.insert(e.tag_index, decode_utf8(bs))
            } else {
                prev
            }
        }
    }
}

/// Whether the executable path table holds exactly the abstract one: the same
/// indices, each mapped to a string with the abstract character content.
pub open spec fn paths_match(m: Map<u32, String>, s: Map<u32, Seq<char>>) -> bool {
    &&& forall|k: u32| #[trigger] m.contains_key(k) ==> s.contains_key(k)
    &&& forall|k: u32| #[trigger] s.contains_key(k) ==> m.contains_key(k)
    &&& forall|k: u32| #[trigger] s.contains_key(k) ==> m[k]@ == s[k]
}

/// Whether every required global validates in `mem`; exactly then does a
/// snapshot attempt succeed.
pub open spec fn spec_snapshot_ok(mem: Seq<u8>) -> bool {
    &&& spec_tag_header(mem).spec_is_valid()
    &&& spec_game_options_valid(spec_game_globals(mem).game_options)
    &&& spec_object_header(mem).spec_is_valid()
    &&& spec_player_header(mem).spec_is_valid()
}

/// The error naming the first required global that fails validation, in the
/// order the assembler checks them.
pub open spec fn spec_snapshot_error(mem: Seq<u8>) -> EngineError {
    if !spec_tag_header(mem).spec_is_valid() {
        EngineError::TagHeader
    } else if !spec_game_options_valid(spec_game_globals(mem).game_options) {
        EngineError::GameGlobals
    } else if !spec_object_header(mem).spec_is_valid() {
        EngineError::ObjectHeader
    } else {
        EngineError::PlayerHeader
    }
}

/// Whether `s` is exactly the snapshot that `mem` decodes to.
pub open spec fn snapshot_matches(s: EngineSnapshot, mem: Seq<u8>) -> bool {
    &&& s.map_name@ == spec_map_name_chars(spec_game_globals(mem))
    &&& s.game_globals@ == spec_game_globals(mem)
    &&& s.game_time_globals == spec_game_time_globals(mem)
    &&& s.player_globals@ == spec_players_globals(mem)
    &&& s.object_header == spec_object_header(mem)
    &&& s.player_header == spec_player_header(mem)
    &&& pool_entries_match::<ObjectHeaderEntry>(
        s.object_header_entries@,
        mem,
        spec_object_header(mem),
    )
    &&& pool_entries_match::<PlayerDataEntry>(s.player_entries@, mem, spec_player_header(mem))
    &&& object_entries_match(s.object_entries@, mem, spec_object_header(mem))
    &&& s.tag_entries@ == spec_tag_entries_map(
        mem,
        spec_fix_pointer(spec_tag_header(mem).tag_array_ptr) as int,
        spec_tag_header(mem).tag_count as int,
    )
    &&& paths_match(
        s.tags@,
        spec_tag_paths_map(
            mem,
            spec_fix_pointer(spec_tag_header(mem).tag_array_ptr) as int,
            spec_tag_header(mem).tag_count as int,
        ),
    )
}

/// Reads the object pool header from its fixed address, accepting it only
/// when its signature and validity flag check out.
pub fn read_object_header(memory: &Memory) -> (r: Result<EntityManager, EngineError>)
    ensures
        r is Ok <==> spec_object_header(memory@).spec_is_valid(),
        r matches Ok(h) ==> h == spec_object_header(memory@),
        r matches Err(e) ==> e == EngineError::ObjectHeader,
{
    let object_header = EntityManager::decode(memory, HALO_OBJECT_POOL_HEADER_ADDR);
    if object_header.is_valid() {
        Ok(object_header)
    } else {
        Err(EngineError::ObjectHeader)
    }
}

/// Reads the player pool header from its fixed address, accepting it only
/// when its signature and validity flag check out.
pub fn read_player_header(memory: &Memory) -> (r: Result<EntityManager, EngineError>)
    ensures
        r is Ok <==> spec_player_header(memory@).spec_is_valid(),
        r matches Ok(h) ==> h == spec_player_header(memory@),
        r matches Err(e) ==> e == EngineError::PlayerHeader,
{
    let player_header = EntityManager::decode(memory, HALO_PLAYER_POOL_HEADER_ADDR);
    if player_header.is_valid() {
        Ok(player_header)
    } else {
        Err(EngineError::PlayerHeader)
    }
}

/// One complete, internally validated read pass over the observed process's
/// relevant memory regions.
#[derive(Debug)]
pub struct EngineSnapshot {
    /// Name of the loaded map, empty when none is loaded or it cannot decode.
    pub map_name: String,
    /// The validated player pool header.
    pub player_header: EntityManager,
    /// One optional player record per logical player slot.
    pub player_entries: Vec<Option<PlayerDataEntry>>,
    /// The validated object pool header.
    pub object_header: EntityManager,
    /// One optional pool slot record per logical object slot.
    pub object_header_entries: Vec<Option<ObjectHeaderEntry>>,
    /// One optional reconstructed object body per logical object slot.
    pub object_entries: Vec<Option<Object>>,
    /// The player globals, accepted unconditionally.
    pub player_globals: PlayersGlobals,
    /// The validated game globals.
    pub game_globals: GameGlobals,
    /// The game time globals, accepted unconditionally.
    pub game_time_globals: GameTimeGlobals,
    /// Tag index to resolved path string, first occurrence winning.
    pub tags: HashMap<u32, String>,
    /// Tag index to tag descriptor, first occurrence winning.
    pub tag_entries: HashMap<u32, TagEntry>,
}

impl EngineSnapshot {
    /// The seat index of the local player whose currently controlled unit
    /// handle carries the given pool-slot index; the first match in storage
    /// order wins.  Handles are correlated by index only, never by full
    /// equality: the observed process itself does not reliably enforce
    /// identifier matching when resolving them.
    pub fn find_local_player_index_from_unit_index(&self, unit_index: u16) -> (r: Option<u16>)
        ensures
            r is Some <==> exists|i: int|
                0 <= i && i < self.player_entries@.len() && player_entry_matches_unit(
                    #[trigger] self.player_entries@[i],
                    unit_index,
                ),
            r matches Some(v) ==> exists|i: int|
                {
                    &&& 0 <= i && i < self.player_entries@.len()
                    &&& player_entry_matches_unit(#[trigger] self.player_entries@[i], unit_index)
                    &&& v == self.player_entries@[i]->Some_0.local_player_index
                    &&& forall|j: int|
                        0 <= j && j < i ==> !player_entry_matches_unit(
                            #[trigger] self.player_entries@[j],
                            unit_index,
                        )
                },
    {
        let n: usize = self.player_entries.len();
        let mut idx: usize = 0;
        while idx < n
            invariant
                idx <= n,
                n == self.player_entries@.len(),
                forall|j: int|
                    0 <= j && j < idx ==> !player_entry_matches_unit(
                        #[trigger] self.player_entries@[j],
                        unit_index,
                    ),
            decreases n - idx,
        {
            if let Some(player_pool_entry) = &self.player_entries[idx] {
                if player_pool_entry.slave_unit_index.get_index() == unit_index {
                    return Some(player_pool_entry.local_player_index);
                }
            }
            idx = idx + 1;
        }
        None
    }

    /// The seat position in the player globals whose dead-unit handle carries
    /// the same pool-slot index as the given handle; the first match in
    /// storage order wins.  Correlation is by index only, as above.
    pub fn find_next_object_datum_player(&self, object_handle: Datum) -> (r: Option<usize>)
        ensures
            r is Some <==> exists|i: int|
                0 <= i && i < self.player_globals.local_dead_players@.len()
                    && (#[trigger] self.player_globals.local_dead_players@[i]).spec_index()
                    == object_handle.spec_index(),
            r matches Some(v) ==> {
                &&& v < self.player_globals.local_dead_players@.len()
                &&& self.player_globals.local_dead_players@[v as int].spec_index()
                    == object_handle.spec_index()
                &&& forall|j: int|
                    0 <= j && j < v ==> (#[trigger] self.player_globals.local_dead_players@[j]).spec_index()
                        != object_handle.spec_index()
            },
    {
        let n: usize = self.player_globals.local_dead_players.len();
        let mut idx: usize = 0;
        while idx < n
            invariant
                idx <= n,
                n == self.player_globals.local_dead_players@.len(),
                forall|j: int|
                    0 <= j && j < idx ==> (
                    #[trigger] self.player_globals.local_dead_players@[j]).spec_index()
                        != object_handle.spec_index(),
            decreases n - idx,
        {
            let player_object_handle = &self.player_globals.local_dead_players[idx];
            let player_index = player_object_handle.get_index();
            let object_index = object_handle.get_index();
            if player_index == object_index {
                return Some(idx);
            }
            idx = idx + 1;
        }
        None
    }

    /// The lowest object slot with no reconstructed object; the slot the
    /// engine would most plausibly hand out next.
    pub fn find_first_free_object_index(&self) -> (r: Option<usize>)
        ensures
            r is Some <==> exists|i: int|
                0 <= i && i < self.object_entries@.len() && (#[trigger] self.object_entries@[i])
                    is None,
            r matches Some(v) ==> {
                &&& v < self.object_entries@.len()
                &&& self.object_entries@[v as int] is None
                &&& forall|j: int| 0 <= j && j < v ==> (#[trigger] self.object_entries@[j]) is Some
            },
    {
        let n: usize = self.object_entries.len();
        let mut idx: usize = 0;
        while idx < n
            invariant
                idx <= n,
                n == self.object_entries@.len(),
                forall|j: int| 0 <= j && j < idx ==> (#[trigger] self.object_entries@[j]) is Some,
            decreases n - idx,
        {
            if self.object_entries[idx].is_none() {
                return Some(idx);
            }
            idx = idx + 1;
        }
        None
    }

    /// Reads the object body whose slot record points at `object_address`,
    /// accepting it only when the guard structure before it carries both
    /// guard words; any mismatch yields an absent object, not an error.
    pub fn read_game_object(memory: &Memory, object_address: u32) -> (r: Option<Object>)
        requires
            object_address >= OBJECT_LIST_HEADER_SIZE,
        ensures
            r == spec_read_game_object(memory@, object_address as int),
    {
        let object_list_header_ptr: u32 = object_address - OBJECT_LIST_HEADER_SIZE;
        let object_list_header = ObjectListHeader::decode(memory, object_list_header_ptr);
        if object_list_header.header_head == DEAH && object_list_header.header_tail == LIAT {
            Some(Object::decode(memory, object_address))
        } else {
            None
        }
    }

    /// Reconstructs the object graph: for every occupied pool slot whose
    /// stored body address survives fix-up, the range check and the guard
    /// check, the decoded body; every other slot is absent.
    pub fn read_object_entries(memory: &Memory, object_manager: &EntityManager) -> (r: Vec<
        Option<Object>,
    >)
        requires
            object_manager.spec_is_valid(),
        ensures
            object_entries_match(r@, memory@, *object_manager),
    {
        let object_pool_entries: Vec<Option<ObjectHeaderEntry>> = object_manager.read(memory);
        let max: usize = object_manager.max_entries as usize;
        let mut game_object_entries: Vec<Option<Object>> = Vec::new();
        while game_object_entries.len() < max
            invariant
                game_object_entries@.len() <= max as int,
                forall|j: int|
                    0 <= j && j < game_object_entries@.len() ==> (
                    #[trigger] game_object_entries@[j]) is None,
            decreases max - game_object_entries.len(),
        {
            game_object_entries.push(None);
        }

        let scan: usize = if (object_manager.capacity as usize) < max {
            object_manager.capacity as usize
        } else {
            max
        };
        let mut index: usize = 0;
        while index < scan
            invariant
                scan <= max,
                max == object_manager.max_entries as usize,
                scan <= object_manager.capacity as usize,
                game_object_entries@.len() == max as int,
                pool_entries_match::<ObjectHeaderEntry>(
                    object_pool_entries@,
                    memory@,
                    *object_manager,
                ),
                forall|j: int|
                    0 <= j && j < index ==> #[trigger] game_object_entries@[j] == spec_object_slot(
                        memory@,
                        *object_manager,
                        j,
                    ),
                forall|j: int|
                    index <= j && j < max as int ==> (#[trigger] game_object_entries@[j]) is None,
            decreases scan - index,
        {
            if let Some(object_entry) = &object_pool_entries[index] {
                let object_address = Memory::fix_pointer(object_entry.object_address);
                if object_address != 0 && object_address >= OBJECT_LIST_HEADER_SIZE {
                    if let Some(game_object) = Self::read_game_object(memory, object_address) {
                        game_object_entries[index] = Some(game_object);
                    }
                }
            }
            index = index + 1;
        }
        proof {
            assert forall|i: int|
                0 <= i && i < game_object_entries@.len() implies #[trigger] game_object_entries@[i]
                == spec_object_slot(memory@, *object_manager, i) by {
                if i >= scan as int {
                    assert(game_object_entries@[i] is None);
                    assert(i >= object_manager.capacity as int || i
                        >= object_manager.max_entries as int);
                    assert(spec_pool_slot::<ObjectHeaderEntry>(memory@, *object_manager, i)
                        is None);
                }
            }
        }
        game_object_entries
    }

    /// Walks the tag descriptors and builds both lookup tables.  The first
    /// descriptor carrying each tag index is recorded, and later duplicates of
    /// that index are ignored; the first descriptor's path string enters the
    /// path table only when it decodes as text, and a failed read leaves that
    /// one entry out without disturbing the descriptor table.
    pub fn read_tag_mappings(memory: &Memory, tag_header: &TagHeader) -> (r: (
        HashMap<u32, String>,
        HashMap<u32, TagEntry>,
    ))
        ensures
            paths_match(
                r.0@,
                spec_tag_paths_map(
                    memory@,
                    spec_fix_pointer(tag_header.tag_array_ptr) as int,
                    tag_header.tag_count as int,
                ),
            ),
            r.1@ == spec_tag_entries_map(
                memory@,
                spec_fix_pointer(tag_header.tag_array_ptr) as int,
                tag_header.tag_count as int,
            ),
    {
        let mut tag_index_to_str: HashMap<u32, String> = HashMap::new();
        let mut tag_index_to_tag_entry: HashMap<u32, TagEntry> = HashMap::new();
        let tag_array_base_ptr: u32 = Memory::fix_pointer(tag_header.tag_array_ptr);
        let ghost base: int = spec_fix_pointer(tag_header.tag_array_ptr) as int;
        let count: u32 = tag_header.tag_count;
        let mut index: u32 = 0;
        while index < count
            invariant
                index <= count,
                count == tag_header.tag_count,
                tag_array_base_ptr == spec_fix_pointer(tag_header.tag_array_ptr),
                base == tag_array_base_ptr as int,
                paths_match(tag_index_to_str@, spec_tag_paths_map(memory@, base, index as int)),
                tag_index_to_tag_entry@ == spec_tag_entries_map(memory@, base, index as int),
            decreases count - index,
        {
            let tag_entry_ptr: u64 = tag_array_base_ptr as u64 + (TAG_ENTRY_SIZE as u64) * (
            index as u64);
            let tag_entry = TagEntry::decode(memory, tag_entry_ptr);
            proof {
                assert(tag_entry == spec_tag_entry_at(memory@, base + TAG_ENTRY_SIZE * (
                index as int)));
            }
            if !tag_index_to_tag_entry.contains_key(&tag_entry.tag_index) {
                if let Some(value) = memory.read_str(
                    Memory::fix_pointer(tag_entry.tag_path_ptr) as u64,
                ) {
                    tag_index_to_str.insert(tag_entry.tag_index, value);
                }
                tag_index_to_tag_entry.insert(tag_entry.tag_index, tag_entry);
            }
            index = index + 1;
        }
        (tag_index_to_str, tag_index_to_tag_entry)
    }
}

/// Assembles one snapshot: validates the tag header, the game globals and
/// both pool headers in that order, failing with the first offender; then
/// reads the never-failing globals, scans both pools, reconstructs the object
/// graph and resolves the tag tables.
pub fn build_snapshot(memory: &Memory) -> (r: Result<EngineSnapshot, EngineError>)
    ensures
        r is Ok <==> spec_snapshot_ok(memory@),
        r matches Err(e) ==> e == spec_snapshot_error(memory@),
        r matches Ok(s) ==> snapshot_matches(s, memory@),
{
    let tag_header = match TagHeader::read_from(memory) {
        Ok(h) => h,
        Err(e) => {
            return Err(e);
        },
    };
    let game_globals = match GameGlobals::read_from(memory) {
        Ok(g) => g,
        Err(e) => {
            return Err(e);
        },
    };
    let map_name = game_globals.get_map_name();
    let object_header = match read_object_header(memory) {
        Ok(h) => h,
        Err(e) => {
            return Err(e);
        },
    };
    let player_header = match read_player_header(memory) {
        Ok(h) => h,
        Err(e) => {
            return Err(e);
        },
    };
    let player_globals = match PlayersGlobals::read_from(memory) {
        Ok(g) => g,
        Err(e) => {
            return Err(e);
        },
    };
    let game_time_globals = match GameTimeGlobals::read_from(memory) {
        Ok(g) => g,
        Err(e) => {
            return Err(e);
        },
    };
    let object_header_entries: Vec<Option<ObjectHeaderEntry>> = object_header.read(memory);
    let player_entries: Vec<Option<PlayerDataEntry>> = player_header.read(memory);
    let object_entries = EngineSnapshot::read_object_entries(memory, &object_header);
    let (tags, tag_entries) = EngineSnapshot::read_tag_mappings(memory, &tag_header);

    Ok(
        EngineSnapshot {
            map_name,
            object_header,
            object_header_entries,
            object_entries,
            player_header,
            player_entries,
            player_globals,
            game_globals,
            game_time_globals,
            tags,
            tag_entries,
        },
    )
}

/// Whether this optional player record is present and its controlled-unit
/// handle carries the given pool-slot index.
pub open spec fn player_entry_matches_unit(e: Option<PlayerDataEntry>, unit_index: u16) -> bool {
    e matches Some(p) && p.slave_unit_index.spec_index() == unit_index
}

/// The guard check never errs on the side of trust: whenever either guard
/// word before `addr` differs from its sentinel — any corruption, single-bit
/// or otherwise — the object resolves to absent.
pub proof fn lemma_guard_mismatch_is_absent(mem: Seq<u8>, addr: int)
    requires
        spec_object_list_header_at(mem, addr - OBJECT_LIST_HEADER_SIZE as int).header_head != DEAH
            || spec_object_list_header_at(
            mem,
            addr - OBJECT_LIST_HEADER_SIZE as int,
        ).header_tail != LIAT,
    ensures
        spec_read_game_object(mem, addr) is None,
{
}

/// First occurrence wins in the descriptor table: once a tag index is
/// recorded after some prefix of the descriptors, every longer prefix keeps
/// it recorded with the same descriptor, whatever later duplicates hold.
pub proof fn lemma_tag_entry_first_occurrence_wins(
    mem: Seq<u8>,
    base: int,
    n1: int,
    n2: int,
    k: u32,
)
    requires
        0 <= n1 <= n2,
        spec_tag_entries_map(mem, base, n1).contains_key(k),
    ensures
        spec_tag_entries_map(mem, base, n2).contains_key(k),
        spec_tag_entries_map(mem, base, n2)[k] == spec_tag_entries_map(mem, base, n1)[k],
    decreases n2 - n1,
{
    if n1 < n2 {
        lemma_tag_entry_first_occurrence_wins(mem, base, n1, n2 - 1, k);
    }
}

/// Every resolved path's index is recorded in the descriptor table: the path
/// table's keys are a subset of the descriptor table's.
pub proof fn lemma_tag_path_key_is_recorded(mem: Seq<u8>, base: int, n: int, k: u32)
    requires
        spec_tag_paths_map(mem, base, n).contains_key(k),
    ensures
        spec_tag_entries_map(mem, base, n).contains_key(k),
    decreases n,
{
    if n > 0 {
        let e = spec_tag_entry_at(mem, base + TAG_ENTRY_SIZE * (n - 1));
        if spec_tag_entries_map(mem, base, n - 1).contains_key(e.tag_index) {
            lemma_tag_path_key_is_recorded(mem, base, n - 1, k);
        } else if k != e.tag_index {
            lemma_tag_path_key_is_recorded(mem, base, n - 1, k);
        }
    }
}

/// First occurrence wins in the path table as well: once a tag index is
/// resolved after some prefix of the descriptors, every longer prefix keeps
/// it resolved to the same path, because the descriptor table gates every
/// later occurrence of that index.
pub proof fn lemma_tag_path_first_occurrence_wins(
    mem: Seq<u8>,
    base: int,
    n1: int,
    n2: int,
    k: u32,
)
    requires
        0 <= n1 <= n2,
        spec_tag_paths_map(mem, base, n1).contains_key(k),
    ensures
        spec_tag_paths_map(mem, base, n2).contains_key(k),
        spec_tag_paths_map(mem, base, n2)[k] == spec_tag_paths_map(mem, base, n1)[k],
    decreases n2 - n1,
{
    if n1 < n2 {
        lemma_tag_path_first_occurrence_wins(mem, base, n1, n2 - 1, k);
        lemma_tag_path_key_is_recorded(mem, base, n2 - 1, k);
    }
}

} // verus!
