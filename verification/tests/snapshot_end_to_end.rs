use halo_snapshot::engine::{
    EngineError, DEAH, HALO_GAME_GLOBALS_ADDR, HALO_OBJECT_POOL_HEADER_ADDR,
    HALO_PLAYER_GLOBALS_ADDR, HALO_PLAYER_POOL_HEADER_ADDR, HALO_TAG_HEADER_ADDR, LIAT,
    OBJECT_LIST_HEADER_SIZE, RNCS,
};
use halo_snapshot::entity::POOL_SIGNATURE;
use halo_snapshot::memory::Memory;
use halo_snapshot::snapshot::build_snapshot;

fn put_u16(buf: &mut Vec<u8>, addr: usize, v: u16) {
    let b = v.to_le_bytes();
    buf[addr] = b[0];
    buf[addr + 1] = b[1];
}

fn put_u32(buf: &mut Vec<u8>, addr: usize, v: u32) {
    let b = v.to_le_bytes();
    for (k, &byte) in b.iter().enumerate() {
        buf[addr + k] = byte;
    }
}

fn put_str(buf: &mut Vec<u8>, addr: usize, s: &[u8]) {
    buf[addr..addr + s.len()].copy_from_slice(s);
    buf[addr + s.len()] = 0;
}

const OBJECT_SLOTS: usize = 0x500;
const OBJECT_BODY: usize = 0x700;
const PLAYER_SLOTS: usize = 0x900;
const TAG_ARRAY: usize = 0x100;
const TAG_PATH: usize = 0x180;

/// A synthetic byte image on which every required validation passes: a valid
/// tag header, valid game options, one occupied object slot with a guarded
/// body, and a valid player pool with one player controlling that object.
fn valid_image() -> Vec<u8> {
    let mut buf = vec![0u8; HALO_TAG_HEADER_ADDR as usize + 0x100];

    // Tag header, one descriptor mapping tag index 5 to a path.
    let th = HALO_TAG_HEADER_ADDR as usize;
    put_u32(&mut buf, th, TAG_ARRAY as u32); // tag_array_ptr
    put_u32(&mut buf, th + 12, 1); // tag_count
    put_u32(&mut buf, th + 36, RNCS); // footer
    put_u32(&mut buf, TAG_ARRAY + 12, 5); // descriptor tag_index
    put_u32(&mut buf, TAG_ARRAY + 16, TAG_PATH as u32); // descriptor path ptr
    put_str(&mut buf, TAG_PATH, b"vehicles\\banshee");

    // Game globals: map loaded, difficulty 2, map name.
    let gg = HALO_GAME_GLOBALS_ADDR as usize;
    buf[gg] = 1; // map_loaded
    put_u16(&mut buf, gg + 8 + 6, 2); // difficulty
    put_str(&mut buf, gg + 8 + 12, b"bloodgulch");

    // Object pool header: capacity 2, max_entries 4, identifier zero invalid.
    let oh = HALO_OBJECT_POOL_HEADER_ADDR as usize;
    put_u16(&mut buf, oh + 32, 4); // max_entries
    put_u16(&mut buf, oh + 34, 12); // data_sizeof
    buf[oh + 36] = 1; // valid
    buf[oh + 37] = 1; // identifier_zero_invalid
    put_u32(&mut buf, oh + 40, POOL_SIGNATURE);
    put_u16(&mut buf, oh + 46, 2); // capacity
    put_u32(&mut buf, oh + 52, OBJECT_SLOTS as u32);
    // Slot 0: identifier 7, body address.
    put_u16(&mut buf, OBJECT_SLOTS, 7);
    put_u32(&mut buf, OBJECT_SLOTS + 8, OBJECT_BODY as u32);
    // Guarded body of tag index 5.
    let guard = OBJECT_BODY - OBJECT_LIST_HEADER_SIZE as usize;
    put_u32(&mut buf, guard, DEAH);
    put_u32(&mut buf, guard + 20, LIAT);
    put_u32(&mut buf, OBJECT_BODY, 5); // tag_index
    put_u32(&mut buf, OBJECT_BODY + 12, 0x3F800000); // position x bits

    // Player pool header: one slot, occupied.
    let ph = HALO_PLAYER_POOL_HEADER_ADDR as usize;
    put_u16(&mut buf, ph + 32, 2); // max_entries
    put_u16(&mut buf, ph + 34, 212); // data_sizeof
    buf[ph + 36] = 1; // valid
    buf[ph + 37] = 1; // identifier_zero_invalid
    put_u32(&mut buf, ph + 40, POOL_SIGNATURE);
    put_u16(&mut buf, ph + 46, 2); // capacity
    put_u32(&mut buf, ph + 52, PLAYER_SLOTS as u32);
    // Player slot 0: identifier 3, seat 1, controlling object slot 0 (id 7).
    put_u16(&mut buf, PLAYER_SLOTS, 3);
    put_u16(&mut buf, PLAYER_SLOTS + 2, 1);
    put_u32(&mut buf, PLAYER_SLOTS + 52, 0x0007_0000);

    // Player globals: seat 0 holds a dead-unit handle with slot index 0.
    let pg = HALO_PLAYER_GLOBALS_ADDR as usize;
    put_u32(&mut buf, pg + 20, 0x0009_0000);
    put_u16(&mut buf, pg + 36, 1); // local_player_count

    buf
}

#[test]
fn complete_snapshot_from_valid_image() {
    let snapshot = build_snapshot(&Memory::new(valid_image())).expect("all validations pass");
    assert_eq!(snapshot.object_entries.len(), 4);
    assert!(snapshot.object_entries[0].is_some());
    assert!(snapshot.object_entries[1].is_none());
    assert!(snapshot.object_entries[2].is_none());
    assert!(snapshot.object_entries[3].is_none());
    assert_eq!(snapshot.object_entries[0].as_ref().unwrap().tag_index, 5);

    assert_eq!(snapshot.map_name, "bloodgulch");
    assert_eq!(snapshot.object_header.max_entries, 4);
    assert_eq!(snapshot.object_header.capacity, 2);
    assert_eq!(snapshot.object_header_entries.len(), 4);
    assert_eq!(snapshot.object_header_entries[0].as_ref().unwrap().id, 7);
    assert_eq!(snapshot.player_entries.len(), 2);
    assert_eq!(snapshot.player_entries[0].as_ref().unwrap().id, 3);
    assert_eq!(snapshot.game_globals.game_options.difficulty, 2);
    assert_eq!(snapshot.player_globals.local_player_count, 1);
    assert_eq!(
        snapshot.tags.get(&5).map(|s| s.as_str()),
        Some("vehicles\\banshee")
    );
    assert_eq!(snapshot.tag_entries.get(&5).unwrap().tag_index, 5);
}

#[test]
fn snapshot_lookups_correlate_by_index_only() {
    let snapshot = build_snapshot(&Memory::new(valid_image())).unwrap();
    // The player's controlled-unit handle has slot index 0 and identifier 7;
    // lookup by index 0 must find seat 1 whatever the identifier half says.
    assert_eq!(snapshot.find_local_player_index_from_unit_index(0), Some(1));
    assert_eq!(snapshot.find_local_player_index_from_unit_index(1), None);
    // The dead-unit handle in seat 0 has slot index 0, identifier 9; a probe
    // handle with the same index but another identifier still matches.
    let probe = halo_snapshot::datum::Datum::from_parts(0, 0x1234);
    assert_eq!(snapshot.find_next_object_datum_player(probe), Some(0));
    let probe_other = halo_snapshot::datum::Datum::from_parts(3, 9);
    assert_eq!(snapshot.find_next_object_datum_player(probe_other), None);
    // Slot 0 holds the one object, so the first free slot is 1.
    assert_eq!(snapshot.find_first_free_object_index(), Some(1));
}

#[test]
fn corrupted_tag_footer_is_fatal() {
    let mut buf = valid_image();
    let th = HALO_TAG_HEADER_ADDR as usize;
    put_u32(&mut buf, th + 36, RNCS ^ 0x20);
    let r = build_snapshot(&Memory::new(buf));
    assert_eq!(r.err(), Some(EngineError::TagHeader));
}

#[test]
fn out_of_range_difficulty_is_fatal() {
    let mut buf = valid_image();
    let gg = HALO_GAME_GLOBALS_ADDR as usize;
    put_u16(&mut buf, gg + 8 + 6, 9);
    let r = build_snapshot(&Memory::new(buf));
    assert_eq!(r.err(), Some(EngineError::GameGlobals));
}

#[test]
fn corrupted_object_header_is_fatal() {
    let mut buf = valid_image();
    let oh = HALO_OBJECT_POOL_HEADER_ADDR as usize;
    put_u32(&mut buf, oh + 40, POOL_SIGNATURE ^ 1);
    let r = build_snapshot(&Memory::new(buf));
    assert_eq!(r.err(), Some(EngineError::ObjectHeader));
}

#[test]
fn cleared_player_header_flag_is_fatal() {
    let mut buf = valid_image();
    let ph = HALO_PLAYER_POOL_HEADER_ADDR as usize;
    buf[ph + 36] = 0;
    let r = build_snapshot(&Memory::new(buf));
    assert_eq!(r.err(), Some(EngineError::PlayerHeader));
}

#[test]
fn tag_header_is_checked_before_everything() {
    // Both the tag footer and the object header are corrupt; the tag header
    // is validated first and names the error.
    let mut buf = valid_image();
    let th = HALO_TAG_HEADER_ADDR as usize;
    put_u32(&mut buf, th + 36, 0);
    let oh = HALO_OBJECT_POOL_HEADER_ADDR as usize;
    put_u32(&mut buf, oh + 40, 0);
    let r = build_snapshot(&Memory::new(buf));
    assert_eq!(r.err(), Some(EngineError::TagHeader));
}
