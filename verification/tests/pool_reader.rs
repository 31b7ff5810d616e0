use halo_snapshot::engine::ObjectHeaderEntry;
use halo_snapshot::entity::{EntityManager, POOL_SIGNATURE};
use halo_snapshot::memory::Memory;

fn put_u16(buf: &mut Vec<u8>, addr: usize, v: u16) {
    let b = v.to_le_bytes();
    buf[addr] = b[0];
    buf[addr + 1] = b[1];
}

fn put_u32(buf: &mut Vec<u8>, addr: usize, v: u32) {
    let b = v.to_le_bytes();
    for (k, &byte) in b.iter().enumerate() {
        buf[addr + k] = byte;
    }
}

struct HeaderSpec {
    max_entries: u16,
    data_sizeof: u16,
    valid: u8,
    identifier_zero_invalid: u8,
    signature: u32,
    capacity: u16,
    data_begin: u32,
}

fn put_header(buf: &mut Vec<u8>, addr: usize, h: &HeaderSpec) {
    put_u16(buf, addr + 32, h.max_entries);
    put_u16(buf, addr + 34, h.data_sizeof);
    buf[addr + 36] = h.valid;
    buf[addr + 37] = h.identifier_zero_invalid;
    put_u32(buf, addr + 40, h.signature);
    put_u16(buf, addr + 46, h.capacity);
    put_u32(buf, addr + 52, h.data_begin);
}

fn default_header() -> HeaderSpec {
    HeaderSpec {
        max_entries: 4,
        data_sizeof: 12,
        valid: 1,
        identifier_zero_invalid: 1,
        signature: POOL_SIGNATURE,
        capacity: 2,
        data_begin: 0x200,
    }
}

#[test]
fn header_decode_reads_fields() {
    let mut buf = vec![0u8; 0x400];
    put_header(&mut buf, 0x40, &default_header());
    put_u16(&mut buf, 0x40 + 44, 9);
    put_u16(&mut buf, 0x40 + 50, 77);
    let mem = Memory::new(buf);
    let h = EntityManager::decode(&mem, 0x40);
    assert_eq!(h.max_entries, 4);
    assert_eq!(h.data_sizeof, 12);
    assert_eq!(h.valid, 1);
    assert_eq!(h.identifier_zero_invalid, 1);
    assert_eq!(h.signature, POOL_SIGNATURE);
    assert_eq!(h.capacity, 2);
    assert_eq!(h.data_begin, 0x200);
    assert_eq!(h.next_index, 9);
    assert_eq!(h.next_id, 77);
    assert!(h.is_signature_valid());
    assert!(h.is_valid());
}

#[test]
fn header_validity_needs_signature_and_flag() {
    let mut spec = default_header();
    spec.signature = POOL_SIGNATURE ^ 1;
    let mut buf = vec![0u8; 0x400];
    put_header(&mut buf, 0x40, &spec);
    let mem = Memory::new(buf);
    let h = EntityManager::decode(&mem, 0x40);
    assert!(!h.is_signature_valid());
    assert!(!h.is_valid());

    let mut spec2 = default_header();
    spec2.valid = 0;
    let mut buf2 = vec![0u8; 0x400];
    put_header(&mut buf2, 0x40, &spec2);
    let mem2 = Memory::new(buf2);
    let h2 = EntityManager::decode(&mem2, 0x40);
    assert!(h2.is_signature_valid());
    assert!(!h2.is_valid());
}

#[test]
fn reader_returns_max_entries_regardless_of_capacity() {
    let mut buf = vec![0u8; 0x400];
    put_header(&mut buf, 0x40, &default_header());
    // Both scanned slots occupied.
    put_u16(&mut buf, 0x200, 7);
    put_u16(&mut buf, 0x200 + 12, 8);
    let mem = Memory::new(buf);
    let h = EntityManager::decode(&mem, 0x40);
    let entries: Vec<Option<ObjectHeaderEntry>> = h.read(&mem);
    assert_eq!(entries.len(), 4);
    assert!(entries[0].is_some());
    assert!(entries[1].is_some());
    assert!(entries[2].is_none());
    assert!(entries[3].is_none());
}

#[test]
fn reader_with_full_capacity() {
    let mut spec = default_header();
    spec.capacity = 4;
    let mut buf = vec![0u8; 0x400];
    put_header(&mut buf, 0x40, &spec);
    for i in 0..4usize {
        put_u16(&mut buf, 0x200 + 12 * i, (i + 1) as u16);
    }
    let mem = Memory::new(buf);
    let h = EntityManager::decode(&mem, 0x40);
    let entries: Vec<Option<ObjectHeaderEntry>> = h.read(&mem);
    assert_eq!(entries.len(), 4);
    for i in 0..4usize {
        assert_eq!(entries[i].as_ref().unwrap().id, (i + 1) as u16);
    }
}

#[test]
fn zero_identifier_slot_is_absent_when_flag_enabled() {
    let mut buf = vec![0u8; 0x400];
    put_header(&mut buf, 0x40, &default_header());
    // Slot 0 keeps identifier zero, slot 1 is occupied.
    put_u16(&mut buf, 0x200 + 12, 5);
    let mem = Memory::new(buf);
    let h = EntityManager::decode(&mem, 0x40);
    let entries: Vec<Option<ObjectHeaderEntry>> = h.read(&mem);
    assert!(entries[0].is_none());
    assert!(entries[1].is_some());
}

#[test]
fn zero_identifier_slot_is_present_when_flag_disabled() {
    let mut spec = default_header();
    spec.identifier_zero_invalid = 0;
    let mut buf = vec![0u8; 0x400];
    put_header(&mut buf, 0x40, &spec);
    let mem = Memory::new(buf);
    let h = EntityManager::decode(&mem, 0x40);
    let entries: Vec<Option<ObjectHeaderEntry>> = h.read(&mem);
    assert!(entries[0].is_some());
    assert!(entries[1].is_some());
    assert!(entries[2].is_none());
    assert_eq!(entries[0].as_ref().unwrap().id, 0);
}

#[test]
fn reader_decodes_slot_fields() {
    let mut buf = vec![0u8; 0x400];
    put_header(&mut buf, 0x40, &default_header());
    put_u16(&mut buf, 0x200, 7);
    buf[0x200 + 3] = 1; // data_type
    put_u16(&mut buf, 0x200 + 6, 420);
    put_u32(&mut buf, 0x200 + 8, 0x80001234);
    let mem = Memory::new(buf);
    let h = EntityManager::decode(&mem, 0x40);
    let entries: Vec<Option<ObjectHeaderEntry>> = h.read(&mem);
    let e = entries[0].as_ref().unwrap();
    assert_eq!(e.id, 7);
    assert_eq!(e.data_type, 1);
    assert_eq!(e.data_sizeof, 420);
    assert_eq!(e.object_address, 0x80001234);
}

#[test]
fn reader_with_zero_max_entries_is_empty() {
    let mut spec = default_header();
    spec.max_entries = 0;
    let mut buf = vec![0u8; 0x400];
    put_header(&mut buf, 0x40, &spec);
    let mem = Memory::new(buf);
    let h = EntityManager::decode(&mem, 0x40);
    let entries: Vec<Option<ObjectHeaderEntry>> = h.read(&mem);
    assert!(entries.is_empty());
}

#[test]
fn reader_data_begin_is_fixed_up() {
    let mut spec = default_header();
    // Tagged pointer: the top octet must be masked before indexing.
    spec.data_begin = 0x80000200;
    let mut buf = vec![0u8; 0x400];
    put_header(&mut buf, 0x40, &spec);
    put_u16(&mut buf, 0x200, 42);
    let mem = Memory::new(buf);
    let h = EntityManager::decode(&mem, 0x40);
    let entries: Vec<Option<ObjectHeaderEntry>> = h.read(&mem);
    assert_eq!(entries[0].as_ref().unwrap().id, 42);
}
