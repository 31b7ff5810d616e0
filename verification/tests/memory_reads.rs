use halo_snapshot::memory::Memory;

#[test]
fn reads_are_little_endian() {
    let mem = Memory::new(vec![0x34, 0x12, 0x78, 0x56, 0xFF, 0x00]);
    assert_eq!(mem.read_u8(0), 0x34);
    assert_eq!(mem.read_u16(0), 0x1234);
    assert_eq!(mem.read_u16(2), 0x5678);
    assert_eq!(mem.read_u32(0), 0x56781234);
}

#[test]
fn signed_reads_use_twos_complement() {
    let mem = Memory::new(vec![0xFF, 0xFF, 0xFE, 0xFF, 0xFF, 0xFF, 0x02, 0x00]);
    assert_eq!(mem.read_i16(0), -1);
    assert_eq!(mem.read_i16(2), -2);
    assert_eq!(mem.read_i32(2), -2);
    assert_eq!(mem.read_i16(6), 2);
    let mem2 = Memory::new(vec![0x00, 0x80, 0x00, 0x00, 0x00, 0x80]);
    assert_eq!(mem2.read_i16(0), i16::MIN);
    assert_eq!(mem2.read_i32(2), i32::MIN);
}

#[test]
fn out_of_window_reads_are_zero() {
    let mem = Memory::new(vec![0xAB, 0xCD]);
    assert_eq!(mem.read_u8(2), 0);
    assert_eq!(mem.read_u8(u64::MAX), 0);
    // The second byte of this u16 lies outside the window.
    assert_eq!(mem.read_u16(1), 0x00CD);
    assert_eq!(mem.read_u32(0), 0x0000CDAB);
    assert_eq!(mem.read_u32(100), 0);
}

#[test]
fn fix_pointer_clears_top_octet() {
    assert_eq!(Memory::fix_pointer(0x813A6000), 0x3A6000);
    assert_eq!(Memory::fix_pointer(0xFFFFFFFF), 0x00FFFFFF);
    assert_eq!(Memory::fix_pointer(0x00B9370), 0xB9370);
    assert_eq!(Memory::fix_pointer(0), 0);
}

#[test]
fn read_str_decodes_terminated_text() {
    let mut bytes = vec![0u8; 32];
    let s = b"weapons\\pistol";
    bytes[4..4 + s.len()].copy_from_slice(s);
    let mem = Memory::new(bytes);
    assert_eq!(mem.read_str(4).as_deref(), Some("weapons\\pistol"));
}

#[test]
fn read_str_empty_at_nul() {
    let mem = Memory::new(vec![0u8, b'a', 0u8]);
    assert_eq!(mem.read_str(0).as_deref(), Some(""));
    assert_eq!(mem.read_str(1).as_deref(), Some("a"));
}

#[test]
fn read_str_window_end_terminates() {
    let mem = Memory::new(vec![b'a', b'b', b'c']);
    assert_eq!(mem.read_str(0).as_deref(), Some("abc"));
    assert_eq!(mem.read_str(5).as_deref(), Some(""));
}

#[test]
fn read_str_rejects_invalid_encoding() {
    let mem = Memory::new(vec![0xFF, 0xFE, 0xFD, 0x00]);
    assert!(mem.read_str(0).is_none());
    let mem2 = Memory::new(vec![0xC3, 0xA9, 0x00]);
    assert_eq!(mem2.read_str(0).as_deref(), Some("\u{e9}"));
}
