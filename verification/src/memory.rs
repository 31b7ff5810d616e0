//! The captured byte image of the observed process's memory, and the primitive
//! decoding operations on it.
//!
//! All multi-byte reads are little-endian.  A read outside the captured window
//! yields zero bytes: the observed process gives no guarantee about what any
//! address holds, so a total, deterministic convention is both safe and honest
//! here, and every consumer of a read validates what it decodes anyway.

use vstd::prelude::*;
use vstd::utf8::{decode_utf8, valid_utf8};

verus! {

/// The byte found at `addr`, with bytes outside the window reading as zero.
pub open spec fn byte_at(mem: Seq<u8>, addr: int) -> u8 {
    if 0 <= addr < mem.len() {
        mem[addr]
    } else {
        0
    }
}

/// The little-endian 16-bit value beginning at `addr`.
pub open spec fn u16_at(mem: Seq<u8>, addr: int) -> u16 {
    (byte_at(mem, addr) + 256 * byte_at(mem, addr + 1)) as u16
}

/// The little-endian 32-bit value beginning at `addr`.
pub open spec fn u32_at(mem: Seq<u8>, addr: int) -> u32 {
    (byte_at(mem, addr) + 0x100 * byte_at(mem, addr + 1) + 0x10000 * byte_at(mem, addr + 2)
        + 0x1000000 * byte_at(mem, addr + 3)) as u32
}

/// The little-endian 16-bit value beginning at `addr`, taken as two's-complement.
pub open spec fn i16_at(mem: Seq<u8>, addr: int) -> i16 {
    let v = u16_at(mem, addr) as int;
    if v < 0x8000 {
        v as i16
    } else {
        (v - 0x10000) as i16
    }
}

/// The little-endian 32-bit value beginning at `addr`, taken as two's-complement.
pub open spec fn i32_at(mem: Seq<u8>, addr: int) -> i32 {
    let v = u32_at(mem, addr) as int;
    if v < 0x80000000 {
        v as i32
    } else {
        (v - 0x100000000) as i32
    }
}

/// A raw pointer of the observed process with its tag octet cleared: the top
/// byte of a stored 32-bit address is not address material and must be masked
/// before the value can index the captured window.
pub open spec fn spec_fix_pointer(ptr: u32) -> u32 {
    ptr & 0x00FFFFFF
}

/// A fixed-up pointer always fits in the low 24 bits.
pub broadcast proof fn lemma_fix_pointer_bound(ptr: u32)
    ensures
        #[trigger] spec_fix_pointer(ptr) <= 0xFFFFFF,
{
    assert(ptr & 0x00FFFFFF <= 0xFFFFFF) by (bit_vector);
}

/// The position of the first zero byte at or after `addr`; the end of the
/// window counts as a zero byte, so the position always exists.
pub open spec fn nul_pos(mem: Seq<u8>, addr: int) -> int
    decreases mem.len() - addr,
{
    if byte_at(mem, addr) == 0 {
        addr
    } else {
        nul_pos(mem, addr + 1)
    }
}

/// The bytes of the zero-terminated string beginning at `addr`, without the
/// terminator.
pub open spec fn cstr_bytes_at(mem: Seq<u8>, addr: int) -> Seq<u8> {
    Seq::new((nul_pos(mem, addr) - addr) as nat, |i: int| byte_at(mem, addr + i))
}

/// The first zero position never precedes the start address.
pub proof fn lemma_nul_pos_ge(mem: Seq<u8>, addr: int)
    ensures
        nul_pos(mem, addr) >= addr,
    decreases mem.len() - addr,
{
    if byte_at(mem, addr) != 0 {
        lemma_nul_pos_ge(mem, addr + 1);
    }
}

/// One byte image, captured once per sampling cycle and immutable afterwards.
pub struct Memory {
    bytes: Vec<u8>,
}

impl View for Memory {
    type V = Seq<u8>;

    closed spec fn view(&self) -> Seq<u8> {
        self.bytes@
    }
}

impl Memory {
    /// Wraps a captured byte buffer.
    pub fn new(bytes: Vec<u8>) -> (r: Memory)
        ensures
            r@ == bytes@,
    {
        Memory { bytes }
    }

    /// Clears the most-significant byte of a stored 32-bit address.
    pub fn fix_pointer(ptr: u32) -> (r: u32)
        ensures
            r == spec_fix_pointer(ptr),
            r <= 0xFFFFFF,
    {
        proof {
            lemma_fix_pointer_bound(ptr);
        }
        ptr & 0x00FFFFFF
    }

    /// Reads one byte; zero outside the captured window.
    pub fn read_u8(&self, addr: u64) -> (r: u8)
        ensures
            r == byte_at(self@, addr as int),
    {
        let n: usize = self.bytes.len();
        if addr < n as u64 {
            self.bytes[addr as usize]
        } else {
            0
        }
    }

    /// Reads one byte at `addr + off` without overflowing the address space.
    pub fn read_u8_off(&self, addr: u64, off: u64) -> (r: u8)
        ensures
            r == byte_at(self@, addr as int + off as int),
    {
        if addr <= u64::MAX - off {
            self.read_u8(addr + off)
        } else {
            proof {
                assert(self.bytes.len() == self@.len());
                assert(addr as int + off as int > u64::MAX);
            }
            0
        }
    }

    /// Reads a little-endian 16-bit value.
    pub fn read_u16(&self, addr: u64) -> (r: u16)
        ensures
            r == u16_at(self@, addr as int),
    {
        let b0 = self.read_u8_off(addr, 0);
        let b1 = self.read_u8_off(addr, 1);
        (b0 as u16) + 256 * (b1 as u16)
    }

    /// Reads a little-endian 32-bit value.
    pub fn read_u32(&self, addr: u64) -> (r: u32)
        ensures
            r == u32_at(self@, addr as int),
    {
        let b0 = self.read_u8_off(addr, 0);
        let b1 = self.read_u8_off(addr, 1);
        let b2 = self.read_u8_off(addr, 2);
        let b3 = self.read_u8_off(addr, 3);
        (b0 as u32) + 0x100 * (b1 as u32) + 0x10000 * (b2 as u32) + 0x1000000 * (b3 as u32)
    }

    /// Reads a little-endian 16-bit value at `addr + off` without overflowing
    /// the address space.
    pub fn read_u16_off(&self, addr: u64, off: u64) -> (r: u16)
        ensures
            r == u16_at(self@, addr as int + off as int),
    {
        if addr <= u64::MAX - off {
            self.read_u16(addr + off)
        } else {
            proof {
                assert(self.bytes.len() == self@.len());
                assert(addr as int + off as int > u64::MAX);
            }
            0
        }
    }

    /// Reads a little-endian 32-bit value at `addr + off` without overflowing
    /// the address space.
    pub fn read_u32_off(&self, addr: u64, off: u64) -> (r: u32)
        ensures
            r == u32_at(self@, addr as int + off as int),
    {
        if addr <= u64::MAX - off {
            self.read_u32(addr + off)
        } else {
            proof {
                assert(self.bytes.len() == self@.len());
                assert(addr as int + off as int > u64::MAX);
            }
            0
        }
    }

    /// Reads a little-endian 16-bit value as two's-complement.
    pub fn read_i16(&self, addr: u64) -> (r: i16)
        ensures
            r == i16_at(self@, addr as int),
    {
        let v: u16 = self.read_u16(addr);
        if v < 0x8000 {
            v as i16
        } else {
            ((v - 0x8000) as i16) - 0x7FFF - 1
        }
    }

    /// Reads a little-endian 16-bit value at `addr + off` as two's-complement.
    pub fn read_i16_off(&self, addr: u64, off: u64) -> (r: i16)
        ensures
            r == i16_at(self@, addr as int + off as int),
    {
        let v: u16 = self.read_u16_off(addr, off);
        if v < 0x8000 {
            v as i16
        } else {
            ((v - 0x8000) as i16) - 0x7FFF - 1
        }
    }

    /// Reads a little-endian 32-bit value at `addr + off` as two's-complement.
    pub fn read_i32_off(&self, addr: u64, off: u64) -> (r: i32)
        ensures
            r == i32_at(self@, addr as int + off as int),
    {
        let v: u32 = self.read_u32_off(addr, off);
        if v < 0x80000000 {
            v as i32
        } else {
            ((v - 0x80000000) as i32) - 0x7FFFFFFF - 1
        }
    }

    /// Reads a little-endian 32-bit value as two's-complement.
    pub fn read_i32(&self, addr: u64) -> (r: i32)
        ensures
            r == i32_at(self@, addr as int),
    {
        let v: u32 = self.read_u32(addr);
        if v < 0x80000000 {
            v as i32
        } else {
            ((v - 0x80000000) as i32) - 0x7FFFFFFF - 1
        }
    }

    /// Reads the zero-terminated string at `addr`; `None` when its bytes are
    /// not a valid text encoding.
    pub fn read_str(&self, addr: u64) -> (r: Option<String>)
        ensures
            r is Some <==> valid_utf8(cstr_bytes_at(self@, addr as int)),
            r matches Some(s) ==> s@ == decode_utf8(cstr_bytes_at(self@, addr as int)),
    {
        let ghost end: int = nul_pos(self@, addr as int);
        proof {
            lemma_nul_pos_ge(self@, addr as int);
        }
        let mut bytes: Vec<u8> = Vec::new();
        let mut i: u64 = addr;
        loop
            invariant
                addr <= i,
                i as int <= end,
                end == nul_pos(self@, i as int),
                end == nul_pos(self@, addr as int),
                bytes@ == Seq::new((i - addr) as nat, |k: int| byte_at(self@, addr as int + k)),
            ensures
                i as int == end,
                bytes@ == Seq::new((end - addr as int) as nat, |k: int| byte_at(self@, addr as int + k)),
            decreases end - i,
        {
            let b = self.read_u8(i);
            if b == 0 {
                proof {
                    assert(nul_pos(self@, i as int) == i as int);
                }
                break ;
            }
            proof {
                assert(0 <= i as int && (i as int) < self@.len());
                assert(self.bytes.len() == self@.len());
                assert(nul_pos(self@, i as int) == nul_pos(self@, i as int + 1));
                lemma_nul_pos_ge(self@, i as int + 1);
            }
            bytes.push(b);
            i = i + 1;
            proof {
                assert(bytes@ =~= Seq::new(
                    (i - addr) as nat,
                    |k: int| byte_at(self@, addr as int + k),
                ));
            }
        }
        proof {
            assert(bytes@ =~= cstr_bytes_at(self@, addr as int));
        }
        utf8_to_string(bytes)
    }
}

/// Relies on `String::from_utf8`: it succeeds exactly on byte sequences that
/// are valid UTF-8 and yields the string those bytes encode, as stated over
/// vstd's UTF-8 model.
#[verifier::external_body]
pub(crate) fn utf8_to_string(bytes: Vec<u8>) -> (r: Option<String>)
    ensures
        r is Some <==> valid_utf8(bytes@),
        r matches Some(s) ==> s@ == decode_utf8(bytes@),
{
    match String::from_utf8(bytes) {
        Ok(s) => Some(s),
        Err(_) => None,
    }
}

} // verus!
