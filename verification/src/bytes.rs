//! Little-endian numbers in byte sequences, and a cursor that reads them.

use vstd::prelude::*;
use vstd::slice::{slice_subrange, slice_to_vec};
use byteorder::{ByteOrder, LittleEndian};

verus! {

/// The byte of `s` at index `at`.
pub open spec fn u8_at(s: Seq<u8>, at: int) -> u8 {
    s[at]
}

/// The little-endian number in the two bytes of `s` from index `at` on: the
/// first byte counts ones, the second counts 256s.
pub open spec fn u16_at(s: Seq<u8>, at: int) -> u16 {
    (s[at] + 0x100 * s[at + 1]) as u16
}

/// The little-endian number in the four bytes of `s` from index `at` on: the
/// low half comes first.
pub open spec fn u32_at(s: Seq<u8>, at: int) -> u32 {
    (u16_at(s, at) + 0x1_0000 * u16_at(s, at + 2)) as u32
}

/// The little-endian number in the eight bytes of `s` from index `at` on:
/// the low half comes first.
pub open spec fn u64_at(s: Seq<u8>, at: int) -> u64 {
    (u32_at(s, at) + 0x1_0000_0000 * u32_at(s, at + 4)) as u64
}

/// The little-endian number in the sixteen bytes of `s` from index `at` on:
/// the low half comes first.
pub open spec fn u128_at(s: Seq<u8>, at: int) -> u128 {
    (u64_at(s, at) + 0x1_0000_0000_0000_0000 * u64_at(s, at + 8)) as u128
}

/// The signed number whose two's complement in 32 bits is `v`.
pub open spec fn signed_32(v: u32) -> i32 {
    if v < 0x8000_0000 {
        v as i32
    } else {
        (v - 0x1_0000_0000) as i32
    }
}

/// The little-endian two's complement number in the four bytes of `s` from
/// index `at` on.
pub open spec fn i32_at(s: Seq<u8>, at: int) -> i32 {
    signed_32(u32_at(s, at))
}

/// `byteorder`'s `LittleEndian::read_u16`: the number in the first two bytes
/// of `buf`, least significant byte first. It panics on a shorter `buf`.
#[verifier::external_body]
fn le_u16(buf: &[u8]) -> (r: u16)
    requires
        buf@.len() >= 2,
    ensures
        r == u16_at(buf@, 0),
{
    LittleEndian::read_u16(buf)
}

/// `byteorder`'s `LittleEndian::read_u32`: the number in the first four bytes
/// of `buf`, least significant byte first. It panics on a shorter `buf`.
#[verifier::external_body]
fn le_u32(buf: &[u8]) -> (r: u32)
    requires
        buf@.len() >= 4,
    ensures
        r == u32_at(buf@, 0),
{
    LittleEndian::read_u32(buf)
}

/// `byteorder`'s `LittleEndian::read_u64`: the number in the first eight bytes
/// of `buf`, least significant byte first. It panics on a shorter `buf`.
#[verifier::external_body]
fn le_u64(buf: &[u8]) -> (r: u64)
    requires
        buf@.len() >= 8,
    ensures
        r == u64_at(buf@, 0),
{
    LittleEndian::read_u64(buf)
}

/// `byteorder`'s `LittleEndian::read_u128`: the number in the first sixteen
/// bytes of `buf`, least significant byte first. It panics on a shorter `buf`.
#[verifier::external_body]
fn le_u128(buf: &[u8]) -> (r: u128)
    requires
        buf@.len() >= 16,
    ensures
        r == u128_at(buf@, 0),
{
    LittleEndian::read_u128(buf)
}

/// `byteorder`'s `LittleEndian::read_i32`: the first four bytes of `buf`, least
/// significant byte first, read as a two's complement number. It panics on a
/// shorter `buf`.
#[verifier::external_body]
fn le_i32(buf: &[u8]) -> (r: i32)
    requires
        buf@.len() >= 4,
    ensures
        r == i32_at(buf@, 0),
{
    LittleEndian::read_i32(buf)
}

/// The little-endian number in the two bytes of `s` from index `at` on.
pub fn get_u16(s: &[u8], at: usize) -> (r: u16)
    requires
        at + 2 <= s@.len(),
    ensures
        r == u16_at(s@, at as int),
{
    le_u16(slice_subrange(s, at, s.len()))
}

/// The little-endian number in the four bytes of `s` from index `at` on.
pub fn get_u32(s: &[u8], at: usize) -> (r: u32)
    requires
        at + 4 <= s@.len(),
    ensures
        r == u32_at(s@, at as int),
{
    le_u32(slice_subrange(s, at, s.len()))
}

/// The little-endian two's complement number in the four bytes of `s` from
/// index `at` on.
pub fn get_i32(s: &[u8], at: usize) -> (r: i32)
    requires
        at + 4 <= s@.len(),
    ensures
        r == i32_at(s@, at as int),
{
    le_i32(slice_subrange(s, at, s.len()))
}

/// The little-endian number in the eight bytes of `s` from index `at` on.
pub fn get_u64(s: &[u8], at: usize) -> (r: u64)
    requires
        at + 8 <= s@.len(),
    ensures
        r == u64_at(s@, at as int),
{
    le_u64(slice_subrange(s, at, s.len()))
}

/// The little-endian number in the sixteen bytes of `s` from index `at` on.
pub fn get_u128(s: &[u8], at: usize) -> (r: u128)
    requires
        at + 16 <= s@.len(),
    ensures
        r == u128_at(s@, at as int),
{
    le_u128(slice_subrange(s, at, s.len()))
}

/// Bytes with a read position in them. A read that asks for more bytes than
/// are left fails and leaves the position at the end, so that every later
/// read of at least one byte fails too.
pub struct ByteCursor {
    data: Vec<u8>,
    pos: usize,
}

impl ByteCursor {
    #[verifier::type_invariant]
    spec fn in_bounds(self) -> bool {
        self.pos <= self.data.len()
    }

    /// All the bytes, read or not.
    pub closed spec fn bytes(self) -> Seq<u8> {
        self.data@
    }

    /// The index of the next byte to read.
    pub closed spec fn position(self) -> nat {
        self.pos as nat
    }

    /// Whether `n` more bytes can be read.
    pub open spec fn has(self, n: int) -> bool {
        self.position() + n <= self.bytes().len()
    }

    /// Where the position stands after a read of `n` bytes.
    pub open spec fn after(self, n: int) -> int {
        if self.has(n) {
            self.position() + n
        } else {
            self.bytes().len() as int
        }
    }

    /// How a read of `n` bytes leaves the cursor: the bytes as they were, the
    /// position after the read.
    pub open spec fn moved(self, old_cursor: ByteCursor, n: int) -> bool {
        &&& self.bytes() == old_cursor.bytes()
        &&& self.position() == old_cursor.after(n)
    }

    /// A cursor at the start of `data`.
    pub fn new(data: Vec<u8>) -> (c: ByteCursor)
        ensures
            c.bytes() == data@,
            c.position() == 0,
    {
        ByteCursor { data, pos: 0 }
    }

    /// The index of the next byte to read.
    pub fn offset(&self) -> (r: usize)
        ensures
            r == self.position(),
            r <= self.bytes().len(),
    {
        proof {
            use_type_invariant(self);
        }
        self.pos
    }

    /// The number of bytes in all.
    pub fn len(&self) -> (r: usize)
        ensures
            r == self.bytes().len(),
    {
        self.data.len()
    }

    /// Moves the position to `to`, or to the end where `to` lies beyond it.
    pub fn seek(&mut self, to: u64)
        ensures
            final(self).bytes() == old(self).bytes(),
            final(self).position() == if to <= old(self).bytes().len() {
                to as int
            } else {
                old(self).bytes().len() as int
            },
    {
        let n: usize = self.data.len();
        if to <= n as u64 {
            self.pos = to as usize;
        } else {
            self.pos = n;
        }
    }

    /// The bytes that are left to read.
    pub fn rest(&self) -> (r: &[u8])
        ensures
            r@ == self.bytes().skip(self.position() as int),
            self.position() <= self.bytes().len(),
    {
        proof {
            use_type_invariant(self);
        }
        slice_subrange(self.data.as_slice(), self.pos, self.data.len())
    }

    /// Moves the position to the end.
    pub fn seek_end(&mut self)
        ensures
            final(self).bytes() == old(self).bytes(),
            final(self).position() == old(self).bytes().len(),
    {
        self.pos = self.data.len();
    }

    /// Whether `n` more bytes can be read.
    pub fn can_read(&self, n: usize) -> (r: bool)
        ensures
            r == self.has(n as int),
    {
        proof {
            use_type_invariant(self);
        }
        n <= self.data.len() - self.pos
    }

    /// Passes over the next `n` bytes, as a read of them does.
    pub fn skip(&mut self, n: usize) -> (r: bool)
        ensures
            final(self).moved(*old(self), n as int),
            r == old(self).has(n as int),
    {
        proof {
            use_type_invariant(&*self);
        }
        if n <= self.data.len() - self.pos {
            self.pos = self.pos + n;
            true
        } else {
            self.pos = self.data.len();
            false
        }
    }

    /// Reads one byte.
    pub fn read_u8(&mut self) -> (r: Option<u8>)
        ensures
            final(self).moved(*old(self), 1),
            r == if old(self).has(1) {
                Some(u8_at(old(self).bytes(), old(self).position() as int))
            } else {
                None
            },
    {
        proof {
            use_type_invariant(&*self);
        }
        if self.pos < self.data.len() {
            let v: u8 = self.data[self.pos];
            self.pos = self.pos + 1;
            Some(v)
        } else {
            self.pos = self.data.len();
            None
        }
    }

    /// Reads a little-endian number of two bytes.
    pub fn read_u16(&mut self) -> (r: Option<u16>)
        ensures
            final(self).moved(*old(self), 2),
            r == if old(self).has(2) {
                Some(u16_at(old(self).bytes(), old(self).position() as int))
            } else {
                None
            },
    {
        proof {
            use_type_invariant(&*self);
        }
        if 2 <= self.data.len() - self.pos {
            let v: u16 = get_u16(self.data.as_slice(), self.pos);
            self.pos = self.pos + 2;
            Some(v)
        } else {
            self.pos = self.data.len();
            None
        }
    }

    /// Reads a little-endian number of four bytes.
    pub fn read_u32(&mut self) -> (r: Option<u32>)
        ensures
            final(self).moved(*old(self), 4),
            r == if old(self).has(4) {
                Some(u32_at(old(self).bytes(), old(self).position() as int))
            } else {
                None
            },
    {
        proof {
            use_type_invariant(&*self);
        }
        if 4 <= self.data.len() - self.pos {
            let v: u32 = get_u32(self.data.as_slice(), self.pos);
            self.pos = self.pos + 4;
            Some(v)
        } else {
            self.pos = self.data.len();
            None
        }
    }

    /// Reads a little-endian two's complement number of four bytes.
    pub fn read_i32(&mut self) -> (r: Option<i32>)
        ensures
            final(self).moved(*old(self), 4),
            r == if old(self).has(4) {
                Some(i32_at(old(self).bytes(), old(self).position() as int))
            } else {
                None
            },
    {
        proof {
            use_type_invariant(&*self);
        }
        if 4 <= self.data.len() - self.pos {
            let v: i32 = get_i32(self.data.as_slice(), self.pos);
            self.pos = self.pos + 4;
            Some(v)
        } else {
            self.pos = self.data.len();
            None
        }
    }

    /// Reads a little-endian number of eight bytes.
    pub fn read_u64(&mut self) -> (r: Option<u64>)
        ensures
            final(self).moved(*old(self), 8),
            r == if old(self).has(8) {
                Some(u64_at(old(self).bytes(), old(self).position() as int))
            } else {
                None
            },
    {
        proof {
            use_type_invariant(&*self);
        }
        if 8 <= self.data.len() - self.pos {
            let v: u64 = get_u64(self.data.as_slice(), self.pos);
            self.pos = self.pos + 8;
            Some(v)
        } else {
            self.pos = self.data.len();
            None
        }
    }

    /// Reads a little-endian number of sixteen bytes.
    pub fn read_u128(&mut self) -> (r: Option<u128>)
        ensures
            final(self).moved(*old(self), 16),
            r == if old(self).has(16) {
                Some(u128_at(old(self).bytes(), old(self).position() as int))
            } else {
                None
            },
    {
        proof {
            use_type_invariant(&*self);
        }
        if 16 <= self.data.len() - self.pos {
            let v: u128 = get_u128(self.data.as_slice(), self.pos);
            self.pos = self.pos + 16;
            Some(v)
        } else {
            self.pos = self.data.len();
            None
        }
    }

    /// Reads the next `n` bytes.
    pub fn read_exact(&mut self, n: usize) -> (r: Option<Vec<u8>>)
        ensures
            final(self).moved(*old(self), n as int),
            r.is_some() == old(self).has(n as int),
            r matches Some(v) ==> v@ == old(self).bytes().subrange(
                old(self).position() as int,
                old(self).position() + n,
            ),
    {
        proof {
            use_type_invariant(&*self);
        }
        if n <= self.data.len() - self.pos {
            let field = slice_subrange(self.data.as_slice(), self.pos, self.pos + n);
            let v: Vec<u8> = slice_to_vec(field);
            self.pos = self.pos + n;
            Some(v)
        } else {
            self.pos = self.data.len();
            None
        }
    }
}

} // verus!
