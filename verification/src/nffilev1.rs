//! The header and the statistics record of a version 1 archive.

use vstd::prelude::*;
use crate::bytes::{get_u16, get_u32, get_u64, u16_at, u32_at, u64_at};

verus! {

/// The fixed header of a version 1 archive.
#[derive(Debug, Clone, PartialEq, Eq)]
pub struct NfFileHeaderV1 {
    pub magic: u16,
    pub version: u16,
    pub flags: u32,
    pub num_blocks: u32,
    pub ident: [u8; 128],
}

/// The fixed header of a version 1 archive, with its identity as a sequence.
pub struct NfFileHeaderV1View {
    pub magic: u16,
    pub version: u16,
    pub flags: u32,
    pub num_blocks: u32,
    pub ident: Seq<u8>,
}

impl View for NfFileHeaderV1 {
    type V = NfFileHeaderV1View;

    open spec fn view(&self) -> NfFileHeaderV1View {
        NfFileHeaderV1View {
            magic: self.magic,
            version: self.version,
            flags: self.flags,
            num_blocks: self.num_blocks,
            ident: self.ident@,
        }
    }
}

impl NfFileHeaderV1 {
    /// The number of bytes that the header takes after the magic constant and
    /// the version.
    pub const SIZE: usize = 136;

    /// The header as the bytes `d` after the magic constant and the version
    /// hold it. The identity is the 128 bytes after the two numbers, or 128
    /// zero bytes where `d` ends before them.
    pub open spec fn of(d: Seq<u8>) -> NfFileHeaderV1View {
        NfFileHeaderV1View {
            magic: 0xa50c,
            version: 1,
            flags: u32_at(d, 0),
            num_blocks: u32_at(d, 4),
            ident: if d.len() >= NfFileHeaderV1::SIZE {
                d.subrange(8, 136)
            } else {
                Seq::new(128, |i: int| 0u8)
            },
        }
    }

    /// Decodes the header from the bytes after the magic constant and the
    /// version.
    pub fn from(value: Vec<u8>) -> (r: NfFileHeaderV1)
        requires
            value@.len() >= 8,
        ensures
            r@ == NfFileHeaderV1::of(value@),
    {
        let d = value.as_slice();
        let mut ident: [u8; 128] = [0; 128];
        if d.len() >= NfFileHeaderV1::SIZE {
            let mut i: usize = 0;
            while i < 128
                invariant
                    i <= 128,
                    d@.len() >= NfFileHeaderV1::SIZE,
                    forall|k: int| 0 <= k < i ==> ident@[k] == d@[8 + k],
                decreases 128 - i,
            {
                ident[i] = d[8 + i];
                i = i + 1;
            }
            assert(ident@ == d@.subrange(8, 136));
        } else {
            assert(ident@ == Seq::new(128, |i: int| 0u8));
        }
        NfFileHeaderV1 { magic: 0xa50c, version: 1, flags: get_u32(d, 0), num_blocks: get_u32(d, 4), ident }
    }
}

/// The statistics record that follows the header of a version 1 archive.
#[derive(Debug, Clone, Copy, PartialEq, Eq)]
pub struct StatRecordV1 {
    pub flows: u64,
    pub bytes: u64,
    pub packets: u64,
    pub flows_tcp: u64,
    pub flows_udp: u64,
    pub flows_icmp: u64,
    pub flows_other: u64,
    pub bytes_tcp: u64,
    pub bytes_udp: u64,
    pub bytes_icmp: u64,
    pub bytes_other: u64,
    pub packets_tcp: u64,
    pub packets_udp: u64,
    pub packets_icmp: u64,
    pub packets_other: u64,
    pub first_seen: u32,
    pub last_seen: u32,
    pub msec_first: u16,
    pub msec_last: u16,
    pub sequence_failure: u32,
}

impl StatRecordV1 {
    /// The number of bytes that the record takes.
    pub const SIZE: usize = 136;

    /// The record as the first `SIZE` bytes of `d` hold it, one counter after the other.
    pub open spec fn of(d: Seq<u8>) -> StatRecordV1 {
        StatRecordV1 {
            flows: u64_at(d, 0),
            bytes: u64_at(d, 8),
            packets: u64_at(d, 16),
            flows_tcp: u64_at(d, 24),
            flows_udp: u64_at(d, 32),
            flows_icmp: u64_at(d, 40),
            flows_other: u64_at(d, 48),
            bytes_tcp: u64_at(d, 56),
            bytes_udp: u64_at(d, 64),
            bytes_icmp: u64_at(d, 72),
            bytes_other: u64_at(d, 80),
            packets_tcp: u64_at(d, 88),
            packets_udp: u64_at(d, 96),
            packets_icmp: u64_at(d, 104),
            packets_other: u64_at(d, 112),
            first_seen: u32_at(d, 120),
            last_seen: u32_at(d, 124),
            msec_first: u16_at(d, 128),
            msec_last: u16_at(d, 130),
            sequence_failure: u32_at(d, 132),
        }
    }

    /// Decodes the record from its bytes.
    pub fn from(value: Vec<u8>) -> (r: StatRecordV1)
        requires
            value@.len() >= StatRecordV1::SIZE,
        ensures
            r == StatRecordV1::of(value@),
    {
        let d = value.as_slice();
        StatRecordV1 {
            flows: get_u64(d, 0),
            bytes: get_u64(d, 8),
            packets: get_u64(d, 16),
            flows_tcp: get_u64(d, 24),
            flows_udp: get_u64(d, 32),
            flows_icmp: get_u64(d, 40),
            flows_other: get_u64(d, 48),
            bytes_tcp: get_u64(d, 56),
            bytes_udp: get_u64(d, 64),
            bytes_icmp: get_u64(d, 72),
            bytes_other: get_u64(d, 80),
            packets_tcp: get_u64(d, 88),
            packets_udp: get_u64(d, 96),
            packets_icmp: get_u64(d, 104),
            packets_other: get_u64(d, 112),
            first_seen: get_u32(d, 120),
            last_seen: get_u32(d, 124),
            msec_first: get_u16(d, 128),
            msec_last: get_u16(d, 130),
            sequence_failure: get_u32(d, 132),
        }
    }
}

} // verus!
