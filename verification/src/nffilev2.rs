//! The header and the statistics record of a version 2 archive.

use vstd::prelude::*;
use crate::bytes::{get_u16, get_u32, get_u64, u16_at, u32_at, u64_at, u8_at};

verus! {

/// The fixed header of a version 2 archive, with the identity that its
/// appendix gave it.
#[derive(Debug, Clone, PartialEq, Eq)]
pub struct NfFileHeaderV2 {
    pub magic: u16,
    pub version: u16,
    pub nf_version: u32,
    pub created: u64,
    pub compression: u8,
    pub encryption: u8,
    pub appendix_blocks: u16,
    pub unused: u32,
    pub off_appendix: u64,
    pub block_size: u32,
    pub num_blocks: u32,
    pub ident: Vec<u8>,
}

/// The fixed header of a version 2 archive, with its identity as a sequence.
pub struct NfFileHeaderV2View {
    pub magic: u16,
    pub version: u16,
    pub nf_version: u32,
    pub created: u64,
    pub compression: u8,
    pub encryption: u8,
    pub appendix_blocks: u16,
    pub unused: u32,
    pub off_appendix: u64,
    pub block_size: u32,
    pub num_blocks: u32,
    pub ident: Seq<u8>,
}

impl View for NfFileHeaderV2 {
    type V = NfFileHeaderV2View;

    open spec fn view(&self) -> NfFileHeaderV2View {
        NfFileHeaderV2View {
            magic: self.magic,
            version: self.version,
            nf_version: self.nf_version,
            created: self.created,
            compression: self.compression,
            encryption: self.encryption,
            appendix_blocks: self.appendix_blocks,
            unused: self.unused,
            off_appendix: self.off_appendix,
            block_size: self.block_size,
            num_blocks: self.num_blocks,
            ident: self.ident@,
        }
    }
}

impl NfFileHeaderV2 {
    /// The number of bytes that the header takes after the magic constant and
    /// the version.
    pub const SIZE: usize = 36;

    /// The header as the bytes `d` after the magic constant and the version
    /// hold it. The identity is empty: only the appendix gives one.
    pub open spec fn of(d: Seq<u8>) -> NfFileHeaderV2View {
        NfFileHeaderV2View {
            magic: 0xa50c,
            version: 2,
            nf_version: u32_at(d, 0),
            created: u64_at(d, 4),
            compression: u8_at(d, 12),
            encryption: u8_at(d, 13),
            appendix_blocks: u16_at(d, 14),
            unused: u32_at(d, 16),
            off_appendix: u64_at(d, 20),
            block_size: u32_at(d, 28),
            num_blocks: u32_at(d, 32),
            ident: Seq::empty(),
        }
    }

    /// Decodes the header from the bytes after the magic constant and the
    /// version.
    pub fn from(value: Vec<u8>) -> (r: NfFileHeaderV2)
        requires
            value@.len() >= NfFileHeaderV2::SIZE,
        ensures
            r@ == NfFileHeaderV2::of(value@),
    {
        let d = value.as_slice();
        NfFileHeaderV2 {
            magic: 0xa50c,
            version: 2,
            nf_version: get_u32(d, 0),
            created: get_u64(d, 4),
            compression: d[12],
            encryption: d[13],
            appendix_blocks: get_u16(d, 14),
            unused: get_u32(d, 16),
            off_appendix: get_u64(d, 20),
            block_size: get_u32(d, 28),
            num_blocks: get_u32(d, 32),
            ident: Vec::new(),
        }
    }
}

/// The statistics record of a version 2 archive.
#[derive(Debug, Clone, Copy, PartialEq, Eq)]
pub struct StatRecordV2 {
    pub flows: u64,
    pub bytes: u64,
    pub packets: u64,
    pub flows_tcp: u64,
    pub flows_udp: u64,
    pub flows_icmp: u64,
    pub flows_other: u64,
    pub bytes_tcp: u64,
    pub bytes_udp: u64,
    pub bytes_icmp: u64,
    pub bytes_other: u64,
    pub packets_tcp: u64,
    pub packets_udp: u64,
    pub packets_icmp: u64,
    pub packets_other: u64,
    pub first_seen: u64,
    pub last_seen: u64,
    pub sequence_failure: u64,
}

impl StatRecordV2 {
    /// The number of bytes that the record takes.
    pub const SIZE: usize = 144;

    /// The record as the first `SIZE` bytes of `d` hold it, one counter after the other.
    pub open spec fn of(d: Seq<u8>) -> StatRecordV2 {
        StatRecordV2 {
            flows: u64_at(d, 0),
            bytes: u64_at(d, 8),
            packets: u64_at(d, 16),
            flows_tcp: u64_at(d, 24),
            flows_udp: u64_at(d, 32),
            flows_icmp: u64_at(d, 40),
            flows_other: u64_at(d, 48),
            bytes_tcp: u64_at(d, 56),
            bytes_udp: u64_at(d, 64),
            bytes_icmp: u64_at(d, 72),
            bytes_other: u64_at(d, 80),
            packets_tcp: u64_at(d, 88),
            packets_udp: u64_at(d, 96),
            packets_icmp: u64_at(d, 104),
            packets_other: u64_at(d, 112),
            first_seen: u64_at(d, 120),
            last_seen: u64_at(d, 128),
            sequence_failure: u64_at(d, 136),
        }
    }

    /// Decodes the record from its bytes.
    pub fn from(value: Vec<u8>) -> (r: StatRecordV2)
        requires
            value@.len() >= StatRecordV2::SIZE,
        ensures
            r == StatRecordV2::of(value@),
    {
        let d = value.as_slice();
        StatRecordV2 {
            flows: get_u64(d, 0),
            bytes: get_u64(d, 8),
            packets: get_u64(d, 16),
            flows_tcp: get_u64(d, 24),
            flows_udp: get_u64(d, 32),
            flows_icmp: get_u64(d, 40),
            flows_other: get_u64(d, 48),
            bytes_tcp: get_u64(d, 56),
            bytes_udp: get_u64(d, 64),
            bytes_icmp: get_u64(d, 72),
            bytes_other: get_u64(d, 80),
            packets_tcp: get_u64(d, 88),
            packets_udp: get_u64(d, 96),
            packets_icmp: get_u64(d, 104),
            packets_other: get_u64(d, 112),
            first_seen: get_u64(d, 120),
            last_seen: get_u64(d, 128),
            sequence_failure: get_u64(d, 136),
        }
    }
}

impl StatRecordV2 {
    /// The record in which every counter is zero.
    pub open spec fn zero() -> StatRecordV2 {
        StatRecordV2 {
            flows: 0,
            bytes: 0,
            packets: 0,
            flows_tcp: 0,
            flows_udp: 0,
            flows_icmp: 0,
            flows_other: 0,
            bytes_tcp: 0,
            bytes_udp: 0,
            bytes_icmp: 0,
            bytes_other: 0,
            packets_tcp: 0,
            packets_udp: 0,
            packets_icmp: 0,
            packets_other: 0,
            first_seen: 0,
            last_seen: 0,
            sequence_failure: 0,
        }
    }
}

impl Default for StatRecordV2 {
    fn default() -> (r: StatRecordV2)
        ensures
            r == StatRecordV2::zero(),
    {
        StatRecordV2 {
            flows: 0,
            bytes: 0,
            packets: 0,
            flows_tcp: 0,
            flows_udp: 0,
            flows_icmp: 0,
            flows_other: 0,
            bytes_tcp: 0,
            bytes_udp: 0,
            bytes_icmp: 0,
            bytes_other: 0,
            packets_tcp: 0,
            packets_udp: 0,
            packets_icmp: 0,
            packets_other: 0,
            first_seen: 0,
            last_seen: 0,
            sequence_failure: 0,
        }
    }
}

} // verus!
