//! Records that describe the exporters and samplers behind the flows.

use vstd::prelude::*;
use crate::addr::{IpAddress, Ipv4Address, Ipv6Address};
use crate::bytes::{get_i32, get_u128, get_u16, get_u32, get_u64, i32_at, u128_at, u16_at, u32_at, u64_at};
use crate::error::{IoFailure, NfdumpError};
use crate::record::NfFileRecordHeader;

verus! {

/// The address family tag of IPv4.
pub const AF_INET: u16 = 2;

/// The address family tag of IPv6.
pub const AF_INET6: u16 = 10;

/// An exporter as an archive announces it.
#[derive(Debug, Clone, Copy, PartialEq, Eq)]
pub struct ExporterInfo {
    pub header: NfFileRecordHeader,
    pub version: u32,
    pub address: IpAddress,
    pub sa_family: u16,
    pub sysid: u16,
    pub id: u32,
}

/// A sampler in its legacy layout.
#[derive(Debug, Clone, Copy, PartialEq, Eq)]
pub struct SamplerV0Record {
    pub header: NfFileRecordHeader,
    pub id: i32,
    pub interval: u32,
    pub algorithm: u16,
    pub exporter_sysid: u16,
}

/// The counters of every exporter, as one record holds them.
#[derive(Debug, Clone, PartialEq, Eq)]
pub struct ExporterStatsRecord {
    pub header: NfFileRecordHeader,
    pub stat_count: u32,
    pub stat: Vec<ExporterStat>,
}

/// The counters of one exporter.
#[derive(Debug, Clone, Copy, PartialEq, Eq)]
pub struct ExporterStat {
    pub sysid: u32,
    pub sequence_failure: u32,
    pub packets: u64,
    pub flows: u64,
}

/// The counters of every exporter, as a sequence.
pub struct ExporterStatsRecordView {
    pub header: NfFileRecordHeader,
    pub stat_count: u32,
    pub stat: Seq<ExporterStat>,
}

impl View for ExporterStatsRecord {
    type V = ExporterStatsRecordView;

    open spec fn view(&self) -> ExporterStatsRecordView {
        ExporterStatsRecordView {
            header: self.header,
            stat_count: self.stat_count,
            stat: self.stat@,
        }
    }
}

/// The number of payload bytes of an exporter record.
pub const EXPORTER_INFO_SIZE: usize = 28;

/// The number of payload bytes of a legacy sampler record.
pub const SAMPLER_V0_SIZE: usize = 12;

/// The number of bytes that the counters of one exporter take.
pub const EXPORTER_STAT_SIZE: usize = 24;

/// The IPv4 address that an exporter record stores in the sixteen bytes
/// `addr`: the low 32 bits of the upper half.
pub open spec fn exporter_ipv4(addr: u128) -> Ipv4Address {
    Ipv4Address { bits: ((addr >> 64) & 0xffff_ffff) as u32 }
}

/// What the payload `d` of an exporter record decodes to. The address family
/// tag selects how the sixteen address bytes are read; a tag that is neither
/// `AF_INET` nor `AF_INET6` is an error.
pub open spec fn decode_exporter(header: NfFileRecordHeader, d: Seq<u8>) -> Result<
    ExporterInfo,
    NfdumpError,
> {
    if d.len() < EXPORTER_INFO_SIZE {
        Err(NfdumpError::IoError(IoFailure::UnexpectedEof))
    } else if u16_at(d, 20) == AF_INET {
        Ok(
            ExporterInfo {
                header,
                version: u32_at(d, 0),
                address: IpAddress::V4(exporter_ipv4(u128_at(d, 4))),
                sa_family: u16_at(d, 20),
                sysid: u16_at(d, 22),
                id: u32_at(d, 24),
            },
        )
    } else if u16_at(d, 20) == AF_INET6 {
        Ok(
            ExporterInfo {
                header,
                version: u32_at(d, 0),
                address: IpAddress::V6(Ipv6Address { bits: u128_at(d, 4) }),
                sa_family: u16_at(d, 20),
                sysid: u16_at(d, 22),
                id: u32_at(d, 24),
            },
        )
    } else {
        Err(NfdumpError::UnexpectedSAInExporter)
    }
}

/// Decodes an exporter record from its payload.
pub fn read_exporter_record(header: NfFileRecordHeader, record_data: Vec<u8>) -> (r: Result<
    ExporterInfo,
    NfdumpError,
>)
    ensures
        r == decode_exporter(header, record_data@),
{
    let d = record_data.as_slice();
    if d.len() < EXPORTER_INFO_SIZE {
        return Err(NfdumpError::IoError(IoFailure::UnexpectedEof));
    }
    let version: u32 = get_u32(d, 0);
    let addr: u128 = get_u128(d, 4);
    let sa_family: u16 = get_u16(d, 20);
    let sysid: u16 = get_u16(d, 22);
    let id: u32 = get_u32(d, 24);
    let address = if sa_family == AF_INET {
        assert((addr >> 64) & 0xffff_ffff <= 0xffff_ffff) by (bit_vector);
        IpAddress::V4(Ipv4Address { bits: ((addr >> 64) & 0xffff_ffff) as u32 })
    } else if sa_family == AF_INET6 {
        IpAddress::V6(Ipv6Address { bits: addr })
    } else {
        return Err(NfdumpError::UnexpectedSAInExporter);
    };
    Ok(ExporterInfo { header, version, address, sa_family, sysid, id })
}

/// What the payload `d` of a legacy sampler record decodes to.
pub open spec fn decode_sampler_v0(header: NfFileRecordHeader, d: Seq<u8>) -> Result<
    SamplerV0Record,
    NfdumpError,
> {
    if d.len() < SAMPLER_V0_SIZE {
        Err(NfdumpError::IoError(IoFailure::UnexpectedEof))
    } else {
        Ok(
            SamplerV0Record {
                header,
                id: i32_at(d, 0),
                interval: u32_at(d, 4),
                algorithm: u16_at(d, 8),
                exporter_sysid: u16_at(d, 10),
            },
        )
    }
}

/// Decodes a legacy sampler record from its payload.
pub fn read_samplerv0_record(header: NfFileRecordHeader, record_data: Vec<u8>) -> (r: Result<
    SamplerV0Record,
    NfdumpError,
>)
    ensures
        r == decode_sampler_v0(header, record_data@),
{
    let d = record_data.as_slice();
    if d.len() < SAMPLER_V0_SIZE {
        return Err(NfdumpError::IoError(IoFailure::UnexpectedEof));
    }
    Ok(
        SamplerV0Record {
            header,
            id: get_i32(d, 0),
            interval: get_u32(d, 4),
            algorithm: get_u16(d, 8),
            exporter_sysid: get_u16(d, 10),
        },
    )
}

/// The counters of one exporter as the 24 bytes of `d` from index `at` on
/// hold them.
pub open spec fn exporter_stat_at(d: Seq<u8>, at: int) -> ExporterStat {
    ExporterStat {
        sysid: u32_at(d, at),
        sequence_failure: u32_at(d, at + 4),
        packets: u64_at(d, at + 8),
        flows: u64_at(d, at + 16),
    }
}

/// What the payload `d` of an exporter statistics record decodes to: a count,
/// then that many sets of counters.
pub open spec fn decode_exporter_stats(header: NfFileRecordHeader, d: Seq<u8>) -> Result<
    ExporterStatsRecordView,
    NfdumpError,
> {
    if d.len() < 4 || d.len() < 4 + EXPORTER_STAT_SIZE * u32_at(d, 0) {
        Err(NfdumpError::IoError(IoFailure::UnexpectedEof))
    } else {
        Ok(
            ExporterStatsRecordView {
                header,
                stat_count: u32_at(d, 0),
                stat: Seq::new(
                    u32_at(d, 0) as nat,
                    |i: int| exporter_stat_at(d, 4 + EXPORTER_STAT_SIZE * i),
                ),
            },
        )
    }
}

/// Decodes an exporter statistics record from its payload.
pub fn read_exporter_stats_record(header: NfFileRecordHeader, record_data: Vec<u8>) -> (r: Result<
    ExporterStatsRecord,
    NfdumpError,
>)
    ensures
        match decode_exporter_stats(header, record_data@) {
            Ok(v) => r matches Ok(record) && record@ == v,
            Err(e) => r matches Err(x) && x == e,
        },
{
    let d = record_data.as_slice();
    if d.len() < 4 {
        return Err(NfdumpError::IoError(IoFailure::UnexpectedEof));
    }
    let stat_count: u32 = get_u32(d, 0);
    if (d.len() - 4) / EXPORTER_STAT_SIZE < stat_count as usize {
        return Err(NfdumpError::IoError(IoFailure::UnexpectedEof));
    }
    let mut stat: Vec<ExporterStat> = Vec::new();
    let mut cnt: usize = 0;
    while cnt < stat_count as usize
        invariant
            cnt <= stat_count,
            d@.len() <= usize::MAX,
            4 + EXPORTER_STAT_SIZE * stat_count <= d@.len(),
            stat@ == Seq::new(cnt as nat, |i: int| exporter_stat_at(d@, 4 + EXPORTER_STAT_SIZE * i)),
        decreases stat_count - cnt,
    {
        let at: usize = 4 + EXPORTER_STAT_SIZE * cnt;
        stat.push(
            ExporterStat {
                sysid: get_u32(d, at),
                sequence_failure: get_u32(d, at + 4),
                packets: get_u64(d, at + 8),
                flows: get_u64(d, at + 16),
            },
        );
        cnt = cnt + 1;
    }
    Ok(ExporterStatsRecord { header, stat_count, stat })
}

} // verus!
