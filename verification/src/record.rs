//! Record framing, the kinds of record, and the legacy flow record.

use vstd::prelude::*;
use crate::addr::{IpAddress, Ipv4Address, Ipv6Address};
use crate::bytes::{u128_at, u16_at, u32_at, u64_at, u8_at, ByteCursor};
use crate::error::{IoFailure, NfdumpError};
use crate::exporter::{ExporterInfo, ExporterStatsRecord, ExporterStatsRecordView, SamplerV0Record};
use crate::nffilev2::StatRecordV2;
use crate::nfx::{ExtensionMap, ExtensionMapView};
use crate::nfx_v3::{RecordV3, RecordV3View};

verus! {

/// The four bytes in front of every record: its type, and its size with
/// these four bytes counted in.
#[derive(Debug, Clone, Copy, PartialEq, Eq)]
pub struct NfFileRecordHeader {
    pub rtype: u16,
    pub size: u16,
}

/// A flow record in the legacy layout.
#[derive(Debug, Clone, Copy, PartialEq, Eq)]
pub struct Record {
    pub head: NfFileRecordHeader,
    pub flags: u16,
    pub ext_map: u16,
    pub msec_first: u16,
    pub msec_last: u16,
    pub first: u32,
    pub last: u32,
    pub fwd_status: u8,
    pub tcp_flags: u8,
    pub prot: u8,
    pub tos: u8,
    pub src_port: u16,
    pub dst_port: u16,
    pub exporter_sysid: u16,
    pub bi_flow_dir: u8,
    pub flow_end_reason: u8,
    pub src_addr: IpAddress,
    pub dst_addr: IpAddress,
    pub packets: u64,
    pub bytes: u64,
    pub input: Option<u32>,
    pub output: Option<u32>,
    pub src_as: Option<u32>,
    pub dst_as: Option<u32>,
}

/// A decoded record of any kind.
#[derive(Debug, Clone, PartialEq, Eq)]
pub enum RecordKind {
    /// The ids of the optional fields of the legacy flow records that follow.
    ExtensionMap(ExtensionMap),
    /// An exporter.
    ExporterInfo(ExporterInfo),
    /// A sampler in its legacy layout.
    SamplerV0(SamplerV0Record),
    /// The counters of the exporters.
    ExporterStats(ExporterStatsRecord),
    /// The identity of the archive, as raw bytes.
    Ident(Vec<u8>),
    /// The statistics of the archive.
    Stat(StatRecordV2),
    /// A flow record in the legacy layout.
    Record(Record),
    /// A self-describing flow record.
    RecordV3(RecordV3),
    /// A record of a type that this library does not decode.
    Unimplemented,
    /// No record: the block has no more of them.
    NoMore,
}

/// A decoded record of any kind, with its bytes as sequences.
pub enum RecordKindView {
    ExtensionMap(ExtensionMapView),
    ExporterInfo(ExporterInfo),
    SamplerV0(SamplerV0Record),
    ExporterStats(ExporterStatsRecordView),
    Ident(Seq<u8>),
    Stat(StatRecordV2),
    Record(Record),
    RecordV3(RecordV3View),
    Unimplemented,
    NoMore,
}

impl View for RecordKind {
    type V = RecordKindView;

    open spec fn view(&self) -> RecordKindView {
        match *self {
            RecordKind::ExtensionMap(m) => RecordKindView::ExtensionMap(m@),
            RecordKind::ExporterInfo(e) => RecordKindView::ExporterInfo(e),
            RecordKind::SamplerV0(s) => RecordKindView::SamplerV0(s),
            RecordKind::ExporterStats(s) => RecordKindView::ExporterStats(s@),
            RecordKind::Ident(i) => RecordKindView::Ident(i@),
            RecordKind::Stat(s) => RecordKindView::Stat(s),
            RecordKind::Record(r) => RecordKindView::Record(r),
            RecordKind::RecordV3(r) => RecordKindView::RecordV3(r@),
            RecordKind::Unimplemented => RecordKindView::Unimplemented,
            RecordKind::NoMore => RecordKindView::NoMore,
        }
    }
}

impl RecordKindView {
    /// Whether this is a flow record, of either layout.
    pub open spec fn is_flow(self) -> bool {
        self is Record || self is RecordV3
    }
}

/// The number of bytes of a legacy flow record up to its addresses.
pub const RECORD_PREFIX_SIZE: usize = 28;

/// The flag bit that selects IPv6 addresses.
pub const FLAG_IPV6_ADDR: u16 = 0x01;

/// The flag bit that selects counters of eight bytes.
pub const FLAG_WIDE_COUNTERS: u16 = 0x02;

/// The id of the extension that gives the interfaces in two bytes each; the
/// id after it gives them in four.
pub const EXT_INTERFACES: u16 = 4;

/// The id of the extension that gives the AS numbers in two bytes each; the
/// id after it gives them in four.
pub const EXT_AS_NUMBERS: u16 = 6;

/// The number of bytes of one address in a record with the flags `flags`.
pub open spec fn address_width(flags: u16) -> int {
    if flags & FLAG_IPV6_ADDR == 0 {
        4
    } else {
        16
    }
}

/// The address that `d` holds at index `at` in a record with the flags `flags`.
pub open spec fn address_at(d: Seq<u8>, at: int, flags: u16) -> IpAddress {
    if flags & FLAG_IPV6_ADDR == 0 {
        IpAddress::V4(Ipv4Address { bits: u32_at(d, at) })
    } else {
        IpAddress::V6(Ipv6Address { bits: u128_at(d, at) })
    }
}

/// The number of bytes of the packet counter, and of the byte counter, in a
/// record with the flags `flags`: one bit decides for both.
pub open spec fn counter_width(flags: u16) -> int {
    if flags & FLAG_WIDE_COUNTERS == 0 {
        4
    } else {
        8
    }
}

/// The counter that `d` holds at index `at` in a record with the flags `flags`.
pub open spec fn counter_at(d: Seq<u8>, at: int, flags: u16) -> u64 {
    if flags & FLAG_WIDE_COUNTERS == 0 {
        u32_at(d, at) as u64
    } else {
        u64_at(d, at)
    }
}

/// The number of bytes of an optional field under the active extension ids
/// `ext`: two where `id` is active, else four where the id after `id` is
/// active, else none, which says that the field is absent.
pub open spec fn optional_width(ext: Seq<u16>, id: u16) -> int {
    if ext.contains(id) {
        2
    } else if ext.contains((id + 1) as u16) {
        4
    } else {
        0
    }
}

/// The optional field of `width` bytes that `d` holds at index `at`: absent
/// where `width` is zero or where `d` ends before the field does.
pub open spec fn optional_at(d: Seq<u8>, at: int, width: int) -> Option<u32> {
    if width == 2 && at + 2 <= d.len() {
        Some(u16_at(d, at) as u32)
    } else if width == 4 && at + 4 <= d.len() {
        Some(u32_at(d, at))
    } else {
        None
    }
}

/// The index after an optional field of `width` bytes at index `at` of `d`.
/// Where `d` ends before the field does, this is the end of `d`, so that every
/// field after it is absent too.
pub open spec fn after_optional(d: Seq<u8>, at: int, width: int) -> int {
    if width == 0 {
        at
    } else if at + width <= d.len() {
        at + width
    } else {
        d.len() as int
    }
}

/// The number of bytes of a legacy flow record with the flags `flags` up to
/// its optional fields: the prefix, two addresses and two counters.
pub open spec fn required_size(flags: u16) -> int {
    RECORD_PREFIX_SIZE + 2 * address_width(flags) + 2 * counter_width(flags)
}

/// What the payload `d` of a legacy flow record decodes to under the active
/// extension ids `ext`. The prefix, the addresses and the counters must be
/// there; the interfaces and the AS numbers follow in this order, each present
/// where its extension is active and `d` holds it.
pub open spec fn decode_record(header: NfFileRecordHeader, d: Seq<u8>, ext: Seq<u16>) -> Result<
    Record,
    NfdumpError,
> {
    let flags = u16_at(d, 0);
    let addresses = RECORD_PREFIX_SIZE as int;
    let counters = addresses + 2 * address_width(flags);
    let input_at = required_size(flags);
    let interface_width = optional_width(ext, EXT_INTERFACES);
    let as_width = optional_width(ext, EXT_AS_NUMBERS);
    let output_at = after_optional(d, input_at, interface_width);
    let src_as_at = after_optional(d, output_at, interface_width);
    let dst_as_at = after_optional(d, src_as_at, as_width);
    if d.len() < 2 || d.len() < required_size(flags) {
        Err(NfdumpError::IoError(IoFailure::UnexpectedEof))
    } else {
        Ok(
            Record {
                head: header,
                flags,
                ext_map: u16_at(d, 2),
                msec_first: u16_at(d, 4),
                msec_last: u16_at(d, 6),
                first: u32_at(d, 8),
                last: u32_at(d, 12),
                fwd_status: u8_at(d, 16),
                tcp_flags: u8_at(d, 17),
                prot: u8_at(d, 18),
                tos: u8_at(d, 19),
                src_port: u16_at(d, 20),
                dst_port: u16_at(d, 22),
                exporter_sysid: u16_at(d, 24),
                bi_flow_dir: u8_at(d, 26),
                flow_end_reason: u8_at(d, 27),
                src_addr: address_at(d, addresses, flags),
                dst_addr: address_at(d, addresses + address_width(flags), flags),
                packets: counter_at(d, counters, flags),
                bytes: counter_at(d, counters + counter_width(flags), flags),
                input: optional_at(d, input_at, interface_width),
                output: optional_at(d, output_at, interface_width),
                src_as: optional_at(d, src_as_at, as_width),
                dst_as: optional_at(d, dst_as_at, as_width),
            },
        )
    }
}

/// The extension map decides on the optional fields. Under the ids of
/// interfaces and AS numbers of two bytes each, a record that is long enough
/// carries all four of them, two bytes each, right behind its counters.
/// Under no ids at all it carries none of them, however long it is.
pub proof fn lemma_optional_fields_follow_the_extension_ids(
    header: NfFileRecordHeader,
    d: Seq<u8>,
)
    requires
        d.len() >= 2,
        d.len() >= required_size(u16_at(d, 0)) + 8,
    ensures
        decode_record(header, d, seq![EXT_INTERFACES, EXT_AS_NUMBERS]) matches Ok(r) && {
            &&& r.input == Some(u16_at(d, required_size(u16_at(d, 0))) as u32)
            &&& r.output == Some(u16_at(d, required_size(u16_at(d, 0)) + 2) as u32)
            &&& r.src_as == Some(u16_at(d, required_size(u16_at(d, 0)) + 4) as u32)
            &&& r.dst_as == Some(u16_at(d, required_size(u16_at(d, 0)) + 6) as u32)
        },
        decode_record(header, d, Seq::empty()) matches Ok(r) && {
            &&& r.input is None
            &&& r.output is None
            &&& r.src_as is None
            &&& r.dst_as is None
        },
{
}

/// Whether `id` is among `ids`.
pub fn has_id(ids: &Vec<u16>, id: u16) -> (r: bool)
    ensures
        r == ids@.contains(id),
{
    let mut i: usize = 0;
    while i < ids.len()
        invariant
            i <= ids@.len(),
            forall|k: int| 0 <= k < i ==> ids@[k] != id,
        decreases ids@.len() - i,
    {
        if ids[i] == id {
            return true;
        }
        i = i + 1;
    }
    false
}

/// Reads an address of the width that `flags` selects.
fn read_addr(cur: &mut ByteCursor, flags: u16) -> (r: Option<IpAddress>)
    ensures
        final(cur).moved(*old(cur), address_width(flags)),
        r == if old(cur).has(address_width(flags)) {
            Some(address_at(old(cur).bytes(), old(cur).position() as int, flags))
        } else {
            None
        },
{
    if flags & FLAG_IPV6_ADDR == 0 {
        match cur.read_u32() {
            Some(bits) => Some(IpAddress::V4(Ipv4Address { bits })),
            None => None,
        }
    } else {
        match cur.read_u128() {
            Some(bits) => Some(IpAddress::V6(Ipv6Address { bits })),
            None => None,
        }
    }
}

/// Reads a counter of the width that `flags` selects.
fn read_pkt_or_byt(cur: &mut ByteCursor, flags: u16) -> (r: Option<u64>)
    ensures
        final(cur).moved(*old(cur), counter_width(flags)),
        r == if old(cur).has(counter_width(flags)) {
            Some(counter_at(old(cur).bytes(), old(cur).position() as int, flags))
        } else {
            None
        },
{
    if flags & FLAG_WIDE_COUNTERS == 0 {
        match cur.read_u32() {
            Some(v) => Some(v as u64),
            None => None,
        }
    } else {
        cur.read_u64()
    }
}

/// Reads the optional field that the extension `ext`, or the one after it,
/// governs; `None` where neither is active or the bytes end before the field.
fn read_ext(cur: &mut ByteCursor, emap: &Vec<u16>, ext: u16) -> (r: Option<u32>)
    requires
        ext < u16::MAX,
        0 <= old(cur).position() <= old(cur).bytes().len(),
    ensures
        final(cur).bytes() == old(cur).bytes(),
        final(cur).position() == after_optional(
            old(cur).bytes(),
            old(cur).position() as int,
            optional_width(emap@, ext),
        ),
        r == optional_at(old(cur).bytes(), old(cur).position() as int, optional_width(emap@, ext)),
{
    if has_id(emap, ext) {
        match cur.read_u16() {
            Some(v) => Some(v as u32),
            None => None,
        }
    } else if has_id(emap, ext + 1) {
        cur.read_u32()
    } else {
        None
    }
}

/// Decodes a legacy flow record from its payload under the active extension
/// ids `ext`.
pub fn new_record(header: NfFileRecordHeader, data: Vec<u8>, ext: &Vec<u16>) -> (r: Result<
    Record,
    NfdumpError,
>)
    ensures
        r == decode_record(header, data@, ext@),
{
    let mut cursor = ByteCursor::new(data);
    let flags = match cursor.read_u16() {
        Some(v) => v,
        None => {
            return Err(NfdumpError::IoError(IoFailure::UnexpectedEof));
        },
    };
    let ext_map = match cursor.read_u16() {
        Some(v) => v,
        None => {
            return Err(NfdumpError::IoError(IoFailure::UnexpectedEof));
        },
    };
    let msec_first = match cursor.read_u16() {
        Some(v) => v,
        None => {
            return Err(NfdumpError::IoError(IoFailure::UnexpectedEof));
        },
    };
    let msec_last = match cursor.read_u16() {
        Some(v) => v,
        None => {
            return Err(NfdumpError::IoError(IoFailure::UnexpectedEof));
        },
    };
    let first = match cursor.read_u32() {
        Some(v) => v,
        None => {
            return Err(NfdumpError::IoError(IoFailure::UnexpectedEof));
        },
    };
    let last = match cursor.read_u32() {
        Some(v) => v,
        None => {
            return Err(NfdumpError::IoError(IoFailure::UnexpectedEof));
        },
    };
    let fwd_status = match cursor.read_u8() {
        Some(v) => v,
        None => {
            return Err(NfdumpError::IoError(IoFailure::UnexpectedEof));
        },
    };
    let tcp_flags = match cursor.read_u8() {
        Some(v) => v,
        None => {
            return Err(NfdumpError::IoError(IoFailure::UnexpectedEof));
        },
    };
    let prot = match cursor.read_u8() {
        Some(v) => v,
        None => {
            return Err(NfdumpError::IoError(IoFailure::UnexpectedEof));
        },
    };
    let tos = match cursor.read_u8() {
        Some(v) => v,
        None => {
            return Err(NfdumpError::IoError(IoFailure::UnexpectedEof));
        },
    };
    let src_port = match cursor.read_u16() {
        Some(v) => v,
        None => {
            return Err(NfdumpError::IoError(IoFailure::UnexpectedEof));
        },
    };
    let dst_port = match cursor.read_u16() {
        Some(v) => v,
        None => {
            return Err(NfdumpError::IoError(IoFailure::UnexpectedEof));
        },
    };
    let exporter_sysid = match cursor.read_u16() {
        Some(v) => v,
        None => {
            return Err(NfdumpError::IoError(IoFailure::UnexpectedEof));
        },
    };
    let bi_flow_dir = match cursor.read_u8() {
        Some(v) => v,
        None => {
            return Err(NfdumpError::IoError(IoFailure::UnexpectedEof));
        },
    };
    let flow_end_reason = match cursor.read_u8() {
        Some(v) => v,
        None => {
            return Err(NfdumpError::IoError(IoFailure::UnexpectedEof));
        },
    };
    let src_addr = match read_addr(&mut cursor, flags) {
        Some(v) => v,
        None => {
            return Err(NfdumpError::IoError(IoFailure::UnexpectedEof));
        },
    };
    let dst_addr = match read_addr(&mut cursor, flags) {
        Some(v) => v,
        None => {
            return Err(NfdumpError::IoError(IoFailure::UnexpectedEof));
        },
    };
    let packets = match read_pkt_or_byt(&mut cursor, flags) {
        Some(v) => v,
        None => {
            return Err(NfdumpError::IoError(IoFailure::UnexpectedEof));
        },
    };
    let bytes = match read_pkt_or_byt(&mut cursor, flags) {
        Some(v) => v,
        None => {
            return Err(NfdumpError::IoError(IoFailure::UnexpectedEof));
        },
    };
    let input = read_ext(&mut cursor, ext, EXT_INTERFACES);
    let output = read_ext(&mut cursor, ext, EXT_INTERFACES);
    let src_as = read_ext(&mut cursor, ext, EXT_AS_NUMBERS);
    let dst_as = read_ext(&mut cursor, ext, EXT_AS_NUMBERS);
    Ok(
        Record {
            head: header,
            flags,
            ext_map,
            msec_first,
            msec_last,
            first,
            last,
            fwd_status,
            tcp_flags,
            prot,
            tos,
            src_port,
            dst_port,
            exporter_sysid,
            bi_flow_dir,
            flow_end_reason,
            src_addr,
            dst_addr,
            packets,
            bytes,
            input,
            output,
            src_as,
            dst_as,
        },
    )
}

} // verus!
