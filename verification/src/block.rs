//! Blocks: a header, then a compressed payload that expands to records.

use vstd::prelude::*;
use crate::bytes::{get_u16, get_u32, u16_at, u32_at};
use crate::compress::Decompressor;
use crate::error::{IoFailure, NfdumpError};
use crate::exporter::{
    decode_exporter, decode_exporter_stats, decode_sampler_v0, read_exporter_record,
    read_exporter_stats_record, read_samplerv0_record,
};
use crate::nffilev2::StatRecordV2;
use crate::nfx::{decode_extension_map, read_extension_map};
use crate::nfx_v3::{decode_record_v3, RecordV3};
use crate::record::{decode_record, new_record, NfFileRecordHeader, RecordKind, RecordKindView};

verus! {

/// The type of an extension map record.
pub const TYPE_EXTENSION_MAP: u16 = 0x0002;

/// The type of an exporter record.
pub const TYPE_EXPORTER_INFO: u16 = 0x0007;

/// The type of an exporter statistics record.
pub const TYPE_EXPORTER_STAT: u16 = 0x0008;

/// The type of a legacy sampler record.
pub const TYPE_LEGACY_SAMPLER: u16 = 0x0009;

/// The type of a legacy flow record.
pub const TYPE_COMMON_RECORD: u16 = 0x000a;

/// The type of a self-describing flow record.
pub const TYPE_RECORD_V3: u16 = 0x000b;

/// The type of an identity record, which only an appendix holds.
pub const TYPE_IDENT: u16 = 0x8001;

/// The type of a statistics record, which only an appendix holds.
pub const TYPE_STAT: u16 = 0x8002;

/// The number of bytes of a record header.
pub const RECORD_HEADER_SIZE: usize = 4;

/// The twelve bytes in front of the payload of a block.
#[derive(Debug, Clone, Copy, PartialEq, Eq)]
pub struct DataBlockHeader {
    /// The number of records that the block holds.
    pub num_records: u32,
    /// The number of bytes of the compressed payload.
    pub size: u32,
    pub id: u16,
    pub flags: u16,
}

impl DataBlockHeader {
    /// The number of bytes that the header takes.
    pub const SIZE: usize = 12;

    /// The header as the twelve bytes of `d` from index `at` on hold it.
    pub open spec fn at(d: Seq<u8>, at: int) -> DataBlockHeader {
        DataBlockHeader {
            num_records: u32_at(d, at),
            size: u32_at(d, at + 4),
            id: u16_at(d, at + 8),
            flags: u16_at(d, at + 10),
        }
    }

    /// Decodes the header from the front of `d`; `None` where `d` is too
    /// short.
    pub fn read(d: &[u8]) -> (r: Option<DataBlockHeader>)
        ensures
            r == if d@.len() >= DataBlockHeader::SIZE {
                Some(DataBlockHeader::at(d@, 0))
            } else {
                None
            },
    {
        if d.len() < DataBlockHeader::SIZE {
            return None;
        }
        Some(
            DataBlockHeader {
                num_records: get_u32(d, 0),
                size: get_u32(d, 4),
                id: get_u16(d, 8),
                flags: get_u16(d, 10),
            },
        )
    }
}

/// What a record with the header `header` and the payload `payload` decodes
/// to under the active extension ids `ext`. The record's type selects the
/// decoder. A type that this library does not decode gives `Unimplemented`,
/// whatever the payload.
#[verifier::opaque]
pub open spec fn decode_kind(header: NfFileRecordHeader, payload: Seq<u8>, ext: Seq<u16>) -> Result<
    RecordKindView,
    NfdumpError,
> {
    if header.rtype == TYPE_EXTENSION_MAP {
        match decode_extension_map(header, payload) {
            Ok(map) => Ok(RecordKindView::ExtensionMap(map)),
            Err(e) => Err(e),
        }
    } else if header.rtype == TYPE_EXPORTER_INFO {
        match decode_exporter(header, payload) {
            Ok(exporter) => Ok(RecordKindView::ExporterInfo(exporter)),
            Err(e) => Err(e),
        }
    } else if header.rtype == TYPE_EXPORTER_STAT {
        match decode_exporter_stats(header, payload) {
            Ok(stats) => Ok(RecordKindView::ExporterStats(stats)),
            Err(e) => Err(e),
        }
    } else if header.rtype == TYPE_LEGACY_SAMPLER {
        match decode_sampler_v0(header, payload) {
            Ok(sampler) => Ok(RecordKindView::SamplerV0(sampler)),
            Err(e) => Err(e),
        }
    } else if header.rtype == TYPE_COMMON_RECORD {
        match decode_record(header, payload, ext) {
            Ok(record) => Ok(RecordKindView::Record(record)),
            Err(e) => Err(e),
        }
    } else if header.rtype == TYPE_RECORD_V3 {
        match decode_record_v3(header, payload) {
            Ok(record) => Ok(RecordKindView::RecordV3(record)),
            Err(e) => Err(e),
        }
    } else if header.rtype == TYPE_IDENT {
        Ok(RecordKindView::Ident(payload))
    } else if header.rtype == TYPE_STAT {
        if payload.len() >= StatRecordV2::SIZE {
            Ok(RecordKindView::Stat(StatRecordV2::of(payload)))
        } else {
            Err(NfdumpError::IoError(IoFailure::UnexpectedEof))
        }
    } else {
        Ok(RecordKindView::Unimplemented)
    }
}

/// A block: its header, its expanded payload with a read position in it, and
/// the number of records read from it so far.
pub struct DataBlock {
    pub decoder: Decompressor,
    pub header: DataBlockHeader,
    pub records_read: u32,
}

/// A block with its expanded payload as a sequence.
pub struct DataBlockView {
    pub header: DataBlockHeader,
    /// The compression that the payload was expanded under.
    pub dtype: u8,
    pub bytes: Seq<u8>,
    pub pos: int,
    pub records_read: u32,
}

impl View for DataBlock {
    type V = DataBlockView;

    open spec fn view(&self) -> DataBlockView {
        DataBlockView {
            header: self.header,
            dtype: self.decoder.dtype(),
            bytes: self.decoder.stream().bytes(),
            pos: self.decoder.stream().position() as int,
            records_read: self.records_read,
        }
    }
}

impl DataBlockView {
    /// Whether the block has no more records: as many as its header counts
    /// have been read, or its bytes end before another record header.
    pub open spec fn exhausted(self) -> bool {
        self.records_read >= self.header.num_records || self.pos + RECORD_HEADER_SIZE
            > self.bytes.len()
    }

    /// The header of the next record.
    pub open spec fn record_header(self) -> NfFileRecordHeader {
        NfFileRecordHeader { rtype: u16_at(self.bytes, self.pos), size: u16_at(self.bytes, self.pos + 2) }
    }

    /// Whether the next record lies within the block: its size counts its
    /// header in, and the block holds as many bytes as it declares.
    pub open spec fn framed(self) -> bool {
        self.record_header().size >= RECORD_HEADER_SIZE && self.pos + self.record_header().size
            <= self.bytes.len()
    }

    /// The payload of the next record: its size less the header.
    pub open spec fn payload(self) -> Seq<u8> {
        self.bytes.subrange(self.pos + RECORD_HEADER_SIZE, self.pos + self.record_header().size)
    }

    /// What reading the next record gives under the active extension ids
    /// `ext`: `NoMore`, which is no error, where the block has no more
    /// records; an error where the record does not lie within the block;
    /// else what the record decodes to.
    pub open spec fn next(self, ext: Seq<u16>) -> Result<RecordKindView, NfdumpError> {
        if self.exhausted() {
            Ok(RecordKindView::NoMore)
        } else if !self.framed() {
            Err(NfdumpError::ParseError)
        } else {
            decode_kind(self.record_header(), self.payload(), ext)
        }
    }

    /// The block after the next record has been read. A record that lies
    /// within the block is passed over by its declared size, whether or not
    /// it could be decoded; after one that does not, nothing is left to read.
    pub open spec fn advanced(self) -> DataBlockView {
        if self.exhausted() {
            self
        } else if !self.framed() {
            DataBlockView { pos: self.bytes.len() as int, ..self }
        } else {
            DataBlockView {
                pos: self.pos + self.record_header().size,
                records_read: (self.records_read + 1) as u32,
                ..self
            }
        }
    }
}

/// Whether the block bytes `bytes` hold at index `at` a record of the type
/// `rtype` with the payload `payload`.
pub open spec fn holds_record(bytes: Seq<u8>, at: int, rtype: u16, payload: Seq<u8>) -> bool {
    &&& 0 <= at
    &&& at + RECORD_HEADER_SIZE + payload.len() <= bytes.len()
    &&& u16_at(bytes, at) == rtype
    &&& u16_at(bytes, at + 2) == RECORD_HEADER_SIZE + payload.len()
    &&& bytes.subrange(at + RECORD_HEADER_SIZE, at + RECORD_HEADER_SIZE + payload.len())
        == payload
}

/// A record that a block holds at its read position, and that its header
/// still counts, is the record read next: it decodes by its type, and the
/// block is then read up to its end. A type that stands for the identity
/// gives the payload as it is, and one that stands for statistics gives what
/// the front of the payload holds.
pub proof fn lemma_next_record(block: DataBlockView, ext: Seq<u16>, rtype: u16, payload: Seq<u8>)
    requires
        block.records_read < block.header.num_records,
        holds_record(block.bytes, block.pos, rtype, payload),
    ensures
        block.next(ext) == decode_kind(
            NfFileRecordHeader { rtype, size: (RECORD_HEADER_SIZE + payload.len()) as u16 },
            payload,
            ext,
        ),
        block.advanced() == (DataBlockView {
            pos: block.pos + RECORD_HEADER_SIZE + payload.len(),
            records_read: (block.records_read + 1) as u32,
            ..block
        }),
        rtype == TYPE_IDENT ==> block.next(ext) == Ok::<RecordKindView, NfdumpError>(
            RecordKindView::Ident(payload),
        ),
        rtype == TYPE_STAT && payload.len() >= StatRecordV2::SIZE ==> block.next(ext) == Ok::<
            RecordKindView,
            NfdumpError,
        >(RecordKindView::Stat(StatRecordV2::of(payload))),
{
    reveal(decode_kind);
    assert(!block.exhausted());
    assert(block.framed());
    assert(block.payload() == payload);
}

impl DataBlock {
    /// A block of which no record has been read.
    pub fn new(header: DataBlockHeader, decoder: Decompressor) -> (r: DataBlock)
        ensures
            r.header == header,
            r.decoder == decoder,
            r.records_read == 0,
    {
        DataBlock { decoder, header, records_read: 0 }
    }

    /// Decodes a record from its header and its payload, under the active
    /// extension ids `ext`.
    pub fn read_record_kind(header: NfFileRecordHeader, record_data: Vec<u8>, ext: &Vec<u16>) -> (r:
        Result<RecordKind, NfdumpError>)
        ensures
            match decode_kind(header, record_data@, ext@) {
                Ok(v) => r matches Ok(kind) && kind@ == v,
                Err(e) => r matches Err(x) && x == e,
            },
    {
        reveal(decode_kind);
        if header.rtype == TYPE_EXTENSION_MAP {
            match read_extension_map(header, record_data) {
                Ok(map) => Ok(RecordKind::ExtensionMap(map)),
                Err(e) => Err(e),
            }
        } else if header.rtype == TYPE_EXPORTER_INFO {
            match read_exporter_record(header, record_data) {
                Ok(exporter) => Ok(RecordKind::ExporterInfo(exporter)),
                Err(e) => Err(e),
            }
        } else if header.rtype == TYPE_EXPORTER_STAT {
            match read_exporter_stats_record(header, record_data) {
                Ok(stats) => Ok(RecordKind::ExporterStats(stats)),
                Err(e) => Err(e),
            }
        } else if header.rtype == TYPE_LEGACY_SAMPLER {
            match read_samplerv0_record(header, record_data) {
                Ok(sampler) => Ok(RecordKind::SamplerV0(sampler)),
                Err(e) => Err(e),
            }
        } else if header.rtype == TYPE_COMMON_RECORD {
            match new_record(header, record_data, ext) {
                Ok(record) => Ok(RecordKind::Record(record)),
                Err(e) => Err(e),
            }
        } else if header.rtype == TYPE_RECORD_V3 {
            match RecordV3::new(header, record_data) {
                Ok(record) => Ok(RecordKind::RecordV3(record)),
                Err(e) => Err(e),
            }
        } else if header.rtype == TYPE_IDENT {
            Ok(RecordKind::Ident(record_data))
        } else if header.rtype == TYPE_STAT {
            if record_data.len() >= StatRecordV2::SIZE {
                Ok(RecordKind::Stat(StatRecordV2::from(record_data)))
            } else {
                Err(NfdumpError::IoError(IoFailure::UnexpectedEof))
            }
        } else {
            Ok(RecordKind::Unimplemented)
        }
    }

    /// Reads the next record, under the active extension ids `ext`.
    pub fn read_record(&mut self, ext: &Vec<u16>) -> (r: Result<RecordKind, NfdumpError>)
        ensures
            final(self)@ == old(self)@.advanced(),
            match old(self)@.next(ext@) {
                Ok(v) => r matches Ok(kind) && kind@ == v,
                Err(e) => r matches Err(x) && x == e,
            },
    {
        if self.records_read >= self.header.num_records || !self.decoder.can_read(
            RECORD_HEADER_SIZE,
        ) {
            return Ok(RecordKind::NoMore);
        }
        let record_header = match self.decoder.read_exact(RECORD_HEADER_SIZE) {
            Some(bytes) => NfFileRecordHeader {
                rtype: get_u16(bytes.as_slice(), 0),
                size: get_u16(bytes.as_slice(), 2),
            },
            None => {
                return Ok(RecordKind::NoMore);
            },
        };
        assert(record_header == old(self)@.record_header());
        if (record_header.size as usize) < RECORD_HEADER_SIZE {
            self.decoder.exhaust();
            return Err(NfdumpError::ParseError);
        }
        let record_data = match self.decoder.read_exact(
            record_header.size as usize - RECORD_HEADER_SIZE,
        ) {
            Some(bytes) => bytes,
            None => {
                return Err(NfdumpError::ParseError);
            },
        };
        self.records_read = self.records_read + 1;
        DataBlock::read_record_kind(record_header, record_data, ext)
    }
}

} // verus!
