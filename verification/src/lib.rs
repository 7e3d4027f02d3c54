//! A decoder for nfdump's flow archives.
//!
//! An archive is a header, then blocks of records, each block compressed on
//! its own. `NfFileReader` holds the bytes of a whole archive and hands out
//! its flow records one after the other.
//!
//! LZ4, BZ2 and Zstd blocks are expanded here. LZO blocks are expanded by the
//! caller. `lzo_appendix_payloads` hands out the payloads of the appendix, and
//! `NfFileReader::new` takes what expanding them came to. Where the next block
//! of flow data is LZO, `read_record` hands out `Next::AwaitsLzo`,
//! `lzo_payload` the block's payload, and `supply_lzo` takes what expanding it
//! came to.

pub mod addr;
pub mod block;
pub mod bytes;
pub mod compress;
pub mod error;
pub mod exporter;
pub mod nffilev1;
pub mod nffilev2;
pub mod nfx;
pub mod nfx_v3;
pub mod record;

use vstd::prelude::*;
use vstd::slice::{slice_subrange, slice_to_vec};
use crate::block::{
    holds_record, lemma_next_record, DataBlock, DataBlockHeader, DataBlockView,
    RECORD_HEADER_SIZE, TYPE_IDENT, TYPE_STAT,
};
use crate::bytes::{get_u16, get_u64, u16_at, ByteCursor};
use crate::compress::{
    bytes_of, expanded, Decompressor, NFDUMP_COMPRESSION_TYPE_BZ2, NFDUMP_COMPRESSION_TYPE_LZ4,
    NFDUMP_COMPRESSION_TYPE_LZO, NFDUMP_COMPRESSION_TYPE_PLAIN, NFDUMP_COMPRESSION_TYPE_ZSTD,
};
use crate::error::{IoFailure, NfdumpError};
use crate::exporter::ExporterInfo;
use crate::nffilev1::{NfFileHeaderV1, NfFileHeaderV1View, StatRecordV1};
use crate::nffilev2::{NfFileHeaderV2, NfFileHeaderV2View, StatRecordV2};
use crate::record::{RecordKind, RecordKindView};

verus! {

/// The two-byte constant that opens every archive, as a little-endian number.
pub const MAGIC: u16 = 0xa50c;

/// The number of bytes of the header of a version 1 archive, the magic
/// constant and the version counted in.
pub const NFFILE_V1_HEADER_SIZE: usize = 140;

/// The number of bytes of the header of a version 2 archive, the magic
/// constant and the version counted in.
pub const NFFILE_V2_HEADER_SIZE: usize = 40;

/// The number of bytes of the statistics record of a version 1 archive.
pub const NFFILE_V1_STAT_RECORD_SIZE: usize = 136;

/// The bits of the flags of a version 1 archive that select its compression.
pub const COMPRESSION_FLAGS: u32 = 0x19;

/// The compression bit of a version 1 archive with LZO blocks.
pub const FLAG_LZO_COMPRESSED: u32 = 0x01;

/// The compression bit of a version 1 archive with BZ2 blocks.
pub const FLAG_BZ2_COMPRESSED: u32 = 0x08;

/// The compression bit of a version 1 archive with LZ4 blocks.
pub const FLAG_LZ4_COMPRESSED: u32 = 0x10;

/// The header of an archive, in the layout of its version.
#[derive(Debug, Clone, PartialEq, Eq)]
pub enum NfFileHeader {
    V1(NfFileHeaderV1),
    V2(NfFileHeaderV2),
}

/// The header of an archive, with its bytes as sequences.
pub enum NfFileHeaderView {
    V1(NfFileHeaderV1View),
    V2(NfFileHeaderV2View),
}

impl View for NfFileHeader {
    type V = NfFileHeaderView;

    open spec fn view(&self) -> NfFileHeaderView {
        match *self {
            NfFileHeader::V1(h) => NfFileHeaderView::V1(h@),
            NfFileHeader::V2(h) => NfFileHeaderView::V2(h@),
        }
    }
}

impl NfFileHeaderView {
    /// The identity of the archive.
    pub open spec fn ident(self) -> Seq<u8> {
        match self {
            NfFileHeaderView::V1(h) => h.ident,
            NfFileHeaderView::V2(h) => h.ident,
        }
    }

    /// The header with the identity that an appendix gives. Only a version 2
    /// header takes one.
    pub open spec fn with_ident(self, ident: Seq<u8>) -> NfFileHeaderView {
        match self {
            NfFileHeaderView::V1(h) => self,
            NfFileHeaderView::V2(h) => NfFileHeaderView::V2(NfFileHeaderV2View { ident, ..h }),
        }
    }

    /// The compression of the archive's blocks. A version 1 archive tells it
    /// by the compression bits of its flags: one bit alone selects LZO, BZ2 or
    /// LZ4, and anything else means no compression. A version 2 archive
    /// stores the compression's number, and a number that stands for none is
    /// an error.
    pub open spec fn codec(self) -> Result<u8, NfdumpError> {
        match self {
            NfFileHeaderView::V1(h) => if h.flags & COMPRESSION_FLAGS == FLAG_LZO_COMPRESSED {
                Ok(NFDUMP_COMPRESSION_TYPE_LZO)
            } else if h.flags & COMPRESSION_FLAGS == FLAG_BZ2_COMPRESSED {
                Ok(NFDUMP_COMPRESSION_TYPE_BZ2)
            } else if h.flags & COMPRESSION_FLAGS == FLAG_LZ4_COMPRESSED {
                Ok(NFDUMP_COMPRESSION_TYPE_LZ4)
            } else {
                Ok(NFDUMP_COMPRESSION_TYPE_PLAIN)
            },
            NfFileHeaderView::V2(h) => if h.compression <= NFDUMP_COMPRESSION_TYPE_ZSTD {
                Ok(h.compression)
            } else {
                Err(NfdumpError::UnsupportedCompression)
            },
        }
    }
}

/// The statistics of an archive, in the layout of its version.
#[derive(Debug, Clone, Copy, PartialEq, Eq)]
pub enum StatRecord {
    V1(StatRecordV1),
    V2(StatRecordV2),
}

/// What a call for the next flow record came to.
#[derive(Debug, Clone, PartialEq, Eq)]
pub enum Next {
    /// A flow record.
    Flow(RecordKind),
    /// No record yet: the next block of flow data is LZO, and the reader
    /// waits for its caller to expand the payload.
    AwaitsLzo,
}

/// What a call for the next flow record came to, with the record's bytes as
/// sequences.
pub enum NextView {
    Flow(RecordKindView),
    AwaitsLzo,
}

impl View for Next {
    type V = NextView;

    open spec fn view(&self) -> NextView {
        match *self {
            Next::Flow(kind) => NextView::Flow(kind@),
            Next::AwaitsLzo => NextView::AwaitsLzo,
        }
    }
}

/// A reader of the flow records of one archive.
pub struct NfFileReader {
    reader: ByteCursor,
    pub header: NfFileHeader,
    pub stat_record: StatRecord,
    data_block: Option<DataBlock>,
    remaining_blocks: u32,
    extensions: Vec<u16>,
    exporters: Vec<ExporterInfo>,
}

/// The state of a reader.
pub struct ReaderView {
    /// The bytes of the archive.
    pub source: Seq<u8>,
    /// The index in `source` of the next byte to read.
    pub pos: int,
    pub header: NfFileHeaderView,
    pub stat_record: StatRecord,
    /// The block that records are read from, if there is one.
    pub block: Option<DataBlockView>,
    /// The number of blocks of flow data that are still to be fetched.
    pub remaining_blocks: u32,
    /// The active extension ids: those of the last extension map.
    pub extensions: Seq<u16>,
    /// The exporters announced so far.
    pub exporters: Seq<ExporterInfo>,
}

/// What one step of a reader came to: a result to hand to the caller, or
/// nothing yet.
pub type Outcome = Option<Result<NextView, NfdumpError>>;

/// What expanding the LZO payloads of some blocks came to, block by block:
/// the bytes, or `None` where expanding failed.
pub type Expansions = Seq<Option<Seq<u8>>>;

/// The first of the expansions, or a failure where there is none.
pub open spec fn first_of(lzo: Expansions) -> Option<Seq<u8>> {
    if lzo.len() > 0 {
        lzo[0]
    } else {
        None
    }
}

/// The expansions but the first.
pub open spec fn rest_of(lzo: Expansions) -> Expansions {
    if lzo.len() > 0 {
        lzo.skip(1)
    } else {
        lzo
    }
}

/// The expansions as sequences.
pub open spec fn expansions_of(lzo: Vec<Option<Vec<u8>>>) -> Expansions {
    Seq::new(lzo@.len(), |i: int| bytes_of(lzo@[i]))
}

impl ReaderView {
    /// The header of the block that starts at the read position.
    pub open spec fn block_header(self) -> DataBlockHeader {
        DataBlockHeader::at(self.source, self.pos)
    }

    /// The index after the block that starts at the read position.
    pub open spec fn block_end(self) -> int {
        self.pos + DataBlockHeader::SIZE + self.block_header().size
    }

    /// Whether the source holds the whole block that starts at the read
    /// position: its header, and as many bytes of payload as that declares.
    pub open spec fn block_framed(self) -> bool {
        self.block_end() <= self.source.len()
    }

    /// The compressed payload of the block that starts at the read position.
    pub open spec fn block_payload(self) -> Seq<u8> {
        self.source.subrange(self.pos + DataBlockHeader::SIZE, self.block_end())
    }

    /// The compression of the archive's blocks, where the header names one.
    pub open spec fn dtype(self) -> u8 {
        match self.header.codec() {
            Ok(dtype) => dtype,
            Err(_) => NFDUMP_COMPRESSION_TYPE_PLAIN,
        }
    }

    /// Whether the blocks of the archive are LZO.
    pub open spec fn is_lzo(self) -> bool {
        self.header.codec() == Ok::<u8, NfdumpError>(NFDUMP_COMPRESSION_TYPE_LZO)
    }

    /// Whether the read position has reached the appendix of a version 2
    /// archive, which holds no flow data.
    pub open spec fn at_appendix(self) -> bool {
        self.header matches NfFileHeaderView::V2(h) && self.pos >= h.off_appendix
    }

    /// Whether another block of flow data is to be fetched.
    pub open spec fn fetch_due(self) -> bool {
        self.remaining_blocks > 0 && !self.at_appendix()
    }

    /// Whether the reader waits for its caller to expand an LZO payload: it
    /// is between blocks, another block is to be fetched, the source holds
    /// that block, and the archive's compression is LZO.
    pub open spec fn awaits_lzo(self) -> bool {
        &&& self.block is None
        &&& self.fetch_due()
        &&& self.block_framed()
        &&& self.is_lzo()
    }

    /// The payload that the caller is to expand, if the reader waits for that.
    pub open spec fn lzo_payload(self) -> Option<Seq<u8>> {
        if self.awaits_lzo() {
            Some(self.block_payload())
        } else {
            None
        }
    }

    /// What the block that starts at the read position expands to, where
    /// `lzo` is what expanding its payload as LZO came to.
    pub open spec fn fetch_outcome(self, lzo: Option<Seq<u8>>) -> Result<Seq<u8>, NfdumpError> {
        if !self.block_framed() {
            Err(NfdumpError::IoError(IoFailure::UnexpectedEof))
        } else {
            match self.header.codec() {
                Ok(dtype) => expanded(dtype, self.block_payload(), lzo),
                Err(e) => Err(e),
            }
        }
    }

    /// The read position after a block that could not be fetched: after the
    /// block where the source holds it, else at the end of the source.
    pub open spec fn pos_after_failed_fetch(self) -> int {
        if self.block_framed() {
            self.block_end()
        } else {
            self.source.len() as int
        }
    }

    /// The reader after the block that starts at the read position has been
    /// fetched and has expanded to `bytes`.
    pub open spec fn with_fetched(self, bytes: Seq<u8>) -> ReaderView {
        ReaderView {
            pos: self.block_end(),
            block: Some(
                DataBlockView {
                    header: self.block_header(),
                    dtype: self.dtype(),
                    bytes,
                    pos: 0,
                    records_read: 0,
                },
            ),
            ..self
        }
    }

    /// The reader after the fetch of the block that starts at the read
    /// position, where `lzo` is what expanding its payload as LZO came to. A
    /// block that could not be fetched is passed over, and the block that
    /// the reader had stays.
    pub open spec fn fetched(self, lzo: Option<Seq<u8>>) -> ReaderView {
        match self.fetch_outcome(lzo) {
            Ok(bytes) => self.with_fetched(bytes),
            Err(_) => ReaderView { pos: self.pos_after_failed_fetch(), ..self },
        }
    }

    /// The reader after one more block of flow data has been counted as
    /// fetched.
    pub open spec fn counted(self) -> ReaderView {
        ReaderView { remaining_blocks: (self.remaining_blocks - 1) as u32, ..self }
    }

    /// The reader after the appendix has been left, read to its end or given
    /// up: it stands right after the header, between blocks.
    pub open spec fn appendix_done(self) -> ReaderView {
        ReaderView {
            pos: if NFFILE_V2_HEADER_SIZE <= self.source.len() {
                NFFILE_V2_HEADER_SIZE as int
            } else {
                self.source.len() as int
            },
            block: None,
            ..self
        }
    }

    /// The reader after a record of the appendix: an identity and a
    /// statistics record are taken over, every other record is dropped.
    pub open spec fn with_appendix_record(self, kind: RecordKindView) -> ReaderView {
        match kind {
            RecordKindView::Ident(ident) => ReaderView {
                header: self.header.with_ident(ident),
                ..self
            },
            RecordKindView::Stat(stat) => ReaderView { stat_record: StatRecord::V2(stat), ..self },
            _ => self,
        }
    }

    /// The reader after a record of flow data that is not handed out: an
    /// extension map replaces the active extension ids, an exporter joins the
    /// exporters, every other record is dropped.
    pub open spec fn with_side_record(self, kind: RecordKindView) -> ReaderView {
        match kind {
            RecordKindView::ExtensionMap(map) => ReaderView { extensions: map.ex_id, ..self },
            RecordKindView::ExporterInfo(exporter) => ReaderView {
                exporters: self.exporters.push(exporter),
                ..self
            },
            _ => self,
        }
    }

    /// The bytes that are left in the block, if there is one.
    pub open spec fn left_in_block(self) -> nat {
        match self.block {
            Some(block) => if block.bytes.len() > block.pos {
                (1 + block.bytes.len() - block.pos) as nat
            } else {
                1
            },
            None => 0,
        }
    }

    /// The reader after its appendix has been read, of which `left` blocks
    /// are still to be fetched, where `lzo` is what expanding the LZO
    /// payloads of those blocks came to, first block first.
    ///
    /// Every record of every block is read; identity and statistics are
    /// taken over. The first failure, be it a block that cannot be fetched
    /// or a record that cannot be read, ends the appendix and nothing else.
    /// Either way the reader ends right after the header, between blocks.
    pub open spec fn after_appendix(self, left: nat, lzo: Expansions) -> ReaderView
        decreases left, self.left_in_block(),
    {
        match self.block {
            None => if left == 0 {
                self.appendix_done()
            } else {
                match self.fetch_outcome(first_of(lzo)) {
                    Ok(bytes) => self.with_fetched(bytes).after_appendix(
                        (left - 1) as nat,
                        rest_of(lzo),
                    ),
                    Err(_) => self.appendix_done(),
                }
            },
            Some(block) => match block.next(self.extensions) {
                Ok(RecordKindView::NoMore) => (ReaderView { block: None, ..self }).after_appendix(
                    left,
                    lzo,
                ),
                Ok(kind) => (ReaderView {
                    block: Some(block.advanced()),
                    ..self
                }).with_appendix_record(kind).after_appendix(left, lzo),
                Err(_) => self.appendix_done(),
            },
        }
    }

    /// One step between blocks: a block is fetched if one is due. Where that
    /// block is LZO, the step comes to a wait and changes nothing.
    pub open spec fn step_between_blocks(self) -> (Outcome, ReaderView) {
        if !self.fetch_due() {
            (Some(Err(NfdumpError::EOF)), self)
        } else if self.awaits_lzo() {
            (Some(Ok(NextView::AwaitsLzo)), self)
        } else {
            match self.fetch_outcome(None) {
                Ok(bytes) => (None, self.with_fetched(bytes).counted()),
                Err(e) => (Some(Err(e)), self.fetched(None)),
            }
        }
    }

    /// One step within the block `block`: its next record is read.
    pub open spec fn step_in_block(self, block: DataBlockView) -> (Outcome, ReaderView) {
        let read = ReaderView { block: Some(block.advanced()), ..self };
        match block.next(self.extensions) {
            Ok(RecordKindView::NoMore) => (None, ReaderView { block: None, ..self }),
            Ok(kind) => if kind.is_flow() {
                (Some(Ok(NextView::Flow(kind))), read)
            } else {
                (None, read.with_side_record(kind))
            },
            Err(e) => (Some(Err(e)), read),
        }
    }

    /// One step of the reader, and the reader after it: a flow record is
    /// handed out, and so are every error and a wait for the caller; end of
    /// file is the error `EOF`.
    pub open spec fn step(self) -> (Outcome, ReaderView) {
        match self.block {
            None => self.step_between_blocks(),
            Some(block) => self.step_in_block(block),
        }
    }

    /// What `read_record` hands out, and the reader after it: steps are taken
    /// until one comes to a result.
    pub open spec fn pull(self) -> (Result<NextView, NfdumpError>, ReaderView)
        decreases self.remaining_blocks, self.left_in_block(),
    {
        match self.step().0 {
            Some(result) => (result, self.step().1),
            None => self.step().1.pull(),
        }
    }

    /// The reader after its caller has handed in `lzo`, what expanding the
    /// payload that the reader waits for came to, and whether that failed. A
    /// reader that does not wait stays as it is.
    pub open spec fn supplied(self, lzo: Option<Seq<u8>>) -> (Result<(), NfdumpError>, ReaderView) {
        if !self.awaits_lzo() {
            (Ok(()), self)
        } else {
            match self.fetch_outcome(lzo) {
                Ok(bytes) => (Ok(()), self.with_fetched(bytes).counted()),
                Err(e) => (Err(e), self.fetched(lzo)),
            }
        }
    }

    /// The reader after the next record of its block has been taken in as a
    /// record that is not handed out.
    pub open spec fn after_side_record(self) -> ReaderView {
        match self.block {
            Some(block) => match block.next(self.extensions) {
                Ok(kind) => (ReaderView {
                    block: Some(block.advanced()),
                    ..self
                }).with_side_record(kind),
                Err(_) => self,
            },
            None => self,
        }
    }

    /// Whether the next record of the block can be read and is not handed
    /// out: it is no flow record, and the block has not come to its end.
    pub open spec fn side_record_ahead(self) -> bool {
        self.block matches Some(block) && block.next(self.extensions) matches Ok(kind)
            && !kind.is_flow() && kind !is NoMore
    }

    /// Whether the next `count` records of the block are records that are
    /// not handed out.
    pub open spec fn side_records_ahead(self, count: nat) -> bool
        decreases count,
    {
        count == 0 || (self.side_record_ahead() && self.after_side_record().side_records_ahead(
            (count - 1) as nat,
        ))
    }

    /// The reader after the next `count` records of its block have been
    /// taken in as records that are not handed out.
    pub open spec fn after_side_records(self, count: nat) -> ReaderView
        decreases count,
    {
        if count == 0 {
            self
        } else {
            self.after_side_record().after_side_records((count - 1) as nat)
        }
    }

    /// Whether the next record of the block is the flow record `flow`.
    pub open spec fn flow_ahead(self, flow: RecordKindView) -> bool {
        self.block matches Some(block) && block.next(self.extensions) == Ok::<
            RecordKindView,
            NfdumpError,
        >(flow) && flow.is_flow()
    }

    /// Whether the reader has handed out all there is: it stands between
    /// blocks, and no block is left to fetch.
    pub open spec fn exhausted(self) -> bool {
        self.block is None && self.remaining_blocks == 0
    }
}

/// Whether the bytes `source` start with the header of a version 2 archive.
pub open spec fn has_v2_header(source: Seq<u8>) -> bool {
    &&& source.len() >= NFFILE_V2_HEADER_SIZE
    &&& u16_at(source, 0) == MAGIC
    &&& u16_at(source, 2) == 2
}

/// The reader that opening an archive made of the bytes `source` gives,
/// where `lzo` is what expanding the LZO payloads of its appendix came to,
/// first block first.
///
/// The archive starts with the magic constant and its version, two bytes
/// each. A version 1 archive goes on with its header and its statistics
/// record, and flow data follows right after. A version 2 archive goes on
/// with its header; its statistics are zero and its identity is empty but
/// for what the appendix gives, and the appendix is read before anything
/// else.
pub open spec fn open_archive(source: Seq<u8>, lzo: Expansions) -> Result<ReaderView, NfdumpError> {
    if source.len() < 2 {
        Err(NfdumpError::IoError(IoFailure::UnexpectedEof))
    } else if u16_at(source, 0) != MAGIC {
        Err(NfdumpError::InvalidFile)
    } else if source.len() < 4 {
        Err(NfdumpError::IoError(IoFailure::UnexpectedEof))
    } else if u16_at(source, 2) == 1 {
        if source.len() < NFFILE_V1_HEADER_SIZE + NFFILE_V1_STAT_RECORD_SIZE {
            Err(NfdumpError::IoError(IoFailure::UnexpectedEof))
        } else {
            Ok(opened_v1(source))
        }
    } else if u16_at(source, 2) == 2 {
        if source.len() < NFFILE_V2_HEADER_SIZE {
            Err(NfdumpError::IoError(IoFailure::UnexpectedEof))
        } else {
            Ok(opened_v2(source).after_appendix(appendix_blocks(source) as nat, lzo))
        }
    } else {
        Err(NfdumpError::UnsupportedVersion)
    }
}

/// The reader of a version 1 archive right after its header and its
/// statistics record have been read.
pub open spec fn opened_v1(source: Seq<u8>) -> ReaderView {
    let header = NfFileHeaderV1::of(source.subrange(4, NFFILE_V1_HEADER_SIZE as int));
    ReaderView {
        source,
        pos: (NFFILE_V1_HEADER_SIZE + NFFILE_V1_STAT_RECORD_SIZE) as int,
        header: NfFileHeaderView::V1(header),
        stat_record: StatRecord::V1(
            StatRecordV1::of(
                source.subrange(
                    NFFILE_V1_HEADER_SIZE as int,
                    (NFFILE_V1_HEADER_SIZE + NFFILE_V1_STAT_RECORD_SIZE) as int,
                ),
            ),
        ),
        block: None,
        remaining_blocks: header.num_blocks,
        extensions: Seq::empty(),
        exporters: Seq::empty(),
    }
}

/// The number of blocks that the header of a version 2 archive counts for
/// its appendix.
pub open spec fn appendix_blocks(source: Seq<u8>) -> u16 {
    NfFileHeaderV2::of(source.subrange(4, NFFILE_V2_HEADER_SIZE as int)).appendix_blocks
}

/// The reader of a version 2 archive right after its header has been read:
/// it stands at the appendix, or at the end of the source where the appendix
/// is said to lie beyond it.
pub open spec fn opened_v2(source: Seq<u8>) -> ReaderView {
    let header = NfFileHeaderV2::of(source.subrange(4, NFFILE_V2_HEADER_SIZE as int));
    ReaderView {
        source,
        pos: if header.off_appendix <= source.len() {
            header.off_appendix as int
        } else {
            source.len() as int
        },
        header: NfFileHeaderView::V2(header),
        stat_record: StatRecord::V2(StatRecordV2::zero()),
        block: None,
        remaining_blocks: header.num_blocks,
        extensions: Seq::empty(),
        exporters: Seq::empty(),
    }
}

/// The payloads of the blocks that follow each other from the read position
/// of `v` on, `left` of them at most, as far as the source holds them.
pub open spec fn payloads_from(v: ReaderView, left: nat) -> Seq<Seq<u8>>
    decreases left,
{
    if left == 0 || !v.block_framed() {
        Seq::empty()
    } else {
        seq![v.block_payload()] + payloads_from(
            ReaderView { pos: v.block_end(), ..v },
            (left - 1) as nat,
        )
    }
}

/// The payloads that the caller is to expand before it opens the archive
/// made of the bytes `source`: none but for a version 2 archive with LZO
/// blocks, and for such a one those of the blocks of its appendix, as far as
/// the source holds them.
pub open spec fn appendix_payloads(source: Seq<u8>) -> Seq<Seq<u8>> {
    if has_v2_header(source) && opened_v2(source).is_lzo() {
        payloads_from(opened_v2(source), appendix_blocks(source) as nat)
    } else {
        Seq::empty()
    }
}

/// What a result of reading looks like with the record's bytes as sequences.
pub open spec fn result_view(r: Result<Next, NfdumpError>) -> Result<NextView, NfdumpError> {
    match r {
        Ok(next) => Ok(next@),
        Err(e) => Err(e),
    }
}

/// What the outcome of a step looks like with the record's bytes as
/// sequences.
pub open spec fn outcome_view(r: Option<Result<Next, NfdumpError>>) -> Outcome {
    match r {
        Some(result) => Some(result_view(result)),
        None => None,
    }
}

/// The payloads as sequences.
pub open spec fn payloads_of(payloads: Vec<Vec<u8>>) -> Seq<Seq<u8>> {
    Seq::new(payloads@.len(), |i: int| payloads@[i]@)
}

/// The payloads of the appendix that the caller is to expand before it opens
/// the archive `source`, first block first. What expanding them came to goes
/// to `NfFileReader::new`, in the same order.
pub fn lzo_appendix_payloads(source: &Vec<u8>) -> (r: Vec<Vec<u8>>)
    ensures
        payloads_of(r) == appendix_payloads(source@),
{
    let mut out: Vec<Vec<u8>> = Vec::new();
    let s = source.as_slice();
    if s.len() < NFFILE_V2_HEADER_SIZE || get_u16(s, 0) != MAGIC || get_u16(s, 2) != 2 {
        return out;
    }
    if s[16] != NFDUMP_COMPRESSION_TYPE_LZO {
        return out;
    }
    let blocks: u16 = get_u16(s, 18);
    let off_appendix: u64 = get_u64(s, 24);
    let ghost start = opened_v2(source@);
    let mut pos: usize = if off_appendix <= s.len() as u64 {
        off_appendix as usize
    } else {
        s.len()
    };
    let mut done: u16 = 0;
    while done < blocks
        invariant
            s@ == source@,
            done <= blocks,
            pos <= s@.len(),
            payloads_of(out) + payloads_from(
                ReaderView { pos: pos as int, ..start },
                (blocks - done) as nat,
            ) == payloads_from(start, blocks as nat),
            start.source == source@,
            appendix_payloads(source@) == payloads_from(start, blocks as nat),
        decreases blocks - done,
    {
        let rest = slice_subrange(s, pos, s.len());
        let ghost here = ReaderView { pos: pos as int, ..start };
        let header = match DataBlockHeader::read(rest) {
            Some(header) => header,
            None => {
                assert(!here.block_framed());
                assert(payloads_of(out) + Seq::<Seq<u8>>::empty() == payloads_of(out));
                return out;
            },
        };
        if header.size as usize > rest.len() - DataBlockHeader::SIZE {
            assert(!here.block_framed());
            assert(payloads_of(out) + Seq::<Seq<u8>>::empty() == payloads_of(out));
            return out;
        }
        let from: usize = pos + DataBlockHeader::SIZE;
        let end: usize = from + header.size as usize;
        let ghost before = payloads_of(out);
        let payload = slice_to_vec(slice_subrange(s, from, end));
        out.push(payload);
        assert(payloads_of(out) == before + seq![payload@]);
        pos = end;
        done = done + 1;
    }
    out
}

impl View for NfFileReader {
    type V = ReaderView;

    closed spec fn view(&self) -> ReaderView {
        ReaderView {
            source: self.reader.bytes(),
            pos: self.reader.position() as int,
            header: self.header@,
            stat_record: self.stat_record,
            block: match self.data_block {
                Some(block) => Some(block@),
                None => None,
            },
            remaining_blocks: self.remaining_blocks,
            extensions: self.extensions@,
            exporters: self.exporters@,
        }
    }
}

impl NfFileReader {
    /// Opens the archive that the bytes `source` make up. LZO is expanded by
    /// the caller: `lzo` is what expanding `lzo_appendix_payloads(source)`
    /// came to, payload by payload, each the bytes, or `None` where expanding
    /// failed. No other compression looks at `lzo`.
    pub fn new(source: Vec<u8>, lzo: Vec<Option<Vec<u8>>>) -> (r: Result<NfFileReader, NfdumpError>)
        ensures
            match open_archive(source@, expansions_of(lzo)) {
                Ok(v) => r matches Ok(reader) && reader@ == v,
                Err(e) => r matches Err(x) && x == e,
            },
            source@.len() >= 2 ==> ((r matches Err(NfdumpError::InvalidFile)) <==> u16_at(
                source@,
                0,
            ) != MAGIC),
            has_v2_header(source@) ==> (r matches Ok(reader) && reader@.block is None
                && reader@.pos == NFFILE_V2_HEADER_SIZE && reader@.remaining_blocks == opened_v2(
                source@,
            ).remaining_blocks),
    {
        proof {
            if has_v2_header(source@) {
                lemma_flow_data_starts_after_header(source@, expansions_of(lzo));
            }
        }
        let mut reader = ByteCursor::new(source);
        let magic = match reader.read_u16() {
            Some(v) => v,
            None => {
                return Err(NfdumpError::IoError(IoFailure::UnexpectedEof));
            },
        };
        if magic != MAGIC {
            return Err(NfdumpError::InvalidFile);
        }
        let version = match reader.read_u16() {
            Some(v) => v,
            None => {
                return Err(NfdumpError::IoError(IoFailure::UnexpectedEof));
            },
        };
        if version == 1 {
            let hbuf = match reader.read_exact(NFFILE_V1_HEADER_SIZE - 4) {
                Some(v) => v,
                None => {
                    return Err(NfdumpError::IoError(IoFailure::UnexpectedEof));
                },
            };
            let header = NfFileHeaderV1::from(hbuf);
            let srbuf = match reader.read_exact(NFFILE_V1_STAT_RECORD_SIZE) {
                Some(v) => v,
                None => {
                    return Err(NfdumpError::IoError(IoFailure::UnexpectedEof));
                },
            };
            let stat_record = StatRecord::V1(StatRecordV1::from(srbuf));
            let remaining_blocks = header.num_blocks;
            Ok(
                NfFileReader {
                    reader,
                    header: NfFileHeader::V1(header),
                    stat_record,
                    data_block: None,
                    remaining_blocks,
                    extensions: Vec::new(),
                    exporters: Vec::new(),
                },
            )
        } else if version == 2 {
            let hbuf = match reader.read_exact(NFFILE_V2_HEADER_SIZE - 4) {
                Some(v) => v,
                None => {
                    return Err(NfdumpError::IoError(IoFailure::UnexpectedEof));
                },
            };
            let header = NfFileHeaderV2::from(hbuf);
            let remaining_blocks = header.num_blocks;
            let appendix_blocks = header.appendix_blocks;
            reader.seek(header.off_appendix);
            let mut ret = NfFileReader {
                reader,
                header: NfFileHeader::V2(header),
                stat_record: StatRecord::V2(StatRecordV2::default()),
                data_block: None,
                remaining_blocks,
                extensions: Vec::new(),
                exporters: Vec::new(),
            };
            ret.read_appendix(appendix_blocks, lzo);
            Ok(ret)
        } else {
            Err(NfdumpError::UnsupportedVersion)
        }
    }

    /// The header of the archive, with the identity that the appendix gave
    /// it.
    pub fn header(&self) -> (r: &NfFileHeader)
        ensures
            r@ == self@.header,
    {
        &self.header
    }

    /// The statistics of the archive: zero in a version 2 archive but for
    /// what the appendix gave.
    pub fn stat_record(&self) -> (r: StatRecord)
        ensures
            r == self@.stat_record,
    {
        self.stat_record
    }

    /// The index in the archive of the next byte to read.
    pub fn position(&self) -> (r: usize)
        ensures
            r == self@.pos,
    {
        self.reader.offset()
    }

    /// The number of blocks of flow data that are still to be fetched.
    pub fn remaining_blocks(&self) -> (r: u32)
        ensures
            r == self@.remaining_blocks,
    {
        self.remaining_blocks
    }

    /// The active extension ids: those of the last extension map.
    pub fn extensions(&self) -> (r: &Vec<u16>)
        ensures
            r@ == self@.extensions,
    {
        &self.extensions
    }

    /// The exporters announced so far.
    pub fn exporters(&self) -> (r: &Vec<ExporterInfo>)
        ensures
            r@ == self@.exporters,
    {
        &self.exporters
    }

    /// The identity of the archive.
    pub fn get_ident(&self) -> (r: Vec<u8>)
        ensures
            r@ == self@.header.ident(),
    {
        match &self.header {
            NfFileHeader::V1(h) => slice_to_vec(h.ident.as_slice()),
            NfFileHeader::V2(h) => slice_to_vec(h.ident.as_slice()),
        }
    }

    /// The compression of the blocks of an archive with the header `header`.
    pub fn codec_of(header: &NfFileHeader) -> (r: Result<u8, NfdumpError>)
        ensures
            r == header@.codec(),
    {
        match header {
            NfFileHeader::V1(h) => {
                let bits: u32 = h.flags & COMPRESSION_FLAGS;
                if bits == FLAG_LZO_COMPRESSED {
                    Ok(NFDUMP_COMPRESSION_TYPE_LZO)
                } else if bits == FLAG_BZ2_COMPRESSED {
                    Ok(NFDUMP_COMPRESSION_TYPE_BZ2)
                } else if bits == FLAG_LZ4_COMPRESSED {
                    Ok(NFDUMP_COMPRESSION_TYPE_LZ4)
                } else {
                    Ok(NFDUMP_COMPRESSION_TYPE_PLAIN)
                }
            },
            NfFileHeader::V2(h) => {
                if h.compression <= NFDUMP_COMPRESSION_TYPE_ZSTD {
                    Ok(h.compression)
                } else {
                    Err(NfdumpError::UnsupportedCompression)
                }
            },
        }
    }

    /// Expands the payload `data` of a block of an archive with the header
    /// `header`. LZO is expanded by the caller: `lzo` is what expanding
    /// `data` as LZO came to, the bytes, or `None` where that failed. No
    /// other compression looks at `lzo`.
    pub fn select_decompressor(header: &NfFileHeader, data: Vec<u8>, lzo: Option<Vec<u8>>) -> (r:
        Result<Decompressor, NfdumpError>)
        ensures
            match header@.codec() {
                Ok(dtype) => match expanded(dtype, data@, bytes_of(lzo)) {
                    Ok(bytes) => r matches Ok(z) && z.dtype() == dtype && z.stream().bytes()
                        == bytes && z.stream().position() == 0,
                    Err(e) => r matches Err(x) && x == e,
                },
                Err(e) => r matches Err(x) && x == e,
            },
            (r matches Err(NfdumpError::UnsupportedCompression)) <==> (header@ matches NfFileHeaderView::V2(
                h,
            ) && h.compression > NFDUMP_COMPRESSION_TYPE_ZSTD),
    {
        match NfFileReader::codec_of(header) {
            Ok(dtype) => Decompressor::new(dtype, data, lzo),
            Err(e) => Err(e),
        }
    }

    /// Whether another block of flow data is to be fetched.
    fn fetch_due(&self) -> (r: bool)
        ensures
            r == self@.fetch_due(),
    {
        if self.remaining_blocks == 0 {
            false
        } else {
            match &self.header {
                NfFileHeader::V1(_) => true,
                NfFileHeader::V2(h) => (self.reader.offset() as u64) < h.off_appendix,
            }
        }
    }

    /// The header of the block that starts at the read position, if the
    /// source holds the whole block.
    fn framed_block(&self) -> (r: Option<DataBlockHeader>)
        ensures
            r == if self@.block_framed() {
                Some(self@.block_header())
            } else {
                None
            },
            0 <= self@.pos <= self@.source.len(),
    {
        let rest = self.reader.rest();
        match DataBlockHeader::read(rest) {
            Some(header) => {
                if header.size as usize <= rest.len() - DataBlockHeader::SIZE {
                    Some(header)
                } else {
                    None
                }
            },
            None => None,
        }
    }

    /// Whether the reader waits for its caller to expand an LZO payload.
    pub fn awaits_lzo(&self) -> (r: bool)
        ensures
            r == self@.awaits_lzo(),
    {
        if self.data_block.is_some() || !self.fetch_due() {
            return false;
        }
        match NfFileReader::codec_of(&self.header) {
            Ok(dtype) => dtype == NFDUMP_COMPRESSION_TYPE_LZO && self.framed_block().is_some(),
            Err(_) => false,
        }
    }

    /// The LZO payload that the caller is to expand, if the reader waits for
    /// that.
    pub fn lzo_payload(&self) -> (r: Option<Vec<u8>>)
        ensures
            bytes_of(r) == self@.lzo_payload(),
    {
        if !self.awaits_lzo() {
            return None;
        }
        match self.framed_block() {
            Some(header) => {
                let rest = self.reader.rest();
                let behind_header = slice_subrange(rest, DataBlockHeader::SIZE, rest.len());
                let payload = slice_subrange(behind_header, 0, header.size as usize);
                assert(payload@ == self@.block_payload());
                Some(slice_to_vec(payload))
            },
            None => None,
        }
    }

    /// Takes what expanding the payload that `lzo_payload` handed out came
    /// to: the bytes, or `None` where expanding failed. Where the reader does
    /// not wait for that, nothing happens. A failure is a data error, and
    /// the block is passed over.
    pub fn supply_lzo(&mut self, out: Option<Vec<u8>>) -> (r: Result<(), NfdumpError>)
        ensures
            r == old(self)@.supplied(bytes_of(out)).0,
            final(self)@ == old(self)@.supplied(bytes_of(out)).1,
    {
        if !self.awaits_lzo() {
            return Ok(());
        }
        match self.read_data_block(out) {
            Ok(()) => {
                self.remaining_blocks = self.remaining_blocks - 1;
                Ok(())
            },
            Err(e) => Err(e),
        }
    }

    /// Leaves the appendix: the reader stands right after the header,
    /// between blocks.
    fn finish_appendix(&mut self)
        ensures
            final(self)@ == old(self)@.appendix_done(),
    {
        self.reader.seek(NFFILE_V2_HEADER_SIZE as u64);
        self.data_block = None;
    }

    /// Fetches the block that starts at the read position: reads its header
    /// and its payload from the source, and expands the payload. LZO is
    /// expanded by the caller: `lzo` is what expanding the payload as LZO
    /// came to.
    pub fn read_data_block(&mut self, lzo: Option<Vec<u8>>) -> (r: Result<(), NfdumpError>)
        ensures
            final(self)@ == old(self)@.fetched(bytes_of(lzo)),
            match old(self)@.fetch_outcome(bytes_of(lzo)) {
                Ok(_) => r is Ok,
                Err(e) => r == Err::<(), NfdumpError>(e),
            },
    {
        let db_buf = match self.reader.read_exact(DataBlockHeader::SIZE) {
            Some(v) => v,
            None => {
                return Err(NfdumpError::IoError(IoFailure::UnexpectedEof));
            },
        };
        let db_header = match DataBlockHeader::read(db_buf.as_slice()) {
            Some(h) => h,
            None => {
                return Err(NfdumpError::IoError(IoFailure::UnexpectedEof));
            },
        };
        let data = match self.reader.read_exact(db_header.size as usize) {
            Some(v) => v,
            None => {
                return Err(NfdumpError::IoError(IoFailure::UnexpectedEof));
            },
        };
        let decompressor = match NfFileReader::select_decompressor(&self.header, data, lzo) {
            Ok(z) => z,
            Err(e) => {
                return Err(e);
            },
        };
        self.data_block = Some(DataBlock::new(db_header, decompressor));
        Ok(())
    }

    /// Takes one step: fetches a block, or reads a record and takes it in.
    /// Returns what there is to hand to the caller, if anything.
    pub fn step(&mut self) -> (r: Option<Result<Next, NfdumpError>>)
        ensures
            outcome_view(r) == old(self)@.step().0,
            final(self)@ == old(self)@.step().1,
    {
        match self.data_block.take() {
            None => {
                if !self.fetch_due() {
                    return Some(Err(NfdumpError::EOF));
                }
                if self.awaits_lzo() {
                    return Some(Ok(Next::AwaitsLzo));
                }
                match self.read_data_block(None) {
                    Ok(()) => {
                        self.remaining_blocks = self.remaining_blocks - 1;
                        None
                    },
                    Err(e) => Some(Err(e)),
                }
            },
            Some(mut block) => {
                let read = block.read_record(&self.extensions);
                match read {
                    Ok(RecordKind::NoMore) => None,
                    Ok(kind) => {
                        self.data_block = Some(block);
                        match kind {
                            RecordKind::ExtensionMap(map) => {
                                self.extensions = map.ex_id;
                                None
                            },
                            RecordKind::ExporterInfo(exporter) => {
                                self.exporters.push(exporter);
                                None
                            },
                            RecordKind::Record(_) => Some(Ok(Next::Flow(kind))),
                            RecordKind::RecordV3(_) => Some(Ok(Next::Flow(kind))),
                            _ => None,
                        }
                    },
                    Err(e) => {
                        self.data_block = Some(block);
                        Some(Err(e))
                    },
                }
            },
        }
    }

    /// Gives the header the identity `ident`, where its version takes one.
    fn set_ident(&mut self, ident: Vec<u8>)
        ensures
            final(self)@ == (ReaderView {
                header: old(self)@.header.with_ident(ident@),
                ..old(self)@
            }),
    {
        match &mut self.header {
            NfFileHeader::V2(h) => {
                h.ident = ident;
            },
            NfFileHeader::V1(_) => {},
        }
    }

    /// Reads the appendix, of which `left` blocks are to be fetched, where
    /// `lzo` is what expanding the LZO payloads of those blocks came to. No
    /// failure is handed out.
    fn read_appendix(&mut self, left: u16, lzo: Vec<Option<Vec<u8>>>)
        ensures
            final(self)@ == old(self)@.after_appendix(left as nat, expansions_of(lzo)),
    {
        let mut todo: u16 = left;
        let mut supplies = lzo;
        loop
            invariant
                self@.after_appendix(todo as nat, expansions_of(supplies)) == old(
                    self,
                )@.after_appendix(left as nat, expansions_of(lzo)),
            decreases todo, self@.left_in_block(),
        {
            match self.data_block.take() {
                None => {
                    if todo == 0 {
                        self.finish_appendix();
                        return ;
                    }
                    let ghost before = expansions_of(supplies);
                    let out = if supplies.len() > 0 {
                        supplies.remove(0)
                    } else {
                        None
                    };
                    assert(bytes_of(out) == first_of(before));
                    assert(expansions_of(supplies) == rest_of(before));
                    match self.read_data_block(out) {
                        Ok(()) => {
                            todo = todo - 1;
                        },
                        Err(_) => {
                            self.finish_appendix();
                            return ;
                        },
                    }
                },
                Some(mut block) => {
                    match block.read_record(&self.extensions) {
                        Ok(RecordKind::NoMore) => {},
                        Ok(kind) => {
                            self.data_block = Some(block);
                            match kind {
                                RecordKind::Ident(ident) => {
                                    self.set_ident(ident);
                                },
                                RecordKind::Stat(stat) => {
                                    self.stat_record = StatRecord::V2(stat);
                                },
                                _ => {},
                            }
                        },
                        Err(_) => {
                            self.finish_appendix();
                            return ;
                        },
                    }
                },
            }
        }
    }

    /// Reads the next flow record. `Err(EOF)` says that there is none left.
    ///
    /// Where the next block of flow data is LZO, the result is
    /// `Ok(Next::AwaitsLzo)`, and the reader is as it was at the end of the
    /// block before: see `lzo_payload` and `supply_lzo`.
    pub fn read_record(&mut self) -> (r: Result<Next, NfdumpError>)
        ensures
            result_view(r) == old(self)@.pull().0,
            final(self)@ == old(self)@.pull().1,
            r matches Ok(Next::Flow(kind)) ==> kind@.is_flow(),
            (r matches Ok(Next::AwaitsLzo)) ==> final(self)@.awaits_lzo(),
            old(self)@.exhausted() ==> (r matches Err(NfdumpError::EOF)) && final(self)@ == old(
                self,
            )@,
    {
        loop
            invariant
                self@.pull() == old(self)@.pull(),
                old(self)@.exhausted() ==> self@ == old(self)@,
            decreases self@.remaining_blocks, self@.left_in_block(),
        {
            match self.step() {
                Some(result) => {
                    return result;
                },
                None => {},
            }
        }
    }
}

/// A reader that has handed out all there is reports end of file, and is the
/// same reader after that: every later call reports end of file too.
pub proof fn lemma_exhausted_stays_exhausted(v: ReaderView)
    requires
        v.exhausted(),
    ensures
        v.pull() == (Err::<NextView, NfdumpError>(NfdumpError::EOF), v),
{
}

/// Of records, nothing but flow records is handed out: every other kind of
/// record is taken in or dropped on the way. And a wait is handed out by
/// none but a reader that waits.
pub proof fn lemma_only_flows_are_handed_out(v: ReaderView)
    ensures
        v.pull().0 matches Ok(NextView::Flow(kind)) ==> kind.is_flow(),
        (v.pull().0 matches Ok(NextView::AwaitsLzo)) ==> v.pull().1.awaits_lzo(),
    decreases v.remaining_blocks, v.left_in_block(),
{
    if v.step().0 is None {
        lemma_only_flows_are_handed_out(v.step().1);
    }
}

/// The first flow record of a block is the next to be handed out: the
/// records before it are taken in or dropped, in their order, and the reader
/// then stands right behind the flow record.
pub proof fn lemma_first_flow_of_block_is_next(v: ReaderView, count: nat, flow: RecordKindView)
    requires
        v.side_records_ahead(count),
        v.after_side_records(count).flow_ahead(flow),
    ensures
        v.pull().0 == Ok::<NextView, NfdumpError>(NextView::Flow(flow)),
        v.pull().1 == (ReaderView {
            block: Some(v.after_side_records(count).block.unwrap().advanced()),
            ..v.after_side_records(count)
        }),
    decreases count,
{
    if count > 0 {
        assert(v.step().0 is None);
        assert(v.step().1 == v.after_side_record());
        lemma_first_flow_of_block_is_next(v.after_side_record(), (count - 1) as nat, flow);
    }
}

/// The first flow record of an archive comes from the block right behind
/// the header. Let a version 2 archive be open, let the block at the end of
/// its header count as flow data and expand to `bytes`, by the library or by
/// what the caller supplied, and let `flow` be the first flow record among
/// the records of `bytes`. Then `flow` is the first record handed out,
/// whatever the appendix held.
pub proof fn lemma_first_flow_comes_from_behind_header(
    source: Seq<u8>,
    lzo: Expansions,
    block_lzo: Option<Seq<u8>>,
    bytes: Seq<u8>,
    count: nat,
    flow: RecordKindView,
)
    requires
        has_v2_header(source),
        open_archive(source, lzo) matches Ok(v) && v.fetch_due() && v.fetch_outcome(block_lzo)
            == Ok::<Seq<u8>, NfdumpError>(bytes) && v.with_fetched(
            bytes,
        ).counted().side_records_ahead(count) && v.with_fetched(bytes).counted().after_side_records(
            count,
        ).flow_ahead(flow),
    ensures
        open_archive(source, lzo) matches Ok(v) && v.pos == NFFILE_V2_HEADER_SIZE
            && v.block_header() == DataBlockHeader::at(source, NFFILE_V2_HEADER_SIZE as int) && (
            if v.is_lzo() {
                v.awaits_lzo() && v.supplied(block_lzo).0 is Ok && v.supplied(block_lzo).1.pull().0
                    == Ok::<NextView, NfdumpError>(NextView::Flow(flow))
            } else {
                v.pull().0 == Ok::<NextView, NfdumpError>(NextView::Flow(flow))
            }),
{
    lemma_flow_data_starts_after_header(source, lzo);
    let v = open_archive(source, lzo).unwrap();
    let fetched = v.with_fetched(bytes).counted();
    lemma_first_flow_of_block_is_next(fetched, count, flow);
    if !v.is_lzo() {
        assert(v.fetch_outcome(None) == v.fetch_outcome(block_lzo));
        assert(v.step() == (None::<Result<NextView, NfdumpError>>, fetched));
    }
}

/// No step changes the header, so that the compression of an archive stays
/// what it is.
pub proof fn lemma_header_stays(v: ReaderView)
    ensures
        v.pull().1.header == v.header,
        v.pull().1.source == v.source,
    decreases v.remaining_blocks, v.left_in_block(),
{
    if v.step().0 is None {
        lemma_header_stays(v.step().1);
    }
}

/// A reader of an archive whose blocks are not LZO never waits for its
/// caller.
pub proof fn lemma_wait_only_for_lzo(v: ReaderView)
    requires
        !v.is_lzo(),
    ensures
        !(v.pull().0 matches Ok(NextView::AwaitsLzo)),
{
    lemma_only_flows_are_handed_out(v);
    lemma_header_stays(v);
}

/// Flow data ends where the appendix of a version 2 archive starts: a reader
/// that stands there between blocks reports end of file, however many blocks
/// are still counted.
pub proof fn lemma_appendix_is_no_flow_data(v: ReaderView)
    requires
        v.block is None,
        v.at_appendix(),
    ensures
        v.pull() == (Err::<NextView, NfdumpError>(NfdumpError::EOF), v),
{
}

/// Whatever the appendix holds, wherever it is said to lie, and whatever
/// expanding its payloads came to: after it the reader stands between
/// blocks, right after the header, with every block of flow data still to be
/// fetched.
pub proof fn lemma_appendix_ends_after_header(v: ReaderView, left: nat, lzo: Expansions)
    ensures
        v.after_appendix(left, lzo).block is None,
        v.after_appendix(left, lzo).pos == v.appendix_done().pos,
        v.after_appendix(left, lzo).source == v.source,
        v.after_appendix(left, lzo).remaining_blocks == v.remaining_blocks,
        v.after_appendix(left, lzo).extensions == v.extensions,
        v.after_appendix(left, lzo).exporters == v.exporters,
        v.header is V2 ==> v.after_appendix(left, lzo).header is V2,
    decreases left, v.left_in_block(),
{
    match v.block {
        None => {
            if left > 0 {
                match v.fetch_outcome(first_of(lzo)) {
                    Ok(bytes) => {
                        lemma_appendix_ends_after_header(
                            v.with_fetched(bytes),
                            (left - 1) as nat,
                            rest_of(lzo),
                        );
                    },
                    Err(_) => {},
                }
            }
        },
        Some(block) => {
            match block.next(v.extensions) {
                Ok(RecordKindView::NoMore) => {
                    lemma_appendix_ends_after_header(ReaderView { block: None, ..v }, left, lzo);
                },
                Ok(kind) => {
                    lemma_appendix_ends_after_header(
                        (ReaderView { block: Some(block.advanced()), ..v }).with_appendix_record(
                            kind,
                        ),
                        left,
                        lzo,
                    );
                },
                Err(_) => {},
            }
        },
    }
}

/// The payloads come in the order in which the appendix fetches its blocks:
/// the first is the payload of the block at the read position, which is the
/// block that the first expansion goes to, and the others are those of the
/// blocks behind it.
pub proof fn lemma_payloads_follow_the_blocks(v: ReaderView, left: nat)
    requires
        left > 0,
        v.block_framed(),
    ensures
        payloads_from(v, left).len() > 0,
        payloads_from(v, left)[0] == v.block_payload(),
        payloads_from(v, left).skip(1) == payloads_from(
            ReaderView { pos: v.block_end(), ..v },
            (left - 1) as nat,
        ),
{
}

/// An appendix that is not there changes nothing. Where no block is counted
/// for it, or where its first block cannot be fetched, because the source
/// does not hold it or because its payload does not expand, the reader ends
/// right after the header with identity, statistics and everything else as
/// they were.
pub proof fn lemma_absent_appendix_changes_nothing(v: ReaderView, left: nat, lzo: Expansions)
    requires
        v.block is None,
        left == 0 || v.fetch_outcome(first_of(lzo)) is Err,
    ensures
        v.after_appendix(left, lzo) == v.appendix_done(),
{
}

/// An appendix of one block that holds an identity record and a statistics
/// record, in either order, gives the archive that identity and those
/// statistics: they are there once the archive is open, before any record is
/// asked for.
pub proof fn lemma_appendix_gives_identity_and_statistics(
    source: Seq<u8>,
    lzo: Expansions,
    bytes: Seq<u8>,
    ident: Seq<u8>,
    stat: Seq<u8>,
    ident_first: bool,
)
    requires
        has_v2_header(source),
        appendix_blocks(source) == 1,
        opened_v2(source).fetch_outcome(first_of(lzo)) == Ok::<Seq<u8>, NfdumpError>(bytes),
        opened_v2(source).block_header().num_records >= 2,
        stat.len() >= StatRecordV2::SIZE,
        bytes.len() == 2 * RECORD_HEADER_SIZE + ident.len() + stat.len(),
        ident_first ==> (holds_record(bytes, 0, TYPE_IDENT, ident) && holds_record(
            bytes,
            RECORD_HEADER_SIZE + ident.len(),
            TYPE_STAT,
            stat,
        )),
        !ident_first ==> (holds_record(bytes, 0, TYPE_STAT, stat) && holds_record(
            bytes,
            RECORD_HEADER_SIZE + stat.len(),
            TYPE_IDENT,
            ident,
        )),
    ensures
        open_archive(source, lzo) matches Ok(v) && v.header.ident() == ident && v.stat_record
            == StatRecord::V2(StatRecordV2::of(stat)),
{
    let rest = rest_of(lzo);
    let v0 = opened_v2(source);
    let v1 = v0.with_fetched(bytes);
    assert(v0.after_appendix(1, lzo) == v1.after_appendix(0, rest));
    let b0 = v1.block.unwrap();
    let (first_type, first) = if ident_first {
        (TYPE_IDENT, ident)
    } else {
        (TYPE_STAT, stat)
    };
    let (second_type, second) = if ident_first {
        (TYPE_STAT, stat)
    } else {
        (TYPE_IDENT, ident)
    };
    lemma_next_record(b0, v1.extensions, first_type, first);
    let v2 = lemma_appendix_takes_record(v1, rest);
    let b1 = v2.block.unwrap();
    lemma_next_record(b1, v2.extensions, second_type, second);
    let v3 = lemma_appendix_takes_record(v2, rest);
    let b2 = v3.block.unwrap();
    assert(b2.exhausted());
    let v4 = ReaderView { block: None, ..v3 };
    assert(v3.after_appendix(0, rest) == v4.after_appendix(0, rest));
    assert(v4.after_appendix(0, rest) == v4.appendix_done());
}

/// The appendix after the next record of its block, which can be read: the
/// record is taken in, and the appendix goes on behind it.
proof fn lemma_appendix_takes_record(v: ReaderView, lzo: Expansions) -> (next: ReaderView)
    requires
        v.block matches Some(block) && block.next(v.extensions) matches Ok(kind) && kind
            !is NoMore,
    ensures
        v.after_appendix(0, lzo) == next.after_appendix(0, lzo),
        next == (ReaderView {
            block: Some(v.block.unwrap().advanced()),
            ..v
        }).with_appendix_record(v.block.unwrap().next(v.extensions).unwrap()),
{
    (ReaderView { block: Some(v.block.unwrap().advanced()), ..v }).with_appendix_record(
        v.block.unwrap().next(v.extensions).unwrap(),
    )
}

/// A version 2 archive with a whole header can be opened, whatever its
/// appendix holds and whatever expanding it came to. The reader then stands
/// between blocks at the end of the header, not at the appendix, and every
/// block of flow data is still to be fetched: no failure within the appendix
/// keeps the flow data from being read.
pub proof fn lemma_flow_data_starts_after_header(source: Seq<u8>, lzo: Expansions)
    requires
        has_v2_header(source),
    ensures
        open_archive(source, lzo) matches Ok(v) && v.block is None && v.pos
            == NFFILE_V2_HEADER_SIZE && v.remaining_blocks == opened_v2(source).remaining_blocks
            && v.source == source && v.header is V2,
{
    lemma_appendix_ends_after_header(opened_v2(source), appendix_blocks(source) as nat, lzo);
}

/// A version 1 archive that could be opened has its statistics from the
/// start: they are what the bytes right behind the header hold, and flow data
/// is read from right behind them.
pub proof fn lemma_v1_statistics_after_open(source: Seq<u8>, lzo: Expansions)
    requires
        open_archive(source, lzo) matches Ok(v) && v.header is V1,
    ensures
        open_archive(source, lzo) matches Ok(v) && v.stat_record == StatRecord::V1(
            StatRecordV1::of(
                source.subrange(
                    NFFILE_V1_HEADER_SIZE as int,
                    NFFILE_V1_HEADER_SIZE + NFFILE_V1_STAT_RECORD_SIZE,
                ),
            ),
        ) && v.pos == NFFILE_V1_HEADER_SIZE + NFFILE_V1_STAT_RECORD_SIZE && v.block is None,
{
    if u16_at(source, 2) == 2 {
        lemma_flow_data_starts_after_header(source, lzo);
    }
}

/// Opening accepts the magic constant and nothing else: other bytes in its
/// place give `InvalidFile`, and nothing else does.
pub proof fn lemma_magic_decides(source: Seq<u8>, lzo: Expansions)
    requires
        source.len() >= 2,
    ensures
        open_archive(source, lzo) == Err::<ReaderView, NfdumpError>(NfdumpError::InvalidFile)
            <==> u16_at(source, 0) != MAGIC,
{
}

} // verus!
