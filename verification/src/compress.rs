//! Expanding the payload of a block.
//!
//! Every payload is expanded in one go into memory, and a block that expands
//! to more than `BUFSIZE` bytes is a data error. LZ4, BZ2 and Zstd payloads are expanded here.
//! An LZO payload is expanded by the caller, who hands in what that came to
//! beside the payload.

use vstd::prelude::*;
use std::io::Read;
use crate::bytes::ByteCursor;
use crate::error::{IoFailure, NfdumpError};

verus! {

/// The number that stands for no compression.
pub const NFDUMP_COMPRESSION_TYPE_PLAIN: u8 = 0;

/// The number that stands for LZO.
pub const NFDUMP_COMPRESSION_TYPE_LZO: u8 = 1;

/// The number that stands for BZ2.
pub const NFDUMP_COMPRESSION_TYPE_BZ2: u8 = 2;

/// The number that stands for LZ4.
pub const NFDUMP_COMPRESSION_TYPE_LZ4: u8 = 3;

/// The number that stands for Zstd.
pub const NFDUMP_COMPRESSION_TYPE_ZSTD: u8 = 4;

/// The most bytes that a block may expand to.
pub const BUFSIZE: usize = 5 * 1048576;

/// The error of `lz4_flex`'s block decoder.
#[verifier::external_type_specification]
#[verifier::external_body]
pub struct ExLz4DecompressError(lz4_flex::block::DecompressError);

/// The error of std's readers.
#[verifier::external_type_specification]
#[verifier::external_body]
pub struct ExIoError(std::io::Error);

/// What `lz4_flex` expands the LZ4 block `data` to when it has `capacity`
/// bytes to write to, or `None` where it reports an error: `data` is not a
/// whole LZ4 block, or the block expands to more than `capacity` bytes.
pub uninterp spec fn lz4_expanded(data: Seq<u8>, capacity: nat) -> Option<Seq<u8>>;

/// What `bzip2` decodes the BZ2 stream `data` to, or `None` where it reports
/// an error: `data` is not the start of a BZ2 stream, or ends within one.
pub uninterp spec fn bz2_expanded(data: Seq<u8>) -> Option<Seq<u8>>;

/// What `zstd` decodes the Zstd frames `data` to, or `None` where it reports
/// an error: `data` is not made of Zstd frames, or ends within one.
pub uninterp spec fn zstd_expanded(data: Seq<u8>) -> Option<Seq<u8>>;

/// `lz4_flex::block::decompress_into`: expands the LZ4 block `data` into the
/// front of `out`, which keeps its length, and returns the number of bytes
/// written. It succeeds where `lz4_expanded` has bytes for `data` and the
/// length of `out`, and those are the bytes written. What `out` holds behind
/// them is not stated.
#[verifier::external_body]
fn lz4_decompress_into(data: &[u8], out: &mut Vec<u8>) -> (r: Result<
    usize,
    lz4_flex::block::DecompressError,
>)
    ensures
        final(out)@.len() == old(out)@.len(),
        r is Ok == lz4_expanded(data@, old(out)@.len()) is Some,
        r matches Ok(n) ==> n <= old(out)@.len() && final(out)@.take(n as int) == lz4_expanded(
            data@,
            old(out)@.len(),
        ).unwrap(),
{
    lz4_flex::block::decompress_into(data, out.as_mut_slice())
}

/// `bzip2::read::BzDecoder::new` over `data`, read to its end with std's
/// `Read::read_to_end` into the empty `out`. It succeeds where `bz2_expanded`
/// has bytes for `data`, and `out` then holds them. After an error, what
/// `out` holds is not stated.
#[verifier::external_body]
fn bz2_read_to_end(data: &[u8], out: &mut Vec<u8>) -> (r: Result<usize, std::io::Error>)
    requires
        old(out)@.len() == 0,
    ensures
        r is Ok == bz2_expanded(data@) is Some,
        r is Ok ==> final(out)@ == bz2_expanded(data@).unwrap(),
{
    bzip2::read::BzDecoder::new(data).read_to_end(out)
}

/// `zstd::Decoder::new` over `data`, read to its end with std's
/// `Read::read_to_end` into the empty `out`. It succeeds where
/// `zstd_expanded` has bytes for `data`, and `out` then holds them. After an
/// error, what `out` holds is not stated.
#[verifier::external_body]
fn zstd_read_to_end(data: &[u8], out: &mut Vec<u8>) -> (r: Result<usize, std::io::Error>)
    requires
        old(out)@.len() == 0,
    ensures
        r is Ok == zstd_expanded(data@) is Some,
        r is Ok ==> final(out)@ == zstd_expanded(data@).unwrap(),
{
    zstd::Decoder::new(data)?.read_to_end(out)
}

/// What an expansion that came to `out` makes of a block: an expansion that
/// failed, or that is longer than `BUFSIZE`, is a data error.
pub open spec fn bounded(out: Option<Seq<u8>>) -> Result<Seq<u8>, NfdumpError> {
    match out {
        Some(bytes) => if bytes.len() <= BUFSIZE {
            Ok(bytes)
        } else {
            Err(NfdumpError::IoError(IoFailure::InvalidData))
        },
        None => Err(NfdumpError::IoError(IoFailure::InvalidData)),
    }
}

/// The bytes of an expansion as a sequence.
pub open spec fn bytes_of(out: Option<Vec<u8>>) -> Option<Seq<u8>> {
    match out {
        Some(bytes) => Some(bytes@),
        None => None,
    }
}

/// What the payload `data` expands to under the compression `dtype`, where
/// `lzo` is what expanding `data` as LZO came to: the bytes, or `None` where
/// that failed. Only LZO looks at `lzo`. A number that stands for no
/// compression is an error.
pub open spec fn expanded(dtype: u8, data: Seq<u8>, lzo: Option<Seq<u8>>) -> Result<
    Seq<u8>,
    NfdumpError,
> {
    if dtype == NFDUMP_COMPRESSION_TYPE_PLAIN {
        bounded(Some(data))
    } else if dtype == NFDUMP_COMPRESSION_TYPE_LZO {
        bounded(lzo)
    } else if dtype == NFDUMP_COMPRESSION_TYPE_BZ2 {
        bounded(bz2_expanded(data))
    } else if dtype == NFDUMP_COMPRESSION_TYPE_LZ4 {
        bounded(lz4_expanded(data, BUFSIZE as nat))
    } else if dtype == NFDUMP_COMPRESSION_TYPE_ZSTD {
        bounded(zstd_expanded(data))
    } else {
        Err(NfdumpError::UnsupportedCompression)
    }
}

/// A Zstd payload, expanded.
pub struct ZstdDecompressor {
    pub d: ByteCursor,
}

/// An LZO payload, expanded.
pub struct LzoDecompressor {
    pub d: ByteCursor,
}

/// An LZ4 payload, expanded.
pub struct Lz4Decompressor {
    pub d: ByteCursor,
}

/// A BZ2 payload, expanded.
pub struct Bz2Decompressor {
    pub d: ByteCursor,
}

/// A payload that is stored as it is.
pub struct PlainDecompressor {
    pub d: ByteCursor,
}

/// The expanded payload of a block, under any compression.
pub enum Decompressor {
    Lzo(LzoDecompressor),
    Lz4(Lz4Decompressor),
    Bz2(Bz2Decompressor),
    Zstd(ZstdDecompressor),
    Plain(PlainDecompressor),
}

impl ZstdDecompressor {
    /// Expands the Zstd payload `data`.
    pub fn new(data: Vec<u8>) -> (r: Result<ZstdDecompressor, NfdumpError>)
        ensures
            match expanded(NFDUMP_COMPRESSION_TYPE_ZSTD, data@, None) {
                Ok(bytes) => r matches Ok(z) && z.d.bytes() == bytes && z.d.position() == 0,
                Err(e) => r matches Err(x) && x == e,
            },
    {
        let mut out: Vec<u8> = Vec::new();
        match zstd_read_to_end(data.as_slice(), &mut out) {
            Ok(_) => {
                if out.len() <= BUFSIZE {
                    Ok(ZstdDecompressor { d: ByteCursor::new(out) })
                } else {
                    Err(NfdumpError::IoError(IoFailure::InvalidData))
                }
            },
            Err(_) => Err(NfdumpError::IoError(IoFailure::InvalidData)),
        }
    }

    /// Reads the next `n` bytes.
    pub fn read_exact(&mut self, n: usize) -> (r: Option<Vec<u8>>)
        ensures
            final(self).d.moved(old(self).d, n as int),
            r.is_some() == old(self).d.has(n as int),
            r matches Some(v) ==> v@ == old(self).d.bytes().subrange(
                old(self).d.position() as int,
                old(self).d.position() + n,
            ),
    {
        self.d.read_exact(n)
    }
}

impl LzoDecompressor {
    /// Takes what expanding an LZO payload came to: the bytes, or `None`
    /// where it failed.
    pub fn from_expanded(out: Option<Vec<u8>>) -> (r: Result<LzoDecompressor, NfdumpError>)
        ensures
            match bounded(bytes_of(out)) {
                Ok(bytes) => r matches Ok(z) && z.d.bytes() == bytes && z.d.position() == 0,
                Err(e) => r matches Err(x) && x == e,
            },
    {
        match out {
            Some(bytes) => {
                if bytes.len() <= BUFSIZE {
                    Ok(LzoDecompressor { d: ByteCursor::new(bytes) })
                } else {
                    Err(NfdumpError::IoError(IoFailure::InvalidData))
                }
            },
            None => Err(NfdumpError::IoError(IoFailure::InvalidData)),
        }
    }

    /// Reads the next `n` bytes.
    pub fn read_exact(&mut self, n: usize) -> (r: Option<Vec<u8>>)
        ensures
            final(self).d.moved(old(self).d, n as int),
            r.is_some() == old(self).d.has(n as int),
            r matches Some(v) ==> v@ == old(self).d.bytes().subrange(
                old(self).d.position() as int,
                old(self).d.position() + n,
            ),
    {
        self.d.read_exact(n)
    }
}

impl Lz4Decompressor {
    /// Expands the LZ4 payload `data`.
    pub fn new(data: Vec<u8>) -> (r: Result<Lz4Decompressor, NfdumpError>)
        ensures
            match expanded(NFDUMP_COMPRESSION_TYPE_LZ4, data@, None) {
                Ok(bytes) => r matches Ok(z) && z.d.bytes() == bytes && z.d.position() == 0,
                Err(e) => r matches Err(x) && x == e,
            },
    {
        let mut out: Vec<u8> = vec![0u8; BUFSIZE];
        match lz4_decompress_into(data.as_slice(), &mut out) {
            Ok(size) => {
                out.truncate(size);
                Ok(Lz4Decompressor { d: ByteCursor::new(out) })
            },
            Err(_) => Err(NfdumpError::IoError(IoFailure::InvalidData)),
        }
    }

    /// Reads the next `n` bytes.
    pub fn read_exact(&mut self, n: usize) -> (r: Option<Vec<u8>>)
        ensures
            final(self).d.moved(old(self).d, n as int),
            r.is_some() == old(self).d.has(n as int),
            r matches Some(v) ==> v@ == old(self).d.bytes().subrange(
                old(self).d.position() as int,
                old(self).d.position() + n,
            ),
    {
        self.d.read_exact(n)
    }
}

impl Bz2Decompressor {
    /// Expands the BZ2 payload `data`.
    pub fn new(data: Vec<u8>) -> (r: Result<Bz2Decompressor, NfdumpError>)
        ensures
            match expanded(NFDUMP_COMPRESSION_TYPE_BZ2, data@, None) {
                Ok(bytes) => r matches Ok(z) && z.d.bytes() == bytes && z.d.position() == 0,
                Err(e) => r matches Err(x) && x == e,
            },
    {
        let mut out: Vec<u8> = Vec::new();
        match bz2_read_to_end(data.as_slice(), &mut out) {
            Ok(_) => {
                if out.len() <= BUFSIZE {
                    Ok(Bz2Decompressor { d: ByteCursor::new(out) })
                } else {
                    Err(NfdumpError::IoError(IoFailure::InvalidData))
                }
            },
            Err(_) => Err(NfdumpError::IoError(IoFailure::InvalidData)),
        }
    }

    /// Reads the next `n` bytes.
    pub fn read_exact(&mut self, n: usize) -> (r: Option<Vec<u8>>)
        ensures
            final(self).d.moved(old(self).d, n as int),
            r.is_some() == old(self).d.has(n as int),
            r matches Some(v) ==> v@ == old(self).d.bytes().subrange(
                old(self).d.position() as int,
                old(self).d.position() + n,
            ),
    {
        self.d.read_exact(n)
    }
}

impl PlainDecompressor {
    /// Takes the payload `data` as it is.
    pub fn new(data: Vec<u8>) -> (r: Result<PlainDecompressor, NfdumpError>)
        ensures
            match expanded(NFDUMP_COMPRESSION_TYPE_PLAIN, data@, None) {
                Ok(bytes) => r matches Ok(z) && z.d.bytes() == bytes && z.d.position() == 0,
                Err(e) => r matches Err(x) && x == e,
            },
            data@.len() <= BUFSIZE ==> (r matches Ok(z) && z.d.bytes() == data@),
    {
        if data.len() <= BUFSIZE {
            Ok(PlainDecompressor { d: ByteCursor::new(data) })
        } else {
            Err(NfdumpError::IoError(IoFailure::InvalidData))
        }
    }

    /// Reads the next `n` bytes.
    pub fn read_exact(&mut self, n: usize) -> (r: Option<Vec<u8>>)
        ensures
            final(self).d.moved(old(self).d, n as int),
            r.is_some() == old(self).d.has(n as int),
            r matches Some(v) ==> v@ == old(self).d.bytes().subrange(
                old(self).d.position() as int,
                old(self).d.position() + n,
            ),
    {
        self.d.read_exact(n)
    }
}

impl Decompressor {
    /// The expanded bytes and the read position in them.
    pub open spec fn stream(self) -> ByteCursor {
        match self {
            Decompressor::Lzo(z) => z.d,
            Decompressor::Lz4(z) => z.d,
            Decompressor::Bz2(z) => z.d,
            Decompressor::Zstd(z) => z.d,
            Decompressor::Plain(z) => z.d,
        }
    }

    /// The compression that the payload was expanded under.
    pub open spec fn dtype(self) -> u8 {
        match self {
            Decompressor::Lzo(_) => NFDUMP_COMPRESSION_TYPE_LZO,
            Decompressor::Lz4(_) => NFDUMP_COMPRESSION_TYPE_LZ4,
            Decompressor::Bz2(_) => NFDUMP_COMPRESSION_TYPE_BZ2,
            Decompressor::Zstd(_) => NFDUMP_COMPRESSION_TYPE_ZSTD,
            Decompressor::Plain(_) => NFDUMP_COMPRESSION_TYPE_PLAIN,
        }
    }

    /// Expands the payload `data` under the compression `dtype`. LZO is
    /// expanded by the caller: `lzo` is what expanding `data` as LZO came to,
    /// the bytes, or `None` where that failed. No other compression looks at
    /// `lzo`.
    pub fn new(dtype: u8, data: Vec<u8>, lzo: Option<Vec<u8>>) -> (r: Result<
        Decompressor,
        NfdumpError,
    >)
        ensures
            match expanded(dtype, data@, bytes_of(lzo)) {
                Ok(bytes) => r matches Ok(z) && z.dtype() == dtype && z.stream().bytes() == bytes
                    && z.stream().position() == 0,
                Err(e) => r matches Err(x) && x == e,
            },
            (r matches Err(NfdumpError::UnsupportedCompression)) <==> dtype
                > NFDUMP_COMPRESSION_TYPE_ZSTD,
            lzo matches Some(p) ==> (dtype == NFDUMP_COMPRESSION_TYPE_LZO && p@.len() <= BUFSIZE
                ==> (r matches Ok(z) && z is Lzo && z.stream().bytes() == p@)),
            dtype == NFDUMP_COMPRESSION_TYPE_PLAIN && data@.len() <= BUFSIZE ==> (r matches Ok(z)
                && z is Plain && z.stream().bytes() == data@),
    {
        if dtype == NFDUMP_COMPRESSION_TYPE_LZO {
            match LzoDecompressor::from_expanded(lzo) {
                Ok(z) => Ok(Decompressor::Lzo(z)),
                Err(e) => Err(e),
            }
        } else if dtype == NFDUMP_COMPRESSION_TYPE_LZ4 {
            match Lz4Decompressor::new(data) {
                Ok(z) => Ok(Decompressor::Lz4(z)),
                Err(e) => Err(e),
            }
        } else if dtype == NFDUMP_COMPRESSION_TYPE_BZ2 {
            match Bz2Decompressor::new(data) {
                Ok(z) => Ok(Decompressor::Bz2(z)),
                Err(e) => Err(e),
            }
        } else if dtype == NFDUMP_COMPRESSION_TYPE_ZSTD {
            match ZstdDecompressor::new(data) {
                Ok(z) => Ok(Decompressor::Zstd(z)),
                Err(e) => Err(e),
            }
        } else if dtype == NFDUMP_COMPRESSION_TYPE_PLAIN {
            match PlainDecompressor::new(data) {
                Ok(z) => Ok(Decompressor::Plain(z)),
                Err(e) => Err(e),
            }
        } else {
            Err(NfdumpError::UnsupportedCompression)
        }
    }

    /// Whether `n` more bytes can be read.
    pub fn can_read(&self, n: usize) -> (r: bool)
        ensures
            r == self.stream().has(n as int),
    {
        match self {
            Decompressor::Lz4(z) => z.d.can_read(n),
            Decompressor::Bz2(z) => z.d.can_read(n),
            Decompressor::Plain(z) => z.d.can_read(n),
            Decompressor::Lzo(z) => z.d.can_read(n),
            Decompressor::Zstd(z) => z.d.can_read(n),
        }
    }

    /// Moves the read position to the end, so that nothing is left to read.
    pub fn exhaust(&mut self)
        ensures
            final(self).dtype() == old(self).dtype(),
            final(self).stream().bytes() == old(self).stream().bytes(),
            final(self).stream().position() == old(self).stream().bytes().len(),
    {
        match self {
            Decompressor::Lz4(z) => z.d.seek_end(),
            Decompressor::Bz2(z) => z.d.seek_end(),
            Decompressor::Plain(z) => z.d.seek_end(),
            Decompressor::Lzo(z) => z.d.seek_end(),
            Decompressor::Zstd(z) => z.d.seek_end(),
        }
    }

    /// Reads the next `n` bytes.
    pub fn read_exact(&mut self, n: usize) -> (r: Option<Vec<u8>>)
        ensures
            final(self).dtype() == old(self).dtype(),
            final(self).stream().moved(old(self).stream(), n as int),
            r.is_some() == old(self).stream().has(n as int),
            r matches Some(v) ==> v@ == old(self).stream().bytes().subrange(
                old(self).stream().position() as int,
                old(self).stream().position() + n,
            ),
    {
        match self {
            Decompressor::Lz4(z) => z.read_exact(n),
            Decompressor::Bz2(z) => z.read_exact(n),
            Decompressor::Plain(z) => z.read_exact(n),
            Decompressor::Lzo(z) => z.read_exact(n),
            Decompressor::Zstd(z) => z.read_exact(n),
        }
    }
}

} // verus!
