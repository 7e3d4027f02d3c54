//! The errors that decoding an archive can end in.

use vstd::prelude::*;

verus! {

/// Why reading bytes from a source or a block stopped short.
#[derive(Debug, Clone, Copy, PartialEq, Eq)]
pub enum IoFailure {
    /// The bytes ended before the requested number of them could be read.
    UnexpectedEof,
    /// A compressed payload could not be expanded, or expands to more than a
    /// block may hold.
    InvalidData,
}

/// What went wrong while opening an archive or reading from it.
#[derive(Debug, Clone, Copy, PartialEq, Eq)]
pub enum NfdumpError {
    /// There are no more flow records. This ends an iteration; it is no fault.
    EOF,
    /// Bytes could not be read or expanded.
    IoError(IoFailure),
    /// The archive does not start with the magic constant.
    InvalidFile,
    /// An exporter record names an address family that is neither IPv4 nor IPv6.
    UnexpectedSAInExporter,
    /// A record or a sub-extension declares a size that its framing cannot have.
    ParseError,
    /// The archive's version is not one this library decodes.
    UnsupportedVersion,
    /// The archive names its compression by a number that stands for none.
    UnsupportedCompression,
    /// An extension was found where none is allowed.
    UnexpectedExtension,
}

impl NfdumpError {
    /// The words that say what went wrong.
    pub open spec fn description(self) -> Seq<char> {
        match self {
            NfdumpError::EOF => "no more records to read (end of file)"@,
            NfdumpError::IoError(IoFailure::UnexpectedEof) => "IO error: unexpected end of file"@,
            NfdumpError::IoError(IoFailure::InvalidData) => "IO error: invalid data"@,
            NfdumpError::InvalidFile => "invalid file"@,
            NfdumpError::UnexpectedSAInExporter => "unexpected sa value in exporter record"@,
            NfdumpError::ParseError => "parser error"@,
            NfdumpError::UnsupportedVersion => "nfdump file version not supported (yet)"@,
            NfdumpError::UnsupportedCompression => "nfdump file compression not supported"@,
            NfdumpError::UnexpectedExtension => "unexpected extension"@,
        }
    }

    /// The words that say what went wrong.
    pub fn to_string(&self) -> (r: String)
        ensures
            r@ == self.description(),
    {
        match self {
            NfdumpError::EOF => "no more records to read (end of file)".to_owned(),
            NfdumpError::IoError(IoFailure::UnexpectedEof) => "IO error: unexpected end of file".to_owned(),
            NfdumpError::IoError(IoFailure::InvalidData) => "IO error: invalid data".to_owned(),
            NfdumpError::InvalidFile => "invalid file".to_owned(),
            NfdumpError::UnexpectedSAInExporter => "unexpected sa value in exporter record".to_owned(),
            NfdumpError::ParseError => "parser error".to_owned(),
            NfdumpError::UnsupportedVersion => "nfdump file version not supported (yet)".to_owned(),
            NfdumpError::UnsupportedCompression => "nfdump file compression not supported".to_owned(),
            NfdumpError::UnexpectedExtension => "unexpected extension".to_owned(),
        }
    }
}

} // verus!
