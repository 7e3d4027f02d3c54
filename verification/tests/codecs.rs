use std::io::Write;

use nfdump::compress::{
    Bz2Decompressor, Decompressor, Lz4Decompressor, LzoDecompressor, PlainDecompressor,
    ZstdDecompressor, BUFSIZE, NFDUMP_COMPRESSION_TYPE_BZ2, NFDUMP_COMPRESSION_TYPE_LZ4,
    NFDUMP_COMPRESSION_TYPE_LZO, NFDUMP_COMPRESSION_TYPE_PLAIN, NFDUMP_COMPRESSION_TYPE_ZSTD,
};
use nfdump::error::{IoFailure, NfdumpError};

fn sample(len: usize) -> Vec<u8> {
    let mut out = Vec::with_capacity(len);
    let mut x: u32 = 0x1234_5678;
    for i in 0..len {
        x = x.wrapping_mul(1_103_515_245).wrapping_add(12_345);
        // long runs with some noise, so that every codec has something to do
        out.push(if i % 64 < 48 { (i / 64) as u8 } else { (x >> 16) as u8 });
    }
    out
}

fn bz2(data: &[u8]) -> Vec<u8> {
    let mut enc = bzip2::write::BzEncoder::new(Vec::new(), bzip2::Compression::fast());
    enc.write_all(data).unwrap();
    enc.finish().unwrap()
}

fn zstd_frame(data: &[u8]) -> Vec<u8> {
    zstd::encode_all(data, 1).unwrap()
}

fn drain(mut d: Decompressor, len: usize) -> Vec<u8> {
    assert!(d.can_read(len));
    assert!(!d.can_read(len + 1));
    let out = d.read_exact(len).unwrap();
    assert!(!d.can_read(1));
    out
}

fn data_error<T>(r: Result<T, NfdumpError>) -> bool {
    matches!(r, Err(NfdumpError::IoError(IoFailure::InvalidData)))
}

#[test]
fn plain_round_trip() {
    let data = sample(1000);
    let d = Decompressor::new(NFDUMP_COMPRESSION_TYPE_PLAIN, data.clone(), None).unwrap();
    assert!(matches!(d, Decompressor::Plain(_)));
    assert_eq!(drain(d, 1000), data);
}

#[test]
fn plain_round_trip_empty() {
    let d = Decompressor::new(NFDUMP_COMPRESSION_TYPE_PLAIN, Vec::new(), None).unwrap();
    assert_eq!(drain(d, 0), Vec::<u8>::new());
}

#[test]
fn plain_round_trip_largest_block() {
    let data = sample(BUFSIZE);
    let d = Decompressor::new(NFDUMP_COMPRESSION_TYPE_PLAIN, data.clone(), None).unwrap();
    assert_eq!(drain(d, BUFSIZE), data);
}

#[test]
fn plain_over_largest_block_is_data_error() {
    assert!(data_error(PlainDecompressor::new(vec![0u8; BUFSIZE + 1])));
    assert!(data_error(Decompressor::new(NFDUMP_COMPRESSION_TYPE_PLAIN, vec![0u8; BUFSIZE + 1], None)));
}

#[test]
fn lz4_round_trip() {
    let data = sample(70_000);
    let packed = lz4_flex::block::compress(&data);
    assert_ne!(packed, data);
    let d = Decompressor::new(NFDUMP_COMPRESSION_TYPE_LZ4, packed, None).unwrap();
    assert!(matches!(d, Decompressor::Lz4(_)));
    assert_eq!(drain(d, 70_000), data);
}

#[test]
fn lz4_round_trip_empty() {
    let packed = lz4_flex::block::compress(&[]);
    let d = Decompressor::new(NFDUMP_COMPRESSION_TYPE_LZ4, packed, None).unwrap();
    assert_eq!(drain(d, 0), Vec::<u8>::new());
}

#[test]
fn lz4_round_trip_largest_block() {
    let data = sample(BUFSIZE);
    let packed = lz4_flex::block::compress(&data);
    let d = Decompressor::new(NFDUMP_COMPRESSION_TYPE_LZ4, packed, None).unwrap();
    assert_eq!(drain(d, BUFSIZE), data);
}

#[test]
fn lz4_over_largest_block_is_data_error() {
    let packed = lz4_flex::block::compress(&vec![7u8; BUFSIZE + 1]);
    assert!(data_error(Lz4Decompressor::new(packed)));
}

#[test]
fn lz4_corrupt_is_data_error() {
    assert!(data_error(Lz4Decompressor::new(Vec::new())));
    // a token that announces more literals than follow
    assert!(data_error(Decompressor::new(NFDUMP_COMPRESSION_TYPE_LZ4, vec![0xf0, 0x01], None)));
}

#[test]
fn bz2_round_trip() {
    let data = sample(70_000);
    let packed = bz2(&data);
    assert_ne!(packed, data);
    let d = Decompressor::new(NFDUMP_COMPRESSION_TYPE_BZ2, packed, None).unwrap();
    assert!(matches!(d, Decompressor::Bz2(_)));
    assert_eq!(drain(d, 70_000), data);
}

#[test]
fn bz2_round_trip_empty() {
    let d = Decompressor::new(NFDUMP_COMPRESSION_TYPE_BZ2, bz2(&[]), None).unwrap();
    assert_eq!(drain(d, 0), Vec::<u8>::new());
}

#[test]
fn bz2_round_trip_largest_block() {
    let data = sample(BUFSIZE);
    let d = Decompressor::new(NFDUMP_COMPRESSION_TYPE_BZ2, bz2(&data), None).unwrap();
    assert_eq!(drain(d, BUFSIZE), data);
}

#[test]
fn bz2_over_largest_block_is_data_error() {
    assert!(data_error(Bz2Decompressor::new(bz2(&vec![7u8; BUFSIZE + 1]))));
}

#[test]
fn bz2_corrupt_is_data_error() {
    assert!(data_error(Bz2Decompressor::new(vec![1, 2, 3, 4, 5, 6, 7, 8])));
    let mut cut = bz2(&sample(5000));
    cut.truncate(cut.len() / 2);
    assert!(data_error(Decompressor::new(NFDUMP_COMPRESSION_TYPE_BZ2, cut, None)));
}

#[test]
fn zstd_round_trip() {
    let data = sample(70_000);
    let packed = zstd_frame(&data);
    assert_ne!(packed, data);
    let d = Decompressor::new(NFDUMP_COMPRESSION_TYPE_ZSTD, packed, None).unwrap();
    assert!(matches!(d, Decompressor::Zstd(_)));
    assert_eq!(drain(d, 70_000), data);
}

#[test]
fn zstd_round_trip_empty() {
    let d = Decompressor::new(NFDUMP_COMPRESSION_TYPE_ZSTD, zstd_frame(&[]), None).unwrap();
    assert_eq!(drain(d, 0), Vec::<u8>::new());
}

#[test]
fn zstd_round_trip_largest_block() {
    let data = sample(BUFSIZE);
    let d = Decompressor::new(NFDUMP_COMPRESSION_TYPE_ZSTD, zstd_frame(&data), None).unwrap();
    assert_eq!(drain(d, BUFSIZE), data);
}

#[test]
fn zstd_over_largest_block_is_data_error() {
    assert!(data_error(ZstdDecompressor::new(zstd_frame(&vec![7u8; BUFSIZE + 1]))));
}

#[test]
fn zstd_corrupt_is_data_error() {
    assert!(data_error(ZstdDecompressor::new(vec![1, 2, 3, 4, 5, 6, 7, 8])));
    let mut cut = zstd_frame(&sample(5000));
    cut.truncate(cut.len() / 2);
    assert!(data_error(Decompressor::new(NFDUMP_COMPRESSION_TYPE_ZSTD, cut, None)));
}

#[test]
fn lzo_is_expanded_by_the_caller() {
    // the payload is the caller's to expand; what that came to is handed in
    let data = sample(300);
    let d = Decompressor::new(NFDUMP_COMPRESSION_TYPE_LZO, vec![1, 2, 3], Some(data.clone()))
        .unwrap();
    assert!(matches!(d, Decompressor::Lzo(_)));
    assert_eq!(drain(d, 300), data);
    let d = Decompressor::new(NFDUMP_COMPRESSION_TYPE_LZO, vec![1], Some(Vec::new())).unwrap();
    assert_eq!(drain(d, 0), Vec::<u8>::new());
    let d =
        Decompressor::new(NFDUMP_COMPRESSION_TYPE_LZO, vec![1], Some(sample(BUFSIZE))).unwrap();
    assert_eq!(drain(d, BUFSIZE), sample(BUFSIZE));
    // an expansion that failed, or that is too long, is a data error
    assert!(data_error(Decompressor::new(NFDUMP_COMPRESSION_TYPE_LZO, vec![1, 2, 3], None)));
    assert!(data_error(Decompressor::new(
        NFDUMP_COMPRESSION_TYPE_LZO,
        vec![1, 2, 3],
        Some(vec![0u8; BUFSIZE + 1])
    )));
    let z = LzoDecompressor::from_expanded(Some(data.clone())).unwrap();
    assert_eq!(drain(Decompressor::Lzo(z), 300), data);
    assert!(data_error(LzoDecompressor::from_expanded(None)));
    assert!(data_error(LzoDecompressor::from_expanded(Some(vec![0u8; BUFSIZE + 1]))));
}

#[test]
fn other_compressions_do_not_look_at_the_lzo_expansion() {
    let data = sample(100);
    let packed = lz4_flex::block::compress(&data);
    let d = Decompressor::new(NFDUMP_COMPRESSION_TYPE_LZ4, packed, Some(vec![9; 7])).unwrap();
    assert!(matches!(d, Decompressor::Lz4(_)));
    assert_eq!(drain(d, 100), data);
    let d = Decompressor::new(NFDUMP_COMPRESSION_TYPE_PLAIN, data.clone(), Some(vec![9; 7]))
        .unwrap();
    assert_eq!(drain(d, 100), data);
    assert!(matches!(
        Decompressor::new(9, data, Some(vec![9; 7])),
        Err(NfdumpError::UnsupportedCompression)
    ));
}

#[test]
fn unknown_compression_is_unsupported() {
    assert!(matches!(Decompressor::new(5, vec![1, 2, 3], None), Err(NfdumpError::UnsupportedCompression)));
    assert!(matches!(Decompressor::new(255, Vec::new(), None), Err(NfdumpError::UnsupportedCompression)));
}

#[test]
fn reads_follow_each_other() {
    let mut d = Decompressor::new(NFDUMP_COMPRESSION_TYPE_PLAIN, vec![1, 2, 3, 4, 5], None).unwrap();
    assert_eq!(d.read_exact(2), Some(vec![1, 2]));
    assert_eq!(d.read_exact(0), Some(vec![]));
    assert_eq!(d.read_exact(3), Some(vec![3, 4, 5]));
    assert_eq!(d.read_exact(1), None);
    let mut d = Decompressor::new(NFDUMP_COMPRESSION_TYPE_PLAIN, vec![1, 2, 3, 4, 5], None).unwrap();
    assert_eq!(d.read_exact(6), None);
    // a failed read leaves nothing to read
    assert_eq!(d.read_exact(1), None);
    assert_eq!(d.read_exact(0), Some(vec![]));
}
