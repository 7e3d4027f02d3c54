use std::io::Write;

use nfdump::addr::{IpAddress, Ipv4Address};
use nfdump::compress::Decompressor;
use nfdump::error::{IoFailure, NfdumpError};
use nfdump::nfx_v3::ExVlan;
use nfdump::record::{Record, RecordKind};
use nfdump::{lzo_appendix_payloads, Next, NfFileHeader, NfFileReader, StatRecord};

const SHORT: NfdumpError = NfdumpError::IoError(IoFailure::UnexpectedEof);
const BAD_DATA: NfdumpError = NfdumpError::IoError(IoFailure::InvalidData);

fn rec(rtype: u16, payload: &[u8]) -> Vec<u8> {
    let mut d = rtype.to_le_bytes().to_vec();
    d.extend((payload.len() as u16 + 4).to_le_bytes());
    d.extend(payload);
    d
}

fn ext_map(ids: &[u16]) -> Vec<u8> {
    let mut p = vec![1, 0, 0, 0];
    for id in ids {
        p.extend(id.to_le_bytes());
    }
    rec(0x0002, &p)
}

/// A legacy flow record with IPv4 addresses, from the port `port`, with the
/// bytes `tail` behind its addresses.
fn flow(flags: u16, port: u16, tail: &[u8]) -> Vec<u8> {
    let mut p = flags.to_le_bytes().to_vec();
    p.extend(vec![0u8; 18]);
    p.extend(port.to_le_bytes());
    p.extend(vec![0u8; 6]);
    p.extend(0xc0a8_0001u32.to_le_bytes());
    p.extend(0xc0a8_0002u32.to_le_bytes());
    p.extend(tail);
    rec(0x000a, &p)
}

/// A legacy flow record with counters of four bytes and nothing behind them.
fn plain_flow(port: u16) -> Vec<u8> {
    flow(0, port, &[1, 0, 0, 0, 2, 0, 0, 0])
}

fn flow_v3(src_vlan: u32) -> Vec<u8> {
    let mut p = 1u16.to_le_bytes().to_vec();
    p.extend([0u8; 6]);
    p.extend(6u16.to_le_bytes());
    p.extend(12u16.to_le_bytes());
    p.extend(src_vlan.to_le_bytes());
    p.extend(0u32.to_le_bytes());
    rec(0x000b, &p)
}

fn exporter(id: u32) -> Vec<u8> {
    let mut p = vec![0u8; 20];
    p.extend(2u16.to_le_bytes());
    p.extend(0u16.to_le_bytes());
    p.extend(id.to_le_bytes());
    rec(0x0007, &p)
}

fn stat_record(seed: u64) -> Vec<u8> {
    let mut p = Vec::new();
    for v in 0..18u64 {
        p.extend((seed + v).to_le_bytes());
    }
    rec(0x8002, &p)
}

/// A block of `num_records` records with the compressed payload `payload`.
fn block(num_records: u32, payload: &[u8]) -> Vec<u8> {
    let mut d = num_records.to_le_bytes().to_vec();
    d.extend((payload.len() as u32).to_le_bytes());
    d.extend(2u16.to_le_bytes());
    d.extend(0u16.to_le_bytes());
    d.extend(payload);
    d
}

fn records(list: &[Vec<u8>]) -> Vec<u8> {
    list.concat()
}

/// A block of the records `list`, stored as they are.
fn plain_block(list: &[Vec<u8>]) -> Vec<u8> {
    block(list.len() as u32, &records(list))
}

fn header_v2(compression: u8, appendix_blocks: u16, off_appendix: u64, num_blocks: u32) -> Vec<u8> {
    let mut d = vec![0x0c, 0xa5, 2, 0];
    d.extend(0x0107_0000u32.to_le_bytes());
    d.extend(1_700_000_000u64.to_le_bytes());
    d.extend([compression, 0]);
    d.extend(appendix_blocks.to_le_bytes());
    d.extend(0u32.to_le_bytes());
    d.extend(off_appendix.to_le_bytes());
    d.extend(1_048_576u32.to_le_bytes());
    d.extend(num_blocks.to_le_bytes());
    assert_eq!(d.len(), 40);
    d
}

/// A version 2 archive: the header, the blocks of flow data, the blocks of
/// the appendix.
fn archive_v2(compression: u8, blocks: &[Vec<u8>], appendix: &[Vec<u8>]) -> Vec<u8> {
    let data = blocks.concat();
    let mut d =
        header_v2(compression, appendix.len() as u16, 40 + data.len() as u64, blocks.len() as u32);
    d.extend(data);
    d.extend(appendix.concat());
    d
}

fn v1_stat(seed: u64) -> Vec<u8> {
    let mut d = Vec::new();
    for v in 0..15u64 {
        d.extend((seed + v).to_le_bytes());
    }
    d.extend(100u32.to_le_bytes());
    d.extend(200u32.to_le_bytes());
    d.extend(3u16.to_le_bytes());
    d.extend(4u16.to_le_bytes());
    d.extend(5u32.to_le_bytes());
    d
}

fn ident_v1() -> Vec<u8> {
    let mut ident = b"collector-7".to_vec();
    ident.resize(128, 0);
    ident
}

fn archive_v1(flags: u32, blocks: &[Vec<u8>]) -> Vec<u8> {
    let mut d = vec![0x0c, 0xa5, 1, 0];
    d.extend(flags.to_le_bytes());
    d.extend((blocks.len() as u32).to_le_bytes());
    d.extend(ident_v1());
    d.extend(v1_stat(1000));
    assert_eq!(d.len(), 276);
    d.extend(blocks.concat());
    d
}

fn open(bytes: Vec<u8>) -> NfFileReader {
    NfFileReader::new(bytes, Vec::new()).unwrap()
}

fn open_err(bytes: Vec<u8>) -> NfdumpError {
    match NfFileReader::new(bytes, Vec::new()) {
        Ok(_) => panic!("opened"),
        Err(e) => e,
    }
}

fn next_flow(r: &mut NfFileReader) -> Record {
    match r.read_record() {
        Ok(Next::Flow(RecordKind::Record(rec))) => rec,
        other => panic!("{:?}", other),
    }
}

fn ports(r: &mut NfFileReader) -> Vec<u16> {
    let mut out = Vec::new();
    loop {
        match r.read_record() {
            Ok(Next::Flow(RecordKind::Record(rec))) => out.push(rec.src_port),
            Err(NfdumpError::EOF) => return out,
            other => panic!("{:?}", other),
        }
    }
}

fn bz2(data: &[u8]) -> Vec<u8> {
    let mut enc = bzip2::write::BzEncoder::new(Vec::new(), bzip2::Compression::fast());
    enc.write_all(data).unwrap();
    enc.finish().unwrap()
}

#[test]
fn magic_is_accepted() {
    let bytes = archive_v2(0, &[], &[]);
    assert_eq!(&bytes[..2], &[0x0c, 0xa5]);
    assert!(NfFileReader::new(bytes, Vec::new()).is_ok());
    assert!(NfFileReader::new(archive_v1(0, &[]), Vec::new()).is_ok());
}

#[test]
fn other_magic_is_an_invalid_file() {
    for pair in [[0xa5u8, 0x0c], [0x0c, 0xa4], [0x0d, 0xa5], [0, 0], [0xff, 0xff], [0x0c, 0x00]] {
        let mut bytes = archive_v2(0, &[], &[]);
        bytes[..2].copy_from_slice(&pair);
        assert_eq!(open_err(bytes), NfdumpError::InvalidFile);
        let mut bytes = archive_v1(0, &[]);
        bytes[..2].copy_from_slice(&pair);
        assert_eq!(open_err(bytes), NfdumpError::InvalidFile);
        // the magic is looked at before anything else is missed
        assert_eq!(open_err(pair.to_vec()), NfdumpError::InvalidFile);
    }
}

#[test]
fn too_short_to_open() {
    assert_eq!(open_err(vec![]), SHORT);
    assert_eq!(open_err(vec![0x0c]), SHORT);
    assert_eq!(open_err(vec![0x0c, 0xa5]), SHORT);
    assert_eq!(open_err(vec![0x0c, 0xa5, 1]), SHORT);
    let full = archive_v2(0, &[], &[]);
    for len in 4..40 {
        assert_eq!(open_err(full[..len].to_vec()), SHORT);
    }
    let full = archive_v1(0, &[]);
    for len in [4, 139, 140, 141, 275] {
        assert_eq!(open_err(full[..len].to_vec()), SHORT);
    }
}

#[test]
fn other_versions_are_not_supported() {
    for version in [0u16, 3, 4, 0x0100, 0x0201, 0xffff] {
        let mut bytes = archive_v2(0, &[], &[]);
        bytes[2..4].copy_from_slice(&version.to_le_bytes());
        assert_eq!(open_err(bytes), NfdumpError::UnsupportedVersion);
        let mut bytes = vec![0x0c, 0xa5];
        bytes.extend(version.to_le_bytes());
        assert_eq!(open_err(bytes), NfdumpError::UnsupportedVersion);
    }
}

#[test]
fn v1_statistics_are_there_after_open() {
    let r = open(archive_v1(0, &[plain_block(&[plain_flow(1)])]));
    match r.stat_record {
        StatRecord::V1(s) => {
            assert_eq!(s.flows, 1000);
            assert_eq!(s.bytes, 1001);
            assert_eq!(s.packets_other, 1014);
            assert_eq!((s.first_seen, s.last_seen), (100, 200));
            assert_eq!((s.msec_first, s.msec_last, s.sequence_failure), (3, 4, 5));
        }
        other => panic!("{:?}", other),
    }
    match &r.header {
        NfFileHeader::V1(h) => {
            assert_eq!((h.magic, h.version, h.flags, h.num_blocks), (0xa50c, 1, 0, 1));
        }
        other => panic!("{:?}", other),
    }
    assert_eq!(r.get_ident(), ident_v1());
    assert_eq!(r.position(), 276);
    assert_eq!(r.stat_record(), r.stat_record);
    assert_eq!(r.header(), &r.header);
}

#[test]
fn v1_flow_data_follows_the_statistics() {
    let mut r = open(archive_v1(
        0,
        &[plain_block(&[plain_flow(1), plain_flow(2)]), plain_block(&[plain_flow(3)])],
    ));
    assert_eq!(ports(&mut r), vec![1, 2, 3]);
}

#[test]
fn v1_flags_select_the_compression() {
    let recs = records(&[plain_flow(1), plain_flow(2)]);
    let lz4 = block(2, &lz4_flex::block::compress(&recs));
    let bz = block(2, &bz2(&recs));
    let plain = block(2, &recs);
    assert_eq!(ports(&mut open(archive_v1(0x10, &[lz4.clone()]))), vec![1, 2]);
    assert_eq!(ports(&mut open(archive_v1(0x08, &[bz.clone()]))), vec![1, 2]);
    assert_eq!(ports(&mut open(archive_v1(0x00, &[plain.clone()]))), vec![1, 2]);
    // bits outside the compression bits do not count
    assert_eq!(ports(&mut open(archive_v1(0x10 | 0x06, &[lz4]))), vec![1, 2]);
    assert_eq!(ports(&mut open(archive_v1(0x08 | 0xffff_ff00, &[bz]))), vec![1, 2]);
    // two compression bits at once select none
    assert_eq!(ports(&mut open(archive_v1(0x18, &[plain.clone()]))), vec![1, 2]);
    assert_eq!(ports(&mut open(archive_v1(0x09, &[plain.clone()]))), vec![1, 2]);
    assert_eq!(ports(&mut open(archive_v1(0x19, &[plain]))), vec![1, 2]);
}

#[test]
fn v2_appendix_gives_identity_and_statistics() {
    let appendix = plain_block(&[rec(0x8001, b"probe-3"), stat_record(500)]);
    let bytes = archive_v2(0, &[plain_block(&[plain_flow(9)])], &[appendix]);
    let mut r = open(bytes);
    // both are there before any record has been asked for
    assert_eq!(r.get_ident(), b"probe-3".to_vec());
    match r.stat_record {
        StatRecord::V2(s) => {
            assert_eq!((s.flows, s.bytes, s.packets), (500, 501, 502));
            assert_eq!((s.first_seen, s.last_seen, s.sequence_failure), (515, 516, 517));
        }
        other => panic!("{:?}", other),
    }
    match &r.header {
        NfFileHeader::V2(h) => {
            assert_eq!((h.magic, h.version), (0xa50c, 2));
            assert_eq!((h.appendix_blocks, h.num_blocks, h.compression), (1, 1, 0));
            assert_eq!(h.ident, b"probe-3".to_vec());
        }
        other => panic!("{:?}", other),
    }
    // and flow data is read from right behind the header
    assert_eq!(r.position(), 40);
    assert_eq!(next_flow(&mut r).src_port, 9);
    assert_eq!(r.read_record(), Err(NfdumpError::EOF));
}

#[test]
fn v2_without_appendix() {
    let r = open(archive_v2(0, &[plain_block(&[plain_flow(9)])], &[]));
    assert_eq!(r.get_ident(), Vec::<u8>::new());
    assert_eq!(r.stat_record, StatRecord::V2(Default::default()));
    assert_eq!(r.position(), 40);
}

#[test]
fn v2_appendix_of_several_blocks() {
    let a = plain_block(&[rec(0x8001, b"first"), plain_flow(1), ext_map(&[4])]);
    let b = plain_block(&[stat_record(7), rec(0x8001, b"second")]);
    let mut r = open(archive_v2(0, &[plain_block(&[flow(0, 5, &[0; 8])])], &[a, b]));
    assert_eq!(r.get_ident(), b"second".to_vec());
    assert!(matches!(r.stat_record, StatRecord::V2(s) if s.flows == 7));
    // what else the appendix holds is dropped: no flow is handed out from
    // it, and its extension map is not taken over
    let rec = next_flow(&mut r);
    assert_eq!((rec.src_port, rec.input), (5, None));
    assert_eq!(r.read_record(), Err(NfdumpError::EOF));
}

#[test]
fn v2_appendix_that_cannot_be_read_is_given_up() {
    let data = plain_block(&[plain_flow(1), plain_flow(2)]);
    let good = plain_block(&[rec(0x8001, b"id"), stat_record(1)]);

    // the appendix is said to lie beyond the end
    let mut bytes = header_v2(0, 1, 1 << 40, 1);
    bytes.extend(&data);
    let mut r = open(bytes);
    assert_eq!(r.position(), 40);
    assert_eq!(r.get_ident(), Vec::<u8>::new());
    assert_eq!(ports(&mut r), vec![1, 2]);

    // the appendix is cut off
    let mut bytes = archive_v2(0, &[data.clone()], &[good.clone()]);
    bytes.truncate(bytes.len() - 1);
    let mut r = open(bytes);
    assert_eq!(r.position(), 40);
    assert_eq!(r.get_ident(), Vec::<u8>::new());
    assert_eq!(r.stat_record, StatRecord::V2(Default::default()));
    assert_eq!(ports(&mut r), vec![1, 2]);

    // more blocks are counted than are there
    let mut bytes = header_v2(0, 3, 40 + data.len() as u64, 1);
    bytes.extend(&data);
    bytes.extend(&good);
    let mut r = open(bytes);
    assert_eq!(r.position(), 40);
    assert_eq!(r.get_ident(), b"id".to_vec());
    assert_eq!(ports(&mut r), vec![1, 2]);

    // a record of the appendix does not lie within its block: what came
    // before it stays
    let mut broken = records(&[rec(0x8001, b"kept")]);
    broken.extend([0x02, 0x80, 200, 0, 1, 2, 3]);
    let mut r = open(archive_v2(0, &[data.clone()], &[block(2, &broken), good.clone()]));
    assert_eq!(r.position(), 40);
    assert_eq!(r.get_ident(), b"kept".to_vec());
    assert_eq!(r.stat_record, StatRecord::V2(Default::default()));
    assert_eq!(ports(&mut r), vec![1, 2]);

    // a statistics record that is too short
    let a = plain_block(&[rec(0x8002, &[0; 143]), rec(0x8001, b"late")]);
    let mut r = open(archive_v2(0, &[data.clone()], &[a]));
    assert_eq!(r.get_ident(), Vec::<u8>::new());
    assert_eq!(ports(&mut r), vec![1, 2]);

    // a payload that does not expand
    let mut r = open(archive_v2(3, &[block(2, &lz4_flex::block::compress(&records(&[plain_flow(1), plain_flow(2)])))], &[block(1, &[0xf0, 1])]));
    assert_eq!(r.position(), 40);
    assert_eq!(ports(&mut r), vec![1, 2]);
}

#[test]
fn nothing_left_is_end_of_file_for_good() {
    for bytes in [archive_v2(0, &[], &[]), archive_v1(0, &[])] {
        let mut r = open(bytes);
        let at = r.position();
        for _ in 0..5 {
            assert_eq!(r.read_record(), Err(NfdumpError::EOF));
            assert_eq!(r.position(), at);
        }
    }
    // bytes behind the header do not count where no block is counted
    let mut bytes = header_v2(0, 0, 1000, 0);
    bytes.extend(plain_block(&[plain_flow(1)]));
    let mut r = open(bytes);
    assert_eq!(r.read_record(), Err(NfdumpError::EOF));
    assert_eq!(r.read_record(), Err(NfdumpError::EOF));
    assert_eq!(r.position(), 40);
}

#[test]
fn end_of_file_after_the_last_record_stays() {
    let mut r = open(archive_v2(0, &[plain_block(&[plain_flow(1)])], &[]));
    assert_eq!(next_flow(&mut r).src_port, 1);
    for _ in 0..4 {
        assert_eq!(r.read_record(), Err(NfdumpError::EOF));
    }
}

#[test]
fn end_to_end_v2_plain() {
    let mut tail = 0x0000_0001_0000_0002u64.to_le_bytes().to_vec(); // packets
    tail.extend(0x0000_0003_0000_0004u64.to_le_bytes()); // bytes
    tail.extend(0x1234u16.to_le_bytes()); // input
    tail.extend(0x5678u16.to_le_bytes()); // output
    tail.extend(4_200_000_001u32.to_le_bytes()); // src_as
    tail.extend(4_200_000_002u32.to_le_bytes()); // dst_as
    let bytes = archive_v2(0, &[plain_block(&[ext_map(&[4, 7]), flow(0x02, 443, &tail)])], &[]);
    let mut r = open(bytes);
    let rec = next_flow(&mut r);
    assert_eq!(rec.flags, 0x02);
    assert_eq!(rec.src_port, 443);
    assert_eq!(rec.src_addr, IpAddress::V4(Ipv4Address { bits: 0xc0a8_0001 }));
    assert_eq!(rec.dst_addr, IpAddress::V4(Ipv4Address { bits: 0xc0a8_0002 }));
    assert_eq!(rec.packets, 0x0000_0001_0000_0002);
    assert_eq!(rec.bytes, 0x0000_0003_0000_0004);
    assert_eq!(rec.input, Some(0x1234));
    assert_eq!(rec.output, Some(0x5678));
    assert_eq!(rec.src_as, Some(4_200_000_001));
    assert_eq!(rec.dst_as, Some(4_200_000_002));
    assert_eq!(r.read_record(), Err(NfdumpError::EOF));
    assert_eq!(r.read_record(), Err(NfdumpError::EOF));
}

#[test]
fn extension_map_holds_until_the_next_one() {
    let tail16 = [1, 0, 0, 0, 2, 0, 0, 0, 0x11, 0, 0x22, 0, 0x33, 0, 0x44, 0];
    let a = plain_block(&[flow(0, 1, &tail16), ext_map(&[4, 6]), flow(0, 2, &tail16)]);
    // the map holds across blocks, and the next map replaces it whole
    let b = plain_block(&[flow(0, 3, &tail16), ext_map(&[6]), flow(0, 4, &tail16)]);
    let c = plain_block(&[ext_map(&[]), flow(0, 5, &tail16)]);
    let mut r = open(archive_v2(0, &[a, b, c], &[]));
    let rec = next_flow(&mut r);
    assert_eq!((rec.src_port, rec.input, rec.src_as), (1, None, None));
    let rec = next_flow(&mut r);
    assert_eq!((rec.src_port, rec.input, rec.output), (2, Some(0x11), Some(0x22)));
    assert_eq!((rec.src_as, rec.dst_as), (Some(0x33), Some(0x44)));
    let rec = next_flow(&mut r);
    assert_eq!((rec.src_port, rec.input, rec.src_as), (3, Some(0x11), Some(0x33)));
    let rec = next_flow(&mut r);
    assert_eq!((rec.src_port, rec.input, rec.output), (4, None, None));
    assert_eq!((rec.src_as, rec.dst_as), (Some(0x11), Some(0x22)));
    let rec = next_flow(&mut r);
    assert_eq!((rec.src_port, rec.input, rec.src_as), (5, None, None));
    assert_eq!(r.read_record(), Err(NfdumpError::EOF));
}

#[test]
fn only_flow_records_are_handed_out() {
    let mut stats = 0u32.to_le_bytes().to_vec();
    stats.extend([0u8; 3]);
    let a = plain_block(&[
        exporter(1),
        rec(0x0009, &[0; 12]),
        rec(0x0008, &stats),
        rec(0x0001, &[1, 2, 3]),
        rec(0x8001, b"not here"),
        stat_record(9),
        flow_v3(77),
        exporter(2),
        plain_flow(8),
        rec(0x4242, &[]),
    ]);
    let mut r = open(archive_v2(0, &[a], &[]));
    match r.read_record() {
        Ok(Next::Flow(RecordKind::RecordV3(v3))) => {
            assert_eq!(v3.vlan, Some(ExVlan { src_vlan: 77, dst_vlan: 0 }));
            assert_eq!(v3.head.num_elements, 1);
        }
        other => panic!("{:?}", other),
    }
    assert_eq!(next_flow(&mut r).src_port, 8);
    assert_eq!(r.read_record(), Err(NfdumpError::EOF));
    // an identity and statistics among flow data change nothing
    assert_eq!(r.get_ident(), Vec::<u8>::new());
    assert_eq!(r.stat_record, StatRecord::V2(Default::default()));
}

#[test]
fn blocks_without_flow_records_are_passed() {
    let blocks = [
        plain_block(&[]),
        plain_block(&[exporter(1), ext_map(&[4])]),
        plain_block(&[]),
        plain_block(&[plain_flow(1)]),
        plain_block(&[exporter(2)]),
        plain_block(&[plain_flow(2)]),
        plain_block(&[]),
    ];
    let mut r = open(archive_v2(0, &blocks, &[]));
    assert_eq!(ports(&mut r), vec![1, 2]);
    assert_eq!(r.read_record(), Err(NfdumpError::EOF));
}

#[test]
fn record_count_of_a_block_bounds_its_records() {
    let recs = records(&[plain_flow(1), plain_flow(2), plain_flow(3)]);
    let mut r = open(archive_v2(0, &[block(2, &recs), block(1, &recs)], &[]));
    assert_eq!(ports(&mut r), vec![1, 2, 1]);
    // a count beyond the records is bounded by the bytes
    let mut r = open(archive_v2(0, &[block(10, &recs), block(1, &recs)], &[]));
    assert_eq!(ports(&mut r), vec![1, 2, 3, 1]);
}

#[test]
fn block_count_bounds_the_blocks() {
    let a = plain_block(&[plain_flow(1)]);
    let b = plain_block(&[plain_flow(2)]);
    let mut bytes = header_v2(0, 0, 1 << 20, 1);
    bytes.extend(&a);
    bytes.extend(&b);
    assert_eq!(ports(&mut open(bytes)), vec![1]);
}

#[test]
fn appendix_is_never_read_as_flow_data() {
    let a = plain_block(&[plain_flow(1)]);
    let appendix = plain_block(&[rec(0x8001, b"x"), plain_flow(99)]);
    // more blocks are counted than lie before the appendix
    let mut bytes = header_v2(0, 1, 40 + a.len() as u64, 3);
    bytes.extend(&a);
    bytes.extend(&appendix);
    let mut r = open(bytes);
    assert_eq!(r.get_ident(), b"x".to_vec());
    assert_eq!(next_flow(&mut r).src_port, 1);
    let at = r.position();
    assert_eq!(at, 40 + a.len());
    for _ in 0..3 {
        assert_eq!(r.read_record(), Err(NfdumpError::EOF));
        assert_eq!(r.position(), at);
    }
    // an appendix at the very start of flow data leaves none
    let mut bytes = header_v2(0, 0, 40, 1);
    bytes.extend(&a);
    assert_eq!(open(bytes).read_record(), Err(NfdumpError::EOF));
    let mut bytes = header_v2(0, 0, 0, 1);
    bytes.extend(&a);
    assert_eq!(open(bytes).read_record(), Err(NfdumpError::EOF));
    // a version 1 archive has no appendix
    let mut bytes = archive_v1(0, &[a.clone(), a.clone()]);
    bytes.extend(&a);
    assert_eq!(ports(&mut open(bytes)), vec![1, 1]);
}

#[test]
fn v2_names_its_compression() {
    let recs = records(&[ext_map(&[5]), flow(0, 1, &[0; 16]), plain_flow(2)]);
    let packed: [(u8, Vec<u8>); 4] = [
        (0, recs.clone()),
        (2, bz2(&recs)),
        (3, lz4_flex::block::compress(&recs)),
        (4, zstd::encode_all(&recs[..], 3).unwrap()),
    ];
    for (compression, payload) in packed {
        let appendix = match compression {
            0 => records(&[rec(0x8001, b"c0")]),
            2 => bz2(&records(&[rec(0x8001, b"c2")])),
            3 => lz4_flex::block::compress(&records(&[rec(0x8001, b"c3")])),
            _ => zstd::encode_all(&records(&[rec(0x8001, b"c4")])[..], 3).unwrap(),
        };
        let bytes = archive_v2(
            compression,
            &[block(3, &payload), block(3, &payload)],
            &[block(1, &appendix)],
        );
        let mut r = open(bytes);
        assert_eq!(r.get_ident(), format!("c{}", compression).into_bytes());
        let rec = next_flow(&mut r);
        assert_eq!((rec.src_port, rec.input, rec.output), (1, Some(0), Some(0)));
        assert_eq!(ports(&mut r), vec![2, 1, 2]);
    }
}

#[test]
fn unknown_compression_is_not_supported() {
    for compression in [5u8, 6, 0x7f, 0xff] {
        let a = plain_block(&[plain_flow(1)]);
        let mut r = open(archive_v2(compression, &[a.clone(), a], &[]));
        assert!(!r.awaits_lzo());
        assert_eq!(r.lzo_payload(), None);
        assert_eq!(r.read_record(), Err(NfdumpError::UnsupportedCompression));
        assert_eq!(r.read_record(), Err(NfdumpError::UnsupportedCompression));
        assert_eq!(r.read_record(), Err(NfdumpError::EOF));
    }
}

#[test]
fn block_that_is_cut_off() {
    let a = plain_block(&[plain_flow(1)]);
    // within the payload
    let mut bytes = header_v2(0, 0, 1 << 20, 2);
    bytes.extend(&a);
    bytes.extend(&a[..a.len() - 1]);
    let mut r = open(bytes);
    assert_eq!(next_flow(&mut r).src_port, 1);
    assert_eq!(r.read_record(), Err(SHORT));
    // within the header
    let mut bytes = header_v2(0, 0, 1 << 20, 2);
    bytes.extend(&a);
    bytes.extend(&a[..11]);
    let mut r = open(bytes);
    assert_eq!(next_flow(&mut r).src_port, 1);
    assert_eq!(r.read_record(), Err(SHORT));
    // not there at all
    let mut bytes = header_v2(0, 0, 1 << 20, 2);
    bytes.extend(&a);
    let mut r = open(bytes);
    assert_eq!(next_flow(&mut r).src_port, 1);
    assert_eq!(r.read_record(), Err(SHORT));
}

#[test]
fn block_that_does_not_expand() {
    let good = lz4_flex::block::compress(&records(&[plain_flow(1)]));
    let mut r = open(archive_v2(3, &[block(1, &[0xf0, 1]), block(1, &good)], &[]));
    assert_eq!(r.read_record(), Err(BAD_DATA));
    // the block was passed, and was not counted
    assert_eq!(next_flow(&mut r).src_port, 1);
    assert_eq!(r.read_record(), Err(NfdumpError::EOF));
}

#[test]
fn record_errors_are_handed_out() {
    let mut bad_size = 10u16.to_le_bytes().to_vec();
    bad_size.extend(3u16.to_le_bytes());
    let a = block(3, &records(&[plain_flow(1), bad_size, plain_flow(2)]));
    let b = plain_block(&[rec(0x000a, &[0; 10]), plain_flow(3)]);
    let mut family = vec![0u8; 20];
    family.extend(7u16.to_le_bytes());
    family.extend([0u8; 6]);
    let c = plain_block(&[rec(0x0007, &family), plain_flow(4)]);
    let mut r = open(archive_v2(0, &[a, b, c], &[]));
    assert_eq!(next_flow(&mut r).src_port, 1);
    assert_eq!(r.read_record(), Err(NfdumpError::ParseError));
    // nothing more is read from a block with a record that does not lie
    // within it
    assert_eq!(r.read_record(), Err(SHORT));
    assert_eq!(next_flow(&mut r).src_port, 3);
    assert_eq!(r.read_record(), Err(NfdumpError::UnexpectedSAInExporter));
    assert_eq!(next_flow(&mut r).src_port, 4);
    assert_eq!(r.read_record(), Err(NfdumpError::EOF));
}

fn reverse(bytes: &[u8]) -> Vec<u8> {
    bytes.iter().rev().copied().collect()
}

/// Opens an archive whose LZO payloads are its records back to front.
fn open_lzo(bytes: Vec<u8>) -> NfFileReader {
    let expanded = lzo_appendix_payloads(&bytes).iter().map(|p| Some(reverse(p))).collect();
    NfFileReader::new(bytes, expanded).unwrap()
}

/// Reads the next flow record of an archive whose LZO payloads are its
/// records back to front.
fn next_with_lzo(r: &mut NfFileReader) -> Result<RecordKind, NfdumpError> {
    loop {
        match r.read_record()? {
            Next::Flow(kind) => return Ok(kind),
            Next::AwaitsLzo => {
                let payload = r.lzo_payload().unwrap();
                r.supply_lzo(Some(reverse(&payload)))?;
            }
        }
    }
}

#[test]
fn lzo_blocks_are_expanded_by_the_caller() {
    let a = records(&[ext_map(&[4]), flow(0, 1, &[0; 12]), plain_flow(2)]);
    let b = records(&[plain_flow(3)]);
    let bytes = archive_v2(1, &[block(3, &reverse(&a)), block(0, &[]), block(1, &reverse(&b))], &[]);
    assert!(lzo_appendix_payloads(&bytes).is_empty());
    let mut r = open(bytes);
    assert!(r.awaits_lzo());
    assert_eq!(r.lzo_payload(), Some(reverse(&a)));
    // the wait is no error, and nothing moves while the reader waits
    assert_eq!(r.read_record(), Ok(Next::AwaitsLzo));
    assert_eq!(r.read_record(), Ok(Next::AwaitsLzo));
    assert_eq!(r.step(), Some(Ok(Next::AwaitsLzo)));
    assert_eq!(r.position(), 40);
    assert_eq!(r.remaining_blocks(), 3);
    assert_eq!(r.lzo_payload(), Some(reverse(&a)));
    assert_eq!(r.supply_lzo(Some(a.clone())), Ok(()));
    assert_eq!(r.position(), 40 + 12 + a.len());
    assert_eq!(r.remaining_blocks(), 2);
    assert!(!r.awaits_lzo());
    assert_eq!(r.lzo_payload(), None);
    let rec = next_flow(&mut r);
    assert_eq!((rec.src_port, rec.input), (1, Some(0)));
    assert_eq!(next_flow(&mut r).src_port, 2);
    // the next block is empty, and the one after it holds a record
    assert_eq!(r.read_record(), Ok(Next::AwaitsLzo));
    assert_eq!(r.lzo_payload(), Some(Vec::new()));
    match next_with_lzo(&mut r) {
        Ok(RecordKind::Record(rec)) => assert_eq!(rec.src_port, 3),
        other => panic!("{:?}", other),
    }
    assert!(!r.awaits_lzo());
    assert_eq!(next_with_lzo(&mut r), Err(NfdumpError::EOF));
    assert_eq!(r.read_record(), Err(NfdumpError::EOF));
}

#[test]
fn lzo_in_a_v1_archive() {
    let a = records(&[plain_flow(1), plain_flow(2)]);
    let bytes = archive_v1(0x01, &[block(2, &reverse(&a))]);
    assert!(lzo_appendix_payloads(&bytes).is_empty());
    let mut r = open(bytes);
    assert!(r.awaits_lzo());
    assert!(matches!(next_with_lzo(&mut r), Ok(RecordKind::Record(rec)) if rec.src_port == 1));
    assert!(matches!(next_with_lzo(&mut r), Ok(RecordKind::Record(rec)) if rec.src_port == 2));
    assert_eq!(next_with_lzo(&mut r), Err(NfdumpError::EOF));
}

#[test]
fn lzo_appendix_payloads_are_handed_out() {
    let first = records(&[rec(0x8001, b"lzo-id")]);
    let second = records(&[stat_record(40)]);
    let data = block(1, &reverse(&records(&[plain_flow(1)])));
    let appendix = [block(1, &reverse(&first)), block(1, &reverse(&second))];
    let bytes = archive_v2(1, &[data.clone()], &appendix);
    assert_eq!(lzo_appendix_payloads(&bytes), vec![reverse(&first), reverse(&second)]);
    // no more than the header counts
    let mut counted_one = header_v2(1, 1, 40 + data.len() as u64, 1);
    counted_one.extend(&data);
    counted_one.extend(appendix.concat());
    assert_eq!(lzo_appendix_payloads(&counted_one), vec![reverse(&first)]);
    // and no more than the source holds
    let mut cut = bytes.clone();
    cut.pop();
    assert_eq!(lzo_appendix_payloads(&cut), vec![reverse(&first)]);
    let mut beyond = header_v2(1, 2, 1 << 30, 1);
    beyond.extend(&data);
    assert!(lzo_appendix_payloads(&beyond).is_empty());
    // none for other compressions, other versions, and what is no archive
    for compression in [0u8, 2, 3, 4, 5] {
        assert!(lzo_appendix_payloads(&archive_v2(compression, &[data.clone()], &appendix))
            .is_empty());
    }
    assert!(lzo_appendix_payloads(&archive_v1(0x01, &[data.clone()])).is_empty());
    assert!(lzo_appendix_payloads(&vec![]).is_empty());
    assert!(lzo_appendix_payloads(&bytes[..39].to_vec()).is_empty());
    let mut other_magic = bytes.clone();
    other_magic[0] = 0;
    assert!(lzo_appendix_payloads(&other_magic).is_empty());
}

#[test]
fn lzo_appendix_is_read_at_open() {
    let data = records(&[plain_flow(1)]);
    let first = records(&[rec(0x8001, b"lzo-id")]);
    let second = records(&[stat_record(40)]);
    let bytes = archive_v2(
        1,
        &[block(1, &reverse(&data))],
        &[block(1, &reverse(&first)), block(1, &reverse(&second))],
    );
    let mut r = open_lzo(bytes);
    // identity and statistics are there before any record is asked for, and
    // the reader stands behind the header
    assert_eq!(r.get_ident(), b"lzo-id".to_vec());
    assert!(matches!(r.stat_record, StatRecord::V2(s) if s.flows == 40));
    assert_eq!(r.position(), 40);
    assert_eq!(r.remaining_blocks(), 1);
    assert_eq!(r.lzo_payload(), Some(reverse(&data)));
    match next_with_lzo(&mut r) {
        Ok(RecordKind::Record(rec)) => assert_eq!(rec.src_port, 1),
        other => panic!("{:?}", other),
    }
    assert_eq!(next_with_lzo(&mut r), Err(NfdumpError::EOF));
}

#[test]
fn lzo_appendix_that_does_not_expand_is_given_up() {
    let data = records(&[plain_flow(1)]);
    let bytes = archive_v2(
        1,
        &[block(1, &reverse(&data))],
        &[
            block(1, &reverse(&records(&[rec(0x8001, b"kept")]))),
            block(1, &[1, 2, 3]),
            block(1, &reverse(&records(&[rec(0x8001, b"never")]))),
        ],
    );
    let late = Some(records(&[rec(0x8001, b"never")]));
    let kept = Some(records(&[rec(0x8001, b"kept")]));
    // the second expansion failed: what came before it stays, what comes
    // after it is not read
    let mut r = NfFileReader::new(bytes.clone(), vec![kept.clone(), None, late.clone()]).unwrap();
    assert_eq!(r.get_ident(), b"kept".to_vec());
    assert_eq!(r.position(), 40);
    assert_eq!(r.remaining_blocks(), 1);
    assert!(matches!(next_with_lzo(&mut r), Ok(RecordKind::Record(rec)) if rec.src_port == 1));
    // expansions that are missing count as failed
    let r = NfFileReader::new(bytes.clone(), vec![kept.clone()]).unwrap();
    assert_eq!((r.get_ident(), r.position()), (b"kept".to_vec(), 40));
    let r = NfFileReader::new(bytes.clone(), Vec::new()).unwrap();
    assert_eq!((r.get_ident(), r.position()), (Vec::new(), 40));
    assert!(r.awaits_lzo());
    // an expansion beyond what a block may hold is a failure too
    let long = Some(vec![0u8; nfdump::compress::BUFSIZE + 1]);
    let r = NfFileReader::new(bytes.clone(), vec![long, kept]).unwrap();
    assert_eq!((r.get_ident(), r.position()), (Vec::new(), 40));
    // all three expanded
    let third = Some(records(&[rec(0x8001, b"third")]));
    let second = Some(records(&[stat_record(5)]));
    let r = NfFileReader::new(bytes, vec![late, second, third]).unwrap();
    assert_eq!((r.get_ident(), r.position()), (b"third".to_vec(), 40));
    assert!(matches!(r.stat_record, StatRecord::V2(s) if s.flows == 5));
}

#[test]
fn other_compressions_do_not_look_at_expansions_at_open() {
    let data = plain_block(&[plain_flow(1)]);
    let appendix = plain_block(&[rec(0x8001, b"plain")]);
    let bytes = archive_v2(0, &[data], &[appendix]);
    let wrong = Some(records(&[rec(0x8001, b"wrong")]));
    let mut r = NfFileReader::new(bytes, vec![wrong.clone(), wrong]).unwrap();
    assert_eq!(r.get_ident(), b"plain".to_vec());
    assert_eq!(ports(&mut r), vec![1]);
    let mut r =
        NfFileReader::new(archive_v1(0, &[plain_block(&[plain_flow(2)])]), vec![None]).unwrap();
    assert_eq!(ports(&mut r), vec![2]);
}

#[test]
fn lzo_failure_in_flow_data_is_a_data_error() {
    let data = records(&[plain_flow(1)]);
    let bytes = archive_v2(1, &[block(1, &[9, 9]), block(1, &reverse(&data))], &[]);
    let mut r = open(bytes);
    assert_eq!(r.supply_lzo(None), Err(BAD_DATA));
    // the block was passed, and was not counted
    assert_eq!(r.position(), 40 + 12 + 2);
    assert_eq!(r.remaining_blocks(), 2);
    assert_eq!(r.lzo_payload(), Some(reverse(&data)));
    // an expansion beyond what a block may hold is a failure too
    assert_eq!(r.supply_lzo(Some(vec![0; nfdump::compress::BUFSIZE + 1])), Err(BAD_DATA));
    // both blocks were passed: the reader stands at the appendix
    assert!(!r.awaits_lzo());
    assert_eq!(r.read_record(), Err(NfdumpError::EOF));
}

#[test]
fn supply_without_a_wait_changes_nothing() {
    let mut r = open(archive_v2(0, &[plain_block(&[plain_flow(1), plain_flow(2)])], &[]));
    assert!(!r.awaits_lzo());
    assert_eq!(r.supply_lzo(Some(records(&[plain_flow(7)]))), Ok(()));
    assert_eq!(r.supply_lzo(None), Ok(()));
    assert_eq!(r.position(), 40);
    assert_eq!(next_flow(&mut r).src_port, 1);
    // nor within a block of an LZO archive
    let a = records(&[plain_flow(1), plain_flow(2)]);
    let mut r = open(archive_v2(1, &[block(2, &a), block(1, &a)], &[]));
    assert_eq!(r.supply_lzo(Some(a.clone())), Ok(()));
    assert_eq!(next_flow(&mut r).src_port, 1);
    assert!(!r.awaits_lzo());
    assert_eq!(r.supply_lzo(Some(records(&[plain_flow(7)]))), Ok(()));
    assert_eq!(r.supply_lzo(None), Ok(()));
    assert_eq!(next_flow(&mut r).src_port, 2);
}

#[test]
fn lzo_block_that_is_cut_off_is_not_waited_for() {
    let a = records(&[plain_flow(1)]);
    let mut bytes = header_v2(1, 0, 1 << 20, 1);
    let b = block(1, &a);
    bytes.extend(&b[..b.len() - 1]);
    let mut r = open(bytes);
    assert!(!r.awaits_lzo());
    assert_eq!(r.lzo_payload(), None);
    assert_eq!(r.read_record(), Err(SHORT));
}

#[test]
fn readers_of_other_compressions_never_wait() {
    let recs = records(&[exporter(1), plain_flow(1)]);
    for (compression, payload) in
        [(0u8, recs.clone()), (3, lz4_flex::block::compress(&recs)), (9, recs.clone())]
    {
        let mut r = open(archive_v2(compression, &[block(2, &payload), block(0, &[])], &[]));
        for _ in 0..6 {
            assert!(!r.awaits_lzo());
            assert_ne!(r.read_record(), Ok(Next::AwaitsLzo));
        }
    }
}

#[test]
fn exporters_and_extension_ids_are_kept() {
    let a = plain_block(&[exporter(11), ext_map(&[4, 6]), plain_flow(1), exporter(12)]);
    let b = plain_block(&[ext_map(&[9, 5]), exporter(13), plain_flow(2)]);
    let mut r = open(archive_v2(0, &[a, b], &[]));
    assert_eq!(r.remaining_blocks(), 2);
    assert!(r.exporters().is_empty() && r.extensions().is_empty());
    assert_eq!(next_flow(&mut r).src_port, 1);
    assert_eq!(r.remaining_blocks(), 1);
    assert_eq!(r.extensions(), &vec![4, 6]);
    assert_eq!(r.exporters().iter().map(|e| e.id).collect::<Vec<u32>>(), vec![11]);
    assert_eq!(next_flow(&mut r).src_port, 2);
    assert_eq!(r.remaining_blocks(), 0);
    assert_eq!(r.extensions(), &vec![9, 5]);
    assert_eq!(r.exporters().iter().map(|e| e.id).collect::<Vec<u32>>(), vec![11, 12, 13]);
    assert_eq!(r.read_record(), Err(NfdumpError::EOF));
    assert_eq!(r.exporters().len(), 3);
}

#[test]
fn header_names_the_compression() {
    let v1 = |flags: u32| match open(archive_v1(flags, &[])).header {
        h @ NfFileHeader::V1(_) => NfFileReader::codec_of(&h),
        other => panic!("{:?}", other),
    };
    assert_eq!(v1(0x00), Ok(0));
    assert_eq!(v1(0x01), Ok(1));
    assert_eq!(v1(0x08), Ok(2));
    assert_eq!(v1(0x10), Ok(3));
    assert_eq!(v1(0x11), Ok(0));
    assert_eq!(v1(0x02 | 0x04 | 0x20), Ok(0));
    assert_eq!(v1(0x08 | 0x20), Ok(2));
    for compression in 0..=4u8 {
        let r = open(archive_v2(compression, &[], &[]));
        assert_eq!(NfFileReader::codec_of(&r.header), Ok(compression));
    }
    let r = open(archive_v2(5, &[], &[]));
    assert_eq!(NfFileReader::codec_of(&r.header), Err(NfdumpError::UnsupportedCompression));
}

#[test]
fn decompressor_is_selected_by_the_header() {
    let recs = records(&[plain_flow(1)]);
    let lz4 = open(archive_v1(0x10, &[])).header;
    let mut z =
        NfFileReader::select_decompressor(&lz4, lz4_flex::block::compress(&recs), None).unwrap();
    assert!(matches!(z, Decompressor::Lz4(_)));
    assert_eq!(z.read_exact(recs.len()), Some(recs.clone()));
    assert!(matches!(
        NfFileReader::select_decompressor(&lz4, vec![0xf0, 1], None),
        Err(NfdumpError::IoError(IoFailure::InvalidData))
    ));
    let zstd = open(archive_v2(4, &[], &[])).header;
    let mut z =
        NfFileReader::select_decompressor(&zstd, zstd::encode_all(&recs[..], 1).unwrap(), None)
            .unwrap();
    assert!(matches!(z, Decompressor::Zstd(_)));
    assert_eq!(z.read_exact(recs.len()), Some(recs.clone()));
    // LZO is selected by either kind of header, and takes what the caller
    // expanded
    for lzo in [open(archive_v2(1, &[], &[])).header, open(archive_v1(0x01, &[])).header] {
        let mut z =
            NfFileReader::select_decompressor(&lzo, vec![7, 7], Some(recs.clone())).unwrap();
        assert!(matches!(z, Decompressor::Lzo(_)));
        assert_eq!(z.read_exact(recs.len()), Some(recs.clone()));
        assert!(matches!(
            NfFileReader::select_decompressor(&lzo, vec![7, 7], None),
            Err(NfdumpError::IoError(IoFailure::InvalidData))
        ));
    }
    // only a number that stands for no compression is unsupported
    for id in [5u8, 6, 200, 255] {
        let unknown = open(archive_v2(id, &[], &[])).header;
        assert!(matches!(
            NfFileReader::select_decompressor(&unknown, recs.clone(), Some(recs.clone())),
            Err(NfdumpError::UnsupportedCompression)
        ));
    }
    for id in 0..=4u8 {
        let known = open(archive_v2(id, &[], &[])).header;
        assert!(!matches!(
            NfFileReader::select_decompressor(&known, recs.clone(), None),
            Err(NfdumpError::UnsupportedCompression)
        ));
    }
}

#[test]
fn blocks_can_be_fetched_by_hand() {
    let a = plain_block(&[plain_flow(1)]);
    let mut bytes = header_v2(0, 0, 1 << 20, 7);
    bytes.extend(&a);
    bytes.extend(&a[..5]);
    let mut r = open(bytes);
    assert_eq!(r.read_data_block(None), Ok(()));
    assert_eq!(r.position(), 40 + a.len());
    // fetching does not count the block
    assert_eq!(r.remaining_blocks(), 7);
    assert_eq!(next_flow(&mut r).src_port, 1);
    assert_eq!(r.read_data_block(None), Err(SHORT));
    assert_eq!(r.position(), 40 + a.len() + 5);
}

#[test]
fn steps_can_be_taken_one_by_one() {
    let mut r = open(archive_v2(0, &[plain_block(&[exporter(1), plain_flow(1)])], &[]));
    // the block is fetched, the exporter is taken in, the flow is handed out
    assert_eq!(r.step(), None);
    assert_eq!(r.position(), 40 + 12 + 32 + 48);
    assert_eq!(r.step(), None);
    assert!(matches!(r.step(), Some(Ok(Next::Flow(RecordKind::Record(_))))));
    // the block has no more records, and no block is left
    assert_eq!(r.step(), None);
    assert_eq!(r.step(), Some(Err(NfdumpError::EOF)));
    assert_eq!(r.step(), Some(Err(NfdumpError::EOF)));
}

#[test]
fn errors_say_what_went_wrong() {
    assert_eq!(NfdumpError::EOF.to_string(), "no more records to read (end of file)");
    assert_eq!(SHORT.to_string(), "IO error: unexpected end of file");
    assert_eq!(BAD_DATA.to_string(), "IO error: invalid data");
    assert_eq!(NfdumpError::InvalidFile.to_string(), "invalid file");
    assert_eq!(
        NfdumpError::UnexpectedSAInExporter.to_string(),
        "unexpected sa value in exporter record"
    );
    assert_eq!(NfdumpError::ParseError.to_string(), "parser error");
    assert_eq!(
        NfdumpError::UnsupportedVersion.to_string(),
        "nfdump file version not supported (yet)"
    );
    assert_eq!(
        NfdumpError::UnsupportedCompression.to_string(),
        "nfdump file compression not supported"
    );
    assert_eq!(NfdumpError::UnexpectedExtension.to_string(), "unexpected extension");
}
