//! The self-describing flow record: a short header, then sub-extensions that
//! each carry their own id and size.

use vstd::prelude::*;
use crate::addr::{Ipv4Address, Ipv6Address};
use crate::bytes::{get_u128, get_u16, get_u32, get_u64, u128_at, u16_at, u32_at, u64_at, u8_at, ByteCursor};
use crate::error::{IoFailure, NfdumpError};
use crate::record::NfFileRecordHeader;
use eui48::MacAddress;

verus! {

// The ids of the sub-extensions that this library decodes.
pub const EXT_GENERIC_FLOW: u16 = 0x1;
pub const EXT_IPV4_FLOW: u16 = 0x2;
pub const EXT_IPV6_FLOW: u16 = 0x3;
pub const EXT_FLOW_MISC: u16 = 0x4;
pub const EXT_CNT_FLOW: u16 = 0x5;
pub const EXT_VLAN_FLOW: u16 = 0x6;
pub const EXT_AS_ROUTING: u16 = 0x7;
pub const EXT_BGP_NEXT_HOP_V4: u16 = 0x8;
pub const EXT_BGP_NEXT_HOP_V6: u16 = 0x9;
pub const EXT_IP_NEXT_HOP_V4: u16 = 0xa;
pub const EXT_IP_NEXT_HOP_V6: u16 = 0xb;
pub const EXT_IP_RECEIVED_V4: u16 = 0xc;
pub const EXT_IP_RECEIVED_V6: u16 = 0xd;
pub const EXT_MPLS: u16 = 0xe;
pub const EXT_MAC_ADDR: u16 = 0xf;
pub const EXT_SAMPLER_INFO: u16 = 0x12;
pub const EXT_NSEL_X_LATE_PORT: u16 = 0x16;
pub const EXT_IN_PAYLOAD: u16 = 0x1d;
pub const EXT_TUN_V4: u16 = 0x1f;
pub const EXT_TUN_V6: u16 = 0x20;
pub const EXT_LAYER2: u16 = 0x26;

/// The number of bytes in front of the payload of a sub-extension: its id and
/// its size.
pub const EXTENSION_HEADER_SIZE: usize = 4;

/// `eui48::MacAddress`, a hardware address of six bytes. Nothing of its
/// inside is visible here; `mac_octets` names its bytes.
#[verifier::external_type_specification]
#[verifier::external_body]
pub struct ExMacAddressType(MacAddress);

/// The six bytes of a hardware address, in the order in which they are
/// written.
pub uninterp spec fn mac_octets(m: MacAddress) -> Seq<u8>;

/// `eui48::MacAddress::new`: the address whose six bytes are those of `eui`.
#[verifier::external_body]
fn mac_new(eui: [u8; 6]) -> (m: MacAddress)
    ensures
        mac_octets(m) == eui@,
{
    MacAddress::new(eui)
}

/// The six bytes of the hardware address that the low 48 bits of `value`
/// stand for, the most significant byte first.
pub open spec fn mac_bytes(value: u64) -> Seq<u8> {
    seq![
        ((value >> 40) & 0xff) as u8,
        ((value >> 32) & 0xff) as u8,
        ((value >> 24) & 0xff) as u8,
        ((value >> 16) & 0xff) as u8,
        ((value >> 8) & 0xff) as u8,
        (value & 0xff) as u8,
    ]
}

/// The hardware address that the low 48 bits of `value` stand for.
pub fn mac_from_u64(value: u64) -> (m: MacAddress)
    ensures
        mac_octets(m) == mac_bytes(value),
{
    assert((value >> 40) & 0xff < 256 && (value >> 32) & 0xff < 256 && (value >> 24) & 0xff < 256
        && (value >> 16) & 0xff < 256 && (value >> 8) & 0xff < 256 && value & 0xff < 256)
        by (bit_vector);
    let bytes: [u8; 6] = [
        ((value >> 40) & 0xff) as u8,
        ((value >> 32) & 0xff) as u8,
        ((value >> 24) & 0xff) as u8,
        ((value >> 16) & 0xff) as u8,
        ((value >> 8) & 0xff) as u8,
        (value & 0xff) as u8,
    ];
    mac_new(bytes)
}

/// The header of a self-describing flow record.
#[derive(Debug, Clone, Copy, PartialEq, Eq)]
pub struct RecordHeaderV3 {
    pub header: NfFileRecordHeader,
    pub num_elements: u16,
    pub engine_type: u8,
    pub engine_id: u8,
    pub exporter_id: u16,
    pub flags: u8,
    pub nf_version: u8,
}

impl RecordHeaderV3 {
    /// The number of payload bytes that the header takes.
    pub const SIZE: usize = 8;

    /// The header as the first `SIZE` bytes of the payload `p` hold it.
    pub open spec fn of(header: NfFileRecordHeader, p: Seq<u8>) -> RecordHeaderV3 {
        RecordHeaderV3 {
            header,
            num_elements: u16_at(p, 0),
            engine_type: u8_at(p, 2),
            engine_id: u8_at(p, 3),
            exporter_id: u16_at(p, 4),
            flags: u8_at(p, 6),
            nf_version: u8_at(p, 7),
        }
    }

    /// Decodes the header from the front of `p`; `None` where `p` is too short.
    pub fn read(header: NfFileRecordHeader, p: &[u8]) -> (r: Option<RecordHeaderV3>)
        ensures
            r == if p@.len() >= RecordHeaderV3::SIZE {
                Some(RecordHeaderV3::of(header, p@))
            } else {
                None
            },
    {
        if p.len() < RecordHeaderV3::SIZE {
            return None;
        }
        Some(RecordHeaderV3 {
            header,
            num_elements: get_u16(p, 0),
            engine_type: p[2],
            engine_id: p[3],
            exporter_id: get_u16(p, 4),
            flags: p[6],
            nf_version: p[7],
        })
    }
}

/// Timestamps, ports, protocol and inbound counters.
#[derive(Debug, Clone, Copy, PartialEq, Eq)]
pub struct ExGenericFlow {
    pub msec_first: u64,
    pub msec_last: u64,
    pub msec_received: u64,
    pub in_packets: u64,
    pub in_bytes: u64,
    pub src_port: u16,
    pub dst_port: u16,
    pub proto: u8,
    pub tcp_flags: u8,
    pub fwd_status: u8,
    pub src_tos: u8,
}

/// The IPv4 addresses of a flow.
#[derive(Debug, Clone, Copy, PartialEq, Eq)]
pub struct ExIpv4Flow {
    pub src_addr: Ipv4Address,
    pub dst_addr: Ipv4Address,
}

/// The IPv6 addresses of a flow.
#[derive(Debug, Clone, Copy, PartialEq, Eq)]
pub struct ExIpv6Flow {
    pub src_addr: Ipv6Address,
    pub dst_addr: Ipv6Address,
}

/// Interfaces, masks, direction and end reason.
#[derive(Debug, Clone, Copy, PartialEq, Eq)]
pub struct ExFlowMisc {
    pub input: u32,
    pub output: u32,
    pub src_mask: u8,
    pub dst_mask: u8,
    pub dir: u8,
    pub dst_tos: u8,
    pub bi_flow_dir: u8,
    pub flow_end_reason: u8,
    pub rev_tcp_flags: u8,
    pub fill: u8,
}

/// Flow count and outbound counters.
#[derive(Debug, Clone, Copy, PartialEq, Eq)]
pub struct ExCntFlow {
    pub flows: u64,
    pub out_packets: u64,
    pub out_bytes: u64,
}

/// Source and destination VLAN.
#[derive(Debug, Clone, Copy, PartialEq, Eq)]
pub struct ExVlan {
    pub src_vlan: u32,
    pub dst_vlan: u32,
}

/// Source and destination AS number.
#[derive(Debug, Clone, Copy, PartialEq, Eq)]
pub struct ExAsRouting {
    pub src_as: u32,
    pub dst_as: u32,
}

/// The BGP next hop, IPv4.
#[derive(Debug, Clone, Copy, PartialEq, Eq)]
pub struct ExBgpNextHopIpv4 {
    pub ip: Ipv4Address,
}

/// The BGP next hop, IPv6.
#[derive(Debug, Clone, Copy, PartialEq, Eq)]
pub struct ExBgpNextHopIpv6 {
    pub ip: Ipv6Address,
}

/// The IP next hop, IPv4.
#[derive(Debug, Clone, Copy, PartialEq, Eq)]
pub struct ExIpNextHopIpv4 {
    pub ip: Ipv4Address,
}

/// The IP next hop, IPv6.
#[derive(Debug, Clone, Copy, PartialEq, Eq)]
pub struct ExIpNextHopIpv6 {
    pub ip: Ipv6Address,
}

/// The address the flow was received at, IPv4.
#[derive(Debug, Clone, Copy, PartialEq, Eq)]
pub struct ExIpReceivedIpv4 {
    pub ip: Ipv4Address,
}

/// The address the flow was received at, IPv6.
#[derive(Debug, Clone, Copy, PartialEq, Eq)]
pub struct ExIpReceivedIpv6 {
    pub ip: Ipv6Address,
}

/// The MPLS label stack.
#[derive(Debug, Clone, Copy, PartialEq, Eq)]
pub struct ExMPLS {
    pub mpls_label_1: u32,
    pub mpls_label_2: u32,
    pub mpls_label_3: u32,
    pub mpls_label_4: u32,
    pub mpls_label_5: u32,
    pub mpls_label_6: u32,
    pub mpls_label_7: u32,
    pub mpls_label_8: u32,
    pub mpls_label_9: u32,
    pub mpls_label_10: u32,
}

/// The sampler that selected the flow.
#[derive(Debug, Clone, Copy, PartialEq, Eq)]
pub struct ExSamplerInfo {
    pub selector_id: u64,
    pub sysid: u16,
    pub align: u16,
}

/// The ports as a NAT rewrote them.
#[derive(Debug, Clone, Copy, PartialEq, Eq)]
pub struct ExNselXLatePort {
    pub src_port: u16,
    pub dst_port: u16,
}

/// The endpoints of an IPv4 tunnel.
#[derive(Debug, Clone, Copy, PartialEq, Eq)]
pub struct ExTunIpv4 {
    pub src_addr: Ipv4Address,
    pub dst_addr: Ipv4Address,
    pub proto: u8,
}

/// The endpoints of an IPv6 tunnel.
#[derive(Debug, Clone, Copy, PartialEq, Eq)]
pub struct ExTunIpv6 {
    pub src_addr: Ipv6Address,
    pub dst_addr: Ipv6Address,
    pub proto: u8,
}

/// Layer 2, VLAN and tunnel metadata.
#[derive(Debug, Clone, Copy, PartialEq, Eq)]
pub struct ExLayer2 {
    pub vlan_id: u16,
    pub customer_vlan_id: u16,
    pub post_vlan_id: u16,
    pub post_customer_vlan_id: u16,
    pub ingress: u32,
    pub egress: u32,
    pub vx_lan: u64,
    pub ether_type: u16,
    pub ip_version: u8,
    pub fill: u8,
}

/// The four hardware addresses of a flow.
#[derive(Debug, Clone, Copy, PartialEq, Eq)]
pub struct ExMacAddress {
    pub in_src_mac: MacAddress,
    pub out_dst_mac: MacAddress,
    pub in_dst_mac: MacAddress,
    pub out_src_mac: MacAddress,
}

/// The bytes of the four hardware addresses of a flow.
pub struct ExMacAddressView {
    pub in_src_mac: Seq<u8>,
    pub out_dst_mac: Seq<u8>,
    pub in_dst_mac: Seq<u8>,
    pub out_src_mac: Seq<u8>,
}

impl View for ExMacAddress {
    type V = ExMacAddressView;

    open spec fn view(&self) -> ExMacAddressView {
        ExMacAddressView {
            in_src_mac: mac_octets(self.in_src_mac),
            out_dst_mac: mac_octets(self.out_dst_mac),
            in_dst_mac: mac_octets(self.in_dst_mac),
            out_src_mac: mac_octets(self.out_src_mac),
        }
    }
}

impl ExMacAddress {
    /// The number of payload bytes that the fields take: four numbers of
    /// eight bytes, of which each holds an address in its low 48 bits.
    pub const SIZE: usize = 32;

    /// The addresses as the first `SIZE` bytes of `p` hold them.
    pub open spec fn of(p: Seq<u8>) -> ExMacAddressView {
        ExMacAddressView {
            in_src_mac: mac_bytes(u64_at(p, 0)),
            out_dst_mac: mac_bytes(u64_at(p, 8)),
            in_dst_mac: mac_bytes(u64_at(p, 16)),
            out_src_mac: mac_bytes(u64_at(p, 24)),
        }
    }

    /// Decodes the addresses from the front of `p`; `None` where `p` is too
    /// short.
    pub fn read(p: &[u8]) -> (r: Option<ExMacAddress>)
        ensures
            r.is_some() == (p@.len() >= ExMacAddress::SIZE),
            r matches Some(m) ==> m@ == ExMacAddress::of(p@),
    {
        if p.len() < ExMacAddress::SIZE {
            return None;
        }
        Some(ExMacAddress {
            in_src_mac: mac_from_u64(get_u64(p, 0)),
            out_dst_mac: mac_from_u64(get_u64(p, 8)),
            in_dst_mac: mac_from_u64(get_u64(p, 16)),
            out_src_mac: mac_from_u64(get_u64(p, 24)),
        })
    }
}

/// The raw payload blob of a flow.
pub type ExInPayload = Vec<u8>;

impl ExGenericFlow {
    /// The number of payload bytes that the fields take.
    pub const SIZE: usize = 48;

    /// The fields as the first `SIZE` bytes of `p` hold them, one after the other.
    pub open spec fn of(p: Seq<u8>) -> ExGenericFlow {
        ExGenericFlow {
            msec_first: u64_at(p, 0),
            msec_last: u64_at(p, 8),
            msec_received: u64_at(p, 16),
            in_packets: u64_at(p, 24),
            in_bytes: u64_at(p, 32),
            src_port: u16_at(p, 40),
            dst_port: u16_at(p, 42),
            proto: u8_at(p, 44),
            tcp_flags: u8_at(p, 45),
            fwd_status: u8_at(p, 46),
            src_tos: u8_at(p, 47),
        }
    }

    /// Decodes the fields from the front of `p`; `None` where `p` is too short.
    pub fn read(p: &[u8]) -> (r: Option<ExGenericFlow>)
        ensures
            r == if p@.len() >= ExGenericFlow::SIZE {
                Some(ExGenericFlow::of(p@))
            } else {
                None
            },
    {
        if p.len() < ExGenericFlow::SIZE {
            return None;
        }
        Some(ExGenericFlow {
            msec_first: get_u64(p, 0),
            msec_last: get_u64(p, 8),
            msec_received: get_u64(p, 16),
            in_packets: get_u64(p, 24),
            in_bytes: get_u64(p, 32),
            src_port: get_u16(p, 40),
            dst_port: get_u16(p, 42),
            proto: p[44],
            tcp_flags: p[45],
            fwd_status: p[46],
            src_tos: p[47],
        })
    }
}

impl ExIpv4Flow {
    /// The number of payload bytes that the fields take.
    pub const SIZE: usize = 8;

    /// The fields as the first `SIZE` bytes of `p` hold them, one after the other.
    pub open spec fn of(p: Seq<u8>) -> ExIpv4Flow {
        ExIpv4Flow {
            src_addr: Ipv4Address { bits: u32_at(p, 0) },
            dst_addr: Ipv4Address { bits: u32_at(p, 4) },
        }
    }

    /// Decodes the fields from the front of `p`; `None` where `p` is too short.
    pub fn read(p: &[u8]) -> (r: Option<ExIpv4Flow>)
        ensures
            r == if p@.len() >= ExIpv4Flow::SIZE {
                Some(ExIpv4Flow::of(p@))
            } else {
                None
            },
    {
        if p.len() < ExIpv4Flow::SIZE {
            return None;
        }
        Some(ExIpv4Flow {
            src_addr: Ipv4Address { bits: get_u32(p, 0) },
            dst_addr: Ipv4Address { bits: get_u32(p, 4) },
        })
    }
}

impl ExIpv6Flow {
    /// The number of payload bytes that the fields take.
    pub const SIZE: usize = 32;

    /// The fields as the first `SIZE` bytes of `p` hold them, one after the other.
    pub open spec fn of(p: Seq<u8>) -> ExIpv6Flow {
        ExIpv6Flow {
            src_addr: Ipv6Address { bits: u128_at(p, 0) },
            dst_addr: Ipv6Address { bits: u128_at(p, 16) },
        }
    }

    /// Decodes the fields from the front of `p`; `None` where `p` is too short.
    pub fn read(p: &[u8]) -> (r: Option<ExIpv6Flow>)
        ensures
            r == if p@.len() >= ExIpv6Flow::SIZE {
                Some(ExIpv6Flow::of(p@))
            } else {
                None
            },
    {
        if p.len() < ExIpv6Flow::SIZE {
            return None;
        }
        Some(ExIpv6Flow {
            src_addr: Ipv6Address { bits: get_u128(p, 0) },
            dst_addr: Ipv6Address { bits: get_u128(p, 16) },
        })
    }
}

impl ExFlowMisc {
    /// The number of payload bytes that the fields take.
    pub const SIZE: usize = 16;

    /// The fields as the first `SIZE` bytes of `p` hold them, one after the other.
    pub open spec fn of(p: Seq<u8>) -> ExFlowMisc {
        ExFlowMisc {
            input: u32_at(p, 0),
            output: u32_at(p, 4),
            src_mask: u8_at(p, 8),
            dst_mask: u8_at(p, 9),
            dir: u8_at(p, 10),
            dst_tos: u8_at(p, 11),
            bi_flow_dir: u8_at(p, 12),
            flow_end_reason: u8_at(p, 13),
            rev_tcp_flags: u8_at(p, 14),
            fill: u8_at(p, 15),
        }
    }

    /// Decodes the fields from the front of `p`; `None` where `p` is too short.
    pub fn read(p: &[u8]) -> (r: Option<ExFlowMisc>)
        ensures
            r == if p@.len() >= ExFlowMisc::SIZE {
                Some(ExFlowMisc::of(p@))
            } else {
                None
            },
    {
        if p.len() < ExFlowMisc::SIZE {
            return None;
        }
        Some(ExFlowMisc {
            input: get_u32(p, 0),
            output: get_u32(p, 4),
            src_mask: p[8],
            dst_mask: p[9],
            dir: p[10],
            dst_tos: p[11],
            bi_flow_dir: p[12],
            flow_end_reason: p[13],
            rev_tcp_flags: p[14],
            fill: p[15],
        })
    }
}

impl ExCntFlow {
    /// The number of payload bytes that the fields take.
    pub const SIZE: usize = 24;

    /// The fields as the first `SIZE` bytes of `p` hold them, one after the other.
    pub open spec fn of(p: Seq<u8>) -> ExCntFlow {
        ExCntFlow {
            flows: u64_at(p, 0),
            out_packets: u64_at(p, 8),
            out_bytes: u64_at(p, 16),
        }
    }

    /// Decodes the fields from the front of `p`; `None` where `p` is too short.
    pub fn read(p: &[u8]) -> (r: Option<ExCntFlow>)
        ensures
            r == if p@.len() >= ExCntFlow::SIZE {
                Some(ExCntFlow::of(p@))
            } else {
                None
            },
    {
        if p.len() < ExCntFlow::SIZE {
            return None;
        }
        Some(ExCntFlow {
            flows: get_u64(p, 0),
            out_packets: get_u64(p, 8),
            out_bytes: get_u64(p, 16),
        })
    }
}

impl ExVlan {
    /// The number of payload bytes that the fields take.
    pub const SIZE: usize = 8;

    /// The fields as the first `SIZE` bytes of `p` hold them, one after the other.
    pub open spec fn of(p: Seq<u8>) -> ExVlan {
        ExVlan {
            src_vlan: u32_at(p, 0),
            dst_vlan: u32_at(p, 4),
        }
    }

    /// Decodes the fields from the front of `p`; `None` where `p` is too short.
    pub fn read(p: &[u8]) -> (r: Option<ExVlan>)
        ensures
            r == if p@.len() >= ExVlan::SIZE {
                Some(ExVlan::of(p@))
            } else {
                None
            },
    {
        if p.len() < ExVlan::SIZE {
            return None;
        }
        Some(ExVlan {
            src_vlan: get_u32(p, 0),
            dst_vlan: get_u32(p, 4),
        })
    }
}

impl ExAsRouting {
    /// The number of payload bytes that the fields take.
    pub const SIZE: usize = 8;

    /// The fields as the first `SIZE` bytes of `p` hold them, one after the other.
    pub open spec fn of(p: Seq<u8>) -> ExAsRouting {
        ExAsRouting {
            src_as: u32_at(p, 0),
            dst_as: u32_at(p, 4),
        }
    }

    /// Decodes the fields from the front of `p`; `None` where `p` is too short.
    pub fn read(p: &[u8]) -> (r: Option<ExAsRouting>)
        ensures
            r == if p@.len() >= ExAsRouting::SIZE {
                Some(ExAsRouting::of(p@))
            } else {
                None
            },
    {
        if p.len() < ExAsRouting::SIZE {
            return None;
        }
        Some(ExAsRouting {
            src_as: get_u32(p, 0),
            dst_as: get_u32(p, 4),
        })
    }
}

impl ExBgpNextHopIpv4 {
    /// The number of payload bytes that the fields take.
    pub const SIZE: usize = 4;

    /// The fields as the first `SIZE` bytes of `p` hold them, one after the other.
    pub open spec fn of(p: Seq<u8>) -> ExBgpNextHopIpv4 {
        ExBgpNextHopIpv4 {
            ip: Ipv4Address { bits: u32_at(p, 0) },
        }
    }

    /// Decodes the fields from the front of `p`; `None` where `p` is too short.
    pub fn read(p: &[u8]) -> (r: Option<ExBgpNextHopIpv4>)
        ensures
            r == if p@.len() >= ExBgpNextHopIpv4::SIZE {
                Some(ExBgpNextHopIpv4::of(p@))
            } else {
                None
            },
    {
        if p.len() < ExBgpNextHopIpv4::SIZE {
            return None;
        }
        Some(ExBgpNextHopIpv4 {
            ip: Ipv4Address { bits: get_u32(p, 0) },
        })
    }
}

impl ExBgpNextHopIpv6 {
    /// The number of payload bytes that the fields take.
    pub const SIZE: usize = 16;

    /// The fields as the first `SIZE` bytes of `p` hold them, one after the other.
    pub open spec fn of(p: Seq<u8>) -> ExBgpNextHopIpv6 {
        ExBgpNextHopIpv6 {
            ip: Ipv6Address { bits: u128_at(p, 0) },
        }
    }

    /// Decodes the fields from the front of `p`; `None` where `p` is too short.
    pub fn read(p: &[u8]) -> (r: Option<ExBgpNextHopIpv6>)
        ensures
            r == if p@.len() >= ExBgpNextHopIpv6::SIZE {
                Some(ExBgpNextHopIpv6::of(p@))
            } else {
                None
            },
    {
        if p.len() < ExBgpNextHopIpv6::SIZE {
            return None;
        }
        Some(ExBgpNextHopIpv6 {
            ip: Ipv6Address { bits: get_u128(p, 0) },
        })
    }
}

impl ExIpNextHopIpv4 {
    /// The number of payload bytes that the fields take.
    pub const SIZE: usize = 4;

    /// The fields as the first `SIZE` bytes of `p` hold them, one after the other.
    pub open spec fn of(p: Seq<u8>) -> ExIpNextHopIpv4 {
        ExIpNextHopIpv4 {
            ip: Ipv4Address { bits: u32_at(p, 0) },
        }
    }

    /// Decodes the fields from the front of `p`; `None` where `p` is too short.
    pub fn read(p: &[u8]) -> (r: Option<ExIpNextHopIpv4>)
        ensures
            r == if p@.len() >= ExIpNextHopIpv4::SIZE {
                Some(ExIpNextHopIpv4::of(p@))
            } else {
                None
            },
    {
        if p.len() < ExIpNextHopIpv4::SIZE {
            return None;
        }
        Some(ExIpNextHopIpv4 {
            ip: Ipv4Address { bits: get_u32(p, 0) },
        })
    }
}

impl ExIpNextHopIpv6 {
    /// The number of payload bytes that the fields take.
    pub const SIZE: usize = 16;

    /// The fields as the first `SIZE` bytes of `p` hold them, one after the other.
    pub open spec fn of(p: Seq<u8>) -> ExIpNextHopIpv6 {
        ExIpNextHopIpv6 {
            ip: Ipv6Address { bits: u128_at(p, 0) },
        }
    }

    /// Decodes the fields from the front of `p`; `None` where `p` is too short.
    pub fn read(p: &[u8]) -> (r: Option<ExIpNextHopIpv6>)
        ensures
            r == if p@.len() >= ExIpNextHopIpv6::SIZE {
                Some(ExIpNextHopIpv6::of(p@))
            } else {
                None
            },
    {
        if p.len() < ExIpNextHopIpv6::SIZE {
            return None;
        }
        Some(ExIpNextHopIpv6 {
            ip: Ipv6Address { bits: get_u128(p, 0) },
        })
    }
}

impl ExIpReceivedIpv4 {
    /// The number of payload bytes that the fields take.
    pub const SIZE: usize = 4;

    /// The fields as the first `SIZE` bytes of `p` hold them, one after the other.
    pub open spec fn of(p: Seq<u8>) -> ExIpReceivedIpv4 {
        ExIpReceivedIpv4 {
            ip: Ipv4Address { bits: u32_at(p, 0) },
        }
    }

    /// Decodes the fields from the front of `p`; `None` where `p` is too short.
    pub fn read(p: &[u8]) -> (r: Option<ExIpReceivedIpv4>)
        ensures
            r == if p@.len() >= ExIpReceivedIpv4::SIZE {
                Some(ExIpReceivedIpv4::of(p@))
            } else {
                None
            },
    {
        if p.len() < ExIpReceivedIpv4::SIZE {
            return None;
        }
        Some(ExIpReceivedIpv4 {
            ip: Ipv4Address { bits: get_u32(p, 0) },
        })
    }
}

impl ExIpReceivedIpv6 {
    /// The number of payload bytes that the fields take.
    pub const SIZE: usize = 16;

    /// The fields as the first `SIZE` bytes of `p` hold them, one after the other.
    pub open spec fn of(p: Seq<u8>) -> ExIpReceivedIpv6 {
        ExIpReceivedIpv6 {
            ip: Ipv6Address { bits: u128_at(p, 0) },
        }
    }

    /// Decodes the fields from the front of `p`; `None` where `p` is too short.
    pub fn read(p: &[u8]) -> (r: Option<ExIpReceivedIpv6>)
        ensures
            r == if p@.len() >= ExIpReceivedIpv6::SIZE {
                Some(ExIpReceivedIpv6::of(p@))
            } else {
                None
            },
    {
        if p.len() < ExIpReceivedIpv6::SIZE {
            return None;
        }
        Some(ExIpReceivedIpv6 {
            ip: Ipv6Address { bits: get_u128(p, 0) },
        })
    }
}

impl ExMPLS {
    /// The number of payload bytes that the fields take.
    pub const SIZE: usize = 40;

    /// The fields as the first `SIZE` bytes of `p` hold them, one after the other.
    pub open spec fn of(p: Seq<u8>) -> ExMPLS {
        ExMPLS {
            mpls_label_1: u32_at(p, 0),
            mpls_label_2: u32_at(p, 4),
            mpls_label_3: u32_at(p, 8),
            mpls_label_4: u32_at(p, 12),
            mpls_label_5: u32_at(p, 16),
            mpls_label_6: u32_at(p, 20),
            mpls_label_7: u32_at(p, 24),
            mpls_label_8: u32_at(p, 28),
            mpls_label_9: u32_at(p, 32),
            mpls_label_10: u32_at(p, 36),
        }
    }

    /// Decodes the fields from the front of `p`; `None` where `p` is too short.
    pub fn read(p: &[u8]) -> (r: Option<ExMPLS>)
        ensures
            r == if p@.len() >= ExMPLS::SIZE {
                Some(ExMPLS::of(p@))
            } else {
                None
            },
    {
        if p.len() < ExMPLS::SIZE {
            return None;
        }
        Some(ExMPLS {
            mpls_label_1: get_u32(p, 0),
            mpls_label_2: get_u32(p, 4),
            mpls_label_3: get_u32(p, 8),
            mpls_label_4: get_u32(p, 12),
            mpls_label_5: get_u32(p, 16),
            mpls_label_6: get_u32(p, 20),
            mpls_label_7: get_u32(p, 24),
            mpls_label_8: get_u32(p, 28),
            mpls_label_9: get_u32(p, 32),
            mpls_label_10: get_u32(p, 36),
        })
    }
}

impl ExSamplerInfo {
    /// The number of payload bytes that the fields take.
    pub const SIZE: usize = 12;

    /// The fields as the first `SIZE` bytes of `p` hold them, one after the other.
    pub open spec fn of(p: Seq<u8>) -> ExSamplerInfo {
        ExSamplerInfo {
            selector_id: u64_at(p, 0),
            sysid: u16_at(p, 8),
            align: u16_at(p, 10),
        }
    }

    /// Decodes the fields from the front of `p`; `None` where `p` is too short.
    pub fn read(p: &[u8]) -> (r: Option<ExSamplerInfo>)
        ensures
            r == if p@.len() >= ExSamplerInfo::SIZE {
                Some(ExSamplerInfo::of(p@))
            } else {
                None
            },
    {
        if p.len() < ExSamplerInfo::SIZE {
            return None;
        }
        Some(ExSamplerInfo {
            selector_id: get_u64(p, 0),
            sysid: get_u16(p, 8),
            align: get_u16(p, 10),
        })
    }
}

impl ExNselXLatePort {
    /// The number of payload bytes that the fields take.
    pub const SIZE: usize = 4;

    /// The fields as the first `SIZE` bytes of `p` hold them, one after the other.
    pub open spec fn of(p: Seq<u8>) -> ExNselXLatePort {
        ExNselXLatePort {
            src_port: u16_at(p, 0),
            dst_port: u16_at(p, 2),
        }
    }

    /// Decodes the fields from the front of `p`; `None` where `p` is too short.
    pub fn read(p: &[u8]) -> (r: Option<ExNselXLatePort>)
        ensures
            r == if p@.len() >= ExNselXLatePort::SIZE {
                Some(ExNselXLatePort::of(p@))
            } else {
                None
            },
    {
        if p.len() < ExNselXLatePort::SIZE {
            return None;
        }
        Some(ExNselXLatePort {
            src_port: get_u16(p, 0),
            dst_port: get_u16(p, 2),
        })
    }
}

impl ExTunIpv4 {
    /// The number of payload bytes that the fields take.
    pub const SIZE: usize = 9;

    /// The fields as the first `SIZE` bytes of `p` hold them, one after the other.
    pub open spec fn of(p: Seq<u8>) -> ExTunIpv4 {
        ExTunIpv4 {
            src_addr: Ipv4Address { bits: u32_at(p, 0) },
            dst_addr: Ipv4Address { bits: u32_at(p, 4) },
            proto: u8_at(p, 8),
        }
    }

    /// Decodes the fields from the front of `p`; `None` where `p` is too short.
    pub fn read(p: &[u8]) -> (r: Option<ExTunIpv4>)
        ensures
            r == if p@.len() >= ExTunIpv4::SIZE {
                Some(ExTunIpv4::of(p@))
            } else {
                None
            },
    {
        if p.len() < ExTunIpv4::SIZE {
            return None;
        }
        Some(ExTunIpv4 {
            src_addr: Ipv4Address { bits: get_u32(p, 0) },
            dst_addr: Ipv4Address { bits: get_u32(p, 4) },
            proto: p[8],
        })
    }
}

impl ExTunIpv6 {
    /// The number of payload bytes that the fields take.
    pub const SIZE: usize = 33;

    /// The fields as the first `SIZE` bytes of `p` hold them, one after the other.
    pub open spec fn of(p: Seq<u8>) -> ExTunIpv6 {
        ExTunIpv6 {
            src_addr: Ipv6Address { bits: u128_at(p, 0) },
            dst_addr: Ipv6Address { bits: u128_at(p, 16) },
            proto: u8_at(p, 32),
        }
    }

    /// Decodes the fields from the front of `p`; `None` where `p` is too short.
    pub fn read(p: &[u8]) -> (r: Option<ExTunIpv6>)
        ensures
            r == if p@.len() >= ExTunIpv6::SIZE {
                Some(ExTunIpv6::of(p@))
            } else {
                None
            },
    {
        if p.len() < ExTunIpv6::SIZE {
            return None;
        }
        Some(ExTunIpv6 {
            src_addr: Ipv6Address { bits: get_u128(p, 0) },
            dst_addr: Ipv6Address { bits: get_u128(p, 16) },
            proto: p[32],
        })
    }
}

impl ExLayer2 {
    /// The number of payload bytes that the fields take.
    pub const SIZE: usize = 28;

    /// The fields as the first `SIZE` bytes of `p` hold them, one after the other.
    pub open spec fn of(p: Seq<u8>) -> ExLayer2 {
        ExLayer2 {
            vlan_id: u16_at(p, 0),
            customer_vlan_id: u16_at(p, 2),
            post_vlan_id: u16_at(p, 4),
            post_customer_vlan_id: u16_at(p, 6),
            ingress: u32_at(p, 8),
            egress: u32_at(p, 12),
            vx_lan: u64_at(p, 16),
            ether_type: u16_at(p, 24),
            ip_version: u8_at(p, 26),
            fill: u8_at(p, 27),
        }
    }

    /// Decodes the fields from the front of `p`; `None` where `p` is too short.
    pub fn read(p: &[u8]) -> (r: Option<ExLayer2>)
        ensures
            r == if p@.len() >= ExLayer2::SIZE {
                Some(ExLayer2::of(p@))
            } else {
                None
            },
    {
        if p.len() < ExLayer2::SIZE {
            return None;
        }
        Some(ExLayer2 {
            vlan_id: get_u16(p, 0),
            customer_vlan_id: get_u16(p, 2),
            post_vlan_id: get_u16(p, 4),
            post_customer_vlan_id: get_u16(p, 6),
            ingress: get_u32(p, 8),
            egress: get_u32(p, 12),
            vx_lan: get_u64(p, 16),
            ether_type: get_u16(p, 24),
            ip_version: p[26],
            fill: p[27],
        })
    }
}

/// A self-describing flow record. A part is `None` where no sub-extension of
/// the record gave it.
#[derive(Debug, Clone, PartialEq, Eq)]
pub struct RecordV3 {
    pub head: RecordHeaderV3,
    pub generic_flow: Option<ExGenericFlow>,
    pub ipv4_flow: Option<ExIpv4Flow>,
    pub ipv6_flow: Option<ExIpv6Flow>,
    pub flow_misc: Option<ExFlowMisc>,
    pub cnt_flow: Option<ExCntFlow>,
    pub vlan: Option<ExVlan>,
    pub as_routing: Option<ExAsRouting>,
    pub sampler_info: Option<ExSamplerInfo>,
    pub nsel_xlate_port: Option<ExNselXLatePort>,
    pub bgp_next_hop_ipv4: Option<ExBgpNextHopIpv4>,
    pub bgp_next_hop_ipv6: Option<ExBgpNextHopIpv6>,
    pub ip_next_hop_ipv4: Option<ExIpNextHopIpv4>,
    pub ip_next_hop_ipv6: Option<ExIpNextHopIpv6>,
    pub ip_received_ipv4: Option<ExIpReceivedIpv4>,
    pub ip_received_ipv6: Option<ExIpReceivedIpv6>,
    pub in_payload: Option<ExInPayload>,
    pub mac_address: Option<ExMacAddress>,
    pub layer2: Option<ExLayer2>,
    pub mpls: Option<ExMPLS>,
    pub tun_ipv4: Option<ExTunIpv4>,
    pub tun_ipv6: Option<ExTunIpv6>,
}

/// A self-describing flow record with its bytes as sequences.
pub struct RecordV3View {
    pub head: RecordHeaderV3,
    pub generic_flow: Option<ExGenericFlow>,
    pub ipv4_flow: Option<ExIpv4Flow>,
    pub ipv6_flow: Option<ExIpv6Flow>,
    pub flow_misc: Option<ExFlowMisc>,
    pub cnt_flow: Option<ExCntFlow>,
    pub vlan: Option<ExVlan>,
    pub as_routing: Option<ExAsRouting>,
    pub sampler_info: Option<ExSamplerInfo>,
    pub nsel_xlate_port: Option<ExNselXLatePort>,
    pub bgp_next_hop_ipv4: Option<ExBgpNextHopIpv4>,
    pub bgp_next_hop_ipv6: Option<ExBgpNextHopIpv6>,
    pub ip_next_hop_ipv4: Option<ExIpNextHopIpv4>,
    pub ip_next_hop_ipv6: Option<ExIpNextHopIpv6>,
    pub ip_received_ipv4: Option<ExIpReceivedIpv4>,
    pub ip_received_ipv6: Option<ExIpReceivedIpv6>,
    pub in_payload: Option<Seq<u8>>,
    pub mac_address: Option<ExMacAddressView>,
    pub layer2: Option<ExLayer2>,
    pub mpls: Option<ExMPLS>,
    pub tun_ipv4: Option<ExTunIpv4>,
    pub tun_ipv6: Option<ExTunIpv6>,
}

impl View for RecordV3 {
    type V = RecordV3View;

    open spec fn view(&self) -> RecordV3View {
        RecordV3View {
            head: self.head,
            generic_flow: self.generic_flow,
            ipv4_flow: self.ipv4_flow,
            ipv6_flow: self.ipv6_flow,
            flow_misc: self.flow_misc,
            cnt_flow: self.cnt_flow,
            vlan: self.vlan,
            as_routing: self.as_routing,
            sampler_info: self.sampler_info,
            nsel_xlate_port: self.nsel_xlate_port,
            bgp_next_hop_ipv4: self.bgp_next_hop_ipv4,
            bgp_next_hop_ipv6: self.bgp_next_hop_ipv6,
            ip_next_hop_ipv4: self.ip_next_hop_ipv4,
            ip_next_hop_ipv6: self.ip_next_hop_ipv6,
            ip_received_ipv4: self.ip_received_ipv4,
            ip_received_ipv6: self.ip_received_ipv6,
            in_payload: match self.in_payload {
                Some(b) => Some(b@),
                None => None,
            },
            mac_address: match self.mac_address {
                Some(m) => Some(m@),
                None => None,
            },
            layer2: self.layer2,
            mpls: self.mpls,
            tun_ipv4: self.tun_ipv4,
            tun_ipv6: self.tun_ipv6,
        }
    }
}

/// Whether `id` is the id of a sub-extension that this library decodes.
pub open spec fn is_known_extension(id: u16) -> bool {
    ||| id == EXT_GENERIC_FLOW
    ||| id == EXT_IPV4_FLOW
    ||| id == EXT_IPV6_FLOW
    ||| id == EXT_FLOW_MISC
    ||| id == EXT_CNT_FLOW
    ||| id == EXT_VLAN_FLOW
    ||| id == EXT_AS_ROUTING
    ||| id == EXT_BGP_NEXT_HOP_V4
    ||| id == EXT_BGP_NEXT_HOP_V6
    ||| id == EXT_IP_NEXT_HOP_V4
    ||| id == EXT_IP_NEXT_HOP_V6
    ||| id == EXT_IP_RECEIVED_V4
    ||| id == EXT_IP_RECEIVED_V6
    ||| id == EXT_MPLS
    ||| id == EXT_MAC_ADDR
    ||| id == EXT_SAMPLER_INFO
    ||| id == EXT_NSEL_X_LATE_PORT
    ||| id == EXT_IN_PAYLOAD
    ||| id == EXT_TUN_V4
    ||| id == EXT_TUN_V6
    ||| id == EXT_LAYER2
}

impl RecordV3View {
    /// The record of which only the header is known.
    pub open spec fn empty(head: RecordHeaderV3) -> RecordV3View {
        RecordV3View {
            head,
            generic_flow: None,
            ipv4_flow: None,
            ipv6_flow: None,
            flow_misc: None,
            cnt_flow: None,
            vlan: None,
            as_routing: None,
            sampler_info: None,
            nsel_xlate_port: None,
            bgp_next_hop_ipv4: None,
            bgp_next_hop_ipv6: None,
            ip_next_hop_ipv4: None,
            ip_next_hop_ipv6: None,
            ip_received_ipv4: None,
            ip_received_ipv6: None,
            in_payload: None,
            mac_address: None,
            layer2: None,
            mpls: None,
            tun_ipv4: None,
            tun_ipv6: None,
        }
    }

    /// The record after a sub-extension with the id `id` and the payload `p`
    /// has been taken in: a known id sets its part anew from the front of `p`,
    /// whatever the part was before, and any other id changes nothing. `None`
    /// where `p` is too short for a known id.
    #[verifier::opaque]
    pub open spec fn with_extension(self, id: u16, p: Seq<u8>) -> Option<RecordV3View> {
        if id == EXT_GENERIC_FLOW {
            if p.len() >= ExGenericFlow::SIZE {
                Some(RecordV3View { generic_flow: Some(ExGenericFlow::of(p)), ..self })
            } else {
                None
            }
        } else if id == EXT_IPV4_FLOW {
            if p.len() >= ExIpv4Flow::SIZE {
                Some(RecordV3View { ipv4_flow: Some(ExIpv4Flow::of(p)), ..self })
            } else {
                None
            }
        } else if id == EXT_IPV6_FLOW {
            if p.len() >= ExIpv6Flow::SIZE {
                Some(RecordV3View { ipv6_flow: Some(ExIpv6Flow::of(p)), ..self })
            } else {
                None
            }
        } else if id == EXT_FLOW_MISC {
            if p.len() >= ExFlowMisc::SIZE {
                Some(RecordV3View { flow_misc: Some(ExFlowMisc::of(p)), ..self })
            } else {
                None
            }
        } else if id == EXT_CNT_FLOW {
            if p.len() >= ExCntFlow::SIZE {
                Some(RecordV3View { cnt_flow: Some(ExCntFlow::of(p)), ..self })
            } else {
                None
            }
        } else if id == EXT_VLAN_FLOW {
            if p.len() >= ExVlan::SIZE {
                Some(RecordV3View { vlan: Some(ExVlan::of(p)), ..self })
            } else {
                None
            }
        } else if id == EXT_AS_ROUTING {
            if p.len() >= ExAsRouting::SIZE {
                Some(RecordV3View { as_routing: Some(ExAsRouting::of(p)), ..self })
            } else {
                None
            }
        } else if id == EXT_SAMPLER_INFO {
            if p.len() >= ExSamplerInfo::SIZE {
                Some(RecordV3View { sampler_info: Some(ExSamplerInfo::of(p)), ..self })
            } else {
                None
            }
        } else if id == EXT_NSEL_X_LATE_PORT {
            if p.len() >= ExNselXLatePort::SIZE {
                Some(RecordV3View { nsel_xlate_port: Some(ExNselXLatePort::of(p)), ..self })
            } else {
                None
            }
        } else if id == EXT_BGP_NEXT_HOP_V4 {
            if p.len() >= ExBgpNextHopIpv4::SIZE {
                Some(RecordV3View { bgp_next_hop_ipv4: Some(ExBgpNextHopIpv4::of(p)), ..self })
            } else {
                None
            }
        } else if id == EXT_BGP_NEXT_HOP_V6 {
            if p.len() >= ExBgpNextHopIpv6::SIZE {
                Some(RecordV3View { bgp_next_hop_ipv6: Some(ExBgpNextHopIpv6::of(p)), ..self })
            } else {
                None
            }
        } else if id == EXT_IP_NEXT_HOP_V4 {
            if p.len() >= ExIpNextHopIpv4::SIZE {
                Some(RecordV3View { ip_next_hop_ipv4: Some(ExIpNextHopIpv4::of(p)), ..self })
            } else {
                None
            }
        } else if id == EXT_IP_NEXT_HOP_V6 {
            if p.len() >= ExIpNextHopIpv6::SIZE {
                Some(RecordV3View { ip_next_hop_ipv6: Some(ExIpNextHopIpv6::of(p)), ..self })
            } else {
                None
            }
        } else if id == EXT_IP_RECEIVED_V4 {
            if p.len() >= ExIpReceivedIpv4::SIZE {
                Some(RecordV3View { ip_received_ipv4: Some(ExIpReceivedIpv4::of(p)), ..self })
            } else {
                None
            }
        } else if id == EXT_IP_RECEIVED_V6 {
            if p.len() >= ExIpReceivedIpv6::SIZE {
                Some(RecordV3View { ip_received_ipv6: Some(ExIpReceivedIpv6::of(p)), ..self })
            } else {
                None
            }
        } else if id == EXT_IN_PAYLOAD {
            Some(RecordV3View { in_payload: Some(p), ..self })
        } else if id == EXT_MAC_ADDR {
            if p.len() >= ExMacAddress::SIZE {
                Some(RecordV3View { mac_address: Some(ExMacAddress::of(p)), ..self })
            } else {
                None
            }
        } else if id == EXT_LAYER2 {
            if p.len() >= ExLayer2::SIZE {
                Some(RecordV3View { layer2: Some(ExLayer2::of(p)), ..self })
            } else {
                None
            }
        } else if id == EXT_MPLS {
            if p.len() >= ExMPLS::SIZE {
                Some(RecordV3View { mpls: Some(ExMPLS::of(p)), ..self })
            } else {
                None
            }
        } else if id == EXT_TUN_V4 {
            if p.len() >= ExTunIpv4::SIZE {
                Some(RecordV3View { tun_ipv4: Some(ExTunIpv4::of(p)), ..self })
            } else {
                None
            }
        } else if id == EXT_TUN_V6 {
            if p.len() >= ExTunIpv6::SIZE {
                Some(RecordV3View { tun_ipv6: Some(ExTunIpv6::of(p)), ..self })
            } else {
                None
            }
        } else {
            Some(self)
        }
    }
}

/// The record that `n` sub-extensions, read one after the other from index
/// `pos` of the payload `d` on, make of `acc`. Each starts with its id and its
/// size, two bytes each; the size counts these four bytes in, and the next
/// sub-extension starts right after that many bytes.
pub open spec fn extensions_from(d: Seq<u8>, pos: int, n: nat, acc: RecordV3View) -> Result<
    RecordV3View,
    NfdumpError,
>
    decreases n,
{
    if n == 0 {
        Ok(acc)
    } else if pos + EXTENSION_HEADER_SIZE > d.len() {
        Err(NfdumpError::IoError(IoFailure::UnexpectedEof))
    } else if u16_at(d, pos + 2) < EXTENSION_HEADER_SIZE {
        Err(NfdumpError::ParseError)
    } else if pos + u16_at(d, pos + 2) > d.len() {
        Err(NfdumpError::IoError(IoFailure::UnexpectedEof))
    } else {
        match acc.with_extension(
            u16_at(d, pos),
            d.subrange(pos + EXTENSION_HEADER_SIZE, pos + u16_at(d, pos + 2)),
        ) {
            Some(next) => extensions_from(d, pos + u16_at(d, pos + 2), (n - 1) as nat, next),
            None => Err(NfdumpError::IoError(IoFailure::UnexpectedEof)),
        }
    }
}

/// What the payload `d` of a self-describing flow record decodes to.
pub open spec fn decode_record_v3(header: NfFileRecordHeader, d: Seq<u8>) -> Result<
    RecordV3View,
    NfdumpError,
> {
    if d.len() < RecordHeaderV3::SIZE {
        Err(NfdumpError::IoError(IoFailure::UnexpectedEof))
    } else {
        extensions_from(
            d,
            RecordHeaderV3::SIZE as int,
            RecordHeaderV3::of(header, d).num_elements as nat,
            RecordV3View::empty(RecordHeaderV3::of(header, d)),
        )
    }
}

/// A sub-extension whose id this library does not decode is passed over by
/// the size it declares, and leaves every part of the record as it was.
pub proof fn lemma_unknown_extension_is_skipped(d: Seq<u8>, pos: int, n: nat, acc: RecordV3View)
    requires
        n > 0,
        0 <= pos,
        pos + EXTENSION_HEADER_SIZE <= d.len(),
        !is_known_extension(u16_at(d, pos)),
        EXTENSION_HEADER_SIZE <= u16_at(d, pos + 2),
        pos + u16_at(d, pos + 2) <= d.len(),
    ensures
        acc.with_extension(
            u16_at(d, pos),
            d.subrange(pos + EXTENSION_HEADER_SIZE, pos + u16_at(d, pos + 2)),
        ) == Some(acc),
        extensions_from(d, pos, n, acc) == extensions_from(
            d,
            pos + u16_at(d, pos + 2),
            (n - 1) as nat,
            acc,
        ),
{
    reveal(RecordV3View::with_extension);
}

/// Whether `count` sub-extensions, read one after the other from index `pos`
/// of `d` on, each lie within `d` and end right at index `end`.
pub open spec fn extensions_end_at(d: Seq<u8>, pos: int, count: nat, end: int) -> bool
    decreases count,
{
    if count == 0 {
        pos == end
    } else {
        &&& 0 <= pos
        &&& pos + EXTENSION_HEADER_SIZE <= end <= d.len()
        &&& EXTENSION_HEADER_SIZE <= u16_at(d, pos + 2)
        &&& pos + u16_at(d, pos + 2) <= end
        &&& extensions_end_at(d, pos + u16_at(d, pos + 2), (count - 1) as nat, end)
    }
}

/// Whether two results of decoding agree in all but the header: both are the
/// same error, or both are records with the same parts.
pub open spec fn same_parts(
    a: Result<RecordV3View, NfdumpError>,
    b: Result<RecordV3View, NfdumpError>,
) -> bool {
    match (a, b) {
        (Ok(x), Ok(y)) => x == (RecordV3View { head: x.head, ..y }),
        (Err(e), Err(f)) => e == f,
        _ => false,
    }
}

/// Taking a sub-extension in does not look at the header, and keeps it.
proof fn lemma_with_extension_keeps_head(
    acc: RecordV3View,
    id: u16,
    p: Seq<u8>,
    head: RecordHeaderV3,
)
    ensures
        match acc.with_extension(id, p) {
            Some(r) => (RecordV3View { head, ..acc }).with_extension(id, p) == Some(
                RecordV3View { head, ..r },
            ),
            None => (RecordV3View { head, ..acc }).with_extension(id, p) is None,
        },
{
    reveal(RecordV3View::with_extension);
}

/// The sub-extensions make the same parts whatever the header is.
proof fn lemma_extensions_keep_head(
    d: Seq<u8>,
    pos: int,
    n: nat,
    acc: RecordV3View,
    head: RecordHeaderV3,
)
    ensures
        match extensions_from(d, pos, n, acc) {
            Ok(r) => extensions_from(d, pos, n, RecordV3View { head, ..acc }) == Ok::<
                RecordV3View,
                NfdumpError,
            >(RecordV3View { head, ..r }),
            Err(e) => extensions_from(d, pos, n, RecordV3View { head, ..acc }) == Err::<
                RecordV3View,
                NfdumpError,
            >(e),
        },
    decreases n,
{
    if n > 0 && pos + EXTENSION_HEADER_SIZE <= d.len() && u16_at(d, pos + 2)
        >= EXTENSION_HEADER_SIZE && pos + u16_at(d, pos + 2) <= d.len() {
        let id = u16_at(d, pos);
        let p = d.subrange(pos + EXTENSION_HEADER_SIZE, pos + u16_at(d, pos + 2));
        lemma_with_extension_keeps_head(acc, id, p, head);
        match acc.with_extension(id, p) {
            Some(next) => {
                lemma_extensions_keep_head(
                    d,
                    pos + u16_at(d, pos + 2),
                    (n - 1) as nat,
                    next,
                    head,
                );
            },
            None => {},
        }
    }
}

/// What sub-extensions make of a record depends on nothing but the bytes
/// from where they start.
proof fn lemma_extensions_depend_on_what_follows(
    d: Seq<u8>,
    i: int,
    e: Seq<u8>,
    j: int,
    n: nat,
    acc: RecordV3View,
)
    requires
        0 <= i <= d.len(),
        0 <= j <= e.len(),
        d.skip(i) == e.skip(j),
    ensures
        extensions_from(d, i, n, acc) == extensions_from(e, j, n, acc),
    decreases n,
{
    let rest_d = d.skip(i);
    let rest_e = e.skip(j);
    assert(d.len() - i == rest_d.len() && e.len() - j == rest_e.len());
    if n > 0 && i + EXTENSION_HEADER_SIZE <= d.len() {
        assert(rest_d[0] == d[i] && rest_d[1] == d[i + 1] && rest_d[2] == d[i + 2] && rest_d[3] == d[i
            + 3]);
        assert(rest_e[0] == e[j] && rest_e[1] == e[j + 1] && rest_e[2] == e[j + 2] && rest_e[3] == e[j
            + 3]);
        let size = u16_at(d, i + 2);
        assert(size == u16_at(e, j + 2));
        assert(u16_at(d, i) == u16_at(e, j));
        if size >= EXTENSION_HEADER_SIZE && i + size <= d.len() {
            assert(d.subrange(i + EXTENSION_HEADER_SIZE, i + size) == rest_d.subrange(
                EXTENSION_HEADER_SIZE as int,
                size as int,
            ));
            assert(e.subrange(j + EXTENSION_HEADER_SIZE, j + size) == rest_e.subrange(
                EXTENSION_HEADER_SIZE as int,
                size as int,
            ));
            assert(d.skip(i + size) == rest_d.skip(size as int));
            assert(e.skip(j + size) == rest_e.skip(size as int));
            match acc.with_extension(
                u16_at(d, i),
                d.subrange(i + EXTENSION_HEADER_SIZE, i + size),
            ) {
                Some(next) => {
                    lemma_extensions_depend_on_what_follows(
                        d,
                        i + size,
                        e,
                        j + size,
                        (n - 1) as nat,
                        next,
                    );
                },
                None => {},
            }
        }
    }
}

/// The payload `d` without the bytes from index `at` up to index `end`.
pub open spec fn without(d: Seq<u8>, at: int, end: int) -> Seq<u8> {
    d.subrange(0, at) + d.skip(end)
}

/// A sub-extension with an unknown id, wherever it stands among the
/// sub-extensions, shifts nothing: one more sub-extension read from the
/// payload with it makes what the others make when read from the payload
/// without it.
pub proof fn lemma_unknown_extension_shifts_nothing(
    d: Seq<u8>,
    pos: int,
    before: nat,
    at: int,
    n: nat,
    acc: RecordV3View,
)
    requires
        extensions_end_at(d, pos, before, at),
        before <= n,
        0 <= pos <= at,
        at + EXTENSION_HEADER_SIZE <= d.len(),
        !is_known_extension(u16_at(d, at)),
        EXTENSION_HEADER_SIZE <= u16_at(d, at + 2),
        at + u16_at(d, at + 2) <= d.len(),
    ensures
        extensions_from(d, pos, n + 1, acc) == extensions_from(
            without(d, at, at + u16_at(d, at + 2)),
            pos,
            n,
            acc,
        ),
    decreases before,
{
    let end = at + u16_at(d, at + 2);
    let w = without(d, at, end);
    if before == 0 {
        lemma_unknown_extension_is_skipped(d, at, n + 1, acc);
        assert(d.skip(end) == w.skip(at));
        lemma_extensions_depend_on_what_follows(d, end, w, at, n, acc);
    } else {
        let size = u16_at(d, pos + 2);
        assert(w[pos] == d[pos] && w[pos + 1] == d[pos + 1] && w[pos + 2] == d[pos + 2] && w[pos
            + 3] == d[pos + 3]);
        assert(u16_at(w, pos) == u16_at(d, pos));
        assert(u16_at(w, pos + 2) == size);
        assert(w.subrange(pos + EXTENSION_HEADER_SIZE, pos + size) == d.subrange(
            pos + EXTENSION_HEADER_SIZE,
            pos + size,
        ));
        match acc.with_extension(
            u16_at(d, pos),
            d.subrange(pos + EXTENSION_HEADER_SIZE, pos + size),
        ) {
            Some(next) => {
                lemma_unknown_extension_shifts_nothing(
                    d,
                    pos + size,
                    (before - 1) as nat,
                    at,
                    (n - 1) as nat,
                    next,
                );
            },
            None => {},
        }
    }
}

/// A record with a sub-extension of an unknown id decodes to the same parts
/// as the record without it. Let the payload `d` count one sub-extension
/// more than `e` does, let `before` sub-extensions of `d` end at index `at`,
/// let an unknown one follow there, and let `e` hold behind its header what
/// `d` holds without that one. Then both decode alike in all but the header:
/// to the same error, or to records with the same parts.
pub proof fn lemma_unknown_extension_leaves_record(
    header: NfFileRecordHeader,
    d: Seq<u8>,
    e: Seq<u8>,
    before: nat,
    at: int,
)
    requires
        d.len() >= RecordHeaderV3::SIZE,
        extensions_end_at(d, RecordHeaderV3::SIZE as int, before, at),
        RecordHeaderV3::SIZE <= at,
        at + EXTENSION_HEADER_SIZE <= d.len(),
        !is_known_extension(u16_at(d, at)),
        EXTENSION_HEADER_SIZE <= u16_at(d, at + 2),
        at + u16_at(d, at + 2) <= d.len(),
        before < u16_at(d, 0),
        u16_at(e, 0) + 1 == u16_at(d, 0),
        e.len() >= RecordHeaderV3::SIZE,
        e.skip(RecordHeaderV3::SIZE as int) == without(d, at, at + u16_at(d, at + 2)).skip(
            RecordHeaderV3::SIZE as int,
        ),
    ensures
        same_parts(decode_record_v3(header, d), decode_record_v3(header, e)),
{
    let start = RecordHeaderV3::SIZE as int;
    let w = without(d, at, at + u16_at(d, at + 2));
    let n = u16_at(e, 0) as nat;
    let head_d = RecordHeaderV3::of(header, d);
    let head_e = RecordHeaderV3::of(header, e);
    let acc = RecordV3View::empty(head_d);
    lemma_unknown_extension_shifts_nothing(d, start, before, at, n, acc);
    lemma_extensions_depend_on_what_follows(w, start, e, start, n, acc);
    lemma_extensions_keep_head(e, start, n, acc, head_e);
    assert(RecordV3View::empty(head_e) == (RecordV3View { head: head_e, ..acc }));
}

/// A known sub-extension sets its part whatever the part held before: of two
/// sub-extensions with the same id, the later one decides.
pub proof fn lemma_later_extension_overwrites(acc: RecordV3View, id: u16, p: Seq<u8>, q: Seq<u8>)
    requires
        acc.with_extension(id, p) is Some,
        acc.with_extension(id, q) is Some,
    ensures
        acc.with_extension(id, p).unwrap().with_extension(id, q) == acc.with_extension(id, q),
{
    reveal(RecordV3View::with_extension);
}

impl RecordV3 {
    /// The record of which only the header is known.
    pub fn empty(head: RecordHeaderV3) -> (r: RecordV3)
        ensures
            r@ == RecordV3View::empty(head),
    {
        RecordV3 {
            head,
            generic_flow: None,
            ipv4_flow: None,
            ipv6_flow: None,
            flow_misc: None,
            cnt_flow: None,
            vlan: None,
            as_routing: None,
            sampler_info: None,
            nsel_xlate_port: None,
            bgp_next_hop_ipv4: None,
            bgp_next_hop_ipv6: None,
            ip_next_hop_ipv4: None,
            ip_next_hop_ipv6: None,
            ip_received_ipv4: None,
            ip_received_ipv6: None,
            in_payload: None,
            mac_address: None,
            layer2: None,
            mpls: None,
            tun_ipv4: None,
            tun_ipv6: None,
        }
    }

    /// Takes in a sub-extension with the id `id` and the payload `payload`. A
    /// known id sets its part anew; a payload too short for it is an error
    /// and leaves the record as it was. Any other id changes nothing.
    pub fn apply_extension(&mut self, id: u16, payload: Vec<u8>) -> (r: Result<(), NfdumpError>)
        ensures
            match old(self)@.with_extension(id, payload@) {
                Some(v) => r is Ok && final(self)@ == v,
                None => r == Err::<(), NfdumpError>(NfdumpError::IoError(IoFailure::UnexpectedEof))
                    && final(self)@ == old(self)@,
            },
    {
        reveal(RecordV3View::with_extension);
        let p = payload.as_slice();
        if id == EXT_GENERIC_FLOW {
            match ExGenericFlow::read(p) {
                Some(part) => {
                    self.generic_flow = Some(part);
                },
                None => {
                    return Err(NfdumpError::IoError(IoFailure::UnexpectedEof));
                },
            }
        } else if id == EXT_IPV4_FLOW {
            match ExIpv4Flow::read(p) {
                Some(part) => {
                    self.ipv4_flow = Some(part);
                },
                None => {
                    return Err(NfdumpError::IoError(IoFailure::UnexpectedEof));
                },
            }
        } else if id == EXT_IPV6_FLOW {
            match ExIpv6Flow::read(p) {
                Some(part) => {
                    self.ipv6_flow = Some(part);
                },
                None => {
                    return Err(NfdumpError::IoError(IoFailure::UnexpectedEof));
                },
            }
        } else if id == EXT_FLOW_MISC {
            match ExFlowMisc::read(p) {
                Some(part) => {
                    self.flow_misc = Some(part);
                },
                None => {
                    return Err(NfdumpError::IoError(IoFailure::UnexpectedEof));
                },
            }
        } else if id == EXT_CNT_FLOW {
            match ExCntFlow::read(p) {
                Some(part) => {
                    self.cnt_flow = Some(part);
                },
                None => {
                    return Err(NfdumpError::IoError(IoFailure::UnexpectedEof));
                },
            }
        } else if id == EXT_VLAN_FLOW {
            match ExVlan::read(p) {
                Some(part) => {
                    self.vlan = Some(part);
                },
                None => {
                    return Err(NfdumpError::IoError(IoFailure::UnexpectedEof));
                },
            }
        } else if id == EXT_AS_ROUTING {
            match ExAsRouting::read(p) {
                Some(part) => {
                    self.as_routing = Some(part);
                },
                None => {
                    return Err(NfdumpError::IoError(IoFailure::UnexpectedEof));
                },
            }
        } else if id == EXT_SAMPLER_INFO {
            match ExSamplerInfo::read(p) {
                Some(part) => {
                    self.sampler_info = Some(part);
                },
                None => {
                    return Err(NfdumpError::IoError(IoFailure::UnexpectedEof));
                },
            }
        } else if id == EXT_NSEL_X_LATE_PORT {
            match ExNselXLatePort::read(p) {
                Some(part) => {
                    self.nsel_xlate_port = Some(part);
                },
                None => {
                    return Err(NfdumpError::IoError(IoFailure::UnexpectedEof));
                },
            }
        } else if id == EXT_BGP_NEXT_HOP_V4 {
            match ExBgpNextHopIpv4::read(p) {
                Some(part) => {
                    self.bgp_next_hop_ipv4 = Some(part);
                },
                None => {
                    return Err(NfdumpError::IoError(IoFailure::UnexpectedEof));
                },
            }
        } else if id == EXT_BGP_NEXT_HOP_V6 {
            match ExBgpNextHopIpv6::read(p) {
                Some(part) => {
                    self.bgp_next_hop_ipv6 = Some(part);
                },
                None => {
                    return Err(NfdumpError::IoError(IoFailure::UnexpectedEof));
                },
            }
        } else if id == EXT_IP_NEXT_HOP_V4 {
            match ExIpNextHopIpv4::read(p) {
                Some(part) => {
                    self.ip_next_hop_ipv4 = Some(part);
                },
                None => {
                    return Err(NfdumpError::IoError(IoFailure::UnexpectedEof));
                },
            }
        } else if id == EXT_IP_NEXT_HOP_V6 {
            match ExIpNextHopIpv6::read(p) {
                Some(part) => {
                    self.ip_next_hop_ipv6 = Some(part);
                },
                None => {
                    return Err(NfdumpError::IoError(IoFailure::UnexpectedEof));
                },
            }
        } else if id == EXT_IP_RECEIVED_V4 {
            match ExIpReceivedIpv4::read(p) {
                Some(part) => {
                    self.ip_received_ipv4 = Some(part);
                },
                None => {
                    return Err(NfdumpError::IoError(IoFailure::UnexpectedEof));
                },
            }
        } else if id == EXT_IP_RECEIVED_V6 {
            match ExIpReceivedIpv6::read(p) {
                Some(part) => {
                    self.ip_received_ipv6 = Some(part);
                },
                None => {
                    return Err(NfdumpError::IoError(IoFailure::UnexpectedEof));
                },
            }
        } else if id == EXT_IN_PAYLOAD {
            self.in_payload = Some(payload);
        } else if id == EXT_MAC_ADDR {
            match ExMacAddress::read(p) {
                Some(part) => {
                    self.mac_address = Some(part);
                },
                None => {
                    return Err(NfdumpError::IoError(IoFailure::UnexpectedEof));
                },
            }
        } else if id == EXT_LAYER2 {
            match ExLayer2::read(p) {
                Some(part) => {
                    self.layer2 = Some(part);
                },
                None => {
                    return Err(NfdumpError::IoError(IoFailure::UnexpectedEof));
                },
            }
        } else if id == EXT_MPLS {
            match ExMPLS::read(p) {
                Some(part) => {
                    self.mpls = Some(part);
                },
                None => {
                    return Err(NfdumpError::IoError(IoFailure::UnexpectedEof));
                },
            }
        } else if id == EXT_TUN_V4 {
            match ExTunIpv4::read(p) {
                Some(part) => {
                    self.tun_ipv4 = Some(part);
                },
                None => {
                    return Err(NfdumpError::IoError(IoFailure::UnexpectedEof));
                },
            }
        } else if id == EXT_TUN_V6 {
            match ExTunIpv6::read(p) {
                Some(part) => {
                    self.tun_ipv6 = Some(part);
                },
                None => {
                    return Err(NfdumpError::IoError(IoFailure::UnexpectedEof));
                },
            }
        }
        Ok(())
    }

    /// Decodes a self-describing flow record from its payload `data`: the
    /// header, then as many sub-extensions as the header counts.
    pub fn new(header: NfFileRecordHeader, data: Vec<u8>) -> (r: Result<RecordV3, NfdumpError>)
        ensures
            match decode_record_v3(header, data@) {
                Ok(v) => r matches Ok(record) && record@ == v,
                Err(e) => r matches Err(x) && x == e,
            },
    {
        let head = match RecordHeaderV3::read(header, data.as_slice()) {
            Some(head) => head,
            None => {
                return Err(NfdumpError::IoError(IoFailure::UnexpectedEof));
            },
        };
        let ghost d = data@;
        let mut record = RecordV3::empty(head);
        let mut cursor = ByteCursor::new(data);
        cursor.skip(RecordHeaderV3::SIZE);
        let mut cnt: u16 = 0;
        while cnt < head.num_elements
            invariant
                cursor.bytes() == d,
                0 <= cursor.position() <= d.len(),
                cnt <= head.num_elements,
                d == data@,
                d.len() >= RecordHeaderV3::SIZE,
                head == RecordHeaderV3::of(header, d),
                extensions_from(
                    d,
                    cursor.position() as int,
                    (head.num_elements - cnt) as nat,
                    record@,
                ) == extensions_from(
                    d,
                    RecordHeaderV3::SIZE as int,
                    head.num_elements as nat,
                    RecordV3View::empty(head),
                ),
            decreases head.num_elements - cnt,
        {
            let id = match cursor.read_u16() {
                Some(id) => id,
                None => {
                    return Err(NfdumpError::IoError(IoFailure::UnexpectedEof));
                },
            };
            let size = match cursor.read_u16() {
                Some(size) => size,
                None => {
                    return Err(NfdumpError::IoError(IoFailure::UnexpectedEof));
                },
            };
            if (size as usize) < EXTENSION_HEADER_SIZE {
                return Err(NfdumpError::ParseError);
            }
            let payload = match cursor.read_exact(size as usize - EXTENSION_HEADER_SIZE) {
                Some(payload) => payload,
                None => {
                    return Err(NfdumpError::IoError(IoFailure::UnexpectedEof));
                },
            };
            match record.apply_extension(id, payload) {
                Ok(()) => {},
                Err(e) => {
                    return Err(e);
                },
            }
            cnt = cnt + 1;
        }
        Ok(record)
    }
}

} // verus!
