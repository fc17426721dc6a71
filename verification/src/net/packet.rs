//! The Ethernet II frame codec: a fixed 14-byte header parse and the
//! dispatch on its type field.

use vstd::prelude::*;

use crate::error::Error;
use crate::net::MacAddress;
use crate::net::arp::Arp;
use crate::net::arp::arp_matches;
use crate::net::arp::ARP_LEN;

verus! {

/// Length in bytes of the Ethernet II header.
pub const ETHERNET_LEN: usize = 14;

/// The closed set of frame types the codec distinguishes; an unrecognized
/// type field is preserved, not rejected.
#[derive(Clone, Copy, PartialEq, Eq, Debug)]
pub enum EtherType {
    /// 0x0800
    IPv4,
    /// 0x0806
    Arp,
    /// 0x86DD
    IPv6,
    /// 0x88E1
    HomePlugAV,
    /// Unsupported type field, kept as its two raw bytes.
    Unknown([u8; 2]),
}

/// The frame type the two big-endian type bytes name.
pub open spec fn ether_type_of(b0: u8, b1: u8) -> EtherType {
    if b0 == 0x08 && b1 == 0x00 {
        EtherType::IPv4
    } else if b0 == 0x08 && b1 == 0x06 {
        EtherType::Arp
    } else if b0 == 0x86 && b1 == 0xDD {
        EtherType::IPv6
    } else if b0 == 0x88 && b1 == 0xE1 {
        EtherType::HomePlugAV
    } else {
        EtherType::Unknown([b0, b1])
    }
}

impl From<[u8; 2]> for EtherType {
    fn from(value: [u8; 2]) -> (r: Self) {
        if value[0] == 0x08 && value[1] == 0x00 {
            Self::IPv4
        } else if value[0] == 0x08 && value[1] == 0x06 {
            Self::Arp
        } else if value[0] == 0x86 && value[1] == 0xDD {
            Self::IPv6
        } else if value[0] == 0x88 && value[1] == 0xE1 {
            Self::HomePlugAV
        } else {
            proof {
                vstd::array::axiom_array_ext_equal::<u8, 2>([value[0], value[1]], value);
                assert([value[0], value[1]] =~= value);
            }
            Self::Unknown(value)
        }
    }
}

impl vstd::std_specs::convert::FromSpecImpl<[u8; 2]> for EtherType {
    open spec fn obeys_from_spec() -> bool {
        true
    }

    open spec fn from_spec(value: [u8; 2]) -> Self {
        ether_type_of(value[0], value[1])
    }
}

/// The Ethernet II header: destination, source, type.
#[derive(Clone, Copy, PartialEq, Eq, Debug)]
pub struct Ethernet {
    pub dst_mac: MacAddress,
    pub src_mac: MacAddress,
    pub ether_type: EtherType,
}

/// Field-by-field correspondence of a parsed header with the first 14
/// bytes of a frame.
pub open spec fn ethernet_matches(e: Ethernet, b: Seq<u8>) -> bool {
    &&& b.len() >= ETHERNET_LEN
    &&& e.dst_mac@ == b.subrange(0, 6)
    &&& e.src_mac@ == b.subrange(6, 12)
    &&& e.ether_type == ether_type_of(b[12], b[13])
}

impl Ethernet {
    /// Parse the fixed 14-byte prefix; fails exactly when fewer than 14
    /// bytes are supplied.
    pub fn deserialise(buffer: &[u8]) -> (r: Result<Ethernet, Error>)
        ensures
            r is Ok <==> buffer@.len() >= ETHERNET_LEN,
            r matches Ok(e) ==> ethernet_matches(e, buffer@),
    {
        if buffer.len() < ETHERNET_LEN {
            return Err(Error::CouldNotParsePacket);
        }
        let dst_mac = MacAddress(
            [buffer[0], buffer[1], buffer[2], buffer[3], buffer[4], buffer[5]],
        );
        let src_mac = MacAddress(
            [buffer[6], buffer[7], buffer[8], buffer[9], buffer[10], buffer[11]],
        );
        let ether_type = EtherType::from([buffer[12], buffer[13]]);
        proof {
            assert(dst_mac@ =~= buffer@.subrange(0, 6));
            assert(src_mac@ =~= buffer@.subrange(6, 12));
        }
        Ok(Ethernet { dst_mac, src_mac, ether_type })
    }
}

/// The payload protocols the codec decodes.
#[derive(Clone, Copy, PartialEq, Eq, Debug)]
pub enum Protocol {
    Arp(Arp),
}

/// A decoded frame: the Ethernet header and its decoded payload.
#[derive(Clone, Copy, PartialEq, Eq, Debug)]
pub struct Packet {
    pub ethernet: Ethernet,
    pub protocol: Protocol,
}

/// Whether a frame's bytes decode at the top level: a full Ethernet
/// header, a type field naming a protocol the codec knows (only ARP), and
/// a full payload of that protocol.
pub open spec fn packet_parses(b: Seq<u8>) -> bool {
    &&& b.len() >= ETHERNET_LEN
    &&& ether_type_of(b[12], b[13]) == EtherType::Arp
    &&& b.len() >= ETHERNET_LEN + ARP_LEN
}

/// Field-by-field correspondence of a decoded frame with its bytes.
pub open spec fn packet_matches(p: Packet, b: Seq<u8>) -> bool {
    &&& packet_parses(b)
    &&& ethernet_matches(p.ethernet, b)
    &&& p.protocol matches Protocol::Arp(a) && arp_matches(
        a,
        b.subrange(ETHERNET_LEN as int, (ETHERNET_LEN + ARP_LEN) as int),
    )
}

impl Packet {
    /// Decode a received frame: parse the Ethernet prefix, then dispatch
    /// on its type field. Any frame the codec cannot decode — too short, a
    /// type other than ARP, or a truncated ARP body — yields the distinct
    /// could-not-parse failure, never a crash, and the caller drops the
    /// frame and continues.
    pub fn deserialise(buffer: &[u8]) -> (r: Result<Packet, Error>)
        ensures
            r is Ok <==> packet_parses(buffer@),
            r matches Ok(p) ==> packet_matches(p, buffer@),
            r matches Err(e) ==> e == Error::CouldNotParsePacket,
    {
        let ethernet = match Ethernet::deserialise(buffer) {
            Ok(e) => e,
            Err(_) => {
                return Err(Error::CouldNotParsePacket);
            },
        };

        match ethernet.ether_type {
            EtherType::Arp => {
                if buffer.len() < ETHERNET_LEN + ARP_LEN {
                    return Err(Error::CouldNotParsePacket);
                }
                let body = vstd::slice::slice_subrange(buffer, ETHERNET_LEN, ETHERNET_LEN + ARP_LEN);
                let arp = match Arp::deserialise(body) {
                    Ok(a) => a,
                    Err(_) => {
                        return Err(Error::CouldNotParsePacket);
                    },
                };
                Ok(Packet { ethernet, protocol: Protocol::Arp(arp) })
            },
            _ => Err(Error::CouldNotParsePacket),
        }
    }
}

} // verus!
