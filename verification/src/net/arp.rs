//! The ARP body codec: fixed-width fields in network byte order.

use vstd::prelude::*;

use crate::error::Error;
use crate::net::Ipv4Address;
use crate::net::MacAddress;

verus! {

/// Length in bytes of an ARP body over Ethernet and IPv4.
pub const ARP_LEN: usize = 28;

/// A decoded ARP body.
#[derive(Clone, Copy, PartialEq, Eq, Debug)]
pub struct Arp {
    pub hardware_ty: [u8; 2],
    pub protocol_ty: [u8; 2],
    pub hardware_len: u8,
    pub protocol_len: u8,
    pub operand: u16,
    pub src_mac: MacAddress,
    pub src_ip: Ipv4Address,
    pub dst_mac: MacAddress,
    pub dst_ip: Ipv4Address,
}

/// Field-by-field correspondence of a decoded ARP body with its 28 bytes:
/// the operation is big-endian, the addresses are fixed byte arrays.
pub open spec fn arp_matches(a: Arp, b: Seq<u8>) -> bool {
    &&& b.len() >= ARP_LEN
    &&& a.hardware_ty@ == b.subrange(0, 2)
    &&& a.protocol_ty@ == b.subrange(2, 4)
    &&& a.hardware_len == b[4]
    &&& a.protocol_len == b[5]
    &&& a.operand == b[6] * 256 + b[7]
    &&& a.src_mac@ == b.subrange(8, 14)
    &&& a.src_ip@ == b.subrange(14, 18)
    &&& a.dst_mac@ == b.subrange(18, 24)
    &&& a.dst_ip@ == b.subrange(24, 28)
}

impl Arp {
    /// Parse a 28-byte ARP body; fails exactly when fewer than 28 bytes
    /// are supplied.
    pub fn deserialise(buffer: &[u8]) -> (r: Result<Arp, Error>)
        ensures
            r is Ok <==> buffer@.len() >= ARP_LEN,
            r matches Ok(a) ==> arp_matches(a, buffer@),
    {
        if buffer.len() < ARP_LEN {
            return Err(Error::CouldNotParsePacket);
        }
        let hardware_ty = [buffer[0], buffer[1]];
        let protocol_ty = [buffer[2], buffer[3]];
        let hardware_len = buffer[4];
        let protocol_len = buffer[5];
        let operand = (buffer[6] as u16) * 256 + (buffer[7] as u16);
        let src_mac = MacAddress(
            [buffer[8], buffer[9], buffer[10], buffer[11], buffer[12], buffer[13]],
        );
        let src_ip = Ipv4Address([buffer[14], buffer[15], buffer[16], buffer[17]]);
        let dst_mac = MacAddress(
            [buffer[18], buffer[19], buffer[20], buffer[21], buffer[22], buffer[23]],
        );
        let dst_ip = Ipv4Address([buffer[24], buffer[25], buffer[26], buffer[27]]);
        let a = Arp {
            hardware_ty,
            protocol_ty,
            hardware_len,
            protocol_len,
            operand,
            src_mac,
            src_ip,
            dst_mac,
            dst_ip,
        };
        proof {
            assert(a.hardware_ty@ =~= buffer@.subrange(0, 2));
            assert(a.protocol_ty@ =~= buffer@.subrange(2, 4));
            assert(a.src_mac@ =~= buffer@.subrange(8, 14));
            assert(a.src_ip@ =~= buffer@.subrange(14, 18));
            assert(a.dst_mac@ =~= buffer@.subrange(18, 24));
            assert(a.dst_ip@ =~= buffer@.subrange(24, 28));
        }
        Ok(a)
    }
}

} // verus!
