//! The numbers of the conntrack protocol: attribute type codes at each
//! level, message types and flags.

use vstd::prelude::*;

verus! {

/// Top level: the tuple of the direction in which the connection was opened.
pub const CTA_TUPLE_ORIG: u16 = 1;

/// Top level: the tuple of the answers.
pub const CTA_TUPLE_REPLY: u16 = 2;

/// Top level: the status bits of the connection.
pub const CTA_STATUS: u16 = 3;

/// Top level: the seconds until the entry expires.
pub const CTA_TIMEOUT: u16 = 7;

/// Inside a tuple: the addresses.
pub const CTA_TUPLE_IP: u16 = 1;

/// Inside a tuple: the transport protocol.
pub const CTA_TUPLE_PROTO: u16 = 2;

/// Inside the addresses of a tuple: the IPv4 source address.
pub const CTA_IP_V4_SRC: u16 = 1;

/// Inside the addresses of a tuple: the IPv4 destination address.
pub const CTA_IP_V4_DST: u16 = 2;

/// Inside the addresses of a tuple: the IPv6 source address.
pub const CTA_IP_V6_SRC: u16 = 3;

/// Inside the addresses of a tuple: the IPv6 destination address.
pub const CTA_IP_V6_DST: u16 = 4;

/// Inside the transport protocol of a tuple: the protocol number.
pub const CTA_PROTO_NUM: u16 = 1;

/// The number of bytes in an IPv4 address.
pub const IPV4_LEN: usize = 4;

/// The number of bytes in an IPv6 address.
pub const IPV6_LEN: usize = 16;

/// The number of bytes in the payload that holds a protocol number.
pub const PROTO_NUM_LEN: usize = 4;

/// Message type: read entries of the conntrack table.
pub const MSG_CT_GET: u16 = 0x0101;

/// Message type: delete entries of the conntrack table.
pub const MSG_CT_DELETE: u16 = 0x0102;

/// Request flag: answer with an acknowledgement.
pub const NLM_F_ACK: u16 = 0x0004;

/// Request flag: apply to every entry that matches.
pub const NLM_F_MATCH: u16 = 0x0200;

/// Request flag: return the whole table.
pub const NLM_F_DUMP: u16 = 0x0300;

/// The number of bytes in the netfilter header that stands before the
/// attributes of a message: family, version and a 16-bit resource id.
pub const NFGEN_HEADER_LEN: usize = 4;

/// The version of the netfilter netlink protocol.
pub const NFNETLINK_V0: u8 = 0;

/// Address family: none.
pub const AF_UNSPEC: u8 = 0;

/// Address family: IPv4.
pub const AF_INET: u8 = 2;

} // verus!
