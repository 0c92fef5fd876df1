//! Building the attribute that says which entries to delete.

use vstd::prelude::*;
use crate::attribute::{make_attribute, Attribute, AttributeView};
use crate::error::DecodeError;
use crate::codes::{
    CTA_IP_V4_DST, CTA_IP_V4_SRC, CTA_IP_V6_DST, CTA_IP_V6_SRC, CTA_PROTO_NUM, CTA_TUPLE_IP,
    CTA_TUPLE_ORIG, CTA_TUPLE_PROTO, CTA_TUPLE_REPLY, PROTO_NUM_LEN,
};
use crate::codec::spec_decode;
use crate::flow::{spec_decode_address, spec_decode_protocol};
use crate::laws::{
    lemma_decode_encode, lemma_decode_encode_single, lemma_encode_pair, lemma_encoded_len,
    lemma_find_single,
};
use crate::model::{IpAddress, IpAddressView};

verus! {

/// A request to delete the entries with a given protocol and address.
#[derive(Clone, Copy, Debug, PartialEq, Eq)]
pub struct Command {
    /// The transport protocol, by its number.
    pub protocol: u8,
    /// The address to look for.
    pub address: IpAddress,
    /// Whether the address is the source of the original direction (`true`)
    /// or the destination of the reply direction (`false`).
    pub is_source: bool,
}

/// The type code under which an address stands in a tuple: by family and by
/// whether it is the source or the destination.
pub open spec fn spec_address_code(address: IpAddressView, is_source: bool) -> u16 {
    match address {
        IpAddressView::V4(_) => if is_source {
            CTA_IP_V4_SRC
        } else {
            CTA_IP_V4_DST
        },
        IpAddressView::V6(_) => if is_source {
            CTA_IP_V6_SRC
        } else {
            CTA_IP_V6_DST
        },
    }
}

/// The scalar attribute that holds the bytes of the address.
pub open spec fn spec_address_attribute(address: IpAddressView, is_source: bool) -> AttributeView {
    AttributeView {
        type_code: spec_address_code(address, is_source),
        is_nested: false,
        is_network_order: false,
        payload: address.octets(),
    }
}

/// The nested attribute that holds the address attribute.
pub open spec fn spec_ip_tuple(address: IpAddressView, is_source: bool) -> AttributeView {
    AttributeView {
        type_code: CTA_TUPLE_IP,
        is_nested: true,
        is_network_order: false,
        payload: spec_address_attribute(address, is_source).encode(),
    }
}

/// The scalar attribute that holds the protocol number as a 32-bit
/// little-endian integer: four bytes, the number in the first and zero in the
/// others.
pub open spec fn spec_protocol_attribute(protocol: u8) -> AttributeView {
    AttributeView {
        type_code: CTA_PROTO_NUM,
        is_nested: false,
        is_network_order: false,
        payload: seq![protocol, 0u8, 0u8, 0u8],
    }
}

/// The nested attribute that holds the protocol-number attribute.
pub open spec fn spec_proto_tuple(protocol: u8) -> AttributeView {
    AttributeView {
        type_code: CTA_TUPLE_PROTO,
        is_nested: true,
        is_network_order: false,
        payload: spec_protocol_attribute(protocol).encode(),
    }
}

/// The top-level attribute of a delete request: the original tuple for a
/// source address, the reply tuple for a destination address. Its payload is
/// the address tuple followed by the protocol tuple.
pub open spec fn spec_build_delete(protocol: u8, address: IpAddressView, is_source: bool) -> AttributeView {
    AttributeView {
        type_code: if is_source {
            CTA_TUPLE_ORIG
        } else {
            CTA_TUPLE_REPLY
        },
        is_nested: true,
        is_network_order: false,
        payload: spec_ip_tuple(address, is_source).encode() + spec_proto_tuple(protocol).encode(),
    }
}

/// Builds the nested attribute that holds the address.
fn address_tuple(address: &IpAddress, is_source: bool) -> (r: Attribute)
    ensures
        r@ == spec_ip_tuple(address@, is_source),
{
    let code = match address {
        IpAddress::V4(_) => if is_source {
            CTA_IP_V4_SRC
        } else {
            CTA_IP_V4_DST
        },
        IpAddress::V6(_) => if is_source {
            CTA_IP_V6_SRC
        } else {
            CTA_IP_V6_DST
        },
    };
    proof {
        lemma_encoded_len(spec_address_attribute(address@, is_source));
    }
    let scalar = make_attribute(code, false, address.octets()).unwrap();
    make_attribute(CTA_TUPLE_IP, true, scalar).unwrap()
}

/// Builds the nested attribute that holds the protocol number.
fn protocol_tuple(protocol: u8) -> (r: Attribute)
    ensures
        r@ == spec_proto_tuple(protocol),
{
    let mut number: Vec<u8> = Vec::with_capacity(PROTO_NUM_LEN);
    number.push(protocol);
    number.push(0u8);
    number.push(0u8);
    number.push(0u8);
    assert(number@ == seq![protocol, 0u8, 0u8, 0u8]);
    proof {
        lemma_encoded_len(spec_protocol_attribute(protocol));
    }
    let scalar = make_attribute(CTA_PROTO_NUM, false, number).unwrap();
    make_attribute(CTA_TUPLE_PROTO, true, scalar).unwrap()
}

/// Builds the top-level attribute of a request to delete the entries with
/// the given protocol and address. For a source address it is an original
/// tuple, for a destination address a reply tuple. It holds, in this order, a
/// nested attribute with the address and a nested attribute with the protocol
/// number.
pub fn build_delete(protocol: u8, address: &IpAddress, is_source: bool) -> (r: Attribute)
    ensures
        r@ == spec_build_delete(protocol, address@, is_source),
{
    let code = if is_source {
        CTA_TUPLE_ORIG
    } else {
        CTA_TUPLE_REPLY
    };
    let addresses = address_tuple(address, is_source);
    let proto = protocol_tuple(protocol);
    proof {
        lemma_encoded_len(spec_address_attribute(address@, is_source));
        lemma_encoded_len(spec_protocol_attribute(protocol));
        lemma_encoded_len(addresses@);
        lemma_encoded_len(proto@);
    }
    let top = make_attribute(code, true, addresses).unwrap();
    top.nest(&proto).unwrap()
}

impl Command {
    /// The top-level attribute that asks for this deletion.
    pub fn attribute(&self) -> (r: Attribute)
        ensures
            r@ == spec_build_delete(self.protocol, self.address@, self.is_source),
    {
        build_delete(self.protocol, &self.address, self.is_source)
    }
}

/// A delete attribute and everything inside it can be encoded, and its
/// encoding is twenty-eight bytes for an IPv4 address and forty for an IPv6
/// address.
pub proof fn lemma_build_delete_valid(protocol: u8, address: IpAddress, is_source: bool)
    ensures
        spec_address_attribute(address@, is_source).valid(),
        spec_ip_tuple(address@, is_source).valid(),
        spec_protocol_attribute(protocol).valid(),
        spec_proto_tuple(protocol).valid(),
        spec_build_delete(protocol, address@, is_source).valid(),
        spec_build_delete(protocol, address@, is_source).encode().len() == (if address is V4 {
            28nat
        } else {
            40nat
        }),
{
    lemma_encoded_len(spec_address_attribute(address@, is_source));
    lemma_encoded_len(spec_ip_tuple(address@, is_source));
    lemma_encoded_len(spec_protocol_attribute(protocol));
    lemma_encoded_len(spec_proto_tuple(protocol));
    lemma_encoded_len(spec_build_delete(protocol, address@, is_source));
}

/// Decoding the encoding of a delete attribute, level by level, gives back
/// what it was built from: the attribute itself with its type code and
/// nesting flag; inside it the address tuple and then the protocol tuple;
/// inside those the address attribute with the bytes of the address, and the
/// protocol attribute with the protocol number.
pub proof fn lemma_build_delete_round_trip(protocol: u8, address: IpAddress, is_source: bool)
    ensures
        spec_decode(spec_build_delete(protocol, address@, is_source).encode()) == Some(
            seq![spec_build_delete(protocol, address@, is_source)],
        ),
        spec_decode(spec_build_delete(protocol, address@, is_source).payload) == Some(
            seq![spec_ip_tuple(address@, is_source), spec_proto_tuple(protocol)],
        ),
        spec_decode(spec_ip_tuple(address@, is_source).payload) == Some(
            seq![spec_address_attribute(address@, is_source)],
        ),
        spec_decode(spec_proto_tuple(protocol).payload) == Some(
            seq![spec_protocol_attribute(protocol)],
        ),
{
    lemma_build_delete_valid(protocol, address, is_source);
    lemma_decode_encode_single(spec_build_delete(protocol, address@, is_source));
    lemma_decode_encode_single(spec_address_attribute(address@, is_source));
    lemma_decode_encode_single(spec_protocol_attribute(protocol));
    lemma_encode_pair(spec_ip_tuple(address@, is_source), spec_proto_tuple(protocol));
    lemma_decode_encode(seq![spec_ip_tuple(address@, is_source), spec_proto_tuple(protocol)]);
}

/// Read as the protocol part of a tuple would be, the protocol tuple of a
/// delete attribute gives the protocol number that it was built from.
pub proof fn lemma_protocol_reads_back(protocol: u8)
    ensures
        spec_decode_protocol(spec_proto_tuple(protocol).payload) == Ok::<u8, DecodeError>(protocol),
{
    let scalar = spec_protocol_attribute(protocol);
    assert(scalar.valid());
    lemma_decode_encode_single(scalar);
    lemma_find_single(scalar, CTA_PROTO_NUM);
}

/// Read as the address part of a tuple would be, the address tuple of a
/// delete attribute gives the address that it was built from: as a source
/// where it was given as a source, else as a destination.
pub proof fn lemma_address_reads_back(address: IpAddress, is_source: bool)
    ensures
        spec_decode(spec_ip_tuple(address@, is_source).payload) is Some,
        spec_decode_address(
            spec_decode(spec_ip_tuple(address@, is_source).payload)->Some_0,
            if is_source {
                CTA_IP_V4_SRC
            } else {
                CTA_IP_V4_DST
            },
            if is_source {
                CTA_IP_V6_SRC
            } else {
                CTA_IP_V6_DST
            },
        ) == Ok::<IpAddressView, DecodeError>(address@),
{
    let scalar = spec_address_attribute(address@, is_source);
    assert(scalar.valid());
    lemma_decode_encode_single(scalar);
    lemma_find_single(scalar, CTA_IP_V4_SRC);
    lemma_find_single(scalar, CTA_IP_V4_DST);
    lemma_find_single(scalar, CTA_IP_V6_SRC);
    lemma_find_single(scalar, CTA_IP_V6_DST);
}

} // verus!
