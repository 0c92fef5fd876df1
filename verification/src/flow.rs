//! From the attributes of a dumped entry to a flow.
//!
//! An entry holds its two tuples as nested attributes at the top level. Each
//! tuple holds its addresses in one nested attribute and its transport
//! protocol in another. Attributes with other type codes are passed over at
//! every level.

use vstd::prelude::*;
use crate::attribute::{spec_encode_all, AttributeView, MAX_TYPE_CODE};
use crate::codec::{decode, spec_decode, spec_find, AttributeTree};
use crate::codes::{
    CTA_IP_V4_DST, CTA_IP_V4_SRC, CTA_IP_V6_DST, CTA_IP_V6_SRC, CTA_PROTO_NUM, CTA_TUPLE_IP,
    CTA_TUPLE_ORIG, CTA_TUPLE_PROTO, CTA_TUPLE_REPLY, IPV4_LEN, IPV6_LEN, PROTO_NUM_LEN,
};
use crate::error::DecodeError;
use crate::command::{
    lemma_protocol_reads_back, spec_address_attribute, spec_proto_tuple, spec_protocol_attribute,
};
use crate::laws::{
    lemma_decode_encode, lemma_encode_pair, lemma_encoded_len, lemma_find_ignores_others,
    lemma_find_pair,
};
use crate::model::{Flow, FlowView, IpAddress, IpAddressView, Tuple, TupleView};

verus! {

/// The address that a level of attributes holds: the payload of the first
/// attribute with the IPv4 type code where there is one, else that of the first
/// with the IPv6 type code. Which of the two is there decides the family. The
/// payload must be as long as an address of its family.
pub open spec fn spec_decode_address(attrs: Seq<AttributeView>, v4_code: u16, v6_code: u16) -> Result<
    IpAddressView,
    DecodeError,
> {
    match spec_find(attrs, v4_code) {
        Some(attr) => if attr.payload.len() == IPV4_LEN {
            Ok(IpAddressView::V4(attr.payload))
        } else {
            Err(DecodeError::MalformedTuple)
        },
        None => match spec_find(attrs, v6_code) {
            Some(attr) => if attr.payload.len() == IPV6_LEN {
                Ok(IpAddressView::V6(attr.payload))
            } else {
                Err(DecodeError::MalformedTuple)
            },
            None => Err(DecodeError::MalformedTuple),
        },
    }
}

/// Source and destination address of a tuple, from the payload of its
/// address attribute.
pub open spec fn spec_decode_addresses(payload: Seq<u8>) -> Result<
    (IpAddressView, IpAddressView),
    DecodeError,
> {
    match spec_decode(payload) {
        None => Err(DecodeError::MalformedTuple),
        Some(attrs) => match spec_decode_address(attrs, CTA_IP_V4_SRC, CTA_IP_V6_SRC) {
            Err(e) => Err(e),
            Ok(source) => match spec_decode_address(attrs, CTA_IP_V4_DST, CTA_IP_V6_DST) {
                Err(e) => Err(e),
                Ok(destination) => Ok((source, destination)),
            },
        },
    }
}

/// The protocol number of a tuple, from the payload of its protocol
/// attribute. The protocol-number attribute holds a 32-bit little-endian
/// integer; the number is its low byte, the first of the four.
pub open spec fn spec_decode_protocol(payload: Seq<u8>) -> Result<u8, DecodeError> {
    match spec_decode(payload) {
        None => Err(DecodeError::MalformedTuple),
        Some(attrs) => match spec_find(attrs, CTA_PROTO_NUM) {
            None => Err(DecodeError::MalformedTuple),
            Some(attr) => if attr.payload.len() == PROTO_NUM_LEN {
                Ok(attr.payload[0])
            } else {
                Err(DecodeError::MalformedTuple)
            },
        },
    }
}

/// A tuple, from the payload of a tuple attribute.
pub open spec fn spec_decode_tuple(payload: Seq<u8>) -> Result<TupleView, DecodeError> {
    match spec_decode(payload) {
        None => Err(DecodeError::MalformedTuple),
        Some(attrs) => match (spec_find(attrs, CTA_TUPLE_IP), spec_find(attrs, CTA_TUPLE_PROTO)) {
            (Some(ip), Some(proto)) => match spec_decode_addresses(ip.payload) {
                Err(e) => Err(e),
                Ok((source, destination)) => match spec_decode_protocol(proto.payload) {
                    Err(e) => Err(e),
                    Ok(protocol) => Ok(TupleView { protocol, source, destination }),
                },
            },
            _ => Err(DecodeError::MalformedTuple),
        },
    }
}

/// A flow, from the top-level attributes of an entry. Both tuples must be
/// there; then each must decode.
pub open spec fn spec_decode_flow(attrs: Seq<AttributeView>) -> Result<FlowView, DecodeError> {
    match (spec_find(attrs, CTA_TUPLE_ORIG), spec_find(attrs, CTA_TUPLE_REPLY)) {
        (Some(orig), Some(reply)) => match spec_decode_tuple(orig.payload) {
            Err(e) => Err(e),
            Ok(origin) => match spec_decode_tuple(reply.payload) {
                Err(e) => Err(e),
                Ok(reply) => Ok(FlowView { origin, reply }),
            },
        },
        _ => Err(DecodeError::MissingTuple),
    }
}

/// Reads one address from a level of attributes.
fn decode_address(attrs: &AttributeTree, v4_code: u16, v6_code: u16) -> (r: Result<
    IpAddress,
    DecodeError,
>)
    ensures
        match spec_decode_address(attrs@, v4_code, v6_code) {
            Ok(address) => r is Ok && r->Ok_0@ == address,
            Err(e) => r == Err::<IpAddress, _>(e),
        },
{
    match attrs.get(v4_code) {
        Some(attr) => match IpAddress::v4_from_slice(attr.payload()) {
            Some(address) => Ok(address),
            None => Err(DecodeError::MalformedTuple),
        },
        None => match attrs.get(v6_code) {
            Some(attr) => match IpAddress::v6_from_slice(attr.payload()) {
                Some(address) => Ok(address),
                None => Err(DecodeError::MalformedTuple),
            },
            None => Err(DecodeError::MalformedTuple),
        },
    }
}

/// Reads source and destination address from the payload of an address
/// attribute.
fn decode_addresses(payload: &[u8]) -> (r: Result<(IpAddress, IpAddress), DecodeError>)
    ensures
        match spec_decode_addresses(payload@) {
            Ok((source, destination)) => r is Ok && r->Ok_0.0@ == source && r->Ok_0.1@
                == destination,
            Err(e) => r == Err::<(IpAddress, IpAddress), _>(e),
        },
{
    let attrs = match decode(payload) {
        Ok(attrs) => attrs,
        Err(_) => {
            return Err(DecodeError::MalformedTuple);
        },
    };
    let source = match decode_address(&attrs, CTA_IP_V4_SRC, CTA_IP_V6_SRC) {
        Ok(address) => address,
        Err(e) => {
            return Err(e);
        },
    };
    let destination = match decode_address(&attrs, CTA_IP_V4_DST, CTA_IP_V6_DST) {
        Ok(address) => address,
        Err(e) => {
            return Err(e);
        },
    };
    Ok((source, destination))
}

/// Reads the protocol number from the payload of a protocol attribute.
fn decode_protocol(payload: &[u8]) -> (r: Result<u8, DecodeError>)
    ensures
        r == spec_decode_protocol(payload@),
{
    let attrs = match decode(payload) {
        Ok(attrs) => attrs,
        Err(_) => {
            return Err(DecodeError::MalformedTuple);
        },
    };
    match attrs.get(CTA_PROTO_NUM) {
        None => Err(DecodeError::MalformedTuple),
        Some(attr) => {
            let number = attr.payload();
            if number.len() == PROTO_NUM_LEN {
                Ok(number[0])
            } else {
                Err(DecodeError::MalformedTuple)
            }
        },
    }
}

/// Reads a tuple from the payload of a tuple attribute. Fails with
/// `MalformedTuple` where the payload does not decode, where the address or
/// the protocol attribute is missing, where an address of either direction
/// or the protocol number is missing, or where one of them has a length other
/// than four bytes (IPv4, protocol number) or sixteen (IPv6).
pub fn decode_tuple(payload: &[u8]) -> (r: Result<Tuple, DecodeError>)
    ensures
        match spec_decode_tuple(payload@) {
            Ok(tuple) => r is Ok && r->Ok_0@ == tuple,
            Err(e) => r == Err::<Tuple, _>(e),
        },
{
    let attrs = match decode(payload) {
        Ok(attrs) => attrs,
        Err(_) => {
            return Err(DecodeError::MalformedTuple);
        },
    };
    let (ip, proto) = match (attrs.get(CTA_TUPLE_IP), attrs.get(CTA_TUPLE_PROTO)) {
        (Some(ip), Some(proto)) => (ip, proto),
        _ => {
            return Err(DecodeError::MalformedTuple);
        },
    };
    let (source, destination) = match decode_addresses(ip.payload()) {
        Ok(addresses) => addresses,
        Err(e) => {
            return Err(e);
        },
    };
    let protocol = match decode_protocol(proto.payload()) {
        Ok(protocol) => protocol,
        Err(e) => {
            return Err(e);
        },
    };
    Ok(Tuple { protocol, source, destination })
}

/// Reads a flow from the top-level attributes of a dumped entry. Fails with
/// `MissingTuple` where the original or the reply tuple is not there, and
/// with `MalformedTuple` where one of them does not decode. Attributes with
/// other type codes do not matter.
pub fn decode_flow(attrs: &AttributeTree) -> (r: Result<Flow, DecodeError>)
    ensures
        match spec_decode_flow(attrs@) {
            Ok(flow) => r is Ok && r->Ok_0@ == flow,
            Err(e) => r == Err::<Flow, _>(e),
        },
{
    let (orig, reply) = match (attrs.get(CTA_TUPLE_ORIG), attrs.get(CTA_TUPLE_REPLY)) {
        (Some(orig), Some(reply)) => (orig, reply),
        _ => {
            return Err(DecodeError::MissingTuple);
        },
    };
    let origin = match decode_tuple(orig.payload()) {
        Ok(tuple) => tuple,
        Err(e) => {
            return Err(e);
        },
    };
    let reply = match decode_tuple(reply.payload()) {
        Ok(tuple) => tuple,
        Err(e) => {
            return Err(e);
        },
    };
    Ok(Flow { origin, reply })
}

/// The attribute in which the kernel reports the addresses of a tuple.
pub open spec fn spec_addresses_attribute(source: IpAddressView, destination: IpAddressView) -> AttributeView {
    AttributeView {
        type_code: CTA_TUPLE_IP,
        is_nested: true,
        is_network_order: false,
        payload: spec_encode_all(
            seq![
                spec_address_attribute(source, true),
                spec_address_attribute(destination, false),
            ],
        ),
    }
}

/// The attribute in which the kernel reports a tuple: the addresses of both
/// directions in one nested attribute, then the protocol number in another.
pub open spec fn spec_tuple_attribute(type_code: u16, tuple: TupleView) -> AttributeView {
    AttributeView {
        type_code,
        is_nested: true,
        is_network_order: false,
        payload: spec_encode_all(
            seq![
                spec_addresses_attribute(tuple.source, tuple.destination),
                spec_proto_tuple(tuple.protocol),
            ],
        ),
    }
}

/// In a level that holds a source and a destination address, each is found
/// under the type code of its family and direction.
proof fn lemma_addresses_found(source: IpAddressView, destination: IpAddressView)
    requires
        source.valid(),
        destination.valid(),
    ensures
        spec_decode_address(
            seq![
                spec_address_attribute(source, true),
                spec_address_attribute(destination, false),
            ],
            CTA_IP_V4_SRC,
            CTA_IP_V6_SRC,
        ) == Ok::<IpAddressView, DecodeError>(source),
        spec_decode_address(
            seq![
                spec_address_attribute(source, true),
                spec_address_attribute(destination, false),
            ],
            CTA_IP_V4_DST,
            CTA_IP_V6_DST,
        ) == Ok::<IpAddressView, DecodeError>(destination),
{
    let first = spec_address_attribute(source, true);
    let second = spec_address_attribute(destination, false);
    lemma_find_pair(first, second, CTA_IP_V4_SRC);
    lemma_find_pair(first, second, CTA_IP_V6_SRC);
    lemma_find_pair(first, second, CTA_IP_V4_DST);
    lemma_find_pair(first, second, CTA_IP_V6_DST);
}

/// The attribute that reports the addresses of a tuple is short enough to
/// be encoded.
proof fn lemma_addresses_valid(source: IpAddressView, destination: IpAddressView)
    requires
        source.valid(),
        destination.valid(),
    ensures
        spec_addresses_attribute(source, destination).valid(),
        spec_addresses_attribute(source, destination).payload.len() < 48,
{
    let first = spec_address_attribute(source, true);
    let second = spec_address_attribute(destination, false);
    lemma_encode_pair(first, second);
    lemma_encoded_len(first);
    lemma_encoded_len(second);
}

/// Decoding the payload of the attribute that reports the addresses of a
/// tuple gives the two address attributes.
proof fn lemma_addresses_decode(source: IpAddressView, destination: IpAddressView)
    requires
        source.valid(),
        destination.valid(),
    ensures
        spec_decode(spec_addresses_attribute(source, destination).payload) == Some(
            seq![
                spec_address_attribute(source, true),
                spec_address_attribute(destination, false),
            ],
        ),
{
    lemma_decode_encode(
        seq![spec_address_attribute(source, true), spec_address_attribute(destination, false)],
    );
}

/// The addresses of a tuple are read back from the attribute that reports
/// them.
proof fn lemma_addresses_round_trip(source: IpAddressView, destination: IpAddressView)
    requires
        source.valid(),
        destination.valid(),
    ensures
        spec_decode_addresses(spec_addresses_attribute(source, destination).payload) == Ok::<
            (IpAddressView, IpAddressView),
            DecodeError,
        >((source, destination)),
{
    lemma_addresses_decode(source, destination);
    lemma_addresses_found(source, destination);
}

/// The attribute that reports a tuple can be encoded.
proof fn lemma_tuple_valid(type_code: u16, tuple: TupleView)
    requires
        type_code <= MAX_TYPE_CODE,
        tuple.source.valid(),
        tuple.destination.valid(),
    ensures
        spec_addresses_attribute(tuple.source, tuple.destination).valid(),
        spec_proto_tuple(tuple.protocol).valid(),
        spec_tuple_attribute(type_code, tuple).valid(),
{
    let addresses = spec_addresses_attribute(tuple.source, tuple.destination);
    let proto = spec_proto_tuple(tuple.protocol);
    lemma_addresses_valid(tuple.source, tuple.destination);
    lemma_encoded_len(spec_protocol_attribute(tuple.protocol));
    lemma_encode_pair(addresses, proto);
    lemma_encoded_len(addresses);
    lemma_encoded_len(proto);
}

/// Decoding the payload of the attribute that reports a tuple gives the
/// attribute of the addresses and that of the protocol.
proof fn lemma_tuple_decode(type_code: u16, tuple: TupleView)
    requires
        type_code <= MAX_TYPE_CODE,
        tuple.source.valid(),
        tuple.destination.valid(),
    ensures
        spec_decode(spec_tuple_attribute(type_code, tuple).payload) == Some(
            seq![
                spec_addresses_attribute(tuple.source, tuple.destination),
                spec_proto_tuple(tuple.protocol),
            ],
        ),
{
    lemma_tuple_valid(type_code, tuple);
    lemma_decode_encode(
        seq![
            spec_addresses_attribute(tuple.source, tuple.destination),
            spec_proto_tuple(tuple.protocol),
        ],
    );
}

/// A tuple is read back from the attribute in which the kernel reports it.
pub proof fn lemma_tuple_round_trip(type_code: u16, tuple: TupleView)
    requires
        type_code <= MAX_TYPE_CODE,
        tuple.source.valid(),
        tuple.destination.valid(),
    ensures
        spec_tuple_attribute(type_code, tuple).valid(),
        spec_decode_tuple(spec_tuple_attribute(type_code, tuple).payload) == Ok::<
            TupleView,
            DecodeError,
        >(tuple),
{
    let addresses = spec_addresses_attribute(tuple.source, tuple.destination);
    let proto = spec_proto_tuple(tuple.protocol);
    lemma_tuple_valid(type_code, tuple);
    lemma_tuple_decode(type_code, tuple);
    lemma_addresses_round_trip(tuple.source, tuple.destination);
    lemma_protocol_reads_back(tuple.protocol);
    lemma_find_pair(addresses, proto, CTA_TUPLE_IP);
    lemma_find_pair(addresses, proto, CTA_TUPLE_PROTO);
}

/// A flow is read back from the two tuple attributes in which the kernel
/// reports it, in either order.
pub proof fn lemma_flow_round_trip(flow: Flow)
    ensures
        spec_decode_flow(
            seq![
                spec_tuple_attribute(CTA_TUPLE_ORIG, flow@.origin),
                spec_tuple_attribute(CTA_TUPLE_REPLY, flow@.reply),
            ],
        ) == Ok::<FlowView, DecodeError>(flow@),
        spec_decode_flow(
            seq![
                spec_tuple_attribute(CTA_TUPLE_REPLY, flow@.reply),
                spec_tuple_attribute(CTA_TUPLE_ORIG, flow@.origin),
            ],
        ) == Ok::<FlowView, DecodeError>(flow@),
{
    let origin = spec_tuple_attribute(CTA_TUPLE_ORIG, flow@.origin);
    let reply = spec_tuple_attribute(CTA_TUPLE_REPLY, flow@.reply);
    flow.origin.source.lemma_valid();
    flow.origin.destination.lemma_valid();
    flow.reply.source.lemma_valid();
    flow.reply.destination.lemma_valid();
    lemma_tuple_round_trip(CTA_TUPLE_ORIG, flow@.origin);
    lemma_tuple_round_trip(CTA_TUPLE_REPLY, flow@.reply);
    lemma_find_pair(origin, reply, CTA_TUPLE_ORIG);
    lemma_find_pair(origin, reply, CTA_TUPLE_REPLY);
    lemma_find_pair(reply, origin, CTA_TUPLE_ORIG);
    lemma_find_pair(reply, origin, CTA_TUPLE_REPLY);
}

/// A tuple that does not decode is malformed: decoding a tuple gives no
/// other error.
pub proof fn lemma_tuple_error(payload: Seq<u8>)
    ensures
        spec_decode_tuple(payload) is Err ==> spec_decode_tuple(payload) == Err::<
            TupleView,
            DecodeError,
        >(DecodeError::MalformedTuple),
{
}

/// An entry gives `MissingTuple` exactly where its top level lacks the
/// original tuple or the reply tuple.
pub proof fn lemma_missing_tuple(attrs: Seq<AttributeView>)
    ensures
        spec_decode_flow(attrs) == Err::<FlowView, DecodeError>(DecodeError::MissingTuple) <==> (
        spec_find(attrs, CTA_TUPLE_ORIG) is None || spec_find(attrs, CTA_TUPLE_REPLY) is None),
{
    if spec_find(attrs, CTA_TUPLE_ORIG) is Some && spec_find(attrs, CTA_TUPLE_REPLY) is Some {
        lemma_tuple_error(spec_find(attrs, CTA_TUPLE_ORIG)->Some_0.payload);
        lemma_tuple_error(spec_find(attrs, CTA_TUPLE_REPLY)->Some_0.payload);
    }
}

/// A top-level attribute that is neither the original nor the reply tuple
/// does not change what an entry decodes to, wherever it stands.
pub proof fn lemma_flow_ignores_unknown(
    attrs: Seq<AttributeView>,
    position: int,
    extra: AttributeView,
)
    requires
        0 <= position <= attrs.len(),
        extra.type_code != CTA_TUPLE_ORIG,
        extra.type_code != CTA_TUPLE_REPLY,
    ensures
        spec_decode_flow(attrs.insert(position, extra)) == spec_decode_flow(attrs),
{
    lemma_find_ignores_others(attrs, position, extra, CTA_TUPLE_ORIG);
    lemma_find_ignores_others(attrs, position, extra, CTA_TUPLE_REPLY);
}

} // verus!
