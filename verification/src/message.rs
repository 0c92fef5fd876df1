//! Whole messages: the requests that go to the kernel and the entries that
//! come back from a dump.
//!
//! The payload of a conntrack message is a netfilter header of four bytes
//! (address family, protocol version, and a 16-bit resource id that is zero
//! in requests), followed by attributes. The netlink header in front of it,
//! with the message type and the flags, is written by whoever owns the socket.

use vstd::prelude::*;
use crate::codec::{decode, spec_decode};
use crate::codes::{
    AF_INET, AF_UNSPEC, MSG_CT_DELETE, MSG_CT_GET, NFGEN_HEADER_LEN, NFNETLINK_V0, NLM_F_ACK,
    NLM_F_DUMP, NLM_F_MATCH,
};
use crate::command::{build_delete, spec_build_delete};
use crate::error::DecodeError;
use crate::flow::{decode_flow, spec_decode_flow};
use crate::model::{Flow, FlowView, IpAddress, IpAddressView};

verus! {

/// A request for the kernel.
#[derive(Debug, PartialEq, Eq)]
pub struct Request {
    /// The message type for the netlink header.
    pub message_type: u16,
    /// The request flags for the netlink header.
    pub flags: u16,
    /// What follows the netlink header: netfilter header and attributes.
    pub payload: Vec<u8>,
}

/// A request as a mathematical value.
pub struct RequestView {
    pub message_type: u16,
    pub flags: u16,
    pub payload: Seq<u8>,
}

impl View for Request {
    type V = RequestView;

    open spec fn view(&self) -> RequestView {
        RequestView {
            message_type: self.message_type,
            flags: self.flags,
            payload: self.payload@,
        }
    }
}

/// An entry of a dump that did not decode.
#[derive(Clone, Copy, Debug, PartialEq, Eq, Structural)]
pub struct DumpFailure {
    /// The position of the entry among the entries of the dump.
    pub index: usize,
    /// Why it did not decode.
    pub error: DecodeError,
}

/// What a dump held: the flows of the entries that decoded, in the order of
/// the dump, and a record of each entry that did not.
#[derive(Debug, PartialEq, Eq)]
pub struct DumpReport {
    /// The flows, in the order of their entries.
    pub flows: Vec<Flow>,
    /// The entries that were passed over, in their order.
    pub failures: Vec<DumpFailure>,
}

/// The netfilter header of a request.
pub open spec fn spec_nfgen_header(family: u8) -> Seq<u8> {
    seq![family, NFNETLINK_V0, 0u8, 0u8]
}

/// The request for a dump of the whole table.
pub open spec fn spec_dump_request() -> RequestView {
    RequestView {
        message_type: MSG_CT_GET,
        flags: NLM_F_DUMP,
        payload: spec_nfgen_header(AF_UNSPEC),
    }
}

/// The request to delete the entries with the given protocol and address.
/// The family in the netfilter header is IPv4 whatever the family of the
/// address.
pub open spec fn spec_delete_request(protocol: u8, address: IpAddressView, is_source: bool) -> RequestView {
    RequestView {
        message_type: MSG_CT_DELETE,
        flags: NLM_F_ACK | NLM_F_MATCH,
        payload: spec_nfgen_header(AF_INET) + spec_build_delete(
            protocol,
            address,
            is_source,
        ).encode(),
    }
}

/// The flow of one entry of a dump, from the payload of its message.
pub open spec fn spec_decode_entry(payload: Seq<u8>) -> Result<FlowView, DecodeError> {
    if payload.len() < NFGEN_HEADER_LEN {
        Err(DecodeError::TruncatedAttribute)
    } else {
        match spec_decode(payload.skip(NFGEN_HEADER_LEN as int)) {
            None => Err(DecodeError::TruncatedAttribute),
            Some(attrs) => spec_decode_flow(attrs),
        }
    }
}

/// The flows of the entries that decode, in the order of the entries.
pub open spec fn spec_dump_flows(entries: Seq<Seq<u8>>) -> Seq<FlowView>
    decreases entries.len(),
{
    if entries.len() == 0 {
        Seq::empty()
    } else {
        let front = spec_dump_flows(entries.drop_last());
        match spec_decode_entry(entries.last()) {
            Ok(flow) => front.push(flow),
            Err(_) => front,
        }
    }
}

/// Position and error of each entry that does not decode, in the order of
/// the entries.
pub open spec fn spec_dump_failures(entries: Seq<Seq<u8>>) -> Seq<DumpFailure>
    decreases entries.len(),
{
    if entries.len() == 0 {
        Seq::empty()
    } else {
        let front = spec_dump_failures(entries.drop_last());
        match spec_decode_entry(entries.last()) {
            Ok(_) => front,
            Err(error) => front.push(DumpFailure { index: (entries.len() - 1) as usize, error }),
        }
    }
}

/// The flows of a report as mathematical values.
pub open spec fn spec_flow_views(flows: Seq<Flow>) -> Seq<FlowView> {
    Seq::new(flows.len(), |i: int| flows[i]@)
}

/// Writes the netfilter header of a request.
fn nfgen_header(family: u8) -> (r: Vec<u8>)
    ensures
        r@ == spec_nfgen_header(family),
{
    let mut header: Vec<u8> = Vec::with_capacity(NFGEN_HEADER_LEN);
    header.push(family);
    header.push(NFNETLINK_V0);
    header.push(0u8);
    header.push(0u8);
    header
}

/// The request that makes the kernel send its whole table.
pub fn dump_request() -> (r: Request)
    ensures
        r@ == spec_dump_request(),
{
    Request { message_type: MSG_CT_GET, flags: NLM_F_DUMP, payload: nfgen_header(AF_UNSPEC) }
}

/// The request that makes the kernel delete the entries with the given
/// protocol and address, and acknowledge it. The address is matched against
/// the source of the original direction where `is_source` holds, else against
/// the destination of the reply direction.
pub fn delete_request(protocol: u8, address: &IpAddress, is_source: bool) -> (r: Request)
    ensures
        r@ == spec_delete_request(protocol, address@, is_source),
        r.flags == 0x0204,
{
    assert(0x0004u16 | 0x0200u16 == 0x0204u16) by (bit_vector);
    let mut payload = nfgen_header(AF_INET);
    let encoded = build_delete(protocol, address, is_source).encode();
    payload.extend_from_slice(encoded.as_slice());
    assert(payload@ == spec_nfgen_header(AF_INET) + spec_build_delete(
        protocol,
        address@,
        is_source,
    ).encode());
    Request { message_type: MSG_CT_DELETE, flags: NLM_F_ACK | NLM_F_MATCH, payload }
}

/// Reads the flow of one entry of a dump from the payload of its message.
/// Fails with `TruncatedAttribute` where the payload is shorter than the
/// netfilter header or its attributes are cut short, and as `decode_flow`
/// does where the attributes do not make a flow.
pub fn decode_entry(payload: &[u8]) -> (r: Result<Flow, DecodeError>)
    ensures
        match spec_decode_entry(payload@) {
            Ok(flow) => r is Ok && r->Ok_0@ == flow,
            Err(e) => r == Err::<Flow, _>(e),
        },
{
    if payload.len() < NFGEN_HEADER_LEN {
        return Err(DecodeError::TruncatedAttribute);
    }
    let body = &payload[NFGEN_HEADER_LEN..payload.len()];
    assert(body@ == payload@.skip(NFGEN_HEADER_LEN as int));
    match decode(body) {
        Ok(attrs) => decode_flow(&attrs),
        Err(e) => Err(e),
    }
}

/// Reads the flows of a dump from the payloads of its messages. An entry
/// that does not decode is passed over and recorded; the entries after it are
/// read all the same.
pub fn decode_dump(entries: &Vec<Vec<u8>>) -> (r: DumpReport)
    ensures
        spec_flow_views(r.flows@) == spec_dump_flows(entries.deep_view()),
        r.failures@ == spec_dump_failures(entries.deep_view()),
{
    let mut flows: Vec<Flow> = Vec::new();
    let mut failures: Vec<DumpFailure> = Vec::new();
    let ghost all = entries.deep_view();
    let mut i: usize = 0;
    while i < entries.len()
        invariant
            i <= entries@.len(),
            all == entries.deep_view(),
            spec_flow_views(flows@) == spec_dump_flows(all.take(i as int)),
            failures@ == spec_dump_failures(all.take(i as int)),
        decreases entries@.len() - i,
    {
        let ghost before = spec_flow_views(flows@);
        proof {
            assert(all.take(i + 1).drop_last() == all.take(i as int));
            assert(all.take(i + 1).last() == entries@[i as int]@);
        }
        match decode_entry(entries[i].as_slice()) {
            Ok(flow) => {
                flows.push(flow);
                assert(spec_flow_views(flows@) == before.push(flow@));
            },
            Err(error) => {
                failures.push(DumpFailure { index: i, error });
            },
        }
        i = i + 1;
    }
    assert(all.take(i as int) == all);
    DumpReport { flows, failures }
}

/// Every entry of a dump is either among the flows or among the failures.
pub proof fn lemma_dump_accounts_for_all(entries: Seq<Seq<u8>>)
    ensures
        spec_dump_flows(entries).len() + spec_dump_failures(entries).len() == entries.len(),
    decreases entries.len(),
{
    if entries.len() > 0 {
        lemma_dump_accounts_for_all(entries.drop_last());
    }
}

/// What an entry decodes to does not depend on the entries around it: a
/// dump in two parts gives the flows of the first part followed by the flows
/// of the second.
pub proof fn lemma_dump_flows_concat(first: Seq<Seq<u8>>, second: Seq<Seq<u8>>)
    ensures
        spec_dump_flows(first + second) == spec_dump_flows(first) + spec_dump_flows(second),
    decreases second.len(),
{
    if second.len() == 0 {
        assert(first + second == first);
        assert(spec_dump_flows(first) + Seq::<FlowView>::empty() == spec_dump_flows(first));
    } else {
        lemma_dump_flows_concat(first, second.drop_last());
        assert((first + second).drop_last() == first + second.drop_last());
        assert((first + second).last() == second.last());
        let front = spec_dump_flows(first) + spec_dump_flows(second.drop_last());
        match spec_decode_entry(second.last()) {
            Ok(flow) => {
                assert(front.push(flow) == spec_dump_flows(first) + spec_dump_flows(
                    second.drop_last(),
                ).push(flow));
            },
            Err(_) => {},
        }
    }
}

} // verus!
