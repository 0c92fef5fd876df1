//! Tracked connections as values: addresses, tuples and flows.

use vstd::prelude::*;

verus! {

/// An IP address by its bytes, in network byte order.
#[derive(Clone, Copy, Debug, PartialEq, Eq)]
pub enum IpAddress {
    /// An IPv4 address.
    V4([u8; 4]),
    /// An IPv6 address.
    V6([u8; 16]),
}

/// An address as a mathematical value: the family and the bytes.
pub enum IpAddressView {
    V4(Seq<u8>),
    V6(Seq<u8>),
}

impl IpAddressView {
    /// The address has as many bytes as its family asks for: four for
    /// IPv4, sixteen for IPv6.
    pub open spec fn valid(self) -> bool {
        match self {
            IpAddressView::V4(bytes) => bytes.len() == 4,
            IpAddressView::V6(bytes) => bytes.len() == 16,
        }
    }

    /// The bytes of the address, in network byte order.
    pub open spec fn octets(self) -> Seq<u8> {
        match self {
            IpAddressView::V4(bytes) => bytes,
            IpAddressView::V6(bytes) => bytes,
        }
    }
}

impl View for IpAddress {
    type V = IpAddressView;

    open spec fn view(&self) -> IpAddressView {
        match self {
            IpAddress::V4(bytes) => IpAddressView::V4(bytes@),
            IpAddress::V6(bytes) => IpAddressView::V6(bytes@),
        }
    }
}

impl IpAddress {
    /// An address always has as many bytes as its family asks for.
    pub proof fn lemma_valid(self)
        ensures
            self@.valid(),
    {
    }

    /// The bytes of the address, in network byte order: four for IPv4,
    /// sixteen for IPv6.
    pub fn octets(&self) -> (r: Vec<u8>)
        ensures
            r@ == self@.octets(),
            self@.valid(),
    {
        match self {
            IpAddress::V4(bytes) => vstd::slice::slice_to_vec(bytes.as_slice()),
            IpAddress::V6(bytes) => vstd::slice::slice_to_vec(bytes.as_slice()),
        }
    }

    /// The IPv4 address with the given four bytes, or nothing where `bytes`
    /// has another length.
    pub fn v4_from_slice(bytes: &[u8]) -> (r: Option<IpAddress>)
        ensures
            bytes@.len() == 4 ==> r is Some && r->Some_0@ == IpAddressView::V4(bytes@),
            bytes@.len() != 4 ==> r is None,
    {
        if bytes.len() == 4 {
            let array: [u8; 4] = [bytes[0], bytes[1], bytes[2], bytes[3]];
            assert(array@ == bytes@);
            Some(IpAddress::V4(array))
        } else {
            None
        }
    }

    /// The IPv6 address with the given sixteen bytes, or nothing where `bytes`
    /// has another length.
    pub fn v6_from_slice(bytes: &[u8]) -> (r: Option<IpAddress>)
        ensures
            bytes@.len() == 16 ==> r is Some && r->Some_0@ == IpAddressView::V6(bytes@),
            bytes@.len() != 16 ==> r is None,
    {
        if bytes.len() == 16 {
            let array: [u8; 16] = [
                bytes[0],
                bytes[1],
                bytes[2],
                bytes[3],
                bytes[4],
                bytes[5],
                bytes[6],
                bytes[7],
                bytes[8],
                bytes[9],
                bytes[10],
                bytes[11],
                bytes[12],
                bytes[13],
                bytes[14],
                bytes[15],
            ];
            assert(array@ == bytes@);
            Some(IpAddress::V6(array))
        } else {
            None
        }
    }
}

/// One direction of a connection.
#[derive(Clone, Copy, Debug, PartialEq, Eq)]
pub struct Tuple {
    /// The transport protocol, by its number: 6 for TCP, 17 for UDP.
    pub protocol: u8,
    /// Where the packets of this direction come from.
    pub source: IpAddress,
    /// Where the packets of this direction go.
    pub destination: IpAddress,
}

/// A tuple as a mathematical value.
pub struct TupleView {
    pub protocol: u8,
    pub source: IpAddressView,
    pub destination: IpAddressView,
}

impl View for Tuple {
    type V = TupleView;

    open spec fn view(&self) -> TupleView {
        TupleView {
            protocol: self.protocol,
            source: self.source@,
            destination: self.destination@,
        }
    }
}

/// A tracked connection. The reply tuple need not mirror the original one:
/// NAT may have rewritten it.
#[derive(Clone, Copy, Debug, PartialEq, Eq)]
pub struct Flow {
    /// The direction in which the connection was opened.
    pub origin: Tuple,
    /// The direction of the answers.
    pub reply: Tuple,
}

/// A flow as a mathematical value.
pub struct FlowView {
    pub origin: TupleView,
    pub reply: TupleView,
}

impl View for Flow {
    type V = FlowView;

    open spec fn view(&self) -> FlowView {
        FlowView { origin: self.origin@, reply: self.reply@ }
    }
}

} // verus!
