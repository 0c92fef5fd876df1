//! Netlink attributes: a type field, a length and a payload.
//!
//! On the wire an attribute is a four-byte header, the payload, and zero bytes
//! up to the next multiple of four. The header holds the length of header and
//! payload without the padding, then the type field: bit 15 says that the
//! payload is itself a run of attributes, bit 14 that the payload is in network
//! byte order, and bits 0 to 13 are the type code.

use vstd::prelude::*;
use crate::error::AttributeBuildError;
use crate::wire::{align, spec_align, spec_padding, spec_u16_bytes, spec_zeros, u16_bytes, HEADER_LEN};

verus! {

/// The largest type code that the type field can hold.
pub const MAX_TYPE_CODE: u16 = 0x3fff;

/// The longest payload whose length, with the header, still fits in 16 bits.
pub const MAX_PAYLOAD_LEN: usize = 65531;

/// The bit of the type field that marks a payload made of attributes.
pub const NESTED_FLAG: u16 = 0x8000;

/// The bit of the type field that marks a payload in network byte order.
pub const NETWORK_ORDER_FLAG: u16 = 0x4000;

/// What the type field of an attribute says.
#[derive(Clone, Copy, Debug, PartialEq, Eq, Structural)]
pub struct AttributeConfig {
    /// What the attribute means within the level it stands in.
    pub type_code: u16,
    /// Whether the payload is a run of encoded attributes.
    pub is_nested: bool,
    /// Whether the payload is in network byte order.
    pub is_network_order: bool,
}

/// An attribute as a mathematical value.
pub struct AttributeView {
    pub type_code: u16,
    pub is_nested: bool,
    pub is_network_order: bool,
    pub payload: Seq<u8>,
}

impl AttributeView {
    /// The type code fits in fourteen bits and the length fits in sixteen.
    pub open spec fn valid(self) -> bool {
        &&& self.type_code <= MAX_TYPE_CODE
        &&& self.payload.len() <= MAX_PAYLOAD_LEN
    }

    /// The length that the header declares: header and payload, no padding.
    pub open spec fn length(self) -> nat {
        HEADER_LEN as nat + self.payload.len()
    }

    /// The type field: the type code with the two flags above it.
    pub open spec fn type_field(self) -> u16 {
        (self.type_code + (if self.is_nested {
            NESTED_FLAG
        } else {
            0u16
        }) + (if self.is_network_order {
            NETWORK_ORDER_FLAG
        } else {
            0u16
        })) as u16
    }

    /// The number of bytes that the attribute takes on the wire, padding included.
    pub open spec fn encoded_len(self) -> nat {
        spec_align(self.length())
    }

    /// The attribute on the wire: length, type field, payload, zero padding.
    pub open spec fn encode(self) -> Seq<u8> {
        spec_u16_bytes(self.length() as u16) + spec_u16_bytes(self.type_field()) + self.payload
            + spec_zeros(spec_padding(self.length()))
    }

    /// The attribute with the encoding of `child` added to the end of its payload.
    pub open spec fn nest(self, child: AttributeView) -> AttributeView {
        AttributeView { payload: self.payload + child.encode(), ..self }
    }
}

/// The attribute that a type field and a payload stand for: the two flags are
/// the top bits of the type field, the type code is what is below them.
pub open spec fn spec_from_type_field(type_field: u16, payload: Seq<u8>) -> AttributeView {
    AttributeView {
        type_code: type_field % NETWORK_ORDER_FLAG,
        is_nested: type_field >= NESTED_FLAG,
        is_network_order: type_field % NESTED_FLAG >= NETWORK_ORDER_FLAG,
        payload,
    }
}

/// The encodings of the attributes of `attrs`, one after the other.
pub open spec fn spec_encode_all(attrs: Seq<AttributeView>) -> Seq<u8>
    decreases attrs.len(),
{
    if attrs.len() == 0 {
        Seq::empty()
    } else {
        attrs[0].encode() + spec_encode_all(attrs.drop_first())
    }
}

/// A netlink attribute. Every value of this type can be encoded: its type code
/// fits in fourteen bits and its length fits in sixteen.
#[derive(Debug, PartialEq, Eq)]
pub struct Attribute {
    type_code: u16,
    is_nested: bool,
    is_network_order: bool,
    payload: Vec<u8>,
}

impl View for Attribute {
    type V = AttributeView;

    closed spec fn view(&self) -> AttributeView {
        AttributeView {
            type_code: self.type_code,
            is_nested: self.is_nested,
            is_network_order: self.is_network_order,
            payload: self.payload@,
        }
    }
}

impl Clone for Attribute {
    fn clone(&self) -> (r: Self)
        ensures
            r@ == self@,
    {
        proof {
            use_type_invariant(self);
        }
        let payload = self.payload.clone();
        assert(payload@ == self.payload@);
        Attribute {
            type_code: self.type_code,
            is_nested: self.is_nested,
            is_network_order: self.is_network_order,
            payload,
        }
    }
}

/// Something that can be the payload of an attribute: scalar bytes as they
/// are, or attributes in their encoded form.
pub trait IntoBuffer: Sized {
    /// The bytes that the value turns into.
    spec fn buffer(&self) -> Seq<u8>;

    /// Turns the value into the bytes of a payload.
    fn into_buffer(self) -> (bytes: Vec<u8>)
        ensures
            bytes@ == self.buffer(),
    ;
}

impl IntoBuffer for Vec<u8> {
    open spec fn buffer(&self) -> Seq<u8> {
        self@
    }

    fn into_buffer(self) -> (bytes: Vec<u8>) {
        self
    }
}

impl IntoBuffer for Attribute {
    open spec fn buffer(&self) -> Seq<u8> {
        self@.encode()
    }

    fn into_buffer(self) -> (bytes: Vec<u8>) {
        self.encode()
    }
}

impl Attribute {
    #[verifier::type_invariant]
    pub closed spec fn well_formed(&self) -> bool {
        self@.valid()
    }

    /// Builds an attribute from what its type field says and its payload.
    /// Fails where the type code or the payload is too large to encode.
    pub fn new(config: AttributeConfig, payload: Vec<u8>) -> (r: Result<
        Attribute,
        AttributeBuildError,
    >)
        ensures
            config.type_code > MAX_TYPE_CODE ==> r == Err::<Attribute, _>(
                AttributeBuildError::TypeCodeOutOfRange,
            ),
            config.type_code <= MAX_TYPE_CODE && payload@.len() > MAX_PAYLOAD_LEN ==> r == Err::<
                Attribute,
                _,
            >(AttributeBuildError::PayloadTooLong),
            config.type_code <= MAX_TYPE_CODE && payload@.len() <= MAX_PAYLOAD_LEN ==> r is Ok
                && r->Ok_0@ == (AttributeView {
                type_code: config.type_code,
                is_nested: config.is_nested,
                is_network_order: config.is_network_order,
                payload: payload@,
            }),
    {
        if config.type_code > MAX_TYPE_CODE {
            Err(AttributeBuildError::TypeCodeOutOfRange)
        } else if payload.len() > MAX_PAYLOAD_LEN {
            Err(AttributeBuildError::PayloadTooLong)
        } else {
            Ok(
                Attribute {
                    type_code: config.type_code,
                    is_nested: config.is_nested,
                    is_network_order: config.is_network_order,
                    payload,
                },
            )
        }
    }

    /// Builds the attribute that a header with this type field announces.
    pub(crate) fn from_type_field(type_field: u16, payload: Vec<u8>) -> (r: Attribute)
        requires
            payload@.len() <= MAX_PAYLOAD_LEN,
        ensures
            r@ == spec_from_type_field(type_field, payload@),
    {
        Attribute {
            type_code: type_field % NETWORK_ORDER_FLAG,
            is_nested: type_field >= NESTED_FLAG,
            is_network_order: type_field % NESTED_FLAG >= NETWORK_ORDER_FLAG,
            payload,
        }
    }

    /// The type code.
    pub fn type_code(&self) -> (r: u16)
        ensures
            r == self@.type_code,
            self@.valid(),
    {
        proof {
            use_type_invariant(self);
        }
        self.type_code
    }

    /// Whether the payload is a run of encoded attributes.
    pub fn is_nested(&self) -> (r: bool)
        ensures
            r == self@.is_nested,
    {
        self.is_nested
    }

    /// Whether the payload is in network byte order.
    pub fn is_network_order(&self) -> (r: bool)
        ensures
            r == self@.is_network_order,
    {
        self.is_network_order
    }

    /// The payload, without header and padding.
    pub fn payload(&self) -> (r: &[u8])
        ensures
            r@ == self@.payload,
            self@.valid(),
    {
        proof {
            use_type_invariant(self);
        }
        self.payload.as_slice()
    }

    /// The number of bytes that `encode` gives.
    pub fn encoded_len(&self) -> (r: usize)
        ensures
            r == self@.encoded_len(),
            r == self@.encode().len(),
    {
        proof {
            use_type_invariant(self);
        }
        align(HEADER_LEN + self.payload.len())
    }

    /// The attribute on the wire: header, payload, and zero bytes up to the
    /// next multiple of four.
    pub fn encode(&self) -> (bytes: Vec<u8>)
        ensures
            bytes@ == self@.encode(),
    {
        proof {
            use_type_invariant(self);
        }
        let length: usize = HEADER_LEN + self.payload.len();
        let total: usize = align(length);
        let mut type_field: u16 = self.type_code;
        if self.is_nested {
            type_field = type_field + NESTED_FLAG;
        }
        if self.is_network_order {
            type_field = type_field + NETWORK_ORDER_FLAG;
        }
        let (len_lo, len_hi) = u16_bytes(length as u16);
        let (type_lo, type_hi) = u16_bytes(type_field);
        let mut bytes: Vec<u8> = Vec::with_capacity(total);
        bytes.push(len_lo);
        bytes.push(len_hi);
        bytes.push(type_lo);
        bytes.push(type_hi);
        bytes.extend_from_slice(self.payload.as_slice());
        assert(bytes@ == spec_u16_bytes(self@.length() as u16) + spec_u16_bytes(
            self@.type_field(),
        ) + self@.payload);
        let ghost unpadded = bytes@;
        let mut n: usize = length;
        while n < total
            invariant
                length <= n <= total,
                bytes@ == unpadded + spec_zeros((n - length) as nat),
            decreases total - n,
        {
            bytes.push(0u8);
            n = n + 1;
        }
        bytes
    }

    /// Adds the encoding of `child` to the end of the payload. Type code and
    /// flags stay as they are. Fails where the payload would grow too long.
    pub fn nest(self, child: &Attribute) -> (r: Result<Attribute, AttributeBuildError>)
        ensures
            self@.nest(child@).valid() ==> r is Ok && r->Ok_0@ == self@.nest(child@),
            !self@.nest(child@).valid() ==> r == Err::<Attribute, _>(
                AttributeBuildError::PayloadTooLong,
            ),
    {
        proof {
            use_type_invariant(&self);
            use_type_invariant(child);
        }
        let encoded = child.encode();
        if encoded.len() > MAX_PAYLOAD_LEN - self.payload.len() {
            Err(AttributeBuildError::PayloadTooLong)
        } else {
            let mut payload = self.payload;
            payload.extend_from_slice(encoded.as_slice());
            assert(payload@ == self@.payload + child@.encode());
            Ok(
                Attribute {
                    type_code: self.type_code,
                    is_nested: self.is_nested,
                    is_network_order: self.is_network_order,
                    payload,
                },
            )
        }
    }
}

/// Builds an attribute with the given type code and nesting flag around a
/// payload. The network-byte-order flag is left clear. Fails where the type
/// code or the payload is too large to encode.
pub fn make_attribute<P: IntoBuffer>(type_code: u16, nested: bool, payload: P) -> (r: Result<
    Attribute,
    AttributeBuildError,
>)
    ensures
        type_code > MAX_TYPE_CODE ==> r == Err::<Attribute, _>(
            AttributeBuildError::TypeCodeOutOfRange,
        ),
        type_code <= MAX_TYPE_CODE && payload.buffer().len() > MAX_PAYLOAD_LEN ==> r == Err::<
            Attribute,
            _,
        >(AttributeBuildError::PayloadTooLong),
        type_code <= MAX_TYPE_CODE && payload.buffer().len() <= MAX_PAYLOAD_LEN ==> r is Ok
            && r->Ok_0@ == (AttributeView {
            type_code,
            is_nested: nested,
            is_network_order: false,
            payload: payload.buffer(),
        }),
{
    let config = AttributeConfig { type_code, is_nested: nested, is_network_order: false };
    Attribute::new(config, payload.into_buffer())
}

} // verus!
