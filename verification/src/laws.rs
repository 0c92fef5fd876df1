//! What holds between encoding, decoding and lookup.

use vstd::prelude::*;
use crate::attribute::{spec_encode_all, spec_from_type_field, AttributeView, MAX_TYPE_CODE};
use crate::codec::{spec_decode, spec_decode_one, spec_find};
use crate::wire::{
    lemma_u16_join_split, spec_padding, spec_u16_bytes, spec_u16_from_bytes, spec_zeros, HEADER_LEN,
};

verus! {

/// Every attribute of `attrs` can be encoded.
pub open spec fn spec_all_valid(attrs: Seq<AttributeView>) -> bool {
    forall|i: int| 0 <= i < attrs.len() ==> (#[trigger] attrs[i]).valid()
}

/// `bytes` is a run of attributes in which every attribute has all of its
/// padding, and the padding is zero.
pub open spec fn spec_canonical(bytes: Seq<u8>) -> bool
    decreases bytes.len(),
{
    if bytes.len() == 0 {
        true
    } else {
        match spec_decode_one(bytes) {
            None => false,
            Some((attr, used)) => {
                &&& used == attr.encoded_len()
                &&& bytes.subrange(attr.length() as int, used as int) == spec_zeros(
                    spec_padding(attr.length()),
                )
                &&& spec_canonical(bytes.skip(used as int))
            },
        }
    }
}

/// An encoding is as long as header and payload, rounded up to a multiple of
/// four.
pub proof fn lemma_encoded_len(attr: AttributeView)
    ensures
        attr.encode().len() == attr.encoded_len(),
        attr.length() <= attr.encoded_len() < attr.length() + 4,
{
}

/// The encoding of an attribute that can be encoded is the little-endian
/// length of header and payload, the little-endian type field, the payload at
/// offset four, and zero bytes from the end of the payload up to the next
/// multiple of four. Reading the header back gives the length, the type code
/// and both flags again.
pub proof fn lemma_encode_layout(attr: AttributeView)
    requires
        attr.valid(),
    ensures
        attr.encode().len() == attr.encoded_len(),
        attr.encode().len() % 4 == 0,
        attr.length() <= attr.encode().len() < attr.length() + 4,
        spec_u16_from_bytes(attr.encode()[0], attr.encode()[1]) == attr.length(),
        spec_u16_from_bytes(attr.encode()[2], attr.encode()[3]) == attr.type_field(),
        attr.type_field() % 0x4000 == attr.type_code,
        attr.type_field() >= 0x8000 <==> attr.is_nested,
        attr.type_field() % 0x8000 >= 0x4000 <==> attr.is_network_order,
        attr.encode().subrange(HEADER_LEN as int, attr.length() as int) == attr.payload,
        forall|i: int| attr.length() <= i < attr.encode().len() ==> attr.encode()[i] == 0,
{
    let bytes = attr.encode();
    let header = spec_u16_bytes(attr.length() as u16) + spec_u16_bytes(attr.type_field());
    assert(header.len() == 4);
    assert(bytes == header + attr.payload + spec_zeros(spec_padding(attr.length())));
    assert(bytes.subrange(HEADER_LEN as int, attr.length() as int) =~= attr.payload);
}

/// Decoding bytes that begin with the encoding of an attribute gives that
/// attribute and takes exactly its encoding, whatever follows.
pub proof fn lemma_decode_one_encode(attr: AttributeView, rest: Seq<u8>)
    requires
        attr.valid(),
    ensures
        spec_decode_one(attr.encode() + rest) == Some((attr, attr.encoded_len())),
        (attr.encode() + rest).skip(attr.encoded_len() as int) == rest,
{
    lemma_encode_layout(attr);
    let bytes = attr.encode() + rest;
    assert(bytes[0] == attr.encode()[0]);
    assert(bytes[1] == attr.encode()[1]);
    assert(bytes[2] == attr.encode()[2]);
    assert(bytes[3] == attr.encode()[3]);
    assert(bytes.subrange(HEADER_LEN as int, attr.length() as int) =~= attr.payload);
    assert(bytes.skip(attr.encoded_len() as int) =~= rest);
}

/// Decoding the encoding of a run of attributes gives the same attributes
/// again: type codes, flags and payloads, in the same order.
pub proof fn lemma_decode_encode(attrs: Seq<AttributeView>)
    requires
        spec_all_valid(attrs),
    ensures
        spec_decode(spec_encode_all(attrs)) == Some(attrs),
    decreases attrs.len(),
{
    if attrs.len() == 0 {
    } else {
        let first = attrs[0];
        let tail = attrs.drop_first();
        assert(spec_all_valid(tail)) by {
            assert forall|i: int| 0 <= i < tail.len() implies (#[trigger] tail[i]).valid() by {
                assert(tail[i] == attrs[i + 1]);
            }
        }
        lemma_decode_encode(tail);
        lemma_decode_one_encode(first, spec_encode_all(tail));
        lemma_encode_layout(first);
        assert(seq![first] + tail == attrs);
    }
}

/// Decoding the encoding of one attribute gives that attribute alone.
pub proof fn lemma_decode_encode_single(attr: AttributeView)
    requires
        attr.valid(),
    ensures
        spec_decode(attr.encode()) == Some(seq![attr]),
{
    let attrs = seq![attr];
    assert(attrs.drop_first() == Seq::<AttributeView>::empty());
    assert(spec_encode_all(attrs.drop_first()) == Seq::<u8>::empty());
    assert(spec_encode_all(attrs) == attr.encode() + Seq::<u8>::empty());
    assert(attr.encode() + Seq::<u8>::empty() == attr.encode());
    lemma_decode_encode(attrs);
}

/// Every attribute that decoding gives can be encoded.
pub proof fn lemma_decode_valid(bytes: Seq<u8>)
    requires
        spec_decode(bytes) is Some,
    ensures
        spec_all_valid(spec_decode(bytes)->Some_0),
    decreases bytes.len(),
{
    if bytes.len() == 0 {
    } else {
        let (attr, used) = spec_decode_one(bytes)->Some_0;
        let tail = spec_decode(bytes.skip(used as int))->Some_0;
        lemma_decode_valid(bytes.skip(used as int));
        let attrs = seq![attr] + tail;
        assert forall|i: int| 0 <= i < attrs.len() implies (#[trigger] attrs[i]).valid() by {
            if i > 0 {
                assert(attrs[i] == tail[i - 1]);
            }
        }
    }
}

/// Splitting a type field takes its bits: bit 15 is the nesting flag, bit 14
/// the network-byte-order flag, and bits 0 to 13 are the type code.
pub proof fn lemma_type_field_bits(type_field: u16, payload: Seq<u8>)
    ensures
        spec_from_type_field(type_field, payload).type_code == type_field & 0x3fff,
        spec_from_type_field(type_field, payload).is_nested == (type_field & 0x8000 != 0),
        spec_from_type_field(type_field, payload).is_network_order == (type_field & 0x4000 != 0),
{
    assert(type_field % 0x4000 == type_field & 0x3fff) by (bit_vector);
    assert((type_field >= 0x8000) == (type_field & 0x8000 != 0)) by (bit_vector);
    assert((type_field % 0x8000 >= 0x4000) == (type_field & 0x4000 != 0)) by (bit_vector);
}

/// The type field of an attribute that can be encoded is its type code with
/// bit 15 set where it is nested and bit 14 set where its payload is in
/// network byte order.
pub proof fn lemma_type_field_flags(attr: AttributeView)
    requires
        attr.valid(),
    ensures
        attr.type_field() == attr.type_code | (if attr.is_nested {
            0x8000u16
        } else {
            0u16
        }) | (if attr.is_network_order {
            0x4000u16
        } else {
            0u16
        }),
{
    let code = attr.type_code;
    assert(code <= 0x3fff ==> code | 0u16 | 0u16 == code) by (bit_vector);
    assert(code <= 0x3fff ==> code | 0x8000u16 | 0u16 == code + 0x8000) by (bit_vector);
    assert(code <= 0x3fff ==> code | 0u16 | 0x4000u16 == code + 0x4000) by (bit_vector);
    assert(code <= 0x3fff ==> code | 0x8000u16 | 0x4000u16 == code + 0x8000 + 0x4000)
        by (bit_vector);
}

/// Splitting a type field into type code and flags loses nothing.
pub proof fn lemma_type_field_round_trip(type_field: u16, payload: Seq<u8>)
    ensures
        spec_from_type_field(type_field, payload).type_field() == type_field,
        spec_from_type_field(type_field, payload).type_code <= MAX_TYPE_CODE,
{
}

/// Where the attribute at the start of `bytes` has all of its padding and the
/// padding is zero, its encoding is the bytes that decoding it took.
pub proof fn lemma_encode_decode_one(bytes: Seq<u8>)
    requires
        spec_decode_one(bytes) is Some,
        spec_decode_one(bytes)->Some_0.1 == spec_decode_one(bytes)->Some_0.0.encoded_len(),
        bytes.subrange(
            spec_decode_one(bytes)->Some_0.0.length() as int,
            spec_decode_one(bytes)->Some_0.1 as int,
        ) == spec_zeros(spec_padding(spec_decode_one(bytes)->Some_0.0.length())),
    ensures
        spec_decode_one(bytes)->Some_0.0.valid(),
        spec_decode_one(bytes)->Some_0.0.encode() == bytes.take(
            spec_decode_one(bytes)->Some_0.1 as int,
        ),
{
    let (attr, used) = spec_decode_one(bytes)->Some_0;
    let length = spec_u16_from_bytes(bytes[0], bytes[1]);
    let type_field = spec_u16_from_bytes(bytes[2], bytes[3]);
    let padding = bytes.subrange(attr.length() as int, used as int);
    lemma_type_field_round_trip(type_field, attr.payload);
    lemma_u16_join_split(bytes[0], bytes[1]);
    lemma_u16_join_split(bytes[2], bytes[3]);
    assert(attr.length() == length);
    assert(attr.type_field() == type_field);
    let head = spec_u16_bytes(length) + spec_u16_bytes(type_field);
    assert(head == bytes.take(HEADER_LEN as int));
    assert(attr.encode() == head + attr.payload + padding);
    assert(head + attr.payload + padding == bytes.take(used as int));
}

/// Encoding what was decoded gives the bytes back, where every attribute in
/// them has all of its padding and the padding is zero.
pub proof fn lemma_encode_decode(bytes: Seq<u8>)
    requires
        spec_canonical(bytes),
    ensures
        spec_decode(bytes) is Some,
        spec_encode_all(spec_decode(bytes)->Some_0) == bytes,
    decreases bytes.len(),
{
    if bytes.len() == 0 {
        assert(spec_encode_all(Seq::<AttributeView>::empty()) == Seq::<u8>::empty());
        assert(bytes == Seq::<u8>::empty());
    } else {
        let (attr, used) = spec_decode_one(bytes)->Some_0;
        let rest = bytes.skip(used as int);
        lemma_encode_decode(rest);
        lemma_encode_decode_one(bytes);
        let tail = spec_decode(rest)->Some_0;
        let attrs = seq![attr] + tail;
        assert(attrs.drop_first() == tail);
        assert(attrs[0] == attr);
        assert(bytes.take(used as int) + rest == bytes);
    }
}

/// Lookup gives the first attribute with the type code: there is a position
/// that holds the result and has the type code, and no position before it has
/// the type code. It gives nothing exactly where no attribute has it.
pub proof fn lemma_find_first(attrs: Seq<AttributeView>, type_code: u16)
    ensures
        match spec_find(attrs, type_code) {
            Some(attr) => exists|i: int|
                0 <= i < attrs.len() && attrs[i] == attr && attr.type_code == type_code && forall|
                    j: int,
                |
                    0 <= j < i ==> (#[trigger] attrs[j]).type_code != type_code,
            None => forall|j: int|
                0 <= j < attrs.len() ==> (#[trigger] attrs[j]).type_code != type_code,
        },
    decreases attrs.len(),
{
    if attrs.len() == 0 {
    } else if attrs[0].type_code == type_code {
        assert(forall|j: int| 0 <= j < 0 ==> (#[trigger] attrs[j]).type_code != type_code);
    } else {
        let tail = attrs.drop_first();
        lemma_find_first(tail, type_code);
        match spec_find(tail, type_code) {
            Some(attr) => {
                let i = choose|i: int|
                    0 <= i < tail.len() && tail[i] == attr && attr.type_code == type_code && forall|
                        j: int,
                    |
                        0 <= j < i ==> (#[trigger] tail[j]).type_code != type_code;
                assert forall|j: int| 0 <= j < i + 1 implies (#[trigger] attrs[j]).type_code
                    != type_code by {
                    if j > 0 {
                        assert(attrs[j] == tail[j - 1]);
                    }
                }
                assert(attrs[i + 1] == attr);
            },
            None => {
                assert forall|j: int| 0 <= j < attrs.len() implies (#[trigger] attrs[j]).type_code
                    != type_code by {
                    if j > 0 {
                        assert(attrs[j] == tail[j - 1]);
                    }
                }
            },
        }
    }
}

/// Lookup in a level of one attribute finds it by its type code and by no
/// other.
pub proof fn lemma_find_single(attr: AttributeView, type_code: u16)
    ensures
        spec_find(seq![attr], type_code) == (if attr.type_code == type_code {
            Some(attr)
        } else {
            None
        }),
{
    let level = seq![attr];
    assert(level[0] == attr);
    assert(level.drop_first() == Seq::<AttributeView>::empty());
    assert(spec_find(level.drop_first(), type_code) is None);
}

/// Lookup in a level of two attributes finds the first by its type code,
/// else the second by its own.
pub proof fn lemma_find_pair(first: AttributeView, second: AttributeView, type_code: u16)
    ensures
        spec_find(seq![first, second], type_code) == (if first.type_code == type_code {
            Some(first)
        } else if second.type_code == type_code {
            Some(second)
        } else {
            None
        }),
{
    let level = seq![first, second];
    assert(level[0] == first);
    assert(level.drop_first() == seq![second]);
    lemma_find_single(second, type_code);
}

/// The encoding of two attributes is the encoding of the first followed by
/// that of the second.
pub proof fn lemma_encode_pair(first: AttributeView, second: AttributeView)
    ensures
        spec_encode_all(seq![first, second]) == first.encode() + second.encode(),
{
    let pair = seq![first, second];
    let one = seq![second];
    assert(pair.drop_first() == one);
    assert(one.drop_first() == Seq::<AttributeView>::empty());
    assert(spec_encode_all(one.drop_first()) == Seq::<u8>::empty());
    assert(spec_encode_all(one) == second.encode() + Seq::<u8>::empty());
    assert(second.encode() + Seq::<u8>::empty() == second.encode());
}

/// An attribute with another type code, put in at any position, does not
/// change what lookup finds.
pub proof fn lemma_find_ignores_others(
    attrs: Seq<AttributeView>,
    position: int,
    extra: AttributeView,
    type_code: u16,
)
    requires
        0 <= position <= attrs.len(),
        extra.type_code != type_code,
    ensures
        spec_find(attrs.insert(position, extra), type_code) == spec_find(attrs, type_code),
    decreases attrs.len(),
{
    let longer = attrs.insert(position, extra);
    if position == 0 {
        assert(longer.drop_first() == attrs);
    } else {
        assert(longer[0] == attrs[0]);
        assert(longer.drop_first() == attrs.drop_first().insert(position - 1, extra));
        lemma_find_ignores_others(attrs.drop_first(), position - 1, extra, type_code);
    }
}

/// Bytes whose first header is cut short, or declares a length that is less
/// than the header or more than the bytes that are there, do not decode.
pub proof fn lemma_decode_truncated(bytes: Seq<u8>)
    requires
        bytes.len() > 0,
        bytes.len() < HEADER_LEN || spec_u16_from_bytes(bytes[0], bytes[1]) < HEADER_LEN
            || spec_u16_from_bytes(bytes[0], bytes[1]) > bytes.len(),
    ensures
        spec_decode(bytes) is None,
{
}

} // verus!
