//! Decoding a run of attributes, and looking attributes up by type code.
//!
//! Decoding reads one level only. Where an attribute is known to hold
//! attributes, its payload is decoded by another call.

use vstd::prelude::*;
use vstd::slice::slice_to_vec;
use crate::attribute::{spec_encode_all, spec_from_type_field, Attribute, AttributeView, IntoBuffer};
use crate::error::DecodeError;
use crate::wire::{align, spec_align, spec_u16_from_bytes, u16_from_bytes, HEADER_LEN};

verus! {

/// The attribute at the start of `bytes` and the number of bytes that it
/// takes: header, payload, and as much of the padding as is there.
/// `None` where the header is cut short or declares a length that is less than
/// the header or more than `bytes` holds.
pub open spec fn spec_decode_one(bytes: Seq<u8>) -> Option<(AttributeView, nat)> {
    if bytes.len() < HEADER_LEN {
        None
    } else {
        let length = spec_u16_from_bytes(bytes[0], bytes[1]);
        let type_field = spec_u16_from_bytes(bytes[2], bytes[3]);
        if length < HEADER_LEN || length > bytes.len() {
            None
        } else {
            let aligned = spec_align(length as nat);
            let used = if aligned <= bytes.len() {
                aligned
            } else {
                bytes.len()
            };
            Some(
                (
                    spec_from_type_field(type_field, bytes.subrange(HEADER_LEN as int, length as int)),
                    used,
                ),
            )
        }
    }
}

/// The attributes that `bytes` holds, one after the other, until the bytes
/// are used up. `None` where one of them is cut short.
pub open spec fn spec_decode(bytes: Seq<u8>) -> Option<Seq<AttributeView>>
    decreases bytes.len(),
{
    if bytes.len() == 0 {
        Some(Seq::empty())
    } else {
        match spec_decode_one(bytes) {
            None => None,
            Some((attr, used)) => match spec_decode(bytes.skip(used as int)) {
                None => None,
                Some(rest) => Some(seq![attr] + rest),
            },
        }
    }
}

/// The first attribute of `attrs` with the given type code.
pub open spec fn spec_find(attrs: Seq<AttributeView>, type_code: u16) -> Option<AttributeView>
    decreases attrs.len(),
{
    if attrs.len() == 0 {
        None
    } else if attrs[0].type_code == type_code {
        Some(attrs[0])
    } else {
        spec_find(attrs.drop_first(), type_code)
    }
}

/// `front` followed by what `rest` holds, where it holds anything.
spec fn spec_prepend(front: Seq<AttributeView>, rest: Option<Seq<AttributeView>>) -> Option<
    Seq<AttributeView>,
> {
    match rest {
        None => None,
        Some(rest) => Some(front + rest),
    }
}

/// The sibling attributes of one level, in the order of the wire.
#[derive(Debug, PartialEq, Eq)]
pub struct AttributeTree {
    attrs: Vec<Attribute>,
}

impl View for AttributeTree {
    type V = Seq<AttributeView>;

    closed spec fn view(&self) -> Seq<AttributeView> {
        Seq::new(self.attrs@.len(), |i: int| self.attrs@[i]@)
    }
}

impl AttributeTree {
    /// The tree of the given attributes, in their order.
    pub fn from_attributes(attrs: Vec<Attribute>) -> (r: AttributeTree)
        ensures
            r@.len() == attrs@.len(),
            forall|i: int| 0 <= i < attrs@.len() ==> r@[i] == attrs@[i]@,
    {
        AttributeTree { attrs }
    }

    /// The number of attributes.
    pub fn len(&self) -> (r: usize)
        ensures
            r == self@.len(),
    {
        self.attrs.len()
    }

    /// The attribute at position `index`, where there is one.
    pub fn at(&self, index: usize) -> (r: Option<&Attribute>)
        ensures
            index < self@.len() ==> r is Some && r->Some_0@ == self@[index as int],
            index >= self@.len() ==> r is None,
    {
        if index < self.attrs.len() {
            Some(&self.attrs[index])
        } else {
            None
        }
    }

    /// The first attribute with the given type code, where there is one.
    pub fn get(&self, type_code: u16) -> (r: Option<&Attribute>)
        ensures
            match spec_find(self@, type_code) {
                Some(attr) => r is Some && r->Some_0@ == attr,
                None => r is None,
            },
    {
        let mut i: usize = 0;
        assert(self@.skip(0) == self@);
        while i < self.attrs.len()
            invariant
                i <= self.attrs@.len(),
                spec_find(self@, type_code) == spec_find(self@.skip(i as int), type_code),
            decreases self.attrs@.len() - i,
        {
            let attr = &self.attrs[i];
            assert(self@.skip(i as int)[0] == attr@);
            if attr.type_code() == type_code {
                return Some(attr);
            }
            assert(self@.skip(i as int).drop_first() == self@.skip(i + 1));
            i = i + 1;
        }
        None
    }

    /// The attributes on the wire, one after the other.
    pub fn encode(&self) -> (bytes: Vec<u8>)
        ensures
            bytes@ == spec_encode_all(self@),
    {
        let mut bytes: Vec<u8> = Vec::new();
        let mut i: usize = 0;
        while i < self.attrs.len()
            invariant
                i <= self.attrs@.len(),
                bytes@ == spec_encode_all(self@.take(i as int)),
            decreases self.attrs@.len() - i,
        {
            let encoded = self.attrs[i].encode();
            proof {
                lemma_encode_all_push(self@.take(i as int), self@[i as int]);
                assert(self@.take(i as int).push(self@[i as int]) == self@.take(i + 1));
            }
            bytes.extend_from_slice(encoded.as_slice());
            assert(bytes@ == spec_encode_all(self@.take(i as int)) + self@[i as int].encode());
            i = i + 1;
        }
        assert(self@.take(i as int) == self@);
        bytes
    }
}

impl IntoBuffer for AttributeTree {
    open spec fn buffer(&self) -> Seq<u8> {
        spec_encode_all(self@)
    }

    fn into_buffer(self) -> (bytes: Vec<u8>) {
        self.encode()
    }
}

/// Encoding a run with one more attribute at its end adds that attribute's
/// encoding at the end.
pub proof fn lemma_encode_all_push(attrs: Seq<AttributeView>, last: AttributeView)
    ensures
        spec_encode_all(attrs.push(last)) == spec_encode_all(attrs) + last.encode(),
    decreases attrs.len(),
{
    if attrs.len() == 0 {
        let one = attrs.push(last);
        assert(one.drop_first() == Seq::<AttributeView>::empty());
        assert(spec_encode_all(one.drop_first()) == Seq::<u8>::empty());
        assert(spec_encode_all(one) == one[0].encode() + spec_encode_all(one.drop_first()));
        assert(last.encode() + Seq::<u8>::empty() == last.encode());
        assert(Seq::<u8>::empty() + last.encode() == last.encode());
    } else {
        lemma_encode_all_push(attrs.drop_first(), last);
        assert(attrs.push(last).drop_first() == attrs.drop_first().push(last));
        assert(attrs.push(last)[0] == attrs[0]);
    }
}

/// Reads the attributes of one level from `bytes`. Fails where an attribute
/// header is cut short, or declares a length that is less than the header or
/// more than the bytes that remain. Padding is skipped without a look at it,
/// and may be missing after the last attribute.
pub fn decode(bytes: &[u8]) -> (r: Result<AttributeTree, DecodeError>)
    ensures
        match spec_decode(bytes@) {
            Some(attrs) => r is Ok && r->Ok_0@ == attrs,
            None => r == Err::<AttributeTree, _>(DecodeError::TruncatedAttribute),
        },
{
    let mut attrs: Vec<Attribute> = Vec::new();
    let ghost mut views: Seq<AttributeView> = Seq::empty();
    let mut pos: usize = 0;
    assert(bytes@.skip(0) == bytes@);
    while pos < bytes.len()
        invariant
            pos <= bytes@.len(),
            views.len() == attrs@.len(),
            forall|i: int| 0 <= i < views.len() ==> views[i] == attrs@[i]@,
            spec_decode(bytes@) == spec_prepend(views, spec_decode(bytes@.skip(pos as int))),
        decreases bytes@.len() - pos,
    {
        let ghost rest = bytes@.skip(pos as int);
        let remaining: usize = bytes.len() - pos;
        if remaining < HEADER_LEN {
            return Err(DecodeError::TruncatedAttribute);
        }
        let length: usize = u16_from_bytes(bytes[pos], bytes[pos + 1]) as usize;
        let type_field: u16 = u16_from_bytes(bytes[pos + 2], bytes[pos + 3]);
        if length < HEADER_LEN || length > remaining {
            return Err(DecodeError::TruncatedAttribute);
        }
        let payload = slice_to_vec(&bytes[pos + HEADER_LEN..pos + length]);
        assert(payload@ == rest.subrange(HEADER_LEN as int, length as int));
        let attr = Attribute::from_type_field(type_field, payload);
        let aligned: usize = align(length);
        let used: usize = if aligned <= remaining {
            aligned
        } else {
            remaining
        };
        proof {
            assert(spec_decode_one(rest) == Some((attr@, used as nat)));
            assert(rest.skip(used as int) == bytes@.skip(pos + used));
            let tail = spec_decode(bytes@.skip(pos + used));
            if tail is Some {
                assert(views.push(attr@) + tail->Some_0 == views + (seq![attr@] + tail->Some_0));
            }
            views = views.push(attr@);
        }
        attrs.push(attr);
        pos = pos + used;
    }
    assert(views + Seq::<AttributeView>::empty() == views);
    let tree = AttributeTree { attrs };
    assert(tree@ == views);
    Ok(tree)
}

} // verus!
