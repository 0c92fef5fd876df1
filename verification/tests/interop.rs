use std::io::Cursor;

use conntrack::{build_delete, decode, make_attribute, Attribute, AttributeTree, IpAddress};
use neli::genl::{AttrTypeBuilder, Nlattr, NlattrBuilder};
use neli::types::{Buffer, GenlBuffer};
use neli::{FromBytesWithInput, Size, ToBytes};

fn neli_attr<P: Size + ToBytes>(type_code: u16, nested: bool, payload: P) -> Nlattr<u16, Buffer> {
    let attr_type =
        AttrTypeBuilder::default().nla_type(type_code).nla_nested(nested).build().unwrap();
    NlattrBuilder::default().nla_type(attr_type).nla_payload(payload).build().unwrap()
}

fn neli_bytes<T: ToBytes>(value: &T) -> Vec<u8> {
    let mut cursor = Cursor::new(Vec::new());
    value.to_bytes(&mut cursor).unwrap();
    cursor.into_inner()
}

fn neli_delete(protocol: u8, address_code: u16, address: Vec<u8>, top_code: u16) -> Vec<u8> {
    let ip_attr = neli_attr(address_code, false, Buffer::from(address));
    let ip_tuple = neli_attr(1, true, ip_attr);
    let number = (protocol as u32).to_ne_bytes().to_vec();
    let proto_attr = neli_attr(1, false, Buffer::from(number));
    let proto_tuple = neli_attr(2, true, proto_attr);
    let top = neli_attr(top_code, true, ip_tuple).nest(&proto_tuple).unwrap();
    neli_bytes(&top)
}

fn little_endian_host() -> bool {
    1u16.to_ne_bytes() == [1, 0]
}

#[test]
fn encode_agrees_with_neli_for_scalars() {
    assert!(little_endian_host());
    for len in 0..12usize {
        let payload: Vec<u8> = (0..len as u8).collect();
        let ours = make_attribute(0x0123, false, payload.clone()).unwrap().encode();
        let theirs = neli_bytes(&neli_attr(0x0123, false, Buffer::from(payload)));
        assert_eq!(ours, theirs);
    }
}

#[test]
fn encode_agrees_with_neli_for_nested_attributes() {
    assert!(little_endian_host());
    let child = make_attribute(3, false, vec![1u8, 2, 3]).unwrap();
    let ours = make_attribute(9, true, child).unwrap().encode();
    let their_child = neli_attr(3, false, Buffer::from(vec![1u8, 2, 3]));
    let theirs = neli_bytes(&neli_attr(9, true, their_child));
    assert_eq!(ours, theirs);
}

#[test]
fn nest_agrees_with_neli() {
    assert!(little_endian_host());
    let first = make_attribute(1, false, vec![0xaau8]).unwrap();
    let second = make_attribute(2, false, vec![0xbbu8, 0xcc]).unwrap();
    let ours = make_attribute(7, true, first).unwrap().nest(&second).unwrap().encode();
    let their_first = neli_attr(1, false, Buffer::from(vec![0xaau8]));
    let their_second = neli_attr(2, false, Buffer::from(vec![0xbbu8, 0xcc]));
    let theirs = neli_bytes(&neli_attr(7, true, their_first).nest(&their_second).unwrap());
    assert_eq!(ours, theirs);
}

#[test]
fn build_delete_agrees_with_neli() {
    assert!(little_endian_host());
    let v6 = [0x20, 0x01, 0x0d, 0xb8, 0, 0, 0, 0, 0, 0, 0, 0, 0, 0, 0, 1];
    assert_eq!(
        build_delete(6, &IpAddress::V4([10, 0, 0, 1]), true).encode(),
        neli_delete(6, 1, vec![10, 0, 0, 1], 1)
    );
    assert_eq!(
        build_delete(17, &IpAddress::V4([10, 0, 0, 1]), false).encode(),
        neli_delete(17, 2, vec![10, 0, 0, 1], 2)
    );
    assert_eq!(
        build_delete(6, &IpAddress::V6(v6), true).encode(),
        neli_delete(6, 3, v6.to_vec(), 1)
    );
    assert_eq!(
        build_delete(255, &IpAddress::V6(v6), false).encode(),
        neli_delete(255, 4, v6.to_vec(), 2)
    );
}

#[test]
fn neli_reads_what_encode_wrote() {
    assert!(little_endian_host());
    let attrs: Vec<Attribute> = vec![
        make_attribute(1, false, vec![1u8]).unwrap(),
        make_attribute(2, true, make_attribute(1, false, vec![9u8, 9]).unwrap()).unwrap(),
        make_attribute(0x3fff, false, Vec::<u8>::new()).unwrap(),
    ];
    let bytes = AttributeTree::from_attributes(attrs.clone()).encode();
    let parsed =
        GenlBuffer::<u16, Buffer>::from_bytes_with_input(&mut Cursor::new(&bytes), bytes.len())
            .unwrap();
    let parsed: Vec<&Nlattr<u16, Buffer>> = parsed.iter().collect();
    assert_eq!(parsed.len(), attrs.len());
    for (theirs, ours) in parsed.iter().zip(attrs.iter()) {
        assert_eq!(*theirs.nla_type().nla_type(), ours.type_code());
        assert_eq!(*theirs.nla_type().nla_nested(), ours.is_nested());
        assert_eq!(*theirs.nla_type().nla_network_order(), ours.is_network_order());
        assert_eq!(theirs.nla_payload().as_ref(), ours.payload());
        assert_eq!(*theirs.nla_len() as usize, 4 + ours.payload().len());
    }
}

#[test]
fn decode_reads_what_neli_wrote() {
    assert!(little_endian_host());
    let mut buffer = GenlBuffer::<u16, Buffer>::new();
    buffer.push(neli_attr(5, false, Buffer::from(vec![1u8, 2, 3, 4, 5])));
    buffer.push(neli_attr(6, true, neli_attr(1, false, Buffer::from(vec![7u8]))));
    let bytes = neli_bytes(&buffer);
    let tree = decode(&bytes).unwrap();
    assert_eq!(tree.len(), 2);
    let first = tree.at(0).unwrap();
    assert_eq!((first.type_code(), first.is_nested()), (5, false));
    assert_eq!(first.payload(), &[1, 2, 3, 4, 5]);
    let second = tree.at(1).unwrap();
    assert_eq!((second.type_code(), second.is_nested()), (6, true));
    assert_eq!(second.payload(), &[5, 0, 1, 0, 7, 0, 0, 0]);
}
