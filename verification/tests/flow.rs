use conntrack::codes::{
    CTA_IP_V4_DST, CTA_IP_V4_SRC, CTA_IP_V6_DST, CTA_IP_V6_SRC, CTA_PROTO_NUM, CTA_STATUS,
    CTA_TIMEOUT, CTA_TUPLE_IP, CTA_TUPLE_ORIG, CTA_TUPLE_PROTO, CTA_TUPLE_REPLY,
};
use conntrack::{
    build_delete, decode, decode_dump, decode_entry, decode_flow, decode_tuple, make_attribute,
    Attribute, AttributeTree, DecodeError, DumpFailure, Flow, IpAddress, Tuple,
};

fn scalar(type_code: u16, payload: &[u8]) -> Attribute {
    make_attribute(type_code, false, payload.to_vec()).unwrap()
}

fn nested(type_code: u16, children: Vec<Attribute>) -> Attribute {
    make_attribute(type_code, true, AttributeTree::from_attributes(children)).unwrap()
}

fn addresses_v4(source: [u8; 4], destination: [u8; 4]) -> Attribute {
    nested(
        CTA_TUPLE_IP,
        vec![scalar(CTA_IP_V4_SRC, &source), scalar(CTA_IP_V4_DST, &destination)],
    )
}

fn addresses_v6(source: [u8; 16], destination: [u8; 16]) -> Attribute {
    nested(
        CTA_TUPLE_IP,
        vec![scalar(CTA_IP_V6_SRC, &source), scalar(CTA_IP_V6_DST, &destination)],
    )
}

fn protocol(number: u8) -> Attribute {
    nested(CTA_TUPLE_PROTO, vec![scalar(CTA_PROTO_NUM, &[number, 0, 0, 0])])
}

fn tuple_v4(type_code: u16, source: [u8; 4], destination: [u8; 4], number: u8) -> Attribute {
    nested(type_code, vec![addresses_v4(source, destination), protocol(number)])
}

fn client() -> [u8; 4] {
    [192, 168, 1, 10]
}

fn router() -> [u8; 4] {
    [203, 0, 113, 5]
}

fn server() -> [u8; 4] {
    [93, 184, 216, 34]
}

fn natted_flow() -> Flow {
    Flow {
        origin: Tuple {
            protocol: 6,
            source: IpAddress::V4(client()),
            destination: IpAddress::V4(server()),
        },
        reply: Tuple {
            protocol: 6,
            source: IpAddress::V4(server()),
            destination: IpAddress::V4(router()),
        },
    }
}

fn natted_attributes() -> Vec<Attribute> {
    vec![
        tuple_v4(CTA_TUPLE_ORIG, client(), server(), 6),
        tuple_v4(CTA_TUPLE_REPLY, server(), router(), 6),
    ]
}

fn entry(attrs: Vec<Attribute>) -> Vec<u8> {
    let mut payload = vec![2, 0, 0, 0];
    payload.extend(AttributeTree::from_attributes(attrs).encode());
    payload
}

#[test]
fn decode_flow_reads_both_tuples() {
    let tree = AttributeTree::from_attributes(natted_attributes());
    assert_eq!(decode_flow(&tree), Ok(natted_flow()));
}

#[test]
fn decode_flow_does_not_assume_symmetric_tuples() {
    let flow = decode_flow(&AttributeTree::from_attributes(natted_attributes())).unwrap();
    assert_ne!(flow.origin.source, flow.reply.destination);
    assert_eq!(flow.reply.destination, IpAddress::V4(router()));
}

#[test]
fn decode_flow_reads_ipv6_tuples() {
    let a = [0x20, 0x01, 0x0d, 0xb8, 0, 0, 0, 0, 0, 0, 0, 0, 0, 0, 0, 1];
    let b = [0x20, 0x01, 0x0d, 0xb8, 0, 0, 0, 0, 0, 0, 0, 0, 0, 0, 0, 2];
    let tree = AttributeTree::from_attributes(vec![
        nested(CTA_TUPLE_ORIG, vec![addresses_v6(a, b), protocol(17)]),
        nested(CTA_TUPLE_REPLY, vec![addresses_v6(b, a), protocol(17)]),
    ]);
    let flow = decode_flow(&tree).unwrap();
    assert_eq!(
        flow.origin,
        Tuple { protocol: 17, source: IpAddress::V6(a), destination: IpAddress::V6(b) }
    );
    assert_eq!(
        flow.reply,
        Tuple { protocol: 17, source: IpAddress::V6(b), destination: IpAddress::V6(a) }
    );
}

#[test]
fn decode_flow_takes_the_tuples_in_any_order() {
    let mut attrs = natted_attributes();
    attrs.reverse();
    assert_eq!(decode_flow(&AttributeTree::from_attributes(attrs)), Ok(natted_flow()));
}

#[test]
fn decode_flow_without_reply_tuple_is_missing_tuple() {
    let tree =
        AttributeTree::from_attributes(vec![tuple_v4(CTA_TUPLE_ORIG, client(), server(), 6)]);
    assert_eq!(decode_flow(&tree), Err(DecodeError::MissingTuple));
}

#[test]
fn decode_flow_without_original_tuple_is_missing_tuple() {
    let tree =
        AttributeTree::from_attributes(vec![tuple_v4(CTA_TUPLE_REPLY, server(), router(), 6)]);
    assert_eq!(decode_flow(&tree), Err(DecodeError::MissingTuple));
}

#[test]
fn decode_flow_of_nothing_is_missing_tuple() {
    assert_eq!(decode_flow(&AttributeTree::from_attributes(vec![])), Err(DecodeError::MissingTuple));
}

#[test]
fn decode_flow_reports_a_missing_tuple_before_a_malformed_one() {
    let tree = AttributeTree::from_attributes(vec![nested(CTA_TUPLE_ORIG, vec![])]);
    assert_eq!(decode_flow(&tree), Err(DecodeError::MissingTuple));
}

#[test]
fn decode_flow_of_a_delete_attribute_is_missing_tuple() {
    let attr = build_delete(6, &IpAddress::V4([10, 0, 0, 1]), true);
    let tree = AttributeTree::from_attributes(vec![attr]);
    assert_eq!(decode_flow(&tree), Err(DecodeError::MissingTuple));
}

#[test]
fn decode_flow_ignores_unknown_top_level_attributes() {
    let mut attrs = vec![
        scalar(CTA_STATUS, &[0, 0, 1, 0x8e]),
        tuple_v4(CTA_TUPLE_ORIG, client(), server(), 6),
        scalar(CTA_TIMEOUT, &[0, 0, 0, 119]),
        scalar(0x3fff, &[1, 2, 3]),
        tuple_v4(CTA_TUPLE_REPLY, server(), router(), 6),
        nested(4, vec![nested(1, vec![scalar(1, &[3])])]),
        scalar(8, &[0, 0, 0, 0]),
        scalar(12, &[0xde, 0xad, 0xbe, 0xef]),
        scalar(200, &[]),
    ];
    assert_eq!(decode_flow(&AttributeTree::from_attributes(attrs.clone())), Ok(natted_flow()));
    attrs.rotate_left(4);
    assert_eq!(decode_flow(&AttributeTree::from_attributes(attrs)), Ok(natted_flow()));
}

#[test]
fn decode_flow_ignores_unknown_attributes_inside_tuples() {
    let addresses = nested(
        CTA_TUPLE_IP,
        vec![scalar(9, &[1]), scalar(CTA_IP_V4_SRC, &client()), scalar(CTA_IP_V4_DST, &server())],
    );
    let proto = nested(
        CTA_TUPLE_PROTO,
        vec![
            scalar(CTA_PROTO_NUM, &[6, 0, 0, 0]),
            scalar(2, &[0x1f, 0x90]),
            scalar(3, &[0x00, 0x50]),
        ],
    );
    let zone = scalar(3, &[0, 1]);
    let tree = AttributeTree::from_attributes(vec![
        nested(CTA_TUPLE_ORIG, vec![addresses, zone, proto]),
        tuple_v4(CTA_TUPLE_REPLY, server(), router(), 6),
    ]);
    assert_eq!(decode_flow(&tree), Ok(natted_flow()));
}

#[test]
fn decode_flow_takes_the_first_of_two_tuples_with_one_type_code() {
    let tree = AttributeTree::from_attributes(vec![
        tuple_v4(CTA_TUPLE_ORIG, client(), server(), 6),
        tuple_v4(CTA_TUPLE_ORIG, [1, 1, 1, 1], [2, 2, 2, 2], 17),
        tuple_v4(CTA_TUPLE_REPLY, server(), router(), 6),
    ]);
    assert_eq!(decode_flow(&tree), Ok(natted_flow()));
}

#[test]
fn decode_flow_with_a_malformed_reply_tuple_is_malformed_tuple() {
    let tree = AttributeTree::from_attributes(vec![
        tuple_v4(CTA_TUPLE_ORIG, client(), server(), 6),
        nested(CTA_TUPLE_REPLY, vec![addresses_v4(server(), router())]),
    ]);
    assert_eq!(decode_flow(&tree), Err(DecodeError::MalformedTuple));
}

#[test]
fn decode_tuple_reads_addresses_and_protocol() {
    let attr = tuple_v4(CTA_TUPLE_ORIG, client(), server(), 6);
    assert_eq!(
        decode_tuple(attr.payload()),
        Ok(Tuple {
            protocol: 6,
            source: IpAddress::V4(client()),
            destination: IpAddress::V4(server()),
        })
    );
}

#[test]
fn decode_tuple_reads_the_protocol_from_the_first_byte() {
    let proto = nested(CTA_TUPLE_PROTO, vec![scalar(CTA_PROTO_NUM, &[17, 1, 2, 3])]);
    let attr = nested(CTA_TUPLE_ORIG, vec![addresses_v4(client(), server()), proto]);
    assert_eq!(decode_tuple(attr.payload()).unwrap().protocol, 17);
}

#[test]
fn decode_tuple_takes_families_by_the_type_codes_that_are_there() {
    let v6 = [0xfe, 0x80, 0, 0, 0, 0, 0, 0, 0, 0, 0, 0, 0, 0, 0, 9];
    let addresses = nested(
        CTA_TUPLE_IP,
        vec![scalar(CTA_IP_V6_SRC, &v6), scalar(CTA_IP_V4_DST, &server())],
    );
    let attr = nested(CTA_TUPLE_ORIG, vec![addresses, protocol(6)]);
    assert_eq!(
        decode_tuple(attr.payload()),
        Ok(Tuple { protocol: 6, source: IpAddress::V6(v6), destination: IpAddress::V4(server()) })
    );
}

#[test]
fn decode_tuple_prefers_ipv4_where_both_families_are_there() {
    let v6 = [0xfe, 0x80, 0, 0, 0, 0, 0, 0, 0, 0, 0, 0, 0, 0, 0, 9];
    let addresses = nested(
        CTA_TUPLE_IP,
        vec![
            scalar(CTA_IP_V6_SRC, &v6),
            scalar(CTA_IP_V4_SRC, &client()),
            scalar(CTA_IP_V4_DST, &server()),
        ],
    );
    let attr = nested(CTA_TUPLE_ORIG, vec![addresses, protocol(6)]);
    assert_eq!(decode_tuple(attr.payload()).unwrap().source, IpAddress::V4(client()));
}

#[test]
fn decode_tuple_without_addresses_is_malformed() {
    let attr = nested(CTA_TUPLE_ORIG, vec![protocol(6)]);
    assert_eq!(decode_tuple(attr.payload()), Err(DecodeError::MalformedTuple));
}

#[test]
fn decode_tuple_without_protocol_is_malformed() {
    let attr = nested(CTA_TUPLE_ORIG, vec![addresses_v4(client(), server())]);
    assert_eq!(decode_tuple(attr.payload()), Err(DecodeError::MalformedTuple));
}

#[test]
fn decode_tuple_without_protocol_number_is_malformed() {
    let proto = nested(CTA_TUPLE_PROTO, vec![scalar(2, &[0, 80])]);
    let attr = nested(CTA_TUPLE_ORIG, vec![addresses_v4(client(), server()), proto]);
    assert_eq!(decode_tuple(attr.payload()), Err(DecodeError::MalformedTuple));
}

#[test]
fn decode_tuple_without_source_is_malformed() {
    let addresses = nested(CTA_TUPLE_IP, vec![scalar(CTA_IP_V4_DST, &server())]);
    let attr = nested(CTA_TUPLE_ORIG, vec![addresses, protocol(6)]);
    assert_eq!(decode_tuple(attr.payload()), Err(DecodeError::MalformedTuple));
}

#[test]
fn decode_tuple_without_destination_is_malformed() {
    let addresses = nested(CTA_TUPLE_IP, vec![scalar(CTA_IP_V4_SRC, &client())]);
    let attr = nested(CTA_TUPLE_ORIG, vec![addresses, protocol(6)]);
    assert_eq!(decode_tuple(attr.payload()), Err(DecodeError::MalformedTuple));
}

#[test]
fn decode_tuple_with_a_short_ipv4_address_is_malformed() {
    let addresses = nested(
        CTA_TUPLE_IP,
        vec![scalar(CTA_IP_V4_SRC, &[10, 0, 0]), scalar(CTA_IP_V4_DST, &server())],
    );
    let attr = nested(CTA_TUPLE_ORIG, vec![addresses, protocol(6)]);
    assert_eq!(decode_tuple(attr.payload()), Err(DecodeError::MalformedTuple));
}

#[test]
fn decode_tuple_with_a_long_ipv4_address_is_malformed() {
    let addresses = nested(
        CTA_TUPLE_IP,
        vec![scalar(CTA_IP_V4_SRC, &client()), scalar(CTA_IP_V4_DST, &[10, 0, 0, 1, 0])],
    );
    let attr = nested(CTA_TUPLE_ORIG, vec![addresses, protocol(6)]);
    assert_eq!(decode_tuple(attr.payload()), Err(DecodeError::MalformedTuple));
}

#[test]
fn decode_tuple_with_an_ipv6_address_of_four_bytes_is_malformed() {
    let addresses = nested(
        CTA_TUPLE_IP,
        vec![scalar(CTA_IP_V6_SRC, &client()), scalar(CTA_IP_V6_DST, &[0; 16])],
    );
    let attr = nested(CTA_TUPLE_ORIG, vec![addresses, protocol(6)]);
    assert_eq!(decode_tuple(attr.payload()), Err(DecodeError::MalformedTuple));
}

#[test]
fn decode_tuple_with_a_one_byte_protocol_number_is_malformed() {
    let proto = nested(CTA_TUPLE_PROTO, vec![scalar(CTA_PROTO_NUM, &[6])]);
    let attr = nested(CTA_TUPLE_ORIG, vec![addresses_v4(client(), server()), proto]);
    assert_eq!(decode_tuple(attr.payload()), Err(DecodeError::MalformedTuple));
}

#[test]
fn decode_tuple_with_cut_nested_bytes_is_malformed() {
    assert_eq!(decode_tuple(&[12, 0, 1, 0x80, 8, 0]), Err(DecodeError::MalformedTuple));
    let addresses = make_attribute(CTA_TUPLE_IP, true, vec![8u8, 0, 1, 0, 10, 0]).unwrap();
    let attr = nested(CTA_TUPLE_ORIG, vec![addresses, protocol(6)]);
    assert_eq!(decode_tuple(attr.payload()), Err(DecodeError::MalformedTuple));
    let proto = make_attribute(CTA_TUPLE_PROTO, true, vec![9u8, 0, 1, 0, 6, 0, 0, 0]).unwrap();
    let attr = nested(CTA_TUPLE_ORIG, vec![addresses_v4(client(), server()), proto]);
    assert_eq!(decode_tuple(attr.payload()), Err(DecodeError::MalformedTuple));
}

#[test]
fn decode_tuple_reads_what_build_delete_wrote_once_completed() {
    let built = build_delete(6, &IpAddress::V4(client()), true);
    assert_eq!(decode_tuple(built.payload()), Err(DecodeError::MalformedTuple));
    let children = decode(built.payload()).unwrap();
    let number = children.get(CTA_TUPLE_PROTO).unwrap().clone();
    let attr = nested(CTA_TUPLE_ORIG, vec![addresses_v4(client(), server()), number]);
    assert_eq!(decode_tuple(attr.payload()).unwrap().protocol, 6);
}

#[test]
fn decode_entry_skips_the_netfilter_header() {
    assert_eq!(decode_entry(&entry(natted_attributes())), Ok(natted_flow()));
    let mut other_header = entry(natted_attributes());
    other_header[0] = 10;
    other_header[2] = 0xab;
    other_header[3] = 0xcd;
    assert_eq!(decode_entry(&other_header), Ok(natted_flow()));
}

#[test]
fn decode_entry_shorter_than_its_header_is_truncated() {
    assert_eq!(decode_entry(&[]), Err(DecodeError::TruncatedAttribute));
    assert_eq!(decode_entry(&[2, 0, 0]), Err(DecodeError::TruncatedAttribute));
}

#[test]
fn decode_entry_with_cut_attributes_is_truncated() {
    let mut payload = entry(natted_attributes());
    payload.truncate(payload.len() - 5);
    assert_eq!(decode_entry(&payload), Err(DecodeError::TruncatedAttribute));
    assert_eq!(decode_entry(&[2, 0, 0, 0, 20, 0, 1, 0, 1, 2]), Err(DecodeError::TruncatedAttribute));
}

#[test]
fn decode_entry_with_header_alone_is_missing_tuple() {
    assert_eq!(decode_entry(&[2, 0, 0, 0]), Err(DecodeError::MissingTuple));
}

#[test]
fn decode_dump_passes_over_an_entry_without_reply_tuple() {
    let second = Flow {
        origin: Tuple {
            protocol: 17,
            source: IpAddress::V4([10, 0, 0, 2]),
            destination: IpAddress::V4([8, 8, 8, 8]),
        },
        reply: Tuple {
            protocol: 17,
            source: IpAddress::V4([8, 8, 8, 8]),
            destination: IpAddress::V4([10, 0, 0, 2]),
        },
    };
    let entries = vec![
        entry(natted_attributes()),
        entry(vec![tuple_v4(CTA_TUPLE_ORIG, client(), server(), 6)]),
        entry(vec![
            tuple_v4(CTA_TUPLE_ORIG, [10, 0, 0, 2], [8, 8, 8, 8], 17),
            tuple_v4(CTA_TUPLE_REPLY, [8, 8, 8, 8], [10, 0, 0, 2], 17),
        ]),
    ];
    assert_eq!(decode_entry(&entries[1]), Err(DecodeError::MissingTuple));
    let report = decode_dump(&entries);
    assert_eq!(report.flows, vec![natted_flow(), second]);
    assert_eq!(report.failures, vec![DumpFailure { index: 1, error: DecodeError::MissingTuple }]);
}

#[test]
fn decode_dump_records_every_kind_of_failure() {
    let entries = vec![
        vec![2, 0],
        entry(natted_attributes()),
        entry(vec![
            tuple_v4(CTA_TUPLE_ORIG, client(), server(), 6),
            nested(CTA_TUPLE_REPLY, vec![]),
        ]),
        vec![2, 0, 0, 0],
    ];
    let report = decode_dump(&entries);
    assert_eq!(report.flows, vec![natted_flow()]);
    assert_eq!(
        report.failures,
        vec![
            DumpFailure { index: 0, error: DecodeError::TruncatedAttribute },
            DumpFailure { index: 2, error: DecodeError::MalformedTuple },
            DumpFailure { index: 3, error: DecodeError::MissingTuple },
        ]
    );
    assert_eq!(report.flows.len() + report.failures.len(), entries.len());
}

#[test]
fn decode_dump_of_no_entries_is_empty() {
    let report = decode_dump(&vec![]);
    assert!(report.flows.is_empty());
    assert!(report.failures.is_empty());
}

#[test]
fn decode_dump_of_two_parts_is_the_two_dumps_joined() {
    let first = vec![entry(natted_attributes()), vec![0]];
    let second = vec![vec![2, 0, 0, 0], entry(natted_attributes())];
    let mut all = first.clone();
    all.extend(second.clone());
    let mut flows = decode_dump(&first).flows;
    flows.extend(decode_dump(&second).flows);
    assert_eq!(decode_dump(&all).flows, flows);
}
