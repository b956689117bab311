//! Samples of the three families: encoding, decoding, and what is refused.

use up_transport_dds::attributes::{Attributes, Uuid};
use up_transport_dds::classic::{
    assemble_classic, decode_classic, encode_classic, frame_classic, ClassicMessage,
    UpDdsClassicSampleV1,
};
use up_transport_dds::owned::{
    decode_owned, encode_owned, FrameMetadata, OwnedFrame, UpDdsOwnedSampleV1, OWNED_TOPIC_V1,
    OWNED_TYPE_V1,
};
use up_transport_dds::status::StatusCode;
use up_transport_dds::uri::Uri;
use up_transport_dds::zero_copy::{
    assemble_zero_copy, decode_zero_copy, UpDdsZeroCopySampleV1, ZERO_COPY_TOPIC_V1,
    ZERO_COPY_TYPE_V1,
};
use up_transport_dds::{CLASSIC_TOPIC_V1, CLASSIC_TYPE_V1};

fn topic(tag: u32) -> Uri {
    Uri {
        authority_name: "dds-tests".to_owned(),
        ue_id: 0x10_000 + tag,
        ue_version_major: 1,
        resource_id: 0x8000 + tag,
    }
}

fn id() -> Uuid {
    Uuid {
        msb: 0x0190_0000_0000_7abc,
        lsb: 0x8000_0000_0000_0001,
    }
}

fn publication(payload: Option<Vec<u8>>) -> ClassicMessage {
    ClassicMessage {
        attributes: Attributes {
            id: Some(id()),
            message_type: 1,
            source: Some(topic(1)),
            sink: None,
            priority: 0,
            ttl: None,
            permission_level: None,
            commstatus: None,
            reqid: None,
            token: None,
            traceparent: None,
            payload_format: 6,
        },
        payload,
    }
}

fn full_response() -> ClassicMessage {
    ClassicMessage {
        attributes: Attributes {
            id: Some(id()),
            message_type: 3,
            source: Some(Uri {
                resource_id: 0x1001,
                ..topic(7)
            }),
            sink: Some(Uri {
                resource_id: 0,
                ..topic(9)
            }),
            priority: 6,
            ttl: Some(0),
            permission_level: Some(4),
            commstatus: Some(0),
            reqid: Some(id()),
            token: Some("token".to_owned()),
            traceparent: Some(String::new()),
            payload_format: -3,
        },
        payload: Some(b"answer".to_vec()),
    }
}

#[test]
fn classic_rejects_inconsistent_payload_presence() {
    let error = decode_classic(UpDdsClassicSampleV1 {
        origin_id: "peer".to_owned(),
        attributes_proto: Vec::new(),
        has_payload: false,
        payload: vec![1],
    })
    .expect_err("inconsistent sample must fail");
    assert!(error.contains("has_payload"));
}

#[test]
fn owned_rejects_inconsistent_payload_presence() {
    let error = decode_owned(
        UpDdsOwnedSampleV1 {
            origin_id: "peer".to_owned(),
            metadata_fields: Vec::new(),
            has_payload: false,
            payload: vec![1],
        },
        Err("no metadata".to_owned()),
        None,
    )
    .expect_err("inconsistent sample must fail");
    assert!(error.contains("has_payload"));
}

#[test]
fn zero_copy_rejects_inconsistent_sideband_presence() {
    let error = decode_zero_copy(UpDdsZeroCopySampleV1 {
        origin_id: "peer".to_owned(),
        source_uri: "up://peer/10000/1/8001".to_owned(),
        has_sink: false,
        sink_uri: "up://unexpected/10000/1/0".to_owned(),
        has_payload: false,
        encoded_metadata: Vec::new(),
        payload: Vec::new(),
    })
    .expect_err("inconsistent sample must fail");
    assert!(error.contains("has_sink"));
}

#[test]
fn names_of_the_wire_contract() {
    assert_eq!(CLASSIC_TOPIC_V1, "uprotocol.classic.v1");
    assert_eq!(CLASSIC_TYPE_V1, "UpDdsClassicSampleV1");
    assert_eq!(OWNED_TOPIC_V1, "uprotocol.owned.v1");
    assert_eq!(OWNED_TYPE_V1, "UpDdsOwnedSampleV1");
    assert_eq!(ZERO_COPY_TOPIC_V1, "uprotocol.zero-copy.v1");
    assert_eq!(ZERO_COPY_TYPE_V1, "UpDdsZeroCopySampleV1");
}

#[test]
fn classic_round_trip_keeps_absent_empty_and_nonempty_payloads() {
    for payload in [None, Some(Vec::new()), Some(b"nonempty".to_vec())] {
        let message = publication(payload.clone());
        let sample = encode_classic("classic-sender", &message).expect("encode");
        assert_eq!(sample.origin_id, "classic-sender");
        assert_eq!(sample.has_payload, payload.is_some());
        assert_eq!(sample.payload, payload.unwrap_or_default());
        assert!(!sample.attributes_proto.is_empty());
        assert_eq!(decode_classic(sample), Ok(message));
    }
}

#[test]
fn classic_round_trip_keeps_every_attribute() {
    let message = full_response();
    assert_eq!(message.clone(), message);
    let sample = encode_classic("peer", &message).expect("encode");
    assert_eq!(sample.clone(), sample);
    assert_eq!(decode_classic(sample), Ok(message));
}

#[test]
fn classic_round_trip_keeps_long_texts() {
    let mut message = full_response();
    message.attributes.token = Some("t".repeat(17_000_000));
    let sample = encode_classic("peer", &message).expect("encode");
    assert!(sample.attributes_proto.len() > 17_000_000);
    assert!(sample.attributes_proto.len() < 17_000_000 + 256 + 64);
    let decoded = decode_classic(sample).expect("decode");
    assert!(decoded == message);
}

#[test]
fn validity_of_messages_is_that_of_their_attributes() {
    assert!(publication(None).is_valid());
    assert!(full_response().is_valid());
    let mut nameless = publication(None);
    nameless.attributes.id = None;
    assert!(!nameless.is_valid());
}

#[test]
fn classic_attribute_bytes_are_protobuf() {
    let mut message = publication(None);
    message.attributes.id = Some(Uuid { msb: 1, lsb: 2 });
    message.attributes.source = None;
    message.attributes.payload_format = 0;
    let sample = encode_classic("peer", &message).expect("encode");
    assert_eq!(
        sample.attributes_proto,
        vec![
            0x0A, 18, 0x09, 1, 0, 0, 0, 0, 0, 0, 0, 0x11, 2, 0, 0, 0, 0, 0, 0, 0, 0x10, 1
        ]
    );
}

#[test]
fn classic_reports_undecodable_attributes() {
    let error = decode_classic(UpDdsClassicSampleV1 {
        origin_id: "peer".to_owned(),
        attributes_proto: vec![0xFF],
        has_payload: false,
        payload: Vec::new(),
    })
    .expect_err("undecodable attributes");
    assert!(error.starts_with("invalid classic attributes: "), "{error}");
}

#[test]
fn classic_reports_invalid_attributes() {
    let cases: [fn(&mut Attributes); 6] = [
        |a| a.id = None,
        |a| a.id = Some(Uuid { msb: 0, lsb: 0 }),
        |a| a.message_type = 0,
        |a| a.source = None,
        |a| a.sink = Some(topic(2)),
        |a| {
            a.source = Some(Uri {
                resource_id: 1,
                ..topic(1)
            })
        },
    ];
    for change in cases {
        let mut message = publication(None);
        change(&mut message.attributes);
        let sample = encode_classic("peer", &message).expect("encode");
        let error = decode_classic(sample).expect_err("invalid attributes");
        assert!(error.starts_with("invalid classic metadata: "), "{error}");
    }
}

#[test]
fn classic_parts_decide_alone() {
    let sample = |has_payload: bool, payload: Vec<u8>| UpDdsClassicSampleV1 {
        origin_id: "peer".to_owned(),
        attributes_proto: vec![9],
        has_payload,
        payload,
    };
    assert_eq!(
        assemble_classic(sample(false, vec![1]), Err("x".to_owned()), None, None),
        Err("classic sample has payload bytes while has_payload is false".to_owned())
    );
    assert_eq!(
        assemble_classic(sample(true, vec![1]), Err("x".to_owned()), None, None),
        Err("invalid classic attributes: x".to_owned())
    );
    assert_eq!(
        assemble_classic(
            sample(true, vec![1]),
            Ok(publication(None).attributes),
            Some("y".to_owned()),
            Some("z".to_owned())
        ),
        Err("invalid classic metadata: y".to_owned())
    );
    assert_eq!(
        assemble_classic(
            sample(true, vec![1]),
            Ok(publication(None).attributes),
            None,
            Some("z".to_owned())
        ),
        Err("invalid classic message: z".to_owned())
    );
    assert_eq!(
        assemble_classic(
            sample(true, vec![1]),
            Ok(publication(None).attributes),
            None,
            None
        ),
        Ok(publication(Some(vec![1])))
    );
    let error = frame_classic("peer", Err("too large".to_owned()), &None).expect_err("frame");
    assert_eq!(error.code, StatusCode::InvalidArgument);
    assert_eq!(error.message, "encode classic attributes: too large");
}

fn metadata() -> FrameMetadata {
    FrameMetadata {
        id: id(),
        source: topic(3),
        sink: None,
        payload_encoding: Some(6),
    }
}

#[test]
fn owned_round_trip_keeps_absent_empty_and_nonempty_payloads() {
    for payload in [None, Some(Vec::new()), Some(b"owned".to_vec())] {
        let sample = encode_owned("owned-sender", Ok(vec![1, 2, 3]), &payload).expect("encode");
        assert_eq!(sample.metadata_fields, vec![1, 2, 3]);
        assert_eq!(sample.has_payload, payload.is_some());
        let frame = decode_owned(sample, Ok(metadata()), None).expect("decode");
        assert_eq!(
            frame,
            OwnedFrame {
                metadata: metadata(),
                payload
            }
        );
    }
}

#[test]
fn owned_errors_name_their_stage() {
    let sample = || UpDdsOwnedSampleV1 {
        origin_id: "malformed-peer".to_owned(),
        metadata_fields: vec![0xFF],
        has_payload: false,
        payload: Vec::new(),
    };
    assert_eq!(
        decode_owned(sample(), Err("truncated".to_owned()), None),
        Err("invalid owned metadata: truncated".to_owned())
    );
    assert_eq!(
        decode_owned(sample(), Ok(metadata()), Some("no source".to_owned())),
        Err("invalid owned frame: no source".to_owned())
    );
    let error = encode_owned("peer", Err("bad".to_owned()), &None).expect_err("encode");
    assert_eq!(error.code, StatusCode::InvalidArgument);
    assert_eq!(error.message, "encode owned metadata: bad");
}

fn zero_copy_sample() -> UpDdsZeroCopySampleV1 {
    UpDdsZeroCopySampleV1 {
        origin_id: "peer".to_owned(),
        source_uri: "up://peer/10000/1/8001".to_owned(),
        has_sink: true,
        sink_uri: "//sink/ffff0abc/a1/0".to_owned(),
        has_payload: true,
        encoded_metadata: vec![0xDE, 0xAD, 0xBE, 0xEF],
        payload: b"data".to_vec(),
    }
}

#[test]
fn zero_copy_decodes_hints_and_keeps_bytes() {
    let (source, sink, frame) = decode_zero_copy(zero_copy_sample()).expect("decode");
    assert_eq!(
        source,
        Uri {
            authority_name: "peer".to_owned(),
            ue_id: 0x10000,
            ue_version_major: 1,
            resource_id: 0x8001,
        }
    );
    assert_eq!(
        sink,
        Some(Uri {
            authority_name: "sink".to_owned(),
            ue_id: 0xFFFF_0ABC,
            ue_version_major: 0xA1,
            resource_id: 0,
        })
    );
    assert_eq!(frame.encoded_metadata(), [0xDE, 0xAD, 0xBE, 0xEF]);
    assert_eq!(frame.payload_len(), 4);
    assert_eq!(frame.payload_reader(), b"data");
    assert_eq!(frame.payload_slices(), vec![b"data".as_slice()]);
    assert_eq!(frame.try_contiguous_payload(), Some(b"data".as_slice()));
    assert_eq!(frame.clone(), frame);
}

#[test]
fn received_frames_share_their_bytes() {
    let (_, _, frame) = decode_zero_copy(zero_copy_sample()).expect("decode");
    let copy = frame.clone();
    assert_eq!(copy, frame);
    assert!(std::ptr::eq(copy.payload_reader(), frame.payload_reader()));
    assert!(std::ptr::eq(
        copy.encoded_metadata(),
        frame.encoded_metadata()
    ));
    drop(frame);
    assert_eq!(copy.payload_reader(), b"data");
}

#[test]
fn numeric_hosts_are_read_back() {
    let cases = [
        ("//[::1]/1/2/8003", "[::1]"),
        ("//[0:0:0:0:0:0:0:1]/1/2/8003", "[::1]"),
        ("//192.168.0.1/1/2/8003", "192.168.0.1"),
        ("/1/2/8003", ""),
        ("//*/1/2/8003", "*"),
    ];
    for (text, authority) in cases {
        let (source, _, _) = decode_zero_copy(UpDdsZeroCopySampleV1 {
            source_uri: text.to_owned(),
            ..zero_copy_sample()
        })
        .expect("decode");
        assert_eq!(source.authority_name, authority);
        let hint = if authority.is_empty() {
            "/1/2/8003".to_owned()
        } else {
            format!("//{authority}/1/2/8003")
        };
        let (again, _, _) = decode_zero_copy(UpDdsZeroCopySampleV1 {
            source_uri: hint,
            ..zero_copy_sample()
        })
        .expect("decode again");
        assert_eq!(again, source);
    }
}

#[test]
fn opaque_bytes_decide_nothing() {
    let other = || UpDdsZeroCopySampleV1 {
        has_payload: false,
        encoded_metadata: Vec::new(),
        payload: Vec::new(),
        ..zero_copy_sample()
    };
    let (source, sink, _) = decode_zero_copy(zero_copy_sample()).expect("decode");
    let (other_source, other_sink, _) = decode_zero_copy(other()).expect("decode");
    assert_eq!(other_source, source);
    assert_eq!(other_sink, sink);
    let refused = decode_zero_copy(UpDdsZeroCopySampleV1 {
        source_uri: "no address".to_owned(),
        ..zero_copy_sample()
    });
    let other_refused = decode_zero_copy(UpDdsZeroCopySampleV1 {
        source_uri: "no address".to_owned(),
        ..other()
    });
    assert!(refused.is_err());
    assert_eq!(other_refused, refused);
}

#[test]
fn zero_copy_refusals_come_in_order() {
    let refusal = |change: fn(&mut UpDdsZeroCopySampleV1)| {
        let mut sample = zero_copy_sample();
        change(&mut sample);
        decode_zero_copy(sample).expect_err("refused")
    };
    assert_eq!(
        refusal(|s| {
            s.has_sink = false;
            s.has_payload = false;
            s.source_uri.clear();
        }),
        "zero-copy sample has sink bytes while has_sink is false"
    );
    assert_eq!(
        refusal(|s| {
            s.sink_uri.clear();
            s.has_payload = false;
        }),
        "zero-copy sample has an empty present sink"
    );
    assert_eq!(
        refusal(|s| {
            s.has_payload = false;
            s.source_uri.clear();
        }),
        "zero-copy sample has payload bytes while has_payload is false"
    );
    assert_eq!(
        refusal(|s| s.source_uri.clear()),
        "invalid zero-copy source URI: Serialization error: URI is empty"
    );
    let error = refusal(|s| s.sink_uri = "//sink/1/1".to_owned());
    assert!(
        error.starts_with("invalid zero-copy sink URI: Serialization error: "),
        "{error}"
    );
}

#[test]
fn zero_copy_parts_decide_alone() {
    let decoded = assemble_zero_copy(zero_copy_sample(), Err("left".to_owned()), None);
    assert_eq!(
        decoded.expect_err("source"),
        "invalid zero-copy source URI: left"
    );
    let decoded = assemble_zero_copy(
        zero_copy_sample(),
        Ok(topic(1)),
        Some(Err("right".to_owned())),
    );
    assert_eq!(
        decoded.expect_err("sink"),
        "invalid zero-copy sink URI: right"
    );
    let (source, sink, _) =
        assemble_zero_copy(zero_copy_sample(), Ok(topic(1)), None).expect("no sink");
    assert_eq!(source, topic(1));
    assert_eq!(sink, None);
}
