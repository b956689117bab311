//! Role processes: addresses, messages, filters, plans and reports.

use up_transport_dds::attributes::Uuid;
use up_transport_dds::classic::{decode_classic, encode_classic, ClassicMessage};
use up_transport_dds::family::Family;
use up_transport_dds::owned::FrameMetadata;
use up_transport_dds::roles::{
    answer_frame, conclude_build, config, encoding, endpoint, filters, frame_encoding,
    frame_from_message, frame_metadata, method, observed_line, outbound_message, receive_status,
    response_frame, response_message, response_metadata, role_name, role_script, sent_line,
    timeout, topic, Encoding, ReceiveFailure, Role, RoleArgs, WireFormats, READY_LINE,
};
use up_transport_dds::roles::RoleStep::{
    AnnounceReady, AwaitReaders, Receive, Register, ReportObserved, ReportSent, SendOutbound,
    SendResponse,
};
use up_transport_dds::status::StatusCode;
use up_transport_dds::uri::Uri;
use up_transport_dds::{Interval, Reliability};

fn args(local: &str, peer: &str) -> RoleArgs {
    RoleArgs {
        domain_id: 80,
        origin_id: None,
        reliability: Reliability::Reliable,
        history_depth: 32,
        local_authority: local.to_owned(),
        peer_authority: peer.to_owned(),
        topic_resource_id: 0x8001,
        method_resource_id: 0x1000,
        payload: "dds-role-payload".to_owned(),
        timeout_ms: 8000,
    }
}

fn uri(authority: &str, resource_id: u32) -> Uri {
    Uri {
        authority_name: authority.to_owned(),
        ue_id: 0x5BA0,
        ue_version_major: 1,
        resource_id,
    }
}

#[test]
fn role_names_and_reports() {
    let names = [
        (Role::Publisher, "publisher"),
        (Role::Subscriber, "subscriber"),
        (Role::Notifier, "notifier"),
        (Role::Notifyee, "notifyee"),
        (Role::Client, "rpc_client"),
        (Role::Server, "rpc_server"),
    ];
    for (role, name) in names {
        assert_eq!(role_name(role), name);
    }
    assert_eq!(
        sent_line(Role::Publisher, 16),
        "FLOW sent_payload_bytes=16 role=publisher"
    );
    assert_eq!(
        observed_line(Role::Server, 0),
        "FLOW observed_payload_bytes=0 role=rpc_server"
    );
    assert_eq!(READY_LINE, "READY listener_registered");
}

#[test]
fn role_configuration_takes_its_arguments() {
    let mut told = args("dds-a", "dds-b");
    told.reliability = Reliability::BestEffort;
    told.history_depth = 4;
    let made = config(&told, 9, 2);
    assert_eq!(made.domain_id, 80);
    assert_eq!(made.origin_id, "9-2");
    assert_eq!(made.qos.reliability, Reliability::BestEffort);
    assert_eq!(made.qos.history_depth, 4);
    told.origin_id = Some("dds-a-80".to_owned());
    assert_eq!(config(&told, 9, 2).origin_id, "dds-a-80");
    assert_eq!(timeout(&told), Interval { secs: 8, nanos: 0 });
}

#[test]
fn encodings_have_their_formats() {
    let wires = WireFormats {
        xcdrv2: 21,
        arrow: 22,
        omg_idl: 23,
    };
    assert_eq!(encoding(Encoding::Native, wires), 6);
    assert_eq!(encoding(Encoding::Protobuf, wires), 2);
    assert_eq!(encoding(Encoding::Xcdrv2, wires), 21);
    assert_eq!(encoding(Encoding::Arrow, wires), 22);
    assert_eq!(encoding(Encoding::OmgIdl, wires), 23);
}

#[test]
fn addresses_are_built_or_refused() {
    assert_eq!(topic("dds-a", 0x8001), Ok(uri("dds-a", 0x8001)));
    assert_eq!(endpoint("dds-a"), Ok(uri("dds-a", 0)));
    assert_eq!(method("dds-a", 0x1000), Ok(uri("dds-a", 0x1000)));
    let cases = [
        (topic("not valid", 1), "invalid topic URI: "),
        (endpoint("UPPER"), "invalid endpoint URI: "),
        (method("a:80", 1), "invalid method URI: "),
    ];
    for (built, heading) in cases {
        let status = built.expect_err("refused");
        assert_eq!(status.code, StatusCode::InvalidArgument);
        assert!(
            status.message.starts_with(heading) && status.message.len() > heading.len(),
            "{}",
            status.message
        );
    }
}

#[test]
fn filters_of_every_role() {
    let told = args("dds-b", "dds-a");
    assert_eq!(
        filters(Role::Subscriber, &told),
        Ok((uri("dds-a", 0x8001), None))
    );
    assert_eq!(
        filters(Role::Notifyee, &told),
        Ok((uri("dds-a", 0x8001), Some(uri("dds-b", 0))))
    );
    assert_eq!(
        filters(Role::Client, &told),
        Ok((uri("dds-a", 0x1000), Some(uri("dds-b", 0))))
    );
    assert_eq!(
        filters(Role::Server, &told),
        Ok((uri("dds-a", 0), Some(uri("dds-b", 0x1000))))
    );
    for role in [Role::Publisher, Role::Notifier] {
        let status = filters(role, &told).expect_err("no filter");
        assert_eq!(status.message, "active one-way role has no filter");
    }
    let status = filters(Role::Server, &args("bad authority", "dds-a")).expect_err("refused");
    assert!(status.message.starts_with("invalid method URI: "));
    let status = filters(Role::Notifyee, &args("bad authority", "also bad")).expect_err("refused");
    assert!(status.message.starts_with("invalid topic URI: "));
}

#[test]
fn outbound_messages_of_active_roles() {
    let told = args("dds-a", "dds-b");
    let built = |role: Role| outbound_message(role, &told, 2).expect("message");

    let message = built(Role::Publisher);
    assert_eq!(message.attributes.message_type, 1);
    assert_eq!(message.attributes.source, Some(uri("dds-a", 0x8001)));
    assert_eq!(message.attributes.sink, None);
    assert_eq!(message.attributes.priority, 0);
    assert_eq!(message.attributes.payload_format, 2);
    assert_eq!(message.payload, Some(b"dds-role-payload".to_vec()));

    let message = built(Role::Notifier);
    assert_eq!(message.attributes.message_type, 4);
    assert_eq!(message.attributes.source, Some(uri("dds-a", 0x8001)));
    assert_eq!(message.attributes.sink, Some(uri("dds-b", 0)));

    let message = built(Role::Client);
    assert_eq!(message.attributes.message_type, 2);
    assert_eq!(message.attributes.source, Some(uri("dds-a", 0)));
    assert_eq!(message.attributes.sink, Some(uri("dds-b", 0x1000)));
    assert_eq!(message.attributes.ttl, Some(8000));
    assert_eq!(message.attributes.priority, 5);

    assert_ne!(
        built(Role::Client).attributes.id,
        built(Role::Client).attributes.id
    );
    for role in [Role::Subscriber, Role::Notifyee, Role::Server] {
        let status = outbound_message(role, &told, 2).expect_err("passive");
        assert_eq!(status.code, StatusCode::InvalidArgument);
        assert_eq!(status.message, "passive role has no outbound request");
    }
}

#[test]
fn built_messages_survive_carriage() {
    let told = args("dds-a", "dds-b");
    for role in [Role::Publisher, Role::Notifier, Role::Client] {
        let message = outbound_message(role, &told, 6).expect("message");
        let sample = encode_classic("peer", &message).expect("encode");
        assert_eq!(decode_classic(sample), Ok(message));
    }
}

#[test]
fn long_timeouts_saturate_the_ttl() {
    let mut told = args("dds-a", "dds-b");
    told.timeout_ms = u64::MAX;
    let message = outbound_message(Role::Client, &told, 2).expect("message");
    assert_eq!(message.attributes.ttl, Some(u32::MAX));
}

#[test]
fn refused_outbound_messages() {
    let mut told = args("dds-a", "dds-b");
    told.topic_resource_id = 1;
    let status = outbound_message(Role::Publisher, &told, 2).expect_err("no event");
    assert_eq!(status.code, StatusCode::InvalidArgument);
    assert!(
        status.message.starts_with("build outbound message: "),
        "{}",
        status.message
    );
    let mut told = args("dds-a", "dds-b");
    told.topic_resource_id = 0;
    assert!(outbound_message(Role::Notifier, &told, 2).is_err());
    told.method_resource_id = 0x8000;
    assert!(outbound_message(Role::Client, &told, 2).is_err());
    let status = outbound_message(Role::Notifier, &args("dds-a", "bad peer"), 2).expect_err("peer");
    assert!(status.message.starts_with("invalid endpoint URI: "));
    let status = outbound_message(Role::Client, &args("dds-a", "bad peer"), 2).expect_err("peer");
    assert!(status.message.starts_with("invalid method URI: "));
    let status = conclude_build("heading: ", Err("reason".to_owned())).expect_err("refused");
    assert_eq!(status.message, "heading: reason");
}

#[test]
fn responses_go_back_to_the_client() {
    let request =
        outbound_message(Role::Client, &args("dds-a", "dds-b"), 2).expect("request message");
    let response = response_message(&request, 6).expect("response");
    assert_eq!(response.attributes.message_type, 3);
    assert_eq!(response.attributes.source, Some(uri("dds-b", 0x1000)));
    assert_eq!(response.attributes.sink, Some(uri("dds-a", 0)));
    assert_eq!(response.attributes.reqid, request.attributes.id);
    assert_eq!(response.attributes.payload_format, 6);
    assert_eq!(response.payload, request.payload);
    let (source, sink) = filters(Role::Client, &args("dds-a", "dds-b")).expect("filters");
    assert_eq!(response.attributes.source, Some(source));
    assert_eq!(response.attributes.sink, sink);

    let silent = ClassicMessage {
        payload: None,
        ..request
    };
    let response = response_message(&silent, 6).expect("response");
    assert_eq!(response.payload, Some(Vec::new()));

    let publication =
        outbound_message(Role::Publisher, &args("dds-a", "dds-b"), 2).expect("publication");
    let status = response_message(&publication, 2).expect_err("no sink");
    assert_eq!(status.message, "request has no sink");
}

#[test]
fn notification_cannot_be_answered() {
    let notification =
        outbound_message(Role::Notifier, &args("dds-a", "dds-b"), 2).expect("notification");
    let status = response_message(&notification, 2).expect_err("no method");
    assert!(
        status.message.starts_with("build response message: "),
        "{}",
        status.message
    );
}

fn metadata(sink: Option<Uri>) -> FrameMetadata {
    FrameMetadata {
        id: Uuid { msb: 5, lsb: 6 },
        source: uri("dds-a", 0),
        sink,
        payload_encoding: None,
    }
}

#[test]
fn frame_answers_follow_the_request() {
    let route = response_metadata(&metadata(Some(uri("dds-b", 0x1000)))).expect("route");
    assert_eq!(route.source, uri("dds-b", 0x1000));
    assert_eq!(route.sink, uri("dds-a", 0));
    assert_eq!(route.request_id, Uuid { msb: 5, lsb: 6 });
    let answer = response_frame(&route, b"echo", 6).expect_err("invalid request id");
    assert!(
        answer.message.starts_with("build response metadata: Builder state is not consistent"),
        "{}",
        answer.message
    );
    let request =
        outbound_message(Role::Client, &args("dds-a", "dds-b"), 2).expect("request message");
    let described = frame_metadata(&request).expect("metadata");
    assert_eq!(described.payload_encoding, Some(2));
    let route = response_metadata(&described).expect("route");
    let answer = response_frame(&route, b"echo", 6).expect("response");
    assert_eq!(answer.attributes.reqid, request.attributes.id);
    assert_eq!(answer.attributes.source, Some(uri("dds-b", 0x1000)));
    assert_eq!(answer.attributes.sink, Some(uri("dds-a", 0)));
    assert_eq!(answer.payload, Some(b"echo".to_vec()));
    let mut anonymous = request;
    anonymous.attributes.id = None;
    assert_eq!(frame_metadata(&anonymous), None);
    let status = response_metadata(&metadata(None)).expect_err("no sink");
    assert_eq!(status.code, StatusCode::InvalidArgument);
    assert_eq!(status.message, "request metadata has no sink");
}

#[test]
fn refused_answers_name_their_family() {
    let frame = answer_frame(Family::Owned, metadata(None), b"echo", None).expect("frame");
    assert_eq!(frame.metadata, metadata(None));
    assert_eq!(frame.payload, Some(b"echo".to_vec()));
    let cases = [
        (Family::Classic, "build response message: too long"),
        (Family::Owned, "build owned response: too long"),
        (Family::ZeroCopy, "build copy-minimized response: too long"),
    ];
    for (family, text) in cases {
        let status = answer_frame(family, metadata(None), b"", Some("too long".to_owned()))
            .expect_err("refused");
        assert_eq!(status.code, StatusCode::InvalidArgument);
        assert_eq!(status.message, text);
    }
}

#[test]
fn frames_are_projected_from_messages() {
    let message =
        || outbound_message(Role::Publisher, &args("dds-a", "dds-b"), 2).expect("message");
    assert_eq!(frame_encoding(&message()), Ok(Some(2)));
    let unencoded = outbound_message(Role::Publisher, &args("dds-a", "dds-b"), 0).expect("message");
    let status = frame_encoding(&unencoded).expect_err("no encoding");
    assert_eq!(status.message, "payload-bearing message has no encoding");
    let silent = ClassicMessage {
        payload: None,
        ..unencoded
    };
    assert_eq!(frame_encoding(&silent), Ok(None));
    let unencoded = outbound_message(Role::Publisher, &args("dds-a", "dds-b"), 0).expect("message");
    for projected in [Ok(metadata(None)), Err("no source".to_owned())] {
        let status = frame_from_message(unencoded.clone(), projected, None)
            .expect_err("no encoding");
        assert_eq!(status.code, StatusCode::InvalidArgument);
        assert_eq!(status.message, "payload-bearing message has no encoding");
    }
    let formatted = ClassicMessage {
        payload: None,
        ..message()
    };
    let described = frame_metadata(&formatted).expect("metadata");
    assert_eq!(described.payload_encoding, None);
    let frame = frame_from_message(formatted, Ok(described.clone()), None).expect("frame");
    assert_eq!(frame.metadata, described);
    assert_eq!(frame.payload, None);

    let frame = frame_from_message(message(), Ok(metadata(None)), None).expect("frame");
    assert_eq!(frame.metadata, metadata(None));
    assert_eq!(frame.payload, Some(b"dds-role-payload".to_vec()));
    let status =
        frame_from_message(message(), Err("no source".to_owned()), None).expect_err("projection");
    assert_eq!(status.message, "project frame metadata: no source");
    let status =
        frame_from_message(message(), Ok(metadata(None)), Some("too long".to_owned()))
            .expect_err("refused");
    assert_eq!(status.message, "build owned frame: too long");
}

#[test]
fn plans_of_every_role() {
    for family in [Family::Classic, Family::Owned] {
        for role in [Role::Publisher, Role::Notifier] {
            assert_eq!(
                role_script(role, family),
                [AwaitReaders(2), SendOutbound, ReportSent]
            );
        }
        for role in [Role::Subscriber, Role::Notifyee] {
            assert_eq!(
                role_script(role, family),
                [Register, AnnounceReady, Receive, ReportObserved]
            );
        }
        assert_eq!(
            role_script(Role::Client, family),
            [
                Register,
                AnnounceReady,
                AwaitReaders(2),
                SendOutbound,
                Receive,
                ReportObserved
            ]
        );
        assert_eq!(
            role_script(Role::Server, family),
            [
                Register,
                AnnounceReady,
                Receive,
                AwaitReaders(2),
                SendResponse,
                ReportObserved
            ]
        );
    }
    assert_eq!(
        role_script(Role::Notifier, Family::ZeroCopy),
        [AwaitReaders(2), SendOutbound, ReportSent]
    );
    assert_eq!(
        role_script(Role::Subscriber, Family::ZeroCopy),
        [
            AwaitReaders(1),
            Register,
            AnnounceReady,
            Receive,
            ReportObserved
        ]
    );
    assert_eq!(
        role_script(Role::Client, Family::ZeroCopy),
        [
            AwaitReaders(2),
            Register,
            AnnounceReady,
            SendOutbound,
            Receive,
            ReportObserved
        ]
    );
    assert_eq!(
        role_script(Role::Server, Family::ZeroCopy),
        [
            AwaitReaders(1),
            Register,
            AnnounceReady,
            Receive,
            SendResponse,
            ReportObserved
        ]
    );
}

#[test]
fn waits_without_a_message_are_reported() {
    let status = receive_status(Family::Classic, ReceiveFailure::TimedOut);
    assert_eq!(status.code, StatusCode::DeadlineExceeded);
    assert_eq!(status.message, "timed out waiting for classic message");
    let status = receive_status(Family::Owned, ReceiveFailure::ChannelClosed);
    assert_eq!(status.code, StatusCode::Unavailable);
    assert_eq!(status.message, "owned frame channel closed");
    let status = receive_status(Family::ZeroCopy, ReceiveFailure::TimedOut);
    assert_eq!(status.message, "timed out waiting for copy-minimized frame");
}
