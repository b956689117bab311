//! State of a transport: setup, sends, receptions, callbacks and teardown.

use up_transport_dds::attributes::{Attributes, Uuid};
use up_transport_dds::classic::{encode_classic, ClassicMessage};
use up_transport_dds::delivery::{delivery_step, DeliveryStep, SendCompletion};
use up_transport_dds::dispatch::{CallbackStep, SubmitOutcome};
use up_transport_dds::family::{EndpointQos, Family};
use up_transport_dds::owned::{FrameMetadata, UPTransportDdsOwned, UpDdsOwnedSampleV1};
use up_transport_dds::roles::{frame_from_message, frame_metadata};
use up_transport_dds::setup::{Setup, SetupAction, SetupFailure};
use up_transport_dds::status::{dds_status, DdsFailure, Status, StatusCode};
use up_transport_dds::transport::{
    wait_until, AcknowledgmentBarrier, PollStep, Readiness, TeardownAction, TeardownOutcome, Transport,
    WaitStep,
};
use up_transport_dds::uri::Uri;
use up_transport_dds::zero_copy::{DdsZeroCopyCore, PreparedTxLoanSpec};
use up_transport_dds::{
    AcknowledgmentMode, DdsConfig, HealthErrorKind, Interval, Reliability, UPTransportDds,
    UpDdsClassicSampleV1,
};

fn config(origin: &str) -> DdsConfig {
    DdsConfig {
        origin_id: origin.to_owned(),
        ..DdsConfig::new(171, 1, 1)
    }
}

fn run(setup: Result<Setup, Status>) -> Setup {
    let mut setup = setup.expect("valid configuration");
    while setup.action() != SetupAction::Finish {
        setup.succeeded();
    }
    setup
}

fn classic(config: DdsConfig) -> UPTransportDds {
    UPTransportDds::ready(run(UPTransportDds::with_config(config)))
}

fn owned(config: DdsConfig) -> UPTransportDdsOwned {
    UPTransportDdsOwned::ready(run(UPTransportDdsOwned::with_config(config)))
}

fn zero_copy(config: DdsConfig) -> DdsZeroCopyCore {
    DdsZeroCopyCore::ready(run(DdsZeroCopyCore::with_config(config)))
}

fn topic(tag: u32) -> Uri {
    Uri {
        authority_name: "dds-tests".to_owned(),
        ue_id: 0x10_000 + tag,
        ue_version_major: 1,
        resource_id: 0x8000 + tag,
    }
}

fn endpoint(authority: &str) -> Uri {
    Uri {
        authority_name: authority.to_owned(),
        ue_id: 0x1_2345,
        ue_version_major: 1,
        resource_id: 0,
    }
}

fn message(source: Uri, sink: Option<Uri>, payload: Option<Vec<u8>>) -> ClassicMessage {
    ClassicMessage {
        attributes: Attributes {
            id: Some(Uuid {
                msb: 0x7000,
                lsb: 0x8000_0000_0000_0000,
            }),
            message_type: if sink.is_some() { 4 } else { 1 },
            source: Some(source),
            sink,
            priority: 0,
            ttl: None,
            permission_level: None,
            commstatus: None,
            reqid: None,
            token: None,
            traceparent: None,
            payload_format: 6,
        },
        payload,
    }
}

fn sample(origin: &str, message: &ClassicMessage) -> Option<UpDdsClassicSampleV1> {
    Some(encode_classic(origin, message).expect("encode"))
}

fn tear_down(core: &mut Transport, outcome: fn(&TeardownAction) -> TeardownOutcome) -> Vec<String> {
    let mut seen = Vec::new();
    let mut action = core.begin_teardown();
    while action != TeardownAction::Done {
        seen.push(format!("{action:?}"));
        let result = outcome(&action);
        action = core.advance_teardown(result);
    }
    seen
}

#[test]
fn setup_asks_for_every_entity_in_order() {
    let mut setup = UPTransportDdsOwned::with_config(DdsConfig {
        dispatch_capacity: 3,
        ..config("owned")
    })
    .expect("setup");
    let qos = EndpointQos {
        reliability: Reliability::Reliable,
        keep_last: 32,
    };
    let expected = [
        SetupAction::CreateParticipant { domain_id: 171 },
        SetupAction::CreateTopic {
            topic: "uprotocol.owned.v1",
            registered_type: "UpDdsOwnedSampleV1",
        },
        SetupAction::CreatePublisher,
        SetupAction::CreateWriter(qos),
        SetupAction::CreateSubscriber,
        SetupAction::CreateReader(qos),
        SetupAction::SpawnDispatcher {
            name: "up-dds-dispatch".to_owned(),
            capacity: 3,
        },
        SetupAction::SpawnPoller {
            name: "up-dds-owned-poll".to_owned(),
        },
        SetupAction::Finish,
    ];
    for action in expected {
        assert_eq!(setup.action(), action);
        setup.succeeded();
    }
}

#[test]
fn setup_failures_name_their_step() {
    let contexts = [
        "create zero-copy participant",
        "create zero-copy topic",
        "create zero-copy publisher",
        "create zero-copy writer",
        "create zero-copy subscriber",
        "create zero-copy reader",
        "spawn callback dispatcher",
        "spawn zero-copy poller",
    ];
    let mut setup = DdsZeroCopyCore::new(3, 7, 8).expect("setup");
    for context in contexts {
        let status = setup.failed(SetupFailure::Dds(DdsFailure::OutOfResources));
        assert_eq!(status.code, StatusCode::ResourceExhausted);
        assert_eq!(
            status.message,
            format!("{context}: insufficient resources to complete the operation")
        );
        let status = setup.failed(SetupFailure::Spawn("no threads".to_owned()));
        assert_eq!(status.code, StatusCode::ResourceExhausted);
        assert_eq!(status.message, format!("{context}: no threads"));
        setup.succeeded();
    }
}

#[test]
fn setup_refuses_an_invalid_configuration() {
    let error = UPTransportDds::with_config(DdsConfig {
        dispatch_capacity: 0,
        ..config("classic")
    })
    .err()
    .expect("refused");
    assert_eq!(error.code, StatusCode::InvalidArgument);
    assert_eq!(error.message, "dispatch_capacity must be greater than zero");
}

#[test]
fn new_transport_has_its_origin_and_clean_health() {
    let transport = UPTransportDds::ready(run(UPTransportDds::new(171, 42, 7)));
    assert_eq!(transport.origin_id(), "42-7");
    assert_eq!(transport.core.family(), Family::Classic);
    assert_eq!(transport.core.config().domain_id, 171);
    let snapshot = transport.health().snapshot();
    assert_eq!(snapshot.dds_errors, 0);
    assert!(snapshot.recent_events.is_empty());
    assert_eq!(owned(config("o")).origin_id(), "o");
    assert_eq!(zero_copy(config("z")).origin_id(), "z");
}

#[test]
fn dds_failures_map_to_codes_and_texts() {
    let cases = [
        (
            DdsFailure::Error("x".to_owned()),
            StatusCode::Internal,
            "unspecified: x",
        ),
        (
            DdsFailure::Unsupported,
            StatusCode::Internal,
            "unsupported operation",
        ),
        (
            DdsFailure::BadParameter,
            StatusCode::InvalidArgument,
            "illegal parameter value",
        ),
        (
            DdsFailure::PreconditionNotMet("y".to_owned()),
            StatusCode::Internal,
            "operation precondition not met: y",
        ),
        (
            DdsFailure::OutOfResources,
            StatusCode::ResourceExhausted,
            "insufficient resources to complete the operation",
        ),
        (
            DdsFailure::NotEnabled,
            StatusCode::Unavailable,
            "operation not enabled",
        ),
        (
            DdsFailure::ImmutablePolicy,
            StatusCode::Internal,
            "attempted to modify an immutable policy",
        ),
        (
            DdsFailure::InconsistentPolicy,
            StatusCode::InvalidArgument,
            "specified a set of inconsistent policies",
        ),
        (
            DdsFailure::AlreadyDeleted,
            StatusCode::Unavailable,
            "object of operation has been already deleted",
        ),
        (
            DdsFailure::Timeout,
            StatusCode::DeadlineExceeded,
            "operation timed out",
        ),
        (
            DdsFailure::NoData,
            StatusCode::Internal,
            "operation returned no data, but no error occurred",
        ),
        (
            DdsFailure::IllegalOperation,
            StatusCode::Internal,
            "illegal operation",
        ),
    ];
    for (failure, code, text) in cases {
        let status = dds_status("read readiness", &failure);
        assert_eq!(status.code, code);
        assert_eq!(status.message, format!("read readiness: {text}"));
    }
}

#[test]
fn waiting_for_readers_counts_and_expires() {
    let transport = classic(config("c"));
    assert_eq!(transport.wait_ready(0), Ok(Readiness::Ready));
    assert_eq!(transport.wait_ready(2), Ok(Readiness::Poll));
    assert_eq!(
        wait_until(0, Err(DdsFailure::Timeout), true),
        WaitStep::Ready
    );
    assert_eq!(wait_until(2, Ok(2), true), WaitStep::Ready);
    assert_eq!(
        wait_until(2, Ok(1), false),
        WaitStep::Retry(Interval::from_millis(10))
    );
    let WaitStep::Failed(status) = wait_until(2, Ok(-1), true) else {
        panic!("expired");
    };
    assert_eq!(status.code, StatusCode::DeadlineExceeded);
    assert_eq!(
        status.message,
        "DDS discovery timed out with -1 matched readers; required 2"
    );
    let WaitStep::Failed(status) = wait_until(1, Err(DdsFailure::NotEnabled), false) else {
        panic!("failed");
    };
    assert_eq!(status.code, StatusCode::Unavailable);
    assert_eq!(status.message, "read readiness: operation not enabled");
}

#[test]
fn own_samples_are_suppressed_and_counted() {
    let mut sender = classic(config("classic-sender"));
    let source = topic(1);
    assert_eq!(sender.register_listener(&source, None, 5), Ok(()));
    let own = sample("classic-sender", &message(topic(1), None, None));
    assert_eq!(sender.receive(own), None);
    assert_eq!(sender.core.delivered(), 1);
    assert_eq!(sender.receive(None), None);
    assert_eq!(sender.core.delivered(), 1);
    let foreign = sample("classic-sender2", &message(topic(1), None, None));
    assert!(sender.receive(foreign).is_some());
    assert_eq!(sender.core.delivered(), 1);
}

#[test]
fn malformed_samples_are_observable() {
    let mut receiver = classic(config("c"));
    let malformed = UpDdsClassicSampleV1 {
        origin_id: "malformed-peer".to_owned(),
        attributes_proto: Vec::new(),
        has_payload: false,
        payload: vec![1],
    };
    assert_eq!(receiver.receive(Some(malformed)), None);
    let snapshot = receiver.health().snapshot();
    assert_eq!(snapshot.malformed_samples, 1);
    assert_eq!(
        snapshot.recent_events[0].detail,
        "classic sample has payload bytes while has_payload is false"
    );

    let mut owned = owned(config("o"));
    let malformed = UpDdsOwnedSampleV1 {
        origin_id: "malformed-peer".to_owned(),
        metadata_fields: vec![0xFF],
        has_payload: false,
        payload: Vec::new(),
    };
    let foreign = owned.screen(Some(malformed)).expect("foreign");
    assert_eq!(owned.receive(foreign, Err("bad".to_owned()), None), None);
    assert_eq!(owned.health().snapshot().malformed_samples, 1);
}

#[test]
fn validated_listeners_skip_the_filter_check() {
    let invalid = Uri {
        resource_id: 1,
        ..endpoint("unchecked")
    };
    let mut transport = owned(config("o"));
    assert_eq!(
        transport.register_validated_owned_listener(&invalid, None, 1),
        Ok(())
    );
    assert_eq!(
        transport.unregister_validated_owned_listener(&invalid, None, 1),
        Ok(0)
    );
    assert!(transport
        .unregister_owned_listener(&topic(1), None, 1)
        .is_err());
    let mut transport = zero_copy(config("z"));
    assert_eq!(
        transport.register_encoded_zero_copy_listener(&invalid, None, 1),
        Ok(())
    );
    assert_eq!(
        transport.unregister_encoded_zero_copy_listener(&invalid, None, 1),
        Ok(0)
    );
    assert!(transport
        .unregister_zero_copy_listener(&topic(1), None, 1)
        .is_err());
}

#[test]
fn impossible_loans_are_refused() {
    let core = zero_copy(config("z"));
    for (len, alignment) in [(1, 0), (1, 3), (usize::MAX, 1), (0, 1 << 63)] {
        let spec = PreparedTxLoanSpec {
            metadata: FrameMetadata {
                id: Uuid { msb: 1, lsb: 2 },
                source: topic(6),
                sink: None,
                payload_encoding: Some(6),
            },
            encoded_metadata: Vec::new(),
            has_payload: true,
            payload_len: len,
            payload_alignment: alignment,
        };
        let error = core.loan_prepared_tx(&spec).err().expect("refused");
        assert_eq!(error.code, StatusCode::InvalidArgument);
        assert_eq!(error.message, "invalid requested payload allocation layout");
        assert!(core.loan_prepared_uninit_tx(&spec).is_err());
    }
}

#[test]
fn delivered_samples_complete_a_send() {
    let mut sender = classic(DdsConfig {
        acknowledgment_mode: AcknowledgmentMode::PerSend,
        ..config("sender")
    });
    assert!(matches!(
        sender.core.written(Ok(())),
        Ok(SendCompletion::AwaitDelivery { target: 1, .. })
    ));
    let own = sample("sender", &message(topic(1), None, None));
    assert_eq!(sender.receive(own), None);
    assert_eq!(
        delivery_step(1, Ok(()), sender.core.delivered(), true),
        DeliveryStep::Complete
    );
    assert_eq!(
        delivery_step(1, Err(DdsFailure::Timeout), 1, false),
        DeliveryStep::Failed(DdsFailure::Timeout)
    );
    assert_eq!(sender.core.delivery_concluded(None), Ok(()));
    assert_eq!(sender.health().snapshot().delivery_completion_errors, 0);
}

#[test]
fn best_effort_transports_never_wait() {
    for mode in [AcknowledgmentMode::PerSend, AcknowledgmentMode::OnDrop] {
        let mut base = config("sender");
        base.qos.reliability = Reliability::BestEffort;
        base.acknowledgment_mode = mode;
        let mut sender = classic(base);
        assert_eq!(sender.core.written(Ok(())), Ok(SendCompletion::Complete));
        assert_eq!(
            sender.core.wait_acknowledged(),
            Ok(AcknowledgmentBarrier::Pass)
        );
        assert_eq!(sender.core.begin_teardown(), TeardownAction::Stop);
    }
}

#[test]
fn acknowledgment_barrier_reports_the_middleware() {
    let sender = owned(config("sender"));
    assert_eq!(
        sender.core.wait_acknowledged(),
        Ok(AcknowledgmentBarrier::Await)
    );
    assert_eq!(sender.core.acknowledged(Ok(())), Ok(()));
    let error = sender
        .core
        .acknowledged(Err(DdsFailure::Timeout))
        .expect_err("timeout");
    assert_eq!(error.code, StatusCode::DeadlineExceeded);
    assert_eq!(
        error.message,
        "acknowledge owned samples: operation timed out"
    );
}

#[test]
fn failed_writes_are_recorded_and_returned() {
    let mut sender = zero_copy(config("sender"));
    let error = sender
        .core
        .written(Err(DdsFailure::AlreadyDeleted))
        .expect_err("write");
    assert_eq!(error.code, StatusCode::Unavailable);
    assert_eq!(
        error.message,
        "write zero-copy sample: object of operation has been already deleted"
    );
    let snapshot = sender.health().snapshot();
    assert_eq!(snapshot.dds_errors, 1);
    assert_eq!(
        snapshot.recent_events[0].detail,
        "zero-copy writer: object of operation has been already deleted"
    );
    assert_eq!(sender.core.begin_teardown(), TeardownAction::Stop);
}

#[test]
fn failed_polls_are_recorded_unless_there_is_no_data() {
    let mut receiver = owned(config("receiver"));
    receiver.core.poll_failed(&DdsFailure::NoData);
    assert_eq!(receiver.health().snapshot().dds_errors, 0);
    receiver
        .core
        .poll_failed(&DdsFailure::Error("broken".to_owned()));
    let snapshot = receiver.health().snapshot();
    assert_eq!(snapshot.dds_errors, 1);
    assert_eq!(
        snapshot.recent_events[0].detail,
        "owned reader take: unspecified: broken"
    );
}

#[test]
fn callbacks_are_cancelled_once_stopped() {
    let mut receiver = classic(config("receiver"));
    assert_eq!(
        receiver.core.callback_step(false),
        CallbackStep::Wait(Interval::from_millis(10))
    );
    assert_eq!(receiver.core.callback_step(true), CallbackStep::Join);
    receiver.core.callback_joined(false);
    receiver.core.callback_joined(true);
    receiver.core.job_panicked();
    assert!(!receiver.core.is_stopped());
    assert_eq!(
        receiver.core.poll_step(false),
        PollStep::Wait(Interval::from_millis(2))
    );
    assert_eq!(receiver.core.poll_step(true), PollStep::Take(64));
    assert_eq!(receiver.core.begin_teardown(), TeardownAction::Stop);
    assert!(receiver.core.is_stopped());
    assert_eq!(receiver.core.poll_step(true), PollStep::Stop);
    assert_eq!(receiver.core.callback_step(false), CallbackStep::Abort);
    assert_eq!(receiver.core.callback_step(true), CallbackStep::Join);
    receiver.core.callback_joined(true);
    let snapshot = receiver.health().snapshot();
    assert_eq!(snapshot.callback_panics, 2);
    assert_eq!(
        snapshot.recent_events[0].detail,
        "listener callback panicked"
    );
}

#[test]
fn clean_teardown_runs_every_step_and_records_nothing() {
    let mut transport = classic(config("c"));
    transport
        .register_listener(&topic(1), None, 1)
        .expect("register");
    transport
        .register_listener(&topic(2), None, 2)
        .expect("register");
    let seen = tear_down(&mut transport.core, |_| TeardownOutcome::Done);
    assert_eq!(
        seen,
        [
            "Stop",
            "JoinPoller",
            "AwaitIdle([0, 1])",
            "JoinDispatcher",
            "ReleaseWriter",
            "DeleteEntities",
            "DeleteParticipant",
        ]
    );
    let snapshot = transport.health().snapshot();
    assert_eq!(snapshot.worker_panics, 0);
    assert_eq!(snapshot.teardown_errors, 0);
    assert!(snapshot.recent_events.is_empty());
    assert_eq!(transport.core.begin_callback(0), None);
    let error = transport
        .send(&message(topic(1), None, None))
        .expect_err("closed");
    assert_eq!(error.code, StatusCode::Unavailable);
    assert_eq!(error.message, "transport is closed");
    assert!(transport.wait_ready(0).is_err());
    assert!(transport.core.wait_acknowledged().is_err());
}

#[test]
fn teardown_failures_are_recorded_in_order() {
    let mut transport = zero_copy(config("z"));
    assert_eq!(
        transport.core.written(Ok(())),
        Ok(SendCompletion::Complete)
    );
    tear_down(&mut transport.core, |action| match action {
        TeardownAction::JoinPoller | TeardownAction::JoinDispatcher => TeardownOutcome::Panicked,
        _ => TeardownOutcome::Failed(DdsFailure::IllegalOperation),
    });
    let snapshot = transport.health().snapshot();
    let events: Vec<(HealthErrorKind, &str)> = snapshot
        .recent_events
        .iter()
        .map(|event| (event.kind, event.detail.as_str()))
        .collect();
    assert_eq!(
        events,
        [
            (
                HealthErrorKind::DeliveryCompletion,
                "acknowledge zero-copy samples during teardown: illegal operation"
            ),
            (
                HealthErrorKind::WorkerPanic,
                "zero-copy poller thread panicked"
            ),
            (
                HealthErrorKind::WorkerPanic,
                "zero-copy dispatcher thread panicked"
            ),
            (
                HealthErrorKind::Teardown,
                "delete zero-copy contained entities: illegal operation"
            ),
            (
                HealthErrorKind::Teardown,
                "delete zero-copy participant: illegal operation"
            ),
        ]
    );
    assert_eq!(snapshot.worker_panics, 2);
    assert_eq!(snapshot.teardown_errors, 2);
    assert_eq!(snapshot.delivery_completion_errors, 1);
}

#[test]
fn classic_distinct_instances_preserve_payload_presence_and_suppress_self() {
    let source = topic(1);
    let mut sender = classic(config("classic-sender"));
    let mut receiver = classic(config("classic-receiver"));
    assert_eq!(receiver.register_listener(&source, None, 11), Ok(()));
    assert_eq!(sender.register_listener(&source, None, 12), Ok(()));
    let payloads = [None, Some(Vec::new()), Some(b"nonempty".to_vec())];
    for (count, payload) in payloads.into_iter().enumerate() {
        let sent = message(topic(1), None, payload);
        let sample = sender.send(&sent).expect("send");
        let (received, tokens) = receiver.receive(Some(sample.clone())).expect("message");
        assert_eq!(received, sent);
        assert_eq!(tokens, vec![0]);
        assert_eq!(receiver.core.begin_callback(0), Some(11));
        assert!(receiver.core.finish_callback(0));
        assert_eq!(sender.receive(Some(sample)), None);
        assert_eq!(sender.core.delivered(), count as u64 + 1);
    }
    assert!(receiver.health().snapshot().recent_events.is_empty());
}

#[test]
fn all_families_validate_filters_and_none_requires_no_sink() {
    let invalid = Uri {
        resource_id: 1,
        ..endpoint("invalid-source")
    };
    let expected = Err(Status {
        code: StatusCode::InvalidArgument,
        message: "source filter must either have the wildcard resource ID or a resource ID from topic range, if sink filter is empty".to_owned(),
    });
    let mut transport = classic(config("transport"));
    assert_eq!(transport.register_listener(&invalid, None, 1), expected);
    assert!(transport.unregister_listener(&invalid, None, 1).is_err());
    let mut transport = owned(config("owned"));
    assert_eq!(
        transport.register_owned_listener(&invalid, None, 1),
        expected
    );
    let mut transport = zero_copy(config("zero-copy"));
    assert_eq!(
        transport.register_zero_copy_listener(&invalid, None, 1),
        expected
    );
}

#[test]
fn none_sink_filter_matches_only_sinkless_messages() {
    let mut receiver = classic(config("receiver"));
    let sink = endpoint("sink-filter");
    assert_eq!(receiver.register_listener(&topic(12), None, 1), Ok(()));
    assert_eq!(
        receiver.register_listener(&topic(12), Some(&sink), 2),
        Ok(())
    );
    let addressed = sample("sender", &message(topic(12), Some(sink), None));
    let (_, tokens) = receiver.receive(addressed).expect("addressed message");
    assert_eq!(tokens, vec![1]);
    let sinkless = sample("sender", &message(topic(12), None, None));
    let (_, tokens) = receiver.receive(sinkless).expect("sinkless message");
    assert_eq!(tokens, vec![0]);
}

#[test]
fn owned_distinct_instances_preserve_absent_empty_and_nonempty() {
    let mut receiver = owned(config("receiver"));
    let mut sender = owned(config("sender"));
    receiver
        .register_owned_listener(&topic(3), None, 4)
        .expect("register");
    sender
        .register_owned_listener(&topic(3), None, 5)
        .expect("self register");
    for payload in [None, Some(Vec::new()), Some(b"owned".to_vec())] {
        let metadata = FrameMetadata {
            id: Uuid { msb: 1, lsb: 2 },
            source: topic(3),
            sink: None,
            payload_encoding: payload.as_ref().map(|_| 6),
        };
        let sample = sender
            .send_validated_owned(Ok(vec![7]), &payload)
            .expect("send");
        assert_eq!(sender.screen(Some(sample.clone())), None);
        let foreign = receiver.screen(Some(sample)).expect("foreign");
        assert_eq!(foreign.metadata_fields, vec![7]);
        let (frame, tokens) = receiver
            .receive(foreign, Ok(metadata.clone()), None)
            .expect("frame");
        assert_eq!(frame.metadata, metadata);
        assert_eq!(frame.payload, payload);
        assert_eq!(tokens, vec![0]);
    }
    assert_eq!(sender.core.delivered(), 3);
    assert_eq!(receiver.screen(None), None);
    assert_eq!(receiver.wait_ready(0), Ok(Readiness::Ready));
}

#[test]
fn malformed_owned_sample_from_distinct_participant_is_observable() {
    let mut receiver = owned(config("receiver"));
    let malformed = UpDdsOwnedSampleV1 {
        origin_id: "malformed-peer".to_owned(),
        metadata_fields: vec![0xFF],
        has_payload: false,
        payload: Vec::new(),
    };
    let foreign = receiver.screen(Some(malformed)).expect("foreign");
    assert_eq!(receiver.receive(foreign, Err("bad".to_owned()), None), None);
    assert_eq!(receiver.health().snapshot().malformed_samples, 1);
    assert_eq!(
        receiver.health().snapshot().recent_events[0].detail,
        "invalid owned metadata: bad"
    );
}

fn loan_spec(source: Uri, sink: Option<Uri>) -> PreparedTxLoanSpec {
    PreparedTxLoanSpec {
        metadata: FrameMetadata {
            id: Uuid { msb: 1, lsb: 2 },
            source,
            sink,
            payload_encoding: Some(6),
        },
        encoded_metadata: vec![1, 2, 3],
        has_payload: true,
        payload_len: 33,
        payload_alignment: 1,
    }
}

#[test]
fn initialized_and_uninitialized_loans_honor_requested_alignment() {
    let core = zero_copy(config("core"));
    for alignment in [1usize, 2, 8, 64, 4096] {
        let prepared = PreparedTxLoanSpec {
            payload_alignment: alignment,
            ..loan_spec(topic(7), None)
        };
        let initialized = core.loan_prepared_tx(&prepared).expect("initialized loan");
        assert_eq!(initialized.payload().as_ptr() as usize % alignment, 0);
        assert_eq!(initialized.payload(), [0u8; 33]);

        let mut uninitialized = core
            .loan_prepared_uninit_tx(&prepared)
            .expect("uninitialized loan");
        assert_eq!(uninitialized.payload_len(), 33);
        assert_eq!(uninitialized.metadata().source, topic(7));
        assert_eq!(
            uninitialized.payload_uninit_mut().as_ptr() as usize % alignment,
            0
        );
        for byte in uninitialized.payload_uninit_mut() {
            *byte = 0xA5;
        }
        let initialized = uninitialized.assume_payload_init();
        assert_eq!(initialized.payload().as_ptr() as usize % alignment, 0);
        assert!(initialized.payload().iter().all(|byte| *byte == 0xA5));
    }
}

#[test]
fn zero_copy_preserves_absent_empty_and_nonempty_payloads() {
    let mut sender = zero_copy(config("sender"));
    let mut receiver = zero_copy(config("receiver"));
    receiver
        .register_zero_copy_listener(&topic(11), None, 1)
        .expect("register");
    sender
        .register_zero_copy_listener(&topic(11), None, 2)
        .expect("self register");
    for (has_payload, payload) in [(false, b"".as_slice()), (true, b""), (true, b"abc")] {
        let spec = PreparedTxLoanSpec {
            has_payload,
            payload_len: payload.len(),
            payload_alignment: 8,
            ..loan_spec(topic(11), None)
        };
        let mut loan = sender.loan_prepared_tx(&spec).expect("loan");
        loan.payload_mut().copy_from_slice(payload);
        let sample = sender.send_prepared_zero_copy(loan).expect("send");
        assert_eq!(sample.has_payload, has_payload);
        assert!(!sample.has_sink);
        assert_eq!(sample.sink_uri, "");
        let (frame, tokens) = receiver.receive(Some(sample.clone())).expect("frame");
        assert_eq!(frame.payload_len(), payload.len());
        assert_eq!(frame.try_contiguous_payload(), Some(payload));
        assert_eq!(tokens, vec![0]);
        assert_eq!(sender.receive(Some(sample)), None);
    }
    assert_eq!(sender.core.delivered(), 3);
}

#[test]
fn zero_copy_core_carries_metadata_opaquely_and_routes_from_sideband() {
    let sender = zero_copy(config("sender"));
    let mut receiver = zero_copy(config("receiver"));
    receiver
        .register_encoded_zero_copy_listener(&topic(13), None, 9)
        .expect("register encoded listener");
    let prepared = PreparedTxLoanSpec {
        encoded_metadata: vec![0xDE, 0xAD, 0xBE, 0xEF],
        payload_len: 4,
        payload_alignment: 64,
        ..loan_spec(topic(13), None)
    };
    let mut loan = sender.loan_prepared_tx(&prepared).expect("loan");
    assert_eq!(loan.metadata(), &prepared.metadata);
    loan.payload_mut().copy_from_slice(b"data");
    let sample = sender
        .send_prepared_zero_copy(loan)
        .expect("send encoded frame");
    assert_eq!(sample.source_uri, "//dds-tests/1000D/1/800D");
    let (frame, tokens) = receiver.receive(Some(sample)).expect("encoded frame");
    assert_eq!(frame.encoded_metadata(), [0xDE, 0xAD, 0xBE, 0xEF]);
    assert_eq!(frame.try_contiguous_payload(), Some(b"data".as_slice()));
    assert_eq!(tokens, vec![0]);
    assert_eq!(receiver.receive(None), None);
    assert_eq!(receiver.wait_ready(3), Ok(Readiness::Poll));
}

#[test]
fn zero_copy_hints_name_source_and_sink() {
    let sender = zero_copy(config("sender"));
    let mut receiver = zero_copy(config("receiver"));
    let source = Uri {
        authority_name: String::new(),
        ..topic(13)
    };
    let sink = endpoint("sink");
    receiver
        .register_zero_copy_listener(&source, Some(&sink), 9)
        .expect("register");
    let loan = sender
        .loan_prepared_tx(&loan_spec(source, Some(sink)))
        .expect("loan");
    let sample = sender.send_prepared_zero_copy(loan).expect("send");
    assert_eq!(sample.source_uri, "/1000D/1/800D");
    assert!(sample.has_sink);
    assert_eq!(sample.sink_uri, "//sink/12345/1/0");
    let (_, tokens) = receiver.receive(Some(sample)).expect("frame");
    assert_eq!(tokens, vec![0]);
}

#[test]
fn bounded_dispatch_reports_backpressure() {
    let mut receiver = classic(DdsConfig {
        dispatch_capacity: 1,
        ..config("receiver")
    });
    receiver.core.submitted(SubmitOutcome::Queued);
    assert_eq!(receiver.health().snapshot().dispatch_drops, 0);
    receiver.core.submitted(SubmitOutcome::Full);
    receiver.core.submitted(SubmitOutcome::Disconnected);
    let snapshot = receiver.health().snapshot();
    assert_eq!(snapshot.dispatch_drops, 2);
    let details: Vec<&str> = snapshot
        .recent_events
        .iter()
        .map(|event| event.detail.as_str())
        .collect();
    assert_eq!(
        details,
        ["callback queue is full", "callback queue is disconnected"]
    );
}

#[test]
fn unregister_waits_for_inflight_and_prevents_later_callbacks() {
    let mut receiver = classic(config("receiver"));
    let source = topic(8);
    receiver
        .register_listener(&source, None, 21)
        .expect("register");
    assert_eq!(receiver.core.begin_callback(0), Some(21));
    assert_eq!(receiver.unregister_listener(&source, None, 21), Ok(0));
    assert!(!receiver.core.is_idle(0));
    assert_eq!(receiver.core.begin_callback(0), None);
    assert!(receiver.core.finish_callback(0));
    assert!(receiver.core.is_idle(0));
    let late = sample("sender", &message(source, None, None));
    let (_, tokens) = receiver.receive(late).expect("message");
    assert!(tokens.is_empty());
    let error = receiver
        .unregister_listener(&topic(8), None, 21)
        .expect_err("gone");
    assert_eq!(error.code, StatusCode::NotFound);
    assert_eq!(error.message, "listener is not registered");
}

/// Addresses of a one-shot server and of its client.
fn one_shot() -> (Uri, Uri) {
    let method = Uri {
        resource_id: 0x1001,
        ..endpoint("one-shot-server")
    };
    (method, endpoint("one-shot-client"))
}

fn response(payload: &[u8]) -> ClassicMessage {
    let (method, client) = one_shot();
    let mut response = message(method, Some(client), Some(payload.to_vec()));
    response.attributes.message_type = 3;
    response.attributes.priority = 5;
    response.attributes.reqid = response.attributes.id;
    response
}

/// Starts a teardown after one write, which waits for the written sample.
fn drop_after_write(core: &mut Transport) -> u64 {
    assert_eq!(core.written(Ok(())), Ok(SendCompletion::Complete));
    let TeardownAction::AwaitDelivery { target, .. } = core.begin_teardown() else {
        panic!("a written sample is awaited");
    };
    assert_eq!(
        delivery_step(target, Ok(()), core.delivered(), false),
        DeliveryStep::Wait
    );
    target
}

/// Ends a teardown once the written sample was delivered.
fn complete_drop(core: &mut Transport, target: u64) {
    assert_eq!(
        delivery_step(target, Ok(()), core.delivered(), false),
        DeliveryStep::Complete
    );
    while core.advance_teardown(TeardownOutcome::Done) != TeardownAction::Done {}
    let snapshot = core.health().snapshot();
    assert_eq!(snapshot.delivery_completion_errors, 0);
    assert_eq!(snapshot.teardown_errors, 0);
    assert!(snapshot.recent_events.is_empty());
}

#[test]
fn immediate_drop_completes_cleanly_when_delivered() {
    let (method, client) = one_shot();
    let mut receiver = classic(config("classic-receiver"));
    receiver
        .register_listener(&method, Some(&client), 31)
        .expect("classic listener");
    let mut sender = classic(config("classic-sender"));
    let response = response(b"classic-one-shot");
    let sample = sender.send(&response).expect("classic response");
    let target = drop_after_write(&mut sender.core);
    assert_eq!(sender.receive(Some(sample.clone())), None);
    complete_drop(&mut sender.core, target);
    let (message, tokens) = receiver.receive(Some(sample)).expect("classic message");
    assert_eq!(message, response);
    assert_eq!(tokens, vec![0]);
    assert_eq!(receiver.core.begin_callback(0), Some(31));
}

#[test]
fn immediate_drop_of_an_owned_sender_completes_cleanly() {
    let (method, client) = one_shot();
    let mut receiver = owned(config("owned-receiver"));
    receiver
        .register_owned_listener(&method, Some(&client), 32)
        .expect("owned listener");
    let mut sender = owned(config("owned-sender"));
    let response = response(b"owned-arrow-one-shot");
    let metadata = frame_metadata(&response).expect("owned metadata");
    let frame = frame_from_message(response, Ok(metadata.clone()), None).expect("owned frame");
    let sample = sender
        .send_validated_owned(Ok(vec![7]), &frame.payload)
        .expect("owned response");
    let target = drop_after_write(&mut sender.core);
    assert_eq!(sender.screen(Some(sample.clone())), None);
    complete_drop(&mut sender.core, target);
    let foreign = receiver.screen(Some(sample)).expect("foreign");
    let (received, tokens) = receiver
        .receive(foreign, Ok(metadata), None)
        .expect("owned frame");
    assert_eq!(received, frame);
    assert_eq!(received.payload, Some(b"owned-arrow-one-shot".to_vec()));
    assert_eq!(tokens, vec![0]);
    assert_eq!(receiver.core.begin_callback(0), Some(32));
}

#[test]
fn immediate_drop_of_a_zero_copy_sender_completes_cleanly() {
    let (method, client) = one_shot();
    for payload in [b"xcdr".as_slice(), b"arrow", b"omgidl"] {
        let mut receiver = zero_copy(config("zero-copy-receiver"));
        receiver
            .register_zero_copy_listener(&method, Some(&client), 33)
            .expect("zero-copy listener");
        let mut sender = zero_copy(config("zero-copy-sender"));
        let prepared = PreparedTxLoanSpec {
            metadata: frame_metadata(&response(payload)).expect("metadata"),
            encoded_metadata: vec![0xDE, 0xAD, 0xBE, 0xEF],
            has_payload: true,
            payload_len: payload.len(),
            payload_alignment: 8,
        };
        let mut loan = sender.loan_prepared_tx(&prepared).expect("loan");
        loan.payload_mut().copy_from_slice(payload);
        let sample = sender
            .send_prepared_zero_copy(loan)
            .expect("zero-copy response");
        assert_eq!(sample.source_uri, "//one-shot-server/12345/1/1001");
        assert_eq!(sample.sink_uri, "//one-shot-client/12345/1/0");
        let target = drop_after_write(&mut sender.core);
        assert_eq!(sender.receive(Some(sample.clone())), None);
        complete_drop(&mut sender.core, target);
        let (frame, tokens) = receiver.receive(Some(sample)).expect("zero-copy frame");
        assert_eq!(frame.encoded_metadata(), [0xDE, 0xAD, 0xBE, 0xEF]);
        assert_eq!(frame.try_contiguous_payload(), Some(payload));
        assert_eq!(tokens, vec![0]);
        assert_eq!(receiver.core.begin_callback(0), Some(33));
    }
}

#[test]
fn per_send_acknowledgment_timeout_is_returned_and_observable() {
    let timeout = Interval::from_millis(10);
    let mut sender = classic(DdsConfig {
        acknowledgment_mode: AcknowledgmentMode::PerSend,
        acknowledgment_timeout: timeout,
        poll_interval: Interval { secs: 30, nanos: 0 },
        ..config("sender")
    });
    assert_eq!(
        sender.core.written(Ok(())),
        Ok(SendCompletion::AwaitDelivery { target: 1, timeout })
    );
    let DeliveryStep::Failed(failure) =
        delivery_step(1, Ok(()), sender.core.delivered(), true)
    else {
        panic!("paused local delivery must time out");
    };
    let error = sender
        .core
        .delivery_concluded(Some(failure))
        .expect_err("paused local delivery must time out");
    assert_eq!(error.code, StatusCode::DeadlineExceeded);
    assert!(error.message.contains("acknowledge classic sample"));
    let seen = tear_down(&mut sender.core, |_| TeardownOutcome::Done);
    assert_eq!(seen[0], "Stop");
    let snapshot = sender.health().snapshot();
    assert_eq!(snapshot.delivery_completion_errors, 1);
    assert_eq!(
        snapshot.recent_events.last().expect("health event").kind,
        HealthErrorKind::DeliveryCompletion
    );
}

#[test]
fn on_drop_acknowledgment_timeout_is_observable() {
    let timeout = Interval::from_millis(10);
    let mut sender = classic(DdsConfig {
        acknowledgment_timeout: timeout,
        poll_interval: Interval { secs: 30, nanos: 0 },
        ..config("sender")
    });
    assert_eq!(sender.core.written(Ok(())), Ok(SendCompletion::Complete));
    let seen = tear_down(&mut sender.core, |action| match action {
        TeardownAction::AwaitDelivery { target, .. } => {
            match delivery_step(*target, Ok(()), 0, true) {
                DeliveryStep::Failed(failure) => TeardownOutcome::Failed(failure),
                _ => TeardownOutcome::Done,
            }
        }
        _ => TeardownOutcome::Done,
    });
    assert_eq!(
        seen[0],
        format!("{:?}", TeardownAction::AwaitDelivery { target: 1, timeout })
    );
    let snapshot = sender.health().snapshot();
    assert_eq!(snapshot.delivery_completion_errors, 1);
    let event = snapshot.recent_events.last().expect("health event");
    assert_eq!(event.kind, HealthErrorKind::DeliveryCompletion);
    assert_eq!(
        event.detail,
        "acknowledge classic samples during teardown: operation timed out"
    );
}

#[test]
fn shutdown_is_joined_and_domain_can_restart() {
    for _ in 0..2 {
        let mut transport = UPTransportDds::ready(run(UPTransportDds::new(179, 1, 1)));
        assert_eq!(transport.wait_ready(1), Ok(Readiness::Poll));
        assert_eq!(wait_until(1, Ok(1), false), WaitStep::Ready);
        tear_down(&mut transport.core, |_| TeardownOutcome::Done);
        assert_eq!(transport.health().snapshot().worker_panics, 0);
        assert_eq!(transport.health().snapshot().teardown_errors, 0);
    }
    for _ in 0..2 {
        let mut transport = UPTransportDdsOwned::ready(run(UPTransportDdsOwned::new(184, 1, 2)));
        assert_eq!(transport.wait_ready(1), Ok(Readiness::Poll));
        tear_down(&mut transport.core, |_| TeardownOutcome::Done);
        assert_eq!(transport.health().snapshot().worker_panics, 0);
        assert_eq!(transport.health().snapshot().teardown_errors, 0);
    }
    for _ in 0..2 {
        let mut transport = DdsZeroCopyCore::ready(run(DdsZeroCopyCore::new(185, 1, 3)));
        assert_eq!(transport.wait_ready(1), Ok(Readiness::Poll));
        tear_down(&mut transport.core, |_| TeardownOutcome::Done);
        assert_eq!(transport.health().snapshot().worker_panics, 0);
        assert_eq!(transport.health().snapshot().teardown_errors, 0);
    }
}
