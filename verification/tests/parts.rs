//! Configuration, health, registrations, addresses and texts.

use up_transport_dds::buffer::aligned_offset;
use up_transport_dds::delivery::DeliveryTracker;
use up_transport_dds::registry::Registry;
use up_transport_dds::status::StatusCode;
use up_transport_dds::text::{decimal, integer, join, join3};
use up_transport_dds::uri::{verify_filters, Uri};
use up_transport_dds::{
    AcknowledgmentMode, DdsConfig, DdsHealth, DdsQos, HealthErrorKind, Interval, Reliability,
};

fn uri(authority: &str, ue_id: u32, version: u32, resource_id: u32) -> Uri {
    Uri {
        authority_name: authority.to_owned(),
        ue_id,
        ue_version_major: version,
        resource_id,
    }
}

#[test]
fn texts_are_decimal() {
    assert_eq!(decimal(0), "0");
    assert_eq!(decimal(1_234_567_890), "1234567890");
    assert_eq!(decimal(u64::MAX), u64::MAX.to_string());
    assert_eq!(integer(i32::MIN), i32::MIN.to_string());
    assert_eq!(integer(17), "17");
    assert_eq!(join("a", "b"), "ab");
    assert_eq!(join3("a", "", "c"), "ac");
}

#[test]
fn default_configuration() {
    let config = DdsConfig::new(5, 4_294_967_295, u64::MAX);
    assert_eq!(config.domain_id, 5);
    assert_eq!(config.origin_id, "4294967295-18446744073709551615");
    assert_eq!(config.qos, DdsQos::default());
    assert_eq!(config.qos.reliability, Reliability::Reliable);
    assert_eq!(config.qos.history_depth, 32);
    assert_eq!(config.dispatch_capacity, 256);
    assert_eq!(config.max_samples_per_poll, 64);
    assert_eq!(config.poll_interval, Interval::from_millis(2));
    assert_eq!(config.acknowledgment_mode, AcknowledgmentMode::OnDrop);
    assert_eq!(config.acknowledgment_timeout, Interval { secs: 8, nanos: 0 });
    assert_eq!(config.validate(), Ok(()));
    assert!(config.tracks_delivery());
    assert_eq!(config.clone().origin_id, config.origin_id);
}

#[test]
fn origins_differ_between_instances() {
    let origins = [
        DdsConfig::new(1, 1, 11).origin_id,
        DdsConfig::new(1, 11, 1).origin_id,
        DdsConfig::new(1, 1, 1).origin_id,
        DdsConfig::new(1, 11, 11).origin_id,
    ];
    for (i, first) in origins.iter().enumerate() {
        for second in &origins[i + 1..] {
            assert_ne!(first, second);
        }
    }
}

#[test]
fn configuration_faults_come_in_order() {
    let mut config = DdsConfig::new(1, 1, 1);
    config.qos.history_depth = 0;
    let fault = |config: &DdsConfig| {
        let status = config.validate().expect_err("invalid");
        assert_eq!(status.code, StatusCode::InvalidArgument);
        status.message
    };
    assert_eq!(fault(&config), "history_depth must be greater than zero");
    config.poll_interval = Interval { secs: 0, nanos: 0 };
    assert_eq!(fault(&config), "poll_interval must be greater than zero");
    config.max_samples_per_poll = 0;
    assert_eq!(
        fault(&config),
        "max_samples_per_poll must be greater than zero"
    );
    config.max_samples_per_poll = -4;
    assert_eq!(
        fault(&config),
        "max_samples_per_poll must be greater than zero"
    );
    config.dispatch_capacity = 0;
    assert_eq!(fault(&config), "dispatch_capacity must be greater than zero");
    config.origin_id = String::new();
    assert_eq!(fault(&config), "origin_id must contain 1..=255 bytes");
    config.origin_id = "x".repeat(256);
    assert_eq!(fault(&config), "origin_id must contain 1..=255 bytes");
    config.origin_id = "\u{e9}".repeat(128);
    assert_eq!(fault(&config), "origin_id must contain 1..=255 bytes");
}

#[test]
fn longest_origin_is_accepted() {
    let config = DdsConfig {
        origin_id: "x".repeat(255),
        ..DdsConfig::new(1, 1, 1)
    };
    assert_eq!(config.validate(), Ok(()));
}

#[test]
fn intervals_hold_milliseconds() {
    assert_eq!(
        Interval::from_millis(1_234_567),
        Interval {
            secs: 1234,
            nanos: 567_000_000
        }
    );
    assert!(Interval::from_millis(0).is_zero());
    assert!(!Interval { secs: 0, nanos: 1 }.is_zero());
}

#[test]
fn health_keeps_the_last_events_and_all_counts() {
    let mut health = DdsHealth::default();
    for i in 0..70 {
        let kind = if i % 2 == 0 {
            HealthErrorKind::Dds
        } else {
            HealthErrorKind::Teardown
        };
        health.record(kind, format!("event {i}"));
    }
    let snapshot = health.snapshot();
    assert_eq!(snapshot.dds_errors, 35);
    assert_eq!(snapshot.teardown_errors, 35);
    assert_eq!(snapshot.malformed_samples, 0);
    assert_eq!(snapshot.recent_events.len(), 64);
    assert_eq!(snapshot.recent_events[0].sequence, 7);
    assert_eq!(snapshot.recent_events[0].detail, "event 6");
    assert_eq!(snapshot.recent_events[63].sequence, 70);
    assert_eq!(snapshot.recent_events[63].kind, HealthErrorKind::Teardown);
    assert_eq!(health.snapshot(), snapshot);
    assert_eq!(snapshot.clone(), snapshot);
    assert!(health.can_record());
}

#[test]
fn snapshots_change_only_by_recording() {
    let mut health = DdsHealth::default();
    health.record(HealthErrorKind::Dds, "first".to_owned());
    let before = health.snapshot();
    assert_eq!(health.snapshot(), before);
    health.record(HealthErrorKind::Teardown, "second".to_owned());
    assert_eq!(before.recent_events.len(), 1);
    let after = health.snapshot();
    assert_eq!(after.dds_errors, before.dds_errors);
    assert_eq!(after.teardown_errors, before.teardown_errors + 1);
    assert_eq!(after.recent_events[0], before.recent_events[0]);
    assert_eq!(after.recent_events[1].sequence, 2);
}

#[test]
fn health_counts_every_kind_apart() {
    let mut health = DdsHealth::default();
    let kinds = [
        HealthErrorKind::Dds,
        HealthErrorKind::MalformedSample,
        HealthErrorKind::DispatchBackpressure,
        HealthErrorKind::CallbackPanic,
        HealthErrorKind::WorkerPanic,
        HealthErrorKind::Teardown,
        HealthErrorKind::DeliveryCompletion,
    ];
    for (count, kind) in kinds.into_iter().enumerate() {
        for _ in 0..=count {
            health.record(kind, "detail".to_owned());
        }
    }
    let snapshot = health.snapshot();
    assert_eq!(snapshot.dds_errors, 1);
    assert_eq!(snapshot.malformed_samples, 2);
    assert_eq!(snapshot.dispatch_drops, 3);
    assert_eq!(snapshot.callback_panics, 4);
    assert_eq!(snapshot.worker_panics, 5);
    assert_eq!(snapshot.teardown_errors, 6);
    assert_eq!(snapshot.delivery_completion_errors, 7);
    assert_eq!(snapshot.recent_events.len(), 28);
    assert_eq!(snapshot.recent_events[27].clone(), snapshot.recent_events[27]);
}

#[test]
fn registrations_are_unique_and_ordered() {
    let mut registry = Registry::default();
    let source = uri("a", 0x10001, 1, 0x8001);
    let sink = uri("b", 0x10001, 1, 0);
    assert_eq!(registry.register(&source, None, 1), Ok(()));
    assert_eq!(registry.register(&source, Some(&sink), 1), Ok(()));
    assert_eq!(registry.register(&source, None, 2), Ok(()));
    let error = registry
        .register(&source, None, 1)
        .expect_err("registered twice");
    assert_eq!(error.code, StatusCode::AlreadyExists);
    assert_eq!(error.message, "listener is already registered");
    assert_eq!(registry.matching(&source, None), vec![0, 2]);
    assert_eq!(registry.matching(&source, Some(&sink)), vec![1]);
    assert_eq!(registry.unregister(&source, None, 1), Ok(0));
    assert_eq!(registry.matching(&source, None), vec![2]);
    assert_eq!(registry.register(&source, None, 1), Ok(()));
    assert_eq!(registry.matching(&source, None), vec![2, 3]);
    assert_eq!(registry.deactivate_all(), vec![1, 2, 3]);
    assert!(registry.matching(&source, None).is_empty());
}

#[test]
fn callbacks_run_only_under_active_tokens() {
    let mut registry = Registry::default();
    let source = uri("a", 1, 1, 0x8001);
    registry.register(&source, None, 77).expect("register");
    assert!(registry.can_register());
    assert!(registry.can_begin(0));
    assert_eq!(registry.begin(1), None);
    assert_eq!(registry.begin(0), Some(77));
    assert_eq!(registry.begin(0), Some(77));
    assert!(!registry.is_idle(0));
    assert_eq!(registry.unregister(&source, None, 77), Ok(0));
    assert_eq!(registry.begin(0), None);
    assert!(!registry.finish(0));
    assert!(registry.finish(0));
    assert!(registry.is_idle(0));
}

#[test]
fn retired_tokens_stay_retired_when_their_key_comes_back() {
    let mut registry = Registry::default();
    let source = uri("a", 1, 1, 0x8001);
    let other = uri("b", 1, 1, 0x8001);
    registry.register(&source, None, 77).expect("register");
    registry.register(&other, None, 78).expect("register");
    let snapshotted = registry.matching(&source, None);
    assert_eq!(snapshotted, vec![0]);
    assert_eq!(registry.unregister(&source, None, 77), Ok(0));
    registry.register(&source, None, 77).expect("register again");
    assert_eq!(registry.matching(&source, None), vec![2]);
    assert_eq!(registry.begin(snapshotted[0]), None);
    assert!(registry.is_idle(0));
    assert_eq!(registry.begin(1), Some(78));
    assert_eq!(registry.begin(2), Some(77));
    assert_eq!(registry.deactivate_all(), vec![1, 2]);
    assert!(registry.deactivate_all().is_empty());
    let error = registry.unregister(&other, None, 78).expect_err("gone");
    assert_eq!(error.code, StatusCode::NotFound);
    for token in [0, 1, 2] {
        assert_eq!(registry.begin(token), None);
    }
    assert!(!registry.is_idle(1));
    assert!(registry.finish(1));
    registry.register(&other, None, 78).expect("register again");
    assert_eq!(registry.begin(1), None);
    assert!(registry.is_idle(1));
}

#[test]
fn wildcards_match_part_by_part() {
    let concrete = uri("vin", 0x0002_0001, 3, 0x8005);
    let selects = |filter: &Uri| {
        let mut registry = Registry::default();
        registry.register(filter, None, 1).expect("register");
        !registry.matching(&concrete, None).is_empty()
    };
    assert!(selects(&concrete));
    assert!(selects(&uri("*", 0x0002_0001, 3, 0x8005)));
    assert!(selects(&uri("vin", 0xFFFF_0001, 3, 0x8005)));
    assert!(selects(&uri("vin", 0x0002_FFFF, 3, 0x8005)));
    assert!(selects(&uri("vin", 0x0002_0001, 0xFF, 0x8005)));
    assert!(selects(&uri("vin", 0x0002_0001, 3, 0xFFFF)));
    assert!(selects(&uri("*", 0xFFFF_FFFF, 0xFF, 0xFFFF)));
    assert!(selects(&uri("vin", 0x0002_0001, 0x103, 0x8005)));
    assert!(!selects(&uri("other", 0x0002_0001, 3, 0x8005)));
    assert!(!selects(&uri("vin", 0x0003_0001, 3, 0x8005)));
    assert!(!selects(&uri("vin", 0x0002_0002, 3, 0x8005)));
    assert!(!selects(&uri("vin", 0x0002_0001, 4, 0x8005)));
    assert!(!selects(&uri("vin", 0x0002_0001, 3, 0x8006)));
}

#[test]
fn filter_pairs_follow_the_resource_rules() {
    let event = uri("a", 1, 1, 0x8001);
    let method = uri("a", 1, 1, 0x1000);
    let entity = uri("a", 1, 1, 0);
    let any = uri("*", 0xFFFF_FFFF, 0xFF, 0xFFFF);
    assert_eq!(verify_filters(&event, None), Ok(()));
    assert_eq!(verify_filters(&any, None), Ok(()));
    assert_eq!(verify_filters(&event, Some(&entity)), Ok(()));
    assert_eq!(verify_filters(&entity, Some(&method)), Ok(()));
    assert_eq!(verify_filters(&any, Some(&method)), Ok(()));
    let refusal = |source: &Uri, sink: Option<&Uri>| {
        let status = verify_filters(source, sink).expect_err("refused");
        assert_eq!(status.code, StatusCode::InvalidArgument);
        status.message
    };
    assert_eq!(
        refusal(&entity, Some(&entity)),
        "source and sink filters must not both have resource ID 0"
    );
    assert_eq!(
        refusal(&event, Some(&method)),
        "source filter must either have the wildcard resource ID or resource ID 0, if sink filter matches RPC method resource ID"
    );
    assert_eq!(
        refusal(&method, None),
        "source filter must either have the wildcard resource ID or a resource ID from topic range, if sink filter is empty"
    );
    assert!(refusal(&uri("a", 1, 0x100, 0x8001), None).starts_with("invalid source filter URI: "));
    assert!(refusal(&uri("UPPER", 1, 1, 0x8001), None).starts_with("invalid source filter URI: "));
    assert!(
        refusal(&event, Some(&uri("a", 1, 1, 0x1_0000))).starts_with("invalid sink filter URI: ")
    );
}

#[test]
fn addresses_compare_by_every_field() {
    let base = uri("a", 1, 1, 1);
    assert!(base.same(&base.clone()));
    assert!(!base.same(&uri("b", 1, 1, 1)));
    assert!(!base.same(&uri("a", 2, 1, 1)));
    assert!(!base.same(&uri("a", 1, 2, 1)));
    assert!(!base.same(&uri("a", 1, 1, 2)));
}

#[test]
fn offsets_reach_the_next_aligned_address() {
    assert_eq!(aligned_offset(0, 8), 0);
    assert_eq!(aligned_offset(16, 8), 0);
    assert_eq!(aligned_offset(17, 8), 7);
    assert_eq!(aligned_offset(23, 8), 1);
    assert_eq!(aligned_offset(23, 1), 0);
}

#[test]
fn delivery_counts_both_ways() {
    let mut tracker = DeliveryTracker::default();
    tracker.record_write();
    tracker.record_write();
    tracker.record_delivery();
    assert_eq!(
        tracker,
        DeliveryTracker {
            written: 2,
            delivered: 1
        }
    );
}
