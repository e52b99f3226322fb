use krabka_operator::binary64::Binary64;
use krabka_operator::crd::broker_tuning::{BrokerTuning, RecordDecompressionLimits};
use krabka_operator::units::{ByteSize, Ratio, Setting, Time};

const OK: Result<(), String> = Ok(());

fn time(secs: f64) -> Option<Setting<Time>> {
    Some(Setting {
        value: Time {
            secs: Binary64 { bits: secs.to_bits() },
        },
        text: format!("{secs}s"),
    })
}

fn millis(n: i64) -> Option<Setting<Time>> {
    Some(Setting {
        value: Time::from_millis(n),
        text: format!("{n}ms"),
    })
}

fn size(bytes: f64) -> Option<Setting<ByteSize>> {
    Some(Setting {
        value: ByteSize {
            bytes: Binary64 { bits: bytes.to_bits() },
        },
        text: format!("{bytes}B"),
    })
}

fn ratio(fraction: f64) -> Option<Setting<Ratio>> {
    Some(Setting {
        value: Ratio {
            fraction: Binary64 { bits: fraction.to_bits() },
        },
        text: format!("{}%", fraction * 100.0),
    })
}

fn tuning(set: impl FnOnce(&mut BrokerTuning)) -> BrokerTuning {
    let mut tuning = BrokerTuning::default();
    set(&mut tuning);
    tuning
}

fn validated(set: impl FnOnce(&mut BrokerTuning)) -> Result<(), String> {
    tuning(set).validate(&OK, &OK)
}

fn err(field: &str, message: &str) -> Result<(), String> {
    Err(format!("spec.brokerTuning.{field}: {message}"))
}

#[test]
fn a_tuning_that_sets_nothing_is_valid_and_has_no_table() {
    let unset = BrokerTuning::default();
    assert_eq!(unset.validate(&OK, &OK), OK);
    assert_eq!(unset.render_runtime_toml(), "");
    // The verdict on the size of a snapshot fetch plays no part.
    assert_eq!(unset.validate(&Err("no".into()), &OK), OK);
    assert_eq!(
        unset.validate(&OK, &Err("no".into())),
        Err(
            "spec.brokerTuning.recordDecompressionMaxRatio, \
             spec.brokerTuning.recordDecompressionOutputFloor, and \
             spec.brokerTuning.recordDecompressionOutputCeiling: no"
                .to_owned()
        )
    );
}

#[test]
fn names_turn_into_camel_case() {
    for (field, camel) in [
        ("", ""),
        ("heartbeat", "heartbeat"),
        ("tls_reload_interval", "tlsReloadInterval"),
        ("a__b", "aB"),
        ("_a", "A"),
        ("a_", "a"),
        ("a_1b", "a1b"),
        ("a_äb", "aäb"),
    ] {
        assert_eq!(BrokerTuning::camel_case(field), camel);
    }
    assert_eq!(BrokerTuning::path("a_b"), "spec.brokerTuning.aB");
    assert_eq!(BrokerTuning::invalid("a_b", "x"), "spec.brokerTuning.aB: x");
    assert_eq!(
        BrokerTuning::invalid_relation("a_b", "c_d", "x"),
        "spec.brokerTuning.aB and spec.brokerTuning.cD: x"
    );
}

#[test]
fn a_nonnegative_extent_may_be_zero() {
    for (secs, valid) in [
        (0.0, true),
        (-0.0, true),
        (1.5, true),
        (0.0001, true),
        (-0.001, false),
        (f64::NAN, false),
        (f64::INFINITY, false),
    ] {
        let expected = if valid {
            OK
        } else {
            err("tlsReloadInterval", "must be finite and nonnegative")
        };
        assert_eq!(validated(|t| t.tls_reload_interval = time(secs)), expected, "{secs}");
    }
}

#[test]
fn a_positive_extent_is_above_zero() {
    assert_eq!(validated(|t| t.gauge_poll_interval = time(0.0001)), OK);
    assert_eq!(
        validated(|t| t.gauge_poll_interval = time(0.0)),
        err("gaugePollInterval", "must be positive")
    );
    assert_eq!(
        validated(|t| t.gauge_poll_interval = time(-1.0)),
        err("gaugePollInterval", "must be finite and nonnegative")
    );
}

#[test]
fn a_whole_extent_is_a_number_of_milliseconds() {
    assert_eq!(validated(|t| t.producer_id_expiration = millis(1)), OK);
    assert_eq!(validated(|t| t.producer_id_expiration = millis(86_400_001)), OK);
    assert_eq!(validated(|t| t.producer_id_expiration = time(0.123)), OK);
    assert_eq!(
        validated(|t| t.producer_id_expiration = time(0.0015)),
        err("producerIdExpiration", "must be a whole number of milliseconds")
    );
    assert_eq!(
        validated(|t| t.producer_id_expiration = time(0.0)),
        err("producerIdExpiration", "must be positive")
    );
    // There are no more milliseconds than an `i64` holds.
    assert_eq!(
        validated(|t| t.producer_id_expiration = time(1e18)),
        err("producerIdExpiration", "must be a whole number of milliseconds")
    );
}

#[test]
fn a_bounded_extent_is_a_number_of_milliseconds_up_to_the_bound() {
    let bound = i64::from(i32::MAX);
    for (n, valid) in [(1, true), (30_000, true), (bound, true), (bound + 1, false)] {
        let expected = if valid {
            OK
        } else {
            err("clientMetricsDefaultInterval", "must be at most 2147483647ms")
        };
        assert_eq!(
            validated(|t| t.client_metrics_default_interval = millis(n)),
            expected,
            "{n}"
        );
    }
    assert_eq!(
        validated(|t| t.client_metrics_default_interval = time(0.0015)),
        err("clientMetricsDefaultInterval", "must be a whole number of milliseconds")
    );
    assert_eq!(
        validated(|t| t.transaction_max_timeout = millis(bound)),
        err("transactionMaxTimeout", "must be at most 2147483646ms")
    );
    assert_eq!(validated(|t| t.transaction_max_timeout = millis(bound - 1)), OK);
}

#[test]
fn a_size_is_a_number_of_bytes_up_to_its_bound() {
    for bytes in [1.0, 2147483647.0] {
        assert_eq!(validated(|t| t.metadata_raft_fetch_max = size(bytes)), OK);
    }
    for bytes in [0.0, -1.0, 0.5, 1e30, f64::NAN, f64::INFINITY] {
        assert_eq!(
            validated(|t| t.metadata_raft_fetch_max = size(bytes)),
            err("metadataRaftFetchMax", "must be a positive whole number of bytes"),
            "{bytes}"
        );
    }
    assert_eq!(
        validated(|t| t.metadata_raft_fetch_max = size(2147483648.0)),
        err("metadataRaftFetchMax", "must be at most 2147483647 bytes")
    );
    assert_eq!(
        validated(|t| t.observer_fetch_max = size(4294967296.0)),
        err("observerFetchMax", "must be at most 4294967295 bytes")
    );
    assert_eq!(validated(|t| t.observer_fetch_max = size(4294967295.0)), OK);
    assert_eq!(validated(|t| t.sendfile_min = size(4294967296.0)), OK);
    assert_eq!(validated(|t| t.metadata_max_between_snapshots = size(2f64.powi(63))), OK);
}

#[test]
fn ratios_have_their_ranges() {
    for (fraction, positive, unit) in [
        (0.0, false, true),
        (-0.0, false, true),
        (0.5, true, true),
        (1.0, true, true),
        (1.5, true, false),
        (-0.5, false, false),
        (f64::NAN, false, false),
        (f64::INFINITY, false, false),
    ] {
        assert_eq!(
            validated(|t| t.telemetry_max_decompression_ratio = ratio(fraction)),
            if positive {
                OK
            } else {
                err("telemetryMaxDecompressionRatio", "must be finite and positive")
            },
            "{fraction}"
        );
        assert_eq!(
            validated(|t| t.leader_imbalance_per_broker = ratio(fraction)),
            if unit {
                OK
            } else {
                err("leaderImbalancePerBroker", "must be between 0% and 100%")
            },
            "{fraction}"
        );
    }
}

#[test]
fn counts_are_above_zero() {
    let zero = "the value must be greater than 0, but received 0";
    let cases: Vec<(Result<(), String>, &str, &str)> = vec![
        (validated(|t| t.max_produce_group = Some(0)), "maxProduceGroup", zero),
        (
            validated(|t| t.self_registration_max_attempts = Some(0)),
            "selfRegistrationMaxAttempts",
            zero,
        ),
        (
            validated(|t| t.metadata_snapshot_interval_records = Some(0)),
            "metadataSnapshotIntervalRecords",
            zero,
        ),
        (
            validated(|t| t.share_group_max_delivery_attempts = Some(-7)),
            "shareGroupMaxDeliveryAttempts",
            "the value must be greater than 0, but received -7",
        ),
        (
            validated(|t| t.default_min_insync_replicas = Some(0)),
            "defaultMinInsyncReplicas",
            zero,
        ),
        (
            validated(|t| t.audit_tail_window_offsets = Some(i64::MIN)),
            "auditTailWindowOffsets",
            "the value must be greater than 0, but received -9223372036854775808",
        ),
        (
            validated(|t| t.streams_group_num_standby_replicas = Some(-1)),
            "streamsGroupNumStandbyReplicas",
            "[the value must be equal to 0, but received -1 || the value must be greater than 0, \
             but received -1]",
        ),
        (
            validated(|t| t.diskless_wal_trim_safety_lag = Some(-2)),
            "disklessWalTrimSafetyLag",
            "[the value must be equal to 0, but received -2 || the value must be greater than 0, \
             but received -2]",
        ),
    ];
    for (outcome, field, message) in cases {
        assert_eq!(outcome, err(field, message));
    }
    let valid = tuning(|t| {
        t.max_produce_group = Some(1);
        t.self_registration_max_attempts = Some(1);
        t.metadata_snapshot_interval_records = Some(1);
        t.share_group_max_delivery_attempts = Some(1);
        t.default_min_insync_replicas = Some(1);
        t.audit_tail_window_offsets = Some(1);
        t.streams_group_num_standby_replicas = Some(0);
        t.diskless_wal_trim_safety_lag = Some(0);
        t.max_connections = Some(0);
        t.observer_lag_bound = Some(0);
    });
    assert_eq!(valid.validate(&OK, &OK), OK);
}

#[test]
fn the_quorum_judges_the_size_of_a_snapshot_fetch() {
    let set = tuning(|t| t.metadata_snapshot_fetch_max = size(1.0));
    assert_eq!(set.validate(&OK, &OK), OK);
    assert_eq!(
        set.validate(&Err("too small".into()), &OK),
        err("metadataSnapshotFetchMax", "too small")
    );
}

#[test]
fn strings_have_their_values() {
    for level in ["read-uncommitted", "read-committed"] {
        assert_eq!(validated(|t| t.share_group_isolation_level = Some(level.into())), OK);
    }
    for assignor in ["auto", "sticky", "highly-available"] {
        assert_eq!(validated(|t| t.streams_group_assignor = Some(assignor.into())), OK);
    }
    assert_eq!(
        validated(|t| t.share_group_isolation_level = Some("Read-Committed".into())),
        err("shareGroupIsolationLevel", "expected `read-uncommitted` or `read-committed`")
    );
    assert_eq!(
        validated(|t| t.streams_group_assignor = Some(String::new())),
        err("streamsGroupAssignor", "expected `auto`, `sticky`, or `highly-available`")
    );
    assert_eq!(validated(|t| t.inter_broker_server_name = Some(" ".into())), OK);
    let empty = tuning(|t| t.inter_broker_server_name = Some(String::new()));
    let message = empty.validate(&OK, &OK).unwrap_err();
    assert!(message.starts_with(
        "spec.brokerTuning.interBrokerServerName: \"\" does not satisfy Not<"
    ));
    assert!(message.ends_with('>'));
    assert_eq!(empty.validate_strings(), Err(message));
    assert_eq!(
        empty.validate_given(&OK, &Err("empty".into()), &OK),
        err("interBrokerServerName", "empty")
    );
}

#[test]
fn a_minimum_is_at_most_its_maximum() {
    let exceeds = |left: &str, right: &str| {
        Err(format!(
            "spec.brokerTuning.{left} and spec.brokerTuning.{right}: minimum or initial value \
             exceeds maximum"
        ))
    };
    let cases: Vec<(Result<(), String>, &str, &str)> = vec![
        (
            validated(|t| t.self_registration_backoff_min = millis(5_001)),
            "selfRegistrationBackoffMin",
            "selfRegistrationBackoffMax",
        ),
        (
            validated(|t| t.self_registration_backoff_max = millis(99)),
            "selfRegistrationBackoffMin",
            "selfRegistrationBackoffMax",
        ),
        (
            validated(|t| t.rlmm_bootstrap_backoff_initial = millis(10_001)),
            "rlmmBootstrapBackoffInitial",
            "rlmmBootstrapBackoffMax",
        ),
        (
            validated(|t| t.replication_fetch_min = size(1_048_577.0)),
            "replicationFetchMin",
            "replicationFetchMax",
        ),
        (
            validated(|t| t.replication_reconnect_initial_delay = millis(5_001)),
            "replicationReconnectInitialDelay",
            "replicationReconnectDelayCap",
        ),
        (
            validated(|t| t.delegation_token_default_renew_period = millis(604_800_001)),
            "delegationTokenDefaultRenewPeriod",
            "delegationTokenMaxLifetime",
        ),
        (
            validated(|t| t.client_metrics_eviction_tick = millis(600_001)),
            "clientMetricsEvictionTick",
            "clientMetricsStaleFloor",
        ),
        (
            validated(|t| t.unclean_recovery_aggressive_deadline = millis(30_001)),
            "uncleanRecoveryAggressiveDeadline",
            "uncleanRecoveryBalancedDeadline",
        ),
        (
            validated(|t| t.telemetry_decompressed_output_floor = size(1_073_741_825.0)),
            "telemetryDecompressedOutputFloor",
            "telemetryDecompressedOutputCeiling",
        ),
        (
            validated(|t| t.consumer_group_min_session_timeout = millis(60_001)),
            "consumerGroupMinSessionTimeout",
            "consumerGroupMaxSessionTimeout",
        ),
        (
            validated(|t| t.consumer_group_min_heartbeat_interval = millis(15_001)),
            "consumerGroupMinHeartbeatInterval",
            "consumerGroupMaxHeartbeatInterval",
        ),
    ];
    for (outcome, left, right) in cases {
        assert_eq!(outcome, exceeds(left, right));
    }
    assert_eq!(validated(|t| t.self_registration_backoff_min = millis(5_000)), OK);
    assert_eq!(validated(|t| t.self_registration_backoff_max = millis(100)), OK);
}

#[test]
fn an_interval_is_below_its_timeout() {
    for (outcome, left, right) in [
        (
            validated(|t| t.heartbeat_interval = millis(9_000)),
            "heartbeatInterval",
            "heartbeatTimeout",
        ),
        (
            validated(|t| t.controller_heartbeat_interval = millis(5_000)),
            "controllerHeartbeatInterval",
            "controllerElectionTimeout",
        ),
        (
            validated(|t| t.transaction_min_timeout = millis(900_000)),
            "transactionMinTimeout",
            "transactionMaxTimeout",
        ),
    ] {
        assert_eq!(
            outcome,
            Err(format!(
                "spec.brokerTuning.{left} and spec.brokerTuning.{right}: left value must be below \
                 right value"
            ))
        );
    }
    assert_eq!(validated(|t| t.heartbeat_interval = millis(8_999)), OK);
}

#[test]
fn group_timeouts_are_within_their_limits() {
    assert_eq!(
        validated(|t| t.consumer_group_session_timeout = millis(60_001)),
        Err(
            "spec.brokerTuning.consumerGroupSessionTimeout must be within \
             spec.brokerTuning.consumerGroupMinSessionTimeout and \
             spec.brokerTuning.consumerGroupMaxSessionTimeout"
                .to_owned()
        )
    );
    assert_eq!(
        validated(|t| t.consumer_group_heartbeat_interval = millis(4_999)),
        Err(
            "spec.brokerTuning.consumerGroupHeartbeatInterval must be within \
             spec.brokerTuning.consumerGroupMinHeartbeatInterval and \
             spec.brokerTuning.consumerGroupMaxHeartbeatInterval"
                .to_owned()
        )
    );
    assert_eq!(validated(|t| t.consumer_group_session_timeout = millis(60_000)), OK);
    for (n, valid) in [(44_999, false), (45_000, true), (60_000, true), (60_001, false)] {
        let message = "must be within 45000..=60000";
        assert_eq!(
            validated(|t| t.share_group_session_timeout = millis(n)),
            if valid { OK } else { err("shareGroupSessionTimeout", message) }
        );
        assert_eq!(
            validated(|t| t.streams_group_session_timeout = millis(n)),
            if valid { OK } else { err("streamsGroupSessionTimeout", message) }
        );
    }
    for (n, valid) in [(4_999, false), (5_000, true), (15_000, true), (15_001, false)] {
        let message = "must be within 5000..=15000";
        assert_eq!(
            validated(|t| t.share_group_heartbeat_interval = millis(n)),
            if valid { OK } else { err("shareGroupHeartbeatInterval", message) }
        );
        assert_eq!(
            validated(|t| t.streams_group_heartbeat_interval = millis(n)),
            if valid { OK } else { err("streamsGroupHeartbeatInterval", message) }
        );
    }
}

#[test]
fn the_first_error_is_reported() {
    let bad = tuning(|t| {
        t.streams_group_session_timeout = millis(1);
        t.streams_group_assignor = Some("x".into());
        t.share_group_max_size = Some(0);
        t.tls_reload_interval = time(-1.0);
    });
    assert_eq!(
        bad.validate(&OK, &OK),
        err("tlsReloadInterval", "must be finite and nonnegative")
    );
    let bad = tuning(|t| {
        t.streams_group_session_timeout = millis(1);
        t.streams_group_assignor = Some("x".into());
    });
    assert_eq!(
        bad.validate(&OK, &Err("no".into())),
        err("streamsGroupAssignor", "expected `auto`, `sticky`, or `highly-available`")
    );
    let bad = tuning(|t| {
        t.transaction_min_timeout = millis(900_000);
        t.heartbeat_interval = millis(9_000);
    });
    assert!(bad
        .validate_relations(&Err("no".into()))
        .unwrap_err()
        .starts_with("spec.brokerTuning.heartbeatInterval and "));
}

#[test]
fn the_limits_for_decompression_fall_back_to_the_defaults() {
    let defaults = RecordDecompressionLimits {
        max_ratio: Ratio {
            fraction: Binary64::from_u64(100),
        },
        output_floor: ByteSize::from_bytes(1),
        output_ceiling: ByteSize::from_bytes(2),
    };
    let limits = BrokerTuning::default().record_decompression(defaults);
    assert!(limits.max_ratio == defaults.max_ratio);
    assert!(limits.output_floor == defaults.output_floor);
    assert!(limits.output_ceiling == defaults.output_ceiling);
    let set = tuning(|t| {
        t.record_decompression_max_ratio = ratio(7.0);
        t.record_decompression_output_floor = size(8.0);
        t.record_decompression_output_ceiling = size(9.0);
    });
    let limits = set.record_decompression(defaults);
    assert!(limits.max_ratio.fraction == Binary64::from_u64(7));
    assert!(limits.output_floor == ByteSize::from_bytes(8));
    assert!(limits.output_ceiling == ByteSize::from_bytes(9));
    assert_eq!(BrokerTuning::validate_record_decompression(&OK), OK);
}

#[test]
fn a_table_has_a_line_for_each_field_that_is_set() {
    let set = tuning(|t| {
        t.streams_group_assignor = Some("sticky".into());
        t.startup_leader_wait_timeout = Some(Setting {
            value: Time::from_millis(30_000),
            text: "30s".into(),
        });
        t.replication_fetch_max = Some(Setting {
            value: ByteSize::from_bytes(1 << 20),
            text: "1MiB".into(),
        });
        t.leader_imbalance_per_broker = Some(Setting {
            value: Ratio {
                fraction: Binary64 { bits: 0.25f64.to_bits() },
            },
            text: "25%".into(),
        });
        t.inter_broker_server_name = Some("say \"hi\"\\".into());
        t.consumer_group_max_size = Some(250);
        t.audit_tail_window_offsets = Some(-5);
        t.observer_lag_bound = Some(u64::MAX);
        t.share_group_enable = Some(true);
        t.streams_group_enable = Some(false);
    });
    assert_eq!(
        set.render_runtime_toml(),
        "[runtime]\n\
         startup_leader_wait_timeout = \"30s\"\n\
         replication_fetch_max = \"1MiB\"\n\
         consumer_group_max_size = 250\n\
         audit_tail_window_offsets = -5\n\
         inter_broker_server_name = 'say \"hi\"\\'\n\
         observer_lag_bound = 18446744073709551615\n\
         leader_imbalance_per_broker = \"25%\"\n\
         share_group_enable = true\n\
         streams_group_enable = false\n\
         streams_group_assignor = \"sticky\"\n\
         \n"
    );
}

#[test]
fn a_table_reads_back_as_it_was_set() {
    for name in ["plain", "it's", "a \"b\" 'c'", "line\nbreak", "tab\t", "back\\slash", "ä\u{7f}"] {
        let set = tuning(|t| t.inter_broker_server_name = Some(name.into()));
        let table: toml::Table = set.render_runtime_toml().parse().unwrap();
        let runtime = table["runtime"].as_table().unwrap();
        assert_eq!(runtime["inter_broker_server_name"].as_str(), Some(name));
        assert_eq!(runtime.len(), 1);
    }
}
