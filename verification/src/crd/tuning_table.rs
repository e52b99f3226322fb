//! What the broker configuration shows of a tuning.

use crate::crd::broker_tuning;
use crate::crd::broker_tuning::{BrokerTuning, Field, Value};
use crate::crd::tuning_rules::{RatioRule, TimeRule};
use crate::outside;
use crate::text;
use crate::units::{ByteSize, Ratio, Setting, Time};
use vstd::prelude::*;
use vstd::string::*;

verus! {

/// A table with the lines `lines`. Without a line there is no table.
pub open spec fn table(lines: Seq<char>) -> Seq<char> {
    if lines.len() == 0 {
        Seq::empty()
    } else {
        "[runtime]\n"@ + lines + "\n"@
    }
}

/// The line that gives `key` the value `value`.
pub open spec fn line(key: Seq<char>, value: Seq<char>) -> Seq<char> {
    key + " = "@ + value + "\n"@
}

/// The line of an extent of time. An absent one has none.
#[verifier::opaque]
pub open spec fn time(key: Seq<char>, setting: Option<Setting<Time>>) -> Seq<char> {
    match setting {
        Some(setting) => line(key, outside::toml_string(setting.text@)),
        None => Seq::empty(),
    }
}

/// The line of a byte count. An absent one has none.
#[verifier::opaque]
pub open spec fn size(key: Seq<char>, setting: Option<Setting<ByteSize>>) -> Seq<char> {
    match setting {
        Some(setting) => line(key, outside::toml_string(setting.text@)),
        None => Seq::empty(),
    }
}

/// The line of a fraction. An absent one has none.
#[verifier::opaque]
pub open spec fn ratio(key: Seq<char>, setting: Option<Setting<Ratio>>) -> Seq<char> {
    match setting {
        Some(setting) => line(key, outside::toml_string(setting.text@)),
        None => Seq::empty(),
    }
}

/// The line of a string. An absent one has none.
#[verifier::opaque]
pub open spec fn string(key: Seq<char>, setting: Option<String>) -> Seq<char> {
    match setting {
        Some(value) => line(key, outside::toml_string(value@)),
        None => Seq::empty(),
    }
}

/// The line of a flag. An absent one has none.
#[verifier::opaque]
pub open spec fn flag(key: Seq<char>, setting: Option<bool>) -> Seq<char> {
    match setting {
        Some(true) => line(key, "true"@),
        Some(false) => line(key, "false"@),
        None => Seq::empty(),
    }
}

/// The line of a whole number. An absent one has none.
#[verifier::opaque]
pub open spec fn count(key: Seq<char>, setting: Option<int>) -> Seq<char> {
    match setting {
        Some(n) => line(key, text::signed_decimal(n)),
        None => Seq::empty(),
    }
}

/// The whole number in an optional `i16`.
pub open spec fn whole_i16(setting: Option<i16>) -> Option<int> {
    match setting {
        Some(n) => Some(n as int),
        None => None,
    }
}

/// The whole number in an optional `i32`.
pub open spec fn whole_i32(setting: Option<i32>) -> Option<int> {
    match setting {
        Some(n) => Some(n as int),
        None => None,
    }
}

/// The whole number in an optional `i64`.
pub open spec fn whole_i64(setting: Option<i64>) -> Option<int> {
    match setting {
        Some(n) => Some(n as int),
        None => None,
    }
}

/// The whole number in an optional `u32`.
pub open spec fn whole_u32(setting: Option<u32>) -> Option<int> {
    match setting {
        Some(n) => Some(n as int),
        None => None,
    }
}

/// The whole number in an optional `u64`.
pub open spec fn whole_u64(setting: Option<u64>) -> Option<int> {
    match setting {
        Some(n) => Some(n as int),
        None => None,
    }
}

/// The whole number in an optional `usize`.
pub open spec fn whole_usize(setting: Option<usize>) -> Option<int> {
    match setting {
        Some(n) => Some(n as int),
        None => None,
    }
}

/// The parts of a text, one after the other.
pub open spec fn joined(parts: Seq<Seq<char>>) -> Seq<char>
    decreases parts.len(),
{
    if parts.len() == 0 {
        Seq::empty()
    } else {
        joined(parts.drop_last()) + parts.last()
    }
}

/// The lines of the fields for startup, auditing and background scans.
pub open spec fn startup_lines(tuning: BrokerTuning) -> Seq<Seq<char>> {
    seq![
        time("startup_leader_wait_timeout"@, tuning.startup_leader_wait_timeout),
        time("self_registration_backoff_min"@, tuning.self_registration_backoff_min),
        time("self_registration_backoff_max"@, tuning.self_registration_backoff_max),
        time("observer_poll_interval"@, tuning.observer_poll_interval),
        time("audit_spool_replay_interval"@, tuning.audit_spool_replay_interval),
        time("audit_stats_poll_interval"@, tuning.audit_stats_poll_interval),
        time("audit_partition_wait_timeout"@, tuning.audit_partition_wait_timeout),
        time("liveness_tick_interval"@, tuning.liveness_tick_interval),
        time("gauge_poll_interval"@, tuning.gauge_poll_interval),
        time("cleaner_interval"@, tuning.cleaner_interval),
        time("isr_scan_interval"@, tuning.isr_scan_interval),
        time("future_log_move_retry_backoff"@, tuning.future_log_move_retry_backoff),
    ]
}

/// The lines of the fields for client metrics, remote-log metadata and outbound requests.
pub open spec fn client_metrics_lines(tuning: BrokerTuning) -> Seq<Seq<char>> {
    seq![
        time("client_metrics_eviction_tick"@, tuning.client_metrics_eviction_tick),
        time("client_metrics_stale_floor"@, tuning.client_metrics_stale_floor),
        time("client_metrics_default_interval"@, tuning.client_metrics_default_interval),
        size("client_metrics_telemetry_max"@, tuning.client_metrics_telemetry_max),
        time("client_metrics_prom_snapshot_ttl"@, tuning.client_metrics_prom_snapshot_ttl),
        time("rlmm_reconcile_tick"@, tuning.rlmm_reconcile_tick),
        time("rlmm_bootstrap_backoff_initial"@, tuning.rlmm_bootstrap_backoff_initial),
        time("rlmm_bootstrap_backoff_max"@, tuning.rlmm_bootstrap_backoff_max),
        time("connection_creation_throttle_max"@, tuning.connection_creation_throttle_max),
        time("opa_http_timeout"@, tuning.opa_http_timeout),
        time("oauth_jwks_http_timeout"@, tuning.oauth_jwks_http_timeout),
        time("auto_join_retry_backoff"@, tuning.auto_join_retry_backoff),
        time("auto_join_voter_request_timeout"@, tuning.auto_join_voter_request_timeout),
    ]
}

/// The lines of the fields for replication.
pub open spec fn replication_lines(tuning: BrokerTuning) -> Seq<Seq<char>> {
    seq![
        size("replication_fetch_max"@, tuning.replication_fetch_max),
        time("replication_fetch_max_wait"@, tuning.replication_fetch_max_wait),
        size("replication_fetch_min"@, tuning.replication_fetch_min),
        time(
            "replication_throttle_exhausted_backoff"@,
            tuning.replication_throttle_exhausted_backoff,
        ),
        time("replication_send_error_backoff"@, tuning.replication_send_error_backoff),
        time(
            "replication_unknown_topic_retry_delay"@,
            tuning.replication_unknown_topic_retry_delay,
        ),
        time("replication_epoch_fence_backoff"@, tuning.replication_epoch_fence_backoff),
        time("replication_unexpected_error_backoff"@, tuning.replication_unexpected_error_backoff),
        time("replication_reconnect_initial_delay"@, tuning.replication_reconnect_initial_delay),
        time("replication_reconnect_delay_cap"@, tuning.replication_reconnect_delay_cap),
    ]
}

/// The lines of the fields for coordinators, consumer groups and recovery.
pub open spec fn group_lines(tuning: BrokerTuning) -> Seq<Seq<char>> {
    seq![
        time("coordinator_session_expiry_tick"@, tuning.coordinator_session_expiry_tick),
        time("coordinator_shutdown_ack_timeout"@, tuning.coordinator_shutdown_ack_timeout),
        time("consumer_group_session_timeout"@, tuning.consumer_group_session_timeout),
        time("consumer_group_heartbeat_interval"@, tuning.consumer_group_heartbeat_interval),
        time("consumer_group_min_session_timeout"@, tuning.consumer_group_min_session_timeout),
        time("consumer_group_max_session_timeout"@, tuning.consumer_group_max_session_timeout),
        time(
            "consumer_group_min_heartbeat_interval"@,
            tuning.consumer_group_min_heartbeat_interval,
        ),
        time(
            "consumer_group_max_heartbeat_interval"@,
            tuning.consumer_group_max_heartbeat_interval,
        ),
        count("consumer_group_max_size"@, whole_usize(tuning.consumer_group_max_size)),
        time(
            "classic_group_initial_rebalance_delay"@,
            tuning.classic_group_initial_rebalance_delay,
        ),
        time("sync_group_follower_wait"@, tuning.sync_group_follower_wait),
        time("unclean_recovery_aggressive_deadline"@, tuning.unclean_recovery_aggressive_deadline),
        time("unclean_recovery_balanced_deadline"@, tuning.unclean_recovery_balanced_deadline),
        time("operator_recovery_deadline"@, tuning.operator_recovery_deadline),
        time("quota_throttle_max"@, tuning.quota_throttle_max),
    ]
}

/// The lines of the fields for queue capacities and the diskless write-ahead log.
pub open spec fn capacity_lines(tuning: BrokerTuning) -> Seq<Seq<char>> {
    seq![
        count("self_registration_max_attempts"@, whole_u32(tuning.self_registration_max_attempts)),
        size("observer_fetch_max"@, tuning.observer_fetch_max),
        count("audit_event_queue_capacity"@, whole_usize(tuning.audit_event_queue_capacity)),
        count("audit_tail_window_offsets"@, whole_i64(tuning.audit_tail_window_offsets)),
        size("audit_tail_read_max"@, tuning.audit_tail_read_max),
        time("offsets_topic_metadata_wait_timeout"@, tuning.offsets_topic_metadata_wait_timeout),
        count(
            "client_metrics_stale_push_intervals"@,
            whole_u32(tuning.client_metrics_stale_push_intervals),
        ),
        count(
            "client_metrics_otlp_queue_capacity"@,
            whole_usize(tuning.client_metrics_otlp_queue_capacity),
        ),
        count(
            "coordinator_actor_mailbox_capacity"@,
            whole_usize(tuning.coordinator_actor_mailbox_capacity),
        ),
        count(
            "diskless_wal_local_replica_count"@,
            whole_usize(tuning.diskless_wal_local_replica_count),
        ),
        time("diskless_wal_flush_interval"@, tuning.diskless_wal_flush_interval),
        size("diskless_wal_flush_max_size"@, tuning.diskless_wal_flush_max_size),
        count("diskless_wal_trim_safety_lag"@, whole_i64(tuning.diskless_wal_trim_safety_lag)),
        time(
            "diskless_wal_index_projection_timeout"@,
            tuning.diskless_wal_index_projection_timeout,
        ),
        count(
            "unclean_recovery_queue_capacity"@,
            whole_usize(tuning.unclean_recovery_queue_capacity),
        ),
        size("share_recovery_read_max"@, tuning.share_recovery_read_max),
    ]
}

/// The lines of the fields for read sizes, sockets, ACLs and decompression.
pub open spec fn socket_lines(tuning: BrokerTuning) -> Seq<Seq<char>> {
    seq![
        count(
            "share_session_cache_max_when_unlimited"@,
            whole_usize(tuning.share_session_cache_max_when_unlimited),
        ),
        size("log_read_buffer_cap"@, tuning.log_read_buffer_cap),
        size("log_timestamp_scan_window"@, tuning.log_timestamp_scan_window),
        size("socket_request_max"@, tuning.socket_request_max),
        size("sendfile_min"@, tuning.sendfile_min),
        size("socket_send_buffer"@, tuning.socket_send_buffer),
        size("socket_receive_buffer"@, tuning.socket_receive_buffer),
        size("acl_max_principal"@, tuning.acl_max_principal),
        size("acl_max_resource_name"@, tuning.acl_max_resource_name),
        ratio("telemetry_max_decompression_ratio"@, tuning.telemetry_max_decompression_ratio),
        size("telemetry_decompressed_output_floor"@, tuning.telemetry_decompressed_output_floor),
        size(
            "telemetry_decompressed_output_ceiling"@,
            tuning.telemetry_decompressed_output_ceiling,
        ),
        ratio("record_decompression_max_ratio"@, tuning.record_decompression_max_ratio),
        size("record_decompression_output_floor"@, tuning.record_decompression_output_floor),
        size("record_decompression_output_ceiling"@, tuning.record_decompression_output_ceiling),
        string("inter_broker_server_name"@, tuning.inter_broker_server_name),
    ]
}

/// The lines of the fields for producers and transactions.
pub open spec fn producer_lines(tuning: BrokerTuning) -> Seq<Seq<char>> {
    seq![
        time("producer_id_expiration"@, tuning.producer_id_expiration),
        time("producer_id_expiration_scan_interval"@, tuning.producer_id_expiration_scan_interval),
        count("max_produce_group"@, whole_usize(tuning.max_produce_group)),
        count("partition_writer_queue_depth"@, whole_usize(tuning.partition_writer_queue_depth)),
        count("default_min_insync_replicas"@, whole_i32(tuning.default_min_insync_replicas)),
        size("future_log_move_read_chunk"@, tuning.future_log_move_read_chunk),
        count("share_state_num_partitions"@, whole_i32(tuning.share_state_num_partitions)),
        count("share_state_replication_factor"@, whole_i16(tuning.share_state_replication_factor)),
        count(
            "transaction_state_num_partitions"@,
            whole_i32(tuning.transaction_state_num_partitions),
        ),
        size("transaction_recovery_read_max"@, tuning.transaction_recovery_read_max),
        count(
            "transaction_state_replication_factor"@,
            whole_i16(tuning.transaction_state_replication_factor),
        ),
        time("transaction_min_timeout"@, tuning.transaction_min_timeout),
        time("transaction_max_timeout"@, tuning.transaction_max_timeout),
        time("partition_disk_scan_interval"@, tuning.partition_disk_scan_interval),
        count("observer_lag_bound"@, whole_u64(tuning.observer_lag_bound)),
    ]
}

/// The lines of the fields for heartbeats, the controller and metadata snapshots.
pub open spec fn controller_lines(tuning: BrokerTuning) -> Seq<Seq<char>> {
    seq![
        time("heartbeat_interval"@, tuning.heartbeat_interval),
        time("heartbeat_timeout"@, tuning.heartbeat_timeout),
        time("replica_lag_time_max"@, tuning.replica_lag_time_max),
        time("controller_election_timeout"@, tuning.controller_election_timeout),
        time("controller_heartbeat_interval"@, tuning.controller_heartbeat_interval),
        count("controller_fetch_miss_limit"@, whole_u32(tuning.controller_fetch_miss_limit)),
        count(
            "metadata_raft_command_queue_capacity"@,
            whole_usize(tuning.metadata_raft_command_queue_capacity),
        ),
        size("metadata_raft_fetch_max"@, tuning.metadata_raft_fetch_max),
        time("controlled_shutdown_drain_timeout"@, tuning.controlled_shutdown_drain_timeout),
        size("metadata_max_between_snapshots"@, tuning.metadata_max_between_snapshots),
        time("metadata_max_snapshot_interval"@, tuning.metadata_max_snapshot_interval),
        count(
            "metadata_snapshot_interval_records"@,
            whole_u64(tuning.metadata_snapshot_interval_records),
        ),
        size("metadata_snapshot_fetch_max"@, tuning.metadata_snapshot_fetch_max),
        time("txn_abort_cleanup_interval"@, tuning.txn_abort_cleanup_interval),
        time("leader_imbalance_check_interval"@, tuning.leader_imbalance_check_interval),
        ratio("leader_imbalance_per_broker"@, tuning.leader_imbalance_per_broker),
        time("tls_reload_interval"@, tuning.tls_reload_interval),
    ]
}

/// The lines of the fields for connections and delegation tokens.
pub open spec fn connection_lines(tuning: BrokerTuning) -> Seq<Seq<char>> {
    seq![
        count(
            "max_incremental_fetch_session_cache_slots"@,
            whole_usize(tuning.max_incremental_fetch_session_cache_slots),
        ),
        count("max_connections"@, whole_usize(tuning.max_connections)),
        count("max_connections_per_ip"@, whole_usize(tuning.max_connections_per_ip)),
        time("delegation_token_max_lifetime"@, tuning.delegation_token_max_lifetime),
        time(
            "delegation_token_expiry_check_interval"@,
            tuning.delegation_token_expiry_check_interval,
        ),
        time(
            "delegation_token_default_renew_period"@,
            tuning.delegation_token_default_renew_period,
        ),
        time("remote_log_manager_interval"@, tuning.remote_log_manager_interval),
        flag("share_group_enable"@, tuning.share_group_enable),
    ]
}

/// The lines of the fields for share groups.
pub open spec fn share_group_lines(tuning: BrokerTuning) -> Seq<Seq<char>> {
    seq![
        time("share_group_session_timeout"@, tuning.share_group_session_timeout),
        time("share_group_heartbeat_interval"@, tuning.share_group_heartbeat_interval),
        count("share_group_max_size"@, whole_usize(tuning.share_group_max_size)),
        time("share_group_record_lock_duration"@, tuning.share_group_record_lock_duration),
        count(
            "share_group_max_delivery_attempts"@,
            whole_i16(tuning.share_group_max_delivery_attempts),
        ),
        count(
            "share_group_max_inflight_records"@,
            whole_i32(tuning.share_group_max_inflight_records),
        ),
        string("share_group_isolation_level"@, tuning.share_group_isolation_level),
    ]
}

/// The lines of the fields for streams groups.
pub open spec fn streams_group_lines(tuning: BrokerTuning) -> Seq<Seq<char>> {
    seq![
        flag("streams_group_enable"@, tuning.streams_group_enable),
        time("streams_group_session_timeout"@, tuning.streams_group_session_timeout),
        time("streams_group_heartbeat_interval"@, tuning.streams_group_heartbeat_interval),
        count("streams_group_max_size"@, whole_usize(tuning.streams_group_max_size)),
        count(
            "streams_internal_topic_replication_factor"@,
            whole_i16(tuning.streams_internal_topic_replication_factor),
        ),
        count(
            "streams_group_num_standby_replicas"@,
            whole_i32(tuning.streams_group_num_standby_replicas),
        ),
        count(
            "streams_group_num_warmup_replicas"@,
            whole_i32(tuning.streams_group_num_warmup_replicas),
        ),
        count(
            "streams_group_acceptable_recovery_lag"@,
            whole_i64(tuning.streams_group_acceptable_recovery_lag),
        ),
        time("streams_group_task_offset_interval"@, tuning.streams_group_task_offset_interval),
        string("streams_group_assignor"@, tuning.streams_group_assignor),
    ]
}

proof fn lemma_lines_join(a: Seq<Field<'_>>, b: Seq<Field<'_>>)
    ensures
        broker_tuning::lines(a + b) == broker_tuning::lines(a) + broker_tuning::lines(b),
    decreases b.len(),
{
    if b.len() == 0 {
        assert(a + b =~= a);
        assert(broker_tuning::lines(a) + broker_tuning::lines(b) =~= broker_tuning::lines(a));
    } else {
        assert((a + b).drop_last() =~= a + b.drop_last());
        assert((a + b).last() == b.last());
        lemma_lines_join(a, b.drop_last());
        assert(broker_tuning::lines(a + b) =~= broker_tuning::lines(a) + broker_tuning::lines(b));
    }
}

proof fn lemma_lines_push(fields: Seq<Field<'_>>, field: Field<'_>)
    ensures
        broker_tuning::lines(fields.push(field)) == broker_tuning::lines(fields) + field.line(),
{
    assert(fields.push(field).drop_last() =~= fields);
}

proof fn lemma_first_line(field: Field<'_>)
    ensures
        broker_tuning::lines(Seq::<Field<'_>>::empty().push(field)) == field.line(),
{
    let none = Seq::<Field<'_>>::empty();
    lemma_lines_push(none, field);
    assert(broker_tuning::lines(none) + field.line() =~= field.line());
}

proof fn lemma_lines_end(fields: Seq<Field<'_>>)
    ensures
        broker_tuning::lines(fields).len() > 0 ==> broker_tuning::lines(fields).last() == '\n',
    decreases fields.len(),
{
    reveal_strlit("\n");
    if fields.len() > 0 {
        lemma_lines_end(fields.drop_last());
        let rest = broker_tuning::lines(fields.drop_last());
        let last = fields.last().line();
        if last.len() == 0 {
            assert(rest + last =~= rest);
        } else {
            assert((rest + last).last() == last.last());
        }
    }
}

/// The line of a field.
#[verifier::opaque]
spec fn line_of(field: Field<'_>) -> Seq<char> {
    field.line()
}

/// The value of a field in TOML.
#[verifier::opaque]
spec fn value_of(field: Field<'_>) -> Option<Seq<char>> {
    field.toml()
}

proof fn lemma_time_line(name: &'static str, setting: &Option<Setting<Time>>, rule: TimeRule)
    ensures
        line_of(Field { name, value: Value::Time(setting, rule) }) == time(name@, *setting),
        *setting matches Some(x) ==> value_of(Field { name, value: Value::Time(setting, rule) })
            == Some(outside::toml_string(x.text@)),
{
    reveal(line_of);
    reveal(value_of);
    reveal(time);
}

proof fn lemma_size_line(name: &'static str, setting: &Option<Setting<ByteSize>>, max: u64)
    ensures
        line_of(Field { name, value: Value::Size(setting, max) }) == size(name@, *setting),
        line_of(Field { name, value: Value::SnapshotFetch(setting) }) == size(name@, *setting),
        *setting matches Some(x) ==> value_of(Field { name, value: Value::Size(setting, max) })
            == Some(outside::toml_string(x.text@)),
        *setting matches Some(x) ==> value_of(Field { name, value: Value::SnapshotFetch(setting) })
            == Some(outside::toml_string(x.text@)),
{
    reveal(line_of);
    reveal(value_of);
    reveal(size);
}

proof fn lemma_ratio_line(name: &'static str, setting: &Option<Setting<Ratio>>, rule: RatioRule)
    ensures
        line_of(Field { name, value: Value::Ratio(setting, rule) }) == ratio(name@, *setting),
        *setting matches Some(x) ==> value_of(Field { name, value: Value::Ratio(setting, rule) })
            == Some(outside::toml_string(x.text@)),
{
    reveal(line_of);
    reveal(value_of);
    reveal(ratio);
}

proof fn lemma_string_line(name: &'static str, setting: &Option<String>)
    ensures
        line_of(Field { name, value: Value::Text(setting) }) == string(name@, *setting),
        *setting matches Some(x) ==> value_of(Field { name, value: Value::Text(setting) }) == Some(
            outside::toml_string(x@),
        ),
{
    reveal(line_of);
    reveal(value_of);
    reveal(string);
}

proof fn lemma_flag_line(name: &'static str, setting: Option<bool>)
    ensures
        line_of(Field { name, value: Value::Flag(setting) }) == flag(name@, setting),
        setting matches Some(x) ==> value_of(Field { name, value: Value::Flag(setting) }) == Some(
            if x {
                "true"@
            } else {
                "false"@
            },
        ),
{
    reveal(line_of);
    reveal(value_of);
    reveal(flag);
}

proof fn lemma_count_line(name: &'static str, value: Value<'_>, n: Option<int>)
    requires
        match value {
            Value::PositiveUsize(x) => n == whole_usize(x),
            Value::PositiveU32(x) => n == whole_u32(x),
            Value::PositiveU64(x) => n == whole_u64(x),
            Value::PositiveI16(x) => n == whole_i16(x),
            Value::PositiveI32(x) => n == whole_i32(x),
            Value::PositiveI64(x) => n == whole_i64(x),
            Value::NonnegativeI32(x) => n == whole_i32(x),
            Value::NonnegativeI64(x) => n == whole_i64(x),
            Value::Usize(x) => n == whole_usize(x),
            Value::U64(x) => n == whole_u64(x),
            _ => false,
        },
    ensures
        line_of(Field { name, value }) == count(name@, n),
        n matches Some(n) ==> value_of(Field { name, value }) == Some(text::signed_decimal(n)),
{
    reveal(line_of);
    reveal(value_of);
    reveal(count);
}

proof fn lemma_joined(fields: Seq<Field<'_>>, parts: Seq<Seq<char>>)
    requires
        fields.len() == parts.len(),
        forall|i: int| 0 <= i < fields.len() ==> line_of(#[trigger] fields[i]) == parts[i],
    ensures
        broker_tuning::lines(fields) == joined(parts),
    decreases fields.len(),
{
    if fields.len() > 0 {
        assert forall|i: int| 0 <= i < fields.len() - 1 implies line_of(
            #[trigger] fields.drop_last()[i],
        ) == parts.drop_last()[i] by {
            assert(fields.drop_last()[i] == fields[i]);
        }
        lemma_joined(fields.drop_last(), parts.drop_last());
        assert(line_of(fields[fields.len() - 1]) == parts[fields.len() - 1]);
        reveal(line_of);
    }
}

proof fn lemma_join(a: Seq<Seq<char>>, b: Seq<Seq<char>>)
    ensures
        joined(a + b) == joined(a) + joined(b),
    decreases b.len(),
{
    if b.len() == 0 {
        assert(a + b =~= a);
        assert(joined(a) + joined(b) =~= joined(a));
    } else {
        assert((a + b).drop_last() =~= a + b.drop_last());
        assert((a + b).last() == b.last());
        lemma_join(a, b.drop_last());
        assert(joined(a + b) =~= joined(a) + joined(b));
    }
}

/// The lines of a tuning.
#[verifier::opaque]
spec fn body(tuning: BrokerTuning) -> Seq<char> {
    broker_tuning::lines(tuning.all_fields())
}

#[verifier::opaque]
spec fn startup(tuning: &BrokerTuning) -> Seq<Field<'_>> {
    tuning.startup_fields()
}

#[verifier::opaque]
spec fn client_metrics(tuning: &BrokerTuning) -> Seq<Field<'_>> {
    tuning.client_metrics_fields()
}

#[verifier::opaque]
spec fn replication(tuning: &BrokerTuning) -> Seq<Field<'_>> {
    tuning.replication_fields()
}

#[verifier::opaque]
spec fn group(tuning: &BrokerTuning) -> Seq<Field<'_>> {
    tuning.group_fields()
}

#[verifier::opaque]
spec fn capacity(tuning: &BrokerTuning) -> Seq<Field<'_>> {
    tuning.capacity_fields()
}

#[verifier::opaque]
spec fn socket(tuning: &BrokerTuning) -> Seq<Field<'_>> {
    tuning.socket_fields()
}

#[verifier::opaque]
spec fn producer(tuning: &BrokerTuning) -> Seq<Field<'_>> {
    tuning.producer_fields()
}

#[verifier::opaque]
spec fn controller(tuning: &BrokerTuning) -> Seq<Field<'_>> {
    tuning.controller_fields()
}

#[verifier::opaque]
spec fn connection(tuning: &BrokerTuning) -> Seq<Field<'_>> {
    tuning.connection_fields()
}

#[verifier::opaque]
spec fn share_group(tuning: &BrokerTuning) -> Seq<Field<'_>> {
    tuning.share_group_fields()
}

#[verifier::opaque]
spec fn streams_group(tuning: &BrokerTuning) -> Seq<Field<'_>> {
    tuning.streams_group_fields()
}

proof fn lemma_body(tuning: BrokerTuning)
    ensures
        body(tuning)
            == broker_tuning::lines(
                startup(&tuning) + client_metrics(&tuning) + replication(&tuning) + group(&tuning)
                    + capacity(&tuning) + socket(&tuning) + producer(&tuning) + controller(&tuning)
                    + connection(&tuning) + share_group(&tuning) + streams_group(&tuning),
            ),
{
    reveal(body);
    reveal(startup);
    reveal(client_metrics);
    reveal(replication);
    reveal(group);
    reveal(capacity);
    reveal(socket);
    reveal(producer);
    reveal(controller);
    reveal(connection);
    reveal(share_group);
    reveal(streams_group);
}

#[verifier::opaque]
spec fn startup_texts(tuning: BrokerTuning) -> Seq<Seq<char>> {
    startup_lines(tuning)
}

proof fn lemma_startup_texts(tuning: BrokerTuning)
    ensures
        broker_tuning::lines(startup(&tuning)) == joined(startup_texts(tuning)),
{
    let (fields, parts) = (startup(&tuning), startup_texts(tuning));
    assert(fields.len() == 12 && parts.len() == 12) by {
        reveal(startup);
        reveal(startup_texts);
    }
    assert(line_of(fields[0]) == parts[0]) by {
        reveal(startup);
        reveal(startup_texts);
        lemma_time_line(
            "startup_leader_wait_timeout",
            &tuning.startup_leader_wait_timeout,
            TimeRule::Positive,
        );
    }
    assert(line_of(fields[1]) == parts[1]) by {
        reveal(startup);
        reveal(startup_texts);
        lemma_time_line(
            "self_registration_backoff_min",
            &tuning.self_registration_backoff_min,
            TimeRule::Positive,
        );
    }
    assert(line_of(fields[2]) == parts[2]) by {
        reveal(startup);
        reveal(startup_texts);
        lemma_time_line(
            "self_registration_backoff_max",
            &tuning.self_registration_backoff_max,
            TimeRule::Positive,
        );
    }
    assert(line_of(fields[3]) == parts[3]) by {
        reveal(startup);
        reveal(startup_texts);
        lemma_time_line(
            "observer_poll_interval",
            &tuning.observer_poll_interval,
            TimeRule::Positive,
        );
    }
    assert(line_of(fields[4]) == parts[4]) by {
        reveal(startup);
        reveal(startup_texts);
        lemma_time_line(
            "audit_spool_replay_interval",
            &tuning.audit_spool_replay_interval,
            TimeRule::Positive,
        );
    }
    assert(line_of(fields[5]) == parts[5]) by {
        reveal(startup);
        reveal(startup_texts);
        lemma_time_line(
            "audit_stats_poll_interval",
            &tuning.audit_stats_poll_interval,
            TimeRule::Positive,
        );
    }
    assert(line_of(fields[6]) == parts[6]) by {
        reveal(startup);
        reveal(startup_texts);
        lemma_time_line(
            "audit_partition_wait_timeout",
            &tuning.audit_partition_wait_timeout,
            TimeRule::Positive,
        );
    }
    assert(line_of(fields[7]) == parts[7]) by {
        reveal(startup);
        reveal(startup_texts);
        lemma_time_line(
            "liveness_tick_interval",
            &tuning.liveness_tick_interval,
            TimeRule::Positive,
        );
    }
    assert(line_of(fields[8]) == parts[8]) by {
        reveal(startup);
        reveal(startup_texts);
        lemma_time_line("gauge_poll_interval", &tuning.gauge_poll_interval, TimeRule::Positive);
    }
    assert(line_of(fields[9]) == parts[9]) by {
        reveal(startup);
        reveal(startup_texts);
        lemma_time_line("cleaner_interval", &tuning.cleaner_interval, TimeRule::Positive);
    }
    assert(line_of(fields[10]) == parts[10]) by {
        reveal(startup);
        reveal(startup_texts);
        lemma_time_line("isr_scan_interval", &tuning.isr_scan_interval, TimeRule::Positive);
    }
    assert(line_of(fields[11]) == parts[11]) by {
        reveal(startup);
        reveal(startup_texts);
        lemma_time_line(
            "future_log_move_retry_backoff",
            &tuning.future_log_move_retry_backoff,
            TimeRule::Positive,
        );
    }
    lemma_joined(fields, parts);
}

#[verifier::opaque]
spec fn client_metrics_texts(tuning: BrokerTuning) -> Seq<Seq<char>> {
    client_metrics_lines(tuning)
}

proof fn lemma_client_metrics_texts(tuning: BrokerTuning)
    ensures
        broker_tuning::lines(client_metrics(&tuning)) == joined(client_metrics_texts(tuning)),
{
    let (fields, parts) = (client_metrics(&tuning), client_metrics_texts(tuning));
    assert(fields.len() == 13 && parts.len() == 13) by {
        reveal(client_metrics);
        reveal(client_metrics_texts);
    }
    assert(line_of(fields[0]) == parts[0]) by {
        reveal(client_metrics);
        reveal(client_metrics_texts);
        lemma_time_line(
            "client_metrics_eviction_tick",
            &tuning.client_metrics_eviction_tick,
            TimeRule::Positive,
        );
    }
    assert(line_of(fields[1]) == parts[1]) by {
        reveal(client_metrics);
        reveal(client_metrics_texts);
        lemma_time_line(
            "client_metrics_stale_floor",
            &tuning.client_metrics_stale_floor,
            TimeRule::Positive,
        );
    }
    assert(line_of(fields[2]) == parts[2]) by {
        reveal(client_metrics);
        reveal(client_metrics_texts);
        lemma_time_line(
            "client_metrics_default_interval",
            &tuning.client_metrics_default_interval,
            TimeRule::AtMostMillis(i32::MAX),
        );
    }
    assert(line_of(fields[3]) == parts[3]) by {
        reveal(client_metrics);
        reveal(client_metrics_texts);
        lemma_size_line(
            "client_metrics_telemetry_max",
            &tuning.client_metrics_telemetry_max,
            2_147_483_647,
        );
    }
    assert(line_of(fields[4]) == parts[4]) by {
        reveal(client_metrics);
        reveal(client_metrics_texts);
        lemma_time_line(
            "client_metrics_prom_snapshot_ttl",
            &tuning.client_metrics_prom_snapshot_ttl,
            TimeRule::Positive,
        );
    }
    assert(line_of(fields[5]) == parts[5]) by {
        reveal(client_metrics);
        reveal(client_metrics_texts);
        lemma_time_line("rlmm_reconcile_tick", &tuning.rlmm_reconcile_tick, TimeRule::Positive);
    }
    assert(line_of(fields[6]) == parts[6]) by {
        reveal(client_metrics);
        reveal(client_metrics_texts);
        lemma_time_line(
            "rlmm_bootstrap_backoff_initial",
            &tuning.rlmm_bootstrap_backoff_initial,
            TimeRule::Positive,
        );
    }
    assert(line_of(fields[7]) == parts[7]) by {
        reveal(client_metrics);
        reveal(client_metrics_texts);
        lemma_time_line(
            "rlmm_bootstrap_backoff_max",
            &tuning.rlmm_bootstrap_backoff_max,
            TimeRule::Positive,
        );
    }
    assert(line_of(fields[8]) == parts[8]) by {
        reveal(client_metrics);
        reveal(client_metrics_texts);
        lemma_time_line(
            "connection_creation_throttle_max",
            &tuning.connection_creation_throttle_max,
            TimeRule::Positive,
        );
    }
    assert(line_of(fields[9]) == parts[9]) by {
        reveal(client_metrics);
        reveal(client_metrics_texts);
        lemma_time_line("opa_http_timeout", &tuning.opa_http_timeout, TimeRule::Positive);
    }
    assert(line_of(fields[10]) == parts[10]) by {
        reveal(client_metrics);
        reveal(client_metrics_texts);
        lemma_time_line(
            "oauth_jwks_http_timeout",
            &tuning.oauth_jwks_http_timeout,
            TimeRule::Positive,
        );
    }
    assert(line_of(fields[11]) == parts[11]) by {
        reveal(client_metrics);
        reveal(client_metrics_texts);
        lemma_time_line(
            "auto_join_retry_backoff",
            &tuning.auto_join_retry_backoff,
            TimeRule::Positive,
        );
    }
    assert(line_of(fields[12]) == parts[12]) by {
        reveal(client_metrics);
        reveal(client_metrics_texts);
        lemma_time_line(
            "auto_join_voter_request_timeout",
            &tuning.auto_join_voter_request_timeout,
            TimeRule::AtMostMillis(i32::MAX),
        );
    }
    lemma_joined(fields, parts);
}

#[verifier::opaque]
spec fn replication_texts(tuning: BrokerTuning) -> Seq<Seq<char>> {
    replication_lines(tuning)
}

proof fn lemma_replication_texts(tuning: BrokerTuning)
    ensures
        broker_tuning::lines(replication(&tuning)) == joined(replication_texts(tuning)),
{
    let (fields, parts) = (replication(&tuning), replication_texts(tuning));
    assert(fields.len() == 10 && parts.len() == 10) by {
        reveal(replication);
        reveal(replication_texts);
    }
    assert(line_of(fields[0]) == parts[0]) by {
        reveal(replication);
        reveal(replication_texts);
        lemma_size_line("replication_fetch_max", &tuning.replication_fetch_max, 2_147_483_647);
    }
    assert(line_of(fields[1]) == parts[1]) by {
        reveal(replication);
        reveal(replication_texts);
        lemma_time_line(
            "replication_fetch_max_wait",
            &tuning.replication_fetch_max_wait,
            TimeRule::AtMostMillis(i32::MAX),
        );
    }
    assert(line_of(fields[2]) == parts[2]) by {
        reveal(replication);
        reveal(replication_texts);
        lemma_size_line("replication_fetch_min", &tuning.replication_fetch_min, 2_147_483_647);
    }
    assert(line_of(fields[3]) == parts[3]) by {
        reveal(replication);
        reveal(replication_texts);
        lemma_time_line(
            "replication_throttle_exhausted_backoff",
            &tuning.replication_throttle_exhausted_backoff,
            TimeRule::Positive,
        );
    }
    assert(line_of(fields[4]) == parts[4]) by {
        reveal(replication);
        reveal(replication_texts);
        lemma_time_line(
            "replication_send_error_backoff",
            &tuning.replication_send_error_backoff,
            TimeRule::Positive,
        );
    }
    assert(line_of(fields[5]) == parts[5]) by {
        reveal(replication);
        reveal(replication_texts);
        lemma_time_line(
            "replication_unknown_topic_retry_delay",
            &tuning.replication_unknown_topic_retry_delay,
            TimeRule::Positive,
        );
    }
    assert(line_of(fields[6]) == parts[6]) by {
        reveal(replication);
        reveal(replication_texts);
        lemma_time_line(
            "replication_epoch_fence_backoff",
            &tuning.replication_epoch_fence_backoff,
            TimeRule::Positive,
        );
    }
    assert(line_of(fields[7]) == parts[7]) by {
        reveal(replication);
        reveal(replication_texts);
        lemma_time_line(
            "replication_unexpected_error_backoff",
            &tuning.replication_unexpected_error_backoff,
            TimeRule::Positive,
        );
    }
    assert(line_of(fields[8]) == parts[8]) by {
        reveal(replication);
        reveal(replication_texts);
        lemma_time_line(
            "replication_reconnect_initial_delay",
            &tuning.replication_reconnect_initial_delay,
            TimeRule::Positive,
        );
    }
    assert(line_of(fields[9]) == parts[9]) by {
        reveal(replication);
        reveal(replication_texts);
        lemma_time_line(
            "replication_reconnect_delay_cap",
            &tuning.replication_reconnect_delay_cap,
            TimeRule::Positive,
        );
    }
    lemma_joined(fields, parts);
}

#[verifier::opaque]
spec fn group_texts(tuning: BrokerTuning) -> Seq<Seq<char>> {
    group_lines(tuning)
}

proof fn lemma_group_texts(tuning: BrokerTuning)
    ensures
        broker_tuning::lines(group(&tuning)) == joined(group_texts(tuning)),
{
    let (fields, parts) = (group(&tuning), group_texts(tuning));
    assert(fields.len() == 15 && parts.len() == 15) by {
        reveal(group);
        reveal(group_texts);
    }
    assert(line_of(fields[0]) == parts[0]) by {
        reveal(group);
        reveal(group_texts);
        lemma_time_line(
            "coordinator_session_expiry_tick",
            &tuning.coordinator_session_expiry_tick,
            TimeRule::Positive,
        );
    }
    assert(line_of(fields[1]) == parts[1]) by {
        reveal(group);
        reveal(group_texts);
        lemma_time_line(
            "coordinator_shutdown_ack_timeout",
            &tuning.coordinator_shutdown_ack_timeout,
            TimeRule::Positive,
        );
    }
    assert(line_of(fields[2]) == parts[2]) by {
        reveal(group);
        reveal(group_texts);
        lemma_time_line(
            "consumer_group_session_timeout",
            &tuning.consumer_group_session_timeout,
            TimeRule::Positive,
        );
    }
    assert(line_of(fields[3]) == parts[3]) by {
        reveal(group);
        reveal(group_texts);
        lemma_time_line(
            "consumer_group_heartbeat_interval",
            &tuning.consumer_group_heartbeat_interval,
            TimeRule::Positive,
        );
    }
    assert(line_of(fields[4]) == parts[4]) by {
        reveal(group);
        reveal(group_texts);
        lemma_time_line(
            "consumer_group_min_session_timeout",
            &tuning.consumer_group_min_session_timeout,
            TimeRule::Positive,
        );
    }
    assert(line_of(fields[5]) == parts[5]) by {
        reveal(group);
        reveal(group_texts);
        lemma_time_line(
            "consumer_group_max_session_timeout",
            &tuning.consumer_group_max_session_timeout,
            TimeRule::Positive,
        );
    }
    assert(line_of(fields[6]) == parts[6]) by {
        reveal(group);
        reveal(group_texts);
        lemma_time_line(
            "consumer_group_min_heartbeat_interval",
            &tuning.consumer_group_min_heartbeat_interval,
            TimeRule::Positive,
        );
    }
    assert(line_of(fields[7]) == parts[7]) by {
        reveal(group);
        reveal(group_texts);
        lemma_time_line(
            "consumer_group_max_heartbeat_interval",
            &tuning.consumer_group_max_heartbeat_interval,
            TimeRule::Positive,
        );
    }
    assert(line_of(fields[8]) == parts[8]) by {
        reveal(group);
        reveal(group_texts);
        lemma_count_line(
            "consumer_group_max_size",
            Value::PositiveUsize(tuning.consumer_group_max_size),
            whole_usize(tuning.consumer_group_max_size),
        );
    }
    assert(line_of(fields[9]) == parts[9]) by {
        reveal(group);
        reveal(group_texts);
        lemma_time_line(
            "classic_group_initial_rebalance_delay",
            &tuning.classic_group_initial_rebalance_delay,
            TimeRule::Positive,
        );
    }
    assert(line_of(fields[10]) == parts[10]) by {
        reveal(group);
        reveal(group_texts);
        lemma_time_line(
            "sync_group_follower_wait",
            &tuning.sync_group_follower_wait,
            TimeRule::Positive,
        );
    }
    assert(line_of(fields[11]) == parts[11]) by {
        reveal(group);
        reveal(group_texts);
        lemma_time_line(
            "unclean_recovery_aggressive_deadline",
            &tuning.unclean_recovery_aggressive_deadline,
            TimeRule::Positive,
        );
    }
    assert(line_of(fields[12]) == parts[12]) by {
        reveal(group);
        reveal(group_texts);
        lemma_time_line(
            "unclean_recovery_balanced_deadline",
            &tuning.unclean_recovery_balanced_deadline,
            TimeRule::Positive,
        );
    }
    assert(line_of(fields[13]) == parts[13]) by {
        reveal(group);
        reveal(group_texts);
        lemma_time_line(
            "operator_recovery_deadline",
            &tuning.operator_recovery_deadline,
            TimeRule::Positive,
        );
    }
    assert(line_of(fields[14]) == parts[14]) by {
        reveal(group);
        reveal(group_texts);
        lemma_time_line("quota_throttle_max", &tuning.quota_throttle_max, TimeRule::Positive);
    }
    lemma_joined(fields, parts);
}

#[verifier::opaque]
spec fn capacity_texts(tuning: BrokerTuning) -> Seq<Seq<char>> {
    capacity_lines(tuning)
}

proof fn lemma_capacity_texts(tuning: BrokerTuning)
    ensures
        broker_tuning::lines(capacity(&tuning)) == joined(capacity_texts(tuning)),
{
    let (fields, parts) = (capacity(&tuning), capacity_texts(tuning));
    assert(fields.len() == 16 && parts.len() == 16) by {
        reveal(capacity);
        reveal(capacity_texts);
    }
    assert(line_of(fields[0]) == parts[0]) by {
        reveal(capacity);
        reveal(capacity_texts);
        lemma_count_line(
            "self_registration_max_attempts",
            Value::PositiveU32(tuning.self_registration_max_attempts),
            whole_u32(tuning.self_registration_max_attempts),
        );
    }
    assert(line_of(fields[1]) == parts[1]) by {
        reveal(capacity);
        reveal(capacity_texts);
        lemma_size_line("observer_fetch_max", &tuning.observer_fetch_max, 4_294_967_295);
    }
    assert(line_of(fields[2]) == parts[2]) by {
        reveal(capacity);
        reveal(capacity_texts);
        lemma_count_line(
            "audit_event_queue_capacity",
            Value::PositiveUsize(tuning.audit_event_queue_capacity),
            whole_usize(tuning.audit_event_queue_capacity),
        );
    }
    assert(line_of(fields[3]) == parts[3]) by {
        reveal(capacity);
        reveal(capacity_texts);
        lemma_count_line(
            "audit_tail_window_offsets",
            Value::PositiveI64(tuning.audit_tail_window_offsets),
            whole_i64(tuning.audit_tail_window_offsets),
        );
    }
    assert(line_of(fields[4]) == parts[4]) by {
        reveal(capacity);
        reveal(capacity_texts);
        lemma_size_line("audit_tail_read_max", &tuning.audit_tail_read_max, usize::MAX as u64);
    }
    assert(line_of(fields[5]) == parts[5]) by {
        reveal(capacity);
        reveal(capacity_texts);
        lemma_time_line(
            "offsets_topic_metadata_wait_timeout",
            &tuning.offsets_topic_metadata_wait_timeout,
            TimeRule::Positive,
        );
    }
    assert(line_of(fields[6]) == parts[6]) by {
        reveal(capacity);
        reveal(capacity_texts);
        lemma_count_line(
            "client_metrics_stale_push_intervals",
            Value::PositiveU32(tuning.client_metrics_stale_push_intervals),
            whole_u32(tuning.client_metrics_stale_push_intervals),
        );
    }
    assert(line_of(fields[7]) == parts[7]) by {
        reveal(capacity);
        reveal(capacity_texts);
        lemma_count_line(
            "client_metrics_otlp_queue_capacity",
            Value::PositiveUsize(tuning.client_metrics_otlp_queue_capacity),
            whole_usize(tuning.client_metrics_otlp_queue_capacity),
        );
    }
    assert(line_of(fields[8]) == parts[8]) by {
        reveal(capacity);
        reveal(capacity_texts);
        lemma_count_line(
            "coordinator_actor_mailbox_capacity",
            Value::PositiveUsize(tuning.coordinator_actor_mailbox_capacity),
            whole_usize(tuning.coordinator_actor_mailbox_capacity),
        );
    }
    assert(line_of(fields[9]) == parts[9]) by {
        reveal(capacity);
        reveal(capacity_texts);
        lemma_count_line(
            "diskless_wal_local_replica_count",
            Value::PositiveUsize(tuning.diskless_wal_local_replica_count),
            whole_usize(tuning.diskless_wal_local_replica_count),
        );
    }
    assert(line_of(fields[10]) == parts[10]) by {
        reveal(capacity);
        reveal(capacity_texts);
        lemma_time_line(
            "diskless_wal_flush_interval",
            &tuning.diskless_wal_flush_interval,
            TimeRule::Positive,
        );
    }
    assert(line_of(fields[11]) == parts[11]) by {
        reveal(capacity);
        reveal(capacity_texts);
        lemma_size_line(
            "diskless_wal_flush_max_size",
            &tuning.diskless_wal_flush_max_size,
            usize::MAX as u64,
        );
    }
    assert(line_of(fields[12]) == parts[12]) by {
        reveal(capacity);
        reveal(capacity_texts);
        lemma_count_line(
            "diskless_wal_trim_safety_lag",
            Value::NonnegativeI64(tuning.diskless_wal_trim_safety_lag),
            whole_i64(tuning.diskless_wal_trim_safety_lag),
        );
    }
    assert(line_of(fields[13]) == parts[13]) by {
        reveal(capacity);
        reveal(capacity_texts);
        lemma_time_line(
            "diskless_wal_index_projection_timeout",
            &tuning.diskless_wal_index_projection_timeout,
            TimeRule::Positive,
        );
    }
    assert(line_of(fields[14]) == parts[14]) by {
        reveal(capacity);
        reveal(capacity_texts);
        lemma_count_line(
            "unclean_recovery_queue_capacity",
            Value::PositiveUsize(tuning.unclean_recovery_queue_capacity),
            whole_usize(tuning.unclean_recovery_queue_capacity),
        );
    }
    assert(line_of(fields[15]) == parts[15]) by {
        reveal(capacity);
        reveal(capacity_texts);
        lemma_size_line(
            "share_recovery_read_max",
            &tuning.share_recovery_read_max,
            usize::MAX as u64,
        );
    }
    lemma_joined(fields, parts);
}

#[verifier::opaque]
spec fn socket_texts(tuning: BrokerTuning) -> Seq<Seq<char>> {
    socket_lines(tuning)
}

proof fn lemma_socket_texts(tuning: BrokerTuning)
    ensures
        broker_tuning::lines(socket(&tuning)) == joined(socket_texts(tuning)),
{
    let (fields, parts) = (socket(&tuning), socket_texts(tuning));
    assert(fields.len() == 16 && parts.len() == 16) by {
        reveal(socket);
        reveal(socket_texts);
    }
    assert(line_of(fields[0]) == parts[0]) by {
        reveal(socket);
        reveal(socket_texts);
        lemma_count_line(
            "share_session_cache_max_when_unlimited",
            Value::PositiveUsize(tuning.share_session_cache_max_when_unlimited),
            whole_usize(tuning.share_session_cache_max_when_unlimited),
        );
    }
    assert(line_of(fields[1]) == parts[1]) by {
        reveal(socket);
        reveal(socket_texts);
        lemma_size_line("log_read_buffer_cap", &tuning.log_read_buffer_cap, usize::MAX as u64);
    }
    assert(line_of(fields[2]) == parts[2]) by {
        reveal(socket);
        reveal(socket_texts);
        lemma_size_line(
            "log_timestamp_scan_window",
            &tuning.log_timestamp_scan_window,
            usize::MAX as u64,
        );
    }
    assert(line_of(fields[3]) == parts[3]) by {
        reveal(socket);
        reveal(socket_texts);
        lemma_size_line("socket_request_max", &tuning.socket_request_max, 4_294_967_295);
    }
    assert(line_of(fields[4]) == parts[4]) by {
        reveal(socket);
        reveal(socket_texts);
        lemma_size_line("sendfile_min", &tuning.sendfile_min, usize::MAX as u64);
    }
    assert(line_of(fields[5]) == parts[5]) by {
        reveal(socket);
        reveal(socket_texts);
        lemma_size_line("socket_send_buffer", &tuning.socket_send_buffer, usize::MAX as u64);
    }
    assert(line_of(fields[6]) == parts[6]) by {
        reveal(socket);
        reveal(socket_texts);
        lemma_size_line("socket_receive_buffer", &tuning.socket_receive_buffer, usize::MAX as u64);
    }
    assert(line_of(fields[7]) == parts[7]) by {
        reveal(socket);
        reveal(socket_texts);
        lemma_size_line("acl_max_principal", &tuning.acl_max_principal, usize::MAX as u64);
    }
    assert(line_of(fields[8]) == parts[8]) by {
        reveal(socket);
        reveal(socket_texts);
        lemma_size_line("acl_max_resource_name", &tuning.acl_max_resource_name, usize::MAX as u64);
    }
    assert(line_of(fields[9]) == parts[9]) by {
        reveal(socket);
        reveal(socket_texts);
        lemma_ratio_line(
            "telemetry_max_decompression_ratio",
            &tuning.telemetry_max_decompression_ratio,
            RatioRule::Positive,
        );
    }
    assert(line_of(fields[10]) == parts[10]) by {
        reveal(socket);
        reveal(socket_texts);
        lemma_size_line(
            "telemetry_decompressed_output_floor",
            &tuning.telemetry_decompressed_output_floor,
            usize::MAX as u64,
        );
    }
    assert(line_of(fields[11]) == parts[11]) by {
        reveal(socket);
        reveal(socket_texts);
        lemma_size_line(
            "telemetry_decompressed_output_ceiling",
            &tuning.telemetry_decompressed_output_ceiling,
            usize::MAX as u64,
        );
    }
    assert(line_of(fields[12]) == parts[12]) by {
        reveal(socket);
        reveal(socket_texts);
        lemma_ratio_line(
            "record_decompression_max_ratio",
            &tuning.record_decompression_max_ratio,
            RatioRule::Positive,
        );
    }
    assert(line_of(fields[13]) == parts[13]) by {
        reveal(socket);
        reveal(socket_texts);
        lemma_size_line(
            "record_decompression_output_floor",
            &tuning.record_decompression_output_floor,
            u64::MAX,
        );
    }
    assert(line_of(fields[14]) == parts[14]) by {
        reveal(socket);
        reveal(socket_texts);
        lemma_size_line(
            "record_decompression_output_ceiling",
            &tuning.record_decompression_output_ceiling,
            u64::MAX,
        );
    }
    assert(line_of(fields[15]) == parts[15]) by {
        reveal(socket);
        reveal(socket_texts);
        lemma_string_line("inter_broker_server_name", &tuning.inter_broker_server_name);
    }
    lemma_joined(fields, parts);
}

#[verifier::opaque]
spec fn producer_texts(tuning: BrokerTuning) -> Seq<Seq<char>> {
    producer_lines(tuning)
}

proof fn lemma_producer_texts(tuning: BrokerTuning)
    ensures
        broker_tuning::lines(producer(&tuning)) == joined(producer_texts(tuning)),
{
    let (fields, parts) = (producer(&tuning), producer_texts(tuning));
    assert(fields.len() == 15 && parts.len() == 15) by {
        reveal(producer);
        reveal(producer_texts);
    }
    assert(line_of(fields[0]) == parts[0]) by {
        reveal(producer);
        reveal(producer_texts);
        lemma_time_line(
            "producer_id_expiration",
            &tuning.producer_id_expiration,
            TimeRule::WholeMillis,
        );
    }
    assert(line_of(fields[1]) == parts[1]) by {
        reveal(producer);
        reveal(producer_texts);
        lemma_time_line(
            "producer_id_expiration_scan_interval",
            &tuning.producer_id_expiration_scan_interval,
            TimeRule::Positive,
        );
    }
    assert(line_of(fields[2]) == parts[2]) by {
        reveal(producer);
        reveal(producer_texts);
        lemma_count_line(
            "max_produce_group",
            Value::PositiveUsize(tuning.max_produce_group),
            whole_usize(tuning.max_produce_group),
        );
    }
    assert(line_of(fields[3]) == parts[3]) by {
        reveal(producer);
        reveal(producer_texts);
        lemma_count_line(
            "partition_writer_queue_depth",
            Value::PositiveUsize(tuning.partition_writer_queue_depth),
            whole_usize(tuning.partition_writer_queue_depth),
        );
    }
    assert(line_of(fields[4]) == parts[4]) by {
        reveal(producer);
        reveal(producer_texts);
        lemma_count_line(
            "default_min_insync_replicas",
            Value::PositiveI32(tuning.default_min_insync_replicas),
            whole_i32(tuning.default_min_insync_replicas),
        );
    }
    assert(line_of(fields[5]) == parts[5]) by {
        reveal(producer);
        reveal(producer_texts);
        lemma_size_line(
            "future_log_move_read_chunk",
            &tuning.future_log_move_read_chunk,
            usize::MAX as u64,
        );
    }
    assert(line_of(fields[6]) == parts[6]) by {
        reveal(producer);
        reveal(producer_texts);
        lemma_count_line(
            "share_state_num_partitions",
            Value::PositiveI32(tuning.share_state_num_partitions),
            whole_i32(tuning.share_state_num_partitions),
        );
    }
    assert(line_of(fields[7]) == parts[7]) by {
        reveal(producer);
        reveal(producer_texts);
        lemma_count_line(
            "share_state_replication_factor",
            Value::PositiveI16(tuning.share_state_replication_factor),
            whole_i16(tuning.share_state_replication_factor),
        );
    }
    assert(line_of(fields[8]) == parts[8]) by {
        reveal(producer);
        reveal(producer_texts);
        lemma_count_line(
            "transaction_state_num_partitions",
            Value::PositiveI32(tuning.transaction_state_num_partitions),
            whole_i32(tuning.transaction_state_num_partitions),
        );
    }
    assert(line_of(fields[9]) == parts[9]) by {
        reveal(producer);
        reveal(producer_texts);
        lemma_size_line(
            "transaction_recovery_read_max",
            &tuning.transaction_recovery_read_max,
            usize::MAX as u64,
        );
    }
    assert(line_of(fields[10]) == parts[10]) by {
        reveal(producer);
        reveal(producer_texts);
        lemma_count_line(
            "transaction_state_replication_factor",
            Value::PositiveI16(tuning.transaction_state_replication_factor),
            whole_i16(tuning.transaction_state_replication_factor),
        );
    }
    assert(line_of(fields[11]) == parts[11]) by {
        reveal(producer);
        reveal(producer_texts);
        lemma_time_line(
            "transaction_min_timeout",
            &tuning.transaction_min_timeout,
            TimeRule::AtMostMillis(i32::MAX),
        );
    }
    assert(line_of(fields[12]) == parts[12]) by {
        reveal(producer);
        reveal(producer_texts);
        lemma_time_line(
            "transaction_max_timeout",
            &tuning.transaction_max_timeout,
            TimeRule::AtMostMillis(2_147_483_646),
        );
    }
    assert(line_of(fields[13]) == parts[13]) by {
        reveal(producer);
        reveal(producer_texts);
        lemma_time_line(
            "partition_disk_scan_interval",
            &tuning.partition_disk_scan_interval,
            TimeRule::Nonnegative,
        );
    }
    assert(line_of(fields[14]) == parts[14]) by {
        reveal(producer);
        reveal(producer_texts);
        lemma_count_line(
            "observer_lag_bound",
            Value::U64(tuning.observer_lag_bound),
            whole_u64(tuning.observer_lag_bound),
        );
    }
    lemma_joined(fields, parts);
}

#[verifier::opaque]
spec fn controller_texts(tuning: BrokerTuning) -> Seq<Seq<char>> {
    controller_lines(tuning)
}

proof fn lemma_controller_texts(tuning: BrokerTuning)
    ensures
        broker_tuning::lines(controller(&tuning)) == joined(controller_texts(tuning)),
{
    let (fields, parts) = (controller(&tuning), controller_texts(tuning));
    assert(fields.len() == 17 && parts.len() == 17) by {
        reveal(controller);
        reveal(controller_texts);
    }
    assert(line_of(fields[0]) == parts[0]) by {
        reveal(controller);
        reveal(controller_texts);
        lemma_time_line("heartbeat_interval", &tuning.heartbeat_interval, TimeRule::Positive);
    }
    assert(line_of(fields[1]) == parts[1]) by {
        reveal(controller);
        reveal(controller_texts);
        lemma_time_line("heartbeat_timeout", &tuning.heartbeat_timeout, TimeRule::Positive);
    }
    assert(line_of(fields[2]) == parts[2]) by {
        reveal(controller);
        reveal(controller_texts);
        lemma_time_line("replica_lag_time_max", &tuning.replica_lag_time_max, TimeRule::Positive);
    }
    assert(line_of(fields[3]) == parts[3]) by {
        reveal(controller);
        reveal(controller_texts);
        lemma_time_line(
            "controller_election_timeout",
            &tuning.controller_election_timeout,
            TimeRule::Positive,
        );
    }
    assert(line_of(fields[4]) == parts[4]) by {
        reveal(controller);
        reveal(controller_texts);
        lemma_time_line(
            "controller_heartbeat_interval",
            &tuning.controller_heartbeat_interval,
            TimeRule::Positive,
        );
    }
    assert(line_of(fields[5]) == parts[5]) by {
        reveal(controller);
        reveal(controller_texts);
        lemma_count_line(
            "controller_fetch_miss_limit",
            Value::PositiveU32(tuning.controller_fetch_miss_limit),
            whole_u32(tuning.controller_fetch_miss_limit),
        );
    }
    assert(line_of(fields[6]) == parts[6]) by {
        reveal(controller);
        reveal(controller_texts);
        lemma_count_line(
            "metadata_raft_command_queue_capacity",
            Value::PositiveUsize(tuning.metadata_raft_command_queue_capacity),
            whole_usize(tuning.metadata_raft_command_queue_capacity),
        );
    }
    assert(line_of(fields[7]) == parts[7]) by {
        reveal(controller);
        reveal(controller_texts);
        lemma_size_line("metadata_raft_fetch_max", &tuning.metadata_raft_fetch_max, 2_147_483_647);
    }
    assert(line_of(fields[8]) == parts[8]) by {
        reveal(controller);
        reveal(controller_texts);
        lemma_time_line(
            "controlled_shutdown_drain_timeout",
            &tuning.controlled_shutdown_drain_timeout,
            TimeRule::Positive,
        );
    }
    assert(line_of(fields[9]) == parts[9]) by {
        reveal(controller);
        reveal(controller_texts);
        lemma_size_line(
            "metadata_max_between_snapshots",
            &tuning.metadata_max_between_snapshots,
            u64::MAX,
        );
    }
    assert(line_of(fields[10]) == parts[10]) by {
        reveal(controller);
        reveal(controller_texts);
        lemma_time_line(
            "metadata_max_snapshot_interval",
            &tuning.metadata_max_snapshot_interval,
            TimeRule::Nonnegative,
        );
    }
    assert(line_of(fields[11]) == parts[11]) by {
        reveal(controller);
        reveal(controller_texts);
        lemma_count_line(
            "metadata_snapshot_interval_records",
            Value::PositiveU64(tuning.metadata_snapshot_interval_records),
            whole_u64(tuning.metadata_snapshot_interval_records),
        );
    }
    assert(line_of(fields[12]) == parts[12]) by {
        reveal(controller);
        reveal(controller_texts);
        lemma_size_line("metadata_snapshot_fetch_max", &tuning.metadata_snapshot_fetch_max, 0);
    }
    assert(line_of(fields[13]) == parts[13]) by {
        reveal(controller);
        reveal(controller_texts);
        lemma_time_line(
            "txn_abort_cleanup_interval",
            &tuning.txn_abort_cleanup_interval,
            TimeRule::Nonnegative,
        );
    }
    assert(line_of(fields[14]) == parts[14]) by {
        reveal(controller);
        reveal(controller_texts);
        lemma_time_line(
            "leader_imbalance_check_interval",
            &tuning.leader_imbalance_check_interval,
            TimeRule::Positive,
        );
    }
    assert(line_of(fields[15]) == parts[15]) by {
        reveal(controller);
        reveal(controller_texts);
        lemma_ratio_line(
            "leader_imbalance_per_broker",
            &tuning.leader_imbalance_per_broker,
            RatioRule::UnitInterval,
        );
    }
    assert(line_of(fields[16]) == parts[16]) by {
        reveal(controller);
        reveal(controller_texts);
        lemma_time_line("tls_reload_interval", &tuning.tls_reload_interval, TimeRule::Nonnegative);
    }
    lemma_joined(fields, parts);
}

#[verifier::opaque]
spec fn connection_texts(tuning: BrokerTuning) -> Seq<Seq<char>> {
    connection_lines(tuning)
}

proof fn lemma_connection_texts(tuning: BrokerTuning)
    ensures
        broker_tuning::lines(connection(&tuning)) == joined(connection_texts(tuning)),
{
    let (fields, parts) = (connection(&tuning), connection_texts(tuning));
    assert(fields.len() == 8 && parts.len() == 8) by {
        reveal(connection);
        reveal(connection_texts);
    }
    assert(line_of(fields[0]) == parts[0]) by {
        reveal(connection);
        reveal(connection_texts);
        lemma_count_line(
            "max_incremental_fetch_session_cache_slots",
            Value::Usize(tuning.max_incremental_fetch_session_cache_slots),
            whole_usize(tuning.max_incremental_fetch_session_cache_slots),
        );
    }
    assert(line_of(fields[1]) == parts[1]) by {
        reveal(connection);
        reveal(connection_texts);
        lemma_count_line(
            "max_connections",
            Value::Usize(tuning.max_connections),
            whole_usize(tuning.max_connections),
        );
    }
    assert(line_of(fields[2]) == parts[2]) by {
        reveal(connection);
        reveal(connection_texts);
        lemma_count_line(
            "max_connections_per_ip",
            Value::Usize(tuning.max_connections_per_ip),
            whole_usize(tuning.max_connections_per_ip),
        );
    }
    assert(line_of(fields[3]) == parts[3]) by {
        reveal(connection);
        reveal(connection_texts);
        lemma_time_line(
            "delegation_token_max_lifetime",
            &tuning.delegation_token_max_lifetime,
            TimeRule::WholeMillis,
        );
    }
    assert(line_of(fields[4]) == parts[4]) by {
        reveal(connection);
        reveal(connection_texts);
        lemma_time_line(
            "delegation_token_expiry_check_interval",
            &tuning.delegation_token_expiry_check_interval,
            TimeRule::WholeMillis,
        );
    }
    assert(line_of(fields[5]) == parts[5]) by {
        reveal(connection);
        reveal(connection_texts);
        lemma_time_line(
            "delegation_token_default_renew_period",
            &tuning.delegation_token_default_renew_period,
            TimeRule::WholeMillis,
        );
    }
    assert(line_of(fields[6]) == parts[6]) by {
        reveal(connection);
        reveal(connection_texts);
        lemma_time_line(
            "remote_log_manager_interval",
            &tuning.remote_log_manager_interval,
            TimeRule::Positive,
        );
    }
    assert(line_of(fields[7]) == parts[7]) by {
        reveal(connection);
        reveal(connection_texts);
        lemma_flag_line("share_group_enable", tuning.share_group_enable);
    }
    lemma_joined(fields, parts);
}

#[verifier::opaque]
spec fn share_group_texts(tuning: BrokerTuning) -> Seq<Seq<char>> {
    share_group_lines(tuning)
}

proof fn lemma_share_group_texts(tuning: BrokerTuning)
    ensures
        broker_tuning::lines(share_group(&tuning)) == joined(share_group_texts(tuning)),
{
    let (fields, parts) = (share_group(&tuning), share_group_texts(tuning));
    assert(fields.len() == 7 && parts.len() == 7) by {
        reveal(share_group);
        reveal(share_group_texts);
    }
    assert(line_of(fields[0]) == parts[0]) by {
        reveal(share_group);
        reveal(share_group_texts);
        lemma_time_line(
            "share_group_session_timeout",
            &tuning.share_group_session_timeout,
            TimeRule::Positive,
        );
    }
    assert(line_of(fields[1]) == parts[1]) by {
        reveal(share_group);
        reveal(share_group_texts);
        lemma_time_line(
            "share_group_heartbeat_interval",
            &tuning.share_group_heartbeat_interval,
            TimeRule::Positive,
        );
    }
    assert(line_of(fields[2]) == parts[2]) by {
        reveal(share_group);
        reveal(share_group_texts);
        lemma_count_line(
            "share_group_max_size",
            Value::PositiveUsize(tuning.share_group_max_size),
            whole_usize(tuning.share_group_max_size),
        );
    }
    assert(line_of(fields[3]) == parts[3]) by {
        reveal(share_group);
        reveal(share_group_texts);
        lemma_time_line(
            "share_group_record_lock_duration",
            &tuning.share_group_record_lock_duration,
            TimeRule::Positive,
        );
    }
    assert(line_of(fields[4]) == parts[4]) by {
        reveal(share_group);
        reveal(share_group_texts);
        lemma_count_line(
            "share_group_max_delivery_attempts",
            Value::PositiveI16(tuning.share_group_max_delivery_attempts),
            whole_i16(tuning.share_group_max_delivery_attempts),
        );
    }
    assert(line_of(fields[5]) == parts[5]) by {
        reveal(share_group);
        reveal(share_group_texts);
        lemma_count_line(
            "share_group_max_inflight_records",
            Value::PositiveI32(tuning.share_group_max_inflight_records),
            whole_i32(tuning.share_group_max_inflight_records),
        );
    }
    assert(line_of(fields[6]) == parts[6]) by {
        reveal(share_group);
        reveal(share_group_texts);
        lemma_string_line("share_group_isolation_level", &tuning.share_group_isolation_level);
    }
    lemma_joined(fields, parts);
}

#[verifier::opaque]
spec fn streams_group_texts(tuning: BrokerTuning) -> Seq<Seq<char>> {
    streams_group_lines(tuning)
}

proof fn lemma_streams_group_texts(tuning: BrokerTuning)
    ensures
        broker_tuning::lines(streams_group(&tuning)) == joined(streams_group_texts(tuning)),
{
    let (fields, parts) = (streams_group(&tuning), streams_group_texts(tuning));
    assert(fields.len() == 10 && parts.len() == 10) by {
        reveal(streams_group);
        reveal(streams_group_texts);
    }
    assert(line_of(fields[0]) == parts[0]) by {
        reveal(streams_group);
        reveal(streams_group_texts);
        lemma_flag_line("streams_group_enable", tuning.streams_group_enable);
    }
    assert(line_of(fields[1]) == parts[1]) by {
        reveal(streams_group);
        reveal(streams_group_texts);
        lemma_time_line(
            "streams_group_session_timeout",
            &tuning.streams_group_session_timeout,
            TimeRule::Positive,
        );
    }
    assert(line_of(fields[2]) == parts[2]) by {
        reveal(streams_group);
        reveal(streams_group_texts);
        lemma_time_line(
            "streams_group_heartbeat_interval",
            &tuning.streams_group_heartbeat_interval,
            TimeRule::Positive,
        );
    }
    assert(line_of(fields[3]) == parts[3]) by {
        reveal(streams_group);
        reveal(streams_group_texts);
        lemma_count_line(
            "streams_group_max_size",
            Value::PositiveUsize(tuning.streams_group_max_size),
            whole_usize(tuning.streams_group_max_size),
        );
    }
    assert(line_of(fields[4]) == parts[4]) by {
        reveal(streams_group);
        reveal(streams_group_texts);
        lemma_count_line(
            "streams_internal_topic_replication_factor",
            Value::PositiveI16(tuning.streams_internal_topic_replication_factor),
            whole_i16(tuning.streams_internal_topic_replication_factor),
        );
    }
    assert(line_of(fields[5]) == parts[5]) by {
        reveal(streams_group);
        reveal(streams_group_texts);
        lemma_count_line(
            "streams_group_num_standby_replicas",
            Value::NonnegativeI32(tuning.streams_group_num_standby_replicas),
            whole_i32(tuning.streams_group_num_standby_replicas),
        );
    }
    assert(line_of(fields[6]) == parts[6]) by {
        reveal(streams_group);
        reveal(streams_group_texts);
        lemma_count_line(
            "streams_group_num_warmup_replicas",
            Value::NonnegativeI32(tuning.streams_group_num_warmup_replicas),
            whole_i32(tuning.streams_group_num_warmup_replicas),
        );
    }
    assert(line_of(fields[7]) == parts[7]) by {
        reveal(streams_group);
        reveal(streams_group_texts);
        lemma_count_line(
            "streams_group_acceptable_recovery_lag",
            Value::NonnegativeI64(tuning.streams_group_acceptable_recovery_lag),
            whole_i64(tuning.streams_group_acceptable_recovery_lag),
        );
    }
    assert(line_of(fields[8]) == parts[8]) by {
        reveal(streams_group);
        reveal(streams_group_texts);
        lemma_time_line(
            "streams_group_task_offset_interval",
            &tuning.streams_group_task_offset_interval,
            TimeRule::Positive,
        );
    }
    assert(line_of(fields[9]) == parts[9]) by {
        reveal(streams_group);
        reveal(streams_group_texts);
        lemma_string_line("streams_group_assignor", &tuning.streams_group_assignor);
    }
    lemma_joined(fields, parts);
}

/// The `[runtime]` table has a line for each field that is set, in the order of the
/// fields. The line gives the key of the field's name its value. A field that is absent
/// has no line, and without a line there is no table.
pub proof fn lemma_table(tuning: BrokerTuning, r: String)
    requires
        call_ensures(BrokerTuning::render_runtime_toml, (&tuning,), r),
    ensures
        r@ == table(joined(startup_lines(tuning)
            + client_metrics_lines(tuning)
            + replication_lines(tuning)
            + group_lines(tuning)
            + capacity_lines(tuning)
            + socket_lines(tuning)
            + producer_lines(tuning)
            + controller_lines(tuning)
            + connection_lines(tuning)
            + share_group_lines(tuning)
            + streams_group_lines(tuning)
        )),
{
    lemma_all_lines(tuning);
    reveal(body);
    reveal(all_texts);
    reveal(startup_texts);
    reveal(client_metrics_texts);
    reveal(replication_texts);
    reveal(group_texts);
    reveal(capacity_texts);
    reveal(socket_texts);
    reveal(producer_texts);
    reveal(controller_texts);
    reveal(connection_texts);
    reveal(share_group_texts);
    reveal(streams_group_texts);
}

#[verifier::opaque]
spec fn all_texts(tuning: BrokerTuning) -> Seq<Seq<char>> {
    startup_texts(tuning) + client_metrics_texts(tuning) + replication_texts(tuning)
        + group_texts(tuning) + capacity_texts(tuning) + socket_texts(tuning)
        + producer_texts(tuning) + controller_texts(tuning) + connection_texts(tuning)
        + share_group_texts(tuning) + streams_group_texts(tuning)
}

proof fn lemma_all_lines(tuning: BrokerTuning)
    ensures
        body(tuning) == joined(all_texts(tuning)),
{
    reveal(all_texts);
    lemma_body(tuning);
    lemma_startup_texts(tuning);
    lemma_client_metrics_texts(tuning);
    lemma_replication_texts(tuning);
    lemma_group_texts(tuning);
    lemma_capacity_texts(tuning);
    lemma_socket_texts(tuning);
    lemma_producer_texts(tuning);
    lemma_controller_texts(tuning);
    lemma_connection_texts(tuning);
    lemma_share_group_texts(tuning);
    lemma_streams_group_texts(tuning);
    lemma_lines_join(startup(&tuning), client_metrics(&tuning));
    lemma_join(startup_texts(tuning), client_metrics_texts(tuning));
    lemma_lines_join(startup(&tuning) + client_metrics(&tuning), replication(&tuning));
    lemma_join(startup_texts(tuning) + client_metrics_texts(tuning), replication_texts(tuning));
    lemma_lines_join(
        startup(&tuning) + client_metrics(&tuning) + replication(&tuning),
        group(&tuning),
    );
    lemma_join(
        startup_texts(tuning) + client_metrics_texts(tuning) + replication_texts(tuning),
        group_texts(tuning),
    );
    lemma_lines_join(
        startup(&tuning) + client_metrics(&tuning) + replication(&tuning) + group(&tuning),
        capacity(&tuning),
    );
    lemma_join(
        startup_texts(tuning) + client_metrics_texts(tuning) + replication_texts(tuning)
            + group_texts(tuning),
        capacity_texts(tuning),
    );
    lemma_lines_join(
        startup(&tuning) + client_metrics(&tuning) + replication(&tuning) + group(&tuning)
            + capacity(&tuning),
        socket(&tuning),
    );
    lemma_join(
        startup_texts(tuning) + client_metrics_texts(tuning) + replication_texts(tuning)
            + group_texts(tuning) + capacity_texts(tuning),
        socket_texts(tuning),
    );
    lemma_lines_join(
        startup(&tuning) + client_metrics(&tuning) + replication(&tuning) + group(&tuning)
            + capacity(&tuning) + socket(&tuning),
        producer(&tuning),
    );
    lemma_join(
        startup_texts(tuning) + client_metrics_texts(tuning) + replication_texts(tuning)
            + group_texts(tuning) + capacity_texts(tuning) + socket_texts(tuning),
        producer_texts(tuning),
    );
    lemma_lines_join(
        startup(&tuning) + client_metrics(&tuning) + replication(&tuning) + group(&tuning)
            + capacity(&tuning) + socket(&tuning) + producer(&tuning),
        controller(&tuning),
    );
    lemma_join(
        startup_texts(tuning) + client_metrics_texts(tuning) + replication_texts(tuning)
            + group_texts(tuning) + capacity_texts(tuning) + socket_texts(tuning)
            + producer_texts(tuning),
        controller_texts(tuning),
    );
    lemma_lines_join(
        startup(&tuning) + client_metrics(&tuning) + replication(&tuning) + group(&tuning)
            + capacity(&tuning) + socket(&tuning) + producer(&tuning) + controller(&tuning),
        connection(&tuning),
    );
    lemma_join(
        startup_texts(tuning) + client_metrics_texts(tuning) + replication_texts(tuning)
            + group_texts(tuning) + capacity_texts(tuning) + socket_texts(tuning)
            + producer_texts(tuning) + controller_texts(tuning),
        connection_texts(tuning),
    );
    lemma_lines_join(
        startup(&tuning) + client_metrics(&tuning) + replication(&tuning) + group(&tuning)
            + capacity(&tuning) + socket(&tuning) + producer(&tuning) + controller(&tuning)
            + connection(&tuning),
        share_group(&tuning),
    );
    lemma_join(
        startup_texts(tuning) + client_metrics_texts(tuning) + replication_texts(tuning)
            + group_texts(tuning) + capacity_texts(tuning) + socket_texts(tuning)
            + producer_texts(tuning) + controller_texts(tuning) + connection_texts(tuning),
        share_group_texts(tuning),
    );
    lemma_lines_join(
        startup(&tuning) + client_metrics(&tuning) + replication(&tuning) + group(&tuning)
            + capacity(&tuning) + socket(&tuning) + producer(&tuning) + controller(&tuning)
            + connection(&tuning) + share_group(&tuning),
        streams_group(&tuning),
    );
    lemma_join(
        startup_texts(tuning) + client_metrics_texts(tuning) + replication_texts(tuning)
            + group_texts(tuning) + capacity_texts(tuning) + socket_texts(tuning)
            + producer_texts(tuning) + controller_texts(tuning) + connection_texts(tuning)
            + share_group_texts(tuning),
        streams_group_texts(tuning),
    );
}

/// Whether the table of `tuning` shows, as a line of its own, that `key` has the value
/// `value`.
#[verifier::opaque]
pub open spec fn shows(tuning: BrokerTuning, key: Seq<char>, value: Seq<char>) -> bool {
    text::holds(tuning.runtime_toml(), "\n"@ + line(key, value))
}

proof fn lemma_shows(
    tuning: BrokerTuning,
    fields: Seq<Field<'_>>,
    k: int,
    key: Seq<char>,
    value: Seq<char>,
)
    requires
        body(tuning) == broker_tuning::lines(fields),
        0 <= k < fields.len(),
        fields[k].name@ == key,
        value_of(fields[k]) == Some(value),
    ensures
        shows(tuning, key, value),
{
    reveal(value_of);
    let (start, one, end) = (fields.take(k), seq![fields[k]], fields.skip(k + 1));
    assert(fields =~= start + one + end);
    lemma_lines_join(start + one, end);
    lemma_lines_join(start, one);
    lemma_first_line(fields[k]);
    assert(one =~= Seq::<Field<'_>>::empty().push(fields[k]));
    lemma_lines_end(start);
    let (head, tail) = (broker_tuning::lines(start), broker_tuning::lines(end));
    let lines = head + line(key, value) + tail;
    reveal_strlit("[runtime]\n");
    reveal_strlit("\n");
    assert(lines.len() > 0);
    let before = ("[runtime]\n"@ + head).drop_last();
    let all = before + ("\n"@ + line(key, value)) + (tail + "\n"@);
    assert(all =~= table(lines));
    text::lemma_parts(before, "\n"@ + line(key, value), tail + "\n"@);
    lemma_shows_in_table(tuning, key, value);
}

proof fn lemma_shows_in_table(tuning: BrokerTuning, key: Seq<char>, value: Seq<char>)
    requires
        text::holds(table(body(tuning)), "\n"@ + line(key, value)),
    ensures
        shows(tuning, key, value),
{
    reveal(shows);
    reveal(body);
}

/// What is shown is a line of what is rendered.
pub proof fn lemma_shown_line(tuning: BrokerTuning, key: Seq<char>, value: Seq<char>, r: String)
    requires
        shows(tuning, key, value),
        call_ensures(BrokerTuning::render_runtime_toml, (&tuning,), r),
    ensures
        text::holds(r@, "\n"@ + line(key, value)),
{
    reveal(shows);
}

proof fn lemma_startup_shows(tuning: BrokerTuning, k: int, key: Seq<char>, value: Seq<char>)
    requires
        0 <= k < startup(&tuning).len(),
        startup(&tuning)[k].name@ == key,
        value_of(startup(&tuning)[k]) == Some(value),
    ensures
        shows(tuning, key, value),
{
    let before = Seq::<Field<'_>>::empty();
    let fields = startup(&tuning) + client_metrics(&tuning) + replication(&tuning) + group(&tuning)
        + capacity(&tuning) + socket(&tuning) + producer(&tuning) + controller(&tuning)
        + connection(&tuning) + share_group(&tuning) + streams_group(&tuning);
    lemma_body(tuning);
    assert(fields[before.len() + k] == startup(&tuning)[k]);
    lemma_shows(tuning, fields, before.len() + k, key, value);
}

/// The table shows each of the fields for startup, auditing and background scans that is
/// set: the key
/// of its name has its value.
pub proof fn lemma_startup_shown(tuning: BrokerTuning)
    ensures
        tuning.startup_leader_wait_timeout matches Some(x)
            ==> shows(tuning, "startup_leader_wait_timeout"@, outside::toml_string(x.text@)),
        tuning.self_registration_backoff_min matches Some(x)
            ==> shows(tuning, "self_registration_backoff_min"@, outside::toml_string(x.text@)),
        tuning.self_registration_backoff_max matches Some(x)
            ==> shows(tuning, "self_registration_backoff_max"@, outside::toml_string(x.text@)),
        tuning.observer_poll_interval matches Some(x)
            ==> shows(tuning, "observer_poll_interval"@, outside::toml_string(x.text@)),
        tuning.audit_spool_replay_interval matches Some(x)
            ==> shows(tuning, "audit_spool_replay_interval"@, outside::toml_string(x.text@)),
        tuning.audit_stats_poll_interval matches Some(x)
            ==> shows(tuning, "audit_stats_poll_interval"@, outside::toml_string(x.text@)),
        tuning.audit_partition_wait_timeout matches Some(x)
            ==> shows(tuning, "audit_partition_wait_timeout"@, outside::toml_string(x.text@)),
        tuning.liveness_tick_interval matches Some(x)
            ==> shows(tuning, "liveness_tick_interval"@, outside::toml_string(x.text@)),
        tuning.gauge_poll_interval matches Some(x)
            ==> shows(tuning, "gauge_poll_interval"@, outside::toml_string(x.text@)),
        tuning.cleaner_interval matches Some(x)
            ==> shows(tuning, "cleaner_interval"@, outside::toml_string(x.text@)),
        tuning.isr_scan_interval matches Some(x)
            ==> shows(tuning, "isr_scan_interval"@, outside::toml_string(x.text@)),
        tuning.future_log_move_retry_backoff matches Some(x)
            ==> shows(tuning, "future_log_move_retry_backoff"@, outside::toml_string(x.text@)),
{
    let fields = startup(&tuning);
    assert(fields.len() == 12) by {
        reveal(startup);
    }
    if let Some(x) = tuning.startup_leader_wait_timeout {
        let value = outside::toml_string(x.text@);
        assert(
            fields[0].name@ == "startup_leader_wait_timeout"@ && value_of(fields[0]) == Some(value)
        ) by {
            reveal(startup);
            lemma_time_line(
                "startup_leader_wait_timeout",
                &tuning.startup_leader_wait_timeout,
                TimeRule::Positive,
            );
        }
        lemma_startup_shows(tuning, 0, "startup_leader_wait_timeout"@, value);
    }
    if let Some(x) = tuning.self_registration_backoff_min {
        let value = outside::toml_string(x.text@);
        assert(
            fields[1].name@ == "self_registration_backoff_min"@
                && value_of(fields[1]) == Some(value)
        ) by {
            reveal(startup);
            lemma_time_line(
                "self_registration_backoff_min",
                &tuning.self_registration_backoff_min,
                TimeRule::Positive,
            );
        }
        lemma_startup_shows(tuning, 1, "self_registration_backoff_min"@, value);
    }
    if let Some(x) = tuning.self_registration_backoff_max {
        let value = outside::toml_string(x.text@);
        assert(
            fields[2].name@ == "self_registration_backoff_max"@
                && value_of(fields[2]) == Some(value)
        ) by {
            reveal(startup);
            lemma_time_line(
                "self_registration_backoff_max",
                &tuning.self_registration_backoff_max,
                TimeRule::Positive,
            );
        }
        lemma_startup_shows(tuning, 2, "self_registration_backoff_max"@, value);
    }
    if let Some(x) = tuning.observer_poll_interval {
        let value = outside::toml_string(x.text@);
        assert(
            fields[3].name@ == "observer_poll_interval"@ && value_of(fields[3]) == Some(value)
        ) by {
            reveal(startup);
            lemma_time_line(
                "observer_poll_interval",
                &tuning.observer_poll_interval,
                TimeRule::Positive,
            );
        }
        lemma_startup_shows(tuning, 3, "observer_poll_interval"@, value);
    }
    if let Some(x) = tuning.audit_spool_replay_interval {
        let value = outside::toml_string(x.text@);
        assert(
            fields[4].name@ == "audit_spool_replay_interval"@ && value_of(fields[4]) == Some(value)
        ) by {
            reveal(startup);
            lemma_time_line(
                "audit_spool_replay_interval",
                &tuning.audit_spool_replay_interval,
                TimeRule::Positive,
            );
        }
        lemma_startup_shows(tuning, 4, "audit_spool_replay_interval"@, value);
    }
    if let Some(x) = tuning.audit_stats_poll_interval {
        let value = outside::toml_string(x.text@);
        assert(
            fields[5].name@ == "audit_stats_poll_interval"@ && value_of(fields[5]) == Some(value)
        ) by {
            reveal(startup);
            lemma_time_line(
                "audit_stats_poll_interval",
                &tuning.audit_stats_poll_interval,
                TimeRule::Positive,
            );
        }
        lemma_startup_shows(tuning, 5, "audit_stats_poll_interval"@, value);
    }
    if let Some(x) = tuning.audit_partition_wait_timeout {
        let value = outside::toml_string(x.text@);
        assert(
            fields[6].name@ == "audit_partition_wait_timeout"@ && value_of(fields[6]) == Some(value)
        ) by {
            reveal(startup);
            lemma_time_line(
                "audit_partition_wait_timeout",
                &tuning.audit_partition_wait_timeout,
                TimeRule::Positive,
            );
        }
        lemma_startup_shows(tuning, 6, "audit_partition_wait_timeout"@, value);
    }
    if let Some(x) = tuning.liveness_tick_interval {
        let value = outside::toml_string(x.text@);
        assert(
            fields[7].name@ == "liveness_tick_interval"@ && value_of(fields[7]) == Some(value)
        ) by {
            reveal(startup);
            lemma_time_line(
                "liveness_tick_interval",
                &tuning.liveness_tick_interval,
                TimeRule::Positive,
            );
        }
        lemma_startup_shows(tuning, 7, "liveness_tick_interval"@, value);
    }
    if let Some(x) = tuning.gauge_poll_interval {
        let value = outside::toml_string(x.text@);
        assert(fields[8].name@ == "gauge_poll_interval"@ && value_of(fields[8]) == Some(value)) by {
            reveal(startup);
            lemma_time_line("gauge_poll_interval", &tuning.gauge_poll_interval, TimeRule::Positive);
        }
        lemma_startup_shows(tuning, 8, "gauge_poll_interval"@, value);
    }
    if let Some(x) = tuning.cleaner_interval {
        let value = outside::toml_string(x.text@);
        assert(fields[9].name@ == "cleaner_interval"@ && value_of(fields[9]) == Some(value)) by {
            reveal(startup);
            lemma_time_line("cleaner_interval", &tuning.cleaner_interval, TimeRule::Positive);
        }
        lemma_startup_shows(tuning, 9, "cleaner_interval"@, value);
    }
    if let Some(x) = tuning.isr_scan_interval {
        let value = outside::toml_string(x.text@);
        assert(fields[10].name@ == "isr_scan_interval"@ && value_of(fields[10]) == Some(value)) by {
            reveal(startup);
            lemma_time_line("isr_scan_interval", &tuning.isr_scan_interval, TimeRule::Positive);
        }
        lemma_startup_shows(tuning, 10, "isr_scan_interval"@, value);
    }
    if let Some(x) = tuning.future_log_move_retry_backoff {
        let value = outside::toml_string(x.text@);
        assert(
            fields[11].name@ == "future_log_move_retry_backoff"@
                && value_of(fields[11]) == Some(value)
        ) by {
            reveal(startup);
            lemma_time_line(
                "future_log_move_retry_backoff",
                &tuning.future_log_move_retry_backoff,
                TimeRule::Positive,
            );
        }
        lemma_startup_shows(tuning, 11, "future_log_move_retry_backoff"@, value);
    }
}

proof fn lemma_client_metrics_shows(tuning: BrokerTuning, k: int, key: Seq<char>, value: Seq<char>)
    requires
        0 <= k < client_metrics(&tuning).len(),
        client_metrics(&tuning)[k].name@ == key,
        value_of(client_metrics(&tuning)[k]) == Some(value),
    ensures
        shows(tuning, key, value),
{
    let before = startup(&tuning);
    let fields = startup(&tuning) + client_metrics(&tuning) + replication(&tuning) + group(&tuning)
        + capacity(&tuning) + socket(&tuning) + producer(&tuning) + controller(&tuning)
        + connection(&tuning) + share_group(&tuning) + streams_group(&tuning);
    lemma_body(tuning);
    assert(fields[before.len() + k] == client_metrics(&tuning)[k]);
    lemma_shows(tuning, fields, before.len() + k, key, value);
}

/// The table shows each of the fields for client metrics, remote-log metadata and
/// outbound requests that is set: the key
/// of its name has its value.
pub proof fn lemma_client_metrics_shown(tuning: BrokerTuning)
    ensures
        tuning.client_metrics_eviction_tick matches Some(x)
            ==> shows(tuning, "client_metrics_eviction_tick"@, outside::toml_string(x.text@)),
        tuning.client_metrics_stale_floor matches Some(x)
            ==> shows(tuning, "client_metrics_stale_floor"@, outside::toml_string(x.text@)),
        tuning.client_metrics_default_interval matches Some(x)
            ==> shows(tuning, "client_metrics_default_interval"@, outside::toml_string(x.text@)),
        tuning.client_metrics_telemetry_max matches Some(x)
            ==> shows(tuning, "client_metrics_telemetry_max"@, outside::toml_string(x.text@)),
        tuning.client_metrics_prom_snapshot_ttl matches Some(x)
            ==> shows(tuning, "client_metrics_prom_snapshot_ttl"@, outside::toml_string(x.text@)),
        tuning.rlmm_reconcile_tick matches Some(x)
            ==> shows(tuning, "rlmm_reconcile_tick"@, outside::toml_string(x.text@)),
        tuning.rlmm_bootstrap_backoff_initial matches Some(x)
            ==> shows(tuning, "rlmm_bootstrap_backoff_initial"@, outside::toml_string(x.text@)),
        tuning.rlmm_bootstrap_backoff_max matches Some(x)
            ==> shows(tuning, "rlmm_bootstrap_backoff_max"@, outside::toml_string(x.text@)),
        tuning.connection_creation_throttle_max matches Some(x)
            ==> shows(tuning, "connection_creation_throttle_max"@, outside::toml_string(x.text@)),
        tuning.opa_http_timeout matches Some(x)
            ==> shows(tuning, "opa_http_timeout"@, outside::toml_string(x.text@)),
        tuning.oauth_jwks_http_timeout matches Some(x)
            ==> shows(tuning, "oauth_jwks_http_timeout"@, outside::toml_string(x.text@)),
        tuning.auto_join_retry_backoff matches Some(x)
            ==> shows(tuning, "auto_join_retry_backoff"@, outside::toml_string(x.text@)),
        tuning.auto_join_voter_request_timeout matches Some(x)
            ==> shows(tuning, "auto_join_voter_request_timeout"@, outside::toml_string(x.text@)),
{
    let fields = client_metrics(&tuning);
    assert(fields.len() == 13) by {
        reveal(client_metrics);
    }
    if let Some(x) = tuning.client_metrics_eviction_tick {
        let value = outside::toml_string(x.text@);
        assert(
            fields[0].name@ == "client_metrics_eviction_tick"@ && value_of(fields[0]) == Some(value)
        ) by {
            reveal(client_metrics);
            lemma_time_line(
                "client_metrics_eviction_tick",
                &tuning.client_metrics_eviction_tick,
                TimeRule::Positive,
            );
        }
        lemma_client_metrics_shows(tuning, 0, "client_metrics_eviction_tick"@, value);
    }
    if let Some(x) = tuning.client_metrics_stale_floor {
        let value = outside::toml_string(x.text@);
        assert(
            fields[1].name@ == "client_metrics_stale_floor"@ && value_of(fields[1]) == Some(value)
        ) by {
            reveal(client_metrics);
            lemma_time_line(
                "client_metrics_stale_floor",
                &tuning.client_metrics_stale_floor,
                TimeRule::Positive,
            );
        }
        lemma_client_metrics_shows(tuning, 1, "client_metrics_stale_floor"@, value);
    }
    if let Some(x) = tuning.client_metrics_default_interval {
        let value = outside::toml_string(x.text@);
        assert(
            fields[2].name@ == "client_metrics_default_interval"@
                && value_of(fields[2]) == Some(value)
        ) by {
            reveal(client_metrics);
            lemma_time_line(
                "client_metrics_default_interval",
                &tuning.client_metrics_default_interval,
                TimeRule::AtMostMillis(i32::MAX),
            );
        }
        lemma_client_metrics_shows(tuning, 2, "client_metrics_default_interval"@, value);
    }
    if let Some(x) = tuning.client_metrics_telemetry_max {
        let value = outside::toml_string(x.text@);
        assert(
            fields[3].name@ == "client_metrics_telemetry_max"@ && value_of(fields[3]) == Some(value)
        ) by {
            reveal(client_metrics);
            lemma_size_line(
                "client_metrics_telemetry_max",
                &tuning.client_metrics_telemetry_max,
                2_147_483_647,
            );
        }
        lemma_client_metrics_shows(tuning, 3, "client_metrics_telemetry_max"@, value);
    }
    if let Some(x) = tuning.client_metrics_prom_snapshot_ttl {
        let value = outside::toml_string(x.text@);
        assert(
            fields[4].name@ == "client_metrics_prom_snapshot_ttl"@
                && value_of(fields[4]) == Some(value)
        ) by {
            reveal(client_metrics);
            lemma_time_line(
                "client_metrics_prom_snapshot_ttl",
                &tuning.client_metrics_prom_snapshot_ttl,
                TimeRule::Positive,
            );
        }
        lemma_client_metrics_shows(tuning, 4, "client_metrics_prom_snapshot_ttl"@, value);
    }
    if let Some(x) = tuning.rlmm_reconcile_tick {
        let value = outside::toml_string(x.text@);
        assert(fields[5].name@ == "rlmm_reconcile_tick"@ && value_of(fields[5]) == Some(value)) by {
            reveal(client_metrics);
            lemma_time_line("rlmm_reconcile_tick", &tuning.rlmm_reconcile_tick, TimeRule::Positive);
        }
        lemma_client_metrics_shows(tuning, 5, "rlmm_reconcile_tick"@, value);
    }
    if let Some(x) = tuning.rlmm_bootstrap_backoff_initial {
        let value = outside::toml_string(x.text@);
        assert(
            fields[6].name@ == "rlmm_bootstrap_backoff_initial"@
                && value_of(fields[6]) == Some(value)
        ) by {
            reveal(client_metrics);
            lemma_time_line(
                "rlmm_bootstrap_backoff_initial",
                &tuning.rlmm_bootstrap_backoff_initial,
                TimeRule::Positive,
            );
        }
        lemma_client_metrics_shows(tuning, 6, "rlmm_bootstrap_backoff_initial"@, value);
    }
    if let Some(x) = tuning.rlmm_bootstrap_backoff_max {
        let value = outside::toml_string(x.text@);
        assert(
            fields[7].name@ == "rlmm_bootstrap_backoff_max"@ && value_of(fields[7]) == Some(value)
        ) by {
            reveal(client_metrics);
            lemma_time_line(
                "rlmm_bootstrap_backoff_max",
                &tuning.rlmm_bootstrap_backoff_max,
                TimeRule::Positive,
            );
        }
        lemma_client_metrics_shows(tuning, 7, "rlmm_bootstrap_backoff_max"@, value);
    }
    if let Some(x) = tuning.connection_creation_throttle_max {
        let value = outside::toml_string(x.text@);
        assert(
            fields[8].name@ == "connection_creation_throttle_max"@
                && value_of(fields[8]) == Some(value)
        ) by {
            reveal(client_metrics);
            lemma_time_line(
                "connection_creation_throttle_max",
                &tuning.connection_creation_throttle_max,
                TimeRule::Positive,
            );
        }
        lemma_client_metrics_shows(tuning, 8, "connection_creation_throttle_max"@, value);
    }
    if let Some(x) = tuning.opa_http_timeout {
        let value = outside::toml_string(x.text@);
        assert(fields[9].name@ == "opa_http_timeout"@ && value_of(fields[9]) == Some(value)) by {
            reveal(client_metrics);
            lemma_time_line("opa_http_timeout", &tuning.opa_http_timeout, TimeRule::Positive);
        }
        lemma_client_metrics_shows(tuning, 9, "opa_http_timeout"@, value);
    }
    if let Some(x) = tuning.oauth_jwks_http_timeout {
        let value = outside::toml_string(x.text@);
        assert(
            fields[10].name@ == "oauth_jwks_http_timeout"@ && value_of(fields[10]) == Some(value)
        ) by {
            reveal(client_metrics);
            lemma_time_line(
                "oauth_jwks_http_timeout",
                &tuning.oauth_jwks_http_timeout,
                TimeRule::Positive,
            );
        }
        lemma_client_metrics_shows(tuning, 10, "oauth_jwks_http_timeout"@, value);
    }
    if let Some(x) = tuning.auto_join_retry_backoff {
        let value = outside::toml_string(x.text@);
        assert(
            fields[11].name@ == "auto_join_retry_backoff"@ && value_of(fields[11]) == Some(value)
        ) by {
            reveal(client_metrics);
            lemma_time_line(
                "auto_join_retry_backoff",
                &tuning.auto_join_retry_backoff,
                TimeRule::Positive,
            );
        }
        lemma_client_metrics_shows(tuning, 11, "auto_join_retry_backoff"@, value);
    }
    if let Some(x) = tuning.auto_join_voter_request_timeout {
        let value = outside::toml_string(x.text@);
        assert(
            fields[12].name@ == "auto_join_voter_request_timeout"@
                && value_of(fields[12]) == Some(value)
        ) by {
            reveal(client_metrics);
            lemma_time_line(
                "auto_join_voter_request_timeout",
                &tuning.auto_join_voter_request_timeout,
                TimeRule::AtMostMillis(i32::MAX),
            );
        }
        lemma_client_metrics_shows(tuning, 12, "auto_join_voter_request_timeout"@, value);
    }
}

proof fn lemma_replication_shows(tuning: BrokerTuning, k: int, key: Seq<char>, value: Seq<char>)
    requires
        0 <= k < replication(&tuning).len(),
        replication(&tuning)[k].name@ == key,
        value_of(replication(&tuning)[k]) == Some(value),
    ensures
        shows(tuning, key, value),
{
    let before = startup(&tuning) + client_metrics(&tuning);
    let fields = startup(&tuning) + client_metrics(&tuning) + replication(&tuning) + group(&tuning)
        + capacity(&tuning) + socket(&tuning) + producer(&tuning) + controller(&tuning)
        + connection(&tuning) + share_group(&tuning) + streams_group(&tuning);
    lemma_body(tuning);
    assert(fields[before.len() + k] == replication(&tuning)[k]);
    lemma_shows(tuning, fields, before.len() + k, key, value);
}

/// The table shows each of the fields for replication that is set: the key
/// of its name has its value.
pub proof fn lemma_replication_shown(tuning: BrokerTuning)
    ensures
        tuning.replication_fetch_max matches Some(x)
            ==> shows(tuning, "replication_fetch_max"@, outside::toml_string(x.text@)),
        tuning.replication_fetch_max_wait matches Some(x)
            ==> shows(tuning, "replication_fetch_max_wait"@, outside::toml_string(x.text@)),
        tuning.replication_fetch_min matches Some(x)
            ==> shows(tuning, "replication_fetch_min"@, outside::toml_string(x.text@)),
        tuning.replication_throttle_exhausted_backoff matches Some(x)
            ==> shows(
                tuning,
                "replication_throttle_exhausted_backoff"@,
                outside::toml_string(x.text@),
            ),
        tuning.replication_send_error_backoff matches Some(x)
            ==> shows(tuning, "replication_send_error_backoff"@, outside::toml_string(x.text@)),
        tuning.replication_unknown_topic_retry_delay matches Some(x)
            ==> shows(
                tuning,
                "replication_unknown_topic_retry_delay"@,
                outside::toml_string(x.text@),
            ),
        tuning.replication_epoch_fence_backoff matches Some(x)
            ==> shows(tuning, "replication_epoch_fence_backoff"@, outside::toml_string(x.text@)),
        tuning.replication_unexpected_error_backoff matches Some(x)
            ==> shows(
                tuning,
                "replication_unexpected_error_backoff"@,
                outside::toml_string(x.text@),
            ),
        tuning.replication_reconnect_initial_delay matches Some(x)
            ==> shows(
                tuning,
                "replication_reconnect_initial_delay"@,
                outside::toml_string(x.text@),
            ),
        tuning.replication_reconnect_delay_cap matches Some(x)
            ==> shows(tuning, "replication_reconnect_delay_cap"@, outside::toml_string(x.text@)),
{
    let fields = replication(&tuning);
    assert(fields.len() == 10) by {
        reveal(replication);
    }
    if let Some(x) = tuning.replication_fetch_max {
        let value = outside::toml_string(x.text@);
        assert(
            fields[0].name@ == "replication_fetch_max"@ && value_of(fields[0]) == Some(value)
        ) by {
            reveal(replication);
            lemma_size_line("replication_fetch_max", &tuning.replication_fetch_max, 2_147_483_647);
        }
        lemma_replication_shows(tuning, 0, "replication_fetch_max"@, value);
    }
    if let Some(x) = tuning.replication_fetch_max_wait {
        let value = outside::toml_string(x.text@);
        assert(
            fields[1].name@ == "replication_fetch_max_wait"@ && value_of(fields[1]) == Some(value)
        ) by {
            reveal(replication);
            lemma_time_line(
                "replication_fetch_max_wait",
                &tuning.replication_fetch_max_wait,
                TimeRule::AtMostMillis(i32::MAX),
            );
        }
        lemma_replication_shows(tuning, 1, "replication_fetch_max_wait"@, value);
    }
    if let Some(x) = tuning.replication_fetch_min {
        let value = outside::toml_string(x.text@);
        assert(
            fields[2].name@ == "replication_fetch_min"@ && value_of(fields[2]) == Some(value)
        ) by {
            reveal(replication);
            lemma_size_line("replication_fetch_min", &tuning.replication_fetch_min, 2_147_483_647);
        }
        lemma_replication_shows(tuning, 2, "replication_fetch_min"@, value);
    }
    if let Some(x) = tuning.replication_throttle_exhausted_backoff {
        let value = outside::toml_string(x.text@);
        assert(
            fields[3].name@ == "replication_throttle_exhausted_backoff"@
                && value_of(fields[3]) == Some(value)
        ) by {
            reveal(replication);
            lemma_time_line(
                "replication_throttle_exhausted_backoff",
                &tuning.replication_throttle_exhausted_backoff,
                TimeRule::Positive,
            );
        }
        lemma_replication_shows(tuning, 3, "replication_throttle_exhausted_backoff"@, value);
    }
    if let Some(x) = tuning.replication_send_error_backoff {
        let value = outside::toml_string(x.text@);
        assert(
            fields[4].name@ == "replication_send_error_backoff"@
                && value_of(fields[4]) == Some(value)
        ) by {
            reveal(replication);
            lemma_time_line(
                "replication_send_error_backoff",
                &tuning.replication_send_error_backoff,
                TimeRule::Positive,
            );
        }
        lemma_replication_shows(tuning, 4, "replication_send_error_backoff"@, value);
    }
    if let Some(x) = tuning.replication_unknown_topic_retry_delay {
        let value = outside::toml_string(x.text@);
        assert(
            fields[5].name@ == "replication_unknown_topic_retry_delay"@
                && value_of(fields[5]) == Some(value)
        ) by {
            reveal(replication);
            lemma_time_line(
                "replication_unknown_topic_retry_delay",
                &tuning.replication_unknown_topic_retry_delay,
                TimeRule::Positive,
            );
        }
        lemma_replication_shows(tuning, 5, "replication_unknown_topic_retry_delay"@, value);
    }
    if let Some(x) = tuning.replication_epoch_fence_backoff {
        let value = outside::toml_string(x.text@);
        assert(
            fields[6].name@ == "replication_epoch_fence_backoff"@
                && value_of(fields[6]) == Some(value)
        ) by {
            reveal(replication);
            lemma_time_line(
                "replication_epoch_fence_backoff",
                &tuning.replication_epoch_fence_backoff,
                TimeRule::Positive,
            );
        }
        lemma_replication_shows(tuning, 6, "replication_epoch_fence_backoff"@, value);
    }
    if let Some(x) = tuning.replication_unexpected_error_backoff {
        let value = outside::toml_string(x.text@);
        assert(
            fields[7].name@ == "replication_unexpected_error_backoff"@
                && value_of(fields[7]) == Some(value)
        ) by {
            reveal(replication);
            lemma_time_line(
                "replication_unexpected_error_backoff",
                &tuning.replication_unexpected_error_backoff,
                TimeRule::Positive,
            );
        }
        lemma_replication_shows(tuning, 7, "replication_unexpected_error_backoff"@, value);
    }
    if let Some(x) = tuning.replication_reconnect_initial_delay {
        let value = outside::toml_string(x.text@);
        assert(
            fields[8].name@ == "replication_reconnect_initial_delay"@
                && value_of(fields[8]) == Some(value)
        ) by {
            reveal(replication);
            lemma_time_line(
                "replication_reconnect_initial_delay",
                &tuning.replication_reconnect_initial_delay,
                TimeRule::Positive,
            );
        }
        lemma_replication_shows(tuning, 8, "replication_reconnect_initial_delay"@, value);
    }
    if let Some(x) = tuning.replication_reconnect_delay_cap {
        let value = outside::toml_string(x.text@);
        assert(
            fields[9].name@ == "replication_reconnect_delay_cap"@
                && value_of(fields[9]) == Some(value)
        ) by {
            reveal(replication);
            lemma_time_line(
                "replication_reconnect_delay_cap",
                &tuning.replication_reconnect_delay_cap,
                TimeRule::Positive,
            );
        }
        lemma_replication_shows(tuning, 9, "replication_reconnect_delay_cap"@, value);
    }
}

proof fn lemma_group_shows(tuning: BrokerTuning, k: int, key: Seq<char>, value: Seq<char>)
    requires
        0 <= k < group(&tuning).len(),
        group(&tuning)[k].name@ == key,
        value_of(group(&tuning)[k]) == Some(value),
    ensures
        shows(tuning, key, value),
{
    let before = startup(&tuning) + client_metrics(&tuning) + replication(&tuning);
    let fields = startup(&tuning) + client_metrics(&tuning) + replication(&tuning) + group(&tuning)
        + capacity(&tuning) + socket(&tuning) + producer(&tuning) + controller(&tuning)
        + connection(&tuning) + share_group(&tuning) + streams_group(&tuning);
    lemma_body(tuning);
    assert(fields[before.len() + k] == group(&tuning)[k]);
    lemma_shows(tuning, fields, before.len() + k, key, value);
}

/// The table shows each of the fields for coordinators, consumer groups and recovery that
/// is set: the key
/// of its name has its value.
pub proof fn lemma_group_shown(tuning: BrokerTuning)
    ensures
        tuning.coordinator_session_expiry_tick matches Some(x)
            ==> shows(tuning, "coordinator_session_expiry_tick"@, outside::toml_string(x.text@)),
        tuning.coordinator_shutdown_ack_timeout matches Some(x)
            ==> shows(tuning, "coordinator_shutdown_ack_timeout"@, outside::toml_string(x.text@)),
        tuning.consumer_group_session_timeout matches Some(x)
            ==> shows(tuning, "consumer_group_session_timeout"@, outside::toml_string(x.text@)),
        tuning.consumer_group_heartbeat_interval matches Some(x)
            ==> shows(tuning, "consumer_group_heartbeat_interval"@, outside::toml_string(x.text@)),
        tuning.consumer_group_min_session_timeout matches Some(x)
            ==> shows(tuning, "consumer_group_min_session_timeout"@, outside::toml_string(x.text@)),
        tuning.consumer_group_max_session_timeout matches Some(x)
            ==> shows(tuning, "consumer_group_max_session_timeout"@, outside::toml_string(x.text@)),
        tuning.consumer_group_min_heartbeat_interval matches Some(x)
            ==> shows(
                tuning,
                "consumer_group_min_heartbeat_interval"@,
                outside::toml_string(x.text@),
            ),
        tuning.consumer_group_max_heartbeat_interval matches Some(x)
            ==> shows(
                tuning,
                "consumer_group_max_heartbeat_interval"@,
                outside::toml_string(x.text@),
            ),
        tuning.consumer_group_max_size matches Some(x)
            ==> shows(tuning, "consumer_group_max_size"@, text::signed_decimal(x as int)),
        tuning.classic_group_initial_rebalance_delay matches Some(x)
            ==> shows(
                tuning,
                "classic_group_initial_rebalance_delay"@,
                outside::toml_string(x.text@),
            ),
        tuning.sync_group_follower_wait matches Some(x)
            ==> shows(tuning, "sync_group_follower_wait"@, outside::toml_string(x.text@)),
        tuning.unclean_recovery_aggressive_deadline matches Some(x)
            ==> shows(
                tuning,
                "unclean_recovery_aggressive_deadline"@,
                outside::toml_string(x.text@),
            ),
        tuning.unclean_recovery_balanced_deadline matches Some(x)
            ==> shows(tuning, "unclean_recovery_balanced_deadline"@, outside::toml_string(x.text@)),
        tuning.operator_recovery_deadline matches Some(x)
            ==> shows(tuning, "operator_recovery_deadline"@, outside::toml_string(x.text@)),
        tuning.quota_throttle_max matches Some(x)
            ==> shows(tuning, "quota_throttle_max"@, outside::toml_string(x.text@)),
{
    let fields = group(&tuning);
    assert(fields.len() == 15) by {
        reveal(group);
    }
    if let Some(x) = tuning.coordinator_session_expiry_tick {
        let value = outside::toml_string(x.text@);
        assert(
            fields[0].name@ == "coordinator_session_expiry_tick"@
                && value_of(fields[0]) == Some(value)
        ) by {
            reveal(group);
            lemma_time_line(
                "coordinator_session_expiry_tick",
                &tuning.coordinator_session_expiry_tick,
                TimeRule::Positive,
            );
        }
        lemma_group_shows(tuning, 0, "coordinator_session_expiry_tick"@, value);
    }
    if let Some(x) = tuning.coordinator_shutdown_ack_timeout {
        let value = outside::toml_string(x.text@);
        assert(
            fields[1].name@ == "coordinator_shutdown_ack_timeout"@
                && value_of(fields[1]) == Some(value)
        ) by {
            reveal(group);
            lemma_time_line(
                "coordinator_shutdown_ack_timeout",
                &tuning.coordinator_shutdown_ack_timeout,
                TimeRule::Positive,
            );
        }
        lemma_group_shows(tuning, 1, "coordinator_shutdown_ack_timeout"@, value);
    }
    if let Some(x) = tuning.consumer_group_session_timeout {
        let value = outside::toml_string(x.text@);
        assert(
            fields[2].name@ == "consumer_group_session_timeout"@
                && value_of(fields[2]) == Some(value)
        ) by {
            reveal(group);
            lemma_time_line(
                "consumer_group_session_timeout",
                &tuning.consumer_group_session_timeout,
                TimeRule::Positive,
            );
        }
        lemma_group_shows(tuning, 2, "consumer_group_session_timeout"@, value);
    }
    if let Some(x) = tuning.consumer_group_heartbeat_interval {
        let value = outside::toml_string(x.text@);
        assert(
            fields[3].name@ == "consumer_group_heartbeat_interval"@
                && value_of(fields[3]) == Some(value)
        ) by {
            reveal(group);
            lemma_time_line(
                "consumer_group_heartbeat_interval",
                &tuning.consumer_group_heartbeat_interval,
                TimeRule::Positive,
            );
        }
        lemma_group_shows(tuning, 3, "consumer_group_heartbeat_interval"@, value);
    }
    if let Some(x) = tuning.consumer_group_min_session_timeout {
        let value = outside::toml_string(x.text@);
        assert(
            fields[4].name@ == "consumer_group_min_session_timeout"@
                && value_of(fields[4]) == Some(value)
        ) by {
            reveal(group);
            lemma_time_line(
                "consumer_group_min_session_timeout",
                &tuning.consumer_group_min_session_timeout,
                TimeRule::Positive,
            );
        }
        lemma_group_shows(tuning, 4, "consumer_group_min_session_timeout"@, value);
    }
    if let Some(x) = tuning.consumer_group_max_session_timeout {
        let value = outside::toml_string(x.text@);
        assert(
            fields[5].name@ == "consumer_group_max_session_timeout"@
                && value_of(fields[5]) == Some(value)
        ) by {
            reveal(group);
            lemma_time_line(
                "consumer_group_max_session_timeout",
                &tuning.consumer_group_max_session_timeout,
                TimeRule::Positive,
            );
        }
        lemma_group_shows(tuning, 5, "consumer_group_max_session_timeout"@, value);
    }
    if let Some(x) = tuning.consumer_group_min_heartbeat_interval {
        let value = outside::toml_string(x.text@);
        assert(
            fields[6].name@ == "consumer_group_min_heartbeat_interval"@
                && value_of(fields[6]) == Some(value)
        ) by {
            reveal(group);
            lemma_time_line(
                "consumer_group_min_heartbeat_interval",
                &tuning.consumer_group_min_heartbeat_interval,
                TimeRule::Positive,
            );
        }
        lemma_group_shows(tuning, 6, "consumer_group_min_heartbeat_interval"@, value);
    }
    if let Some(x) = tuning.consumer_group_max_heartbeat_interval {
        let value = outside::toml_string(x.text@);
        assert(
            fields[7].name@ == "consumer_group_max_heartbeat_interval"@
                && value_of(fields[7]) == Some(value)
        ) by {
            reveal(group);
            lemma_time_line(
                "consumer_group_max_heartbeat_interval",
                &tuning.consumer_group_max_heartbeat_interval,
                TimeRule::Positive,
            );
        }
        lemma_group_shows(tuning, 7, "consumer_group_max_heartbeat_interval"@, value);
    }
    if let Some(x) = tuning.consumer_group_max_size {
        let value = text::signed_decimal(x as int);
        assert(
            fields[8].name@ == "consumer_group_max_size"@ && value_of(fields[8]) == Some(value)
        ) by {
            reveal(group);
            lemma_count_line(
                "consumer_group_max_size",
                Value::PositiveUsize(tuning.consumer_group_max_size),
                whole_usize(tuning.consumer_group_max_size),
            );
        }
        lemma_group_shows(tuning, 8, "consumer_group_max_size"@, value);
    }
    if let Some(x) = tuning.classic_group_initial_rebalance_delay {
        let value = outside::toml_string(x.text@);
        assert(
            fields[9].name@ == "classic_group_initial_rebalance_delay"@
                && value_of(fields[9]) == Some(value)
        ) by {
            reveal(group);
            lemma_time_line(
                "classic_group_initial_rebalance_delay",
                &tuning.classic_group_initial_rebalance_delay,
                TimeRule::Positive,
            );
        }
        lemma_group_shows(tuning, 9, "classic_group_initial_rebalance_delay"@, value);
    }
    if let Some(x) = tuning.sync_group_follower_wait {
        let value = outside::toml_string(x.text@);
        assert(
            fields[10].name@ == "sync_group_follower_wait"@ && value_of(fields[10]) == Some(value)
        ) by {
            reveal(group);
            lemma_time_line(
                "sync_group_follower_wait",
                &tuning.sync_group_follower_wait,
                TimeRule::Positive,
            );
        }
        lemma_group_shows(tuning, 10, "sync_group_follower_wait"@, value);
    }
    if let Some(x) = tuning.unclean_recovery_aggressive_deadline {
        let value = outside::toml_string(x.text@);
        assert(
            fields[11].name@ == "unclean_recovery_aggressive_deadline"@
                && value_of(fields[11]) == Some(value)
        ) by {
            reveal(group);
            lemma_time_line(
                "unclean_recovery_aggressive_deadline",
                &tuning.unclean_recovery_aggressive_deadline,
                TimeRule::Positive,
            );
        }
        lemma_group_shows(tuning, 11, "unclean_recovery_aggressive_deadline"@, value);
    }
    if let Some(x) = tuning.unclean_recovery_balanced_deadline {
        let value = outside::toml_string(x.text@);
        assert(
            fields[12].name@ == "unclean_recovery_balanced_deadline"@
                && value_of(fields[12]) == Some(value)
        ) by {
            reveal(group);
            lemma_time_line(
                "unclean_recovery_balanced_deadline",
                &tuning.unclean_recovery_balanced_deadline,
                TimeRule::Positive,
            );
        }
        lemma_group_shows(tuning, 12, "unclean_recovery_balanced_deadline"@, value);
    }
    if let Some(x) = tuning.operator_recovery_deadline {
        let value = outside::toml_string(x.text@);
        assert(
            fields[13].name@ == "operator_recovery_deadline"@ && value_of(fields[13]) == Some(value)
        ) by {
            reveal(group);
            lemma_time_line(
                "operator_recovery_deadline",
                &tuning.operator_recovery_deadline,
                TimeRule::Positive,
            );
        }
        lemma_group_shows(tuning, 13, "operator_recovery_deadline"@, value);
    }
    if let Some(x) = tuning.quota_throttle_max {
        let value = outside::toml_string(x.text@);
        assert(
            fields[14].name@ == "quota_throttle_max"@ && value_of(fields[14]) == Some(value)
        ) by {
            reveal(group);
            lemma_time_line("quota_throttle_max", &tuning.quota_throttle_max, TimeRule::Positive);
        }
        lemma_group_shows(tuning, 14, "quota_throttle_max"@, value);
    }
}

proof fn lemma_capacity_shows(tuning: BrokerTuning, k: int, key: Seq<char>, value: Seq<char>)
    requires
        0 <= k < capacity(&tuning).len(),
        capacity(&tuning)[k].name@ == key,
        value_of(capacity(&tuning)[k]) == Some(value),
    ensures
        shows(tuning, key, value),
{
    let before = startup(&tuning) + client_metrics(&tuning) + replication(&tuning) + group(&tuning);
    let fields = startup(&tuning) + client_metrics(&tuning) + replication(&tuning) + group(&tuning)
        + capacity(&tuning) + socket(&tuning) + producer(&tuning) + controller(&tuning)
        + connection(&tuning) + share_group(&tuning) + streams_group(&tuning);
    lemma_body(tuning);
    assert(fields[before.len() + k] == capacity(&tuning)[k]);
    lemma_shows(tuning, fields, before.len() + k, key, value);
}

/// The table shows each of the fields for queue capacities and the diskless write-ahead
/// log that is set: the key
/// of its name has its value.
pub proof fn lemma_capacity_shown(tuning: BrokerTuning)
    ensures
        tuning.self_registration_max_attempts matches Some(x)
            ==> shows(tuning, "self_registration_max_attempts"@, text::signed_decimal(x as int)),
        tuning.observer_fetch_max matches Some(x)
            ==> shows(tuning, "observer_fetch_max"@, outside::toml_string(x.text@)),
        tuning.audit_event_queue_capacity matches Some(x)
            ==> shows(tuning, "audit_event_queue_capacity"@, text::signed_decimal(x as int)),
        tuning.audit_tail_window_offsets matches Some(x)
            ==> shows(tuning, "audit_tail_window_offsets"@, text::signed_decimal(x as int)),
        tuning.audit_tail_read_max matches Some(x)
            ==> shows(tuning, "audit_tail_read_max"@, outside::toml_string(x.text@)),
        tuning.offsets_topic_metadata_wait_timeout matches Some(x)
            ==> shows(
                tuning,
                "offsets_topic_metadata_wait_timeout"@,
                outside::toml_string(x.text@),
            ),
        tuning.client_metrics_stale_push_intervals matches Some(x)
            ==> shows(
                tuning,
                "client_metrics_stale_push_intervals"@,
                text::signed_decimal(x as int),
            ),
        tuning.client_metrics_otlp_queue_capacity matches Some(x)
            ==> shows(
                tuning,
                "client_metrics_otlp_queue_capacity"@,
                text::signed_decimal(x as int),
            ),
        tuning.coordinator_actor_mailbox_capacity matches Some(x)
            ==> shows(
                tuning,
                "coordinator_actor_mailbox_capacity"@,
                text::signed_decimal(x as int),
            ),
        tuning.diskless_wal_local_replica_count matches Some(x)
            ==> shows(tuning, "diskless_wal_local_replica_count"@, text::signed_decimal(x as int)),
        tuning.diskless_wal_flush_interval matches Some(x)
            ==> shows(tuning, "diskless_wal_flush_interval"@, outside::toml_string(x.text@)),
        tuning.diskless_wal_flush_max_size matches Some(x)
            ==> shows(tuning, "diskless_wal_flush_max_size"@, outside::toml_string(x.text@)),
        tuning.diskless_wal_trim_safety_lag matches Some(x)
            ==> shows(tuning, "diskless_wal_trim_safety_lag"@, text::signed_decimal(x as int)),
        tuning.diskless_wal_index_projection_timeout matches Some(x)
            ==> shows(
                tuning,
                "diskless_wal_index_projection_timeout"@,
                outside::toml_string(x.text@),
            ),
        tuning.unclean_recovery_queue_capacity matches Some(x)
            ==> shows(tuning, "unclean_recovery_queue_capacity"@, text::signed_decimal(x as int)),
        tuning.share_recovery_read_max matches Some(x)
            ==> shows(tuning, "share_recovery_read_max"@, outside::toml_string(x.text@)),
{
    let fields = capacity(&tuning);
    assert(fields.len() == 16) by {
        reveal(capacity);
    }
    if let Some(x) = tuning.self_registration_max_attempts {
        let value = text::signed_decimal(x as int);
        assert(
            fields[0].name@ == "self_registration_max_attempts"@
                && value_of(fields[0]) == Some(value)
        ) by {
            reveal(capacity);
            lemma_count_line(
                "self_registration_max_attempts",
                Value::PositiveU32(tuning.self_registration_max_attempts),
                whole_u32(tuning.self_registration_max_attempts),
            );
        }
        lemma_capacity_shows(tuning, 0, "self_registration_max_attempts"@, value);
    }
    if let Some(x) = tuning.observer_fetch_max {
        let value = outside::toml_string(x.text@);
        assert(fields[1].name@ == "observer_fetch_max"@ && value_of(fields[1]) == Some(value)) by {
            reveal(capacity);
            lemma_size_line("observer_fetch_max", &tuning.observer_fetch_max, 4_294_967_295);
        }
        lemma_capacity_shows(tuning, 1, "observer_fetch_max"@, value);
    }
    if let Some(x) = tuning.audit_event_queue_capacity {
        let value = text::signed_decimal(x as int);
        assert(
            fields[2].name@ == "audit_event_queue_capacity"@ && value_of(fields[2]) == Some(value)
        ) by {
            reveal(capacity);
            lemma_count_line(
                "audit_event_queue_capacity",
                Value::PositiveUsize(tuning.audit_event_queue_capacity),
                whole_usize(tuning.audit_event_queue_capacity),
            );
        }
        lemma_capacity_shows(tuning, 2, "audit_event_queue_capacity"@, value);
    }
    if let Some(x) = tuning.audit_tail_window_offsets {
        let value = text::signed_decimal(x as int);
        assert(
            fields[3].name@ == "audit_tail_window_offsets"@ && value_of(fields[3]) == Some(value)
        ) by {
            reveal(capacity);
            lemma_count_line(
                "audit_tail_window_offsets",
                Value::PositiveI64(tuning.audit_tail_window_offsets),
                whole_i64(tuning.audit_tail_window_offsets),
            );
        }
        lemma_capacity_shows(tuning, 3, "audit_tail_window_offsets"@, value);
    }
    if let Some(x) = tuning.audit_tail_read_max {
        let value = outside::toml_string(x.text@);
        assert(fields[4].name@ == "audit_tail_read_max"@ && value_of(fields[4]) == Some(value)) by {
            reveal(capacity);
            lemma_size_line("audit_tail_read_max", &tuning.audit_tail_read_max, usize::MAX as u64);
        }
        lemma_capacity_shows(tuning, 4, "audit_tail_read_max"@, value);
    }
    if let Some(x) = tuning.offsets_topic_metadata_wait_timeout {
        let value = outside::toml_string(x.text@);
        assert(
            fields[5].name@ == "offsets_topic_metadata_wait_timeout"@
                && value_of(fields[5]) == Some(value)
        ) by {
            reveal(capacity);
            lemma_time_line(
                "offsets_topic_metadata_wait_timeout",
                &tuning.offsets_topic_metadata_wait_timeout,
                TimeRule::Positive,
            );
        }
        lemma_capacity_shows(tuning, 5, "offsets_topic_metadata_wait_timeout"@, value);
    }
    if let Some(x) = tuning.client_metrics_stale_push_intervals {
        let value = text::signed_decimal(x as int);
        assert(
            fields[6].name@ == "client_metrics_stale_push_intervals"@
                && value_of(fields[6]) == Some(value)
        ) by {
            reveal(capacity);
            lemma_count_line(
                "client_metrics_stale_push_intervals",
                Value::PositiveU32(tuning.client_metrics_stale_push_intervals),
                whole_u32(tuning.client_metrics_stale_push_intervals),
            );
        }
        lemma_capacity_shows(tuning, 6, "client_metrics_stale_push_intervals"@, value);
    }
    if let Some(x) = tuning.client_metrics_otlp_queue_capacity {
        let value = text::signed_decimal(x as int);
        assert(
            fields[7].name@ == "client_metrics_otlp_queue_capacity"@
                && value_of(fields[7]) == Some(value)
        ) by {
            reveal(capacity);
            lemma_count_line(
                "client_metrics_otlp_queue_capacity",
                Value::PositiveUsize(tuning.client_metrics_otlp_queue_capacity),
                whole_usize(tuning.client_metrics_otlp_queue_capacity),
            );
        }
        lemma_capacity_shows(tuning, 7, "client_metrics_otlp_queue_capacity"@, value);
    }
    if let Some(x) = tuning.coordinator_actor_mailbox_capacity {
        let value = text::signed_decimal(x as int);
        assert(
            fields[8].name@ == "coordinator_actor_mailbox_capacity"@
                && value_of(fields[8]) == Some(value)
        ) by {
            reveal(capacity);
            lemma_count_line(
                "coordinator_actor_mailbox_capacity",
                Value::PositiveUsize(tuning.coordinator_actor_mailbox_capacity),
                whole_usize(tuning.coordinator_actor_mailbox_capacity),
            );
        }
        lemma_capacity_shows(tuning, 8, "coordinator_actor_mailbox_capacity"@, value);
    }
    if let Some(x) = tuning.diskless_wal_local_replica_count {
        let value = text::signed_decimal(x as int);
        assert(
            fields[9].name@ == "diskless_wal_local_replica_count"@
                && value_of(fields[9]) == Some(value)
        ) by {
            reveal(capacity);
            lemma_count_line(
                "diskless_wal_local_replica_count",
                Value::PositiveUsize(tuning.diskless_wal_local_replica_count),
                whole_usize(tuning.diskless_wal_local_replica_count),
            );
        }
        lemma_capacity_shows(tuning, 9, "diskless_wal_local_replica_count"@, value);
    }
    if let Some(x) = tuning.diskless_wal_flush_interval {
        let value = outside::toml_string(x.text@);
        assert(
            fields[10].name@ == "diskless_wal_flush_interval"@
                && value_of(fields[10]) == Some(value)
        ) by {
            reveal(capacity);
            lemma_time_line(
                "diskless_wal_flush_interval",
                &tuning.diskless_wal_flush_interval,
                TimeRule::Positive,
            );
        }
        lemma_capacity_shows(tuning, 10, "diskless_wal_flush_interval"@, value);
    }
    if let Some(x) = tuning.diskless_wal_flush_max_size {
        let value = outside::toml_string(x.text@);
        assert(
            fields[11].name@ == "diskless_wal_flush_max_size"@
                && value_of(fields[11]) == Some(value)
        ) by {
            reveal(capacity);
            lemma_size_line(
                "diskless_wal_flush_max_size",
                &tuning.diskless_wal_flush_max_size,
                usize::MAX as u64,
            );
        }
        lemma_capacity_shows(tuning, 11, "diskless_wal_flush_max_size"@, value);
    }
    if let Some(x) = tuning.diskless_wal_trim_safety_lag {
        let value = text::signed_decimal(x as int);
        assert(
            fields[12].name@ == "diskless_wal_trim_safety_lag"@
                && value_of(fields[12]) == Some(value)
        ) by {
            reveal(capacity);
            lemma_count_line(
                "diskless_wal_trim_safety_lag",
                Value::NonnegativeI64(tuning.diskless_wal_trim_safety_lag),
                whole_i64(tuning.diskless_wal_trim_safety_lag),
            );
        }
        lemma_capacity_shows(tuning, 12, "diskless_wal_trim_safety_lag"@, value);
    }
    if let Some(x) = tuning.diskless_wal_index_projection_timeout {
        let value = outside::toml_string(x.text@);
        assert(
            fields[13].name@ == "diskless_wal_index_projection_timeout"@
                && value_of(fields[13]) == Some(value)
        ) by {
            reveal(capacity);
            lemma_time_line(
                "diskless_wal_index_projection_timeout",
                &tuning.diskless_wal_index_projection_timeout,
                TimeRule::Positive,
            );
        }
        lemma_capacity_shows(tuning, 13, "diskless_wal_index_projection_timeout"@, value);
    }
    if let Some(x) = tuning.unclean_recovery_queue_capacity {
        let value = text::signed_decimal(x as int);
        assert(
            fields[14].name@ == "unclean_recovery_queue_capacity"@
                && value_of(fields[14]) == Some(value)
        ) by {
            reveal(capacity);
            lemma_count_line(
                "unclean_recovery_queue_capacity",
                Value::PositiveUsize(tuning.unclean_recovery_queue_capacity),
                whole_usize(tuning.unclean_recovery_queue_capacity),
            );
        }
        lemma_capacity_shows(tuning, 14, "unclean_recovery_queue_capacity"@, value);
    }
    if let Some(x) = tuning.share_recovery_read_max {
        let value = outside::toml_string(x.text@);
        assert(
            fields[15].name@ == "share_recovery_read_max"@ && value_of(fields[15]) == Some(value)
        ) by {
            reveal(capacity);
            lemma_size_line(
                "share_recovery_read_max",
                &tuning.share_recovery_read_max,
                usize::MAX as u64,
            );
        }
        lemma_capacity_shows(tuning, 15, "share_recovery_read_max"@, value);
    }
}

proof fn lemma_socket_shows(tuning: BrokerTuning, k: int, key: Seq<char>, value: Seq<char>)
    requires
        0 <= k < socket(&tuning).len(),
        socket(&tuning)[k].name@ == key,
        value_of(socket(&tuning)[k]) == Some(value),
    ensures
        shows(tuning, key, value),
{
    let before = startup(&tuning) + client_metrics(&tuning) + replication(&tuning) + group(&tuning)
        + capacity(&tuning);
    let fields = startup(&tuning) + client_metrics(&tuning) + replication(&tuning) + group(&tuning)
        + capacity(&tuning) + socket(&tuning) + producer(&tuning) + controller(&tuning)
        + connection(&tuning) + share_group(&tuning) + streams_group(&tuning);
    lemma_body(tuning);
    assert(fields[before.len() + k] == socket(&tuning)[k]);
    lemma_shows(tuning, fields, before.len() + k, key, value);
}

/// The table shows each of the fields for read sizes, sockets, ACLs and decompression
/// that is set: the key
/// of its name has its value.
pub proof fn lemma_socket_shown(tuning: BrokerTuning)
    ensures
        tuning.share_session_cache_max_when_unlimited matches Some(x)
            ==> shows(
                tuning,
                "share_session_cache_max_when_unlimited"@,
                text::signed_decimal(x as int),
            ),
        tuning.log_read_buffer_cap matches Some(x)
            ==> shows(tuning, "log_read_buffer_cap"@, outside::toml_string(x.text@)),
        tuning.log_timestamp_scan_window matches Some(x)
            ==> shows(tuning, "log_timestamp_scan_window"@, outside::toml_string(x.text@)),
        tuning.socket_request_max matches Some(x)
            ==> shows(tuning, "socket_request_max"@, outside::toml_string(x.text@)),
        tuning.sendfile_min matches Some(x)
            ==> shows(tuning, "sendfile_min"@, outside::toml_string(x.text@)),
        tuning.socket_send_buffer matches Some(x)
            ==> shows(tuning, "socket_send_buffer"@, outside::toml_string(x.text@)),
        tuning.socket_receive_buffer matches Some(x)
            ==> shows(tuning, "socket_receive_buffer"@, outside::toml_string(x.text@)),
        tuning.acl_max_principal matches Some(x)
            ==> shows(tuning, "acl_max_principal"@, outside::toml_string(x.text@)),
        tuning.acl_max_resource_name matches Some(x)
            ==> shows(tuning, "acl_max_resource_name"@, outside::toml_string(x.text@)),
        tuning.telemetry_max_decompression_ratio matches Some(x)
            ==> shows(tuning, "telemetry_max_decompression_ratio"@, outside::toml_string(x.text@)),
        tuning.telemetry_decompressed_output_floor matches Some(x)
            ==> shows(
                tuning,
                "telemetry_decompressed_output_floor"@,
                outside::toml_string(x.text@),
            ),
        tuning.telemetry_decompressed_output_ceiling matches Some(x)
            ==> shows(
                tuning,
                "telemetry_decompressed_output_ceiling"@,
                outside::toml_string(x.text@),
            ),
        tuning.record_decompression_max_ratio matches Some(x)
            ==> shows(tuning, "record_decompression_max_ratio"@, outside::toml_string(x.text@)),
        tuning.record_decompression_output_floor matches Some(x)
            ==> shows(tuning, "record_decompression_output_floor"@, outside::toml_string(x.text@)),
        tuning.record_decompression_output_ceiling matches Some(x)
            ==> shows(
                tuning,
                "record_decompression_output_ceiling"@,
                outside::toml_string(x.text@),
            ),
        tuning.inter_broker_server_name matches Some(x)
            ==> shows(tuning, "inter_broker_server_name"@, outside::toml_string(x@)),
{
    let fields = socket(&tuning);
    assert(fields.len() == 16) by {
        reveal(socket);
    }
    if let Some(x) = tuning.share_session_cache_max_when_unlimited {
        let value = text::signed_decimal(x as int);
        assert(
            fields[0].name@ == "share_session_cache_max_when_unlimited"@
                && value_of(fields[0]) == Some(value)
        ) by {
            reveal(socket);
            lemma_count_line(
                "share_session_cache_max_when_unlimited",
                Value::PositiveUsize(tuning.share_session_cache_max_when_unlimited),
                whole_usize(tuning.share_session_cache_max_when_unlimited),
            );
        }
        lemma_socket_shows(tuning, 0, "share_session_cache_max_when_unlimited"@, value);
    }
    if let Some(x) = tuning.log_read_buffer_cap {
        let value = outside::toml_string(x.text@);
        assert(fields[1].name@ == "log_read_buffer_cap"@ && value_of(fields[1]) == Some(value)) by {
            reveal(socket);
            lemma_size_line("log_read_buffer_cap", &tuning.log_read_buffer_cap, usize::MAX as u64);
        }
        lemma_socket_shows(tuning, 1, "log_read_buffer_cap"@, value);
    }
    if let Some(x) = tuning.log_timestamp_scan_window {
        let value = outside::toml_string(x.text@);
        assert(
            fields[2].name@ == "log_timestamp_scan_window"@ && value_of(fields[2]) == Some(value)
        ) by {
            reveal(socket);
            lemma_size_line(
                "log_timestamp_scan_window",
                &tuning.log_timestamp_scan_window,
                usize::MAX as u64,
            );
        }
        lemma_socket_shows(tuning, 2, "log_timestamp_scan_window"@, value);
    }
    if let Some(x) = tuning.socket_request_max {
        let value = outside::toml_string(x.text@);
        assert(fields[3].name@ == "socket_request_max"@ && value_of(fields[3]) == Some(value)) by {
            reveal(socket);
            lemma_size_line("socket_request_max", &tuning.socket_request_max, 4_294_967_295);
        }
        lemma_socket_shows(tuning, 3, "socket_request_max"@, value);
    }
    if let Some(x) = tuning.sendfile_min {
        let value = outside::toml_string(x.text@);
        assert(fields[4].name@ == "sendfile_min"@ && value_of(fields[4]) == Some(value)) by {
            reveal(socket);
            lemma_size_line("sendfile_min", &tuning.sendfile_min, usize::MAX as u64);
        }
        lemma_socket_shows(tuning, 4, "sendfile_min"@, value);
    }
    if let Some(x) = tuning.socket_send_buffer {
        let value = outside::toml_string(x.text@);
        assert(fields[5].name@ == "socket_send_buffer"@ && value_of(fields[5]) == Some(value)) by {
            reveal(socket);
            lemma_size_line("socket_send_buffer", &tuning.socket_send_buffer, usize::MAX as u64);
        }
        lemma_socket_shows(tuning, 5, "socket_send_buffer"@, value);
    }
    if let Some(x) = tuning.socket_receive_buffer {
        let value = outside::toml_string(x.text@);
        assert(
            fields[6].name@ == "socket_receive_buffer"@ && value_of(fields[6]) == Some(value)
        ) by {
            reveal(socket);
            lemma_size_line(
                "socket_receive_buffer",
                &tuning.socket_receive_buffer,
                usize::MAX as u64,
            );
        }
        lemma_socket_shows(tuning, 6, "socket_receive_buffer"@, value);
    }
    if let Some(x) = tuning.acl_max_principal {
        let value = outside::toml_string(x.text@);
        assert(fields[7].name@ == "acl_max_principal"@ && value_of(fields[7]) == Some(value)) by {
            reveal(socket);
            lemma_size_line("acl_max_principal", &tuning.acl_max_principal, usize::MAX as u64);
        }
        lemma_socket_shows(tuning, 7, "acl_max_principal"@, value);
    }
    if let Some(x) = tuning.acl_max_resource_name {
        let value = outside::toml_string(x.text@);
        assert(
            fields[8].name@ == "acl_max_resource_name"@ && value_of(fields[8]) == Some(value)
        ) by {
            reveal(socket);
            lemma_size_line(
                "acl_max_resource_name",
                &tuning.acl_max_resource_name,
                usize::MAX as u64,
            );
        }
        lemma_socket_shows(tuning, 8, "acl_max_resource_name"@, value);
    }
    if let Some(x) = tuning.telemetry_max_decompression_ratio {
        let value = outside::toml_string(x.text@);
        assert(
            fields[9].name@ == "telemetry_max_decompression_ratio"@
                && value_of(fields[9]) == Some(value)
        ) by {
            reveal(socket);
            lemma_ratio_line(
                "telemetry_max_decompression_ratio",
                &tuning.telemetry_max_decompression_ratio,
                RatioRule::Positive,
            );
        }
        lemma_socket_shows(tuning, 9, "telemetry_max_decompression_ratio"@, value);
    }
    if let Some(x) = tuning.telemetry_decompressed_output_floor {
        let value = outside::toml_string(x.text@);
        assert(
            fields[10].name@ == "telemetry_decompressed_output_floor"@
                && value_of(fields[10]) == Some(value)
        ) by {
            reveal(socket);
            lemma_size_line(
                "telemetry_decompressed_output_floor",
                &tuning.telemetry_decompressed_output_floor,
                usize::MAX as u64,
            );
        }
        lemma_socket_shows(tuning, 10, "telemetry_decompressed_output_floor"@, value);
    }
    if let Some(x) = tuning.telemetry_decompressed_output_ceiling {
        let value = outside::toml_string(x.text@);
        assert(
            fields[11].name@ == "telemetry_decompressed_output_ceiling"@
                && value_of(fields[11]) == Some(value)
        ) by {
            reveal(socket);
            lemma_size_line(
                "telemetry_decompressed_output_ceiling",
                &tuning.telemetry_decompressed_output_ceiling,
                usize::MAX as u64,
            );
        }
        lemma_socket_shows(tuning, 11, "telemetry_decompressed_output_ceiling"@, value);
    }
    if let Some(x) = tuning.record_decompression_max_ratio {
        let value = outside::toml_string(x.text@);
        assert(
            fields[12].name@ == "record_decompression_max_ratio"@
                && value_of(fields[12]) == Some(value)
        ) by {
            reveal(socket);
            lemma_ratio_line(
                "record_decompression_max_ratio",
                &tuning.record_decompression_max_ratio,
                RatioRule::Positive,
            );
        }
        lemma_socket_shows(tuning, 12, "record_decompression_max_ratio"@, value);
    }
    if let Some(x) = tuning.record_decompression_output_floor {
        let value = outside::toml_string(x.text@);
        assert(
            fields[13].name@ == "record_decompression_output_floor"@
                && value_of(fields[13]) == Some(value)
        ) by {
            reveal(socket);
            lemma_size_line(
                "record_decompression_output_floor",
                &tuning.record_decompression_output_floor,
                u64::MAX,
            );
        }
        lemma_socket_shows(tuning, 13, "record_decompression_output_floor"@, value);
    }
    if let Some(x) = tuning.record_decompression_output_ceiling {
        let value = outside::toml_string(x.text@);
        assert(
            fields[14].name@ == "record_decompression_output_ceiling"@
                && value_of(fields[14]) == Some(value)
        ) by {
            reveal(socket);
            lemma_size_line(
                "record_decompression_output_ceiling",
                &tuning.record_decompression_output_ceiling,
                u64::MAX,
            );
        }
        lemma_socket_shows(tuning, 14, "record_decompression_output_ceiling"@, value);
    }
    if let Some(x) = tuning.inter_broker_server_name {
        let value = outside::toml_string(x@);
        assert(
            fields[15].name@ == "inter_broker_server_name"@ && value_of(fields[15]) == Some(value)
        ) by {
            reveal(socket);
            lemma_string_line("inter_broker_server_name", &tuning.inter_broker_server_name);
        }
        lemma_socket_shows(tuning, 15, "inter_broker_server_name"@, value);
    }
}

proof fn lemma_producer_shows(tuning: BrokerTuning, k: int, key: Seq<char>, value: Seq<char>)
    requires
        0 <= k < producer(&tuning).len(),
        producer(&tuning)[k].name@ == key,
        value_of(producer(&tuning)[k]) == Some(value),
    ensures
        shows(tuning, key, value),
{
    let before = startup(&tuning) + client_metrics(&tuning) + replication(&tuning) + group(&tuning)
        + capacity(&tuning) + socket(&tuning);
    let fields = startup(&tuning) + client_metrics(&tuning) + replication(&tuning) + group(&tuning)
        + capacity(&tuning) + socket(&tuning) + producer(&tuning) + controller(&tuning)
        + connection(&tuning) + share_group(&tuning) + streams_group(&tuning);
    lemma_body(tuning);
    assert(fields[before.len() + k] == producer(&tuning)[k]);
    lemma_shows(tuning, fields, before.len() + k, key, value);
}

/// The table shows each of the fields for producers and transactions that is set: the key
/// of its name has its value.
pub proof fn lemma_producer_shown(tuning: BrokerTuning)
    ensures
        tuning.producer_id_expiration matches Some(x)
            ==> shows(tuning, "producer_id_expiration"@, outside::toml_string(x.text@)),
        tuning.producer_id_expiration_scan_interval matches Some(x)
            ==> shows(
                tuning,
                "producer_id_expiration_scan_interval"@,
                outside::toml_string(x.text@),
            ),
        tuning.max_produce_group matches Some(x)
            ==> shows(tuning, "max_produce_group"@, text::signed_decimal(x as int)),
        tuning.partition_writer_queue_depth matches Some(x)
            ==> shows(tuning, "partition_writer_queue_depth"@, text::signed_decimal(x as int)),
        tuning.default_min_insync_replicas matches Some(x)
            ==> shows(tuning, "default_min_insync_replicas"@, text::signed_decimal(x as int)),
        tuning.future_log_move_read_chunk matches Some(x)
            ==> shows(tuning, "future_log_move_read_chunk"@, outside::toml_string(x.text@)),
        tuning.share_state_num_partitions matches Some(x)
            ==> shows(tuning, "share_state_num_partitions"@, text::signed_decimal(x as int)),
        tuning.share_state_replication_factor matches Some(x)
            ==> shows(tuning, "share_state_replication_factor"@, text::signed_decimal(x as int)),
        tuning.transaction_state_num_partitions matches Some(x)
            ==> shows(tuning, "transaction_state_num_partitions"@, text::signed_decimal(x as int)),
        tuning.transaction_recovery_read_max matches Some(x)
            ==> shows(tuning, "transaction_recovery_read_max"@, outside::toml_string(x.text@)),
        tuning.transaction_state_replication_factor matches Some(x)
            ==> shows(
                tuning,
                "transaction_state_replication_factor"@,
                text::signed_decimal(x as int),
            ),
        tuning.transaction_min_timeout matches Some(x)
            ==> shows(tuning, "transaction_min_timeout"@, outside::toml_string(x.text@)),
        tuning.transaction_max_timeout matches Some(x)
            ==> shows(tuning, "transaction_max_timeout"@, outside::toml_string(x.text@)),
        tuning.partition_disk_scan_interval matches Some(x)
            ==> shows(tuning, "partition_disk_scan_interval"@, outside::toml_string(x.text@)),
        tuning.observer_lag_bound matches Some(x)
            ==> shows(tuning, "observer_lag_bound"@, text::signed_decimal(x as int)),
{
    let fields = producer(&tuning);
    assert(fields.len() == 15) by {
        reveal(producer);
    }
    if let Some(x) = tuning.producer_id_expiration {
        let value = outside::toml_string(x.text@);
        assert(
            fields[0].name@ == "producer_id_expiration"@ && value_of(fields[0]) == Some(value)
        ) by {
            reveal(producer);
            lemma_time_line(
                "producer_id_expiration",
                &tuning.producer_id_expiration,
                TimeRule::WholeMillis,
            );
        }
        lemma_producer_shows(tuning, 0, "producer_id_expiration"@, value);
    }
    if let Some(x) = tuning.producer_id_expiration_scan_interval {
        let value = outside::toml_string(x.text@);
        assert(
            fields[1].name@ == "producer_id_expiration_scan_interval"@
                && value_of(fields[1]) == Some(value)
        ) by {
            reveal(producer);
            lemma_time_line(
                "producer_id_expiration_scan_interval",
                &tuning.producer_id_expiration_scan_interval,
                TimeRule::Positive,
            );
        }
        lemma_producer_shows(tuning, 1, "producer_id_expiration_scan_interval"@, value);
    }
    if let Some(x) = tuning.max_produce_group {
        let value = text::signed_decimal(x as int);
        assert(fields[2].name@ == "max_produce_group"@ && value_of(fields[2]) == Some(value)) by {
            reveal(producer);
            lemma_count_line(
                "max_produce_group",
                Value::PositiveUsize(tuning.max_produce_group),
                whole_usize(tuning.max_produce_group),
            );
        }
        lemma_producer_shows(tuning, 2, "max_produce_group"@, value);
    }
    if let Some(x) = tuning.partition_writer_queue_depth {
        let value = text::signed_decimal(x as int);
        assert(
            fields[3].name@ == "partition_writer_queue_depth"@ && value_of(fields[3]) == Some(value)
        ) by {
            reveal(producer);
            lemma_count_line(
                "partition_writer_queue_depth",
                Value::PositiveUsize(tuning.partition_writer_queue_depth),
                whole_usize(tuning.partition_writer_queue_depth),
            );
        }
        lemma_producer_shows(tuning, 3, "partition_writer_queue_depth"@, value);
    }
    if let Some(x) = tuning.default_min_insync_replicas {
        let value = text::signed_decimal(x as int);
        assert(
            fields[4].name@ == "default_min_insync_replicas"@ && value_of(fields[4]) == Some(value)
        ) by {
            reveal(producer);
            lemma_count_line(
                "default_min_insync_replicas",
                Value::PositiveI32(tuning.default_min_insync_replicas),
                whole_i32(tuning.default_min_insync_replicas),
            );
        }
        lemma_producer_shows(tuning, 4, "default_min_insync_replicas"@, value);
    }
    if let Some(x) = tuning.future_log_move_read_chunk {
        let value = outside::toml_string(x.text@);
        assert(
            fields[5].name@ == "future_log_move_read_chunk"@ && value_of(fields[5]) == Some(value)
        ) by {
            reveal(producer);
            lemma_size_line(
                "future_log_move_read_chunk",
                &tuning.future_log_move_read_chunk,
                usize::MAX as u64,
            );
        }
        lemma_producer_shows(tuning, 5, "future_log_move_read_chunk"@, value);
    }
    if let Some(x) = tuning.share_state_num_partitions {
        let value = text::signed_decimal(x as int);
        assert(
            fields[6].name@ == "share_state_num_partitions"@ && value_of(fields[6]) == Some(value)
        ) by {
            reveal(producer);
            lemma_count_line(
                "share_state_num_partitions",
                Value::PositiveI32(tuning.share_state_num_partitions),
                whole_i32(tuning.share_state_num_partitions),
            );
        }
        lemma_producer_shows(tuning, 6, "share_state_num_partitions"@, value);
    }
    if let Some(x) = tuning.share_state_replication_factor {
        let value = text::signed_decimal(x as int);
        assert(
            fields[7].name@ == "share_state_replication_factor"@
                && value_of(fields[7]) == Some(value)
        ) by {
            reveal(producer);
            lemma_count_line(
                "share_state_replication_factor",
                Value::PositiveI16(tuning.share_state_replication_factor),
                whole_i16(tuning.share_state_replication_factor),
            );
        }
        lemma_producer_shows(tuning, 7, "share_state_replication_factor"@, value);
    }
    if let Some(x) = tuning.transaction_state_num_partitions {
        let value = text::signed_decimal(x as int);
        assert(
            fields[8].name@ == "transaction_state_num_partitions"@
                && value_of(fields[8]) == Some(value)
        ) by {
            reveal(producer);
            lemma_count_line(
                "transaction_state_num_partitions",
                Value::PositiveI32(tuning.transaction_state_num_partitions),
                whole_i32(tuning.transaction_state_num_partitions),
            );
        }
        lemma_producer_shows(tuning, 8, "transaction_state_num_partitions"@, value);
    }
    if let Some(x) = tuning.transaction_recovery_read_max {
        let value = outside::toml_string(x.text@);
        assert(
            fields[9].name@ == "transaction_recovery_read_max"@
                && value_of(fields[9]) == Some(value)
        ) by {
            reveal(producer);
            lemma_size_line(
                "transaction_recovery_read_max",
                &tuning.transaction_recovery_read_max,
                usize::MAX as u64,
            );
        }
        lemma_producer_shows(tuning, 9, "transaction_recovery_read_max"@, value);
    }
    if let Some(x) = tuning.transaction_state_replication_factor {
        let value = text::signed_decimal(x as int);
        assert(
            fields[10].name@ == "transaction_state_replication_factor"@
                && value_of(fields[10]) == Some(value)
        ) by {
            reveal(producer);
            lemma_count_line(
                "transaction_state_replication_factor",
                Value::PositiveI16(tuning.transaction_state_replication_factor),
                whole_i16(tuning.transaction_state_replication_factor),
            );
        }
        lemma_producer_shows(tuning, 10, "transaction_state_replication_factor"@, value);
    }
    if let Some(x) = tuning.transaction_min_timeout {
        let value = outside::toml_string(x.text@);
        assert(
            fields[11].name@ == "transaction_min_timeout"@ && value_of(fields[11]) == Some(value)
        ) by {
            reveal(producer);
            lemma_time_line(
                "transaction_min_timeout",
                &tuning.transaction_min_timeout,
                TimeRule::AtMostMillis(i32::MAX),
            );
        }
        lemma_producer_shows(tuning, 11, "transaction_min_timeout"@, value);
    }
    if let Some(x) = tuning.transaction_max_timeout {
        let value = outside::toml_string(x.text@);
        assert(
            fields[12].name@ == "transaction_max_timeout"@ && value_of(fields[12]) == Some(value)
        ) by {
            reveal(producer);
            lemma_time_line(
                "transaction_max_timeout",
                &tuning.transaction_max_timeout,
                TimeRule::AtMostMillis(2_147_483_646),
            );
        }
        lemma_producer_shows(tuning, 12, "transaction_max_timeout"@, value);
    }
    if let Some(x) = tuning.partition_disk_scan_interval {
        let value = outside::toml_string(x.text@);
        assert(
            fields[13].name@ == "partition_disk_scan_interval"@
                && value_of(fields[13]) == Some(value)
        ) by {
            reveal(producer);
            lemma_time_line(
                "partition_disk_scan_interval",
                &tuning.partition_disk_scan_interval,
                TimeRule::Nonnegative,
            );
        }
        lemma_producer_shows(tuning, 13, "partition_disk_scan_interval"@, value);
    }
    if let Some(x) = tuning.observer_lag_bound {
        let value = text::signed_decimal(x as int);
        assert(
            fields[14].name@ == "observer_lag_bound"@ && value_of(fields[14]) == Some(value)
        ) by {
            reveal(producer);
            lemma_count_line(
                "observer_lag_bound",
                Value::U64(tuning.observer_lag_bound),
                whole_u64(tuning.observer_lag_bound),
            );
        }
        lemma_producer_shows(tuning, 14, "observer_lag_bound"@, value);
    }
}

proof fn lemma_controller_shows(tuning: BrokerTuning, k: int, key: Seq<char>, value: Seq<char>)
    requires
        0 <= k < controller(&tuning).len(),
        controller(&tuning)[k].name@ == key,
        value_of(controller(&tuning)[k]) == Some(value),
    ensures
        shows(tuning, key, value),
{
    let before = startup(&tuning) + client_metrics(&tuning) + replication(&tuning) + group(&tuning)
        + capacity(&tuning) + socket(&tuning) + producer(&tuning);
    let fields = startup(&tuning) + client_metrics(&tuning) + replication(&tuning) + group(&tuning)
        + capacity(&tuning) + socket(&tuning) + producer(&tuning) + controller(&tuning)
        + connection(&tuning) + share_group(&tuning) + streams_group(&tuning);
    lemma_body(tuning);
    assert(fields[before.len() + k] == controller(&tuning)[k]);
    lemma_shows(tuning, fields, before.len() + k, key, value);
}

/// The table shows each of the fields for heartbeats, the controller and metadata
/// snapshots that is set: the key
/// of its name has its value.
pub proof fn lemma_controller_shown(tuning: BrokerTuning)
    ensures
        tuning.heartbeat_interval matches Some(x)
            ==> shows(tuning, "heartbeat_interval"@, outside::toml_string(x.text@)),
        tuning.heartbeat_timeout matches Some(x)
            ==> shows(tuning, "heartbeat_timeout"@, outside::toml_string(x.text@)),
        tuning.replica_lag_time_max matches Some(x)
            ==> shows(tuning, "replica_lag_time_max"@, outside::toml_string(x.text@)),
        tuning.controller_election_timeout matches Some(x)
            ==> shows(tuning, "controller_election_timeout"@, outside::toml_string(x.text@)),
        tuning.controller_heartbeat_interval matches Some(x)
            ==> shows(tuning, "controller_heartbeat_interval"@, outside::toml_string(x.text@)),
        tuning.controller_fetch_miss_limit matches Some(x)
            ==> shows(tuning, "controller_fetch_miss_limit"@, text::signed_decimal(x as int)),
        tuning.metadata_raft_command_queue_capacity matches Some(x)
            ==> shows(
                tuning,
                "metadata_raft_command_queue_capacity"@,
                text::signed_decimal(x as int),
            ),
        tuning.metadata_raft_fetch_max matches Some(x)
            ==> shows(tuning, "metadata_raft_fetch_max"@, outside::toml_string(x.text@)),
        tuning.controlled_shutdown_drain_timeout matches Some(x)
            ==> shows(tuning, "controlled_shutdown_drain_timeout"@, outside::toml_string(x.text@)),
        tuning.metadata_max_between_snapshots matches Some(x)
            ==> shows(tuning, "metadata_max_between_snapshots"@, outside::toml_string(x.text@)),
        tuning.metadata_max_snapshot_interval matches Some(x)
            ==> shows(tuning, "metadata_max_snapshot_interval"@, outside::toml_string(x.text@)),
        tuning.metadata_snapshot_interval_records matches Some(x)
            ==> shows(
                tuning,
                "metadata_snapshot_interval_records"@,
                text::signed_decimal(x as int),
            ),
        tuning.metadata_snapshot_fetch_max matches Some(x)
            ==> shows(tuning, "metadata_snapshot_fetch_max"@, outside::toml_string(x.text@)),
        tuning.txn_abort_cleanup_interval matches Some(x)
            ==> shows(tuning, "txn_abort_cleanup_interval"@, outside::toml_string(x.text@)),
        tuning.leader_imbalance_check_interval matches Some(x)
            ==> shows(tuning, "leader_imbalance_check_interval"@, outside::toml_string(x.text@)),
        tuning.leader_imbalance_per_broker matches Some(x)
            ==> shows(tuning, "leader_imbalance_per_broker"@, outside::toml_string(x.text@)),
        tuning.tls_reload_interval matches Some(x)
            ==> shows(tuning, "tls_reload_interval"@, outside::toml_string(x.text@)),
{
    let fields = controller(&tuning);
    assert(fields.len() == 17) by {
        reveal(controller);
    }
    if let Some(x) = tuning.heartbeat_interval {
        let value = outside::toml_string(x.text@);
        assert(fields[0].name@ == "heartbeat_interval"@ && value_of(fields[0]) == Some(value)) by {
            reveal(controller);
            lemma_time_line("heartbeat_interval", &tuning.heartbeat_interval, TimeRule::Positive);
        }
        lemma_controller_shows(tuning, 0, "heartbeat_interval"@, value);
    }
    if let Some(x) = tuning.heartbeat_timeout {
        let value = outside::toml_string(x.text@);
        assert(fields[1].name@ == "heartbeat_timeout"@ && value_of(fields[1]) == Some(value)) by {
            reveal(controller);
            lemma_time_line("heartbeat_timeout", &tuning.heartbeat_timeout, TimeRule::Positive);
        }
        lemma_controller_shows(tuning, 1, "heartbeat_timeout"@, value);
    }
    if let Some(x) = tuning.replica_lag_time_max {
        let value = outside::toml_string(x.text@);
        assert(
            fields[2].name@ == "replica_lag_time_max"@ && value_of(fields[2]) == Some(value)
        ) by {
            reveal(controller);
            lemma_time_line(
                "replica_lag_time_max",
                &tuning.replica_lag_time_max,
                TimeRule::Positive,
            );
        }
        lemma_controller_shows(tuning, 2, "replica_lag_time_max"@, value);
    }
    if let Some(x) = tuning.controller_election_timeout {
        let value = outside::toml_string(x.text@);
        assert(
            fields[3].name@ == "controller_election_timeout"@ && value_of(fields[3]) == Some(value)
        ) by {
            reveal(controller);
            lemma_time_line(
                "controller_election_timeout",
                &tuning.controller_election_timeout,
                TimeRule::Positive,
            );
        }
        lemma_controller_shows(tuning, 3, "controller_election_timeout"@, value);
    }
    if let Some(x) = tuning.controller_heartbeat_interval {
        let value = outside::toml_string(x.text@);
        assert(
            fields[4].name@ == "controller_heartbeat_interval"@
                && value_of(fields[4]) == Some(value)
        ) by {
            reveal(controller);
            lemma_time_line(
                "controller_heartbeat_interval",
                &tuning.controller_heartbeat_interval,
                TimeRule::Positive,
            );
        }
        lemma_controller_shows(tuning, 4, "controller_heartbeat_interval"@, value);
    }
    if let Some(x) = tuning.controller_fetch_miss_limit {
        let value = text::signed_decimal(x as int);
        assert(
            fields[5].name@ == "controller_fetch_miss_limit"@ && value_of(fields[5]) == Some(value)
        ) by {
            reveal(controller);
            lemma_count_line(
                "controller_fetch_miss_limit",
                Value::PositiveU32(tuning.controller_fetch_miss_limit),
                whole_u32(tuning.controller_fetch_miss_limit),
            );
        }
        lemma_controller_shows(tuning, 5, "controller_fetch_miss_limit"@, value);
    }
    if let Some(x) = tuning.metadata_raft_command_queue_capacity {
        let value = text::signed_decimal(x as int);
        assert(
            fields[6].name@ == "metadata_raft_command_queue_capacity"@
                && value_of(fields[6]) == Some(value)
        ) by {
            reveal(controller);
            lemma_count_line(
                "metadata_raft_command_queue_capacity",
                Value::PositiveUsize(tuning.metadata_raft_command_queue_capacity),
                whole_usize(tuning.metadata_raft_command_queue_capacity),
            );
        }
        lemma_controller_shows(tuning, 6, "metadata_raft_command_queue_capacity"@, value);
    }
    if let Some(x) = tuning.metadata_raft_fetch_max {
        let value = outside::toml_string(x.text@);
        assert(
            fields[7].name@ == "metadata_raft_fetch_max"@ && value_of(fields[7]) == Some(value)
        ) by {
            reveal(controller);
            lemma_size_line(
                "metadata_raft_fetch_max",
                &tuning.metadata_raft_fetch_max,
                2_147_483_647,
            );
        }
        lemma_controller_shows(tuning, 7, "metadata_raft_fetch_max"@, value);
    }
    if let Some(x) = tuning.controlled_shutdown_drain_timeout {
        let value = outside::toml_string(x.text@);
        assert(
            fields[8].name@ == "controlled_shutdown_drain_timeout"@
                && value_of(fields[8]) == Some(value)
        ) by {
            reveal(controller);
            lemma_time_line(
                "controlled_shutdown_drain_timeout",
                &tuning.controlled_shutdown_drain_timeout,
                TimeRule::Positive,
            );
        }
        lemma_controller_shows(tuning, 8, "controlled_shutdown_drain_timeout"@, value);
    }
    if let Some(x) = tuning.metadata_max_between_snapshots {
        let value = outside::toml_string(x.text@);
        assert(
            fields[9].name@ == "metadata_max_between_snapshots"@
                && value_of(fields[9]) == Some(value)
        ) by {
            reveal(controller);
            lemma_size_line(
                "metadata_max_between_snapshots",
                &tuning.metadata_max_between_snapshots,
                u64::MAX,
            );
        }
        lemma_controller_shows(tuning, 9, "metadata_max_between_snapshots"@, value);
    }
    if let Some(x) = tuning.metadata_max_snapshot_interval {
        let value = outside::toml_string(x.text@);
        assert(
            fields[10].name@ == "metadata_max_snapshot_interval"@
                && value_of(fields[10]) == Some(value)
        ) by {
            reveal(controller);
            lemma_time_line(
                "metadata_max_snapshot_interval",
                &tuning.metadata_max_snapshot_interval,
                TimeRule::Nonnegative,
            );
        }
        lemma_controller_shows(tuning, 10, "metadata_max_snapshot_interval"@, value);
    }
    if let Some(x) = tuning.metadata_snapshot_interval_records {
        let value = text::signed_decimal(x as int);
        assert(
            fields[11].name@ == "metadata_snapshot_interval_records"@
                && value_of(fields[11]) == Some(value)
        ) by {
            reveal(controller);
            lemma_count_line(
                "metadata_snapshot_interval_records",
                Value::PositiveU64(tuning.metadata_snapshot_interval_records),
                whole_u64(tuning.metadata_snapshot_interval_records),
            );
        }
        lemma_controller_shows(tuning, 11, "metadata_snapshot_interval_records"@, value);
    }
    if let Some(x) = tuning.metadata_snapshot_fetch_max {
        let value = outside::toml_string(x.text@);
        assert(
            fields[12].name@ == "metadata_snapshot_fetch_max"@
                && value_of(fields[12]) == Some(value)
        ) by {
            reveal(controller);
            lemma_size_line("metadata_snapshot_fetch_max", &tuning.metadata_snapshot_fetch_max, 0);
        }
        lemma_controller_shows(tuning, 12, "metadata_snapshot_fetch_max"@, value);
    }
    if let Some(x) = tuning.txn_abort_cleanup_interval {
        let value = outside::toml_string(x.text@);
        assert(
            fields[13].name@ == "txn_abort_cleanup_interval"@ && value_of(fields[13]) == Some(value)
        ) by {
            reveal(controller);
            lemma_time_line(
                "txn_abort_cleanup_interval",
                &tuning.txn_abort_cleanup_interval,
                TimeRule::Nonnegative,
            );
        }
        lemma_controller_shows(tuning, 13, "txn_abort_cleanup_interval"@, value);
    }
    if let Some(x) = tuning.leader_imbalance_check_interval {
        let value = outside::toml_string(x.text@);
        assert(
            fields[14].name@ == "leader_imbalance_check_interval"@
                && value_of(fields[14]) == Some(value)
        ) by {
            reveal(controller);
            lemma_time_line(
                "leader_imbalance_check_interval",
                &tuning.leader_imbalance_check_interval,
                TimeRule::Positive,
            );
        }
        lemma_controller_shows(tuning, 14, "leader_imbalance_check_interval"@, value);
    }
    if let Some(x) = tuning.leader_imbalance_per_broker {
        let value = outside::toml_string(x.text@);
        assert(
            fields[15].name@ == "leader_imbalance_per_broker"@
                && value_of(fields[15]) == Some(value)
        ) by {
            reveal(controller);
            lemma_ratio_line(
                "leader_imbalance_per_broker",
                &tuning.leader_imbalance_per_broker,
                RatioRule::UnitInterval,
            );
        }
        lemma_controller_shows(tuning, 15, "leader_imbalance_per_broker"@, value);
    }
    if let Some(x) = tuning.tls_reload_interval {
        let value = outside::toml_string(x.text@);
        assert(
            fields[16].name@ == "tls_reload_interval"@ && value_of(fields[16]) == Some(value)
        ) by {
            reveal(controller);
            lemma_time_line(
                "tls_reload_interval",
                &tuning.tls_reload_interval,
                TimeRule::Nonnegative,
            );
        }
        lemma_controller_shows(tuning, 16, "tls_reload_interval"@, value);
    }
}

proof fn lemma_connection_shows(tuning: BrokerTuning, k: int, key: Seq<char>, value: Seq<char>)
    requires
        0 <= k < connection(&tuning).len(),
        connection(&tuning)[k].name@ == key,
        value_of(connection(&tuning)[k]) == Some(value),
    ensures
        shows(tuning, key, value),
{
    let before = startup(&tuning) + client_metrics(&tuning) + replication(&tuning) + group(&tuning)
        + capacity(&tuning) + socket(&tuning) + producer(&tuning) + controller(&tuning);
    let fields = startup(&tuning) + client_metrics(&tuning) + replication(&tuning) + group(&tuning)
        + capacity(&tuning) + socket(&tuning) + producer(&tuning) + controller(&tuning)
        + connection(&tuning) + share_group(&tuning) + streams_group(&tuning);
    lemma_body(tuning);
    assert(fields[before.len() + k] == connection(&tuning)[k]);
    lemma_shows(tuning, fields, before.len() + k, key, value);
}

/// The table shows each of the fields for connections and delegation tokens that is set: the key
/// of its name has its value.
pub proof fn lemma_connection_shown(tuning: BrokerTuning)
    ensures
        tuning.max_incremental_fetch_session_cache_slots matches Some(x)
            ==> shows(
                tuning,
                "max_incremental_fetch_session_cache_slots"@,
                text::signed_decimal(x as int),
            ),
        tuning.max_connections matches Some(x)
            ==> shows(tuning, "max_connections"@, text::signed_decimal(x as int)),
        tuning.max_connections_per_ip matches Some(x)
            ==> shows(tuning, "max_connections_per_ip"@, text::signed_decimal(x as int)),
        tuning.delegation_token_max_lifetime matches Some(x)
            ==> shows(tuning, "delegation_token_max_lifetime"@, outside::toml_string(x.text@)),
        tuning.delegation_token_expiry_check_interval matches Some(x)
            ==> shows(
                tuning,
                "delegation_token_expiry_check_interval"@,
                outside::toml_string(x.text@),
            ),
        tuning.delegation_token_default_renew_period matches Some(x)
            ==> shows(
                tuning,
                "delegation_token_default_renew_period"@,
                outside::toml_string(x.text@),
            ),
        tuning.remote_log_manager_interval matches Some(x)
            ==> shows(tuning, "remote_log_manager_interval"@, outside::toml_string(x.text@)),
        tuning.share_group_enable matches Some(x)
            ==> shows(tuning, "share_group_enable"@, (if x { "true"@ } else { "false"@ })),
{
    let fields = connection(&tuning);
    assert(fields.len() == 8) by {
        reveal(connection);
    }
    if let Some(x) = tuning.max_incremental_fetch_session_cache_slots {
        let value = text::signed_decimal(x as int);
        assert(
            fields[0].name@ == "max_incremental_fetch_session_cache_slots"@
                && value_of(fields[0]) == Some(value)
        ) by {
            reveal(connection);
            lemma_count_line(
                "max_incremental_fetch_session_cache_slots",
                Value::Usize(tuning.max_incremental_fetch_session_cache_slots),
                whole_usize(tuning.max_incremental_fetch_session_cache_slots),
            );
        }
        lemma_connection_shows(tuning, 0, "max_incremental_fetch_session_cache_slots"@, value);
    }
    if let Some(x) = tuning.max_connections {
        let value = text::signed_decimal(x as int);
        assert(fields[1].name@ == "max_connections"@ && value_of(fields[1]) == Some(value)) by {
            reveal(connection);
            lemma_count_line(
                "max_connections",
                Value::Usize(tuning.max_connections),
                whole_usize(tuning.max_connections),
            );
        }
        lemma_connection_shows(tuning, 1, "max_connections"@, value);
    }
    if let Some(x) = tuning.max_connections_per_ip {
        let value = text::signed_decimal(x as int);
        assert(
            fields[2].name@ == "max_connections_per_ip"@ && value_of(fields[2]) == Some(value)
        ) by {
            reveal(connection);
            lemma_count_line(
                "max_connections_per_ip",
                Value::Usize(tuning.max_connections_per_ip),
                whole_usize(tuning.max_connections_per_ip),
            );
        }
        lemma_connection_shows(tuning, 2, "max_connections_per_ip"@, value);
    }
    if let Some(x) = tuning.delegation_token_max_lifetime {
        let value = outside::toml_string(x.text@);
        assert(
            fields[3].name@ == "delegation_token_max_lifetime"@
                && value_of(fields[3]) == Some(value)
        ) by {
            reveal(connection);
            lemma_time_line(
                "delegation_token_max_lifetime",
                &tuning.delegation_token_max_lifetime,
                TimeRule::WholeMillis,
            );
        }
        lemma_connection_shows(tuning, 3, "delegation_token_max_lifetime"@, value);
    }
    if let Some(x) = tuning.delegation_token_expiry_check_interval {
        let value = outside::toml_string(x.text@);
        assert(
            fields[4].name@ == "delegation_token_expiry_check_interval"@
                && value_of(fields[4]) == Some(value)
        ) by {
            reveal(connection);
            lemma_time_line(
                "delegation_token_expiry_check_interval",
                &tuning.delegation_token_expiry_check_interval,
                TimeRule::WholeMillis,
            );
        }
        lemma_connection_shows(tuning, 4, "delegation_token_expiry_check_interval"@, value);
    }
    if let Some(x) = tuning.delegation_token_default_renew_period {
        let value = outside::toml_string(x.text@);
        assert(
            fields[5].name@ == "delegation_token_default_renew_period"@
                && value_of(fields[5]) == Some(value)
        ) by {
            reveal(connection);
            lemma_time_line(
                "delegation_token_default_renew_period",
                &tuning.delegation_token_default_renew_period,
                TimeRule::WholeMillis,
            );
        }
        lemma_connection_shows(tuning, 5, "delegation_token_default_renew_period"@, value);
    }
    if let Some(x) = tuning.remote_log_manager_interval {
        let value = outside::toml_string(x.text@);
        assert(
            fields[6].name@ == "remote_log_manager_interval"@ && value_of(fields[6]) == Some(value)
        ) by {
            reveal(connection);
            lemma_time_line(
                "remote_log_manager_interval",
                &tuning.remote_log_manager_interval,
                TimeRule::Positive,
            );
        }
        lemma_connection_shows(tuning, 6, "remote_log_manager_interval"@, value);
    }
    if let Some(x) = tuning.share_group_enable {
        let value = if x { "true"@ } else { "false"@ };
        assert(fields[7].name@ == "share_group_enable"@ && value_of(fields[7]) == Some(value)) by {
            reveal(connection);
            lemma_flag_line("share_group_enable", tuning.share_group_enable);
        }
        lemma_connection_shows(tuning, 7, "share_group_enable"@, value);
    }
}

proof fn lemma_share_group_shows(tuning: BrokerTuning, k: int, key: Seq<char>, value: Seq<char>)
    requires
        0 <= k < share_group(&tuning).len(),
        share_group(&tuning)[k].name@ == key,
        value_of(share_group(&tuning)[k]) == Some(value),
    ensures
        shows(tuning, key, value),
{
    let before = startup(&tuning) + client_metrics(&tuning) + replication(&tuning) + group(&tuning)
        + capacity(&tuning) + socket(&tuning) + producer(&tuning) + controller(&tuning)
        + connection(&tuning);
    let fields = startup(&tuning) + client_metrics(&tuning) + replication(&tuning) + group(&tuning)
        + capacity(&tuning) + socket(&tuning) + producer(&tuning) + controller(&tuning)
        + connection(&tuning) + share_group(&tuning) + streams_group(&tuning);
    lemma_body(tuning);
    assert(fields[before.len() + k] == share_group(&tuning)[k]);
    lemma_shows(tuning, fields, before.len() + k, key, value);
}

/// The table shows each of the fields for share groups that is set: the key
/// of its name has its value.
pub proof fn lemma_share_group_shown(tuning: BrokerTuning)
    ensures
        tuning.share_group_session_timeout matches Some(x)
            ==> shows(tuning, "share_group_session_timeout"@, outside::toml_string(x.text@)),
        tuning.share_group_heartbeat_interval matches Some(x)
            ==> shows(tuning, "share_group_heartbeat_interval"@, outside::toml_string(x.text@)),
        tuning.share_group_max_size matches Some(x)
            ==> shows(tuning, "share_group_max_size"@, text::signed_decimal(x as int)),
        tuning.share_group_record_lock_duration matches Some(x)
            ==> shows(tuning, "share_group_record_lock_duration"@, outside::toml_string(x.text@)),
        tuning.share_group_max_delivery_attempts matches Some(x)
            ==> shows(tuning, "share_group_max_delivery_attempts"@, text::signed_decimal(x as int)),
        tuning.share_group_max_inflight_records matches Some(x)
            ==> shows(tuning, "share_group_max_inflight_records"@, text::signed_decimal(x as int)),
        tuning.share_group_isolation_level matches Some(x)
            ==> shows(tuning, "share_group_isolation_level"@, outside::toml_string(x@)),
{
    let fields = share_group(&tuning);
    assert(fields.len() == 7) by {
        reveal(share_group);
    }
    if let Some(x) = tuning.share_group_session_timeout {
        let value = outside::toml_string(x.text@);
        assert(
            fields[0].name@ == "share_group_session_timeout"@ && value_of(fields[0]) == Some(value)
        ) by {
            reveal(share_group);
            lemma_time_line(
                "share_group_session_timeout",
                &tuning.share_group_session_timeout,
                TimeRule::Positive,
            );
        }
        lemma_share_group_shows(tuning, 0, "share_group_session_timeout"@, value);
    }
    if let Some(x) = tuning.share_group_heartbeat_interval {
        let value = outside::toml_string(x.text@);
        assert(
            fields[1].name@ == "share_group_heartbeat_interval"@
                && value_of(fields[1]) == Some(value)
        ) by {
            reveal(share_group);
            lemma_time_line(
                "share_group_heartbeat_interval",
                &tuning.share_group_heartbeat_interval,
                TimeRule::Positive,
            );
        }
        lemma_share_group_shows(tuning, 1, "share_group_heartbeat_interval"@, value);
    }
    if let Some(x) = tuning.share_group_max_size {
        let value = text::signed_decimal(x as int);
        assert(
            fields[2].name@ == "share_group_max_size"@ && value_of(fields[2]) == Some(value)
        ) by {
            reveal(share_group);
            lemma_count_line(
                "share_group_max_size",
                Value::PositiveUsize(tuning.share_group_max_size),
                whole_usize(tuning.share_group_max_size),
            );
        }
        lemma_share_group_shows(tuning, 2, "share_group_max_size"@, value);
    }
    if let Some(x) = tuning.share_group_record_lock_duration {
        let value = outside::toml_string(x.text@);
        assert(
            fields[3].name@ == "share_group_record_lock_duration"@
                && value_of(fields[3]) == Some(value)
        ) by {
            reveal(share_group);
            lemma_time_line(
                "share_group_record_lock_duration",
                &tuning.share_group_record_lock_duration,
                TimeRule::Positive,
            );
        }
        lemma_share_group_shows(tuning, 3, "share_group_record_lock_duration"@, value);
    }
    if let Some(x) = tuning.share_group_max_delivery_attempts {
        let value = text::signed_decimal(x as int);
        assert(
            fields[4].name@ == "share_group_max_delivery_attempts"@
                && value_of(fields[4]) == Some(value)
        ) by {
            reveal(share_group);
            lemma_count_line(
                "share_group_max_delivery_attempts",
                Value::PositiveI16(tuning.share_group_max_delivery_attempts),
                whole_i16(tuning.share_group_max_delivery_attempts),
            );
        }
        lemma_share_group_shows(tuning, 4, "share_group_max_delivery_attempts"@, value);
    }
    if let Some(x) = tuning.share_group_max_inflight_records {
        let value = text::signed_decimal(x as int);
        assert(
            fields[5].name@ == "share_group_max_inflight_records"@
                && value_of(fields[5]) == Some(value)
        ) by {
            reveal(share_group);
            lemma_count_line(
                "share_group_max_inflight_records",
                Value::PositiveI32(tuning.share_group_max_inflight_records),
                whole_i32(tuning.share_group_max_inflight_records),
            );
        }
        lemma_share_group_shows(tuning, 5, "share_group_max_inflight_records"@, value);
    }
    if let Some(x) = tuning.share_group_isolation_level {
        let value = outside::toml_string(x@);
        assert(
            fields[6].name@ == "share_group_isolation_level"@ && value_of(fields[6]) == Some(value)
        ) by {
            reveal(share_group);
            lemma_string_line("share_group_isolation_level", &tuning.share_group_isolation_level);
        }
        lemma_share_group_shows(tuning, 6, "share_group_isolation_level"@, value);
    }
}

proof fn lemma_streams_group_shows(tuning: BrokerTuning, k: int, key: Seq<char>, value: Seq<char>)
    requires
        0 <= k < streams_group(&tuning).len(),
        streams_group(&tuning)[k].name@ == key,
        value_of(streams_group(&tuning)[k]) == Some(value),
    ensures
        shows(tuning, key, value),
{
    let before = startup(&tuning) + client_metrics(&tuning) + replication(&tuning) + group(&tuning)
        + capacity(&tuning) + socket(&tuning) + producer(&tuning) + controller(&tuning)
        + connection(&tuning) + share_group(&tuning);
    let fields = startup(&tuning) + client_metrics(&tuning) + replication(&tuning) + group(&tuning)
        + capacity(&tuning) + socket(&tuning) + producer(&tuning) + controller(&tuning)
        + connection(&tuning) + share_group(&tuning) + streams_group(&tuning);
    lemma_body(tuning);
    assert(fields[before.len() + k] == streams_group(&tuning)[k]);
    lemma_shows(tuning, fields, before.len() + k, key, value);
}

/// The table shows each of the fields for streams groups that is set: the key
/// of its name has its value.
pub proof fn lemma_streams_group_shown(tuning: BrokerTuning)
    ensures
        tuning.streams_group_enable matches Some(x)
            ==> shows(tuning, "streams_group_enable"@, (if x { "true"@ } else { "false"@ })),
        tuning.streams_group_session_timeout matches Some(x)
            ==> shows(tuning, "streams_group_session_timeout"@, outside::toml_string(x.text@)),
        tuning.streams_group_heartbeat_interval matches Some(x)
            ==> shows(tuning, "streams_group_heartbeat_interval"@, outside::toml_string(x.text@)),
        tuning.streams_group_max_size matches Some(x)
            ==> shows(tuning, "streams_group_max_size"@, text::signed_decimal(x as int)),
        tuning.streams_internal_topic_replication_factor matches Some(x)
            ==> shows(
                tuning,
                "streams_internal_topic_replication_factor"@,
                text::signed_decimal(x as int),
            ),
        tuning.streams_group_num_standby_replicas matches Some(x)
            ==> shows(
                tuning,
                "streams_group_num_standby_replicas"@,
                text::signed_decimal(x as int),
            ),
        tuning.streams_group_num_warmup_replicas matches Some(x)
            ==> shows(tuning, "streams_group_num_warmup_replicas"@, text::signed_decimal(x as int)),
        tuning.streams_group_acceptable_recovery_lag matches Some(x)
            ==> shows(
                tuning,
                "streams_group_acceptable_recovery_lag"@,
                text::signed_decimal(x as int),
            ),
        tuning.streams_group_task_offset_interval matches Some(x)
            ==> shows(tuning, "streams_group_task_offset_interval"@, outside::toml_string(x.text@)),
        tuning.streams_group_assignor matches Some(x)
            ==> shows(tuning, "streams_group_assignor"@, outside::toml_string(x@)),
{
    let fields = streams_group(&tuning);
    assert(fields.len() == 10) by {
        reveal(streams_group);
    }
    if let Some(x) = tuning.streams_group_enable {
        let value = if x { "true"@ } else { "false"@ };
        assert(
            fields[0].name@ == "streams_group_enable"@ && value_of(fields[0]) == Some(value)
        ) by {
            reveal(streams_group);
            lemma_flag_line("streams_group_enable", tuning.streams_group_enable);
        }
        lemma_streams_group_shows(tuning, 0, "streams_group_enable"@, value);
    }
    if let Some(x) = tuning.streams_group_session_timeout {
        let value = outside::toml_string(x.text@);
        assert(
            fields[1].name@ == "streams_group_session_timeout"@
                && value_of(fields[1]) == Some(value)
        ) by {
            reveal(streams_group);
            lemma_time_line(
                "streams_group_session_timeout",
                &tuning.streams_group_session_timeout,
                TimeRule::Positive,
            );
        }
        lemma_streams_group_shows(tuning, 1, "streams_group_session_timeout"@, value);
    }
    if let Some(x) = tuning.streams_group_heartbeat_interval {
        let value = outside::toml_string(x.text@);
        assert(
            fields[2].name@ == "streams_group_heartbeat_interval"@
                && value_of(fields[2]) == Some(value)
        ) by {
            reveal(streams_group);
            lemma_time_line(
                "streams_group_heartbeat_interval",
                &tuning.streams_group_heartbeat_interval,
                TimeRule::Positive,
            );
        }
        lemma_streams_group_shows(tuning, 2, "streams_group_heartbeat_interval"@, value);
    }
    if let Some(x) = tuning.streams_group_max_size {
        let value = text::signed_decimal(x as int);
        assert(
            fields[3].name@ == "streams_group_max_size"@ && value_of(fields[3]) == Some(value)
        ) by {
            reveal(streams_group);
            lemma_count_line(
                "streams_group_max_size",
                Value::PositiveUsize(tuning.streams_group_max_size),
                whole_usize(tuning.streams_group_max_size),
            );
        }
        lemma_streams_group_shows(tuning, 3, "streams_group_max_size"@, value);
    }
    if let Some(x) = tuning.streams_internal_topic_replication_factor {
        let value = text::signed_decimal(x as int);
        assert(
            fields[4].name@ == "streams_internal_topic_replication_factor"@
                && value_of(fields[4]) == Some(value)
        ) by {
            reveal(streams_group);
            lemma_count_line(
                "streams_internal_topic_replication_factor",
                Value::PositiveI16(tuning.streams_internal_topic_replication_factor),
                whole_i16(tuning.streams_internal_topic_replication_factor),
            );
        }
        lemma_streams_group_shows(tuning, 4, "streams_internal_topic_replication_factor"@, value);
    }
    if let Some(x) = tuning.streams_group_num_standby_replicas {
        let value = text::signed_decimal(x as int);
        assert(
            fields[5].name@ == "streams_group_num_standby_replicas"@
                && value_of(fields[5]) == Some(value)
        ) by {
            reveal(streams_group);
            lemma_count_line(
                "streams_group_num_standby_replicas",
                Value::NonnegativeI32(tuning.streams_group_num_standby_replicas),
                whole_i32(tuning.streams_group_num_standby_replicas),
            );
        }
        lemma_streams_group_shows(tuning, 5, "streams_group_num_standby_replicas"@, value);
    }
    if let Some(x) = tuning.streams_group_num_warmup_replicas {
        let value = text::signed_decimal(x as int);
        assert(
            fields[6].name@ == "streams_group_num_warmup_replicas"@
                && value_of(fields[6]) == Some(value)
        ) by {
            reveal(streams_group);
            lemma_count_line(
                "streams_group_num_warmup_replicas",
                Value::NonnegativeI32(tuning.streams_group_num_warmup_replicas),
                whole_i32(tuning.streams_group_num_warmup_replicas),
            );
        }
        lemma_streams_group_shows(tuning, 6, "streams_group_num_warmup_replicas"@, value);
    }
    if let Some(x) = tuning.streams_group_acceptable_recovery_lag {
        let value = text::signed_decimal(x as int);
        assert(
            fields[7].name@ == "streams_group_acceptable_recovery_lag"@
                && value_of(fields[7]) == Some(value)
        ) by {
            reveal(streams_group);
            lemma_count_line(
                "streams_group_acceptable_recovery_lag",
                Value::NonnegativeI64(tuning.streams_group_acceptable_recovery_lag),
                whole_i64(tuning.streams_group_acceptable_recovery_lag),
            );
        }
        lemma_streams_group_shows(tuning, 7, "streams_group_acceptable_recovery_lag"@, value);
    }
    if let Some(x) = tuning.streams_group_task_offset_interval {
        let value = outside::toml_string(x.text@);
        assert(
            fields[8].name@ == "streams_group_task_offset_interval"@
                && value_of(fields[8]) == Some(value)
        ) by {
            reveal(streams_group);
            lemma_time_line(
                "streams_group_task_offset_interval",
                &tuning.streams_group_task_offset_interval,
                TimeRule::Positive,
            );
        }
        lemma_streams_group_shows(tuning, 8, "streams_group_task_offset_interval"@, value);
    }
    if let Some(x) = tuning.streams_group_assignor {
        let value = outside::toml_string(x@);
        assert(
            fields[9].name@ == "streams_group_assignor"@ && value_of(fields[9]) == Some(value)
        ) by {
            reveal(streams_group);
            lemma_string_line("streams_group_assignor", &tuning.streams_group_assignor);
        }
        lemma_streams_group_shows(tuning, 9, "streams_group_assignor"@, value);
    }
}

} // verus!
