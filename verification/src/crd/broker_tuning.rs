//! `spec.brokerTuning`: the operational policy of the brokers.

use crate::binary64::Binary64;
use crate::crd::report;
use crate::crd::tuning_rules;
use crate::crd::tuning_rules::{
    validate_bounded_tuning_time, validate_nonnegative_tuning_time, validate_positive_tuning_ratio,
    validate_positive_tuning_time, validate_tuning_size, validate_unit_interval_tuning_ratio,
    validate_whole_millis_tuning_time, RatioRule, TimeRule,
};
use crate::outside;
use crate::outside::{
    non_empty_string, nonnegative_i32, nonnegative_i64, positive_i16, positive_i32, positive_i64,
    positive_u32, positive_u64, positive_usize, render_toml_string,
};
use crate::text;
use crate::text::{decimal_i64, decimal_u64, same, to_ascii_upper};
use crate::units::{ByteSize, Ratio, Setting, Time};
use vstd::prelude::*;
use vstd::string::*;

verus! {

/// The largest `transactionMaxTimeout`, in milliseconds.
pub const MAX_TRANSACTION_MILLIS: i32 = 2_147_483_646;

/// The largest size that an `i32` holds, in bytes.
pub const I32_SIZE: u64 = 2_147_483_647;

/// The largest size that a `u32` holds, in bytes.
pub const U32_SIZE: u64 = 4_294_967_295;

/// The value of a field with the rule for it.
pub enum Value<'a> {
    Time(&'a Option<Setting<Time>>, TimeRule),
    /// A byte count, with the largest that is valid.
    Size(&'a Option<Setting<ByteSize>>, u64),
    /// The size of a metadata-snapshot fetch, which has a rule of its own.
    SnapshotFetch(&'a Option<Setting<ByteSize>>),
    Ratio(&'a Option<Setting<Ratio>>, RatioRule),
    PositiveUsize(Option<usize>),
    PositiveU32(Option<u32>),
    PositiveU64(Option<u64>),
    PositiveI16(Option<i16>),
    PositiveI32(Option<i32>),
    PositiveI64(Option<i64>),
    NonnegativeI32(Option<i32>),
    NonnegativeI64(Option<i64>),
    Usize(Option<usize>),
    U64(Option<u64>),
    Flag(Option<bool>),
    Text(&'a Option<String>),
}

/// A field: its name in the broker configuration, and its value.
pub struct Field<'a> {
    pub name: &'static str,
    pub value: Value<'a>,
}

/// What is wrong with a field whose value got the verdict `verdict`.
pub open spec fn verdict_error(field: Seq<char>, verdict: Result<(), String>) -> Option<Seq<char>> {
    match verdict {
        Ok(_) => None,
        Err(message) => Some(tuning_rules::invalid(field, message@)),
    }
}

/// What is wrong with a count that has to be above zero.
pub open spec fn positive_error(field: Seq<char>, n: int) -> Option<Seq<char>> {
    if n > 0 {
        None
    } else {
        Some(tuning_rules::invalid(field, outside::not_positive(n)))
    }
}

/// What is wrong with a count that has to be zero or above.
pub open spec fn nonnegative_error(field: Seq<char>, n: int) -> Option<Seq<char>> {
    if n >= 0 {
        None
    } else {
        Some(tuning_rules::invalid(field, outside::negative(n)))
    }
}

impl<'a> Field<'a> {
    /// What is wrong with the field by itself. `snapshot_fetch` is the verdict of
    /// the metadata quorum on the size of a metadata-snapshot fetch.
    pub open spec fn error(self, snapshot_fetch: Result<(), String>) -> Option<Seq<char>> {
        let name = self.name@;
        match self.value {
            Value::Time(Some(time), rule) => tuning_rules::time_error(name, time.value, rule),
            Value::Size(Some(size), max) => tuning_rules::size_error(name, size.value, max),
            Value::SnapshotFetch(Some(_)) => verdict_error(name, snapshot_fetch),
            Value::Ratio(Some(ratio), rule) => tuning_rules::ratio_error(name, ratio.value, rule),
            Value::PositiveUsize(Some(n)) => positive_error(name, n as int),
            Value::PositiveU32(Some(n)) => positive_error(name, n as int),
            Value::PositiveU64(Some(n)) => positive_error(name, n as int),
            Value::PositiveI16(Some(n)) => positive_error(name, n as int),
            Value::PositiveI32(Some(n)) => positive_error(name, n as int),
            Value::PositiveI64(Some(n)) => positive_error(name, n as int),
            Value::NonnegativeI32(Some(n)) => nonnegative_error(name, n as int),
            Value::NonnegativeI64(Some(n)) => nonnegative_error(name, n as int),
            _ => None,
        }
    }

    /// The value in TOML, if the field is set.
    pub open spec fn toml(self) -> Option<Seq<char>> {
        match self.value {
            Value::Time(Some(time), _) => Some(outside::toml_string(time.text@)),
            Value::Size(Some(size), _) => Some(outside::toml_string(size.text@)),
            Value::SnapshotFetch(Some(size)) => Some(outside::toml_string(size.text@)),
            Value::Ratio(Some(ratio), _) => Some(outside::toml_string(ratio.text@)),
            Value::PositiveUsize(Some(n)) => Some(text::signed_decimal(n as int)),
            Value::PositiveU32(Some(n)) => Some(text::signed_decimal(n as int)),
            Value::PositiveU64(Some(n)) => Some(text::signed_decimal(n as int)),
            Value::PositiveI16(Some(n)) => Some(text::signed_decimal(n as int)),
            Value::PositiveI32(Some(n)) => Some(text::signed_decimal(n as int)),
            Value::PositiveI64(Some(n)) => Some(text::signed_decimal(n as int)),
            Value::NonnegativeI32(Some(n)) => Some(text::signed_decimal(n as int)),
            Value::NonnegativeI64(Some(n)) => Some(text::signed_decimal(n as int)),
            Value::Usize(Some(n)) => Some(text::signed_decimal(n as int)),
            Value::U64(Some(n)) => Some(text::signed_decimal(n as int)),
            Value::Flag(Some(flag)) => Some(
                if flag {
                    "true"@
                } else {
                    "false"@
                },
            ),
            Value::Text(Some(value)) => Some(outside::toml_string(value@)),
            _ => None,
        }
    }

    /// The line of the field in the broker configuration. An absent field has
    /// none.
    pub open spec fn line(self) -> Seq<char> {
        match self.toml() {
            Some(value) => self.name@ + " = "@ + value + "\n"@,
            None => Seq::empty(),
        }
    }

    fn validate(&self, snapshot_fetch: &Result<(), String>) -> (r: Result<(), String>)
        ensures
            report::reports(r, self.error(*snapshot_fetch)),
    {
        let name = self.name;
        match &self.value {
            Value::Time(Some(time), rule) => match rule {
                TimeRule::Nonnegative => validate_nonnegative_tuning_time(name, time.value),
                TimeRule::Positive => validate_positive_tuning_time(name, time.value),
                TimeRule::WholeMillis => validate_whole_millis_tuning_time(name, time.value),
                TimeRule::AtMostMillis(max) => validate_bounded_tuning_time(name, time.value, *max),
            },
            Value::Size(Some(size), max) => validate_tuning_size(name, size.value, *max),
            Value::SnapshotFetch(Some(_)) => match snapshot_fetch {
                Ok(_) => Ok(()),
                Err(error) => Err(BrokerTuning::invalid(name, error.as_str())),
            },
            Value::Ratio(Some(ratio), rule) => match rule {
                RatioRule::Positive => validate_positive_tuning_ratio(name, ratio.value),
                RatioRule::UnitInterval => validate_unit_interval_tuning_ratio(name, ratio.value),
            },
            Value::PositiveUsize(Some(n)) => named(name, positive_usize(*n)),
            Value::PositiveU32(Some(n)) => named(name, positive_u32(*n)),
            Value::PositiveU64(Some(n)) => named(name, positive_u64(*n)),
            Value::PositiveI16(Some(n)) => named(name, positive_i16(*n)),
            Value::PositiveI32(Some(n)) => named(name, positive_i32(*n)),
            Value::PositiveI64(Some(n)) => named(name, positive_i64(*n)),
            Value::NonnegativeI32(Some(n)) => named(name, nonnegative_i32(*n)),
            Value::NonnegativeI64(Some(n)) => named(name, nonnegative_i64(*n)),
            _ => Ok(()),
        }
    }

    fn render(&self) -> (r: Option<String>)
        ensures
            match r {
                Some(value) => self.toml() == Some(value@),
                None => self.toml() is None,
            },
    {
        match &self.value {
            Value::Time(Some(time), _) => Some(render_toml_string(time.text.as_str())),
            Value::Size(Some(size), _) => Some(render_toml_string(size.text.as_str())),
            Value::SnapshotFetch(Some(size)) => Some(render_toml_string(size.text.as_str())),
            Value::Ratio(Some(ratio), _) => Some(render_toml_string(ratio.text.as_str())),
            Value::PositiveUsize(Some(n)) => Some(decimal_u64(*n as u64)),
            Value::PositiveU32(Some(n)) => Some(decimal_u64(*n as u64)),
            Value::PositiveU64(Some(n)) => Some(decimal_u64(*n)),
            Value::PositiveI16(Some(n)) => Some(decimal_i64(*n as i64)),
            Value::PositiveI32(Some(n)) => Some(decimal_i64(*n as i64)),
            Value::PositiveI64(Some(n)) => Some(decimal_i64(*n)),
            Value::NonnegativeI32(Some(n)) => Some(decimal_i64(*n as i64)),
            Value::NonnegativeI64(Some(n)) => Some(decimal_i64(*n)),
            Value::Usize(Some(n)) => Some(decimal_u64(*n as u64)),
            Value::U64(Some(n)) => Some(decimal_u64(*n)),
            Value::Flag(Some(flag)) => Some(
                String::from_str(
                    if *flag {
                        "true"
                    } else {
                        "false"
                    },
                ),
            ),
            Value::Text(Some(value)) => Some(render_toml_string(value.as_str())),
            _ => None,
        }
    }
}

fn named(field: &str, verdict: Result<(), String>) -> (r: Result<(), String>)
    ensures
        report::reports(r, verdict_error(field@, verdict)),
{
    match verdict {
        Ok(_) => Ok(()),
        Err(error) => Err(BrokerTuning::invalid(field, error.as_str())),
    }
}

/// What is wrong with the first field that is not valid by itself.
pub open spec fn first_error(fields: Seq<Field<'_>>, snapshot_fetch: Result<(), String>) -> Option<
    Seq<char>,
>
    decreases fields.len(),
{
    if fields.len() == 0 {
        None
    } else {
        match fields[0].error(snapshot_fetch) {
            Some(error) => Some(error),
            None => first_error(fields.drop_first(), snapshot_fetch),
        }
    }
}

/// The lines of the fields, one after the other.
pub open spec fn lines(fields: Seq<Field<'_>>) -> Seq<char>
    decreases fields.len(),
{
    if fields.len() == 0 {
        Seq::empty()
    } else {
        lines(fields.drop_last()) + fields.last().line()
    }
}

/// The limits for the decompression of records.
#[derive(Debug, Clone, Copy)]
pub struct RecordDecompressionLimits {
    pub max_ratio: Ratio,
    pub output_floor: ByteSize,
    pub output_ceiling: ByteSize,
}

/// A condition on more than one field, over the numbers that stand for them.
pub enum Relation {
    /// `low` is at most `high`.
    AtMost { left: &'static str, low: Binary64, right: &'static str, high: Binary64 },
    /// `low` is below `high`.
    Below { left: &'static str, low: Binary64, right: &'static str, high: Binary64 },
    /// `value` is within the limits that two other fields give.
    Between {
        field: &'static str,
        value: Binary64,
        min_field: &'static str,
        min: Binary64,
        max_field: &'static str,
        max: Binary64,
    },
    /// `value` is within fixed limits, in milliseconds.
    Within { field: &'static str, value: Binary64, min_millis: i64, max_millis: i64 },
    /// The limits for the decompression of records fit together.
    RecordDecompression,
}

/// What is wrong with the limits for the decompression of records, which got the
/// verdict `verdict`.
pub open spec fn record_decompression_error(verdict: Result<(), String>) -> Option<Seq<char>> {
    match verdict {
        Ok(_) => None,
        Err(error) => Some(
            tuning_rules::path("record_decompression_max_ratio"@) + ", "@ + tuning_rules::path(
                "record_decompression_output_floor"@,
            ) + ", and "@ + tuning_rules::path("record_decompression_output_ceiling"@) + ": "@
                + error@,
        ),
    }
}

impl Relation {
    /// What is wrong where the relation does not hold. `record_decompression` is
    /// the verdict on the limits for the decompression of records.
    pub open spec fn error(self, record_decompression: Result<(), String>) -> Option<Seq<char>> {
        match self {
            Relation::AtMost { left, low, right, high } => if high.below(low) {
                Some(
                    tuning_rules::invalid_relation(
                        left@,
                        right@,
                        "minimum or initial value exceeds maximum"@,
                    ),
                )
            } else {
                None
            },
            Relation::Below { left, low, right, high } => if high.at_most(low) {
                Some(
                    tuning_rules::invalid_relation(
                        left@,
                        right@,
                        "left value must be below right value"@,
                    ),
                )
            } else {
                None
            },
            Relation::Between { field, value, min_field, min, max_field, max } => if min.at_most(
                value,
            ) && value.at_most(max) {
                None
            } else {
                Some(
                    tuning_rules::path(field@) + " must be within "@ + tuning_rules::path(
                        min_field@,
                    ) + " and "@ + tuning_rules::path(max_field@),
                )
            },
            Relation::Within { field, value, min_millis, max_millis } => if Time::of_millis(
                min_millis as int,
            ).secs.at_most(value) && value.at_most(Time::of_millis(max_millis as int).secs) {
                None
            } else {
                Some(
                    tuning_rules::invalid(
                        field@,
                        "must be within "@ + text::signed_decimal(min_millis as int) + "..="@
                            + text::signed_decimal(max_millis as int),
                    ),
                )
            },
            Relation::RecordDecompression => record_decompression_error(record_decompression),
        }
    }

    fn validate(&self, record_decompression: &Result<(), String>) -> (r: Result<(), String>)
        ensures
            report::reports(r, self.error(*record_decompression)),
    {
        match self {
            Relation::AtMost { left, low, right, high } => if high.is_below(*low) {
                Err(
                    BrokerTuning::invalid_relation(
                        left,
                        right,
                        "minimum or initial value exceeds maximum",
                    ),
                )
            } else {
                Ok(())
            },
            Relation::Below { left, low, right, high } => if high.is_at_most(*low) {
                Err(
                    BrokerTuning::invalid_relation(
                        left,
                        right,
                        "left value must be below right value",
                    ),
                )
            } else {
                Ok(())
            },
            Relation::Between { field, value, min_field, min, max_field, max } => {
                if min.is_at_most(*value) && value.is_at_most(*max) {
                    Ok(())
                } else {
                    let mut message = BrokerTuning::path(field);
                    message.append(" must be within ");
                    message.append(BrokerTuning::path(min_field).as_str());
                    message.append(" and ");
                    message.append(BrokerTuning::path(max_field).as_str());
                    Err(message)
                }
            },
            Relation::Within { field, value, min_millis, max_millis } => {
                if Time::from_millis(*min_millis).secs.is_at_most(*value) && value.is_at_most(
                    Time::from_millis(*max_millis).secs,
                ) {
                    Ok(())
                } else {
                    let mut message = String::from_str("must be within ");
                    message.append(decimal_i64(*min_millis).as_str());
                    message.append("..=");
                    message.append(decimal_i64(*max_millis).as_str());
                    Err(BrokerTuning::invalid(field, message.as_str()))
                }
            },
            Relation::RecordDecompression => {
                BrokerTuning::validate_record_decompression(record_decompression)
            },
        }
    }
}

/// What is wrong with the first relation that does not hold.
pub open spec fn first_broken(
    relations: Seq<Relation>,
    record_decompression: Result<(), String>,
) -> Option<Seq<char>>
    decreases relations.len(),
{
    if relations.len() == 0 {
        None
    } else {
        match relations[0].error(record_decompression) {
            Some(error) => Some(error),
            None => first_broken(relations.drop_first(), record_decompression),
        }
    }
}

/// An extent that is set, or else the default of the broker, in seconds.
pub open spec fn time_or(time: Option<Setting<Time>>, default_millis: i64) -> Binary64 {
    match time {
        Some(setting) => setting.value.secs,
        None => Time::of_millis(default_millis as int).secs,
    }
}

/// A byte count that is set, or else the default of the broker, in bytes.
pub open spec fn size_or(size: Option<Setting<ByteSize>>, default_bytes: u64) -> Binary64 {
    match size {
        Some(setting) => setting.value.bytes,
        None => ByteSize::of_bytes(default_bytes as int).bytes,
    }
}

fn effective_time(time: &Option<Setting<Time>>, default_millis: i64) -> (r: Binary64)
    ensures
        r == time_or(*time, default_millis),
{
    match time {
        Some(setting) => setting.value.secs,
        None => Time::from_millis(default_millis).secs,
    }
}

fn effective_size(size: &Option<Setting<ByteSize>>, default_bytes: u64) -> (r: Binary64)
    ensures
        r == size_or(*size, default_bytes),
{
    match size {
        Some(setting) => setting.value.bytes,
        None => ByteSize::from_bytes(default_bytes).bytes,
    }
}

/// Typed surface for the `[runtime]` policy of the brokers. An absent field
/// leaves the default of the broker.
#[derive(Debug, Clone, PartialEq)]
pub struct BrokerTuning {
    pub startup_leader_wait_timeout: Option<Setting<Time>>,
    pub self_registration_backoff_min: Option<Setting<Time>>,
    pub self_registration_backoff_max: Option<Setting<Time>>,
    pub observer_poll_interval: Option<Setting<Time>>,
    pub audit_spool_replay_interval: Option<Setting<Time>>,
    pub audit_stats_poll_interval: Option<Setting<Time>>,
    pub audit_partition_wait_timeout: Option<Setting<Time>>,
    pub liveness_tick_interval: Option<Setting<Time>>,
    pub gauge_poll_interval: Option<Setting<Time>>,
    pub cleaner_interval: Option<Setting<Time>>,
    pub isr_scan_interval: Option<Setting<Time>>,
    pub future_log_move_retry_backoff: Option<Setting<Time>>,
    pub client_metrics_eviction_tick: Option<Setting<Time>>,
    pub client_metrics_stale_floor: Option<Setting<Time>>,
    pub client_metrics_default_interval: Option<Setting<Time>>,
    pub client_metrics_telemetry_max: Option<Setting<ByteSize>>,
    pub client_metrics_prom_snapshot_ttl: Option<Setting<Time>>,
    pub rlmm_reconcile_tick: Option<Setting<Time>>,
    pub rlmm_bootstrap_backoff_initial: Option<Setting<Time>>,
    pub rlmm_bootstrap_backoff_max: Option<Setting<Time>>,
    pub connection_creation_throttle_max: Option<Setting<Time>>,
    pub opa_http_timeout: Option<Setting<Time>>,
    pub oauth_jwks_http_timeout: Option<Setting<Time>>,
    pub auto_join_retry_backoff: Option<Setting<Time>>,
    pub auto_join_voter_request_timeout: Option<Setting<Time>>,
    pub replication_fetch_max: Option<Setting<ByteSize>>,
    pub replication_fetch_max_wait: Option<Setting<Time>>,
    pub replication_fetch_min: Option<Setting<ByteSize>>,
    pub replication_throttle_exhausted_backoff: Option<Setting<Time>>,
    pub replication_send_error_backoff: Option<Setting<Time>>,
    pub replication_unknown_topic_retry_delay: Option<Setting<Time>>,
    pub replication_epoch_fence_backoff: Option<Setting<Time>>,
    pub replication_unexpected_error_backoff: Option<Setting<Time>>,
    pub replication_reconnect_initial_delay: Option<Setting<Time>>,
    pub replication_reconnect_delay_cap: Option<Setting<Time>>,
    pub coordinator_session_expiry_tick: Option<Setting<Time>>,
    pub coordinator_shutdown_ack_timeout: Option<Setting<Time>>,
    pub consumer_group_session_timeout: Option<Setting<Time>>,
    pub consumer_group_heartbeat_interval: Option<Setting<Time>>,
    pub consumer_group_min_session_timeout: Option<Setting<Time>>,
    pub consumer_group_max_session_timeout: Option<Setting<Time>>,
    pub consumer_group_min_heartbeat_interval: Option<Setting<Time>>,
    pub consumer_group_max_heartbeat_interval: Option<Setting<Time>>,
    pub consumer_group_max_size: Option<usize>,
    pub classic_group_initial_rebalance_delay: Option<Setting<Time>>,
    pub sync_group_follower_wait: Option<Setting<Time>>,
    pub unclean_recovery_aggressive_deadline: Option<Setting<Time>>,
    pub unclean_recovery_balanced_deadline: Option<Setting<Time>>,
    pub operator_recovery_deadline: Option<Setting<Time>>,
    pub quota_throttle_max: Option<Setting<Time>>,
    pub self_registration_max_attempts: Option<u32>,
    pub observer_fetch_max: Option<Setting<ByteSize>>,
    pub audit_event_queue_capacity: Option<usize>,
    pub audit_tail_window_offsets: Option<i64>,
    pub audit_tail_read_max: Option<Setting<ByteSize>>,
    pub offsets_topic_metadata_wait_timeout: Option<Setting<Time>>,
    pub client_metrics_stale_push_intervals: Option<u32>,
    pub client_metrics_otlp_queue_capacity: Option<usize>,
    pub coordinator_actor_mailbox_capacity: Option<usize>,
    pub diskless_wal_local_replica_count: Option<usize>,
    pub diskless_wal_flush_interval: Option<Setting<Time>>,
    pub diskless_wal_flush_max_size: Option<Setting<ByteSize>>,
    pub diskless_wal_trim_safety_lag: Option<i64>,
    pub diskless_wal_index_projection_timeout: Option<Setting<Time>>,
    pub unclean_recovery_queue_capacity: Option<usize>,
    pub share_recovery_read_max: Option<Setting<ByteSize>>,
    pub share_session_cache_max_when_unlimited: Option<usize>,
    pub log_read_buffer_cap: Option<Setting<ByteSize>>,
    pub log_timestamp_scan_window: Option<Setting<ByteSize>>,
    pub socket_request_max: Option<Setting<ByteSize>>,
    pub sendfile_min: Option<Setting<ByteSize>>,
    pub socket_send_buffer: Option<Setting<ByteSize>>,
    pub socket_receive_buffer: Option<Setting<ByteSize>>,
    pub acl_max_principal: Option<Setting<ByteSize>>,
    pub acl_max_resource_name: Option<Setting<ByteSize>>,
    pub telemetry_max_decompression_ratio: Option<Setting<Ratio>>,
    pub telemetry_decompressed_output_floor: Option<Setting<ByteSize>>,
    pub telemetry_decompressed_output_ceiling: Option<Setting<ByteSize>>,
    pub record_decompression_max_ratio: Option<Setting<Ratio>>,
    pub record_decompression_output_floor: Option<Setting<ByteSize>>,
    pub record_decompression_output_ceiling: Option<Setting<ByteSize>>,
    pub inter_broker_server_name: Option<String>,
    pub producer_id_expiration: Option<Setting<Time>>,
    pub producer_id_expiration_scan_interval: Option<Setting<Time>>,
    pub max_produce_group: Option<usize>,
    pub partition_writer_queue_depth: Option<usize>,
    pub default_min_insync_replicas: Option<i32>,
    pub future_log_move_read_chunk: Option<Setting<ByteSize>>,
    pub share_state_num_partitions: Option<i32>,
    pub share_state_replication_factor: Option<i16>,
    pub transaction_state_num_partitions: Option<i32>,
    pub transaction_recovery_read_max: Option<Setting<ByteSize>>,
    pub transaction_state_replication_factor: Option<i16>,
    pub transaction_min_timeout: Option<Setting<Time>>,
    pub transaction_max_timeout: Option<Setting<Time>>,
    pub partition_disk_scan_interval: Option<Setting<Time>>,
    pub observer_lag_bound: Option<u64>,
    pub heartbeat_interval: Option<Setting<Time>>,
    pub heartbeat_timeout: Option<Setting<Time>>,
    pub replica_lag_time_max: Option<Setting<Time>>,
    pub controller_election_timeout: Option<Setting<Time>>,
    pub controller_heartbeat_interval: Option<Setting<Time>>,
    pub controller_fetch_miss_limit: Option<u32>,
    pub metadata_raft_command_queue_capacity: Option<usize>,
    pub metadata_raft_fetch_max: Option<Setting<ByteSize>>,
    pub controlled_shutdown_drain_timeout: Option<Setting<Time>>,
    pub metadata_max_between_snapshots: Option<Setting<ByteSize>>,
    pub metadata_max_snapshot_interval: Option<Setting<Time>>,
    pub metadata_snapshot_interval_records: Option<u64>,
    pub metadata_snapshot_fetch_max: Option<Setting<ByteSize>>,
    pub txn_abort_cleanup_interval: Option<Setting<Time>>,
    pub leader_imbalance_check_interval: Option<Setting<Time>>,
    pub leader_imbalance_per_broker: Option<Setting<Ratio>>,
    pub tls_reload_interval: Option<Setting<Time>>,
    pub max_incremental_fetch_session_cache_slots: Option<usize>,
    pub max_connections: Option<usize>,
    pub max_connections_per_ip: Option<usize>,
    pub delegation_token_max_lifetime: Option<Setting<Time>>,
    pub delegation_token_expiry_check_interval: Option<Setting<Time>>,
    pub delegation_token_default_renew_period: Option<Setting<Time>>,
    pub remote_log_manager_interval: Option<Setting<Time>>,
    pub share_group_enable: Option<bool>,
    pub share_group_session_timeout: Option<Setting<Time>>,
    pub share_group_heartbeat_interval: Option<Setting<Time>>,
    pub share_group_max_size: Option<usize>,
    pub share_group_record_lock_duration: Option<Setting<Time>>,
    pub share_group_max_delivery_attempts: Option<i16>,
    pub share_group_max_inflight_records: Option<i32>,
    pub share_group_isolation_level: Option<String>,
    pub streams_group_enable: Option<bool>,
    pub streams_group_session_timeout: Option<Setting<Time>>,
    pub streams_group_heartbeat_interval: Option<Setting<Time>>,
    pub streams_group_max_size: Option<usize>,
    pub streams_internal_topic_replication_factor: Option<i16>,
    pub streams_group_num_standby_replicas: Option<i32>,
    pub streams_group_num_warmup_replicas: Option<i32>,
    pub streams_group_acceptable_recovery_lag: Option<i64>,
    pub streams_group_task_offset_interval: Option<Setting<Time>>,
    pub streams_group_assignor: Option<String>,
}

impl BrokerTuning {
    /// Whether no field is set.
    pub open spec fn unset(&self) -> bool {
        &&& self.startup_leader_wait_timeout is None
        &&& self.self_registration_backoff_min is None
        &&& self.self_registration_backoff_max is None
        &&& self.observer_poll_interval is None
        &&& self.audit_spool_replay_interval is None
        &&& self.audit_stats_poll_interval is None
        &&& self.audit_partition_wait_timeout is None
        &&& self.liveness_tick_interval is None
        &&& self.gauge_poll_interval is None
        &&& self.cleaner_interval is None
        &&& self.isr_scan_interval is None
        &&& self.future_log_move_retry_backoff is None
        &&& self.client_metrics_eviction_tick is None
        &&& self.client_metrics_stale_floor is None
        &&& self.client_metrics_default_interval is None
        &&& self.client_metrics_telemetry_max is None
        &&& self.client_metrics_prom_snapshot_ttl is None
        &&& self.rlmm_reconcile_tick is None
        &&& self.rlmm_bootstrap_backoff_initial is None
        &&& self.rlmm_bootstrap_backoff_max is None
        &&& self.connection_creation_throttle_max is None
        &&& self.opa_http_timeout is None
        &&& self.oauth_jwks_http_timeout is None
        &&& self.auto_join_retry_backoff is None
        &&& self.auto_join_voter_request_timeout is None
        &&& self.replication_fetch_max is None
        &&& self.replication_fetch_max_wait is None
        &&& self.replication_fetch_min is None
        &&& self.replication_throttle_exhausted_backoff is None
        &&& self.replication_send_error_backoff is None
        &&& self.replication_unknown_topic_retry_delay is None
        &&& self.replication_epoch_fence_backoff is None
        &&& self.replication_unexpected_error_backoff is None
        &&& self.replication_reconnect_initial_delay is None
        &&& self.replication_reconnect_delay_cap is None
        &&& self.coordinator_session_expiry_tick is None
        &&& self.coordinator_shutdown_ack_timeout is None
        &&& self.consumer_group_session_timeout is None
        &&& self.consumer_group_heartbeat_interval is None
        &&& self.consumer_group_min_session_timeout is None
        &&& self.consumer_group_max_session_timeout is None
        &&& self.consumer_group_min_heartbeat_interval is None
        &&& self.consumer_group_max_heartbeat_interval is None
        &&& self.consumer_group_max_size is None
        &&& self.classic_group_initial_rebalance_delay is None
        &&& self.sync_group_follower_wait is None
        &&& self.unclean_recovery_aggressive_deadline is None
        &&& self.unclean_recovery_balanced_deadline is None
        &&& self.operator_recovery_deadline is None
        &&& self.quota_throttle_max is None
        &&& self.self_registration_max_attempts is None
        &&& self.observer_fetch_max is None
        &&& self.audit_event_queue_capacity is None
        &&& self.audit_tail_window_offsets is None
        &&& self.audit_tail_read_max is None
        &&& self.offsets_topic_metadata_wait_timeout is None
        &&& self.client_metrics_stale_push_intervals is None
        &&& self.client_metrics_otlp_queue_capacity is None
        &&& self.coordinator_actor_mailbox_capacity is None
        &&& self.diskless_wal_local_replica_count is None
        &&& self.diskless_wal_flush_interval is None
        &&& self.diskless_wal_flush_max_size is None
        &&& self.diskless_wal_trim_safety_lag is None
        &&& self.diskless_wal_index_projection_timeout is None
        &&& self.unclean_recovery_queue_capacity is None
        &&& self.share_recovery_read_max is None
        &&& self.share_session_cache_max_when_unlimited is None
        &&& self.log_read_buffer_cap is None
        &&& self.log_timestamp_scan_window is None
        &&& self.socket_request_max is None
        &&& self.sendfile_min is None
        &&& self.socket_send_buffer is None
        &&& self.socket_receive_buffer is None
        &&& self.acl_max_principal is None
        &&& self.acl_max_resource_name is None
        &&& self.telemetry_max_decompression_ratio is None
        &&& self.telemetry_decompressed_output_floor is None
        &&& self.telemetry_decompressed_output_ceiling is None
        &&& self.record_decompression_max_ratio is None
        &&& self.record_decompression_output_floor is None
        &&& self.record_decompression_output_ceiling is None
        &&& self.inter_broker_server_name is None
        &&& self.producer_id_expiration is None
        &&& self.producer_id_expiration_scan_interval is None
        &&& self.max_produce_group is None
        &&& self.partition_writer_queue_depth is None
        &&& self.default_min_insync_replicas is None
        &&& self.future_log_move_read_chunk is None
        &&& self.share_state_num_partitions is None
        &&& self.share_state_replication_factor is None
        &&& self.transaction_state_num_partitions is None
        &&& self.transaction_recovery_read_max is None
        &&& self.transaction_state_replication_factor is None
        &&& self.transaction_min_timeout is None
        &&& self.transaction_max_timeout is None
        &&& self.partition_disk_scan_interval is None
        &&& self.observer_lag_bound is None
        &&& self.heartbeat_interval is None
        &&& self.heartbeat_timeout is None
        &&& self.replica_lag_time_max is None
        &&& self.controller_election_timeout is None
        &&& self.controller_heartbeat_interval is None
        &&& self.controller_fetch_miss_limit is None
        &&& self.metadata_raft_command_queue_capacity is None
        &&& self.metadata_raft_fetch_max is None
        &&& self.controlled_shutdown_drain_timeout is None
        &&& self.metadata_max_between_snapshots is None
        &&& self.metadata_max_snapshot_interval is None
        &&& self.metadata_snapshot_interval_records is None
        &&& self.metadata_snapshot_fetch_max is None
        &&& self.txn_abort_cleanup_interval is None
        &&& self.leader_imbalance_check_interval is None
        &&& self.leader_imbalance_per_broker is None
        &&& self.tls_reload_interval is None
        &&& self.max_incremental_fetch_session_cache_slots is None
        &&& self.max_connections is None
        &&& self.max_connections_per_ip is None
        &&& self.delegation_token_max_lifetime is None
        &&& self.delegation_token_expiry_check_interval is None
        &&& self.delegation_token_default_renew_period is None
        &&& self.remote_log_manager_interval is None
        &&& self.share_group_enable is None
        &&& self.share_group_session_timeout is None
        &&& self.share_group_heartbeat_interval is None
        &&& self.share_group_max_size is None
        &&& self.share_group_record_lock_duration is None
        &&& self.share_group_max_delivery_attempts is None
        &&& self.share_group_max_inflight_records is None
        &&& self.share_group_isolation_level is None
        &&& self.streams_group_enable is None
        &&& self.streams_group_session_timeout is None
        &&& self.streams_group_heartbeat_interval is None
        &&& self.streams_group_max_size is None
        &&& self.streams_internal_topic_replication_factor is None
        &&& self.streams_group_num_standby_replicas is None
        &&& self.streams_group_num_warmup_replicas is None
        &&& self.streams_group_acceptable_recovery_lag is None
        &&& self.streams_group_task_offset_interval is None
        &&& self.streams_group_assignor is None
    }
}

impl Default for BrokerTuning {
    /// A tuning that sets no field.
    fn default() -> (r: Self)
        ensures
            r.unset(),
    {
        BrokerTuning {
            startup_leader_wait_timeout: None,
            self_registration_backoff_min: None,
            self_registration_backoff_max: None,
            observer_poll_interval: None,
            audit_spool_replay_interval: None,
            audit_stats_poll_interval: None,
            audit_partition_wait_timeout: None,
            liveness_tick_interval: None,
            gauge_poll_interval: None,
            cleaner_interval: None,
            isr_scan_interval: None,
            future_log_move_retry_backoff: None,
            client_metrics_eviction_tick: None,
            client_metrics_stale_floor: None,
            client_metrics_default_interval: None,
            client_metrics_telemetry_max: None,
            client_metrics_prom_snapshot_ttl: None,
            rlmm_reconcile_tick: None,
            rlmm_bootstrap_backoff_initial: None,
            rlmm_bootstrap_backoff_max: None,
            connection_creation_throttle_max: None,
            opa_http_timeout: None,
            oauth_jwks_http_timeout: None,
            auto_join_retry_backoff: None,
            auto_join_voter_request_timeout: None,
            replication_fetch_max: None,
            replication_fetch_max_wait: None,
            replication_fetch_min: None,
            replication_throttle_exhausted_backoff: None,
            replication_send_error_backoff: None,
            replication_unknown_topic_retry_delay: None,
            replication_epoch_fence_backoff: None,
            replication_unexpected_error_backoff: None,
            replication_reconnect_initial_delay: None,
            replication_reconnect_delay_cap: None,
            coordinator_session_expiry_tick: None,
            coordinator_shutdown_ack_timeout: None,
            consumer_group_session_timeout: None,
            consumer_group_heartbeat_interval: None,
            consumer_group_min_session_timeout: None,
            consumer_group_max_session_timeout: None,
            consumer_group_min_heartbeat_interval: None,
            consumer_group_max_heartbeat_interval: None,
            consumer_group_max_size: None,
            classic_group_initial_rebalance_delay: None,
            sync_group_follower_wait: None,
            unclean_recovery_aggressive_deadline: None,
            unclean_recovery_balanced_deadline: None,
            operator_recovery_deadline: None,
            quota_throttle_max: None,
            self_registration_max_attempts: None,
            observer_fetch_max: None,
            audit_event_queue_capacity: None,
            audit_tail_window_offsets: None,
            audit_tail_read_max: None,
            offsets_topic_metadata_wait_timeout: None,
            client_metrics_stale_push_intervals: None,
            client_metrics_otlp_queue_capacity: None,
            coordinator_actor_mailbox_capacity: None,
            diskless_wal_local_replica_count: None,
            diskless_wal_flush_interval: None,
            diskless_wal_flush_max_size: None,
            diskless_wal_trim_safety_lag: None,
            diskless_wal_index_projection_timeout: None,
            unclean_recovery_queue_capacity: None,
            share_recovery_read_max: None,
            share_session_cache_max_when_unlimited: None,
            log_read_buffer_cap: None,
            log_timestamp_scan_window: None,
            socket_request_max: None,
            sendfile_min: None,
            socket_send_buffer: None,
            socket_receive_buffer: None,
            acl_max_principal: None,
            acl_max_resource_name: None,
            telemetry_max_decompression_ratio: None,
            telemetry_decompressed_output_floor: None,
            telemetry_decompressed_output_ceiling: None,
            record_decompression_max_ratio: None,
            record_decompression_output_floor: None,
            record_decompression_output_ceiling: None,
            inter_broker_server_name: None,
            producer_id_expiration: None,
            producer_id_expiration_scan_interval: None,
            max_produce_group: None,
            partition_writer_queue_depth: None,
            default_min_insync_replicas: None,
            future_log_move_read_chunk: None,
            share_state_num_partitions: None,
            share_state_replication_factor: None,
            transaction_state_num_partitions: None,
            transaction_recovery_read_max: None,
            transaction_state_replication_factor: None,
            transaction_min_timeout: None,
            transaction_max_timeout: None,
            partition_disk_scan_interval: None,
            observer_lag_bound: None,
            heartbeat_interval: None,
            heartbeat_timeout: None,
            replica_lag_time_max: None,
            controller_election_timeout: None,
            controller_heartbeat_interval: None,
            controller_fetch_miss_limit: None,
            metadata_raft_command_queue_capacity: None,
            metadata_raft_fetch_max: None,
            controlled_shutdown_drain_timeout: None,
            metadata_max_between_snapshots: None,
            metadata_max_snapshot_interval: None,
            metadata_snapshot_interval_records: None,
            metadata_snapshot_fetch_max: None,
            txn_abort_cleanup_interval: None,
            leader_imbalance_check_interval: None,
            leader_imbalance_per_broker: None,
            tls_reload_interval: None,
            max_incremental_fetch_session_cache_slots: None,
            max_connections: None,
            max_connections_per_ip: None,
            delegation_token_max_lifetime: None,
            delegation_token_expiry_check_interval: None,
            delegation_token_default_renew_period: None,
            remote_log_manager_interval: None,
            share_group_enable: None,
            share_group_session_timeout: None,
            share_group_heartbeat_interval: None,
            share_group_max_size: None,
            share_group_record_lock_duration: None,
            share_group_max_delivery_attempts: None,
            share_group_max_inflight_records: None,
            share_group_isolation_level: None,
            streams_group_enable: None,
            streams_group_session_timeout: None,
            streams_group_heartbeat_interval: None,
            streams_group_max_size: None,
            streams_internal_topic_replication_factor: None,
            streams_group_num_standby_replicas: None,
            streams_group_num_warmup_replicas: None,
            streams_group_acceptable_recovery_lag: None,
            streams_group_task_offset_interval: None,
            streams_group_assignor: None,
        }
    }
}

impl BrokerTuning {
    /// Startup, auditing, and background scans.
    pub open spec fn startup_fields(&self) -> Seq<Field<'_>> {
        seq![
            Field {
                name: "startup_leader_wait_timeout",
                value: Value::Time(&self.startup_leader_wait_timeout, TimeRule::Positive),
            },
            Field {
                name: "self_registration_backoff_min",
                value: Value::Time(&self.self_registration_backoff_min, TimeRule::Positive),
            },
            Field {
                name: "self_registration_backoff_max",
                value: Value::Time(&self.self_registration_backoff_max, TimeRule::Positive),
            },
            Field {
                name: "observer_poll_interval",
                value: Value::Time(&self.observer_poll_interval, TimeRule::Positive),
            },
            Field {
                name: "audit_spool_replay_interval",
                value: Value::Time(&self.audit_spool_replay_interval, TimeRule::Positive),
            },
            Field {
                name: "audit_stats_poll_interval",
                value: Value::Time(&self.audit_stats_poll_interval, TimeRule::Positive),
            },
            Field {
                name: "audit_partition_wait_timeout",
                value: Value::Time(&self.audit_partition_wait_timeout, TimeRule::Positive),
            },
            Field {
                name: "liveness_tick_interval",
                value: Value::Time(&self.liveness_tick_interval, TimeRule::Positive),
            },
            Field {
                name: "gauge_poll_interval",
                value: Value::Time(&self.gauge_poll_interval, TimeRule::Positive),
            },
            Field {
                name: "cleaner_interval",
                value: Value::Time(&self.cleaner_interval, TimeRule::Positive),
            },
            Field {
                name: "isr_scan_interval",
                value: Value::Time(&self.isr_scan_interval, TimeRule::Positive),
            },
            Field {
                name: "future_log_move_retry_backoff",
                value: Value::Time(&self.future_log_move_retry_backoff, TimeRule::Positive),
            },
        ]
    }

    /// Client metrics, remote-log metadata, and outbound requests.
    pub open spec fn client_metrics_fields(&self) -> Seq<Field<'_>> {
        seq![
            Field {
                name: "client_metrics_eviction_tick",
                value: Value::Time(&self.client_metrics_eviction_tick, TimeRule::Positive),
            },
            Field {
                name: "client_metrics_stale_floor",
                value: Value::Time(&self.client_metrics_stale_floor, TimeRule::Positive),
            },
            Field {
                name: "client_metrics_default_interval",
                value: Value::Time(
                    &self.client_metrics_default_interval,
                    TimeRule::AtMostMillis(i32::MAX),
                ),
            },
            Field {
                name: "client_metrics_telemetry_max",
                value: Value::Size(&self.client_metrics_telemetry_max, I32_SIZE),
            },
            Field {
                name: "client_metrics_prom_snapshot_ttl",
                value: Value::Time(&self.client_metrics_prom_snapshot_ttl, TimeRule::Positive),
            },
            Field {
                name: "rlmm_reconcile_tick",
                value: Value::Time(&self.rlmm_reconcile_tick, TimeRule::Positive),
            },
            Field {
                name: "rlmm_bootstrap_backoff_initial",
                value: Value::Time(&self.rlmm_bootstrap_backoff_initial, TimeRule::Positive),
            },
            Field {
                name: "rlmm_bootstrap_backoff_max",
                value: Value::Time(&self.rlmm_bootstrap_backoff_max, TimeRule::Positive),
            },
            Field {
                name: "connection_creation_throttle_max",
                value: Value::Time(&self.connection_creation_throttle_max, TimeRule::Positive),
            },
            Field {
                name: "opa_http_timeout",
                value: Value::Time(&self.opa_http_timeout, TimeRule::Positive),
            },
            Field {
                name: "oauth_jwks_http_timeout",
                value: Value::Time(&self.oauth_jwks_http_timeout, TimeRule::Positive),
            },
            Field {
                name: "auto_join_retry_backoff",
                value: Value::Time(&self.auto_join_retry_backoff, TimeRule::Positive),
            },
            Field {
                name: "auto_join_voter_request_timeout",
                value: Value::Time(
                    &self.auto_join_voter_request_timeout,
                    TimeRule::AtMostMillis(i32::MAX),
                ),
            },
        ]
    }

    /// Replication.
    pub open spec fn replication_fields(&self) -> Seq<Field<'_>> {
        seq![
            Field {
                name: "replication_fetch_max",
                value: Value::Size(&self.replication_fetch_max, I32_SIZE),
            },
            Field {
                name: "replication_fetch_max_wait",
                value: Value::Time(
                    &self.replication_fetch_max_wait,
                    TimeRule::AtMostMillis(i32::MAX),
                ),
            },
            Field {
                name: "replication_fetch_min",
                value: Value::Size(&self.replication_fetch_min, I32_SIZE),
            },
            Field {
                name: "replication_throttle_exhausted_backoff",
                value: Value::Time(
                    &self.replication_throttle_exhausted_backoff,
                    TimeRule::Positive,
                ),
            },
            Field {
                name: "replication_send_error_backoff",
                value: Value::Time(&self.replication_send_error_backoff, TimeRule::Positive),
            },
            Field {
                name: "replication_unknown_topic_retry_delay",
                value: Value::Time(&self.replication_unknown_topic_retry_delay, TimeRule::Positive),
            },
            Field {
                name: "replication_epoch_fence_backoff",
                value: Value::Time(&self.replication_epoch_fence_backoff, TimeRule::Positive),
            },
            Field {
                name: "replication_unexpected_error_backoff",
                value: Value::Time(&self.replication_unexpected_error_backoff, TimeRule::Positive),
            },
            Field {
                name: "replication_reconnect_initial_delay",
                value: Value::Time(&self.replication_reconnect_initial_delay, TimeRule::Positive),
            },
            Field {
                name: "replication_reconnect_delay_cap",
                value: Value::Time(&self.replication_reconnect_delay_cap, TimeRule::Positive),
            },
        ]
    }

    /// Coordinators, consumer groups, and recovery.
    pub open spec fn group_fields(&self) -> Seq<Field<'_>> {
        seq![
            Field {
                name: "coordinator_session_expiry_tick",
                value: Value::Time(&self.coordinator_session_expiry_tick, TimeRule::Positive),
            },
            Field {
                name: "coordinator_shutdown_ack_timeout",
                value: Value::Time(&self.coordinator_shutdown_ack_timeout, TimeRule::Positive),
            },
            Field {
                name: "consumer_group_session_timeout",
                value: Value::Time(&self.consumer_group_session_timeout, TimeRule::Positive),
            },
            Field {
                name: "consumer_group_heartbeat_interval",
                value: Value::Time(&self.consumer_group_heartbeat_interval, TimeRule::Positive),
            },
            Field {
                name: "consumer_group_min_session_timeout",
                value: Value::Time(&self.consumer_group_min_session_timeout, TimeRule::Positive),
            },
            Field {
                name: "consumer_group_max_session_timeout",
                value: Value::Time(&self.consumer_group_max_session_timeout, TimeRule::Positive),
            },
            Field {
                name: "consumer_group_min_heartbeat_interval",
                value: Value::Time(&self.consumer_group_min_heartbeat_interval, TimeRule::Positive),
            },
            Field {
                name: "consumer_group_max_heartbeat_interval",
                value: Value::Time(&self.consumer_group_max_heartbeat_interval, TimeRule::Positive),
            },
            Field {
                name: "consumer_group_max_size",
                value: Value::PositiveUsize(self.consumer_group_max_size),
            },
            Field {
                name: "classic_group_initial_rebalance_delay",
                value: Value::Time(&self.classic_group_initial_rebalance_delay, TimeRule::Positive),
            },
            Field {
                name: "sync_group_follower_wait",
                value: Value::Time(&self.sync_group_follower_wait, TimeRule::Positive),
            },
            Field {
                name: "unclean_recovery_aggressive_deadline",
                value: Value::Time(&self.unclean_recovery_aggressive_deadline, TimeRule::Positive),
            },
            Field {
                name: "unclean_recovery_balanced_deadline",
                value: Value::Time(&self.unclean_recovery_balanced_deadline, TimeRule::Positive),
            },
            Field {
                name: "operator_recovery_deadline",
                value: Value::Time(&self.operator_recovery_deadline, TimeRule::Positive),
            },
            Field {
                name: "quota_throttle_max",
                value: Value::Time(&self.quota_throttle_max, TimeRule::Positive),
            },
        ]
    }

    /// Queue capacities and the diskless write-ahead log.
    pub open spec fn capacity_fields(&self) -> Seq<Field<'_>> {
        seq![
            Field {
                name: "self_registration_max_attempts",
                value: Value::PositiveU32(self.self_registration_max_attempts),
            },
            Field {
                name: "observer_fetch_max",
                value: Value::Size(&self.observer_fetch_max, U32_SIZE),
            },
            Field {
                name: "audit_event_queue_capacity",
                value: Value::PositiveUsize(self.audit_event_queue_capacity),
            },
            Field {
                name: "audit_tail_window_offsets",
                value: Value::PositiveI64(self.audit_tail_window_offsets),
            },
            Field {
                name: "audit_tail_read_max",
                value: Value::Size(&self.audit_tail_read_max, usize::MAX as u64),
            },
            Field {
                name: "offsets_topic_metadata_wait_timeout",
                value: Value::Time(&self.offsets_topic_metadata_wait_timeout, TimeRule::Positive),
            },
            Field {
                name: "client_metrics_stale_push_intervals",
                value: Value::PositiveU32(self.client_metrics_stale_push_intervals),
            },
            Field {
                name: "client_metrics_otlp_queue_capacity",
                value: Value::PositiveUsize(self.client_metrics_otlp_queue_capacity),
            },
            Field {
                name: "coordinator_actor_mailbox_capacity",
                value: Value::PositiveUsize(self.coordinator_actor_mailbox_capacity),
            },
            Field {
                name: "diskless_wal_local_replica_count",
                value: Value::PositiveUsize(self.diskless_wal_local_replica_count),
            },
            Field {
                name: "diskless_wal_flush_interval",
                value: Value::Time(&self.diskless_wal_flush_interval, TimeRule::Positive),
            },
            Field {
                name: "diskless_wal_flush_max_size",
                value: Value::Size(&self.diskless_wal_flush_max_size, usize::MAX as u64),
            },
            Field {
                name: "diskless_wal_trim_safety_lag",
                value: Value::NonnegativeI64(self.diskless_wal_trim_safety_lag),
            },
            Field {
                name: "diskless_wal_index_projection_timeout",
                value: Value::Time(&self.diskless_wal_index_projection_timeout, TimeRule::Positive),
            },
            Field {
                name: "unclean_recovery_queue_capacity",
                value: Value::PositiveUsize(self.unclean_recovery_queue_capacity),
            },
            Field {
                name: "share_recovery_read_max",
                value: Value::Size(&self.share_recovery_read_max, usize::MAX as u64),
            },
        ]
    }

    /// Read sizes, sockets, ACLs, and decompression.
    pub open spec fn socket_fields(&self) -> Seq<Field<'_>> {
        seq![
            Field {
                name: "share_session_cache_max_when_unlimited",
                value: Value::PositiveUsize(self.share_session_cache_max_when_unlimited),
            },
            Field {
                name: "log_read_buffer_cap",
                value: Value::Size(&self.log_read_buffer_cap, usize::MAX as u64),
            },
            Field {
                name: "log_timestamp_scan_window",
                value: Value::Size(&self.log_timestamp_scan_window, usize::MAX as u64),
            },
            Field {
                name: "socket_request_max",
                value: Value::Size(&self.socket_request_max, U32_SIZE),
            },
            Field {
                name: "sendfile_min",
                value: Value::Size(&self.sendfile_min, usize::MAX as u64),
            },
            Field {
                name: "socket_send_buffer",
                value: Value::Size(&self.socket_send_buffer, usize::MAX as u64),
            },
            Field {
                name: "socket_receive_buffer",
                value: Value::Size(&self.socket_receive_buffer, usize::MAX as u64),
            },
            Field {
                name: "acl_max_principal",
                value: Value::Size(&self.acl_max_principal, usize::MAX as u64),
            },
            Field {
                name: "acl_max_resource_name",
                value: Value::Size(&self.acl_max_resource_name, usize::MAX as u64),
            },
            Field {
                name: "telemetry_max_decompression_ratio",
                value: Value::Ratio(&self.telemetry_max_decompression_ratio, RatioRule::Positive),
            },
            Field {
                name: "telemetry_decompressed_output_floor",
                value: Value::Size(&self.telemetry_decompressed_output_floor, usize::MAX as u64),
            },
            Field {
                name: "telemetry_decompressed_output_ceiling",
                value: Value::Size(&self.telemetry_decompressed_output_ceiling, usize::MAX as u64),
            },
            Field {
                name: "record_decompression_max_ratio",
                value: Value::Ratio(&self.record_decompression_max_ratio, RatioRule::Positive),
            },
            Field {
                name: "record_decompression_output_floor",
                value: Value::Size(&self.record_decompression_output_floor, u64::MAX),
            },
            Field {
                name: "record_decompression_output_ceiling",
                value: Value::Size(&self.record_decompression_output_ceiling, u64::MAX),
            },
            Field {
                name: "inter_broker_server_name",
                value: Value::Text(&self.inter_broker_server_name),
            },
        ]
    }

    /// Producers and transactions.
    pub open spec fn producer_fields(&self) -> Seq<Field<'_>> {
        seq![
            Field {
                name: "producer_id_expiration",
                value: Value::Time(&self.producer_id_expiration, TimeRule::WholeMillis),
            },
            Field {
                name: "producer_id_expiration_scan_interval",
                value: Value::Time(&self.producer_id_expiration_scan_interval, TimeRule::Positive),
            },
            Field {
                name: "max_produce_group",
                value: Value::PositiveUsize(self.max_produce_group),
            },
            Field {
                name: "partition_writer_queue_depth",
                value: Value::PositiveUsize(self.partition_writer_queue_depth),
            },
            Field {
                name: "default_min_insync_replicas",
                value: Value::PositiveI32(self.default_min_insync_replicas),
            },
            Field {
                name: "future_log_move_read_chunk",
                value: Value::Size(&self.future_log_move_read_chunk, usize::MAX as u64),
            },
            Field {
                name: "share_state_num_partitions",
                value: Value::PositiveI32(self.share_state_num_partitions),
            },
            Field {
                name: "share_state_replication_factor",
                value: Value::PositiveI16(self.share_state_replication_factor),
            },
            Field {
                name: "transaction_state_num_partitions",
                value: Value::PositiveI32(self.transaction_state_num_partitions),
            },
            Field {
                name: "transaction_recovery_read_max",
                value: Value::Size(&self.transaction_recovery_read_max, usize::MAX as u64),
            },
            Field {
                name: "transaction_state_replication_factor",
                value: Value::PositiveI16(self.transaction_state_replication_factor),
            },
            Field {
                name: "transaction_min_timeout",
                value: Value::Time(&self.transaction_min_timeout, TimeRule::AtMostMillis(i32::MAX)),
            },
            Field {
                name: "transaction_max_timeout",
                value: Value::Time(
                    &self.transaction_max_timeout,
                    TimeRule::AtMostMillis(MAX_TRANSACTION_MILLIS),
                ),
            },
            Field {
                name: "partition_disk_scan_interval",
                value: Value::Time(&self.partition_disk_scan_interval, TimeRule::Nonnegative),
            },
            Field {
                name: "observer_lag_bound",
                value: Value::U64(self.observer_lag_bound),
            },
        ]
    }

    /// Heartbeats, the controller, and metadata snapshots.
    pub open spec fn controller_fields(&self) -> Seq<Field<'_>> {
        seq![
            Field {
                name: "heartbeat_interval",
                value: Value::Time(&self.heartbeat_interval, TimeRule::Positive),
            },
            Field {
                name: "heartbeat_timeout",
                value: Value::Time(&self.heartbeat_timeout, TimeRule::Positive),
            },
            Field {
                name: "replica_lag_time_max",
                value: Value::Time(&self.replica_lag_time_max, TimeRule::Positive),
            },
            Field {
                name: "controller_election_timeout",
                value: Value::Time(&self.controller_election_timeout, TimeRule::Positive),
            },
            Field {
                name: "controller_heartbeat_interval",
                value: Value::Time(&self.controller_heartbeat_interval, TimeRule::Positive),
            },
            Field {
                name: "controller_fetch_miss_limit",
                value: Value::PositiveU32(self.controller_fetch_miss_limit),
            },
            Field {
                name: "metadata_raft_command_queue_capacity",
                value: Value::PositiveUsize(self.metadata_raft_command_queue_capacity),
            },
            Field {
                name: "metadata_raft_fetch_max",
                value: Value::Size(&self.metadata_raft_fetch_max, I32_SIZE),
            },
            Field {
                name: "controlled_shutdown_drain_timeout",
                value: Value::Time(&self.controlled_shutdown_drain_timeout, TimeRule::Positive),
            },
            Field {
                name: "metadata_max_between_snapshots",
                value: Value::Size(&self.metadata_max_between_snapshots, u64::MAX),
            },
            Field {
                name: "metadata_max_snapshot_interval",
                value: Value::Time(&self.metadata_max_snapshot_interval, TimeRule::Nonnegative),
            },
            Field {
                name: "metadata_snapshot_interval_records",
                value: Value::PositiveU64(self.metadata_snapshot_interval_records),
            },
            Field {
                name: "metadata_snapshot_fetch_max",
                value: Value::SnapshotFetch(&self.metadata_snapshot_fetch_max),
            },
            Field {
                name: "txn_abort_cleanup_interval",
                value: Value::Time(&self.txn_abort_cleanup_interval, TimeRule::Nonnegative),
            },
            Field {
                name: "leader_imbalance_check_interval",
                value: Value::Time(&self.leader_imbalance_check_interval, TimeRule::Positive),
            },
            Field {
                name: "leader_imbalance_per_broker",
                value: Value::Ratio(&self.leader_imbalance_per_broker, RatioRule::UnitInterval),
            },
            Field {
                name: "tls_reload_interval",
                value: Value::Time(&self.tls_reload_interval, TimeRule::Nonnegative),
            },
        ]
    }

    /// Connections and delegation tokens.
    pub open spec fn connection_fields(&self) -> Seq<Field<'_>> {
        seq![
            Field {
                name: "max_incremental_fetch_session_cache_slots",
                value: Value::Usize(self.max_incremental_fetch_session_cache_slots),
            },
            Field {
                name: "max_connections",
                value: Value::Usize(self.max_connections),
            },
            Field {
                name: "max_connections_per_ip",
                value: Value::Usize(self.max_connections_per_ip),
            },
            Field {
                name: "delegation_token_max_lifetime",
                value: Value::Time(&self.delegation_token_max_lifetime, TimeRule::WholeMillis),
            },
            Field {
                name: "delegation_token_expiry_check_interval",
                value: Value::Time(
                    &self.delegation_token_expiry_check_interval,
                    TimeRule::WholeMillis,
                ),
            },
            Field {
                name: "delegation_token_default_renew_period",
                value: Value::Time(
                    &self.delegation_token_default_renew_period,
                    TimeRule::WholeMillis,
                ),
            },
            Field {
                name: "remote_log_manager_interval",
                value: Value::Time(&self.remote_log_manager_interval, TimeRule::Positive),
            },
            Field {
                name: "share_group_enable",
                value: Value::Flag(self.share_group_enable),
            },
        ]
    }

    /// Share groups.
    pub open spec fn share_group_fields(&self) -> Seq<Field<'_>> {
        seq![
            Field {
                name: "share_group_session_timeout",
                value: Value::Time(&self.share_group_session_timeout, TimeRule::Positive),
            },
            Field {
                name: "share_group_heartbeat_interval",
                value: Value::Time(&self.share_group_heartbeat_interval, TimeRule::Positive),
            },
            Field {
                name: "share_group_max_size",
                value: Value::PositiveUsize(self.share_group_max_size),
            },
            Field {
                name: "share_group_record_lock_duration",
                value: Value::Time(&self.share_group_record_lock_duration, TimeRule::Positive),
            },
            Field {
                name: "share_group_max_delivery_attempts",
                value: Value::PositiveI16(self.share_group_max_delivery_attempts),
            },
            Field {
                name: "share_group_max_inflight_records",
                value: Value::PositiveI32(self.share_group_max_inflight_records),
            },
            Field {
                name: "share_group_isolation_level",
                value: Value::Text(&self.share_group_isolation_level),
            },
        ]
    }

    /// Streams groups.
    pub open spec fn streams_group_fields(&self) -> Seq<Field<'_>> {
        seq![
            Field {
                name: "streams_group_enable",
                value: Value::Flag(self.streams_group_enable),
            },
            Field {
                name: "streams_group_session_timeout",
                value: Value::Time(&self.streams_group_session_timeout, TimeRule::Positive),
            },
            Field {
                name: "streams_group_heartbeat_interval",
                value: Value::Time(&self.streams_group_heartbeat_interval, TimeRule::Positive),
            },
            Field {
                name: "streams_group_max_size",
                value: Value::PositiveUsize(self.streams_group_max_size),
            },
            Field {
                name: "streams_internal_topic_replication_factor",
                value: Value::PositiveI16(self.streams_internal_topic_replication_factor),
            },
            Field {
                name: "streams_group_num_standby_replicas",
                value: Value::NonnegativeI32(self.streams_group_num_standby_replicas),
            },
            Field {
                name: "streams_group_num_warmup_replicas",
                value: Value::NonnegativeI32(self.streams_group_num_warmup_replicas),
            },
            Field {
                name: "streams_group_acceptable_recovery_lag",
                value: Value::NonnegativeI64(self.streams_group_acceptable_recovery_lag),
            },
            Field {
                name: "streams_group_task_offset_interval",
                value: Value::Time(&self.streams_group_task_offset_interval, TimeRule::Positive),
            },
            Field {
                name: "streams_group_assignor",
                value: Value::Text(&self.streams_group_assignor),
            },
        ]
    }

    /// Every field, in the order in which the fields are validated and rendered.
    pub open spec fn all_fields(&self) -> Seq<Field<'_>> {
        self.startup_fields()
            + self.client_metrics_fields()
            + self.replication_fields()
            + self.group_fields()
            + self.capacity_fields()
            + self.socket_fields()
            + self.producer_fields()
            + self.controller_fields()
            + self.connection_fields()
            + self.share_group_fields()
            + self.streams_group_fields()
    }

    fn push_startup_fields<'a>(&'a self, out: &mut Vec<Field<'a>>)
        ensures
            final(out)@ == old(out)@ + self.startup_fields(),
    {
        out.push(Field {
            name: "startup_leader_wait_timeout",
            value: Value::Time(&self.startup_leader_wait_timeout, TimeRule::Positive),
        });
        out.push(Field {
            name: "self_registration_backoff_min",
            value: Value::Time(&self.self_registration_backoff_min, TimeRule::Positive),
        });
        out.push(Field {
            name: "self_registration_backoff_max",
            value: Value::Time(&self.self_registration_backoff_max, TimeRule::Positive),
        });
        out.push(Field {
            name: "observer_poll_interval",
            value: Value::Time(&self.observer_poll_interval, TimeRule::Positive),
        });
        out.push(Field {
            name: "audit_spool_replay_interval",
            value: Value::Time(&self.audit_spool_replay_interval, TimeRule::Positive),
        });
        out.push(Field {
            name: "audit_stats_poll_interval",
            value: Value::Time(&self.audit_stats_poll_interval, TimeRule::Positive),
        });
        out.push(Field {
            name: "audit_partition_wait_timeout",
            value: Value::Time(&self.audit_partition_wait_timeout, TimeRule::Positive),
        });
        out.push(Field {
            name: "liveness_tick_interval",
            value: Value::Time(&self.liveness_tick_interval, TimeRule::Positive),
        });
        out.push(Field {
            name: "gauge_poll_interval",
            value: Value::Time(&self.gauge_poll_interval, TimeRule::Positive),
        });
        out.push(Field {
            name: "cleaner_interval",
            value: Value::Time(&self.cleaner_interval, TimeRule::Positive),
        });
        out.push(Field {
            name: "isr_scan_interval",
            value: Value::Time(&self.isr_scan_interval, TimeRule::Positive),
        });
        out.push(Field {
            name: "future_log_move_retry_backoff",
            value: Value::Time(&self.future_log_move_retry_backoff, TimeRule::Positive),
        });
    }

    fn push_client_metrics_fields<'a>(&'a self, out: &mut Vec<Field<'a>>)
        ensures
            final(out)@ == old(out)@ + self.client_metrics_fields(),
    {
        out.push(Field {
            name: "client_metrics_eviction_tick",
            value: Value::Time(&self.client_metrics_eviction_tick, TimeRule::Positive),
        });
        out.push(Field {
            name: "client_metrics_stale_floor",
            value: Value::Time(&self.client_metrics_stale_floor, TimeRule::Positive),
        });
        out.push(Field {
            name: "client_metrics_default_interval",
            value: Value::Time(
                &self.client_metrics_default_interval,
                TimeRule::AtMostMillis(i32::MAX),
            ),
        });
        out.push(Field {
            name: "client_metrics_telemetry_max",
            value: Value::Size(&self.client_metrics_telemetry_max, I32_SIZE),
        });
        out.push(Field {
            name: "client_metrics_prom_snapshot_ttl",
            value: Value::Time(&self.client_metrics_prom_snapshot_ttl, TimeRule::Positive),
        });
        out.push(Field {
            name: "rlmm_reconcile_tick",
            value: Value::Time(&self.rlmm_reconcile_tick, TimeRule::Positive),
        });
        out.push(Field {
            name: "rlmm_bootstrap_backoff_initial",
            value: Value::Time(&self.rlmm_bootstrap_backoff_initial, TimeRule::Positive),
        });
        out.push(Field {
            name: "rlmm_bootstrap_backoff_max",
            value: Value::Time(&self.rlmm_bootstrap_backoff_max, TimeRule::Positive),
        });
        out.push(Field {
            name: "connection_creation_throttle_max",
            value: Value::Time(&self.connection_creation_throttle_max, TimeRule::Positive),
        });
        out.push(Field {
            name: "opa_http_timeout",
            value: Value::Time(&self.opa_http_timeout, TimeRule::Positive),
        });
        out.push(Field {
            name: "oauth_jwks_http_timeout",
            value: Value::Time(&self.oauth_jwks_http_timeout, TimeRule::Positive),
        });
        out.push(Field {
            name: "auto_join_retry_backoff",
            value: Value::Time(&self.auto_join_retry_backoff, TimeRule::Positive),
        });
        out.push(Field {
            name: "auto_join_voter_request_timeout",
            value: Value::Time(
                &self.auto_join_voter_request_timeout,
                TimeRule::AtMostMillis(i32::MAX),
            ),
        });
    }

    fn push_replication_fields<'a>(&'a self, out: &mut Vec<Field<'a>>)
        ensures
            final(out)@ == old(out)@ + self.replication_fields(),
    {
        out.push(Field {
            name: "replication_fetch_max",
            value: Value::Size(&self.replication_fetch_max, I32_SIZE),
        });
        out.push(Field {
            name: "replication_fetch_max_wait",
            value: Value::Time(&self.replication_fetch_max_wait, TimeRule::AtMostMillis(i32::MAX)),
        });
        out.push(Field {
            name: "replication_fetch_min",
            value: Value::Size(&self.replication_fetch_min, I32_SIZE),
        });
        out.push(Field {
            name: "replication_throttle_exhausted_backoff",
            value: Value::Time(&self.replication_throttle_exhausted_backoff, TimeRule::Positive),
        });
        out.push(Field {
            name: "replication_send_error_backoff",
            value: Value::Time(&self.replication_send_error_backoff, TimeRule::Positive),
        });
        out.push(Field {
            name: "replication_unknown_topic_retry_delay",
            value: Value::Time(&self.replication_unknown_topic_retry_delay, TimeRule::Positive),
        });
        out.push(Field {
            name: "replication_epoch_fence_backoff",
            value: Value::Time(&self.replication_epoch_fence_backoff, TimeRule::Positive),
        });
        out.push(Field {
            name: "replication_unexpected_error_backoff",
            value: Value::Time(&self.replication_unexpected_error_backoff, TimeRule::Positive),
        });
        out.push(Field {
            name: "replication_reconnect_initial_delay",
            value: Value::Time(&self.replication_reconnect_initial_delay, TimeRule::Positive),
        });
        out.push(Field {
            name: "replication_reconnect_delay_cap",
            value: Value::Time(&self.replication_reconnect_delay_cap, TimeRule::Positive),
        });
    }

    fn push_group_fields<'a>(&'a self, out: &mut Vec<Field<'a>>)
        ensures
            final(out)@ == old(out)@ + self.group_fields(),
    {
        out.push(Field {
            name: "coordinator_session_expiry_tick",
            value: Value::Time(&self.coordinator_session_expiry_tick, TimeRule::Positive),
        });
        out.push(Field {
            name: "coordinator_shutdown_ack_timeout",
            value: Value::Time(&self.coordinator_shutdown_ack_timeout, TimeRule::Positive),
        });
        out.push(Field {
            name: "consumer_group_session_timeout",
            value: Value::Time(&self.consumer_group_session_timeout, TimeRule::Positive),
        });
        out.push(Field {
            name: "consumer_group_heartbeat_interval",
            value: Value::Time(&self.consumer_group_heartbeat_interval, TimeRule::Positive),
        });
        out.push(Field {
            name: "consumer_group_min_session_timeout",
            value: Value::Time(&self.consumer_group_min_session_timeout, TimeRule::Positive),
        });
        out.push(Field {
            name: "consumer_group_max_session_timeout",
            value: Value::Time(&self.consumer_group_max_session_timeout, TimeRule::Positive),
        });
        out.push(Field {
            name: "consumer_group_min_heartbeat_interval",
            value: Value::Time(&self.consumer_group_min_heartbeat_interval, TimeRule::Positive),
        });
        out.push(Field {
            name: "consumer_group_max_heartbeat_interval",
            value: Value::Time(&self.consumer_group_max_heartbeat_interval, TimeRule::Positive),
        });
        out.push(Field {
            name: "consumer_group_max_size",
            value: Value::PositiveUsize(self.consumer_group_max_size),
        });
        out.push(Field {
            name: "classic_group_initial_rebalance_delay",
            value: Value::Time(&self.classic_group_initial_rebalance_delay, TimeRule::Positive),
        });
        out.push(Field {
            name: "sync_group_follower_wait",
            value: Value::Time(&self.sync_group_follower_wait, TimeRule::Positive),
        });
        out.push(Field {
            name: "unclean_recovery_aggressive_deadline",
            value: Value::Time(&self.unclean_recovery_aggressive_deadline, TimeRule::Positive),
        });
        out.push(Field {
            name: "unclean_recovery_balanced_deadline",
            value: Value::Time(&self.unclean_recovery_balanced_deadline, TimeRule::Positive),
        });
        out.push(Field {
            name: "operator_recovery_deadline",
            value: Value::Time(&self.operator_recovery_deadline, TimeRule::Positive),
        });
        out.push(Field {
            name: "quota_throttle_max",
            value: Value::Time(&self.quota_throttle_max, TimeRule::Positive),
        });
    }

    fn push_capacity_fields<'a>(&'a self, out: &mut Vec<Field<'a>>)
        ensures
            final(out)@ == old(out)@ + self.capacity_fields(),
    {
        out.push(Field {
            name: "self_registration_max_attempts",
            value: Value::PositiveU32(self.self_registration_max_attempts),
        });
        out.push(Field {
            name: "observer_fetch_max",
            value: Value::Size(&self.observer_fetch_max, U32_SIZE),
        });
        out.push(Field {
            name: "audit_event_queue_capacity",
            value: Value::PositiveUsize(self.audit_event_queue_capacity),
        });
        out.push(Field {
            name: "audit_tail_window_offsets",
            value: Value::PositiveI64(self.audit_tail_window_offsets),
        });
        out.push(Field {
            name: "audit_tail_read_max",
            value: Value::Size(&self.audit_tail_read_max, usize::MAX as u64),
        });
        out.push(Field {
            name: "offsets_topic_metadata_wait_timeout",
            value: Value::Time(&self.offsets_topic_metadata_wait_timeout, TimeRule::Positive),
        });
        out.push(Field {
            name: "client_metrics_stale_push_intervals",
            value: Value::PositiveU32(self.client_metrics_stale_push_intervals),
        });
        out.push(Field {
            name: "client_metrics_otlp_queue_capacity",
            value: Value::PositiveUsize(self.client_metrics_otlp_queue_capacity),
        });
        out.push(Field {
            name: "coordinator_actor_mailbox_capacity",
            value: Value::PositiveUsize(self.coordinator_actor_mailbox_capacity),
        });
        out.push(Field {
            name: "diskless_wal_local_replica_count",
            value: Value::PositiveUsize(self.diskless_wal_local_replica_count),
        });
        out.push(Field {
            name: "diskless_wal_flush_interval",
            value: Value::Time(&self.diskless_wal_flush_interval, TimeRule::Positive),
        });
        out.push(Field {
            name: "diskless_wal_flush_max_size",
            value: Value::Size(&self.diskless_wal_flush_max_size, usize::MAX as u64),
        });
        out.push(Field {
            name: "diskless_wal_trim_safety_lag",
            value: Value::NonnegativeI64(self.diskless_wal_trim_safety_lag),
        });
        out.push(Field {
            name: "diskless_wal_index_projection_timeout",
            value: Value::Time(&self.diskless_wal_index_projection_timeout, TimeRule::Positive),
        });
        out.push(Field {
            name: "unclean_recovery_queue_capacity",
            value: Value::PositiveUsize(self.unclean_recovery_queue_capacity),
        });
        out.push(Field {
            name: "share_recovery_read_max",
            value: Value::Size(&self.share_recovery_read_max, usize::MAX as u64),
        });
    }

    fn push_socket_fields<'a>(&'a self, out: &mut Vec<Field<'a>>)
        ensures
            final(out)@ == old(out)@ + self.socket_fields(),
    {
        out.push(Field {
            name: "share_session_cache_max_when_unlimited",
            value: Value::PositiveUsize(self.share_session_cache_max_when_unlimited),
        });
        out.push(Field {
            name: "log_read_buffer_cap",
            value: Value::Size(&self.log_read_buffer_cap, usize::MAX as u64),
        });
        out.push(Field {
            name: "log_timestamp_scan_window",
            value: Value::Size(&self.log_timestamp_scan_window, usize::MAX as u64),
        });
        out.push(Field {
            name: "socket_request_max",
            value: Value::Size(&self.socket_request_max, U32_SIZE),
        });
        out.push(Field {
            name: "sendfile_min",
            value: Value::Size(&self.sendfile_min, usize::MAX as u64),
        });
        out.push(Field {
            name: "socket_send_buffer",
            value: Value::Size(&self.socket_send_buffer, usize::MAX as u64),
        });
        out.push(Field {
            name: "socket_receive_buffer",
            value: Value::Size(&self.socket_receive_buffer, usize::MAX as u64),
        });
        out.push(Field {
            name: "acl_max_principal",
            value: Value::Size(&self.acl_max_principal, usize::MAX as u64),
        });
        out.push(Field {
            name: "acl_max_resource_name",
            value: Value::Size(&self.acl_max_resource_name, usize::MAX as u64),
        });
        out.push(Field {
            name: "telemetry_max_decompression_ratio",
            value: Value::Ratio(&self.telemetry_max_decompression_ratio, RatioRule::Positive),
        });
        out.push(Field {
            name: "telemetry_decompressed_output_floor",
            value: Value::Size(&self.telemetry_decompressed_output_floor, usize::MAX as u64),
        });
        out.push(Field {
            name: "telemetry_decompressed_output_ceiling",
            value: Value::Size(&self.telemetry_decompressed_output_ceiling, usize::MAX as u64),
        });
        out.push(Field {
            name: "record_decompression_max_ratio",
            value: Value::Ratio(&self.record_decompression_max_ratio, RatioRule::Positive),
        });
        out.push(Field {
            name: "record_decompression_output_floor",
            value: Value::Size(&self.record_decompression_output_floor, u64::MAX),
        });
        out.push(Field {
            name: "record_decompression_output_ceiling",
            value: Value::Size(&self.record_decompression_output_ceiling, u64::MAX),
        });
        out.push(Field {
            name: "inter_broker_server_name",
            value: Value::Text(&self.inter_broker_server_name),
        });
    }

    fn push_producer_fields<'a>(&'a self, out: &mut Vec<Field<'a>>)
        ensures
            final(out)@ == old(out)@ + self.producer_fields(),
    {
        out.push(Field {
            name: "producer_id_expiration",
            value: Value::Time(&self.producer_id_expiration, TimeRule::WholeMillis),
        });
        out.push(Field {
            name: "producer_id_expiration_scan_interval",
            value: Value::Time(&self.producer_id_expiration_scan_interval, TimeRule::Positive),
        });
        out.push(Field {
            name: "max_produce_group",
            value: Value::PositiveUsize(self.max_produce_group),
        });
        out.push(Field {
            name: "partition_writer_queue_depth",
            value: Value::PositiveUsize(self.partition_writer_queue_depth),
        });
        out.push(Field {
            name: "default_min_insync_replicas",
            value: Value::PositiveI32(self.default_min_insync_replicas),
        });
        out.push(Field {
            name: "future_log_move_read_chunk",
            value: Value::Size(&self.future_log_move_read_chunk, usize::MAX as u64),
        });
        out.push(Field {
            name: "share_state_num_partitions",
            value: Value::PositiveI32(self.share_state_num_partitions),
        });
        out.push(Field {
            name: "share_state_replication_factor",
            value: Value::PositiveI16(self.share_state_replication_factor),
        });
        out.push(Field {
            name: "transaction_state_num_partitions",
            value: Value::PositiveI32(self.transaction_state_num_partitions),
        });
        out.push(Field {
            name: "transaction_recovery_read_max",
            value: Value::Size(&self.transaction_recovery_read_max, usize::MAX as u64),
        });
        out.push(Field {
            name: "transaction_state_replication_factor",
            value: Value::PositiveI16(self.transaction_state_replication_factor),
        });
        out.push(Field {
            name: "transaction_min_timeout",
            value: Value::Time(&self.transaction_min_timeout, TimeRule::AtMostMillis(i32::MAX)),
        });
        out.push(Field {
            name: "transaction_max_timeout",
            value: Value::Time(
                &self.transaction_max_timeout,
                TimeRule::AtMostMillis(MAX_TRANSACTION_MILLIS),
            ),
        });
        out.push(Field {
            name: "partition_disk_scan_interval",
            value: Value::Time(&self.partition_disk_scan_interval, TimeRule::Nonnegative),
        });
        out.push(Field {
            name: "observer_lag_bound",
            value: Value::U64(self.observer_lag_bound),
        });
    }

    fn push_controller_fields<'a>(&'a self, out: &mut Vec<Field<'a>>)
        ensures
            final(out)@ == old(out)@ + self.controller_fields(),
    {
        out.push(Field {
            name: "heartbeat_interval",
            value: Value::Time(&self.heartbeat_interval, TimeRule::Positive),
        });
        out.push(Field {
            name: "heartbeat_timeout",
            value: Value::Time(&self.heartbeat_timeout, TimeRule::Positive),
        });
        out.push(Field {
            name: "replica_lag_time_max",
            value: Value::Time(&self.replica_lag_time_max, TimeRule::Positive),
        });
        out.push(Field {
            name: "controller_election_timeout",
            value: Value::Time(&self.controller_election_timeout, TimeRule::Positive),
        });
        out.push(Field {
            name: "controller_heartbeat_interval",
            value: Value::Time(&self.controller_heartbeat_interval, TimeRule::Positive),
        });
        out.push(Field {
            name: "controller_fetch_miss_limit",
            value: Value::PositiveU32(self.controller_fetch_miss_limit),
        });
        out.push(Field {
            name: "metadata_raft_command_queue_capacity",
            value: Value::PositiveUsize(self.metadata_raft_command_queue_capacity),
        });
        out.push(Field {
            name: "metadata_raft_fetch_max",
            value: Value::Size(&self.metadata_raft_fetch_max, I32_SIZE),
        });
        out.push(Field {
            name: "controlled_shutdown_drain_timeout",
            value: Value::Time(&self.controlled_shutdown_drain_timeout, TimeRule::Positive),
        });
        out.push(Field {
            name: "metadata_max_between_snapshots",
            value: Value::Size(&self.metadata_max_between_snapshots, u64::MAX),
        });
        out.push(Field {
            name: "metadata_max_snapshot_interval",
            value: Value::Time(&self.metadata_max_snapshot_interval, TimeRule::Nonnegative),
        });
        out.push(Field {
            name: "metadata_snapshot_interval_records",
            value: Value::PositiveU64(self.metadata_snapshot_interval_records),
        });
        out.push(Field {
            name: "metadata_snapshot_fetch_max",
            value: Value::SnapshotFetch(&self.metadata_snapshot_fetch_max),
        });
        out.push(Field {
            name: "txn_abort_cleanup_interval",
            value: Value::Time(&self.txn_abort_cleanup_interval, TimeRule::Nonnegative),
        });
        out.push(Field {
            name: "leader_imbalance_check_interval",
            value: Value::Time(&self.leader_imbalance_check_interval, TimeRule::Positive),
        });
        out.push(Field {
            name: "leader_imbalance_per_broker",
            value: Value::Ratio(&self.leader_imbalance_per_broker, RatioRule::UnitInterval),
        });
        out.push(Field {
            name: "tls_reload_interval",
            value: Value::Time(&self.tls_reload_interval, TimeRule::Nonnegative),
        });
    }

    fn push_connection_fields<'a>(&'a self, out: &mut Vec<Field<'a>>)
        ensures
            final(out)@ == old(out)@ + self.connection_fields(),
    {
        out.push(Field {
            name: "max_incremental_fetch_session_cache_slots",
            value: Value::Usize(self.max_incremental_fetch_session_cache_slots),
        });
        out.push(Field {
            name: "max_connections",
            value: Value::Usize(self.max_connections),
        });
        out.push(Field {
            name: "max_connections_per_ip",
            value: Value::Usize(self.max_connections_per_ip),
        });
        out.push(Field {
            name: "delegation_token_max_lifetime",
            value: Value::Time(&self.delegation_token_max_lifetime, TimeRule::WholeMillis),
        });
        out.push(Field {
            name: "delegation_token_expiry_check_interval",
            value: Value::Time(&self.delegation_token_expiry_check_interval, TimeRule::WholeMillis),
        });
        out.push(Field {
            name: "delegation_token_default_renew_period",
            value: Value::Time(&self.delegation_token_default_renew_period, TimeRule::WholeMillis),
        });
        out.push(Field {
            name: "remote_log_manager_interval",
            value: Value::Time(&self.remote_log_manager_interval, TimeRule::Positive),
        });
        out.push(Field {
            name: "share_group_enable",
            value: Value::Flag(self.share_group_enable),
        });
    }

    fn push_share_group_fields<'a>(&'a self, out: &mut Vec<Field<'a>>)
        ensures
            final(out)@ == old(out)@ + self.share_group_fields(),
    {
        out.push(Field {
            name: "share_group_session_timeout",
            value: Value::Time(&self.share_group_session_timeout, TimeRule::Positive),
        });
        out.push(Field {
            name: "share_group_heartbeat_interval",
            value: Value::Time(&self.share_group_heartbeat_interval, TimeRule::Positive),
        });
        out.push(Field {
            name: "share_group_max_size",
            value: Value::PositiveUsize(self.share_group_max_size),
        });
        out.push(Field {
            name: "share_group_record_lock_duration",
            value: Value::Time(&self.share_group_record_lock_duration, TimeRule::Positive),
        });
        out.push(Field {
            name: "share_group_max_delivery_attempts",
            value: Value::PositiveI16(self.share_group_max_delivery_attempts),
        });
        out.push(Field {
            name: "share_group_max_inflight_records",
            value: Value::PositiveI32(self.share_group_max_inflight_records),
        });
        out.push(Field {
            name: "share_group_isolation_level",
            value: Value::Text(&self.share_group_isolation_level),
        });
    }

    fn push_streams_group_fields<'a>(&'a self, out: &mut Vec<Field<'a>>)
        ensures
            final(out)@ == old(out)@ + self.streams_group_fields(),
    {
        out.push(Field {
            name: "streams_group_enable",
            value: Value::Flag(self.streams_group_enable),
        });
        out.push(Field {
            name: "streams_group_session_timeout",
            value: Value::Time(&self.streams_group_session_timeout, TimeRule::Positive),
        });
        out.push(Field {
            name: "streams_group_heartbeat_interval",
            value: Value::Time(&self.streams_group_heartbeat_interval, TimeRule::Positive),
        });
        out.push(Field {
            name: "streams_group_max_size",
            value: Value::PositiveUsize(self.streams_group_max_size),
        });
        out.push(Field {
            name: "streams_internal_topic_replication_factor",
            value: Value::PositiveI16(self.streams_internal_topic_replication_factor),
        });
        out.push(Field {
            name: "streams_group_num_standby_replicas",
            value: Value::NonnegativeI32(self.streams_group_num_standby_replicas),
        });
        out.push(Field {
            name: "streams_group_num_warmup_replicas",
            value: Value::NonnegativeI32(self.streams_group_num_warmup_replicas),
        });
        out.push(Field {
            name: "streams_group_acceptable_recovery_lag",
            value: Value::NonnegativeI64(self.streams_group_acceptable_recovery_lag),
        });
        out.push(Field {
            name: "streams_group_task_offset_interval",
            value: Value::Time(&self.streams_group_task_offset_interval, TimeRule::Positive),
        });
        out.push(Field {
            name: "streams_group_assignor",
            value: Value::Text(&self.streams_group_assignor),
        });
    }

    fn fields(&self) -> (r: Vec<Field<'_>>)
        ensures
            r@ == self.all_fields(),
    {
        let mut out: Vec<Field<'_>> = Vec::new();
        self.push_startup_fields(&mut out);
        self.push_client_metrics_fields(&mut out);
        self.push_replication_fields(&mut out);
        self.push_group_fields(&mut out);
        self.push_capacity_fields(&mut out);
        self.push_socket_fields(&mut out);
        self.push_producer_fields(&mut out);
        self.push_controller_fields(&mut out);
        self.push_connection_fields(&mut out);
        self.push_share_group_fields(&mut out);
        self.push_streams_group_fields(&mut out);
        out
    }

    /// The lower and upper limits, and the intervals below a timeout.
    pub open spec fn limit_relations(&self) -> Seq<Relation> {
        seq![
            Relation::AtMost {
                left: "self_registration_backoff_min",
                low: time_or(self.self_registration_backoff_min, 100),
                right: "self_registration_backoff_max",
                high: time_or(self.self_registration_backoff_max, 5_000),
            },
            Relation::AtMost {
                left: "rlmm_bootstrap_backoff_initial",
                low: time_or(self.rlmm_bootstrap_backoff_initial, 250),
                right: "rlmm_bootstrap_backoff_max",
                high: time_or(self.rlmm_bootstrap_backoff_max, 10_000),
            },
            Relation::AtMost {
                left: "replication_fetch_min",
                low: size_or(self.replication_fetch_min, 1),
                right: "replication_fetch_max",
                high: size_or(self.replication_fetch_max, 1_048_576),
            },
            Relation::AtMost {
                left: "replication_reconnect_initial_delay",
                low: time_or(self.replication_reconnect_initial_delay, 100),
                right: "replication_reconnect_delay_cap",
                high: time_or(self.replication_reconnect_delay_cap, 5_000),
            },
            Relation::Below {
                left: "heartbeat_interval",
                low: time_or(self.heartbeat_interval, 3_000),
                right: "heartbeat_timeout",
                high: time_or(self.heartbeat_timeout, 9_000),
            },
            Relation::Below {
                left: "controller_heartbeat_interval",
                low: time_or(self.controller_heartbeat_interval, 500),
                right: "controller_election_timeout",
                high: time_or(self.controller_election_timeout, 5_000),
            },
            Relation::AtMost {
                left: "delegation_token_default_renew_period",
                low: time_or(self.delegation_token_default_renew_period, 86_400_000),
                right: "delegation_token_max_lifetime",
                high: time_or(self.delegation_token_max_lifetime, 604_800_000),
            },
            Relation::AtMost {
                left: "client_metrics_eviction_tick",
                low: time_or(self.client_metrics_eviction_tick, 60_000),
                right: "client_metrics_stale_floor",
                high: time_or(self.client_metrics_stale_floor, 600_000),
            },
            Relation::AtMost {
                left: "unclean_recovery_aggressive_deadline",
                low: time_or(self.unclean_recovery_aggressive_deadline, 2_000),
                right: "unclean_recovery_balanced_deadline",
                high: time_or(self.unclean_recovery_balanced_deadline, 30_000),
            },
            Relation::AtMost {
                left: "telemetry_decompressed_output_floor",
                low: size_or(self.telemetry_decompressed_output_floor, 16_777_216),
                right: "telemetry_decompressed_output_ceiling",
                high: size_or(self.telemetry_decompressed_output_ceiling, 1_073_741_824),
            },
            Relation::RecordDecompression,
        ]
    }

    /// The timeouts of transactions and of the kinds of groups.
    pub open spec fn group_relations(&self) -> Seq<Relation> {
        seq![
            Relation::Below {
                left: "transaction_min_timeout",
                low: time_or(self.transaction_min_timeout, 1_000),
                right: "transaction_max_timeout",
                high: time_or(self.transaction_max_timeout, 900_000),
            },
            Relation::AtMost {
                left: "consumer_group_min_session_timeout",
                low: time_or(self.consumer_group_min_session_timeout, 45_000),
                right: "consumer_group_max_session_timeout",
                high: time_or(self.consumer_group_max_session_timeout, 60_000),
            },
            Relation::Between {
                field: "consumer_group_session_timeout",
                value: time_or(self.consumer_group_session_timeout, 45_000),
                min_field: "consumer_group_min_session_timeout",
                min: time_or(self.consumer_group_min_session_timeout, 45_000),
                max_field: "consumer_group_max_session_timeout",
                max: time_or(self.consumer_group_max_session_timeout, 60_000),
            },
            Relation::AtMost {
                left: "consumer_group_min_heartbeat_interval",
                low: time_or(self.consumer_group_min_heartbeat_interval, 5_000),
                right: "consumer_group_max_heartbeat_interval",
                high: time_or(self.consumer_group_max_heartbeat_interval, 15_000),
            },
            Relation::Between {
                field: "consumer_group_heartbeat_interval",
                value: time_or(self.consumer_group_heartbeat_interval, 5_000),
                min_field: "consumer_group_min_heartbeat_interval",
                min: time_or(self.consumer_group_min_heartbeat_interval, 5_000),
                max_field: "consumer_group_max_heartbeat_interval",
                max: time_or(self.consumer_group_max_heartbeat_interval, 15_000),
            },
            Relation::Within {
                field: "share_group_session_timeout",
                value: time_or(self.share_group_session_timeout, 45_000),
                min_millis: 45_000,
                max_millis: 60_000,
            },
            Relation::Within {
                field: "share_group_heartbeat_interval",
                value: time_or(self.share_group_heartbeat_interval, 5_000),
                min_millis: 5_000,
                max_millis: 15_000,
            },
            Relation::Within {
                field: "streams_group_session_timeout",
                value: time_or(self.streams_group_session_timeout, 45_000),
                min_millis: 45_000,
                max_millis: 60_000,
            },
            Relation::Within {
                field: "streams_group_heartbeat_interval",
                value: time_or(self.streams_group_heartbeat_interval, 5_000),
                min_millis: 5_000,
                max_millis: 15_000,
            },
        ]
    }

    /// Every relation, in the order in which the relations are validated.
    pub open spec fn all_relations(&self) -> Seq<Relation> {
        self.limit_relations() + self.group_relations()
    }

    fn push_limit_relations(&self, out: &mut Vec<Relation>)
        ensures
            final(out)@ == old(out)@ + self.limit_relations(),
    {
        out.push(
            Relation::AtMost {
                left: "self_registration_backoff_min",
                low: effective_time(&self.self_registration_backoff_min, 100),
                right: "self_registration_backoff_max",
                high: effective_time(&self.self_registration_backoff_max, 5_000),
            },
        );
        out.push(
            Relation::AtMost {
                left: "rlmm_bootstrap_backoff_initial",
                low: effective_time(&self.rlmm_bootstrap_backoff_initial, 250),
                right: "rlmm_bootstrap_backoff_max",
                high: effective_time(&self.rlmm_bootstrap_backoff_max, 10_000),
            },
        );
        out.push(
            Relation::AtMost {
                left: "replication_fetch_min",
                low: effective_size(&self.replication_fetch_min, 1),
                right: "replication_fetch_max",
                high: effective_size(&self.replication_fetch_max, 1_048_576),
            },
        );
        out.push(
            Relation::AtMost {
                left: "replication_reconnect_initial_delay",
                low: effective_time(&self.replication_reconnect_initial_delay, 100),
                right: "replication_reconnect_delay_cap",
                high: effective_time(&self.replication_reconnect_delay_cap, 5_000),
            },
        );
        out.push(
            Relation::Below {
                left: "heartbeat_interval",
                low: effective_time(&self.heartbeat_interval, 3_000),
                right: "heartbeat_timeout",
                high: effective_time(&self.heartbeat_timeout, 9_000),
            },
        );
        out.push(
            Relation::Below {
                left: "controller_heartbeat_interval",
                low: effective_time(&self.controller_heartbeat_interval, 500),
                right: "controller_election_timeout",
                high: effective_time(&self.controller_election_timeout, 5_000),
            },
        );
        out.push(
            Relation::AtMost {
                left: "delegation_token_default_renew_period",
                low: effective_time(&self.delegation_token_default_renew_period, 86_400_000),
                right: "delegation_token_max_lifetime",
                high: effective_time(&self.delegation_token_max_lifetime, 604_800_000),
            },
        );
        out.push(
            Relation::AtMost {
                left: "client_metrics_eviction_tick",
                low: effective_time(&self.client_metrics_eviction_tick, 60_000),
                right: "client_metrics_stale_floor",
                high: effective_time(&self.client_metrics_stale_floor, 600_000),
            },
        );
        out.push(
            Relation::AtMost {
                left: "unclean_recovery_aggressive_deadline",
                low: effective_time(&self.unclean_recovery_aggressive_deadline, 2_000),
                right: "unclean_recovery_balanced_deadline",
                high: effective_time(&self.unclean_recovery_balanced_deadline, 30_000),
            },
        );
        out.push(
            Relation::AtMost {
                left: "telemetry_decompressed_output_floor",
                low: effective_size(&self.telemetry_decompressed_output_floor, 16_777_216),
                right: "telemetry_decompressed_output_ceiling",
                high: effective_size(&self.telemetry_decompressed_output_ceiling, 1_073_741_824),
            },
        );
        out.push(
            Relation::RecordDecompression,
        );
    }

    fn push_group_relations(&self, out: &mut Vec<Relation>)
        ensures
            final(out)@ == old(out)@ + self.group_relations(),
    {
        out.push(
            Relation::Below {
                left: "transaction_min_timeout",
                low: effective_time(&self.transaction_min_timeout, 1_000),
                right: "transaction_max_timeout",
                high: effective_time(&self.transaction_max_timeout, 900_000),
            },
        );
        out.push(
            Relation::AtMost {
                left: "consumer_group_min_session_timeout",
                low: effective_time(&self.consumer_group_min_session_timeout, 45_000),
                right: "consumer_group_max_session_timeout",
                high: effective_time(&self.consumer_group_max_session_timeout, 60_000),
            },
        );
        out.push(
            Relation::Between {
                field: "consumer_group_session_timeout",
                value: effective_time(&self.consumer_group_session_timeout, 45_000),
                min_field: "consumer_group_min_session_timeout",
                min: effective_time(&self.consumer_group_min_session_timeout, 45_000),
                max_field: "consumer_group_max_session_timeout",
                max: effective_time(&self.consumer_group_max_session_timeout, 60_000),
            },
        );
        out.push(
            Relation::AtMost {
                left: "consumer_group_min_heartbeat_interval",
                low: effective_time(&self.consumer_group_min_heartbeat_interval, 5_000),
                right: "consumer_group_max_heartbeat_interval",
                high: effective_time(&self.consumer_group_max_heartbeat_interval, 15_000),
            },
        );
        out.push(
            Relation::Between {
                field: "consumer_group_heartbeat_interval",
                value: effective_time(&self.consumer_group_heartbeat_interval, 5_000),
                min_field: "consumer_group_min_heartbeat_interval",
                min: effective_time(&self.consumer_group_min_heartbeat_interval, 5_000),
                max_field: "consumer_group_max_heartbeat_interval",
                max: effective_time(&self.consumer_group_max_heartbeat_interval, 15_000),
            },
        );
        out.push(
            Relation::Within {
                field: "share_group_session_timeout",
                value: effective_time(&self.share_group_session_timeout, 45_000),
                min_millis: 45_000,
                max_millis: 60_000,
            },
        );
        out.push(
            Relation::Within {
                field: "share_group_heartbeat_interval",
                value: effective_time(&self.share_group_heartbeat_interval, 5_000),
                min_millis: 5_000,
                max_millis: 15_000,
            },
        );
        out.push(
            Relation::Within {
                field: "streams_group_session_timeout",
                value: effective_time(&self.streams_group_session_timeout, 45_000),
                min_millis: 45_000,
                max_millis: 60_000,
            },
        );
        out.push(
            Relation::Within {
                field: "streams_group_heartbeat_interval",
                value: effective_time(&self.streams_group_heartbeat_interval, 5_000),
                min_millis: 5_000,
                max_millis: 15_000,
            },
        );
    }

    fn relations(&self) -> (r: Vec<Relation>)
        ensures
            r@ == self.all_relations(),
    {
        let mut out: Vec<Relation> = Vec::new();
        self.push_limit_relations(&mut out);
        self.push_group_relations(&mut out);
        out
    }

    /// What is wrong with the strings. `server_name` is the verdict on the name of
    /// the inter-broker server.
    pub open spec fn strings_error(&self, server_name: Result<(), String>) -> Option<Seq<char>> {
        if self.inter_broker_server_name is Some && server_name is Err {
            verdict_error("inter_broker_server_name"@, server_name)
        } else if self.share_group_isolation_level matches Some(value) && value@
            != "read-uncommitted"@ && value@ != "read-committed"@ {
            Some(
                tuning_rules::invalid(
                    "share_group_isolation_level"@,
                    "expected `read-uncommitted` or `read-committed`"@,
                ),
            )
        } else if self.streams_group_assignor matches Some(value) && value@ != "auto"@ && value@
            != "sticky"@ && value@ != "highly-available"@ {
            Some(
                tuning_rules::invalid(
                    "streams_group_assignor"@,
                    "expected `auto`, `sticky`, or `highly-available`"@,
                ),
            )
        } else {
            None
        }
    }

    /// What is wrong with the tuning: first a field by itself, then a string, then
    /// a relation. The three verdicts come from outside: on the size of a
    /// metadata-snapshot fetch, on the name of the inter-broker server, and on the
    /// limits for the decompression of records.
    pub open spec fn error(
        &self,
        snapshot_fetch: Result<(), String>,
        server_name: Result<(), String>,
        record_decompression: Result<(), String>,
    ) -> Option<Seq<char>> {
        report::or_else(
            first_error(self.all_fields(), snapshot_fetch),
            report::or_else(
                self.strings_error(server_name),
                first_broken(self.all_relations(), record_decompression),
            ),
        )
    }

    /// Whether `verdict` can be the verdict on the name of the inter-broker
    /// server: it is good news unless the name is set and empty.
    pub open spec fn judges_server_name(&self, verdict: Result<(), String>) -> bool {
        &&& verdict is Ok <==> (self.inter_broker_server_name matches Some(name) ==> name@.len()
            > 0)
        &&& verdict matches Err(message) ==> outside::refuses_empty(message@)
    }

    fn server_name_verdict(&self) -> (r: Result<(), String>)
        ensures
            self.judges_server_name(r),
    {
        match &self.inter_broker_server_name {
            Some(name) => non_empty_string(name.clone()),
            None => Ok(()),
        }
    }

    fn validate_strings_given(&self, server_name: &Result<(), String>) -> (r: Result<(), String>)
        ensures
            report::reports(r, self.strings_error(*server_name)),
    {
        if self.inter_broker_server_name.is_some() {
            if let Err(error) = server_name {
                return Err(Self::invalid("inter_broker_server_name", error.as_str()));
            }
        }
        if let Some(value) = &self.share_group_isolation_level {
            let value = value.as_str();
            if !same(value, "read-uncommitted") && !same(value, "read-committed") {
                return Err(
                    Self::invalid(
                        "share_group_isolation_level",
                        "expected `read-uncommitted` or `read-committed`",
                    ),
                );
            }
        }
        if let Some(value) = &self.streams_group_assignor {
            let value = value.as_str();
            if !same(value, "auto") && !same(value, "sticky") && !same(value, "highly-available") {
                return Err(
                    Self::invalid(
                        "streams_group_assignor",
                        "expected `auto`, `sticky`, or `highly-available`",
                    ),
                );
            }
        }
        Ok(())
    }

    /// Validate the strings.
    pub fn validate_strings(&self) -> (r: Result<(), String>)
        ensures
            exists|server_name: Result<(), String>| #[trigger]
                self.judges_server_name(server_name) && report::reports(
                    r,
                    self.strings_error(server_name),
                ),
    {
        let server_name = self.server_name_verdict();
        self.validate_strings_given(&server_name)
    }

    /// The limits for the decompression of records that are in force.
    pub fn record_decompression(&self, defaults: RecordDecompressionLimits) -> (r:
        RecordDecompressionLimits)
        ensures
            r.max_ratio == (match self.record_decompression_max_ratio {
                Some(setting) => setting.value,
                None => defaults.max_ratio,
            }),
            r.output_floor == (match self.record_decompression_output_floor {
                Some(setting) => setting.value,
                None => defaults.output_floor,
            }),
            r.output_ceiling == (match self.record_decompression_output_ceiling {
                Some(setting) => setting.value,
                None => defaults.output_ceiling,
            }),
    {
        RecordDecompressionLimits {
            max_ratio: match &self.record_decompression_max_ratio {
                Some(setting) => setting.value,
                None => defaults.max_ratio,
            },
            output_floor: match &self.record_decompression_output_floor {
                Some(setting) => setting.value,
                None => defaults.output_floor,
            },
            output_ceiling: match &self.record_decompression_output_ceiling {
                Some(setting) => setting.value,
                None => defaults.output_ceiling,
            },
        }
    }

    /// Name the three fields in a bad verdict on the limits for the decompression
    /// of records.
    pub fn validate_record_decompression(verdict: &Result<(), String>) -> (r: Result<(), String>)
        ensures
            report::reports(r, record_decompression_error(*verdict)),
    {
        match verdict {
            Ok(_) => Ok(()),
            Err(error) => {
                let mut message = Self::path("record_decompression_max_ratio");
                message.append(", ");
                message.append(Self::path("record_decompression_output_floor").as_str());
                message.append(", and ");
                message.append(Self::path("record_decompression_output_ceiling").as_str());
                message.append(": ");
                message.append(error.as_str());
                Err(message)
            },
        }
    }

    /// Validate the relations between fields. `record_decompression` is the
    /// verdict on the limits that [`Self::record_decompression`] gives.
    pub fn validate_relations(&self, record_decompression: &Result<(), String>) -> (r: Result<
        (),
        String,
    >)
        ensures
            report::reports(r, first_broken(self.all_relations(), *record_decompression)),
    {
        let relations = self.relations();
        let ghost whole = first_broken(relations@, *record_decompression);
        let mut i: usize = 0;
        assert(relations@.skip(0) =~= relations@);
        while i < relations.len()
            invariant
                i <= relations@.len(),
                relations@ == self.all_relations(),
                whole == first_broken(self.all_relations(), *record_decompression),
                whole == first_broken(relations@.skip(i as int), *record_decompression),
            decreases relations.len() - i,
        {
            assert(relations@.skip(i as int)[0] == relations@[i as int]);
            assert(relations@.skip(i as int).drop_first() =~= relations@.skip(i + 1));
            relations[i].validate(record_decompression)?;
            i = i + 1;
        }
        Ok(())
    }

    /// Validate scalar and relational constraints, given every verdict that comes
    /// from outside.
    pub fn validate_given(
        &self,
        snapshot_fetch: &Result<(), String>,
        server_name: &Result<(), String>,
        record_decompression: &Result<(), String>,
    ) -> (r: Result<(), String>)
        ensures
            report::reports(
                r,
                self.error(*snapshot_fetch, *server_name, *record_decompression),
            ),
    {
        self.validate_fields(snapshot_fetch)?;
        self.validate_strings_given(server_name)?;
        self.validate_relations(record_decompression)
    }

    /// Validate scalar and relational constraints. The error begins with the path
    /// of the invalid field.
    ///
    /// `snapshot_fetch` is the verdict of the metadata quorum on
    /// `metadata_snapshot_fetch_max`, and `record_decompression` is the verdict on
    /// the limits that [`Self::record_decompression`] gives.
    pub fn validate(
        &self,
        snapshot_fetch: &Result<(), String>,
        record_decompression: &Result<(), String>,
    ) -> (r: Result<(), String>)
        ensures
            exists|server_name: Result<(), String>| #[trigger]
                self.judges_server_name(server_name) && report::reports(
                    r,
                    self.error(*snapshot_fetch, server_name, *record_decompression),
                ),
    {
        let server_name = self.server_name_verdict();
        self.validate_given(snapshot_fetch, &server_name, record_decompression)
    }

    /// The `[runtime]` table of the broker configuration. There is none where no
    /// field is set.
    pub open spec fn runtime_toml(&self) -> Seq<char> {
        let values = lines(self.all_fields());
        if values.len() == 0 {
            Seq::empty()
        } else {
            "[runtime]\n"@ + values + "\n"@
        }
    }

    fn validate_fields(&self, snapshot_fetch: &Result<(), String>) -> (r: Result<(), String>)
        ensures
            report::reports(r, first_error(self.all_fields(), *snapshot_fetch)),
    {
        let fields = self.fields();
        let ghost whole = first_error(fields@, *snapshot_fetch);
        let mut i: usize = 0;
        assert(fields@.skip(0) =~= fields@);
        while i < fields.len()
            invariant
                i <= fields@.len(),
                fields@ == self.all_fields(),
                whole == first_error(self.all_fields(), *snapshot_fetch),
                whole == first_error(fields@.skip(i as int), *snapshot_fetch),
            decreases fields.len() - i,
        {
            assert(fields@.skip(i as int)[0] == fields@[i as int]);
            assert(fields@.skip(i as int).drop_first() =~= fields@.skip(i + 1));
            fields[i].validate(snapshot_fetch)?;
            i = i + 1;
        }
        Ok(())
    }

    /// The `[runtime]` table of the broker configuration.
    pub fn render_runtime_toml(&self) -> (r: String)
        ensures
            r@ == self.runtime_toml(),
    {
        let fields = self.fields();
        let mut values = String::new();
        let mut i: usize = 0;
        while i < fields.len()
            invariant
                i <= fields@.len(),
                values@ == lines(fields@.take(i as int)),
            decreases fields.len() - i,
        {
            assert(fields@.take(i + 1).drop_last() =~= fields@.take(i as int));
            if let Some(value) = fields[i].render() {
                values.append(fields[i].name);
                values.append(" = ");
                values.append(value.as_str());
                values.append("\n");
                assert(values@ =~= lines(fields@.take(i + 1)));
            } else {
                assert(values@ =~= lines(fields@.take(i + 1)));
            }
            i = i + 1;
        }
        assert(fields@.take(i as int) =~= fields@);
        if values.as_str().is_empty() {
            String::new()
        } else {
            let mut text = String::from_str("[runtime]\n");
            text.append(values.as_str());
            text.append("\n");
            text
        }
    }
}

impl BrokerTuning {
    pub fn camel_case(field: &str) -> (r: String)
        ensures
            r@ == tuning_rules::camel_case(field@),
    {
        let mut result = String::new();
        let n = field.unicode_len();
        let mut after_underscore = false;
        let mut i: usize = 0;
        while i < n
            invariant
                i <= n == field@.len(),
                after_underscore <==> i > 0 && field@[i - 1] == '_',
                result@ == tuning_rules::camel_case(field@.take(i as int)),
            decreases n - i,
        {
            let c = field.get_char(i);
            assert(field@.take(i + 1).drop_last() =~= field@.take(i as int));
            if c == '_' {
                after_underscore = true;
            } else {
                result.push(if after_underscore { to_ascii_upper(c) } else { c });
                after_underscore = false;
            }
            i = i + 1;
        }
        assert(field@.take(n as int) =~= field@);
        result
    }

    pub fn path(field: &str) -> (r: String)
        ensures
            r@ == tuning_rules::path(field@),
    {
        let mut text = String::from_str("spec.brokerTuning.");
        text.append(Self::camel_case(field).as_str());
        text
    }

    pub fn invalid(field: &str, error: &str) -> (r: String)
        ensures
            r@ == tuning_rules::invalid(field@, error@),
    {
        let mut text = Self::path(field);
        text.append(": ");
        text.append(error);
        text
    }

    pub fn invalid_relation(left: &str, right: &str, message: &str) -> (r: String)
        ensures
            r@ == tuning_rules::invalid_relation(left@, right@, message@),
    {
        let mut text = Self::path(left);
        text.append(" and ");
        text.append(Self::path(right).as_str());
        text.append(": ");
        text.append(message);
        text
    }
}

} // verus!
