//! What a valid tuning of the brokers satisfies, and what is reported of one that is not
//! valid.

use crate::binary64::{Binary64, SCALE};
use crate::crd::broker_tuning;
use crate::crd::broker_tuning::{BrokerTuning, Field, RecordDecompressionLimits, Relation, Value};
use crate::crd::report;
use crate::crd::tuning_laws;
use crate::crd::tuning_rules;
use crate::crd::tuning_rules::{RatioRule, TimeRule};
use crate::crd::tuning_table;
use crate::outside;
use crate::text;
use crate::units;
use crate::units::{ByteSize, Ratio, Setting, Time};
use vstd::arithmetic::power2::*;
use vstd::prelude::*;
use vstd::string::*;

verus! {

/// The message `error` about the field `name`.
pub open spec fn about(name: Seq<char>, error: Seq<char>) -> Seq<char> {
    "spec.brokerTuning."@ + tuning_rules::camel_case(name) + ": "@ + error
}

/// What is wrong with an extent that has to be finite, and zero or more.
#[verifier::opaque]
pub open spec fn nonnegative_time(name: Seq<char>, setting: Option<Setting<Time>>) -> Option<
    Seq<char>,
> {
    match setting {
        Some(setting) => if setting.value.secs.finite() && setting.value.secs.value() >= 0 {
            None
        } else {
            Some(about(name, "must be finite and nonnegative"@))
        },
        None => None,
    }
}

/// What is wrong with an extent that has to be more than zero besides.
#[verifier::opaque]
pub open spec fn positive_time(name: Seq<char>, setting: Option<Setting<Time>>) -> Option<
    Seq<char>,
> {
    match (nonnegative_time(name, setting), setting) {
        (None, Some(setting)) => if setting.value.secs.value() > 0 {
            None
        } else {
            Some(about(name, "must be positive"@))
        },
        (found, _) => found,
    }
}

/// What is wrong with an extent that has to be a whole number of milliseconds besides.
#[verifier::opaque]
pub open spec fn whole_time(name: Seq<char>, setting: Option<Setting<Time>>) -> Option<Seq<char>> {
    match (positive_time(name, setting), setting) {
        (None, Some(setting)) => if Time::of_millis(setting.value.millis()).secs.equal(
            setting.value.secs,
        ) {
            None
        } else {
            Some(about(name, "must be a whole number of milliseconds"@))
        },
        (found, _) => found,
    }
}

/// What is wrong with an extent that has to be at most `max` milliseconds besides.
#[verifier::opaque]
pub open spec fn bounded_time(name: Seq<char>, setting: Option<Setting<Time>>, max: int) -> Option<
    Seq<char>,
> {
    match (whole_time(name, setting), setting) {
        (None, Some(setting)) => if setting.value.millis() <= max {
            None
        } else {
            Some(about(name, "must be at most "@ + text::signed_decimal(max) + "ms"@))
        },
        (found, _) => found,
    }
}

/// What is wrong with a byte count that has to be a whole number from one to `max`.
#[verifier::opaque]
pub open spec fn size(name: Seq<char>, setting: Option<Setting<ByteSize>>, max: int) -> Option<
    Seq<char>,
> {
    match setting {
        Some(setting) => {
            let bytes = setting.value.bytes;
            let n = bytes.rounded(0, 0xffff_ffff_ffff_ffff);
            if !(bytes.finite() && bytes.value() > 0 && ByteSize::of_bytes(n).bytes.equal(bytes)) {
                Some(about(name, "must be a positive whole number of bytes"@))
            } else if n > max {
                Some(about(name, "must be at most "@ + text::signed_decimal(max) + " bytes"@))
            } else {
                None
            }
        },
        None => None,
    }
}

/// What is wrong with a fraction that has to be finite and more than zero.
#[verifier::opaque]
pub open spec fn positive_ratio(name: Seq<char>, setting: Option<Setting<Ratio>>) -> Option<
    Seq<char>,
> {
    match setting {
        Some(setting) => if setting.value.fraction.finite() && setting.value.fraction.value() > 0 {
            None
        } else {
            Some(about(name, "must be finite and positive"@))
        },
        None => None,
    }
}

/// What is wrong with a fraction that has to be from nothing to the whole.
#[verifier::opaque]
pub open spec fn unit_ratio(name: Seq<char>, setting: Option<Setting<Ratio>>) -> Option<Seq<char>> {
    match setting {
        Some(setting) => if setting.value.fraction.finite() && 0 <= setting.value.fraction.value()
            <= pow2(SCALE as nat) {
            None
        } else {
            Some(about(name, "must be between 0% and 100%"@))
        },
        None => None,
    }
}

/// What is wrong with a count that has to be above zero.
#[verifier::opaque]
pub open spec fn count_above_zero(name: Seq<char>, setting: Option<int>) -> Option<Seq<char>> {
    match setting {
        Some(n) => if n > 0 {
            None
        } else {
            Some(about(name, outside::not_positive(n)))
        },
        None => None,
    }
}

/// What is wrong with a count that has to be zero or above.
#[verifier::opaque]
pub open spec fn count_from_zero(name: Seq<char>, setting: Option<int>) -> Option<Seq<char>> {
    match setting {
        Some(n) => if n >= 0 {
            None
        } else {
            Some(about(name, outside::negative(n)))
        },
        None => None,
    }
}

/// What is wrong with a field that another crate judges.
#[verifier::opaque]
pub open spec fn verdict(name: Seq<char>, set: bool, verdict: Result<(), String>) -> Option<
    Seq<char>,
> {
    match verdict {
        Err(error) if set => Some(about(name, error@)),
        _ => None,
    }
}

/// The first of the findings, if there is any.
pub open spec fn first(findings: Seq<Option<Seq<char>>>) -> Option<Seq<char>>
    decreases findings.len(),
{
    if findings.len() == 0 {
        None
    } else if findings[0] is Some {
        findings[0]
    } else {
        first(findings.drop_first())
    }
}

proof fn lemma_first_of_none(findings: Seq<Option<Seq<char>>>)
    ensures
        first(findings) is None <==> forall|i: int|
            0 <= i < findings.len() ==> #[trigger] findings[i] is None,
    decreases findings.len(),
{
    if findings.len() > 0 {
        let rest = findings.drop_first();
        lemma_first_of_none(rest);
        if first(findings) is None {
            assert forall|i: int| 0 <= i < findings.len() implies (
            #[trigger] findings[i]) is None by {
                if i > 0 {
                    assert(rest[i - 1] == findings[i]);
                }
            }
        } else if forall|i: int| 0 <= i < findings.len() ==> #[trigger] findings[i] is None {
            assert forall|i: int| 0 <= i < rest.len() implies #[trigger] rest[i] is None by {
                assert(rest[i] == findings[i + 1]);
            }
            assert(findings[0] is None);
        }
    }
}

proof fn lemma_first_of_both(a: Seq<Option<Seq<char>>>, b: Seq<Option<Seq<char>>>)
    ensures
        first(a + b) == report::or_else(first(a), first(b)),
    decreases a.len(),
{
    if a.len() == 0 {
        assert(a + b =~= b);
    } else {
        assert((a + b)[0] == a[0]);
        assert((a + b).drop_first() =~= a.drop_first() + b);
        lemma_first_of_both(a.drop_first(), b);
    }
}

proof fn lemma_errors_of_both(
    a: Seq<Field<'_>>,
    b: Seq<Field<'_>>,
    snapshot_fetch: Result<(),
    String>,
)
    ensures
        broker_tuning::first_error(a + b, snapshot_fetch) == report::or_else(
            broker_tuning::first_error(a, snapshot_fetch),
            broker_tuning::first_error(b, snapshot_fetch),
        ),
    decreases a.len(),
{
    if a.len() == 0 {
        assert(a + b =~= b);
    } else {
        assert((a + b)[0] == a[0]);
        assert((a + b).drop_first() =~= a.drop_first() + b);
        lemma_errors_of_both(a.drop_first(), b, snapshot_fetch);
    }
}

/// What is wrong with a field by itself.
#[verifier::opaque]
spec fn found(field: Field<'_>, snapshot_fetch: Result<(), String>) -> Option<Seq<char>> {
    field.error(snapshot_fetch)
}

proof fn lemma_errors_are_findings(
    fields: Seq<Field<'_>>,
    findings: Seq<Option<Seq<char>>>,
    snapshot_fetch: Result<(), String>,
)
    requires
        fields.len() == findings.len(),
        forall|i: int|
            0 <= i < fields.len() ==> found(#[trigger] fields[i], snapshot_fetch) == findings[i],
    ensures
        broker_tuning::first_error(fields, snapshot_fetch) == first(findings),
    decreases fields.len(),
{
    if fields.len() > 0 {
        assert(fields[0].error(snapshot_fetch) == findings[0]) by {
            reveal(found);
            assert(found(fields[0], snapshot_fetch) == findings[0]);
        }
        assert forall|i: int| 0 <= i < fields.len() - 1 implies found(
            #[trigger] fields.drop_first()[i],
            snapshot_fetch,
        ) == findings.drop_first()[i] by {
            assert(fields.drop_first()[i] == fields[i + 1]);
        }
        lemma_errors_are_findings(fields.drop_first(), findings.drop_first(), snapshot_fetch);
    }
}

proof fn lemma_time(
    name: &'static str,
    setting: &Option<Setting<Time>>,
    max: i32,
    snapshot_fetch: Result<(), String>,
)
    ensures
        found(Field { name, value: Value::Time(setting, TimeRule::Nonnegative) }, snapshot_fetch)
            == nonnegative_time(name@, *setting),
        found(Field { name, value: Value::Time(setting, TimeRule::Positive) }, snapshot_fetch)
            == positive_time(name@, *setting),
        found(Field { name, value: Value::Time(setting, TimeRule::WholeMillis) }, snapshot_fetch)
            == whole_time(name@, *setting),
        found(
            Field { name, value: Value::Time(setting, TimeRule::AtMostMillis(max)) },
            snapshot_fetch,
        ) == bounded_time(name@, *setting, max as int),
{
    reveal(found);
    reveal(nonnegative_time);
    reveal(positive_time);
    reveal(whole_time);
    reveal(bounded_time);
}

proof fn lemma_size(
    name: &'static str,
    setting: &Option<Setting<ByteSize>>,
    max: u64,
    snapshot_fetch: Result<(), String>,
)
    ensures
        found(Field { name, value: Value::Size(setting, max) }, snapshot_fetch) == size(
            name@,
            *setting,
            max as int,
        ),
        found(Field { name, value: Value::SnapshotFetch(setting) }, snapshot_fetch) == verdict(
            name@,
            *setting is Some,
            snapshot_fetch,
        ),
{
    reveal(found);
    reveal(size);
    reveal(verdict);
}

proof fn lemma_ratio(
    name: &'static str,
    setting: &Option<Setting<Ratio>>,
    snapshot_fetch: Result<(), String>,
)
    ensures
        found(Field { name, value: Value::Ratio(setting, RatioRule::Positive) }, snapshot_fetch)
            == positive_ratio(name@, *setting),
        found(Field { name, value: Value::Ratio(setting, RatioRule::UnitInterval) }, snapshot_fetch)
            == unit_ratio(name@, *setting),
{
    reveal(found);
    reveal(positive_ratio);
    reveal(unit_ratio);
    Binary64::lemma_small_integer_is_exact(1);
}

proof fn lemma_count(name: &'static str, snapshot_fetch: Result<(), String>)
    ensures
        forall|n: Option<usize>|
            #[trigger] found(Field { name, value: Value::PositiveUsize(n) }, snapshot_fetch)
                == count_above_zero(name@, tuning_table::whole_usize(n)),
        forall|n: Option<u32>|
            #[trigger] found(Field { name, value: Value::PositiveU32(n) }, snapshot_fetch)
                == count_above_zero(name@, tuning_table::whole_u32(n)),
        forall|n: Option<u64>|
            #[trigger] found(Field { name, value: Value::PositiveU64(n) }, snapshot_fetch)
                == count_above_zero(name@, tuning_table::whole_u64(n)),
        forall|n: Option<i16>|
            #[trigger] found(Field { name, value: Value::PositiveI16(n) }, snapshot_fetch)
                == count_above_zero(name@, tuning_table::whole_i16(n)),
        forall|n: Option<i32>|
            #[trigger] found(Field { name, value: Value::PositiveI32(n) }, snapshot_fetch)
                == count_above_zero(name@, tuning_table::whole_i32(n)),
        forall|n: Option<i64>|
            #[trigger] found(Field { name, value: Value::PositiveI64(n) }, snapshot_fetch)
                == count_above_zero(name@, tuning_table::whole_i64(n)),
        forall|n: Option<i32>|
            #[trigger] found(Field { name, value: Value::NonnegativeI32(n) }, snapshot_fetch)
                == count_from_zero(name@, tuning_table::whole_i32(n)),
        forall|n: Option<i64>|
            #[trigger] found(Field { name, value: Value::NonnegativeI64(n) }, snapshot_fetch)
                == count_from_zero(name@, tuning_table::whole_i64(n)),
        forall|n: Option<usize>|
            #[trigger] found(Field { name, value: Value::Usize(n) }, snapshot_fetch) is None,
        forall|n: Option<u64>|
            #[trigger] found(Field { name, value: Value::U64(n) }, snapshot_fetch) is None,
        forall|x: Option<bool>|
            #[trigger] found(Field { name, value: Value::Flag(x) }, snapshot_fetch) is None,
        forall|x: &Option<String>|
            #[trigger] found(Field { name, value: Value::Text(x) }, snapshot_fetch) is None,
{
    reveal(found);
    reveal(count_above_zero);
    reveal(count_from_zero);
}

/// What is wrong with each of the fields for startup, auditing and background scans.
pub open spec fn startup_findings(
    tuning: BrokerTuning,
    snapshot_fetch: Result<(),
    String>,
) -> Seq<Option<Seq<char>>> {
    seq![
        positive_time("startup_leader_wait_timeout"@, tuning.startup_leader_wait_timeout),
        positive_time("self_registration_backoff_min"@, tuning.self_registration_backoff_min),
        positive_time("self_registration_backoff_max"@, tuning.self_registration_backoff_max),
        positive_time("observer_poll_interval"@, tuning.observer_poll_interval),
        positive_time("audit_spool_replay_interval"@, tuning.audit_spool_replay_interval),
        positive_time("audit_stats_poll_interval"@, tuning.audit_stats_poll_interval),
        positive_time("audit_partition_wait_timeout"@, tuning.audit_partition_wait_timeout),
        positive_time("liveness_tick_interval"@, tuning.liveness_tick_interval),
        positive_time("gauge_poll_interval"@, tuning.gauge_poll_interval),
        positive_time("cleaner_interval"@, tuning.cleaner_interval),
        positive_time("isr_scan_interval"@, tuning.isr_scan_interval),
        positive_time("future_log_move_retry_backoff"@, tuning.future_log_move_retry_backoff),
    ]
}

#[verifier::opaque]
spec fn startup<'a>(tuning: &'a BrokerTuning) -> Seq<Field<'a>> {
    tuning.startup_fields()
}

#[verifier::opaque]
spec fn startup_found(
    tuning: BrokerTuning,
    snapshot_fetch: Result<(),
    String>,
) -> Seq<Option<Seq<char>>> {
    startup_findings(tuning, snapshot_fetch)
}

proof fn lemma_startup_findings(tuning: BrokerTuning, snapshot_fetch: Result<(), String>)
    ensures
        broker_tuning::first_error(startup(&tuning), snapshot_fetch) == first(
            startup_found(tuning, snapshot_fetch),
        ),
{
    let (fields, findings) = (startup(&tuning), startup_found(tuning, snapshot_fetch));
    assert(fields.len() == 12 && findings.len() == 12) by {
        reveal(startup);
        reveal(startup_found);
    }
    assert(found(fields[0], snapshot_fetch) == findings[0]) by {
        reveal(startup);
        reveal(startup_found);
        lemma_time(
            "startup_leader_wait_timeout",
            &tuning.startup_leader_wait_timeout,
            0,
            snapshot_fetch,
        );
    }
    assert(found(fields[1], snapshot_fetch) == findings[1]) by {
        reveal(startup);
        reveal(startup_found);
        lemma_time(
            "self_registration_backoff_min",
            &tuning.self_registration_backoff_min,
            0,
            snapshot_fetch,
        );
    }
    assert(found(fields[2], snapshot_fetch) == findings[2]) by {
        reveal(startup);
        reveal(startup_found);
        lemma_time(
            "self_registration_backoff_max",
            &tuning.self_registration_backoff_max,
            0,
            snapshot_fetch,
        );
    }
    assert(found(fields[3], snapshot_fetch) == findings[3]) by {
        reveal(startup);
        reveal(startup_found);
        lemma_time("observer_poll_interval", &tuning.observer_poll_interval, 0, snapshot_fetch);
    }
    assert(found(fields[4], snapshot_fetch) == findings[4]) by {
        reveal(startup);
        reveal(startup_found);
        lemma_time(
            "audit_spool_replay_interval",
            &tuning.audit_spool_replay_interval,
            0,
            snapshot_fetch,
        );
    }
    assert(found(fields[5], snapshot_fetch) == findings[5]) by {
        reveal(startup);
        reveal(startup_found);
        lemma_time(
            "audit_stats_poll_interval",
            &tuning.audit_stats_poll_interval,
            0,
            snapshot_fetch,
        );
    }
    assert(found(fields[6], snapshot_fetch) == findings[6]) by {
        reveal(startup);
        reveal(startup_found);
        lemma_time(
            "audit_partition_wait_timeout",
            &tuning.audit_partition_wait_timeout,
            0,
            snapshot_fetch,
        );
    }
    assert(found(fields[7], snapshot_fetch) == findings[7]) by {
        reveal(startup);
        reveal(startup_found);
        lemma_time("liveness_tick_interval", &tuning.liveness_tick_interval, 0, snapshot_fetch);
    }
    assert(found(fields[8], snapshot_fetch) == findings[8]) by {
        reveal(startup);
        reveal(startup_found);
        lemma_time("gauge_poll_interval", &tuning.gauge_poll_interval, 0, snapshot_fetch);
    }
    assert(found(fields[9], snapshot_fetch) == findings[9]) by {
        reveal(startup);
        reveal(startup_found);
        lemma_time("cleaner_interval", &tuning.cleaner_interval, 0, snapshot_fetch);
    }
    assert(found(fields[10], snapshot_fetch) == findings[10]) by {
        reveal(startup);
        reveal(startup_found);
        lemma_time("isr_scan_interval", &tuning.isr_scan_interval, 0, snapshot_fetch);
    }
    assert(found(fields[11], snapshot_fetch) == findings[11]) by {
        reveal(startup);
        reveal(startup_found);
        lemma_time(
            "future_log_move_retry_backoff",
            &tuning.future_log_move_retry_backoff,
            0,
            snapshot_fetch,
        );
    }
    lemma_errors_are_findings(fields, findings, snapshot_fetch);
}

/// What is wrong with each of the fields for client metrics, remote-log metadata and
/// outbound requests.
pub open spec fn client_metrics_findings(
    tuning: BrokerTuning,
    snapshot_fetch: Result<(),
    String>,
) -> Seq<Option<Seq<char>>> {
    seq![
        positive_time("client_metrics_eviction_tick"@, tuning.client_metrics_eviction_tick),
        positive_time("client_metrics_stale_floor"@, tuning.client_metrics_stale_floor),
        bounded_time(
            "client_metrics_default_interval"@,
            tuning.client_metrics_default_interval,
            2_147_483_647,
        ),
        size("client_metrics_telemetry_max"@, tuning.client_metrics_telemetry_max, 2_147_483_647),
        positive_time("client_metrics_prom_snapshot_ttl"@, tuning.client_metrics_prom_snapshot_ttl),
        positive_time("rlmm_reconcile_tick"@, tuning.rlmm_reconcile_tick),
        positive_time("rlmm_bootstrap_backoff_initial"@, tuning.rlmm_bootstrap_backoff_initial),
        positive_time("rlmm_bootstrap_backoff_max"@, tuning.rlmm_bootstrap_backoff_max),
        positive_time("connection_creation_throttle_max"@, tuning.connection_creation_throttle_max),
        positive_time("opa_http_timeout"@, tuning.opa_http_timeout),
        positive_time("oauth_jwks_http_timeout"@, tuning.oauth_jwks_http_timeout),
        positive_time("auto_join_retry_backoff"@, tuning.auto_join_retry_backoff),
        bounded_time(
            "auto_join_voter_request_timeout"@,
            tuning.auto_join_voter_request_timeout,
            2_147_483_647,
        ),
    ]
}

#[verifier::opaque]
spec fn client_metrics<'a>(tuning: &'a BrokerTuning) -> Seq<Field<'a>> {
    tuning.client_metrics_fields()
}

#[verifier::opaque]
spec fn client_metrics_found(
    tuning: BrokerTuning,
    snapshot_fetch: Result<(),
    String>,
) -> Seq<Option<Seq<char>>> {
    client_metrics_findings(tuning, snapshot_fetch)
}

proof fn lemma_client_metrics_findings(tuning: BrokerTuning, snapshot_fetch: Result<(), String>)
    ensures
        broker_tuning::first_error(client_metrics(&tuning), snapshot_fetch) == first(
            client_metrics_found(tuning, snapshot_fetch),
        ),
{
    let (fields, findings) = (client_metrics(&tuning), client_metrics_found(
        tuning,
        snapshot_fetch,
    ));
    assert(fields.len() == 13 && findings.len() == 13) by {
        reveal(client_metrics);
        reveal(client_metrics_found);
    }
    assert(found(fields[0], snapshot_fetch) == findings[0]) by {
        reveal(client_metrics);
        reveal(client_metrics_found);
        lemma_time(
            "client_metrics_eviction_tick",
            &tuning.client_metrics_eviction_tick,
            0,
            snapshot_fetch,
        );
    }
    assert(found(fields[1], snapshot_fetch) == findings[1]) by {
        reveal(client_metrics);
        reveal(client_metrics_found);
        lemma_time(
            "client_metrics_stale_floor",
            &tuning.client_metrics_stale_floor,
            0,
            snapshot_fetch,
        );
    }
    assert(found(fields[2], snapshot_fetch) == findings[2]) by {
        reveal(client_metrics);
        reveal(client_metrics_found);
        lemma_time(
            "client_metrics_default_interval",
            &tuning.client_metrics_default_interval,
            i32::MAX,
            snapshot_fetch,
        );
    }
    assert(found(fields[3], snapshot_fetch) == findings[3]) by {
        reveal(client_metrics);
        reveal(client_metrics_found);
        lemma_size(
            "client_metrics_telemetry_max",
            &tuning.client_metrics_telemetry_max,
            2_147_483_647,
            snapshot_fetch,
        );
    }
    assert(found(fields[4], snapshot_fetch) == findings[4]) by {
        reveal(client_metrics);
        reveal(client_metrics_found);
        lemma_time(
            "client_metrics_prom_snapshot_ttl",
            &tuning.client_metrics_prom_snapshot_ttl,
            0,
            snapshot_fetch,
        );
    }
    assert(found(fields[5], snapshot_fetch) == findings[5]) by {
        reveal(client_metrics);
        reveal(client_metrics_found);
        lemma_time("rlmm_reconcile_tick", &tuning.rlmm_reconcile_tick, 0, snapshot_fetch);
    }
    assert(found(fields[6], snapshot_fetch) == findings[6]) by {
        reveal(client_metrics);
        reveal(client_metrics_found);
        lemma_time(
            "rlmm_bootstrap_backoff_initial",
            &tuning.rlmm_bootstrap_backoff_initial,
            0,
            snapshot_fetch,
        );
    }
    assert(found(fields[7], snapshot_fetch) == findings[7]) by {
        reveal(client_metrics);
        reveal(client_metrics_found);
        lemma_time(
            "rlmm_bootstrap_backoff_max",
            &tuning.rlmm_bootstrap_backoff_max,
            0,
            snapshot_fetch,
        );
    }
    assert(found(fields[8], snapshot_fetch) == findings[8]) by {
        reveal(client_metrics);
        reveal(client_metrics_found);
        lemma_time(
            "connection_creation_throttle_max",
            &tuning.connection_creation_throttle_max,
            0,
            snapshot_fetch,
        );
    }
    assert(found(fields[9], snapshot_fetch) == findings[9]) by {
        reveal(client_metrics);
        reveal(client_metrics_found);
        lemma_time("opa_http_timeout", &tuning.opa_http_timeout, 0, snapshot_fetch);
    }
    assert(found(fields[10], snapshot_fetch) == findings[10]) by {
        reveal(client_metrics);
        reveal(client_metrics_found);
        lemma_time("oauth_jwks_http_timeout", &tuning.oauth_jwks_http_timeout, 0, snapshot_fetch);
    }
    assert(found(fields[11], snapshot_fetch) == findings[11]) by {
        reveal(client_metrics);
        reveal(client_metrics_found);
        lemma_time("auto_join_retry_backoff", &tuning.auto_join_retry_backoff, 0, snapshot_fetch);
    }
    assert(found(fields[12], snapshot_fetch) == findings[12]) by {
        reveal(client_metrics);
        reveal(client_metrics_found);
        lemma_time(
            "auto_join_voter_request_timeout",
            &tuning.auto_join_voter_request_timeout,
            i32::MAX,
            snapshot_fetch,
        );
    }
    lemma_errors_are_findings(fields, findings, snapshot_fetch);
}

/// What is wrong with each of the fields for replication.
pub open spec fn replication_findings(
    tuning: BrokerTuning,
    snapshot_fetch: Result<(),
    String>,
) -> Seq<Option<Seq<char>>> {
    seq![
        size("replication_fetch_max"@, tuning.replication_fetch_max, 2_147_483_647),
        bounded_time(
            "replication_fetch_max_wait"@,
            tuning.replication_fetch_max_wait,
            2_147_483_647,
        ),
        size("replication_fetch_min"@, tuning.replication_fetch_min, 2_147_483_647),
        positive_time(
            "replication_throttle_exhausted_backoff"@,
            tuning.replication_throttle_exhausted_backoff,
        ),
        positive_time("replication_send_error_backoff"@, tuning.replication_send_error_backoff),
        positive_time(
            "replication_unknown_topic_retry_delay"@,
            tuning.replication_unknown_topic_retry_delay,
        ),
        positive_time("replication_epoch_fence_backoff"@, tuning.replication_epoch_fence_backoff),
        positive_time(
            "replication_unexpected_error_backoff"@,
            tuning.replication_unexpected_error_backoff,
        ),
        positive_time(
            "replication_reconnect_initial_delay"@,
            tuning.replication_reconnect_initial_delay,
        ),
        positive_time("replication_reconnect_delay_cap"@, tuning.replication_reconnect_delay_cap),
    ]
}

#[verifier::opaque]
spec fn replication<'a>(tuning: &'a BrokerTuning) -> Seq<Field<'a>> {
    tuning.replication_fields()
}

#[verifier::opaque]
spec fn replication_found(
    tuning: BrokerTuning,
    snapshot_fetch: Result<(),
    String>,
) -> Seq<Option<Seq<char>>> {
    replication_findings(tuning, snapshot_fetch)
}

proof fn lemma_replication_findings(tuning: BrokerTuning, snapshot_fetch: Result<(), String>)
    ensures
        broker_tuning::first_error(replication(&tuning), snapshot_fetch) == first(
            replication_found(tuning, snapshot_fetch),
        ),
{
    let (fields, findings) = (replication(&tuning), replication_found(tuning, snapshot_fetch));
    assert(fields.len() == 10 && findings.len() == 10) by {
        reveal(replication);
        reveal(replication_found);
    }
    assert(found(fields[0], snapshot_fetch) == findings[0]) by {
        reveal(replication);
        reveal(replication_found);
        lemma_size(
            "replication_fetch_max",
            &tuning.replication_fetch_max,
            2_147_483_647,
            snapshot_fetch,
        );
    }
    assert(found(fields[1], snapshot_fetch) == findings[1]) by {
        reveal(replication);
        reveal(replication_found);
        lemma_time(
            "replication_fetch_max_wait",
            &tuning.replication_fetch_max_wait,
            i32::MAX,
            snapshot_fetch,
        );
    }
    assert(found(fields[2], snapshot_fetch) == findings[2]) by {
        reveal(replication);
        reveal(replication_found);
        lemma_size(
            "replication_fetch_min",
            &tuning.replication_fetch_min,
            2_147_483_647,
            snapshot_fetch,
        );
    }
    assert(found(fields[3], snapshot_fetch) == findings[3]) by {
        reveal(replication);
        reveal(replication_found);
        lemma_time(
            "replication_throttle_exhausted_backoff",
            &tuning.replication_throttle_exhausted_backoff,
            0,
            snapshot_fetch,
        );
    }
    assert(found(fields[4], snapshot_fetch) == findings[4]) by {
        reveal(replication);
        reveal(replication_found);
        lemma_time(
            "replication_send_error_backoff",
            &tuning.replication_send_error_backoff,
            0,
            snapshot_fetch,
        );
    }
    assert(found(fields[5], snapshot_fetch) == findings[5]) by {
        reveal(replication);
        reveal(replication_found);
        lemma_time(
            "replication_unknown_topic_retry_delay",
            &tuning.replication_unknown_topic_retry_delay,
            0,
            snapshot_fetch,
        );
    }
    assert(found(fields[6], snapshot_fetch) == findings[6]) by {
        reveal(replication);
        reveal(replication_found);
        lemma_time(
            "replication_epoch_fence_backoff",
            &tuning.replication_epoch_fence_backoff,
            0,
            snapshot_fetch,
        );
    }
    assert(found(fields[7], snapshot_fetch) == findings[7]) by {
        reveal(replication);
        reveal(replication_found);
        lemma_time(
            "replication_unexpected_error_backoff",
            &tuning.replication_unexpected_error_backoff,
            0,
            snapshot_fetch,
        );
    }
    assert(found(fields[8], snapshot_fetch) == findings[8]) by {
        reveal(replication);
        reveal(replication_found);
        lemma_time(
            "replication_reconnect_initial_delay",
            &tuning.replication_reconnect_initial_delay,
            0,
            snapshot_fetch,
        );
    }
    assert(found(fields[9], snapshot_fetch) == findings[9]) by {
        reveal(replication);
        reveal(replication_found);
        lemma_time(
            "replication_reconnect_delay_cap",
            &tuning.replication_reconnect_delay_cap,
            0,
            snapshot_fetch,
        );
    }
    lemma_errors_are_findings(fields, findings, snapshot_fetch);
}

/// What is wrong with each of the fields for coordinators, consumer groups and recovery.
pub open spec fn group_findings(
    tuning: BrokerTuning,
    snapshot_fetch: Result<(),
    String>,
) -> Seq<Option<Seq<char>>> {
    seq![
        positive_time("coordinator_session_expiry_tick"@, tuning.coordinator_session_expiry_tick),
        positive_time("coordinator_shutdown_ack_timeout"@, tuning.coordinator_shutdown_ack_timeout),
        positive_time("consumer_group_session_timeout"@, tuning.consumer_group_session_timeout),
        positive_time(
            "consumer_group_heartbeat_interval"@,
            tuning.consumer_group_heartbeat_interval,
        ),
        positive_time(
            "consumer_group_min_session_timeout"@,
            tuning.consumer_group_min_session_timeout,
        ),
        positive_time(
            "consumer_group_max_session_timeout"@,
            tuning.consumer_group_max_session_timeout,
        ),
        positive_time(
            "consumer_group_min_heartbeat_interval"@,
            tuning.consumer_group_min_heartbeat_interval,
        ),
        positive_time(
            "consumer_group_max_heartbeat_interval"@,
            tuning.consumer_group_max_heartbeat_interval,
        ),
        count_above_zero(
            "consumer_group_max_size"@,
            tuning_table::whole_usize(tuning.consumer_group_max_size),
        ),
        positive_time(
            "classic_group_initial_rebalance_delay"@,
            tuning.classic_group_initial_rebalance_delay,
        ),
        positive_time("sync_group_follower_wait"@, tuning.sync_group_follower_wait),
        positive_time(
            "unclean_recovery_aggressive_deadline"@,
            tuning.unclean_recovery_aggressive_deadline,
        ),
        positive_time(
            "unclean_recovery_balanced_deadline"@,
            tuning.unclean_recovery_balanced_deadline,
        ),
        positive_time("operator_recovery_deadline"@, tuning.operator_recovery_deadline),
        positive_time("quota_throttle_max"@, tuning.quota_throttle_max),
    ]
}

#[verifier::opaque]
spec fn group<'a>(tuning: &'a BrokerTuning) -> Seq<Field<'a>> {
    tuning.group_fields()
}

#[verifier::opaque]
spec fn group_found(
    tuning: BrokerTuning,
    snapshot_fetch: Result<(),
    String>,
) -> Seq<Option<Seq<char>>> {
    group_findings(tuning, snapshot_fetch)
}

proof fn lemma_group_findings(tuning: BrokerTuning, snapshot_fetch: Result<(), String>)
    ensures
        broker_tuning::first_error(group(&tuning), snapshot_fetch) == first(
            group_found(tuning, snapshot_fetch),
        ),
{
    let (fields, findings) = (group(&tuning), group_found(tuning, snapshot_fetch));
    assert(fields.len() == 15 && findings.len() == 15) by {
        reveal(group);
        reveal(group_found);
    }
    assert(found(fields[0], snapshot_fetch) == findings[0]) by {
        reveal(group);
        reveal(group_found);
        lemma_time(
            "coordinator_session_expiry_tick",
            &tuning.coordinator_session_expiry_tick,
            0,
            snapshot_fetch,
        );
    }
    assert(found(fields[1], snapshot_fetch) == findings[1]) by {
        reveal(group);
        reveal(group_found);
        lemma_time(
            "coordinator_shutdown_ack_timeout",
            &tuning.coordinator_shutdown_ack_timeout,
            0,
            snapshot_fetch,
        );
    }
    assert(found(fields[2], snapshot_fetch) == findings[2]) by {
        reveal(group);
        reveal(group_found);
        lemma_time(
            "consumer_group_session_timeout",
            &tuning.consumer_group_session_timeout,
            0,
            snapshot_fetch,
        );
    }
    assert(found(fields[3], snapshot_fetch) == findings[3]) by {
        reveal(group);
        reveal(group_found);
        lemma_time(
            "consumer_group_heartbeat_interval",
            &tuning.consumer_group_heartbeat_interval,
            0,
            snapshot_fetch,
        );
    }
    assert(found(fields[4], snapshot_fetch) == findings[4]) by {
        reveal(group);
        reveal(group_found);
        lemma_time(
            "consumer_group_min_session_timeout",
            &tuning.consumer_group_min_session_timeout,
            0,
            snapshot_fetch,
        );
    }
    assert(found(fields[5], snapshot_fetch) == findings[5]) by {
        reveal(group);
        reveal(group_found);
        lemma_time(
            "consumer_group_max_session_timeout",
            &tuning.consumer_group_max_session_timeout,
            0,
            snapshot_fetch,
        );
    }
    assert(found(fields[6], snapshot_fetch) == findings[6]) by {
        reveal(group);
        reveal(group_found);
        lemma_time(
            "consumer_group_min_heartbeat_interval",
            &tuning.consumer_group_min_heartbeat_interval,
            0,
            snapshot_fetch,
        );
    }
    assert(found(fields[7], snapshot_fetch) == findings[7]) by {
        reveal(group);
        reveal(group_found);
        lemma_time(
            "consumer_group_max_heartbeat_interval",
            &tuning.consumer_group_max_heartbeat_interval,
            0,
            snapshot_fetch,
        );
    }
    assert(found(fields[8], snapshot_fetch) == findings[8]) by {
        reveal(group);
        reveal(group_found);
        lemma_count("consumer_group_max_size", snapshot_fetch);
    }
    assert(found(fields[9], snapshot_fetch) == findings[9]) by {
        reveal(group);
        reveal(group_found);
        lemma_time(
            "classic_group_initial_rebalance_delay",
            &tuning.classic_group_initial_rebalance_delay,
            0,
            snapshot_fetch,
        );
    }
    assert(found(fields[10], snapshot_fetch) == findings[10]) by {
        reveal(group);
        reveal(group_found);
        lemma_time("sync_group_follower_wait", &tuning.sync_group_follower_wait, 0, snapshot_fetch);
    }
    assert(found(fields[11], snapshot_fetch) == findings[11]) by {
        reveal(group);
        reveal(group_found);
        lemma_time(
            "unclean_recovery_aggressive_deadline",
            &tuning.unclean_recovery_aggressive_deadline,
            0,
            snapshot_fetch,
        );
    }
    assert(found(fields[12], snapshot_fetch) == findings[12]) by {
        reveal(group);
        reveal(group_found);
        lemma_time(
            "unclean_recovery_balanced_deadline",
            &tuning.unclean_recovery_balanced_deadline,
            0,
            snapshot_fetch,
        );
    }
    assert(found(fields[13], snapshot_fetch) == findings[13]) by {
        reveal(group);
        reveal(group_found);
        lemma_time(
            "operator_recovery_deadline",
            &tuning.operator_recovery_deadline,
            0,
            snapshot_fetch,
        );
    }
    assert(found(fields[14], snapshot_fetch) == findings[14]) by {
        reveal(group);
        reveal(group_found);
        lemma_time("quota_throttle_max", &tuning.quota_throttle_max, 0, snapshot_fetch);
    }
    lemma_errors_are_findings(fields, findings, snapshot_fetch);
}

/// What is wrong with each of the fields for queue capacities and the diskless write-ahead log.
pub open spec fn capacity_findings(
    tuning: BrokerTuning,
    snapshot_fetch: Result<(),
    String>,
) -> Seq<Option<Seq<char>>> {
    seq![
        count_above_zero(
            "self_registration_max_attempts"@,
            tuning_table::whole_u32(tuning.self_registration_max_attempts),
        ),
        size("observer_fetch_max"@, tuning.observer_fetch_max, 4_294_967_295),
        count_above_zero(
            "audit_event_queue_capacity"@,
            tuning_table::whole_usize(tuning.audit_event_queue_capacity),
        ),
        count_above_zero(
            "audit_tail_window_offsets"@,
            tuning_table::whole_i64(tuning.audit_tail_window_offsets),
        ),
        size("audit_tail_read_max"@, tuning.audit_tail_read_max, usize::MAX as int),
        positive_time(
            "offsets_topic_metadata_wait_timeout"@,
            tuning.offsets_topic_metadata_wait_timeout,
        ),
        count_above_zero(
            "client_metrics_stale_push_intervals"@,
            tuning_table::whole_u32(tuning.client_metrics_stale_push_intervals),
        ),
        count_above_zero(
            "client_metrics_otlp_queue_capacity"@,
            tuning_table::whole_usize(tuning.client_metrics_otlp_queue_capacity),
        ),
        count_above_zero(
            "coordinator_actor_mailbox_capacity"@,
            tuning_table::whole_usize(tuning.coordinator_actor_mailbox_capacity),
        ),
        count_above_zero(
            "diskless_wal_local_replica_count"@,
            tuning_table::whole_usize(tuning.diskless_wal_local_replica_count),
        ),
        positive_time("diskless_wal_flush_interval"@, tuning.diskless_wal_flush_interval),
        size("diskless_wal_flush_max_size"@, tuning.diskless_wal_flush_max_size, usize::MAX as int),
        count_from_zero(
            "diskless_wal_trim_safety_lag"@,
            tuning_table::whole_i64(tuning.diskless_wal_trim_safety_lag),
        ),
        positive_time(
            "diskless_wal_index_projection_timeout"@,
            tuning.diskless_wal_index_projection_timeout,
        ),
        count_above_zero(
            "unclean_recovery_queue_capacity"@,
            tuning_table::whole_usize(tuning.unclean_recovery_queue_capacity),
        ),
        size("share_recovery_read_max"@, tuning.share_recovery_read_max, usize::MAX as int),
    ]
}

#[verifier::opaque]
spec fn capacity<'a>(tuning: &'a BrokerTuning) -> Seq<Field<'a>> {
    tuning.capacity_fields()
}

#[verifier::opaque]
spec fn capacity_found(
    tuning: BrokerTuning,
    snapshot_fetch: Result<(),
    String>,
) -> Seq<Option<Seq<char>>> {
    capacity_findings(tuning, snapshot_fetch)
}

proof fn lemma_capacity_findings(tuning: BrokerTuning, snapshot_fetch: Result<(), String>)
    ensures
        broker_tuning::first_error(capacity(&tuning), snapshot_fetch) == first(
            capacity_found(tuning, snapshot_fetch),
        ),
{
    let (fields, findings) = (capacity(&tuning), capacity_found(tuning, snapshot_fetch));
    assert(fields.len() == 16 && findings.len() == 16) by {
        reveal(capacity);
        reveal(capacity_found);
    }
    assert(found(fields[0], snapshot_fetch) == findings[0]) by {
        reveal(capacity);
        reveal(capacity_found);
        lemma_count("self_registration_max_attempts", snapshot_fetch);
    }
    assert(found(fields[1], snapshot_fetch) == findings[1]) by {
        reveal(capacity);
        reveal(capacity_found);
        lemma_size("observer_fetch_max", &tuning.observer_fetch_max, 4_294_967_295, snapshot_fetch);
    }
    assert(found(fields[2], snapshot_fetch) == findings[2]) by {
        reveal(capacity);
        reveal(capacity_found);
        lemma_count("audit_event_queue_capacity", snapshot_fetch);
    }
    assert(found(fields[3], snapshot_fetch) == findings[3]) by {
        reveal(capacity);
        reveal(capacity_found);
        lemma_count("audit_tail_window_offsets", snapshot_fetch);
    }
    assert(found(fields[4], snapshot_fetch) == findings[4]) by {
        reveal(capacity);
        reveal(capacity_found);
        lemma_size(
            "audit_tail_read_max",
            &tuning.audit_tail_read_max,
            usize::MAX as u64,
            snapshot_fetch,
        );
    }
    assert(found(fields[5], snapshot_fetch) == findings[5]) by {
        reveal(capacity);
        reveal(capacity_found);
        lemma_time(
            "offsets_topic_metadata_wait_timeout",
            &tuning.offsets_topic_metadata_wait_timeout,
            0,
            snapshot_fetch,
        );
    }
    assert(found(fields[6], snapshot_fetch) == findings[6]) by {
        reveal(capacity);
        reveal(capacity_found);
        lemma_count("client_metrics_stale_push_intervals", snapshot_fetch);
    }
    assert(found(fields[7], snapshot_fetch) == findings[7]) by {
        reveal(capacity);
        reveal(capacity_found);
        lemma_count("client_metrics_otlp_queue_capacity", snapshot_fetch);
    }
    assert(found(fields[8], snapshot_fetch) == findings[8]) by {
        reveal(capacity);
        reveal(capacity_found);
        lemma_count("coordinator_actor_mailbox_capacity", snapshot_fetch);
    }
    assert(found(fields[9], snapshot_fetch) == findings[9]) by {
        reveal(capacity);
        reveal(capacity_found);
        lemma_count("diskless_wal_local_replica_count", snapshot_fetch);
    }
    assert(found(fields[10], snapshot_fetch) == findings[10]) by {
        reveal(capacity);
        reveal(capacity_found);
        lemma_time(
            "diskless_wal_flush_interval",
            &tuning.diskless_wal_flush_interval,
            0,
            snapshot_fetch,
        );
    }
    assert(found(fields[11], snapshot_fetch) == findings[11]) by {
        reveal(capacity);
        reveal(capacity_found);
        lemma_size(
            "diskless_wal_flush_max_size",
            &tuning.diskless_wal_flush_max_size,
            usize::MAX as u64,
            snapshot_fetch,
        );
    }
    assert(found(fields[12], snapshot_fetch) == findings[12]) by {
        reveal(capacity);
        reveal(capacity_found);
        lemma_count("diskless_wal_trim_safety_lag", snapshot_fetch);
    }
    assert(found(fields[13], snapshot_fetch) == findings[13]) by {
        reveal(capacity);
        reveal(capacity_found);
        lemma_time(
            "diskless_wal_index_projection_timeout",
            &tuning.diskless_wal_index_projection_timeout,
            0,
            snapshot_fetch,
        );
    }
    assert(found(fields[14], snapshot_fetch) == findings[14]) by {
        reveal(capacity);
        reveal(capacity_found);
        lemma_count("unclean_recovery_queue_capacity", snapshot_fetch);
    }
    assert(found(fields[15], snapshot_fetch) == findings[15]) by {
        reveal(capacity);
        reveal(capacity_found);
        lemma_size(
            "share_recovery_read_max",
            &tuning.share_recovery_read_max,
            usize::MAX as u64,
            snapshot_fetch,
        );
    }
    lemma_errors_are_findings(fields, findings, snapshot_fetch);
}

/// What is wrong with each of the fields for read sizes, sockets, ACLs and decompression.
pub open spec fn socket_findings(
    tuning: BrokerTuning,
    snapshot_fetch: Result<(),
    String>,
) -> Seq<Option<Seq<char>>> {
    seq![
        count_above_zero(
            "share_session_cache_max_when_unlimited"@,
            tuning_table::whole_usize(tuning.share_session_cache_max_when_unlimited),
        ),
        size("log_read_buffer_cap"@, tuning.log_read_buffer_cap, usize::MAX as int),
        size("log_timestamp_scan_window"@, tuning.log_timestamp_scan_window, usize::MAX as int),
        size("socket_request_max"@, tuning.socket_request_max, 4_294_967_295),
        size("sendfile_min"@, tuning.sendfile_min, usize::MAX as int),
        size("socket_send_buffer"@, tuning.socket_send_buffer, usize::MAX as int),
        size("socket_receive_buffer"@, tuning.socket_receive_buffer, usize::MAX as int),
        size("acl_max_principal"@, tuning.acl_max_principal, usize::MAX as int),
        size("acl_max_resource_name"@, tuning.acl_max_resource_name, usize::MAX as int),
        positive_ratio(
            "telemetry_max_decompression_ratio"@,
            tuning.telemetry_max_decompression_ratio,
        ),
        size(
            "telemetry_decompressed_output_floor"@,
            tuning.telemetry_decompressed_output_floor,
            usize::MAX as int,
        ),
        size(
            "telemetry_decompressed_output_ceiling"@,
            tuning.telemetry_decompressed_output_ceiling,
            usize::MAX as int,
        ),
        positive_ratio("record_decompression_max_ratio"@, tuning.record_decompression_max_ratio),
        size(
            "record_decompression_output_floor"@,
            tuning.record_decompression_output_floor,
            0xffff_ffff_ffff_ffff,
        ),
        size(
            "record_decompression_output_ceiling"@,
            tuning.record_decompression_output_ceiling,
            0xffff_ffff_ffff_ffff,
        ),
        None,
    ]
}

#[verifier::opaque]
spec fn socket<'a>(tuning: &'a BrokerTuning) -> Seq<Field<'a>> {
    tuning.socket_fields()
}

#[verifier::opaque]
spec fn socket_found(
    tuning: BrokerTuning,
    snapshot_fetch: Result<(),
    String>,
) -> Seq<Option<Seq<char>>> {
    socket_findings(tuning, snapshot_fetch)
}

proof fn lemma_socket_findings(tuning: BrokerTuning, snapshot_fetch: Result<(), String>)
    ensures
        broker_tuning::first_error(socket(&tuning), snapshot_fetch) == first(
            socket_found(tuning, snapshot_fetch),
        ),
{
    let (fields, findings) = (socket(&tuning), socket_found(tuning, snapshot_fetch));
    assert(fields.len() == 16 && findings.len() == 16) by {
        reveal(socket);
        reveal(socket_found);
    }
    assert(found(fields[0], snapshot_fetch) == findings[0]) by {
        reveal(socket);
        reveal(socket_found);
        lemma_count("share_session_cache_max_when_unlimited", snapshot_fetch);
    }
    assert(found(fields[1], snapshot_fetch) == findings[1]) by {
        reveal(socket);
        reveal(socket_found);
        lemma_size(
            "log_read_buffer_cap",
            &tuning.log_read_buffer_cap,
            usize::MAX as u64,
            snapshot_fetch,
        );
    }
    assert(found(fields[2], snapshot_fetch) == findings[2]) by {
        reveal(socket);
        reveal(socket_found);
        lemma_size(
            "log_timestamp_scan_window",
            &tuning.log_timestamp_scan_window,
            usize::MAX as u64,
            snapshot_fetch,
        );
    }
    assert(found(fields[3], snapshot_fetch) == findings[3]) by {
        reveal(socket);
        reveal(socket_found);
        lemma_size("socket_request_max", &tuning.socket_request_max, 4_294_967_295, snapshot_fetch);
    }
    assert(found(fields[4], snapshot_fetch) == findings[4]) by {
        reveal(socket);
        reveal(socket_found);
        lemma_size("sendfile_min", &tuning.sendfile_min, usize::MAX as u64, snapshot_fetch);
    }
    assert(found(fields[5], snapshot_fetch) == findings[5]) by {
        reveal(socket);
        reveal(socket_found);
        lemma_size(
            "socket_send_buffer",
            &tuning.socket_send_buffer,
            usize::MAX as u64,
            snapshot_fetch,
        );
    }
    assert(found(fields[6], snapshot_fetch) == findings[6]) by {
        reveal(socket);
        reveal(socket_found);
        lemma_size(
            "socket_receive_buffer",
            &tuning.socket_receive_buffer,
            usize::MAX as u64,
            snapshot_fetch,
        );
    }
    assert(found(fields[7], snapshot_fetch) == findings[7]) by {
        reveal(socket);
        reveal(socket_found);
        lemma_size(
            "acl_max_principal",
            &tuning.acl_max_principal,
            usize::MAX as u64,
            snapshot_fetch,
        );
    }
    assert(found(fields[8], snapshot_fetch) == findings[8]) by {
        reveal(socket);
        reveal(socket_found);
        lemma_size(
            "acl_max_resource_name",
            &tuning.acl_max_resource_name,
            usize::MAX as u64,
            snapshot_fetch,
        );
    }
    assert(found(fields[9], snapshot_fetch) == findings[9]) by {
        reveal(socket);
        reveal(socket_found);
        lemma_ratio(
            "telemetry_max_decompression_ratio",
            &tuning.telemetry_max_decompression_ratio,
            snapshot_fetch,
        );
    }
    assert(found(fields[10], snapshot_fetch) == findings[10]) by {
        reveal(socket);
        reveal(socket_found);
        lemma_size(
            "telemetry_decompressed_output_floor",
            &tuning.telemetry_decompressed_output_floor,
            usize::MAX as u64,
            snapshot_fetch,
        );
    }
    assert(found(fields[11], snapshot_fetch) == findings[11]) by {
        reveal(socket);
        reveal(socket_found);
        lemma_size(
            "telemetry_decompressed_output_ceiling",
            &tuning.telemetry_decompressed_output_ceiling,
            usize::MAX as u64,
            snapshot_fetch,
        );
    }
    assert(found(fields[12], snapshot_fetch) == findings[12]) by {
        reveal(socket);
        reveal(socket_found);
        lemma_ratio(
            "record_decompression_max_ratio",
            &tuning.record_decompression_max_ratio,
            snapshot_fetch,
        );
    }
    assert(found(fields[13], snapshot_fetch) == findings[13]) by {
        reveal(socket);
        reveal(socket_found);
        lemma_size(
            "record_decompression_output_floor",
            &tuning.record_decompression_output_floor,
            u64::MAX,
            snapshot_fetch,
        );
    }
    assert(found(fields[14], snapshot_fetch) == findings[14]) by {
        reveal(socket);
        reveal(socket_found);
        lemma_size(
            "record_decompression_output_ceiling",
            &tuning.record_decompression_output_ceiling,
            u64::MAX,
            snapshot_fetch,
        );
    }
    assert(found(fields[15], snapshot_fetch) == findings[15]) by {
        reveal(socket);
        reveal(socket_found);
        lemma_count("inter_broker_server_name", snapshot_fetch);
    }
    lemma_errors_are_findings(fields, findings, snapshot_fetch);
}

/// What is wrong with each of the fields for producers and transactions.
pub open spec fn producer_findings(
    tuning: BrokerTuning,
    snapshot_fetch: Result<(),
    String>,
) -> Seq<Option<Seq<char>>> {
    seq![
        whole_time("producer_id_expiration"@, tuning.producer_id_expiration),
        positive_time(
            "producer_id_expiration_scan_interval"@,
            tuning.producer_id_expiration_scan_interval,
        ),
        count_above_zero("max_produce_group"@, tuning_table::whole_usize(tuning.max_produce_group)),
        count_above_zero(
            "partition_writer_queue_depth"@,
            tuning_table::whole_usize(tuning.partition_writer_queue_depth),
        ),
        count_above_zero(
            "default_min_insync_replicas"@,
            tuning_table::whole_i32(tuning.default_min_insync_replicas),
        ),
        size("future_log_move_read_chunk"@, tuning.future_log_move_read_chunk, usize::MAX as int),
        count_above_zero(
            "share_state_num_partitions"@,
            tuning_table::whole_i32(tuning.share_state_num_partitions),
        ),
        count_above_zero(
            "share_state_replication_factor"@,
            tuning_table::whole_i16(tuning.share_state_replication_factor),
        ),
        count_above_zero(
            "transaction_state_num_partitions"@,
            tuning_table::whole_i32(tuning.transaction_state_num_partitions),
        ),
        size(
            "transaction_recovery_read_max"@,
            tuning.transaction_recovery_read_max,
            usize::MAX as int,
        ),
        count_above_zero(
            "transaction_state_replication_factor"@,
            tuning_table::whole_i16(tuning.transaction_state_replication_factor),
        ),
        bounded_time("transaction_min_timeout"@, tuning.transaction_min_timeout, 2_147_483_647),
        bounded_time("transaction_max_timeout"@, tuning.transaction_max_timeout, 2_147_483_646),
        nonnegative_time("partition_disk_scan_interval"@, tuning.partition_disk_scan_interval),
        None,
    ]
}

#[verifier::opaque]
spec fn producer<'a>(tuning: &'a BrokerTuning) -> Seq<Field<'a>> {
    tuning.producer_fields()
}

#[verifier::opaque]
spec fn producer_found(
    tuning: BrokerTuning,
    snapshot_fetch: Result<(),
    String>,
) -> Seq<Option<Seq<char>>> {
    producer_findings(tuning, snapshot_fetch)
}

proof fn lemma_producer_findings(tuning: BrokerTuning, snapshot_fetch: Result<(), String>)
    ensures
        broker_tuning::first_error(producer(&tuning), snapshot_fetch) == first(
            producer_found(tuning, snapshot_fetch),
        ),
{
    let (fields, findings) = (producer(&tuning), producer_found(tuning, snapshot_fetch));
    assert(fields.len() == 15 && findings.len() == 15) by {
        reveal(producer);
        reveal(producer_found);
    }
    assert(found(fields[0], snapshot_fetch) == findings[0]) by {
        reveal(producer);
        reveal(producer_found);
        lemma_time("producer_id_expiration", &tuning.producer_id_expiration, 0, snapshot_fetch);
    }
    assert(found(fields[1], snapshot_fetch) == findings[1]) by {
        reveal(producer);
        reveal(producer_found);
        lemma_time(
            "producer_id_expiration_scan_interval",
            &tuning.producer_id_expiration_scan_interval,
            0,
            snapshot_fetch,
        );
    }
    assert(found(fields[2], snapshot_fetch) == findings[2]) by {
        reveal(producer);
        reveal(producer_found);
        lemma_count("max_produce_group", snapshot_fetch);
    }
    assert(found(fields[3], snapshot_fetch) == findings[3]) by {
        reveal(producer);
        reveal(producer_found);
        lemma_count("partition_writer_queue_depth", snapshot_fetch);
    }
    assert(found(fields[4], snapshot_fetch) == findings[4]) by {
        reveal(producer);
        reveal(producer_found);
        lemma_count("default_min_insync_replicas", snapshot_fetch);
    }
    assert(found(fields[5], snapshot_fetch) == findings[5]) by {
        reveal(producer);
        reveal(producer_found);
        lemma_size(
            "future_log_move_read_chunk",
            &tuning.future_log_move_read_chunk,
            usize::MAX as u64,
            snapshot_fetch,
        );
    }
    assert(found(fields[6], snapshot_fetch) == findings[6]) by {
        reveal(producer);
        reveal(producer_found);
        lemma_count("share_state_num_partitions", snapshot_fetch);
    }
    assert(found(fields[7], snapshot_fetch) == findings[7]) by {
        reveal(producer);
        reveal(producer_found);
        lemma_count("share_state_replication_factor", snapshot_fetch);
    }
    assert(found(fields[8], snapshot_fetch) == findings[8]) by {
        reveal(producer);
        reveal(producer_found);
        lemma_count("transaction_state_num_partitions", snapshot_fetch);
    }
    assert(found(fields[9], snapshot_fetch) == findings[9]) by {
        reveal(producer);
        reveal(producer_found);
        lemma_size(
            "transaction_recovery_read_max",
            &tuning.transaction_recovery_read_max,
            usize::MAX as u64,
            snapshot_fetch,
        );
    }
    assert(found(fields[10], snapshot_fetch) == findings[10]) by {
        reveal(producer);
        reveal(producer_found);
        lemma_count("transaction_state_replication_factor", snapshot_fetch);
    }
    assert(found(fields[11], snapshot_fetch) == findings[11]) by {
        reveal(producer);
        reveal(producer_found);
        lemma_time(
            "transaction_min_timeout",
            &tuning.transaction_min_timeout,
            i32::MAX,
            snapshot_fetch,
        );
    }
    assert(found(fields[12], snapshot_fetch) == findings[12]) by {
        reveal(producer);
        reveal(producer_found);
        lemma_time(
            "transaction_max_timeout",
            &tuning.transaction_max_timeout,
            2_147_483_646,
            snapshot_fetch,
        );
    }
    assert(found(fields[13], snapshot_fetch) == findings[13]) by {
        reveal(producer);
        reveal(producer_found);
        lemma_time(
            "partition_disk_scan_interval",
            &tuning.partition_disk_scan_interval,
            0,
            snapshot_fetch,
        );
    }
    assert(found(fields[14], snapshot_fetch) == findings[14]) by {
        reveal(producer);
        reveal(producer_found);
        lemma_count("observer_lag_bound", snapshot_fetch);
    }
    lemma_errors_are_findings(fields, findings, snapshot_fetch);
}

/// What is wrong with each of the fields for heartbeats, the controller and metadata snapshots.
pub open spec fn controller_findings(
    tuning: BrokerTuning,
    snapshot_fetch: Result<(),
    String>,
) -> Seq<Option<Seq<char>>> {
    seq![
        positive_time("heartbeat_interval"@, tuning.heartbeat_interval),
        positive_time("heartbeat_timeout"@, tuning.heartbeat_timeout),
        positive_time("replica_lag_time_max"@, tuning.replica_lag_time_max),
        positive_time("controller_election_timeout"@, tuning.controller_election_timeout),
        positive_time("controller_heartbeat_interval"@, tuning.controller_heartbeat_interval),
        count_above_zero(
            "controller_fetch_miss_limit"@,
            tuning_table::whole_u32(tuning.controller_fetch_miss_limit),
        ),
        count_above_zero(
            "metadata_raft_command_queue_capacity"@,
            tuning_table::whole_usize(tuning.metadata_raft_command_queue_capacity),
        ),
        size("metadata_raft_fetch_max"@, tuning.metadata_raft_fetch_max, 2_147_483_647),
        positive_time(
            "controlled_shutdown_drain_timeout"@,
            tuning.controlled_shutdown_drain_timeout,
        ),
        size(
            "metadata_max_between_snapshots"@,
            tuning.metadata_max_between_snapshots,
            0xffff_ffff_ffff_ffff,
        ),
        nonnegative_time("metadata_max_snapshot_interval"@, tuning.metadata_max_snapshot_interval),
        count_above_zero(
            "metadata_snapshot_interval_records"@,
            tuning_table::whole_u64(tuning.metadata_snapshot_interval_records),
        ),
        verdict(
            "metadata_snapshot_fetch_max"@,
            tuning.metadata_snapshot_fetch_max is Some,
            snapshot_fetch,
        ),
        nonnegative_time("txn_abort_cleanup_interval"@, tuning.txn_abort_cleanup_interval),
        positive_time("leader_imbalance_check_interval"@, tuning.leader_imbalance_check_interval),
        unit_ratio("leader_imbalance_per_broker"@, tuning.leader_imbalance_per_broker),
        nonnegative_time("tls_reload_interval"@, tuning.tls_reload_interval),
    ]
}

#[verifier::opaque]
spec fn controller<'a>(tuning: &'a BrokerTuning) -> Seq<Field<'a>> {
    tuning.controller_fields()
}

#[verifier::opaque]
spec fn controller_found(
    tuning: BrokerTuning,
    snapshot_fetch: Result<(),
    String>,
) -> Seq<Option<Seq<char>>> {
    controller_findings(tuning, snapshot_fetch)
}

proof fn lemma_controller_findings(tuning: BrokerTuning, snapshot_fetch: Result<(), String>)
    ensures
        broker_tuning::first_error(controller(&tuning), snapshot_fetch) == first(
            controller_found(tuning, snapshot_fetch),
        ),
{
    let (fields, findings) = (controller(&tuning), controller_found(tuning, snapshot_fetch));
    assert(fields.len() == 17 && findings.len() == 17) by {
        reveal(controller);
        reveal(controller_found);
    }
    assert(found(fields[0], snapshot_fetch) == findings[0]) by {
        reveal(controller);
        reveal(controller_found);
        lemma_time("heartbeat_interval", &tuning.heartbeat_interval, 0, snapshot_fetch);
    }
    assert(found(fields[1], snapshot_fetch) == findings[1]) by {
        reveal(controller);
        reveal(controller_found);
        lemma_time("heartbeat_timeout", &tuning.heartbeat_timeout, 0, snapshot_fetch);
    }
    assert(found(fields[2], snapshot_fetch) == findings[2]) by {
        reveal(controller);
        reveal(controller_found);
        lemma_time("replica_lag_time_max", &tuning.replica_lag_time_max, 0, snapshot_fetch);
    }
    assert(found(fields[3], snapshot_fetch) == findings[3]) by {
        reveal(controller);
        reveal(controller_found);
        lemma_time(
            "controller_election_timeout",
            &tuning.controller_election_timeout,
            0,
            snapshot_fetch,
        );
    }
    assert(found(fields[4], snapshot_fetch) == findings[4]) by {
        reveal(controller);
        reveal(controller_found);
        lemma_time(
            "controller_heartbeat_interval",
            &tuning.controller_heartbeat_interval,
            0,
            snapshot_fetch,
        );
    }
    assert(found(fields[5], snapshot_fetch) == findings[5]) by {
        reveal(controller);
        reveal(controller_found);
        lemma_count("controller_fetch_miss_limit", snapshot_fetch);
    }
    assert(found(fields[6], snapshot_fetch) == findings[6]) by {
        reveal(controller);
        reveal(controller_found);
        lemma_count("metadata_raft_command_queue_capacity", snapshot_fetch);
    }
    assert(found(fields[7], snapshot_fetch) == findings[7]) by {
        reveal(controller);
        reveal(controller_found);
        lemma_size(
            "metadata_raft_fetch_max",
            &tuning.metadata_raft_fetch_max,
            2_147_483_647,
            snapshot_fetch,
        );
    }
    assert(found(fields[8], snapshot_fetch) == findings[8]) by {
        reveal(controller);
        reveal(controller_found);
        lemma_time(
            "controlled_shutdown_drain_timeout",
            &tuning.controlled_shutdown_drain_timeout,
            0,
            snapshot_fetch,
        );
    }
    assert(found(fields[9], snapshot_fetch) == findings[9]) by {
        reveal(controller);
        reveal(controller_found);
        lemma_size(
            "metadata_max_between_snapshots",
            &tuning.metadata_max_between_snapshots,
            u64::MAX,
            snapshot_fetch,
        );
    }
    assert(found(fields[10], snapshot_fetch) == findings[10]) by {
        reveal(controller);
        reveal(controller_found);
        lemma_time(
            "metadata_max_snapshot_interval",
            &tuning.metadata_max_snapshot_interval,
            0,
            snapshot_fetch,
        );
    }
    assert(found(fields[11], snapshot_fetch) == findings[11]) by {
        reveal(controller);
        reveal(controller_found);
        lemma_count("metadata_snapshot_interval_records", snapshot_fetch);
    }
    assert(found(fields[12], snapshot_fetch) == findings[12]) by {
        reveal(controller);
        reveal(controller_found);
        lemma_size(
            "metadata_snapshot_fetch_max",
            &tuning.metadata_snapshot_fetch_max,
            0,
            snapshot_fetch,
        );
    }
    assert(found(fields[13], snapshot_fetch) == findings[13]) by {
        reveal(controller);
        reveal(controller_found);
        lemma_time(
            "txn_abort_cleanup_interval",
            &tuning.txn_abort_cleanup_interval,
            0,
            snapshot_fetch,
        );
    }
    assert(found(fields[14], snapshot_fetch) == findings[14]) by {
        reveal(controller);
        reveal(controller_found);
        lemma_time(
            "leader_imbalance_check_interval",
            &tuning.leader_imbalance_check_interval,
            0,
            snapshot_fetch,
        );
    }
    assert(found(fields[15], snapshot_fetch) == findings[15]) by {
        reveal(controller);
        reveal(controller_found);
        lemma_ratio(
            "leader_imbalance_per_broker",
            &tuning.leader_imbalance_per_broker,
            snapshot_fetch,
        );
    }
    assert(found(fields[16], snapshot_fetch) == findings[16]) by {
        reveal(controller);
        reveal(controller_found);
        lemma_time("tls_reload_interval", &tuning.tls_reload_interval, 0, snapshot_fetch);
    }
    lemma_errors_are_findings(fields, findings, snapshot_fetch);
}

/// What is wrong with each of the fields for connections and delegation tokens.
pub open spec fn connection_findings(
    tuning: BrokerTuning,
    snapshot_fetch: Result<(),
    String>,
) -> Seq<Option<Seq<char>>> {
    seq![
        None,
        None,
        None,
        whole_time("delegation_token_max_lifetime"@, tuning.delegation_token_max_lifetime),
        whole_time(
            "delegation_token_expiry_check_interval"@,
            tuning.delegation_token_expiry_check_interval,
        ),
        whole_time(
            "delegation_token_default_renew_period"@,
            tuning.delegation_token_default_renew_period,
        ),
        positive_time("remote_log_manager_interval"@, tuning.remote_log_manager_interval),
        None,
    ]
}

#[verifier::opaque]
spec fn connection<'a>(tuning: &'a BrokerTuning) -> Seq<Field<'a>> {
    tuning.connection_fields()
}

#[verifier::opaque]
spec fn connection_found(
    tuning: BrokerTuning,
    snapshot_fetch: Result<(),
    String>,
) -> Seq<Option<Seq<char>>> {
    connection_findings(tuning, snapshot_fetch)
}

proof fn lemma_connection_findings(tuning: BrokerTuning, snapshot_fetch: Result<(), String>)
    ensures
        broker_tuning::first_error(connection(&tuning), snapshot_fetch) == first(
            connection_found(tuning, snapshot_fetch),
        ),
{
    let (fields, findings) = (connection(&tuning), connection_found(tuning, snapshot_fetch));
    assert(fields.len() == 8 && findings.len() == 8) by {
        reveal(connection);
        reveal(connection_found);
    }
    assert(found(fields[0], snapshot_fetch) == findings[0]) by {
        reveal(connection);
        reveal(connection_found);
        lemma_count("max_incremental_fetch_session_cache_slots", snapshot_fetch);
    }
    assert(found(fields[1], snapshot_fetch) == findings[1]) by {
        reveal(connection);
        reveal(connection_found);
        lemma_count("max_connections", snapshot_fetch);
    }
    assert(found(fields[2], snapshot_fetch) == findings[2]) by {
        reveal(connection);
        reveal(connection_found);
        lemma_count("max_connections_per_ip", snapshot_fetch);
    }
    assert(found(fields[3], snapshot_fetch) == findings[3]) by {
        reveal(connection);
        reveal(connection_found);
        lemma_time(
            "delegation_token_max_lifetime",
            &tuning.delegation_token_max_lifetime,
            0,
            snapshot_fetch,
        );
    }
    assert(found(fields[4], snapshot_fetch) == findings[4]) by {
        reveal(connection);
        reveal(connection_found);
        lemma_time(
            "delegation_token_expiry_check_interval",
            &tuning.delegation_token_expiry_check_interval,
            0,
            snapshot_fetch,
        );
    }
    assert(found(fields[5], snapshot_fetch) == findings[5]) by {
        reveal(connection);
        reveal(connection_found);
        lemma_time(
            "delegation_token_default_renew_period",
            &tuning.delegation_token_default_renew_period,
            0,
            snapshot_fetch,
        );
    }
    assert(found(fields[6], snapshot_fetch) == findings[6]) by {
        reveal(connection);
        reveal(connection_found);
        lemma_time(
            "remote_log_manager_interval",
            &tuning.remote_log_manager_interval,
            0,
            snapshot_fetch,
        );
    }
    assert(found(fields[7], snapshot_fetch) == findings[7]) by {
        reveal(connection);
        reveal(connection_found);
        lemma_count("share_group_enable", snapshot_fetch);
    }
    lemma_errors_are_findings(fields, findings, snapshot_fetch);
}

/// What is wrong with each of the fields for share groups.
pub open spec fn share_group_findings(
    tuning: BrokerTuning,
    snapshot_fetch: Result<(),
    String>,
) -> Seq<Option<Seq<char>>> {
    seq![
        positive_time("share_group_session_timeout"@, tuning.share_group_session_timeout),
        positive_time("share_group_heartbeat_interval"@, tuning.share_group_heartbeat_interval),
        count_above_zero(
            "share_group_max_size"@,
            tuning_table::whole_usize(tuning.share_group_max_size),
        ),
        positive_time("share_group_record_lock_duration"@, tuning.share_group_record_lock_duration),
        count_above_zero(
            "share_group_max_delivery_attempts"@,
            tuning_table::whole_i16(tuning.share_group_max_delivery_attempts),
        ),
        count_above_zero(
            "share_group_max_inflight_records"@,
            tuning_table::whole_i32(tuning.share_group_max_inflight_records),
        ),
        None,
    ]
}

#[verifier::opaque]
spec fn share_group<'a>(tuning: &'a BrokerTuning) -> Seq<Field<'a>> {
    tuning.share_group_fields()
}

#[verifier::opaque]
spec fn share_group_found(
    tuning: BrokerTuning,
    snapshot_fetch: Result<(),
    String>,
) -> Seq<Option<Seq<char>>> {
    share_group_findings(tuning, snapshot_fetch)
}

proof fn lemma_share_group_findings(tuning: BrokerTuning, snapshot_fetch: Result<(), String>)
    ensures
        broker_tuning::first_error(share_group(&tuning), snapshot_fetch) == first(
            share_group_found(tuning, snapshot_fetch),
        ),
{
    let (fields, findings) = (share_group(&tuning), share_group_found(tuning, snapshot_fetch));
    assert(fields.len() == 7 && findings.len() == 7) by {
        reveal(share_group);
        reveal(share_group_found);
    }
    assert(found(fields[0], snapshot_fetch) == findings[0]) by {
        reveal(share_group);
        reveal(share_group_found);
        lemma_time(
            "share_group_session_timeout",
            &tuning.share_group_session_timeout,
            0,
            snapshot_fetch,
        );
    }
    assert(found(fields[1], snapshot_fetch) == findings[1]) by {
        reveal(share_group);
        reveal(share_group_found);
        lemma_time(
            "share_group_heartbeat_interval",
            &tuning.share_group_heartbeat_interval,
            0,
            snapshot_fetch,
        );
    }
    assert(found(fields[2], snapshot_fetch) == findings[2]) by {
        reveal(share_group);
        reveal(share_group_found);
        lemma_count("share_group_max_size", snapshot_fetch);
    }
    assert(found(fields[3], snapshot_fetch) == findings[3]) by {
        reveal(share_group);
        reveal(share_group_found);
        lemma_time(
            "share_group_record_lock_duration",
            &tuning.share_group_record_lock_duration,
            0,
            snapshot_fetch,
        );
    }
    assert(found(fields[4], snapshot_fetch) == findings[4]) by {
        reveal(share_group);
        reveal(share_group_found);
        lemma_count("share_group_max_delivery_attempts", snapshot_fetch);
    }
    assert(found(fields[5], snapshot_fetch) == findings[5]) by {
        reveal(share_group);
        reveal(share_group_found);
        lemma_count("share_group_max_inflight_records", snapshot_fetch);
    }
    assert(found(fields[6], snapshot_fetch) == findings[6]) by {
        reveal(share_group);
        reveal(share_group_found);
        lemma_count("share_group_isolation_level", snapshot_fetch);
    }
    lemma_errors_are_findings(fields, findings, snapshot_fetch);
}

/// What is wrong with each of the fields for streams groups.
pub open spec fn streams_group_findings(
    tuning: BrokerTuning,
    snapshot_fetch: Result<(),
    String>,
) -> Seq<Option<Seq<char>>> {
    seq![
        None,
        positive_time("streams_group_session_timeout"@, tuning.streams_group_session_timeout),
        positive_time("streams_group_heartbeat_interval"@, tuning.streams_group_heartbeat_interval),
        count_above_zero(
            "streams_group_max_size"@,
            tuning_table::whole_usize(tuning.streams_group_max_size),
        ),
        count_above_zero(
            "streams_internal_topic_replication_factor"@,
            tuning_table::whole_i16(tuning.streams_internal_topic_replication_factor),
        ),
        count_from_zero(
            "streams_group_num_standby_replicas"@,
            tuning_table::whole_i32(tuning.streams_group_num_standby_replicas),
        ),
        count_from_zero(
            "streams_group_num_warmup_replicas"@,
            tuning_table::whole_i32(tuning.streams_group_num_warmup_replicas),
        ),
        count_from_zero(
            "streams_group_acceptable_recovery_lag"@,
            tuning_table::whole_i64(tuning.streams_group_acceptable_recovery_lag),
        ),
        positive_time(
            "streams_group_task_offset_interval"@,
            tuning.streams_group_task_offset_interval,
        ),
        None,
    ]
}

#[verifier::opaque]
spec fn streams_group<'a>(tuning: &'a BrokerTuning) -> Seq<Field<'a>> {
    tuning.streams_group_fields()
}

#[verifier::opaque]
spec fn streams_group_found(
    tuning: BrokerTuning,
    snapshot_fetch: Result<(),
    String>,
) -> Seq<Option<Seq<char>>> {
    streams_group_findings(tuning, snapshot_fetch)
}

proof fn lemma_streams_group_findings(tuning: BrokerTuning, snapshot_fetch: Result<(), String>)
    ensures
        broker_tuning::first_error(streams_group(&tuning), snapshot_fetch) == first(
            streams_group_found(tuning, snapshot_fetch),
        ),
{
    let (fields, findings) = (streams_group(&tuning), streams_group_found(tuning, snapshot_fetch));
    assert(fields.len() == 10 && findings.len() == 10) by {
        reveal(streams_group);
        reveal(streams_group_found);
    }
    assert(found(fields[0], snapshot_fetch) == findings[0]) by {
        reveal(streams_group);
        reveal(streams_group_found);
        lemma_count("streams_group_enable", snapshot_fetch);
    }
    assert(found(fields[1], snapshot_fetch) == findings[1]) by {
        reveal(streams_group);
        reveal(streams_group_found);
        lemma_time(
            "streams_group_session_timeout",
            &tuning.streams_group_session_timeout,
            0,
            snapshot_fetch,
        );
    }
    assert(found(fields[2], snapshot_fetch) == findings[2]) by {
        reveal(streams_group);
        reveal(streams_group_found);
        lemma_time(
            "streams_group_heartbeat_interval",
            &tuning.streams_group_heartbeat_interval,
            0,
            snapshot_fetch,
        );
    }
    assert(found(fields[3], snapshot_fetch) == findings[3]) by {
        reveal(streams_group);
        reveal(streams_group_found);
        lemma_count("streams_group_max_size", snapshot_fetch);
    }
    assert(found(fields[4], snapshot_fetch) == findings[4]) by {
        reveal(streams_group);
        reveal(streams_group_found);
        lemma_count("streams_internal_topic_replication_factor", snapshot_fetch);
    }
    assert(found(fields[5], snapshot_fetch) == findings[5]) by {
        reveal(streams_group);
        reveal(streams_group_found);
        lemma_count("streams_group_num_standby_replicas", snapshot_fetch);
    }
    assert(found(fields[6], snapshot_fetch) == findings[6]) by {
        reveal(streams_group);
        reveal(streams_group_found);
        lemma_count("streams_group_num_warmup_replicas", snapshot_fetch);
    }
    assert(found(fields[7], snapshot_fetch) == findings[7]) by {
        reveal(streams_group);
        reveal(streams_group_found);
        lemma_count("streams_group_acceptable_recovery_lag", snapshot_fetch);
    }
    assert(found(fields[8], snapshot_fetch) == findings[8]) by {
        reveal(streams_group);
        reveal(streams_group_found);
        lemma_time(
            "streams_group_task_offset_interval",
            &tuning.streams_group_task_offset_interval,
            0,
            snapshot_fetch,
        );
    }
    assert(found(fields[9], snapshot_fetch) == findings[9]) by {
        reveal(streams_group);
        reveal(streams_group_found);
        lemma_count("streams_group_assignor", snapshot_fetch);
    }
    lemma_errors_are_findings(fields, findings, snapshot_fetch);
}

/// An extent that is set, or else so many milliseconds, in seconds.
#[verifier::opaque]
pub open spec fn secs(setting: Option<Setting<Time>>, default: int) -> Binary64 {
    match setting {
        Some(setting) => setting.value.secs,
        None => Time::of_millis(default).secs,
    }
}

/// A byte count that is set, or else so many bytes.
#[verifier::opaque]
pub open spec fn bytes(setting: Option<Setting<ByteSize>>, default: int) -> Binary64 {
    match setting {
        Some(setting) => setting.value.bytes,
        None => ByteSize::of_bytes(default).bytes,
    }
}

/// What is wrong where `low` is above `high`.
#[verifier::opaque]
pub open spec fn not_above(
    left: Seq<char>,
    low: Binary64,
    right: Seq<char>,
    high: Binary64,
) -> Option<Seq<char>> {
    if high.below(low) {
        Some(
            "spec.brokerTuning."@ + tuning_rules::camel_case(left) + " and "@ + (
            "spec.brokerTuning."@ + tuning_rules::camel_case(right)) + ": "@
                + "minimum or initial value exceeds maximum"@,
        )
    } else {
        None
    }
}

/// What is wrong where `low` is not below `high`.
#[verifier::opaque]
pub open spec fn below(
    left: Seq<char>,
    low: Binary64,
    right: Seq<char>,
    high: Binary64,
) -> Option<Seq<char>> {
    if high.at_most(low) {
        Some(
            "spec.brokerTuning."@ + tuning_rules::camel_case(left) + " and "@ + (
            "spec.brokerTuning."@ + tuning_rules::camel_case(right)) + ": "@
                + "left value must be below right value"@,
        )
    } else {
        None
    }
}

/// What is wrong where `value` is not from `min` to `max`, which two other fields give.
#[verifier::opaque]
pub open spec fn between(
    field: Seq<char>,
    value: Binary64,
    min_field: Seq<char>,
    min: Binary64,
    max_field: Seq<char>,
    max: Binary64,
) -> Option<Seq<char>> {
    if min.at_most(value) && value.at_most(max) {
        None
    } else {
        Some(
            "spec.brokerTuning."@ + tuning_rules::camel_case(field) + " must be within "@ + (
            "spec.brokerTuning."@ + tuning_rules::camel_case(min_field)) + " and "@ + (
            "spec.brokerTuning."@ + tuning_rules::camel_case(max_field)),
        )
    }
}

/// What is wrong where `value` is not from `min` to `max` milliseconds.
#[verifier::opaque]
pub open spec fn within(
    field: Seq<char>,
    value: Binary64,
    min: int,
    max: int,
) -> Option<Seq<char>> {
    if Time::of_millis(min).secs.at_most(value) && value.at_most(Time::of_millis(max).secs) {
        None
    } else {
        Some(
            about(
                field,
                "must be within "@ + text::signed_decimal(min) + "..="@ + text::signed_decimal(max),
            ),
        )
    }
}

/// What is wrong with the limits for the decompression of records.
#[verifier::opaque]
pub open spec fn record_decompression_finding(verdict: Result<(), String>) -> Option<Seq<char>> {
    match verdict {
        Ok(_) => None,
        Err(error) => Some(
            "spec.brokerTuning."@ + tuning_rules::camel_case("record_decompression_max_ratio"@)
                + ", "@ + ("spec.brokerTuning."@ + tuning_rules::camel_case(
                "record_decompression_output_floor"@,
            )) + ", and "@ + ("spec.brokerTuning."@ + tuning_rules::camel_case(
                "record_decompression_output_ceiling"@,
            )) + ": "@ + error@,
        ),
    }
}

/// What is wrong with each relation between limits.
pub open spec fn limits_findings(
    tuning: BrokerTuning,
    record_decompression: Result<(), String>,
) -> Seq<Option<Seq<char>>> {
    seq![
        not_above(
            "self_registration_backoff_min"@,
            secs(tuning.self_registration_backoff_min, 100),
            "self_registration_backoff_max"@,
            secs(tuning.self_registration_backoff_max, 5_000),
        ),
        not_above(
            "rlmm_bootstrap_backoff_initial"@,
            secs(tuning.rlmm_bootstrap_backoff_initial, 250),
            "rlmm_bootstrap_backoff_max"@,
            secs(tuning.rlmm_bootstrap_backoff_max, 10_000),
        ),
        not_above(
            "replication_fetch_min"@,
            bytes(tuning.replication_fetch_min, 1),
            "replication_fetch_max"@,
            bytes(tuning.replication_fetch_max, 1_048_576),
        ),
        not_above(
            "replication_reconnect_initial_delay"@,
            secs(tuning.replication_reconnect_initial_delay, 100),
            "replication_reconnect_delay_cap"@,
            secs(tuning.replication_reconnect_delay_cap, 5_000),
        ),
        below(
            "heartbeat_interval"@,
            secs(tuning.heartbeat_interval, 3_000),
            "heartbeat_timeout"@,
            secs(tuning.heartbeat_timeout, 9_000),
        ),
        below(
            "controller_heartbeat_interval"@,
            secs(tuning.controller_heartbeat_interval, 500),
            "controller_election_timeout"@,
            secs(tuning.controller_election_timeout, 5_000),
        ),
        not_above(
            "delegation_token_default_renew_period"@,
            secs(tuning.delegation_token_default_renew_period, 86_400_000),
            "delegation_token_max_lifetime"@,
            secs(tuning.delegation_token_max_lifetime, 604_800_000),
        ),
        not_above(
            "client_metrics_eviction_tick"@,
            secs(tuning.client_metrics_eviction_tick, 60_000),
            "client_metrics_stale_floor"@,
            secs(tuning.client_metrics_stale_floor, 600_000),
        ),
        not_above(
            "unclean_recovery_aggressive_deadline"@,
            secs(tuning.unclean_recovery_aggressive_deadline, 2_000),
            "unclean_recovery_balanced_deadline"@,
            secs(tuning.unclean_recovery_balanced_deadline, 30_000),
        ),
        not_above(
            "telemetry_decompressed_output_floor"@,
            bytes(tuning.telemetry_decompressed_output_floor, 16_777_216),
            "telemetry_decompressed_output_ceiling"@,
            bytes(tuning.telemetry_decompressed_output_ceiling, 1_073_741_824),
        ),
        record_decompression_finding(record_decompression),
    ]
}

/// What is wrong with each relation between timeouts, and with the timeouts of groups.
pub open spec fn timeouts_findings(tuning: BrokerTuning) -> Seq<Option<Seq<char>>> {
    seq![
        below(
            "transaction_min_timeout"@,
            secs(tuning.transaction_min_timeout, 1_000),
            "transaction_max_timeout"@,
            secs(tuning.transaction_max_timeout, 900_000),
        ),
        not_above(
            "consumer_group_min_session_timeout"@,
            secs(tuning.consumer_group_min_session_timeout, 45_000),
            "consumer_group_max_session_timeout"@,
            secs(tuning.consumer_group_max_session_timeout, 60_000),
        ),
        between(
            "consumer_group_session_timeout"@,
            secs(tuning.consumer_group_session_timeout, 45_000),
            "consumer_group_min_session_timeout"@,
            secs(tuning.consumer_group_min_session_timeout, 45_000),
            "consumer_group_max_session_timeout"@,
            secs(tuning.consumer_group_max_session_timeout, 60_000),
        ),
        not_above(
            "consumer_group_min_heartbeat_interval"@,
            secs(tuning.consumer_group_min_heartbeat_interval, 5_000),
            "consumer_group_max_heartbeat_interval"@,
            secs(tuning.consumer_group_max_heartbeat_interval, 15_000),
        ),
        between(
            "consumer_group_heartbeat_interval"@,
            secs(tuning.consumer_group_heartbeat_interval, 5_000),
            "consumer_group_min_heartbeat_interval"@,
            secs(tuning.consumer_group_min_heartbeat_interval, 5_000),
            "consumer_group_max_heartbeat_interval"@,
            secs(tuning.consumer_group_max_heartbeat_interval, 15_000),
        ),
        within(
            "share_group_session_timeout"@,
            secs(tuning.share_group_session_timeout, 45_000),
            45_000,
            60_000,
        ),
        within(
            "share_group_heartbeat_interval"@,
            secs(tuning.share_group_heartbeat_interval, 5_000),
            5_000,
            15_000,
        ),
        within(
            "streams_group_session_timeout"@,
            secs(tuning.streams_group_session_timeout, 45_000),
            45_000,
            60_000,
        ),
        within(
            "streams_group_heartbeat_interval"@,
            secs(tuning.streams_group_heartbeat_interval, 5_000),
            5_000,
            15_000,
        ),
    ]
}

/// What is wrong with each of the strings.
pub open spec fn string_findings(tuning: BrokerTuning, server_name: Result<(), String>) -> Seq<
    Option<Seq<char>>,
> {
    seq![
        verdict(
            "inter_broker_server_name"@,
            tuning.inter_broker_server_name is Some,
            server_name,
        ),
        if tuning.share_group_isolation_level matches Some(level) && level@ != "read-uncommitted"@
            && level@ != "read-committed"@ {
            Some(
                about(
                    "share_group_isolation_level"@,
                    "expected `read-uncommitted` or `read-committed`"@,
                ),
            )
        } else {
            None
        },
        if tuning.streams_group_assignor matches Some(assignor) && assignor@ != "auto"@ && assignor@
            != "sticky"@ && assignor@ != "highly-available"@ {
            Some(
                about(
                    "streams_group_assignor"@,
                    "expected `auto`, `sticky`, or `highly-available`"@,
                ),
            )
        } else {
            None
        },
    ]
}

/// What is wrong where a relation does not hold.
#[verifier::opaque]
spec fn broken(relation: Relation, record_decompression: Result<(), String>) -> Option<Seq<char>> {
    relation.error(record_decompression)
}

proof fn lemma_broken_are_findings(
    relations: Seq<Relation>,
    findings: Seq<Option<Seq<char>>>,
    record_decompression: Result<(), String>,
)
    requires
        relations.len() == findings.len(),
        forall|i: int|
            0 <= i < relations.len() ==> broken(#[trigger] relations[i], record_decompression)
                == findings[i],
    ensures
        broker_tuning::first_broken(relations, record_decompression) == first(findings),
    decreases relations.len(),
{
    if relations.len() > 0 {
        assert(relations[0].error(record_decompression) == findings[0]) by {
            reveal(broken);
            assert(broken(relations[0], record_decompression) == findings[0]);
        }
        assert forall|i: int| 0 <= i < relations.len() - 1 implies broken(
            #[trigger] relations.drop_first()[i],
            record_decompression,
        ) == findings.drop_first()[i] by {
            assert(relations.drop_first()[i] == relations[i + 1]);
        }
        lemma_broken_are_findings(
            relations.drop_first(),
            findings.drop_first(),
            record_decompression,
        );
    }
}

proof fn lemma_ordered(
    left: &'static str,
    low: Binary64,
    right: &'static str,
    high: Binary64,
    record_decompression: Result<(), String>,
)
    ensures
        broken(Relation::AtMost { left, low, right, high }, record_decompression) == not_above(
            left@,
            low,
            right@,
            high,
        ),
        broken(Relation::Below { left, low, right, high }, record_decompression) == below(
            left@,
            low,
            right@,
            high,
        ),
        broken(Relation::RecordDecompression, record_decompression)
            == record_decompression_finding(record_decompression),
{
    reveal(broken);
    reveal(not_above);
    reveal(below);
    reveal(record_decompression_finding);
}

proof fn lemma_between(
    field: &'static str,
    value: Binary64,
    min_field: &'static str,
    min: Binary64,
    max_field: &'static str,
    max: Binary64,
    min_millis: i64,
    max_millis: i64,
    record_decompression: Result<(), String>,
)
    ensures
        broken(
            Relation::Between { field, value, min_field, min, max_field, max },
            record_decompression,
        ) == between(field@, value, min_field@, min, max_field@, max),
        broken(Relation::Within { field, value, min_millis, max_millis }, record_decompression)
            == within(field@, value, min_millis as int, max_millis as int),
{
    reveal(broken);
    reveal(between);
    reveal(within);
}

proof fn lemma_effective(
    time: Option<Setting<Time>>,
    millis: i64,
    size: Option<Setting<ByteSize>>,
    count: u64,
)
    ensures
        broker_tuning::time_or(time, millis) == secs(time, millis as int),
        broker_tuning::size_or(size, count) == bytes(size, count as int),
{
    reveal(secs);
    reveal(bytes);
}

#[verifier::opaque]
spec fn limits(tuning: BrokerTuning) -> Seq<Relation> {
    tuning.limit_relations()
}

#[verifier::opaque]
spec fn limits_found(
    tuning: BrokerTuning,
    record_decompression: Result<(),
    String>,
) -> Seq<Option<Seq<char>>> {
    limits_findings(tuning, record_decompression)
}

proof fn lemma_limits_findings(tuning: BrokerTuning, record_decompression: Result<(), String>)
    ensures
        broker_tuning::first_broken(limits(tuning), record_decompression) == first(
            limits_found(tuning, record_decompression),
        ),
{
    let relations = limits(tuning);
    let findings = limits_found(tuning, record_decompression);
    assert(relations.len() == 11 && findings.len() == 11) by {
        reveal(limits);
        reveal(limits_found);
    }
    assert(broken(relations[0], record_decompression) == findings[0]) by {
        reveal(limits);
        reveal(limits_found);
        lemma_effective(tuning.self_registration_backoff_min, 100, None, 0);
        lemma_effective(tuning.self_registration_backoff_max, 5_000, None, 0);
        lemma_ordered(
            "self_registration_backoff_min",
            secs(tuning.self_registration_backoff_min, 100),
            "self_registration_backoff_max",
            secs(tuning.self_registration_backoff_max, 5_000),
            record_decompression,
        );
    }
    assert(broken(relations[1], record_decompression) == findings[1]) by {
        reveal(limits);
        reveal(limits_found);
        lemma_effective(tuning.rlmm_bootstrap_backoff_initial, 250, None, 0);
        lemma_effective(tuning.rlmm_bootstrap_backoff_max, 10_000, None, 0);
        lemma_ordered(
            "rlmm_bootstrap_backoff_initial",
            secs(tuning.rlmm_bootstrap_backoff_initial, 250),
            "rlmm_bootstrap_backoff_max",
            secs(tuning.rlmm_bootstrap_backoff_max, 10_000),
            record_decompression,
        );
    }
    assert(broken(relations[2], record_decompression) == findings[2]) by {
        reveal(limits);
        reveal(limits_found);
        lemma_effective(None, 0, tuning.replication_fetch_min, 1);
        lemma_effective(None, 0, tuning.replication_fetch_max, 1_048_576);
        lemma_ordered(
            "replication_fetch_min",
            bytes(tuning.replication_fetch_min, 1),
            "replication_fetch_max",
            bytes(tuning.replication_fetch_max, 1_048_576),
            record_decompression,
        );
    }
    assert(broken(relations[3], record_decompression) == findings[3]) by {
        reveal(limits);
        reveal(limits_found);
        lemma_effective(tuning.replication_reconnect_initial_delay, 100, None, 0);
        lemma_effective(tuning.replication_reconnect_delay_cap, 5_000, None, 0);
        lemma_ordered(
            "replication_reconnect_initial_delay",
            secs(tuning.replication_reconnect_initial_delay, 100),
            "replication_reconnect_delay_cap",
            secs(tuning.replication_reconnect_delay_cap, 5_000),
            record_decompression,
        );
    }
    assert(broken(relations[4], record_decompression) == findings[4]) by {
        reveal(limits);
        reveal(limits_found);
        lemma_effective(tuning.heartbeat_interval, 3_000, None, 0);
        lemma_effective(tuning.heartbeat_timeout, 9_000, None, 0);
        lemma_ordered(
            "heartbeat_interval",
            secs(tuning.heartbeat_interval, 3_000),
            "heartbeat_timeout",
            secs(tuning.heartbeat_timeout, 9_000),
            record_decompression,
        );
    }
    assert(broken(relations[5], record_decompression) == findings[5]) by {
        reveal(limits);
        reveal(limits_found);
        lemma_effective(tuning.controller_heartbeat_interval, 500, None, 0);
        lemma_effective(tuning.controller_election_timeout, 5_000, None, 0);
        lemma_ordered(
            "controller_heartbeat_interval",
            secs(tuning.controller_heartbeat_interval, 500),
            "controller_election_timeout",
            secs(tuning.controller_election_timeout, 5_000),
            record_decompression,
        );
    }
    assert(broken(relations[6], record_decompression) == findings[6]) by {
        reveal(limits);
        reveal(limits_found);
        lemma_effective(tuning.delegation_token_default_renew_period, 86_400_000, None, 0);
        lemma_effective(tuning.delegation_token_max_lifetime, 604_800_000, None, 0);
        lemma_ordered(
            "delegation_token_default_renew_period",
            secs(tuning.delegation_token_default_renew_period, 86_400_000),
            "delegation_token_max_lifetime",
            secs(tuning.delegation_token_max_lifetime, 604_800_000),
            record_decompression,
        );
    }
    assert(broken(relations[7], record_decompression) == findings[7]) by {
        reveal(limits);
        reveal(limits_found);
        lemma_effective(tuning.client_metrics_eviction_tick, 60_000, None, 0);
        lemma_effective(tuning.client_metrics_stale_floor, 600_000, None, 0);
        lemma_ordered(
            "client_metrics_eviction_tick",
            secs(tuning.client_metrics_eviction_tick, 60_000),
            "client_metrics_stale_floor",
            secs(tuning.client_metrics_stale_floor, 600_000),
            record_decompression,
        );
    }
    assert(broken(relations[8], record_decompression) == findings[8]) by {
        reveal(limits);
        reveal(limits_found);
        lemma_effective(tuning.unclean_recovery_aggressive_deadline, 2_000, None, 0);
        lemma_effective(tuning.unclean_recovery_balanced_deadline, 30_000, None, 0);
        lemma_ordered(
            "unclean_recovery_aggressive_deadline",
            secs(tuning.unclean_recovery_aggressive_deadline, 2_000),
            "unclean_recovery_balanced_deadline",
            secs(tuning.unclean_recovery_balanced_deadline, 30_000),
            record_decompression,
        );
    }
    assert(broken(relations[9], record_decompression) == findings[9]) by {
        reveal(limits);
        reveal(limits_found);
        lemma_effective(None, 0, tuning.telemetry_decompressed_output_floor, 16_777_216);
        lemma_effective(None, 0, tuning.telemetry_decompressed_output_ceiling, 1_073_741_824);
        lemma_ordered(
            "telemetry_decompressed_output_floor",
            bytes(tuning.telemetry_decompressed_output_floor, 16_777_216),
            "telemetry_decompressed_output_ceiling",
            bytes(tuning.telemetry_decompressed_output_ceiling, 1_073_741_824),
            record_decompression,
        );
    }
    assert(broken(relations[10], record_decompression) == findings[10]) by {
        reveal(limits);
        reveal(limits_found);
        lemma_ordered("", Binary64::integer(0), "", Binary64::integer(0), record_decompression);
    }
    lemma_broken_are_findings(relations, findings, record_decompression);
}

#[verifier::opaque]
spec fn timeouts(tuning: BrokerTuning) -> Seq<Relation> {
    tuning.group_relations()
}

#[verifier::opaque]
spec fn timeouts_found(tuning: BrokerTuning) -> Seq<Option<Seq<char>>> {
    timeouts_findings(tuning)
}

proof fn lemma_timeouts_findings(tuning: BrokerTuning, record_decompression: Result<(), String>)
    ensures
        broker_tuning::first_broken(timeouts(tuning), record_decompression) == first(
            timeouts_found(tuning),
        ),
{
    let relations = timeouts(tuning);
    let findings = timeouts_found(tuning);
    assert(relations.len() == 9 && findings.len() == 9) by {
        reveal(timeouts);
        reveal(timeouts_found);
    }
    assert(broken(relations[0], record_decompression) == findings[0]) by {
        reveal(timeouts);
        reveal(timeouts_found);
        lemma_effective(tuning.transaction_min_timeout, 1_000, None, 0);
        lemma_effective(tuning.transaction_max_timeout, 900_000, None, 0);
        lemma_ordered(
            "transaction_min_timeout",
            secs(tuning.transaction_min_timeout, 1_000),
            "transaction_max_timeout",
            secs(tuning.transaction_max_timeout, 900_000),
            record_decompression,
        );
    }
    assert(broken(relations[1], record_decompression) == findings[1]) by {
        reveal(timeouts);
        reveal(timeouts_found);
        lemma_effective(tuning.consumer_group_min_session_timeout, 45_000, None, 0);
        lemma_effective(tuning.consumer_group_max_session_timeout, 60_000, None, 0);
        lemma_ordered(
            "consumer_group_min_session_timeout",
            secs(tuning.consumer_group_min_session_timeout, 45_000),
            "consumer_group_max_session_timeout",
            secs(tuning.consumer_group_max_session_timeout, 60_000),
            record_decompression,
        );
    }
    assert(broken(relations[2], record_decompression) == findings[2]) by {
        reveal(timeouts);
        reveal(timeouts_found);
        lemma_effective(tuning.consumer_group_session_timeout, 45_000, None, 0);
        lemma_effective(tuning.consumer_group_min_session_timeout, 45_000, None, 0);
        lemma_effective(tuning.consumer_group_max_session_timeout, 60_000, None, 0);
        lemma_between(
            "consumer_group_session_timeout",
            secs(tuning.consumer_group_session_timeout, 45_000),
            "consumer_group_min_session_timeout",
            secs(tuning.consumer_group_min_session_timeout, 45_000),
            "consumer_group_max_session_timeout",
            secs(tuning.consumer_group_max_session_timeout, 60_000),
            0,
            0,
            record_decompression,
        );
    }
    assert(broken(relations[3], record_decompression) == findings[3]) by {
        reveal(timeouts);
        reveal(timeouts_found);
        lemma_effective(tuning.consumer_group_min_heartbeat_interval, 5_000, None, 0);
        lemma_effective(tuning.consumer_group_max_heartbeat_interval, 15_000, None, 0);
        lemma_ordered(
            "consumer_group_min_heartbeat_interval",
            secs(tuning.consumer_group_min_heartbeat_interval, 5_000),
            "consumer_group_max_heartbeat_interval",
            secs(tuning.consumer_group_max_heartbeat_interval, 15_000),
            record_decompression,
        );
    }
    assert(broken(relations[4], record_decompression) == findings[4]) by {
        reveal(timeouts);
        reveal(timeouts_found);
        lemma_effective(tuning.consumer_group_heartbeat_interval, 5_000, None, 0);
        lemma_effective(tuning.consumer_group_min_heartbeat_interval, 5_000, None, 0);
        lemma_effective(tuning.consumer_group_max_heartbeat_interval, 15_000, None, 0);
        lemma_between(
            "consumer_group_heartbeat_interval",
            secs(tuning.consumer_group_heartbeat_interval, 5_000),
            "consumer_group_min_heartbeat_interval",
            secs(tuning.consumer_group_min_heartbeat_interval, 5_000),
            "consumer_group_max_heartbeat_interval",
            secs(tuning.consumer_group_max_heartbeat_interval, 15_000),
            0,
            0,
            record_decompression,
        );
    }
    assert(broken(relations[5], record_decompression) == findings[5]) by {
        reveal(timeouts);
        reveal(timeouts_found);
        lemma_effective(tuning.share_group_session_timeout, 45_000, None, 0);
        lemma_between(
            "share_group_session_timeout",
            secs(tuning.share_group_session_timeout, 45_000),
            "",
            Binary64::integer(0),
            "",
            Binary64::integer(0),
            45_000,
            60_000,
            record_decompression,
        );
    }
    assert(broken(relations[6], record_decompression) == findings[6]) by {
        reveal(timeouts);
        reveal(timeouts_found);
        lemma_effective(tuning.share_group_heartbeat_interval, 5_000, None, 0);
        lemma_between(
            "share_group_heartbeat_interval",
            secs(tuning.share_group_heartbeat_interval, 5_000),
            "",
            Binary64::integer(0),
            "",
            Binary64::integer(0),
            5_000,
            15_000,
            record_decompression,
        );
    }
    assert(broken(relations[7], record_decompression) == findings[7]) by {
        reveal(timeouts);
        reveal(timeouts_found);
        lemma_effective(tuning.streams_group_session_timeout, 45_000, None, 0);
        lemma_between(
            "streams_group_session_timeout",
            secs(tuning.streams_group_session_timeout, 45_000),
            "",
            Binary64::integer(0),
            "",
            Binary64::integer(0),
            45_000,
            60_000,
            record_decompression,
        );
    }
    assert(broken(relations[8], record_decompression) == findings[8]) by {
        reveal(timeouts);
        reveal(timeouts_found);
        lemma_effective(tuning.streams_group_heartbeat_interval, 5_000, None, 0);
        lemma_between(
            "streams_group_heartbeat_interval",
            secs(tuning.streams_group_heartbeat_interval, 5_000),
            "",
            Binary64::integer(0),
            "",
            Binary64::integer(0),
            5_000,
            15_000,
            record_decompression,
        );
    }
    lemma_broken_are_findings(relations, findings, record_decompression);
}

#[verifier::opaque]
spec fn relations_found(
    tuning: BrokerTuning,
    record_decompression: Result<(), String>,
) -> Seq<Option<Seq<char>>> {
    limits_found(tuning, record_decompression) + timeouts_found(tuning)
}

#[verifier::opaque]
spec fn relations_error(tuning: BrokerTuning, record_decompression: Result<(), String>) -> Option<
    Seq<char>,
> {
    broker_tuning::first_broken(tuning.all_relations(), record_decompression)
}

proof fn lemma_relation_list(tuning: BrokerTuning, record_decompression: Result<(), String>)
    ensures
        relations_error(tuning, record_decompression) == broker_tuning::first_broken(
            limits(tuning) + timeouts(tuning),
            record_decompression,
        ),
{
    reveal(relations_error);
    reveal(limits);
    reveal(timeouts);
}

proof fn lemma_relation_findings(tuning: BrokerTuning, record_decompression: Result<(), String>)
    ensures
        relations_error(tuning, record_decompression) == first(
            relations_found(tuning, record_decompression),
        ),
{
    reveal(relations_found);
    lemma_relation_list(tuning, record_decompression);
    lemma_limits_findings(tuning, record_decompression);
    lemma_timeouts_findings(tuning, record_decompression);
    tuning_laws::lemma_broken_in_order(limits(tuning), timeouts(tuning), record_decompression);
    lemma_first_of_both(limits_found(tuning, record_decompression), timeouts_found(tuning));
}

#[verifier::opaque]
spec fn strings_found(tuning: BrokerTuning, server_name: Result<(), String>) -> Seq<
    Option<Seq<char>>,
> {
    string_findings(tuning, server_name)
}

proof fn lemma_string_findings(tuning: BrokerTuning, server_name: Result<(), String>)
    ensures
        tuning.strings_error(server_name) == first(strings_found(tuning, server_name)),
{
    reveal(strings_found);
    reveal(verdict);
    let findings = string_findings(tuning, server_name);
    reveal_with_fuel(first, 4);
    assert(findings.drop_first()[0] == findings[1]);
    assert(findings.drop_first().drop_first()[0] == findings[2]);
    assert(findings.drop_first().drop_first().drop_first().len() == 0);
}

#[verifier::opaque]
spec fn fields_found(tuning: BrokerTuning, snapshot_fetch: Result<(), String>) -> Seq<
    Option<Seq<char>>,
> {
    startup_found(tuning, snapshot_fetch) + client_metrics_found(tuning, snapshot_fetch)
        + replication_found(tuning, snapshot_fetch) + group_found(tuning, snapshot_fetch)
        + capacity_found(tuning, snapshot_fetch) + socket_found(tuning, snapshot_fetch)
        + producer_found(tuning, snapshot_fetch) + controller_found(tuning, snapshot_fetch)
        + connection_found(tuning, snapshot_fetch) + share_group_found(tuning, snapshot_fetch)
        + streams_group_found(tuning, snapshot_fetch)
}

#[verifier::opaque]
spec fn fields_error(tuning: BrokerTuning, snapshot_fetch: Result<(), String>) -> Option<
    Seq<char>,
> {
    broker_tuning::first_error(tuning.all_fields(), snapshot_fetch)
}

proof fn lemma_field_list(tuning: BrokerTuning, snapshot_fetch: Result<(), String>)
    ensures
        fields_error(tuning, snapshot_fetch) == broker_tuning::first_error(
            startup(&tuning) + client_metrics(&tuning) + replication(&tuning) + group(&tuning)
                + capacity(&tuning) + socket(&tuning) + producer(&tuning) + controller(&tuning)
                + connection(&tuning) + share_group(&tuning) + streams_group(&tuning),
            snapshot_fetch,
        ),
{
    reveal(fields_error);
    reveal(startup);
    reveal(client_metrics);
    reveal(replication);
    reveal(group);
    reveal(capacity);
    reveal(socket);
    reveal(producer);
    reveal(controller);
    reveal(connection);
    reveal(share_group);
    reveal(streams_group);
}

proof fn lemma_field_findings(tuning: BrokerTuning, snapshot_fetch: Result<(), String>)
    ensures
        fields_error(tuning, snapshot_fetch) == first(fields_found(tuning, snapshot_fetch)),
{
    reveal(fields_found);
    lemma_field_list(tuning, snapshot_fetch);
    lemma_startup_findings(tuning, snapshot_fetch);
    lemma_client_metrics_findings(tuning, snapshot_fetch);
    lemma_replication_findings(tuning, snapshot_fetch);
    lemma_group_findings(tuning, snapshot_fetch);
    lemma_capacity_findings(tuning, snapshot_fetch);
    lemma_socket_findings(tuning, snapshot_fetch);
    lemma_producer_findings(tuning, snapshot_fetch);
    lemma_controller_findings(tuning, snapshot_fetch);
    lemma_connection_findings(tuning, snapshot_fetch);
    lemma_share_group_findings(tuning, snapshot_fetch);
    lemma_streams_group_findings(tuning, snapshot_fetch);
    lemma_errors_of_both(startup(&tuning), client_metrics(&tuning), snapshot_fetch);
    lemma_first_of_both(
        startup_found(tuning, snapshot_fetch),
        client_metrics_found(tuning, snapshot_fetch),
    );
    lemma_errors_of_both(
        startup(&tuning) + client_metrics(&tuning),
        replication(&tuning),
        snapshot_fetch,
    );
    lemma_first_of_both(
        startup_found(tuning, snapshot_fetch) + client_metrics_found(tuning, snapshot_fetch),
        replication_found(tuning, snapshot_fetch),
    );
    lemma_errors_of_both(
        startup(&tuning) + client_metrics(&tuning) + replication(&tuning),
        group(&tuning),
        snapshot_fetch,
    );
    lemma_first_of_both(
        startup_found(tuning, snapshot_fetch) + client_metrics_found(tuning, snapshot_fetch)
            + replication_found(tuning, snapshot_fetch),
        group_found(tuning, snapshot_fetch),
    );
    lemma_errors_of_both(
        startup(&tuning) + client_metrics(&tuning) + replication(&tuning) + group(&tuning),
        capacity(&tuning),
        snapshot_fetch,
    );
    lemma_first_of_both(
        startup_found(tuning, snapshot_fetch) + client_metrics_found(tuning, snapshot_fetch)
            + replication_found(tuning, snapshot_fetch) + group_found(tuning, snapshot_fetch),
        capacity_found(tuning, snapshot_fetch),
    );
    lemma_errors_of_both(
        startup(&tuning) + client_metrics(&tuning) + replication(&tuning) + group(&tuning)
            + capacity(&tuning),
        socket(&tuning),
        snapshot_fetch,
    );
    lemma_first_of_both(
        startup_found(tuning, snapshot_fetch) + client_metrics_found(tuning, snapshot_fetch)
            + replication_found(tuning, snapshot_fetch) + group_found(tuning, snapshot_fetch)
            + capacity_found(tuning, snapshot_fetch),
        socket_found(tuning, snapshot_fetch),
    );
    lemma_errors_of_both(
        startup(&tuning) + client_metrics(&tuning) + replication(&tuning) + group(&tuning)
            + capacity(&tuning) + socket(&tuning),
        producer(&tuning),
        snapshot_fetch,
    );
    lemma_first_of_both(
        startup_found(tuning, snapshot_fetch) + client_metrics_found(tuning, snapshot_fetch)
            + replication_found(tuning, snapshot_fetch) + group_found(tuning, snapshot_fetch)
            + capacity_found(tuning, snapshot_fetch) + socket_found(tuning, snapshot_fetch),
        producer_found(tuning, snapshot_fetch),
    );
    lemma_errors_of_both(
        startup(&tuning) + client_metrics(&tuning) + replication(&tuning) + group(&tuning)
            + capacity(&tuning) + socket(&tuning) + producer(&tuning),
        controller(&tuning),
        snapshot_fetch,
    );
    lemma_first_of_both(
        startup_found(tuning, snapshot_fetch) + client_metrics_found(tuning, snapshot_fetch)
            + replication_found(tuning, snapshot_fetch) + group_found(tuning, snapshot_fetch)
            + capacity_found(tuning, snapshot_fetch) + socket_found(tuning, snapshot_fetch)
            + producer_found(tuning, snapshot_fetch),
        controller_found(tuning, snapshot_fetch),
    );
    lemma_errors_of_both(
        startup(&tuning) + client_metrics(&tuning) + replication(&tuning) + group(&tuning)
            + capacity(&tuning) + socket(&tuning) + producer(&tuning) + controller(&tuning),
        connection(&tuning),
        snapshot_fetch,
    );
    lemma_first_of_both(
        startup_found(tuning, snapshot_fetch) + client_metrics_found(tuning, snapshot_fetch)
            + replication_found(tuning, snapshot_fetch) + group_found(tuning, snapshot_fetch)
            + capacity_found(tuning, snapshot_fetch) + socket_found(tuning, snapshot_fetch)
            + producer_found(tuning, snapshot_fetch) + controller_found(tuning, snapshot_fetch),
        connection_found(tuning, snapshot_fetch),
    );
    lemma_errors_of_both(
        startup(&tuning) + client_metrics(&tuning) + replication(&tuning) + group(&tuning)
            + capacity(&tuning) + socket(&tuning) + producer(&tuning) + controller(&tuning)
            + connection(&tuning),
        share_group(&tuning),
        snapshot_fetch,
    );
    lemma_first_of_both(
        startup_found(tuning, snapshot_fetch) + client_metrics_found(tuning, snapshot_fetch)
            + replication_found(tuning, snapshot_fetch) + group_found(tuning, snapshot_fetch)
            + capacity_found(tuning, snapshot_fetch) + socket_found(tuning, snapshot_fetch)
            + producer_found(tuning, snapshot_fetch) + controller_found(tuning, snapshot_fetch)
            + connection_found(tuning, snapshot_fetch),
        share_group_found(tuning, snapshot_fetch),
    );
    lemma_errors_of_both(
        startup(&tuning) + client_metrics(&tuning) + replication(&tuning) + group(&tuning)
            + capacity(&tuning) + socket(&tuning) + producer(&tuning) + controller(&tuning)
            + connection(&tuning) + share_group(&tuning),
        streams_group(&tuning),
        snapshot_fetch,
    );
    lemma_first_of_both(
        startup_found(tuning, snapshot_fetch) + client_metrics_found(tuning, snapshot_fetch)
            + replication_found(tuning, snapshot_fetch) + group_found(tuning, snapshot_fetch)
            + capacity_found(tuning, snapshot_fetch) + socket_found(tuning, snapshot_fetch)
            + producer_found(tuning, snapshot_fetch) + controller_found(tuning, snapshot_fetch)
            + connection_found(tuning, snapshot_fetch) + share_group_found(tuning, snapshot_fetch),
        streams_group_found(tuning, snapshot_fetch),
    );
}

/// What is wrong with each field, with each string, and with each relation.
pub open spec fn findings(
    tuning: BrokerTuning,
    snapshot_fetch: Result<(), String>,
    server_name: Result<(), String>,
    record_decompression: Result<(), String>,
) -> Seq<Option<Seq<char>>> {
    startup_findings(tuning, snapshot_fetch)
        + client_metrics_findings(tuning, snapshot_fetch)
        + replication_findings(tuning, snapshot_fetch)
        + group_findings(tuning, snapshot_fetch)
        + capacity_findings(tuning, snapshot_fetch)
        + socket_findings(tuning, snapshot_fetch)
        + producer_findings(tuning, snapshot_fetch)
        + controller_findings(tuning, snapshot_fetch)
        + connection_findings(tuning, snapshot_fetch)
        + share_group_findings(tuning, snapshot_fetch)
        + streams_group_findings(tuning, snapshot_fetch)
        + string_findings(tuning, server_name)
        + limits_findings(tuning, record_decompression)
        + timeouts_findings(tuning)
}

proof fn lemma_findings(
    tuning: BrokerTuning,
    snapshot_fetch: Result<(), String>,
    server_name: Result<(), String>,
    record_decompression: Result<(), String>,
)
    ensures
        tuning.error(snapshot_fetch, server_name, record_decompression) == first(
            fields_found(tuning, snapshot_fetch) + strings_found(tuning, server_name)
                + relations_found(tuning, record_decompression),
        ),
{
    let fields = fields_found(tuning, snapshot_fetch);
    let strings = strings_found(tuning, server_name);
    let relations = relations_found(tuning, record_decompression);
    lemma_field_findings(tuning, snapshot_fetch);
    lemma_string_findings(tuning, server_name);
    lemma_relation_findings(tuning, record_decompression);
    lemma_first_of_both(fields + strings, relations);
    lemma_first_of_both(fields, strings);
    reveal(fields_error);
    reveal(relations_error);
}

/// A validation reports the first thing that is wrong: the fields come first, in their
/// order, then the strings, then the relations.
pub proof fn lemma_report(
    tuning: BrokerTuning,
    snapshot_fetch: Result<(), String>,
    server_name: Result<(), String>,
    record_decompression: Result<(), String>,
    r: Result<(), String>,
)
    requires
        call_ensures(
            BrokerTuning::validate_given,
            (&tuning, &snapshot_fetch, &server_name, &record_decompression),
            r,
        ),
    ensures
        r is Ok <==> first(findings(tuning, snapshot_fetch, server_name, record_decompression))
            is None,
        r matches Err(message) ==> first(
            findings(tuning, snapshot_fetch, server_name, record_decompression),
        ) == Some(message@),
{
    lemma_findings(tuning, snapshot_fetch, server_name, record_decompression);
    lemma_all_findings(tuning, snapshot_fetch, server_name, record_decompression);
}

proof fn lemma_all_findings(
    tuning: BrokerTuning,
    snapshot_fetch: Result<(), String>,
    server_name: Result<(), String>,
    record_decompression: Result<(), String>,
)
    ensures
        findings(tuning, snapshot_fetch, server_name, record_decompression) == fields_found(
            tuning,
            snapshot_fetch,
        ) + strings_found(tuning, server_name) + relations_found(tuning, record_decompression),
{
    reveal(fields_found);
    reveal(strings_found);
    reveal(relations_found);
    reveal(limits_found);
    reveal(timeouts_found);
    reveal(startup_found);
    reveal(client_metrics_found);
    reveal(replication_found);
    reveal(group_found);
    reveal(capacity_found);
    reveal(socket_found);
    reveal(producer_found);
    reveal(controller_found);
    reveal(connection_found);
    reveal(share_group_found);
    reveal(streams_group_found);
    let fields = startup_findings(tuning, snapshot_fetch)
        + client_metrics_findings(tuning, snapshot_fetch)
        + replication_findings(tuning, snapshot_fetch) + group_findings(tuning, snapshot_fetch)
        + capacity_findings(tuning, snapshot_fetch) + socket_findings(tuning, snapshot_fetch)
        + producer_findings(tuning, snapshot_fetch) + controller_findings(tuning, snapshot_fetch)
        + connection_findings(tuning, snapshot_fetch) + share_group_findings(tuning, snapshot_fetch)
        + streams_group_findings(tuning, snapshot_fetch);
    let strings = string_findings(tuning, server_name);
    let limits = limits_findings(tuning, record_decompression);
    let timeouts = timeouts_findings(tuning);
    lemma_regroup(fields + strings, limits, timeouts);
}

proof fn lemma_regroup(
    a: Seq<Option<Seq<char>>>,
    b: Seq<Option<Seq<char>>>,
    c: Seq<Option<Seq<char>>>,
)
    ensures
        a + b + c == a + (b + c),
{
    assert(a + b + c =~= a + (b + c));
}

/// Whether an extent is absent, or finite and zero or more.
#[verifier::opaque]
pub open spec fn is_nonnegative(setting: Option<Setting<Time>>) -> bool {
    setting matches Some(setting) ==> setting.value.secs.finite() && setting.value.secs.value()
        >= 0
}

/// Whether an extent is absent, or finite and more than zero.
#[verifier::opaque]
pub open spec fn is_positive(setting: Option<Setting<Time>>) -> bool {
    setting matches Some(setting) ==> setting.value.secs.finite() && setting.value.secs.value() > 0
}

/// Whether an extent is absent, or more than zero and the extent that its own count of
/// milliseconds gives back.
#[verifier::opaque]
pub open spec fn is_whole(setting: Option<Setting<Time>>) -> bool {
    setting matches Some(setting) ==> setting.value.secs.finite() && setting.value.secs.value() > 0
        && Time::of_millis(setting.value.millis()).secs.equal(setting.value.secs)
}

/// Whether an extent is absent, or a whole number of milliseconds from one to `max`.
#[verifier::opaque]
pub open spec fn is_bounded(setting: Option<Setting<Time>>, max: int) -> bool {
    setting matches Some(setting) ==> exists|n: int|
        1 <= n <= max && #[trigger] Time::of_millis(n).secs.equal(setting.value.secs)
}

/// Whether a byte count is absent, or the count that its own number of bytes gives back,
/// with at least one byte and at most `max`.
#[verifier::opaque]
pub open spec fn is_counted(setting: Option<Setting<ByteSize>>, max: int) -> bool {
    setting matches Some(setting) ==> {
        let bytes = setting.value.bytes;
        let n = bytes.rounded(0, 0xffff_ffff_ffff_ffff);
        bytes.finite() && bytes.value() > 0 && ByteSize::of_bytes(n).bytes.equal(bytes) && n <= max
    }
}

/// Whether a fraction is absent, or finite and more than zero.
#[verifier::opaque]
pub open spec fn is_positive_ratio(setting: Option<Setting<Ratio>>) -> bool {
    setting matches Some(setting) ==> setting.value.fraction.finite()
        && setting.value.fraction.value() > 0
}

/// Whether a fraction is absent, or from nothing to the whole.
#[verifier::opaque]
pub open spec fn is_part(setting: Option<Setting<Ratio>>) -> bool {
    setting matches Some(setting) ==> setting.value.fraction.finite() && 0
        <= setting.value.fraction.value() <= pow2(SCALE as nat)
}

/// A byte count of up to `2^53` bytes is valid exactly where it is a whole number from
/// one to its bound.
pub proof fn lemma_counted_bytes(setting: Setting<ByteSize>, max: u64)
    requires
        max <= 0x20_0000_0000_0000,
    ensures
        is_counted(Some(setting), max as int) <==> exists|n: int|
            1 <= n <= max && #[trigger] ByteSize::of_bytes(n).bytes.equal(setting.value.bytes),
{
    reveal(is_counted);
    tuning_rules::lemma_bounded_size(Seq::empty(), setting.value, max);
}

proof fn lemma_time_is_valid(name: Seq<char>, setting: Option<Setting<Time>>, max: i32)
    ensures
        nonnegative_time(name, setting) is None <==> is_nonnegative(setting),
        positive_time(name, setting) is None <==> is_positive(setting),
        whole_time(name, setting) is None <==> is_whole(setting),
        bounded_time(name, setting, max as int) is None <==> is_bounded(setting, max as int),
{
    reveal(nonnegative_time);
    reveal(positive_time);
    reveal(whole_time);
    reveal(bounded_time);
    reveal(is_nonnegative);
    reveal(is_positive);
    reveal(is_whole);
    reveal(is_bounded);
    if let Some(setting) = setting {
        tuning_rules::lemma_bounded_time(name, setting.value, max);
    }
}

proof fn lemma_size_is_valid(name: Seq<char>, setting: Option<Setting<ByteSize>>, max: int)
    ensures
        size(name, setting, max) is None <==> is_counted(setting, max),
{
    reveal(size);
    reveal(is_counted);
}

proof fn lemma_ratio_is_valid(name: Seq<char>, setting: Option<Setting<Ratio>>)
    ensures
        positive_ratio(name, setting) is None <==> is_positive_ratio(setting),
        unit_ratio(name, setting) is None <==> is_part(setting),
{
    reveal(positive_ratio);
    reveal(unit_ratio);
    reveal(is_positive_ratio);
    reveal(is_part);
}

/// Whether each of the fields for startup, auditing and background scans has a valid value.
pub open spec fn startup_valid(tuning: BrokerTuning, snapshot_fetch: Result<(), String>) -> bool {
    &&& is_positive(tuning.startup_leader_wait_timeout)
    &&& is_positive(tuning.self_registration_backoff_min)
    &&& is_positive(tuning.self_registration_backoff_max)
    &&& is_positive(tuning.observer_poll_interval)
    &&& is_positive(tuning.audit_spool_replay_interval)
    &&& is_positive(tuning.audit_stats_poll_interval)
    &&& is_positive(tuning.audit_partition_wait_timeout)
    &&& is_positive(tuning.liveness_tick_interval)
    &&& is_positive(tuning.gauge_poll_interval)
    &&& is_positive(tuning.cleaner_interval)
    &&& is_positive(tuning.isr_scan_interval)
    &&& is_positive(tuning.future_log_move_retry_backoff)
}

proof fn lemma_startup_valid(tuning: BrokerTuning, snapshot_fetch: Result<(), String>)
    ensures
        first(startup_found(tuning, snapshot_fetch)) is None
            <==> startup_valid(tuning, snapshot_fetch),
{
    let findings = startup_found(tuning, snapshot_fetch);
    lemma_first_of_none(findings);
    assert(findings.len() == 12) by {
        reveal(startup_found);
    }
    assert(findings[0] is None <==> is_positive(tuning.startup_leader_wait_timeout)) by {
        reveal(startup_found);
        lemma_time_is_valid("startup_leader_wait_timeout"@, tuning.startup_leader_wait_timeout, 0);
    }
    assert(findings[1] is None <==> is_positive(tuning.self_registration_backoff_min)) by {
        reveal(startup_found);
        lemma_time_is_valid(
            "self_registration_backoff_min"@,
            tuning.self_registration_backoff_min,
            0,
        );
    }
    assert(findings[2] is None <==> is_positive(tuning.self_registration_backoff_max)) by {
        reveal(startup_found);
        lemma_time_is_valid(
            "self_registration_backoff_max"@,
            tuning.self_registration_backoff_max,
            0,
        );
    }
    assert(findings[3] is None <==> is_positive(tuning.observer_poll_interval)) by {
        reveal(startup_found);
        lemma_time_is_valid("observer_poll_interval"@, tuning.observer_poll_interval, 0);
    }
    assert(findings[4] is None <==> is_positive(tuning.audit_spool_replay_interval)) by {
        reveal(startup_found);
        lemma_time_is_valid("audit_spool_replay_interval"@, tuning.audit_spool_replay_interval, 0);
    }
    assert(findings[5] is None <==> is_positive(tuning.audit_stats_poll_interval)) by {
        reveal(startup_found);
        lemma_time_is_valid("audit_stats_poll_interval"@, tuning.audit_stats_poll_interval, 0);
    }
    assert(findings[6] is None <==> is_positive(tuning.audit_partition_wait_timeout)) by {
        reveal(startup_found);
        lemma_time_is_valid(
            "audit_partition_wait_timeout"@,
            tuning.audit_partition_wait_timeout,
            0,
        );
    }
    assert(findings[7] is None <==> is_positive(tuning.liveness_tick_interval)) by {
        reveal(startup_found);
        lemma_time_is_valid("liveness_tick_interval"@, tuning.liveness_tick_interval, 0);
    }
    assert(findings[8] is None <==> is_positive(tuning.gauge_poll_interval)) by {
        reveal(startup_found);
        lemma_time_is_valid("gauge_poll_interval"@, tuning.gauge_poll_interval, 0);
    }
    assert(findings[9] is None <==> is_positive(tuning.cleaner_interval)) by {
        reveal(startup_found);
        lemma_time_is_valid("cleaner_interval"@, tuning.cleaner_interval, 0);
    }
    assert(findings[10] is None <==> is_positive(tuning.isr_scan_interval)) by {
        reveal(startup_found);
        lemma_time_is_valid("isr_scan_interval"@, tuning.isr_scan_interval, 0);
    }
    assert(findings[11] is None <==> is_positive(tuning.future_log_move_retry_backoff)) by {
        reveal(startup_found);
        lemma_time_is_valid(
            "future_log_move_retry_backoff"@,
            tuning.future_log_move_retry_backoff,
            0,
        );
    }
    assert forall|i: int| startup_valid(tuning, snapshot_fetch) && 0 <= i
        < findings.len() implies #[trigger] findings[i] is None by {
        assert(
            i == 0 || i == 1 || i == 2 || i == 3 || i == 4 || i == 5 || i == 6 || i == 7 || i == 8
                || i == 9 || i == 10 || i == 11
        );
    }
}

/// Whether each of the fields for client metrics, remote-log metadata and outbound
/// requests has a valid value.
pub open spec fn client_metrics_valid(
    tuning: BrokerTuning,
    snapshot_fetch: Result<(),
    String>,
) -> bool {
    &&& is_positive(tuning.client_metrics_eviction_tick)
    &&& is_positive(tuning.client_metrics_stale_floor)
    &&& is_bounded(tuning.client_metrics_default_interval, 2_147_483_647)
    &&& is_counted(tuning.client_metrics_telemetry_max, 2_147_483_647)
    &&& is_positive(tuning.client_metrics_prom_snapshot_ttl)
    &&& is_positive(tuning.rlmm_reconcile_tick)
    &&& is_positive(tuning.rlmm_bootstrap_backoff_initial)
    &&& is_positive(tuning.rlmm_bootstrap_backoff_max)
    &&& is_positive(tuning.connection_creation_throttle_max)
    &&& is_positive(tuning.opa_http_timeout)
    &&& is_positive(tuning.oauth_jwks_http_timeout)
    &&& is_positive(tuning.auto_join_retry_backoff)
    &&& is_bounded(tuning.auto_join_voter_request_timeout, 2_147_483_647)
}

proof fn lemma_client_metrics_valid(tuning: BrokerTuning, snapshot_fetch: Result<(), String>)
    ensures
        first(client_metrics_found(tuning, snapshot_fetch)) is None
            <==> client_metrics_valid(tuning, snapshot_fetch),
{
    let findings = client_metrics_found(tuning, snapshot_fetch);
    lemma_first_of_none(findings);
    assert(findings.len() == 13) by {
        reveal(client_metrics_found);
    }
    assert(findings[0] is None <==> is_positive(tuning.client_metrics_eviction_tick)) by {
        reveal(client_metrics_found);
        lemma_time_is_valid(
            "client_metrics_eviction_tick"@,
            tuning.client_metrics_eviction_tick,
            0,
        );
    }
    assert(findings[1] is None <==> is_positive(tuning.client_metrics_stale_floor)) by {
        reveal(client_metrics_found);
        lemma_time_is_valid("client_metrics_stale_floor"@, tuning.client_metrics_stale_floor, 0);
    }
    assert(
        findings[2] is None <==> is_bounded(tuning.client_metrics_default_interval, 2_147_483_647)
    ) by {
        reveal(client_metrics_found);
        lemma_time_is_valid(
            "client_metrics_default_interval"@,
            tuning.client_metrics_default_interval,
            2_147_483_647,
        );
    }
    assert(
        findings[3] is None <==> is_counted(tuning.client_metrics_telemetry_max, 2_147_483_647)
    ) by {
        reveal(client_metrics_found);
        lemma_size_is_valid(
            "client_metrics_telemetry_max"@,
            tuning.client_metrics_telemetry_max,
            2_147_483_647,
        );
    }
    assert(findings[4] is None <==> is_positive(tuning.client_metrics_prom_snapshot_ttl)) by {
        reveal(client_metrics_found);
        lemma_time_is_valid(
            "client_metrics_prom_snapshot_ttl"@,
            tuning.client_metrics_prom_snapshot_ttl,
            0,
        );
    }
    assert(findings[5] is None <==> is_positive(tuning.rlmm_reconcile_tick)) by {
        reveal(client_metrics_found);
        lemma_time_is_valid("rlmm_reconcile_tick"@, tuning.rlmm_reconcile_tick, 0);
    }
    assert(findings[6] is None <==> is_positive(tuning.rlmm_bootstrap_backoff_initial)) by {
        reveal(client_metrics_found);
        lemma_time_is_valid(
            "rlmm_bootstrap_backoff_initial"@,
            tuning.rlmm_bootstrap_backoff_initial,
            0,
        );
    }
    assert(findings[7] is None <==> is_positive(tuning.rlmm_bootstrap_backoff_max)) by {
        reveal(client_metrics_found);
        lemma_time_is_valid("rlmm_bootstrap_backoff_max"@, tuning.rlmm_bootstrap_backoff_max, 0);
    }
    assert(findings[8] is None <==> is_positive(tuning.connection_creation_throttle_max)) by {
        reveal(client_metrics_found);
        lemma_time_is_valid(
            "connection_creation_throttle_max"@,
            tuning.connection_creation_throttle_max,
            0,
        );
    }
    assert(findings[9] is None <==> is_positive(tuning.opa_http_timeout)) by {
        reveal(client_metrics_found);
        lemma_time_is_valid("opa_http_timeout"@, tuning.opa_http_timeout, 0);
    }
    assert(findings[10] is None <==> is_positive(tuning.oauth_jwks_http_timeout)) by {
        reveal(client_metrics_found);
        lemma_time_is_valid("oauth_jwks_http_timeout"@, tuning.oauth_jwks_http_timeout, 0);
    }
    assert(findings[11] is None <==> is_positive(tuning.auto_join_retry_backoff)) by {
        reveal(client_metrics_found);
        lemma_time_is_valid("auto_join_retry_backoff"@, tuning.auto_join_retry_backoff, 0);
    }
    assert(
        findings[12] is None <==> is_bounded(tuning.auto_join_voter_request_timeout, 2_147_483_647)
    ) by {
        reveal(client_metrics_found);
        lemma_time_is_valid(
            "auto_join_voter_request_timeout"@,
            tuning.auto_join_voter_request_timeout,
            2_147_483_647,
        );
    }
    assert forall|i: int| client_metrics_valid(tuning, snapshot_fetch) && 0 <= i
        < findings.len() implies #[trigger] findings[i] is None by {
        assert(
            i == 0 || i == 1 || i == 2 || i == 3 || i == 4 || i == 5 || i == 6 || i == 7 || i == 8
                || i == 9 || i == 10 || i == 11 || i == 12
        );
    }
}

/// Whether each of the fields for replication has a valid value.
pub open spec fn replication_valid(
    tuning: BrokerTuning,
    snapshot_fetch: Result<(),
    String>,
) -> bool {
    &&& is_counted(tuning.replication_fetch_max, 2_147_483_647)
    &&& is_bounded(tuning.replication_fetch_max_wait, 2_147_483_647)
    &&& is_counted(tuning.replication_fetch_min, 2_147_483_647)
    &&& is_positive(tuning.replication_throttle_exhausted_backoff)
    &&& is_positive(tuning.replication_send_error_backoff)
    &&& is_positive(tuning.replication_unknown_topic_retry_delay)
    &&& is_positive(tuning.replication_epoch_fence_backoff)
    &&& is_positive(tuning.replication_unexpected_error_backoff)
    &&& is_positive(tuning.replication_reconnect_initial_delay)
    &&& is_positive(tuning.replication_reconnect_delay_cap)
}

proof fn lemma_replication_valid(tuning: BrokerTuning, snapshot_fetch: Result<(), String>)
    ensures
        first(replication_found(tuning, snapshot_fetch)) is None
            <==> replication_valid(tuning, snapshot_fetch),
{
    let findings = replication_found(tuning, snapshot_fetch);
    lemma_first_of_none(findings);
    assert(findings.len() == 10) by {
        reveal(replication_found);
    }
    assert(findings[0] is None <==> is_counted(tuning.replication_fetch_max, 2_147_483_647)) by {
        reveal(replication_found);
        lemma_size_is_valid("replication_fetch_max"@, tuning.replication_fetch_max, 2_147_483_647);
    }
    assert(
        findings[1] is None <==> is_bounded(tuning.replication_fetch_max_wait, 2_147_483_647)
    ) by {
        reveal(replication_found);
        lemma_time_is_valid(
            "replication_fetch_max_wait"@,
            tuning.replication_fetch_max_wait,
            2_147_483_647,
        );
    }
    assert(findings[2] is None <==> is_counted(tuning.replication_fetch_min, 2_147_483_647)) by {
        reveal(replication_found);
        lemma_size_is_valid("replication_fetch_min"@, tuning.replication_fetch_min, 2_147_483_647);
    }
    assert(findings[3] is None <==> is_positive(tuning.replication_throttle_exhausted_backoff)) by {
        reveal(replication_found);
        lemma_time_is_valid(
            "replication_throttle_exhausted_backoff"@,
            tuning.replication_throttle_exhausted_backoff,
            0,
        );
    }
    assert(findings[4] is None <==> is_positive(tuning.replication_send_error_backoff)) by {
        reveal(replication_found);
        lemma_time_is_valid(
            "replication_send_error_backoff"@,
            tuning.replication_send_error_backoff,
            0,
        );
    }
    assert(findings[5] is None <==> is_positive(tuning.replication_unknown_topic_retry_delay)) by {
        reveal(replication_found);
        lemma_time_is_valid(
            "replication_unknown_topic_retry_delay"@,
            tuning.replication_unknown_topic_retry_delay,
            0,
        );
    }
    assert(findings[6] is None <==> is_positive(tuning.replication_epoch_fence_backoff)) by {
        reveal(replication_found);
        lemma_time_is_valid(
            "replication_epoch_fence_backoff"@,
            tuning.replication_epoch_fence_backoff,
            0,
        );
    }
    assert(findings[7] is None <==> is_positive(tuning.replication_unexpected_error_backoff)) by {
        reveal(replication_found);
        lemma_time_is_valid(
            "replication_unexpected_error_backoff"@,
            tuning.replication_unexpected_error_backoff,
            0,
        );
    }
    assert(findings[8] is None <==> is_positive(tuning.replication_reconnect_initial_delay)) by {
        reveal(replication_found);
        lemma_time_is_valid(
            "replication_reconnect_initial_delay"@,
            tuning.replication_reconnect_initial_delay,
            0,
        );
    }
    assert(findings[9] is None <==> is_positive(tuning.replication_reconnect_delay_cap)) by {
        reveal(replication_found);
        lemma_time_is_valid(
            "replication_reconnect_delay_cap"@,
            tuning.replication_reconnect_delay_cap,
            0,
        );
    }
    assert forall|i: int| replication_valid(tuning, snapshot_fetch) && 0 <= i
        < findings.len() implies #[trigger] findings[i] is None by {
        assert(
            i == 0 || i == 1 || i == 2 || i == 3 || i == 4 || i == 5 || i == 6 || i == 7 || i == 8
                || i == 9
        );
    }
}

/// Whether each of the fields for coordinators, consumer groups and recovery has a valid value.
pub open spec fn group_valid(tuning: BrokerTuning, snapshot_fetch: Result<(), String>) -> bool {
    &&& is_positive(tuning.coordinator_session_expiry_tick)
    &&& is_positive(tuning.coordinator_shutdown_ack_timeout)
    &&& is_positive(tuning.consumer_group_session_timeout)
    &&& is_positive(tuning.consumer_group_heartbeat_interval)
    &&& is_positive(tuning.consumer_group_min_session_timeout)
    &&& is_positive(tuning.consumer_group_max_session_timeout)
    &&& is_positive(tuning.consumer_group_min_heartbeat_interval)
    &&& is_positive(tuning.consumer_group_max_heartbeat_interval)
    &&& (tuning.consumer_group_max_size matches Some(n) ==> n > 0)
    &&& is_positive(tuning.classic_group_initial_rebalance_delay)
    &&& is_positive(tuning.sync_group_follower_wait)
    &&& is_positive(tuning.unclean_recovery_aggressive_deadline)
    &&& is_positive(tuning.unclean_recovery_balanced_deadline)
    &&& is_positive(tuning.operator_recovery_deadline)
    &&& is_positive(tuning.quota_throttle_max)
}

proof fn lemma_group_valid(tuning: BrokerTuning, snapshot_fetch: Result<(), String>)
    ensures
        first(group_found(tuning, snapshot_fetch)) is None <==> group_valid(tuning, snapshot_fetch),
{
    let findings = group_found(tuning, snapshot_fetch);
    lemma_first_of_none(findings);
    assert(findings.len() == 15) by {
        reveal(group_found);
    }
    assert(findings[0] is None <==> is_positive(tuning.coordinator_session_expiry_tick)) by {
        reveal(group_found);
        lemma_time_is_valid(
            "coordinator_session_expiry_tick"@,
            tuning.coordinator_session_expiry_tick,
            0,
        );
    }
    assert(findings[1] is None <==> is_positive(tuning.coordinator_shutdown_ack_timeout)) by {
        reveal(group_found);
        lemma_time_is_valid(
            "coordinator_shutdown_ack_timeout"@,
            tuning.coordinator_shutdown_ack_timeout,
            0,
        );
    }
    assert(findings[2] is None <==> is_positive(tuning.consumer_group_session_timeout)) by {
        reveal(group_found);
        lemma_time_is_valid(
            "consumer_group_session_timeout"@,
            tuning.consumer_group_session_timeout,
            0,
        );
    }
    assert(findings[3] is None <==> is_positive(tuning.consumer_group_heartbeat_interval)) by {
        reveal(group_found);
        lemma_time_is_valid(
            "consumer_group_heartbeat_interval"@,
            tuning.consumer_group_heartbeat_interval,
            0,
        );
    }
    assert(findings[4] is None <==> is_positive(tuning.consumer_group_min_session_timeout)) by {
        reveal(group_found);
        lemma_time_is_valid(
            "consumer_group_min_session_timeout"@,
            tuning.consumer_group_min_session_timeout,
            0,
        );
    }
    assert(findings[5] is None <==> is_positive(tuning.consumer_group_max_session_timeout)) by {
        reveal(group_found);
        lemma_time_is_valid(
            "consumer_group_max_session_timeout"@,
            tuning.consumer_group_max_session_timeout,
            0,
        );
    }
    assert(findings[6] is None <==> is_positive(tuning.consumer_group_min_heartbeat_interval)) by {
        reveal(group_found);
        lemma_time_is_valid(
            "consumer_group_min_heartbeat_interval"@,
            tuning.consumer_group_min_heartbeat_interval,
            0,
        );
    }
    assert(findings[7] is None <==> is_positive(tuning.consumer_group_max_heartbeat_interval)) by {
        reveal(group_found);
        lemma_time_is_valid(
            "consumer_group_max_heartbeat_interval"@,
            tuning.consumer_group_max_heartbeat_interval,
            0,
        );
    }
    assert(findings[8] is None <==> (tuning.consumer_group_max_size matches Some(n) ==> n > 0)) by {
        reveal(group_found);
        reveal(count_above_zero);
    }
    assert(findings[9] is None <==> is_positive(tuning.classic_group_initial_rebalance_delay)) by {
        reveal(group_found);
        lemma_time_is_valid(
            "classic_group_initial_rebalance_delay"@,
            tuning.classic_group_initial_rebalance_delay,
            0,
        );
    }
    assert(findings[10] is None <==> is_positive(tuning.sync_group_follower_wait)) by {
        reveal(group_found);
        lemma_time_is_valid("sync_group_follower_wait"@, tuning.sync_group_follower_wait, 0);
    }
    assert(findings[11] is None <==> is_positive(tuning.unclean_recovery_aggressive_deadline)) by {
        reveal(group_found);
        lemma_time_is_valid(
            "unclean_recovery_aggressive_deadline"@,
            tuning.unclean_recovery_aggressive_deadline,
            0,
        );
    }
    assert(findings[12] is None <==> is_positive(tuning.unclean_recovery_balanced_deadline)) by {
        reveal(group_found);
        lemma_time_is_valid(
            "unclean_recovery_balanced_deadline"@,
            tuning.unclean_recovery_balanced_deadline,
            0,
        );
    }
    assert(findings[13] is None <==> is_positive(tuning.operator_recovery_deadline)) by {
        reveal(group_found);
        lemma_time_is_valid("operator_recovery_deadline"@, tuning.operator_recovery_deadline, 0);
    }
    assert(findings[14] is None <==> is_positive(tuning.quota_throttle_max)) by {
        reveal(group_found);
        lemma_time_is_valid("quota_throttle_max"@, tuning.quota_throttle_max, 0);
    }
    assert forall|i: int| group_valid(tuning, snapshot_fetch) && 0 <= i
        < findings.len() implies #[trigger] findings[i] is None by {
        assert(
            i == 0 || i == 1 || i == 2 || i == 3 || i == 4 || i == 5 || i == 6 || i == 7 || i == 8
                || i == 9 || i == 10 || i == 11 || i == 12 || i == 13 || i == 14
        );
    }
}

/// Whether each of the fields for queue capacities and the diskless write-ahead log has a
/// valid value.
pub open spec fn capacity_valid(tuning: BrokerTuning, snapshot_fetch: Result<(), String>) -> bool {
    &&& (tuning.self_registration_max_attempts matches Some(n) ==> n > 0)
    &&& is_counted(tuning.observer_fetch_max, 4_294_967_295)
    &&& (tuning.audit_event_queue_capacity matches Some(n) ==> n > 0)
    &&& (tuning.audit_tail_window_offsets matches Some(n) ==> n > 0)
    &&& is_counted(tuning.audit_tail_read_max, usize::MAX as int)
    &&& is_positive(tuning.offsets_topic_metadata_wait_timeout)
    &&& (tuning.client_metrics_stale_push_intervals matches Some(n) ==> n > 0)
    &&& (tuning.client_metrics_otlp_queue_capacity matches Some(n) ==> n > 0)
    &&& (tuning.coordinator_actor_mailbox_capacity matches Some(n) ==> n > 0)
    &&& (tuning.diskless_wal_local_replica_count matches Some(n) ==> n > 0)
    &&& is_positive(tuning.diskless_wal_flush_interval)
    &&& is_counted(tuning.diskless_wal_flush_max_size, usize::MAX as int)
    &&& (tuning.diskless_wal_trim_safety_lag matches Some(n) ==> n >= 0)
    &&& is_positive(tuning.diskless_wal_index_projection_timeout)
    &&& (tuning.unclean_recovery_queue_capacity matches Some(n) ==> n > 0)
    &&& is_counted(tuning.share_recovery_read_max, usize::MAX as int)
}

proof fn lemma_capacity_valid(tuning: BrokerTuning, snapshot_fetch: Result<(), String>)
    ensures
        first(capacity_found(tuning, snapshot_fetch)) is None
            <==> capacity_valid(tuning, snapshot_fetch),
{
    let findings = capacity_found(tuning, snapshot_fetch);
    lemma_first_of_none(findings);
    assert(findings.len() == 16) by {
        reveal(capacity_found);
    }
    assert(
        findings[0] is None <==> (tuning.self_registration_max_attempts matches Some(n) ==> n > 0)
    ) by {
        reveal(capacity_found);
        reveal(count_above_zero);
    }
    assert(findings[1] is None <==> is_counted(tuning.observer_fetch_max, 4_294_967_295)) by {
        reveal(capacity_found);
        lemma_size_is_valid("observer_fetch_max"@, tuning.observer_fetch_max, 4_294_967_295);
    }
    assert(
        findings[2] is None <==> (tuning.audit_event_queue_capacity matches Some(n) ==> n > 0)
    ) by {
        reveal(capacity_found);
        reveal(count_above_zero);
    }
    assert(
        findings[3] is None <==> (tuning.audit_tail_window_offsets matches Some(n) ==> n > 0)
    ) by {
        reveal(capacity_found);
        reveal(count_above_zero);
    }
    assert(findings[4] is None <==> is_counted(tuning.audit_tail_read_max, usize::MAX as int)) by {
        reveal(capacity_found);
        lemma_size_is_valid("audit_tail_read_max"@, tuning.audit_tail_read_max, usize::MAX as int);
    }
    assert(findings[5] is None <==> is_positive(tuning.offsets_topic_metadata_wait_timeout)) by {
        reveal(capacity_found);
        lemma_time_is_valid(
            "offsets_topic_metadata_wait_timeout"@,
            tuning.offsets_topic_metadata_wait_timeout,
            0,
        );
    }
    assert(
        findings[6] is None
            <==> (tuning.client_metrics_stale_push_intervals matches Some(n) ==> n > 0)
    ) by {
        reveal(capacity_found);
        reveal(count_above_zero);
    }
    assert(
        findings[7] is None
            <==> (tuning.client_metrics_otlp_queue_capacity matches Some(n) ==> n > 0)
    ) by {
        reveal(capacity_found);
        reveal(count_above_zero);
    }
    assert(
        findings[8] is None
            <==> (tuning.coordinator_actor_mailbox_capacity matches Some(n) ==> n > 0)
    ) by {
        reveal(capacity_found);
        reveal(count_above_zero);
    }
    assert(
        findings[9] is None <==> (tuning.diskless_wal_local_replica_count matches Some(n) ==> n > 0)
    ) by {
        reveal(capacity_found);
        reveal(count_above_zero);
    }
    assert(findings[10] is None <==> is_positive(tuning.diskless_wal_flush_interval)) by {
        reveal(capacity_found);
        lemma_time_is_valid("diskless_wal_flush_interval"@, tuning.diskless_wal_flush_interval, 0);
    }
    assert(
        findings[11] is None <==> is_counted(tuning.diskless_wal_flush_max_size, usize::MAX as int)
    ) by {
        reveal(capacity_found);
        lemma_size_is_valid(
            "diskless_wal_flush_max_size"@,
            tuning.diskless_wal_flush_max_size,
            usize::MAX as int,
        );
    }
    assert(
        findings[12] is None <==> (tuning.diskless_wal_trim_safety_lag matches Some(n) ==> n >= 0)
    ) by {
        reveal(capacity_found);
        reveal(count_from_zero);
    }
    assert(findings[13] is None <==> is_positive(tuning.diskless_wal_index_projection_timeout)) by {
        reveal(capacity_found);
        lemma_time_is_valid(
            "diskless_wal_index_projection_timeout"@,
            tuning.diskless_wal_index_projection_timeout,
            0,
        );
    }
    assert(
        findings[14] is None <==> (tuning.unclean_recovery_queue_capacity matches Some(n) ==> n > 0)
    ) by {
        reveal(capacity_found);
        reveal(count_above_zero);
    }
    assert(
        findings[15] is None <==> is_counted(tuning.share_recovery_read_max, usize::MAX as int)
    ) by {
        reveal(capacity_found);
        lemma_size_is_valid(
            "share_recovery_read_max"@,
            tuning.share_recovery_read_max,
            usize::MAX as int,
        );
    }
    assert forall|i: int| capacity_valid(tuning, snapshot_fetch) && 0 <= i
        < findings.len() implies #[trigger] findings[i] is None by {
        assert(
            i == 0 || i == 1 || i == 2 || i == 3 || i == 4 || i == 5 || i == 6 || i == 7 || i == 8
                || i == 9 || i == 10 || i == 11 || i == 12 || i == 13 || i == 14 || i == 15
        );
    }
}

/// Whether each of the fields for read sizes, sockets, ACLs and decompression has a valid value.
pub open spec fn socket_valid(tuning: BrokerTuning, snapshot_fetch: Result<(), String>) -> bool {
    &&& (tuning.share_session_cache_max_when_unlimited matches Some(n) ==> n > 0)
    &&& is_counted(tuning.log_read_buffer_cap, usize::MAX as int)
    &&& is_counted(tuning.log_timestamp_scan_window, usize::MAX as int)
    &&& is_counted(tuning.socket_request_max, 4_294_967_295)
    &&& is_counted(tuning.sendfile_min, usize::MAX as int)
    &&& is_counted(tuning.socket_send_buffer, usize::MAX as int)
    &&& is_counted(tuning.socket_receive_buffer, usize::MAX as int)
    &&& is_counted(tuning.acl_max_principal, usize::MAX as int)
    &&& is_counted(tuning.acl_max_resource_name, usize::MAX as int)
    &&& is_positive_ratio(tuning.telemetry_max_decompression_ratio)
    &&& is_counted(tuning.telemetry_decompressed_output_floor, usize::MAX as int)
    &&& is_counted(tuning.telemetry_decompressed_output_ceiling, usize::MAX as int)
    &&& is_positive_ratio(tuning.record_decompression_max_ratio)
    &&& is_counted(tuning.record_decompression_output_floor, 0xffff_ffff_ffff_ffff)
    &&& is_counted(tuning.record_decompression_output_ceiling, 0xffff_ffff_ffff_ffff)
}

proof fn lemma_socket_valid(tuning: BrokerTuning, snapshot_fetch: Result<(), String>)
    ensures
        first(socket_found(tuning, snapshot_fetch)) is None
            <==> socket_valid(tuning, snapshot_fetch),
{
    let findings = socket_found(tuning, snapshot_fetch);
    lemma_first_of_none(findings);
    assert(findings.len() == 16) by {
        reveal(socket_found);
    }
    assert(
        findings[0] is None
            <==> (tuning.share_session_cache_max_when_unlimited matches Some(n) ==> n > 0)
    ) by {
        reveal(socket_found);
        reveal(count_above_zero);
    }
    assert(findings[1] is None <==> is_counted(tuning.log_read_buffer_cap, usize::MAX as int)) by {
        reveal(socket_found);
        lemma_size_is_valid("log_read_buffer_cap"@, tuning.log_read_buffer_cap, usize::MAX as int);
    }
    assert(
        findings[2] is None <==> is_counted(tuning.log_timestamp_scan_window, usize::MAX as int)
    ) by {
        reveal(socket_found);
        lemma_size_is_valid(
            "log_timestamp_scan_window"@,
            tuning.log_timestamp_scan_window,
            usize::MAX as int,
        );
    }
    assert(findings[3] is None <==> is_counted(tuning.socket_request_max, 4_294_967_295)) by {
        reveal(socket_found);
        lemma_size_is_valid("socket_request_max"@, tuning.socket_request_max, 4_294_967_295);
    }
    assert(findings[4] is None <==> is_counted(tuning.sendfile_min, usize::MAX as int)) by {
        reveal(socket_found);
        lemma_size_is_valid("sendfile_min"@, tuning.sendfile_min, usize::MAX as int);
    }
    assert(findings[5] is None <==> is_counted(tuning.socket_send_buffer, usize::MAX as int)) by {
        reveal(socket_found);
        lemma_size_is_valid("socket_send_buffer"@, tuning.socket_send_buffer, usize::MAX as int);
    }
    assert(
        findings[6] is None <==> is_counted(tuning.socket_receive_buffer, usize::MAX as int)
    ) by {
        reveal(socket_found);
        lemma_size_is_valid(
            "socket_receive_buffer"@,
            tuning.socket_receive_buffer,
            usize::MAX as int,
        );
    }
    assert(findings[7] is None <==> is_counted(tuning.acl_max_principal, usize::MAX as int)) by {
        reveal(socket_found);
        lemma_size_is_valid("acl_max_principal"@, tuning.acl_max_principal, usize::MAX as int);
    }
    assert(
        findings[8] is None <==> is_counted(tuning.acl_max_resource_name, usize::MAX as int)
    ) by {
        reveal(socket_found);
        lemma_size_is_valid(
            "acl_max_resource_name"@,
            tuning.acl_max_resource_name,
            usize::MAX as int,
        );
    }
    assert(
        findings[9] is None <==> is_positive_ratio(tuning.telemetry_max_decompression_ratio)
    ) by {
        reveal(socket_found);
        lemma_ratio_is_valid(
            "telemetry_max_decompression_ratio"@,
            tuning.telemetry_max_decompression_ratio,
        );
    }
    assert(
        findings[10] is None
            <==> is_counted(tuning.telemetry_decompressed_output_floor, usize::MAX as int)
    ) by {
        reveal(socket_found);
        lemma_size_is_valid(
            "telemetry_decompressed_output_floor"@,
            tuning.telemetry_decompressed_output_floor,
            usize::MAX as int,
        );
    }
    assert(
        findings[11] is None
            <==> is_counted(tuning.telemetry_decompressed_output_ceiling, usize::MAX as int)
    ) by {
        reveal(socket_found);
        lemma_size_is_valid(
            "telemetry_decompressed_output_ceiling"@,
            tuning.telemetry_decompressed_output_ceiling,
            usize::MAX as int,
        );
    }
    assert(findings[12] is None <==> is_positive_ratio(tuning.record_decompression_max_ratio)) by {
        reveal(socket_found);
        lemma_ratio_is_valid(
            "record_decompression_max_ratio"@,
            tuning.record_decompression_max_ratio,
        );
    }
    assert(
        findings[13] is None
            <==> is_counted(tuning.record_decompression_output_floor, 0xffff_ffff_ffff_ffff)
    ) by {
        reveal(socket_found);
        lemma_size_is_valid(
            "record_decompression_output_floor"@,
            tuning.record_decompression_output_floor,
            0xffff_ffff_ffff_ffff,
        );
    }
    assert(
        findings[14] is None
            <==> is_counted(tuning.record_decompression_output_ceiling, 0xffff_ffff_ffff_ffff)
    ) by {
        reveal(socket_found);
        lemma_size_is_valid(
            "record_decompression_output_ceiling"@,
            tuning.record_decompression_output_ceiling,
            0xffff_ffff_ffff_ffff,
        );
    }
    assert(findings[15] is None <==> true) by {
        reveal(socket_found);
        
    }
    assert forall|i: int| socket_valid(tuning, snapshot_fetch) && 0 <= i
        < findings.len() implies #[trigger] findings[i] is None by {
        assert(
            i == 0 || i == 1 || i == 2 || i == 3 || i == 4 || i == 5 || i == 6 || i == 7 || i == 8
                || i == 9 || i == 10 || i == 11 || i == 12 || i == 13 || i == 14 || i == 15
        );
    }
}

/// Whether each of the fields for producers and transactions has a valid value.
pub open spec fn producer_valid(tuning: BrokerTuning, snapshot_fetch: Result<(), String>) -> bool {
    &&& is_whole(tuning.producer_id_expiration)
    &&& is_positive(tuning.producer_id_expiration_scan_interval)
    &&& (tuning.max_produce_group matches Some(n) ==> n > 0)
    &&& (tuning.partition_writer_queue_depth matches Some(n) ==> n > 0)
    &&& (tuning.default_min_insync_replicas matches Some(n) ==> n > 0)
    &&& is_counted(tuning.future_log_move_read_chunk, usize::MAX as int)
    &&& (tuning.share_state_num_partitions matches Some(n) ==> n > 0)
    &&& (tuning.share_state_replication_factor matches Some(n) ==> n > 0)
    &&& (tuning.transaction_state_num_partitions matches Some(n) ==> n > 0)
    &&& is_counted(tuning.transaction_recovery_read_max, usize::MAX as int)
    &&& (tuning.transaction_state_replication_factor matches Some(n) ==> n > 0)
    &&& is_bounded(tuning.transaction_min_timeout, 2_147_483_647)
    &&& is_bounded(tuning.transaction_max_timeout, 2_147_483_646)
    &&& is_nonnegative(tuning.partition_disk_scan_interval)
}

proof fn lemma_producer_valid(tuning: BrokerTuning, snapshot_fetch: Result<(), String>)
    ensures
        first(producer_found(tuning, snapshot_fetch)) is None
            <==> producer_valid(tuning, snapshot_fetch),
{
    let findings = producer_found(tuning, snapshot_fetch);
    lemma_first_of_none(findings);
    assert(findings.len() == 15) by {
        reveal(producer_found);
    }
    assert(findings[0] is None <==> is_whole(tuning.producer_id_expiration)) by {
        reveal(producer_found);
        lemma_time_is_valid("producer_id_expiration"@, tuning.producer_id_expiration, 0);
    }
    assert(findings[1] is None <==> is_positive(tuning.producer_id_expiration_scan_interval)) by {
        reveal(producer_found);
        lemma_time_is_valid(
            "producer_id_expiration_scan_interval"@,
            tuning.producer_id_expiration_scan_interval,
            0,
        );
    }
    assert(findings[2] is None <==> (tuning.max_produce_group matches Some(n) ==> n > 0)) by {
        reveal(producer_found);
        reveal(count_above_zero);
    }
    assert(
        findings[3] is None <==> (tuning.partition_writer_queue_depth matches Some(n) ==> n > 0)
    ) by {
        reveal(producer_found);
        reveal(count_above_zero);
    }
    assert(
        findings[4] is None <==> (tuning.default_min_insync_replicas matches Some(n) ==> n > 0)
    ) by {
        reveal(producer_found);
        reveal(count_above_zero);
    }
    assert(
        findings[5] is None <==> is_counted(tuning.future_log_move_read_chunk, usize::MAX as int)
    ) by {
        reveal(producer_found);
        lemma_size_is_valid(
            "future_log_move_read_chunk"@,
            tuning.future_log_move_read_chunk,
            usize::MAX as int,
        );
    }
    assert(
        findings[6] is None <==> (tuning.share_state_num_partitions matches Some(n) ==> n > 0)
    ) by {
        reveal(producer_found);
        reveal(count_above_zero);
    }
    assert(
        findings[7] is None <==> (tuning.share_state_replication_factor matches Some(n) ==> n > 0)
    ) by {
        reveal(producer_found);
        reveal(count_above_zero);
    }
    assert(
        findings[8] is None <==> (tuning.transaction_state_num_partitions matches Some(n) ==> n > 0)
    ) by {
        reveal(producer_found);
        reveal(count_above_zero);
    }
    assert(
        findings[9] is None <==> is_counted(tuning.transaction_recovery_read_max, usize::MAX as int)
    ) by {
        reveal(producer_found);
        lemma_size_is_valid(
            "transaction_recovery_read_max"@,
            tuning.transaction_recovery_read_max,
            usize::MAX as int,
        );
    }
    assert(
        findings[10] is None
            <==> (tuning.transaction_state_replication_factor matches Some(n) ==> n > 0)
    ) by {
        reveal(producer_found);
        reveal(count_above_zero);
    }
    assert(findings[11] is None <==> is_bounded(tuning.transaction_min_timeout, 2_147_483_647)) by {
        reveal(producer_found);
        lemma_time_is_valid(
            "transaction_min_timeout"@,
            tuning.transaction_min_timeout,
            2_147_483_647,
        );
    }
    assert(findings[12] is None <==> is_bounded(tuning.transaction_max_timeout, 2_147_483_646)) by {
        reveal(producer_found);
        lemma_time_is_valid(
            "transaction_max_timeout"@,
            tuning.transaction_max_timeout,
            2_147_483_646,
        );
    }
    assert(findings[13] is None <==> is_nonnegative(tuning.partition_disk_scan_interval)) by {
        reveal(producer_found);
        lemma_time_is_valid(
            "partition_disk_scan_interval"@,
            tuning.partition_disk_scan_interval,
            0,
        );
    }
    assert(findings[14] is None <==> true) by {
        reveal(producer_found);
        
    }
    assert forall|i: int| producer_valid(tuning, snapshot_fetch) && 0 <= i
        < findings.len() implies #[trigger] findings[i] is None by {
        assert(
            i == 0 || i == 1 || i == 2 || i == 3 || i == 4 || i == 5 || i == 6 || i == 7 || i == 8
                || i == 9 || i == 10 || i == 11 || i == 12 || i == 13 || i == 14
        );
    }
}

/// Whether each of the fields for heartbeats, the controller and metadata snapshots has a
/// valid value.
pub open spec fn controller_valid(
    tuning: BrokerTuning,
    snapshot_fetch: Result<(),
    String>,
) -> bool {
    &&& is_positive(tuning.heartbeat_interval)
    &&& is_positive(tuning.heartbeat_timeout)
    &&& is_positive(tuning.replica_lag_time_max)
    &&& is_positive(tuning.controller_election_timeout)
    &&& is_positive(tuning.controller_heartbeat_interval)
    &&& (tuning.controller_fetch_miss_limit matches Some(n) ==> n > 0)
    &&& (tuning.metadata_raft_command_queue_capacity matches Some(n) ==> n > 0)
    &&& is_counted(tuning.metadata_raft_fetch_max, 2_147_483_647)
    &&& is_positive(tuning.controlled_shutdown_drain_timeout)
    &&& is_counted(tuning.metadata_max_between_snapshots, 0xffff_ffff_ffff_ffff)
    &&& is_nonnegative(tuning.metadata_max_snapshot_interval)
    &&& (tuning.metadata_snapshot_interval_records matches Some(n) ==> n > 0)
    &&& (tuning.metadata_snapshot_fetch_max is Some ==> snapshot_fetch is Ok)
    &&& is_nonnegative(tuning.txn_abort_cleanup_interval)
    &&& is_positive(tuning.leader_imbalance_check_interval)
    &&& is_part(tuning.leader_imbalance_per_broker)
    &&& is_nonnegative(tuning.tls_reload_interval)
}

proof fn lemma_controller_valid(tuning: BrokerTuning, snapshot_fetch: Result<(), String>)
    ensures
        first(controller_found(tuning, snapshot_fetch)) is None
            <==> controller_valid(tuning, snapshot_fetch),
{
    let findings = controller_found(tuning, snapshot_fetch);
    lemma_first_of_none(findings);
    assert(findings.len() == 17) by {
        reveal(controller_found);
    }
    assert(findings[0] is None <==> is_positive(tuning.heartbeat_interval)) by {
        reveal(controller_found);
        lemma_time_is_valid("heartbeat_interval"@, tuning.heartbeat_interval, 0);
    }
    assert(findings[1] is None <==> is_positive(tuning.heartbeat_timeout)) by {
        reveal(controller_found);
        lemma_time_is_valid("heartbeat_timeout"@, tuning.heartbeat_timeout, 0);
    }
    assert(findings[2] is None <==> is_positive(tuning.replica_lag_time_max)) by {
        reveal(controller_found);
        lemma_time_is_valid("replica_lag_time_max"@, tuning.replica_lag_time_max, 0);
    }
    assert(findings[3] is None <==> is_positive(tuning.controller_election_timeout)) by {
        reveal(controller_found);
        lemma_time_is_valid("controller_election_timeout"@, tuning.controller_election_timeout, 0);
    }
    assert(findings[4] is None <==> is_positive(tuning.controller_heartbeat_interval)) by {
        reveal(controller_found);
        lemma_time_is_valid(
            "controller_heartbeat_interval"@,
            tuning.controller_heartbeat_interval,
            0,
        );
    }
    assert(
        findings[5] is None <==> (tuning.controller_fetch_miss_limit matches Some(n) ==> n > 0)
    ) by {
        reveal(controller_found);
        reveal(count_above_zero);
    }
    assert(
        findings[6] is None
            <==> (tuning.metadata_raft_command_queue_capacity matches Some(n) ==> n > 0)
    ) by {
        reveal(controller_found);
        reveal(count_above_zero);
    }
    assert(findings[7] is None <==> is_counted(tuning.metadata_raft_fetch_max, 2_147_483_647)) by {
        reveal(controller_found);
        lemma_size_is_valid(
            "metadata_raft_fetch_max"@,
            tuning.metadata_raft_fetch_max,
            2_147_483_647,
        );
    }
    assert(findings[8] is None <==> is_positive(tuning.controlled_shutdown_drain_timeout)) by {
        reveal(controller_found);
        lemma_time_is_valid(
            "controlled_shutdown_drain_timeout"@,
            tuning.controlled_shutdown_drain_timeout,
            0,
        );
    }
    assert(
        findings[9] is None
            <==> is_counted(tuning.metadata_max_between_snapshots, 0xffff_ffff_ffff_ffff)
    ) by {
        reveal(controller_found);
        lemma_size_is_valid(
            "metadata_max_between_snapshots"@,
            tuning.metadata_max_between_snapshots,
            0xffff_ffff_ffff_ffff,
        );
    }
    assert(findings[10] is None <==> is_nonnegative(tuning.metadata_max_snapshot_interval)) by {
        reveal(controller_found);
        lemma_time_is_valid(
            "metadata_max_snapshot_interval"@,
            tuning.metadata_max_snapshot_interval,
            0,
        );
    }
    assert(
        findings[11] is None
            <==> (tuning.metadata_snapshot_interval_records matches Some(n) ==> n > 0)
    ) by {
        reveal(controller_found);
        reveal(count_above_zero);
    }
    assert(
        findings[12] is None
            <==> (tuning.metadata_snapshot_fetch_max is Some ==> snapshot_fetch is Ok)
    ) by {
        reveal(controller_found);
        reveal(verdict);
    }
    assert(findings[13] is None <==> is_nonnegative(tuning.txn_abort_cleanup_interval)) by {
        reveal(controller_found);
        lemma_time_is_valid("txn_abort_cleanup_interval"@, tuning.txn_abort_cleanup_interval, 0);
    }
    assert(findings[14] is None <==> is_positive(tuning.leader_imbalance_check_interval)) by {
        reveal(controller_found);
        lemma_time_is_valid(
            "leader_imbalance_check_interval"@,
            tuning.leader_imbalance_check_interval,
            0,
        );
    }
    assert(findings[15] is None <==> is_part(tuning.leader_imbalance_per_broker)) by {
        reveal(controller_found);
        lemma_ratio_is_valid("leader_imbalance_per_broker"@, tuning.leader_imbalance_per_broker);
    }
    assert(findings[16] is None <==> is_nonnegative(tuning.tls_reload_interval)) by {
        reveal(controller_found);
        lemma_time_is_valid("tls_reload_interval"@, tuning.tls_reload_interval, 0);
    }
    assert forall|i: int| controller_valid(tuning, snapshot_fetch) && 0 <= i
        < findings.len() implies #[trigger] findings[i] is None by {
        assert(
            i == 0 || i == 1 || i == 2 || i == 3 || i == 4 || i == 5 || i == 6 || i == 7 || i == 8
                || i == 9 || i == 10 || i == 11 || i == 12 || i == 13 || i == 14 || i == 15
                || i == 16
        );
    }
}

/// Whether each of the fields for connections and delegation tokens has a valid value.
pub open spec fn connection_valid(
    tuning: BrokerTuning,
    snapshot_fetch: Result<(),
    String>,
) -> bool {
    &&& is_whole(tuning.delegation_token_max_lifetime)
    &&& is_whole(tuning.delegation_token_expiry_check_interval)
    &&& is_whole(tuning.delegation_token_default_renew_period)
    &&& is_positive(tuning.remote_log_manager_interval)
}

proof fn lemma_connection_valid(tuning: BrokerTuning, snapshot_fetch: Result<(), String>)
    ensures
        first(connection_found(tuning, snapshot_fetch)) is None
            <==> connection_valid(tuning, snapshot_fetch),
{
    let findings = connection_found(tuning, snapshot_fetch);
    lemma_first_of_none(findings);
    assert(findings.len() == 8) by {
        reveal(connection_found);
    }
    assert(findings[0] is None <==> true) by {
        reveal(connection_found);
        
    }
    assert(findings[1] is None <==> true) by {
        reveal(connection_found);
        
    }
    assert(findings[2] is None <==> true) by {
        reveal(connection_found);
        
    }
    assert(findings[3] is None <==> is_whole(tuning.delegation_token_max_lifetime)) by {
        reveal(connection_found);
        lemma_time_is_valid(
            "delegation_token_max_lifetime"@,
            tuning.delegation_token_max_lifetime,
            0,
        );
    }
    assert(findings[4] is None <==> is_whole(tuning.delegation_token_expiry_check_interval)) by {
        reveal(connection_found);
        lemma_time_is_valid(
            "delegation_token_expiry_check_interval"@,
            tuning.delegation_token_expiry_check_interval,
            0,
        );
    }
    assert(findings[5] is None <==> is_whole(tuning.delegation_token_default_renew_period)) by {
        reveal(connection_found);
        lemma_time_is_valid(
            "delegation_token_default_renew_period"@,
            tuning.delegation_token_default_renew_period,
            0,
        );
    }
    assert(findings[6] is None <==> is_positive(tuning.remote_log_manager_interval)) by {
        reveal(connection_found);
        lemma_time_is_valid("remote_log_manager_interval"@, tuning.remote_log_manager_interval, 0);
    }
    assert(findings[7] is None <==> true) by {
        reveal(connection_found);
        
    }
    assert forall|i: int| connection_valid(tuning, snapshot_fetch) && 0 <= i
        < findings.len() implies #[trigger] findings[i] is None by {
        assert(i == 0 || i == 1 || i == 2 || i == 3 || i == 4 || i == 5 || i == 6 || i == 7);
    }
}

/// Whether each of the fields for share groups has a valid value.
pub open spec fn share_group_valid(
    tuning: BrokerTuning,
    snapshot_fetch: Result<(),
    String>,
) -> bool {
    &&& is_positive(tuning.share_group_session_timeout)
    &&& is_positive(tuning.share_group_heartbeat_interval)
    &&& (tuning.share_group_max_size matches Some(n) ==> n > 0)
    &&& is_positive(tuning.share_group_record_lock_duration)
    &&& (tuning.share_group_max_delivery_attempts matches Some(n) ==> n > 0)
    &&& (tuning.share_group_max_inflight_records matches Some(n) ==> n > 0)
}

proof fn lemma_share_group_valid(tuning: BrokerTuning, snapshot_fetch: Result<(), String>)
    ensures
        first(share_group_found(tuning, snapshot_fetch)) is None
            <==> share_group_valid(tuning, snapshot_fetch),
{
    let findings = share_group_found(tuning, snapshot_fetch);
    lemma_first_of_none(findings);
    assert(findings.len() == 7) by {
        reveal(share_group_found);
    }
    assert(findings[0] is None <==> is_positive(tuning.share_group_session_timeout)) by {
        reveal(share_group_found);
        lemma_time_is_valid("share_group_session_timeout"@, tuning.share_group_session_timeout, 0);
    }
    assert(findings[1] is None <==> is_positive(tuning.share_group_heartbeat_interval)) by {
        reveal(share_group_found);
        lemma_time_is_valid(
            "share_group_heartbeat_interval"@,
            tuning.share_group_heartbeat_interval,
            0,
        );
    }
    assert(findings[2] is None <==> (tuning.share_group_max_size matches Some(n) ==> n > 0)) by {
        reveal(share_group_found);
        reveal(count_above_zero);
    }
    assert(findings[3] is None <==> is_positive(tuning.share_group_record_lock_duration)) by {
        reveal(share_group_found);
        lemma_time_is_valid(
            "share_group_record_lock_duration"@,
            tuning.share_group_record_lock_duration,
            0,
        );
    }
    assert(
        findings[4] is None
            <==> (tuning.share_group_max_delivery_attempts matches Some(n) ==> n > 0)
    ) by {
        reveal(share_group_found);
        reveal(count_above_zero);
    }
    assert(
        findings[5] is None <==> (tuning.share_group_max_inflight_records matches Some(n) ==> n > 0)
    ) by {
        reveal(share_group_found);
        reveal(count_above_zero);
    }
    assert(findings[6] is None <==> true) by {
        reveal(share_group_found);
        
    }
    assert forall|i: int| share_group_valid(tuning, snapshot_fetch) && 0 <= i
        < findings.len() implies #[trigger] findings[i] is None by {
        assert(i == 0 || i == 1 || i == 2 || i == 3 || i == 4 || i == 5 || i == 6);
    }
}

/// Whether each of the fields for streams groups has a valid value.
pub open spec fn streams_group_valid(
    tuning: BrokerTuning,
    snapshot_fetch: Result<(),
    String>,
) -> bool {
    &&& is_positive(tuning.streams_group_session_timeout)
    &&& is_positive(tuning.streams_group_heartbeat_interval)
    &&& (tuning.streams_group_max_size matches Some(n) ==> n > 0)
    &&& (tuning.streams_internal_topic_replication_factor matches Some(n) ==> n > 0)
    &&& (tuning.streams_group_num_standby_replicas matches Some(n) ==> n >= 0)
    &&& (tuning.streams_group_num_warmup_replicas matches Some(n) ==> n >= 0)
    &&& (tuning.streams_group_acceptable_recovery_lag matches Some(n) ==> n >= 0)
    &&& is_positive(tuning.streams_group_task_offset_interval)
}

proof fn lemma_streams_group_valid(tuning: BrokerTuning, snapshot_fetch: Result<(), String>)
    ensures
        first(streams_group_found(tuning, snapshot_fetch)) is None
            <==> streams_group_valid(tuning, snapshot_fetch),
{
    let findings = streams_group_found(tuning, snapshot_fetch);
    lemma_first_of_none(findings);
    assert(findings.len() == 10) by {
        reveal(streams_group_found);
    }
    assert(findings[0] is None <==> true) by {
        reveal(streams_group_found);
        
    }
    assert(findings[1] is None <==> is_positive(tuning.streams_group_session_timeout)) by {
        reveal(streams_group_found);
        lemma_time_is_valid(
            "streams_group_session_timeout"@,
            tuning.streams_group_session_timeout,
            0,
        );
    }
    assert(findings[2] is None <==> is_positive(tuning.streams_group_heartbeat_interval)) by {
        reveal(streams_group_found);
        lemma_time_is_valid(
            "streams_group_heartbeat_interval"@,
            tuning.streams_group_heartbeat_interval,
            0,
        );
    }
    assert(findings[3] is None <==> (tuning.streams_group_max_size matches Some(n) ==> n > 0)) by {
        reveal(streams_group_found);
        reveal(count_above_zero);
    }
    assert(
        findings[4] is None
            <==> (tuning.streams_internal_topic_replication_factor matches Some(n) ==> n > 0)
    ) by {
        reveal(streams_group_found);
        reveal(count_above_zero);
    }
    assert(
        findings[5] is None
            <==> (tuning.streams_group_num_standby_replicas matches Some(n) ==> n >= 0)
    ) by {
        reveal(streams_group_found);
        reveal(count_from_zero);
    }
    assert(
        findings[6] is None
            <==> (tuning.streams_group_num_warmup_replicas matches Some(n) ==> n >= 0)
    ) by {
        reveal(streams_group_found);
        reveal(count_from_zero);
    }
    assert(
        findings[7] is None
            <==> (tuning.streams_group_acceptable_recovery_lag matches Some(n) ==> n >= 0)
    ) by {
        reveal(streams_group_found);
        reveal(count_from_zero);
    }
    assert(findings[8] is None <==> is_positive(tuning.streams_group_task_offset_interval)) by {
        reveal(streams_group_found);
        lemma_time_is_valid(
            "streams_group_task_offset_interval"@,
            tuning.streams_group_task_offset_interval,
            0,
        );
    }
    assert(findings[9] is None <==> true) by {
        reveal(streams_group_found);
        
    }
    assert forall|i: int| streams_group_valid(tuning, snapshot_fetch) && 0 <= i
        < findings.len() implies #[trigger] findings[i] is None by {
        assert(
            i == 0 || i == 1 || i == 2 || i == 3 || i == 4 || i == 5 || i == 6 || i == 7 || i == 8
                || i == 9
        );
    }
}

/// The number of an extent that is set, or else of so many milliseconds.
pub open spec fn number_of_secs(setting: Option<Setting<Time>>, default: int) -> int {
    secs(setting, default).value()
}

/// The number of a byte count that is set, or else of so many bytes.
pub open spec fn number_of_bytes(setting: Option<Setting<ByteSize>>, default: int) -> int {
    bytes(setting, default).value()
}

/// An extent that is set counts with its own number of seconds, and one that is absent
/// with the default. The same holds of byte counts.
pub proof fn lemma_numbers(
    time: Option<Setting<Time>>,
    millis: int,
    size: Option<Setting<ByteSize>>,
    count: int,
)
    ensures
        time matches Some(setting) ==> number_of_secs(time, millis) == setting.value.secs.value(),
        time is None ==> number_of_secs(time, millis) == Time::of_millis(millis).secs.value(),
        size matches Some(setting) ==> number_of_bytes(size, count) == setting.value.bytes.value(),
        size is None ==> number_of_bytes(size, count) == ByteSize::of_bytes(count).bytes.value(),
{
    reveal(secs);
    reveal(bytes);
}

/// Whether the fields fit together.
pub open spec fn fits(tuning: BrokerTuning) -> bool {
    &&& number_of_secs(tuning.self_registration_backoff_min, 100)
        <= number_of_secs(tuning.self_registration_backoff_max, 5_000)
    &&& number_of_secs(tuning.rlmm_bootstrap_backoff_initial, 250)
        <= number_of_secs(tuning.rlmm_bootstrap_backoff_max, 10_000)
    &&& number_of_bytes(tuning.replication_fetch_min, 1)
        <= number_of_bytes(tuning.replication_fetch_max, 1_048_576)
    &&& number_of_secs(tuning.replication_reconnect_initial_delay, 100)
        <= number_of_secs(tuning.replication_reconnect_delay_cap, 5_000)
    &&& number_of_secs(tuning.heartbeat_interval, 3_000)
        < number_of_secs(tuning.heartbeat_timeout, 9_000)
    &&& number_of_secs(tuning.controller_heartbeat_interval, 500)
        < number_of_secs(tuning.controller_election_timeout, 5_000)
    &&& number_of_secs(tuning.delegation_token_default_renew_period, 86_400_000)
        <= number_of_secs(tuning.delegation_token_max_lifetime, 604_800_000)
    &&& number_of_secs(tuning.client_metrics_eviction_tick, 60_000)
        <= number_of_secs(tuning.client_metrics_stale_floor, 600_000)
    &&& number_of_secs(tuning.unclean_recovery_aggressive_deadline, 2_000)
        <= number_of_secs(tuning.unclean_recovery_balanced_deadline, 30_000)
    &&& number_of_bytes(tuning.telemetry_decompressed_output_floor, 16_777_216)
        <= number_of_bytes(tuning.telemetry_decompressed_output_ceiling, 1_073_741_824)
    &&& number_of_secs(tuning.transaction_min_timeout, 1_000)
        < number_of_secs(tuning.transaction_max_timeout, 900_000)
    &&& number_of_secs(tuning.consumer_group_min_session_timeout, 45_000)
        <= number_of_secs(tuning.consumer_group_max_session_timeout, 60_000)
    &&& number_of_secs(tuning.consumer_group_min_session_timeout, 45_000)
        <= number_of_secs(tuning.consumer_group_session_timeout, 45_000)
        <= number_of_secs(tuning.consumer_group_max_session_timeout, 60_000)
    &&& number_of_secs(tuning.consumer_group_min_heartbeat_interval, 5_000)
        <= number_of_secs(tuning.consumer_group_max_heartbeat_interval, 15_000)
    &&& number_of_secs(tuning.consumer_group_min_heartbeat_interval, 5_000)
        <= number_of_secs(tuning.consumer_group_heartbeat_interval, 5_000)
        <= number_of_secs(tuning.consumer_group_max_heartbeat_interval, 15_000)
    &&& number_of_secs(None, 45_000) <= number_of_secs(tuning.share_group_session_timeout, 45_000)
        <= number_of_secs(None, 60_000)
    &&& number_of_secs(None, 5_000) <= number_of_secs(tuning.share_group_heartbeat_interval, 5_000)
        <= number_of_secs(None, 15_000)
    &&& number_of_secs(None, 45_000) <= number_of_secs(tuning.streams_group_session_timeout, 45_000)
        <= number_of_secs(None, 60_000)
    &&& number_of_secs(None, 5_000)
        <= number_of_secs(tuning.streams_group_heartbeat_interval, 5_000)
        <= number_of_secs(None, 15_000)
}

spec fn is_number(setting: Option<Setting<Time>>) -> bool {
    setting matches Some(setting) ==> !setting.value.secs.nan()
}

spec fn is_number_of_bytes(setting: Option<Setting<ByteSize>>) -> bool {
    setting matches Some(setting) ==> !setting.value.bytes.nan()
}

proof fn lemma_valid_is_number(
    time: Option<Setting<Time>>,
    max: int,
    size: Option<Setting<ByteSize>>,
    bound: int,
)
    ensures
        is_positive(time) ==> is_number(time),
        is_whole(time) ==> is_number(time),
        is_bounded(time, max) ==> is_number(time),
        is_counted(size, bound) ==> is_number_of_bytes(size),
{
    reveal(is_positive);
    reveal(is_whole);
    reveal(is_bounded);
    reveal(is_counted);
}

proof fn lemma_no_nan(
    time: Option<Setting<Time>>,
    millis: int,
    size: Option<Setting<ByteSize>>,
    count: int,
)
    requires
        is_number(time),
        is_number_of_bytes(size),
        0 <= millis <= 0x4_0000_0000_0000,
        0 <= count <= 0x10_0000_0000_0000,
    ensures
        !secs(time, millis).nan(),
        !bytes(size, count).nan(),
{
    reveal(secs);
    reveal(bytes);
    units::lemma_millis_round_trip(millis);
    units::lemma_bytes_round_trip(count);
}

proof fn lemma_relation_holds(left: Seq<char>, low: Binary64, right: Seq<char>, high: Binary64)
    requires
        !low.nan(),
        !high.nan(),
    ensures
        not_above(left, low, right, high) is None <==> low.value() <= high.value(),
        below(left, low, right, high) is None <==> low.value() < high.value(),
{
    reveal(not_above);
    reveal(below);
}

proof fn lemma_range_holds(
    field: Seq<char>,
    value: Binary64,
    min_field: Seq<char>,
    min: Binary64,
    max_field: Seq<char>,
    max: Binary64,
)
    requires
        !value.nan(),
        !min.nan(),
        !max.nan(),
    ensures
        between(field, value, min_field, min, max_field, max) is None <==> min.value()
            <= value.value() <= max.value(),
{
    reveal(between);
}

proof fn lemma_window_holds(field: Seq<char>, value: Binary64, min: int, max: int)
    requires
        !value.nan(),
        0 <= min <= 0x4_0000_0000_0000,
        0 <= max <= 0x4_0000_0000_0000,
    ensures
        within(field, value, min, max) is None <==> secs(None, min).value() <= value.value()
            <= secs(None, max).value(),
{
    reveal(within);
    reveal(secs);
    units::lemma_millis_round_trip(min);
    units::lemma_millis_round_trip(max);
}

spec fn limits_numbers(tuning: BrokerTuning) -> bool {
    &&& is_number(tuning.self_registration_backoff_min)
    &&& is_number(tuning.self_registration_backoff_max)
    &&& is_number(tuning.rlmm_bootstrap_backoff_initial)
    &&& is_number(tuning.rlmm_bootstrap_backoff_max)
    &&& is_number_of_bytes(tuning.replication_fetch_min)
    &&& is_number_of_bytes(tuning.replication_fetch_max)
    &&& is_number(tuning.replication_reconnect_initial_delay)
    &&& is_number(tuning.replication_reconnect_delay_cap)
    &&& is_number(tuning.heartbeat_interval)
    &&& is_number(tuning.heartbeat_timeout)
    &&& is_number(tuning.controller_heartbeat_interval)
    &&& is_number(tuning.controller_election_timeout)
    &&& is_number(tuning.delegation_token_default_renew_period)
    &&& is_number(tuning.delegation_token_max_lifetime)
    &&& is_number(tuning.client_metrics_eviction_tick)
    &&& is_number(tuning.client_metrics_stale_floor)
    &&& is_number(tuning.unclean_recovery_aggressive_deadline)
    &&& is_number(tuning.unclean_recovery_balanced_deadline)
    &&& is_number_of_bytes(tuning.telemetry_decompressed_output_floor)
    &&& is_number_of_bytes(tuning.telemetry_decompressed_output_ceiling)
}

spec fn limits_fit(tuning: BrokerTuning) -> bool {
    &&& number_of_secs(tuning.self_registration_backoff_min, 100)
        <= number_of_secs(tuning.self_registration_backoff_max, 5_000)
    &&& number_of_secs(tuning.rlmm_bootstrap_backoff_initial, 250)
        <= number_of_secs(tuning.rlmm_bootstrap_backoff_max, 10_000)
    &&& number_of_bytes(tuning.replication_fetch_min, 1)
        <= number_of_bytes(tuning.replication_fetch_max, 1_048_576)
    &&& number_of_secs(tuning.replication_reconnect_initial_delay, 100)
        <= number_of_secs(tuning.replication_reconnect_delay_cap, 5_000)
    &&& number_of_secs(tuning.heartbeat_interval, 3_000)
        < number_of_secs(tuning.heartbeat_timeout, 9_000)
    &&& number_of_secs(tuning.controller_heartbeat_interval, 500)
        < number_of_secs(tuning.controller_election_timeout, 5_000)
    &&& number_of_secs(tuning.delegation_token_default_renew_period, 86_400_000)
        <= number_of_secs(tuning.delegation_token_max_lifetime, 604_800_000)
    &&& number_of_secs(tuning.client_metrics_eviction_tick, 60_000)
        <= number_of_secs(tuning.client_metrics_stale_floor, 600_000)
    &&& number_of_secs(tuning.unclean_recovery_aggressive_deadline, 2_000)
        <= number_of_secs(tuning.unclean_recovery_balanced_deadline, 30_000)
    &&& number_of_bytes(tuning.telemetry_decompressed_output_floor, 16_777_216)
        <= number_of_bytes(tuning.telemetry_decompressed_output_ceiling, 1_073_741_824)
}

proof fn lemma_limits_fit(tuning: BrokerTuning, record_decompression: Result<(), String>)
    requires
        limits_numbers(tuning),
    ensures
        first(limits_found(tuning, record_decompression)) is None
            <==> limits_fit(tuning) && record_decompression is Ok,
        limits_fit(tuning) ==> first(limits_found(tuning, record_decompression))
            == record_decompression_finding(record_decompression),
{
    let findings = limits_found(tuning, record_decompression);
    lemma_first_of_none(findings);
    assert(findings.len() == 11) by {
        reveal(limits_found);
    }
    assert(findings[0] is None <==> {
        number_of_secs(tuning.self_registration_backoff_min, 100)
            <= number_of_secs(tuning.self_registration_backoff_max, 5_000)
    }) by {
        reveal(limits_found);
        lemma_no_nan(tuning.self_registration_backoff_min, 100, None, 0);
        lemma_no_nan(tuning.self_registration_backoff_max, 5_000, None, 0);
        lemma_relation_holds(
            "self_registration_backoff_min"@,
            secs(tuning.self_registration_backoff_min, 100),
            "self_registration_backoff_max"@,
            secs(tuning.self_registration_backoff_max, 5_000),
        );
    }
    assert(findings[1] is None <==> {
        number_of_secs(tuning.rlmm_bootstrap_backoff_initial, 250)
            <= number_of_secs(tuning.rlmm_bootstrap_backoff_max, 10_000)
    }) by {
        reveal(limits_found);
        lemma_no_nan(tuning.rlmm_bootstrap_backoff_initial, 250, None, 0);
        lemma_no_nan(tuning.rlmm_bootstrap_backoff_max, 10_000, None, 0);
        lemma_relation_holds(
            "rlmm_bootstrap_backoff_initial"@,
            secs(tuning.rlmm_bootstrap_backoff_initial, 250),
            "rlmm_bootstrap_backoff_max"@,
            secs(tuning.rlmm_bootstrap_backoff_max, 10_000),
        );
    }
    assert(findings[2] is None <==> {
        number_of_bytes(tuning.replication_fetch_min, 1)
            <= number_of_bytes(tuning.replication_fetch_max, 1_048_576)
    }) by {
        reveal(limits_found);
        lemma_no_nan(None, 0, tuning.replication_fetch_min, 1);
        lemma_no_nan(None, 0, tuning.replication_fetch_max, 1_048_576);
        lemma_relation_holds(
            "replication_fetch_min"@,
            bytes(tuning.replication_fetch_min, 1),
            "replication_fetch_max"@,
            bytes(tuning.replication_fetch_max, 1_048_576),
        );
    }
    assert(findings[3] is None <==> {
        number_of_secs(tuning.replication_reconnect_initial_delay, 100)
            <= number_of_secs(tuning.replication_reconnect_delay_cap, 5_000)
    }) by {
        reveal(limits_found);
        lemma_no_nan(tuning.replication_reconnect_initial_delay, 100, None, 0);
        lemma_no_nan(tuning.replication_reconnect_delay_cap, 5_000, None, 0);
        lemma_relation_holds(
            "replication_reconnect_initial_delay"@,
            secs(tuning.replication_reconnect_initial_delay, 100),
            "replication_reconnect_delay_cap"@,
            secs(tuning.replication_reconnect_delay_cap, 5_000),
        );
    }
    assert(findings[4] is None <==> {
        number_of_secs(tuning.heartbeat_interval, 3_000)
            < number_of_secs(tuning.heartbeat_timeout, 9_000)
    }) by {
        reveal(limits_found);
        lemma_no_nan(tuning.heartbeat_interval, 3_000, None, 0);
        lemma_no_nan(tuning.heartbeat_timeout, 9_000, None, 0);
        lemma_relation_holds(
            "heartbeat_interval"@,
            secs(tuning.heartbeat_interval, 3_000),
            "heartbeat_timeout"@,
            secs(tuning.heartbeat_timeout, 9_000),
        );
    }
    assert(findings[5] is None <==> {
        number_of_secs(tuning.controller_heartbeat_interval, 500)
            < number_of_secs(tuning.controller_election_timeout, 5_000)
    }) by {
        reveal(limits_found);
        lemma_no_nan(tuning.controller_heartbeat_interval, 500, None, 0);
        lemma_no_nan(tuning.controller_election_timeout, 5_000, None, 0);
        lemma_relation_holds(
            "controller_heartbeat_interval"@,
            secs(tuning.controller_heartbeat_interval, 500),
            "controller_election_timeout"@,
            secs(tuning.controller_election_timeout, 5_000),
        );
    }
    assert(findings[6] is None <==> {
        number_of_secs(tuning.delegation_token_default_renew_period, 86_400_000)
            <= number_of_secs(tuning.delegation_token_max_lifetime, 604_800_000)
    }) by {
        reveal(limits_found);
        lemma_no_nan(tuning.delegation_token_default_renew_period, 86_400_000, None, 0);
        lemma_no_nan(tuning.delegation_token_max_lifetime, 604_800_000, None, 0);
        lemma_relation_holds(
            "delegation_token_default_renew_period"@,
            secs(tuning.delegation_token_default_renew_period, 86_400_000),
            "delegation_token_max_lifetime"@,
            secs(tuning.delegation_token_max_lifetime, 604_800_000),
        );
    }
    assert(findings[7] is None <==> {
        number_of_secs(tuning.client_metrics_eviction_tick, 60_000)
            <= number_of_secs(tuning.client_metrics_stale_floor, 600_000)
    }) by {
        reveal(limits_found);
        lemma_no_nan(tuning.client_metrics_eviction_tick, 60_000, None, 0);
        lemma_no_nan(tuning.client_metrics_stale_floor, 600_000, None, 0);
        lemma_relation_holds(
            "client_metrics_eviction_tick"@,
            secs(tuning.client_metrics_eviction_tick, 60_000),
            "client_metrics_stale_floor"@,
            secs(tuning.client_metrics_stale_floor, 600_000),
        );
    }
    assert(findings[8] is None <==> {
        number_of_secs(tuning.unclean_recovery_aggressive_deadline, 2_000)
            <= number_of_secs(tuning.unclean_recovery_balanced_deadline, 30_000)
    }) by {
        reveal(limits_found);
        lemma_no_nan(tuning.unclean_recovery_aggressive_deadline, 2_000, None, 0);
        lemma_no_nan(tuning.unclean_recovery_balanced_deadline, 30_000, None, 0);
        lemma_relation_holds(
            "unclean_recovery_aggressive_deadline"@,
            secs(tuning.unclean_recovery_aggressive_deadline, 2_000),
            "unclean_recovery_balanced_deadline"@,
            secs(tuning.unclean_recovery_balanced_deadline, 30_000),
        );
    }
    assert(findings[9] is None <==> {
        number_of_bytes(tuning.telemetry_decompressed_output_floor, 16_777_216)
            <= number_of_bytes(tuning.telemetry_decompressed_output_ceiling, 1_073_741_824)
    }) by {
        reveal(limits_found);
        lemma_no_nan(None, 0, tuning.telemetry_decompressed_output_floor, 16_777_216);
        lemma_no_nan(None, 0, tuning.telemetry_decompressed_output_ceiling, 1_073_741_824);
        lemma_relation_holds(
            "telemetry_decompressed_output_floor"@,
            bytes(tuning.telemetry_decompressed_output_floor, 16_777_216),
            "telemetry_decompressed_output_ceiling"@,
            bytes(tuning.telemetry_decompressed_output_ceiling, 1_073_741_824),
        );
    }
    assert(findings[10] == record_decompression_finding(record_decompression)) by {
        reveal(limits_found);
    }
    assert(findings[10] is None <==> record_decompression is Ok) by {
        reveal(record_decompression_finding);
    }
    assert forall|i: int| limits_fit(tuning) && record_decompression is Ok && 0 <= i
        < findings.len() implies #[trigger] findings[i] is None by {
        assert(
            i == 0 || i == 1 || i == 2 || i == 3 || i == 4 || i == 5 || i == 6 || i == 7 || i == 8
                || i == 9 || i == 10
        );
    }
    if limits_fit(tuning) {
        assert forall|i: int| 0 <= i < findings.len() - 1 implies (
        #[trigger] findings.drop_last()[i]) is None by {
            assert(findings.drop_last()[i] == findings[i]);
            assert(
                i == 0 || i == 1 || i == 2 || i == 3 || i == 4 || i == 5 || i == 6 || i == 7
                    || i == 8 || i == 9
            );
        }
        lemma_first_of_none(findings.drop_last());
        let last = seq![findings[10]];
        assert(findings =~= findings.drop_last() + last);
        lemma_first_of_both(findings.drop_last(), last);
        assert(last.drop_first() =~= Seq::<Option<Seq<char>>>::empty());
        assert(first(last.drop_first()) is None);
        assert(first(last) == last[0]);
    }
}

spec fn timeouts_numbers(tuning: BrokerTuning) -> bool {
    &&& is_number(tuning.transaction_min_timeout)
    &&& is_number(tuning.transaction_max_timeout)
    &&& is_number(tuning.consumer_group_min_session_timeout)
    &&& is_number(tuning.consumer_group_max_session_timeout)
    &&& is_number(tuning.consumer_group_session_timeout)
    &&& is_number(tuning.consumer_group_min_heartbeat_interval)
    &&& is_number(tuning.consumer_group_max_heartbeat_interval)
    &&& is_number(tuning.consumer_group_heartbeat_interval)
    &&& is_number(tuning.share_group_session_timeout)
    &&& is_number(tuning.share_group_heartbeat_interval)
    &&& is_number(tuning.streams_group_session_timeout)
    &&& is_number(tuning.streams_group_heartbeat_interval)
}

spec fn timeouts_fit(tuning: BrokerTuning) -> bool {
    &&& number_of_secs(tuning.transaction_min_timeout, 1_000)
        < number_of_secs(tuning.transaction_max_timeout, 900_000)
    &&& number_of_secs(tuning.consumer_group_min_session_timeout, 45_000)
        <= number_of_secs(tuning.consumer_group_max_session_timeout, 60_000)
    &&& number_of_secs(tuning.consumer_group_min_session_timeout, 45_000)
        <= number_of_secs(tuning.consumer_group_session_timeout, 45_000)
        <= number_of_secs(tuning.consumer_group_max_session_timeout, 60_000)
    &&& number_of_secs(tuning.consumer_group_min_heartbeat_interval, 5_000)
        <= number_of_secs(tuning.consumer_group_max_heartbeat_interval, 15_000)
    &&& number_of_secs(tuning.consumer_group_min_heartbeat_interval, 5_000)
        <= number_of_secs(tuning.consumer_group_heartbeat_interval, 5_000)
        <= number_of_secs(tuning.consumer_group_max_heartbeat_interval, 15_000)
    &&& number_of_secs(None, 45_000) <= number_of_secs(tuning.share_group_session_timeout, 45_000)
        <= number_of_secs(None, 60_000)
    &&& number_of_secs(None, 5_000) <= number_of_secs(tuning.share_group_heartbeat_interval, 5_000)
        <= number_of_secs(None, 15_000)
    &&& number_of_secs(None, 45_000) <= number_of_secs(tuning.streams_group_session_timeout, 45_000)
        <= number_of_secs(None, 60_000)
    &&& number_of_secs(None, 5_000)
        <= number_of_secs(tuning.streams_group_heartbeat_interval, 5_000)
        <= number_of_secs(None, 15_000)
}

proof fn lemma_timeouts_fit(tuning: BrokerTuning)
    requires
        timeouts_numbers(tuning),
    ensures
        first(timeouts_found(tuning)) is None <==> timeouts_fit(tuning),
{
    let findings = timeouts_found(tuning);
    lemma_first_of_none(findings);
    assert(findings.len() == 9) by {
        reveal(timeouts_found);
    }
    assert(findings[0] is None <==> {
        number_of_secs(tuning.transaction_min_timeout, 1_000)
            < number_of_secs(tuning.transaction_max_timeout, 900_000)
    }) by {
        reveal(timeouts_found);
        lemma_no_nan(tuning.transaction_min_timeout, 1_000, None, 0);
        lemma_no_nan(tuning.transaction_max_timeout, 900_000, None, 0);
        lemma_relation_holds(
            "transaction_min_timeout"@,
            secs(tuning.transaction_min_timeout, 1_000),
            "transaction_max_timeout"@,
            secs(tuning.transaction_max_timeout, 900_000),
        );
    }
    assert(findings[1] is None <==> {
        number_of_secs(tuning.consumer_group_min_session_timeout, 45_000)
            <= number_of_secs(tuning.consumer_group_max_session_timeout, 60_000)
    }) by {
        reveal(timeouts_found);
        lemma_no_nan(tuning.consumer_group_min_session_timeout, 45_000, None, 0);
        lemma_no_nan(tuning.consumer_group_max_session_timeout, 60_000, None, 0);
        lemma_relation_holds(
            "consumer_group_min_session_timeout"@,
            secs(tuning.consumer_group_min_session_timeout, 45_000),
            "consumer_group_max_session_timeout"@,
            secs(tuning.consumer_group_max_session_timeout, 60_000),
        );
    }
    assert(findings[2] is None <==> {
        number_of_secs(tuning.consumer_group_min_session_timeout, 45_000)
            <= number_of_secs(tuning.consumer_group_session_timeout, 45_000)
        <= number_of_secs(tuning.consumer_group_max_session_timeout, 60_000)
    }) by {
        reveal(timeouts_found);
        lemma_no_nan(tuning.consumer_group_session_timeout, 45_000, None, 0);
        lemma_no_nan(tuning.consumer_group_min_session_timeout, 45_000, None, 0);
        lemma_no_nan(tuning.consumer_group_max_session_timeout, 60_000, None, 0);
        lemma_range_holds(
            "consumer_group_session_timeout"@,
            secs(tuning.consumer_group_session_timeout, 45_000),
            "consumer_group_min_session_timeout"@,
            secs(tuning.consumer_group_min_session_timeout, 45_000),
            "consumer_group_max_session_timeout"@,
            secs(tuning.consumer_group_max_session_timeout, 60_000),
        );
    }
    assert(findings[3] is None <==> {
        number_of_secs(tuning.consumer_group_min_heartbeat_interval, 5_000)
            <= number_of_secs(tuning.consumer_group_max_heartbeat_interval, 15_000)
    }) by {
        reveal(timeouts_found);
        lemma_no_nan(tuning.consumer_group_min_heartbeat_interval, 5_000, None, 0);
        lemma_no_nan(tuning.consumer_group_max_heartbeat_interval, 15_000, None, 0);
        lemma_relation_holds(
            "consumer_group_min_heartbeat_interval"@,
            secs(tuning.consumer_group_min_heartbeat_interval, 5_000),
            "consumer_group_max_heartbeat_interval"@,
            secs(tuning.consumer_group_max_heartbeat_interval, 15_000),
        );
    }
    assert(findings[4] is None <==> {
        number_of_secs(tuning.consumer_group_min_heartbeat_interval, 5_000)
            <= number_of_secs(tuning.consumer_group_heartbeat_interval, 5_000)
        <= number_of_secs(tuning.consumer_group_max_heartbeat_interval, 15_000)
    }) by {
        reveal(timeouts_found);
        lemma_no_nan(tuning.consumer_group_heartbeat_interval, 5_000, None, 0);
        lemma_no_nan(tuning.consumer_group_min_heartbeat_interval, 5_000, None, 0);
        lemma_no_nan(tuning.consumer_group_max_heartbeat_interval, 15_000, None, 0);
        lemma_range_holds(
            "consumer_group_heartbeat_interval"@,
            secs(tuning.consumer_group_heartbeat_interval, 5_000),
            "consumer_group_min_heartbeat_interval"@,
            secs(tuning.consumer_group_min_heartbeat_interval, 5_000),
            "consumer_group_max_heartbeat_interval"@,
            secs(tuning.consumer_group_max_heartbeat_interval, 15_000),
        );
    }
    assert(findings[5] is None <==> {
        number_of_secs(None, 45_000) <= number_of_secs(tuning.share_group_session_timeout, 45_000)
        <= number_of_secs(None, 60_000)
    }) by {
        reveal(timeouts_found);
        lemma_no_nan(tuning.share_group_session_timeout, 45_000, None, 0);
        lemma_window_holds(
            "share_group_session_timeout"@,
            secs(tuning.share_group_session_timeout, 45_000),
            45_000,
            60_000,
        );
    }
    assert(findings[6] is None <==> {
        number_of_secs(None, 5_000) <= number_of_secs(tuning.share_group_heartbeat_interval, 5_000)
        <= number_of_secs(None, 15_000)
    }) by {
        reveal(timeouts_found);
        lemma_no_nan(tuning.share_group_heartbeat_interval, 5_000, None, 0);
        lemma_window_holds(
            "share_group_heartbeat_interval"@,
            secs(tuning.share_group_heartbeat_interval, 5_000),
            5_000,
            15_000,
        );
    }
    assert(findings[7] is None <==> {
        number_of_secs(None, 45_000) <= number_of_secs(tuning.streams_group_session_timeout, 45_000)
        <= number_of_secs(None, 60_000)
    }) by {
        reveal(timeouts_found);
        lemma_no_nan(tuning.streams_group_session_timeout, 45_000, None, 0);
        lemma_window_holds(
            "streams_group_session_timeout"@,
            secs(tuning.streams_group_session_timeout, 45_000),
            45_000,
            60_000,
        );
    }
    assert(findings[8] is None <==> {
        number_of_secs(None, 5_000)
            <= number_of_secs(tuning.streams_group_heartbeat_interval, 5_000)
        <= number_of_secs(None, 15_000)
    }) by {
        reveal(timeouts_found);
        lemma_no_nan(tuning.streams_group_heartbeat_interval, 5_000, None, 0);
        lemma_window_holds(
            "streams_group_heartbeat_interval"@,
            secs(tuning.streams_group_heartbeat_interval, 5_000),
            5_000,
            15_000,
        );
    }
    assert forall|i: int| timeouts_fit(tuning) && 0 <= i
        < findings.len() implies #[trigger] findings[i] is None by {
        assert(
            i == 0 || i == 1 || i == 2 || i == 3 || i == 4 || i == 5 || i == 6 || i == 7 || i == 8
        );
    }
}

/// Whether each field has a valid value by itself.
pub open spec fn fields_valid(tuning: BrokerTuning, snapshot_fetch: Result<(), String>) -> bool {
    &&& startup_valid(tuning, snapshot_fetch)
    &&& client_metrics_valid(tuning, snapshot_fetch)
    &&& replication_valid(tuning, snapshot_fetch)
    &&& group_valid(tuning, snapshot_fetch)
    &&& capacity_valid(tuning, snapshot_fetch)
    &&& socket_valid(tuning, snapshot_fetch)
    &&& producer_valid(tuning, snapshot_fetch)
    &&& controller_valid(tuning, snapshot_fetch)
    &&& connection_valid(tuning, snapshot_fetch)
    &&& share_group_valid(tuning, snapshot_fetch)
    &&& streams_group_valid(tuning, snapshot_fetch)
}

/// Whether the strings have valid values.
pub open spec fn strings_valid(tuning: BrokerTuning, server_name: Result<(), String>) -> bool {
    &&& tuning.inter_broker_server_name is Some ==> server_name is Ok
    &&& tuning.share_group_isolation_level matches Some(level) ==> level@ == "read-uncommitted"@
        || level@ == "read-committed"@
    &&& tuning.streams_group_assignor matches Some(assignor) ==> assignor@ == "auto"@ || assignor@
        == "sticky"@ || assignor@ == "highly-available"@
}

proof fn lemma_fields_valid(tuning: BrokerTuning, snapshot_fetch: Result<(), String>)
    ensures
        first(fields_found(tuning, snapshot_fetch)) is None <==> fields_valid(
            tuning,
            snapshot_fetch,
        ),
{
    reveal(fields_found);
    lemma_startup_valid(tuning, snapshot_fetch);
    lemma_client_metrics_valid(tuning, snapshot_fetch);
    lemma_replication_valid(tuning, snapshot_fetch);
    lemma_group_valid(tuning, snapshot_fetch);
    lemma_capacity_valid(tuning, snapshot_fetch);
    lemma_socket_valid(tuning, snapshot_fetch);
    lemma_producer_valid(tuning, snapshot_fetch);
    lemma_controller_valid(tuning, snapshot_fetch);
    lemma_connection_valid(tuning, snapshot_fetch);
    lemma_share_group_valid(tuning, snapshot_fetch);
    lemma_streams_group_valid(tuning, snapshot_fetch);
    lemma_first_of_both(
        startup_found(tuning, snapshot_fetch),
        client_metrics_found(tuning, snapshot_fetch),
    );
    lemma_first_of_both(
        startup_found(tuning, snapshot_fetch) + client_metrics_found(tuning, snapshot_fetch),
        replication_found(tuning, snapshot_fetch),
    );
    lemma_first_of_both(
        startup_found(tuning, snapshot_fetch) + client_metrics_found(tuning, snapshot_fetch)
            + replication_found(tuning, snapshot_fetch),
        group_found(tuning, snapshot_fetch),
    );
    lemma_first_of_both(
        startup_found(tuning, snapshot_fetch) + client_metrics_found(tuning, snapshot_fetch)
            + replication_found(tuning, snapshot_fetch) + group_found(tuning, snapshot_fetch),
        capacity_found(tuning, snapshot_fetch),
    );
    lemma_first_of_both(
        startup_found(tuning, snapshot_fetch) + client_metrics_found(tuning, snapshot_fetch)
            + replication_found(tuning, snapshot_fetch) + group_found(tuning, snapshot_fetch)
            + capacity_found(tuning, snapshot_fetch),
        socket_found(tuning, snapshot_fetch),
    );
    lemma_first_of_both(
        startup_found(tuning, snapshot_fetch) + client_metrics_found(tuning, snapshot_fetch)
            + replication_found(tuning, snapshot_fetch) + group_found(tuning, snapshot_fetch)
            + capacity_found(tuning, snapshot_fetch) + socket_found(tuning, snapshot_fetch),
        producer_found(tuning, snapshot_fetch),
    );
    lemma_first_of_both(
        startup_found(tuning, snapshot_fetch) + client_metrics_found(tuning, snapshot_fetch)
            + replication_found(tuning, snapshot_fetch) + group_found(tuning, snapshot_fetch)
            + capacity_found(tuning, snapshot_fetch) + socket_found(tuning, snapshot_fetch)
            + producer_found(tuning, snapshot_fetch),
        controller_found(tuning, snapshot_fetch),
    );
    lemma_first_of_both(
        startup_found(tuning, snapshot_fetch) + client_metrics_found(tuning, snapshot_fetch)
            + replication_found(tuning, snapshot_fetch) + group_found(tuning, snapshot_fetch)
            + capacity_found(tuning, snapshot_fetch) + socket_found(tuning, snapshot_fetch)
            + producer_found(tuning, snapshot_fetch) + controller_found(tuning, snapshot_fetch),
        connection_found(tuning, snapshot_fetch),
    );
    lemma_first_of_both(
        startup_found(tuning, snapshot_fetch) + client_metrics_found(tuning, snapshot_fetch)
            + replication_found(tuning, snapshot_fetch) + group_found(tuning, snapshot_fetch)
            + capacity_found(tuning, snapshot_fetch) + socket_found(tuning, snapshot_fetch)
            + producer_found(tuning, snapshot_fetch) + controller_found(tuning, snapshot_fetch)
            + connection_found(tuning, snapshot_fetch),
        share_group_found(tuning, snapshot_fetch),
    );
    lemma_first_of_both(
        startup_found(tuning, snapshot_fetch) + client_metrics_found(tuning, snapshot_fetch)
            + replication_found(tuning, snapshot_fetch) + group_found(tuning, snapshot_fetch)
            + capacity_found(tuning, snapshot_fetch) + socket_found(tuning, snapshot_fetch)
            + producer_found(tuning, snapshot_fetch) + controller_found(tuning, snapshot_fetch)
            + connection_found(tuning, snapshot_fetch) + share_group_found(tuning, snapshot_fetch),
        streams_group_found(tuning, snapshot_fetch),
    );
}

proof fn lemma_strings_valid(tuning: BrokerTuning, server_name: Result<(), String>)
    ensures
        first(strings_found(tuning, server_name)) is None <==> strings_valid(tuning, server_name),
{
    lemma_string_findings(tuning, server_name);
}

proof fn lemma_valid_numbers(tuning: BrokerTuning, snapshot_fetch: Result<(), String>)
    requires
        fields_valid(tuning, snapshot_fetch),
    ensures
        limits_numbers(tuning),
        timeouts_numbers(tuning),
{
    lemma_valid_is_number(tuning.self_registration_backoff_min, 0, None, 0);
    lemma_valid_is_number(tuning.self_registration_backoff_max, 0, None, 0);
    lemma_valid_is_number(tuning.rlmm_bootstrap_backoff_initial, 0, None, 0);
    lemma_valid_is_number(tuning.rlmm_bootstrap_backoff_max, 0, None, 0);
    lemma_valid_is_number(None, 0, tuning.replication_fetch_min, 2_147_483_647);
    lemma_valid_is_number(None, 0, tuning.replication_fetch_max, 2_147_483_647);
    lemma_valid_is_number(tuning.replication_reconnect_initial_delay, 0, None, 0);
    lemma_valid_is_number(tuning.replication_reconnect_delay_cap, 0, None, 0);
    lemma_valid_is_number(tuning.heartbeat_interval, 0, None, 0);
    lemma_valid_is_number(tuning.heartbeat_timeout, 0, None, 0);
    lemma_valid_is_number(tuning.controller_heartbeat_interval, 0, None, 0);
    lemma_valid_is_number(tuning.controller_election_timeout, 0, None, 0);
    lemma_valid_is_number(tuning.delegation_token_default_renew_period, 0, None, 0);
    lemma_valid_is_number(tuning.delegation_token_max_lifetime, 0, None, 0);
    lemma_valid_is_number(tuning.client_metrics_eviction_tick, 0, None, 0);
    lemma_valid_is_number(tuning.client_metrics_stale_floor, 0, None, 0);
    lemma_valid_is_number(tuning.unclean_recovery_aggressive_deadline, 0, None, 0);
    lemma_valid_is_number(tuning.unclean_recovery_balanced_deadline, 0, None, 0);
    lemma_valid_is_number(None, 0, tuning.telemetry_decompressed_output_floor, usize::MAX as int);
    lemma_valid_is_number(None, 0, tuning.telemetry_decompressed_output_ceiling, usize::MAX as int);
    lemma_valid_is_number(tuning.transaction_min_timeout, 2_147_483_647, None, 0);
    lemma_valid_is_number(tuning.transaction_max_timeout, 2_147_483_646, None, 0);
    lemma_valid_is_number(tuning.consumer_group_min_session_timeout, 0, None, 0);
    lemma_valid_is_number(tuning.consumer_group_max_session_timeout, 0, None, 0);
    lemma_valid_is_number(tuning.consumer_group_session_timeout, 0, None, 0);
    lemma_valid_is_number(tuning.consumer_group_min_heartbeat_interval, 0, None, 0);
    lemma_valid_is_number(tuning.consumer_group_max_heartbeat_interval, 0, None, 0);
    lemma_valid_is_number(tuning.consumer_group_heartbeat_interval, 0, None, 0);
    lemma_valid_is_number(tuning.share_group_session_timeout, 0, None, 0);
    lemma_valid_is_number(tuning.share_group_heartbeat_interval, 0, None, 0);
    lemma_valid_is_number(tuning.streams_group_session_timeout, 0, None, 0);
    lemma_valid_is_number(tuning.streams_group_heartbeat_interval, 0, None, 0);
}

/// A tuning is valid exactly where each field that is set has a valid value, each string
/// is one of those that are expected, the fields fit together, and the limits for the
/// decompression of records do. Where they alone do not, the error is about them.
pub proof fn lemma_validity(
    tuning: BrokerTuning,
    snapshot_fetch: Result<(), String>,
    server_name: Result<(), String>,
    record_decompression: Result<(), String>,
    r: Result<(), String>,
)
    requires
        call_ensures(
            BrokerTuning::validate_given,
            (&tuning, &snapshot_fetch, &server_name, &record_decompression),
            r,
        ),
    ensures
        r is Ok <==> fields_valid(tuning, snapshot_fetch) && strings_valid(tuning, server_name)
            && fits(tuning) && record_decompression is Ok,
        fields_valid(tuning, snapshot_fetch) && strings_valid(tuning, server_name) && fits(tuning)
            && record_decompression is Err ==> r is Err && Some(r->Err_0@)
            == record_decompression_finding(record_decompression),
{
    let fields = fields_found(tuning, snapshot_fetch);
    let strings = strings_found(tuning, server_name);
    let relations = relations_found(tuning, record_decompression);
    lemma_findings(tuning, snapshot_fetch, server_name, record_decompression);
    lemma_first_of_both(fields + strings, relations);
    lemma_first_of_both(fields, strings);
    lemma_fields_valid(tuning, snapshot_fetch);
    lemma_strings_valid(tuning, server_name);
    if fields_valid(tuning, snapshot_fetch) {
        lemma_valid_numbers(tuning, snapshot_fetch);
        lemma_limits_fit(tuning, record_decompression);
        lemma_timeouts_fit(tuning);
        assert(first(relations) == report::or_else(
            first(limits_found(tuning, record_decompression)),
            first(timeouts_found(tuning)),
        )) by {
            reveal(relations_found);
            lemma_first_of_both(limits_found(tuning, record_decompression), timeouts_found(tuning));
        }
        assert(fits(tuning) <==> limits_fit(tuning) && timeouts_fit(tuning));
        assert(record_decompression is Err ==> record_decompression_finding(record_decompression)
            is Some) by {
            reveal(record_decompression_finding);
        }
    }
}

/// The validation of a tuning judges the name of the inter-broker server by itself: it is
/// valid unless it is empty.
pub proof fn lemma_validation(
    tuning: BrokerTuning,
    snapshot_fetch: Result<(), String>,
    record_decompression: Result<(), String>,
    r: Result<(), String>,
)
    requires
        call_ensures(
            BrokerTuning::validate,
            (&tuning, &snapshot_fetch, &record_decompression),
            r,
        ),
    ensures
        r is Ok <==> fields_valid(tuning, snapshot_fetch) && strings_valid(tuning, Ok(())) && (
        tuning.inter_broker_server_name matches Some(name) ==> name@.len() > 0) && fits(tuning)
            && record_decompression is Ok,
{
    let server_name = choose|server_name: Result<(), String>| #[trigger]
        tuning.judges_server_name(server_name) && report::reports(
            r,
            tuning.error(snapshot_fetch, server_name, record_decompression),
        );
    let fields = fields_found(tuning, snapshot_fetch);
    let strings = strings_found(tuning, server_name);
    let relations = relations_found(tuning, record_decompression);
    lemma_findings(tuning, snapshot_fetch, server_name, record_decompression);
    lemma_first_of_both(fields + strings, relations);
    lemma_first_of_both(fields, strings);
    lemma_fields_valid(tuning, snapshot_fetch);
    lemma_strings_valid(tuning, server_name);
    if fields_valid(tuning, snapshot_fetch) {
        lemma_valid_numbers(tuning, snapshot_fetch);
        lemma_limits_fit(tuning, record_decompression);
        lemma_timeouts_fit(tuning);
        reveal(relations_found);
        lemma_first_of_both(limits_found(tuning, record_decompression), timeouts_found(tuning));
        assert(fits(tuning) <==> limits_fit(tuning) && timeouts_fit(tuning));
    }
}

/// In a valid tuning, two fields that are both set are in their order: a minimum or an
/// initial value is not above its maximum, and an interval is below its timeout.
pub proof fn lemma_pairs_are_in_order(
    tuning: BrokerTuning,
    snapshot_fetch: Result<(), String>,
    record_decompression: Result<(), String>,
)
    requires
        call_ensures(
            BrokerTuning::validate,
            (&tuning, &snapshot_fetch, &record_decompression),
            Ok(()),
        ),
    ensures
        tuning.self_registration_backoff_min is Some && tuning.self_registration_backoff_max is Some
            ==> tuning.self_registration_backoff_min->0.value.secs.value()
            <= tuning.self_registration_backoff_max->0.value.secs.value(),
        tuning.rlmm_bootstrap_backoff_initial is Some && tuning.rlmm_bootstrap_backoff_max is Some
            ==> tuning.rlmm_bootstrap_backoff_initial->0.value.secs.value()
            <= tuning.rlmm_bootstrap_backoff_max->0.value.secs.value(),
        tuning.replication_fetch_min is Some && tuning.replication_fetch_max is Some
            ==> tuning.replication_fetch_min->0.value.bytes.value()
            <= tuning.replication_fetch_max->0.value.bytes.value(),
        tuning.replication_reconnect_initial_delay is Some
            && tuning.replication_reconnect_delay_cap is Some
            ==> tuning.replication_reconnect_initial_delay->0.value.secs.value()
            <= tuning.replication_reconnect_delay_cap->0.value.secs.value(),
        tuning.heartbeat_interval is Some && tuning.heartbeat_timeout is Some
            ==> tuning.heartbeat_interval->0.value.secs.value()
            < tuning.heartbeat_timeout->0.value.secs.value(),
        tuning.controller_heartbeat_interval is Some && tuning.controller_election_timeout is Some
            ==> tuning.controller_heartbeat_interval->0.value.secs.value()
            < tuning.controller_election_timeout->0.value.secs.value(),
        tuning.delegation_token_default_renew_period is Some
            && tuning.delegation_token_max_lifetime is Some
            ==> tuning.delegation_token_default_renew_period->0.value.secs.value()
            <= tuning.delegation_token_max_lifetime->0.value.secs.value(),
        tuning.client_metrics_eviction_tick is Some && tuning.client_metrics_stale_floor is Some
            ==> tuning.client_metrics_eviction_tick->0.value.secs.value()
            <= tuning.client_metrics_stale_floor->0.value.secs.value(),
        tuning.unclean_recovery_aggressive_deadline is Some
            && tuning.unclean_recovery_balanced_deadline is Some
            ==> tuning.unclean_recovery_aggressive_deadline->0.value.secs.value()
            <= tuning.unclean_recovery_balanced_deadline->0.value.secs.value(),
        tuning.telemetry_decompressed_output_floor is Some
            && tuning.telemetry_decompressed_output_ceiling is Some
            ==> tuning.telemetry_decompressed_output_floor->0.value.bytes.value()
            <= tuning.telemetry_decompressed_output_ceiling->0.value.bytes.value(),
        tuning.transaction_min_timeout is Some && tuning.transaction_max_timeout is Some
            ==> tuning.transaction_min_timeout->0.value.secs.value()
            < tuning.transaction_max_timeout->0.value.secs.value(),
        tuning.consumer_group_min_session_timeout is Some
            && tuning.consumer_group_max_session_timeout is Some
            ==> tuning.consumer_group_min_session_timeout->0.value.secs.value()
            <= tuning.consumer_group_max_session_timeout->0.value.secs.value(),
        tuning.consumer_group_min_heartbeat_interval is Some
            && tuning.consumer_group_max_heartbeat_interval is Some
            ==> tuning.consumer_group_min_heartbeat_interval->0.value.secs.value()
            <= tuning.consumer_group_max_heartbeat_interval->0.value.secs.value(),
{
    lemma_validation(tuning, snapshot_fetch, record_decompression, Ok(()));
    reveal(secs);
    reveal(bytes);
}

/// In a valid tuning, a field that is set alone is in order with the default of the other.
pub proof fn lemma_fields_are_in_order_with_defaults(
    tuning: BrokerTuning,
    snapshot_fetch: Result<(), String>,
    record_decompression: Result<(), String>,
)
    requires
        call_ensures(
            BrokerTuning::validate,
            (&tuning, &snapshot_fetch, &record_decompression),
            Ok(()),
        ),
    ensures
        tuning.self_registration_backoff_min is Some && tuning.self_registration_backoff_max is None
            ==> tuning.self_registration_backoff_min->0.value.secs.value()
                <= Time::of_millis(5_000).secs.value(),
        tuning.self_registration_backoff_min is None && tuning.self_registration_backoff_max is Some
            ==> Time::of_millis(100).secs.value()
                <= tuning.self_registration_backoff_max->0.value.secs.value(),
        tuning.rlmm_bootstrap_backoff_initial is Some && tuning.rlmm_bootstrap_backoff_max is None
            ==> tuning.rlmm_bootstrap_backoff_initial->0.value.secs.value()
                <= Time::of_millis(10_000).secs.value(),
        tuning.rlmm_bootstrap_backoff_initial is None && tuning.rlmm_bootstrap_backoff_max is Some
            ==> Time::of_millis(250).secs.value()
                <= tuning.rlmm_bootstrap_backoff_max->0.value.secs.value(),
        tuning.replication_fetch_min is Some && tuning.replication_fetch_max is None
            ==> tuning.replication_fetch_min->0.value.bytes.value()
                <= ByteSize::of_bytes(1_048_576).bytes.value(),
        tuning.replication_fetch_min is None && tuning.replication_fetch_max is Some
            ==> ByteSize::of_bytes(1).bytes.value()
                <= tuning.replication_fetch_max->0.value.bytes.value(),
        tuning.replication_reconnect_initial_delay is Some
            && tuning.replication_reconnect_delay_cap is None
            ==> tuning.replication_reconnect_initial_delay->0.value.secs.value()
                <= Time::of_millis(5_000).secs.value(),
        tuning.replication_reconnect_initial_delay is None
            && tuning.replication_reconnect_delay_cap is Some
            ==> Time::of_millis(100).secs.value()
                <= tuning.replication_reconnect_delay_cap->0.value.secs.value(),
        tuning.heartbeat_interval is Some && tuning.heartbeat_timeout is None
            ==> tuning.heartbeat_interval->0.value.secs.value()
                < Time::of_millis(9_000).secs.value(),
        tuning.heartbeat_interval is None && tuning.heartbeat_timeout is Some
            ==> Time::of_millis(3_000).secs.value()
                < tuning.heartbeat_timeout->0.value.secs.value(),
        tuning.controller_heartbeat_interval is Some && tuning.controller_election_timeout is None
            ==> tuning.controller_heartbeat_interval->0.value.secs.value()
                < Time::of_millis(5_000).secs.value(),
        tuning.controller_heartbeat_interval is None && tuning.controller_election_timeout is Some
            ==> Time::of_millis(500).secs.value()
                < tuning.controller_election_timeout->0.value.secs.value(),
        tuning.delegation_token_default_renew_period is Some
            && tuning.delegation_token_max_lifetime is None
            ==> tuning.delegation_token_default_renew_period->0.value.secs.value()
                <= Time::of_millis(604_800_000).secs.value(),
        tuning.delegation_token_default_renew_period is None
            && tuning.delegation_token_max_lifetime is Some
            ==> Time::of_millis(86_400_000).secs.value()
                <= tuning.delegation_token_max_lifetime->0.value.secs.value(),
        tuning.client_metrics_eviction_tick is Some && tuning.client_metrics_stale_floor is None
            ==> tuning.client_metrics_eviction_tick->0.value.secs.value()
                <= Time::of_millis(600_000).secs.value(),
        tuning.client_metrics_eviction_tick is None && tuning.client_metrics_stale_floor is Some
            ==> Time::of_millis(60_000).secs.value()
                <= tuning.client_metrics_stale_floor->0.value.secs.value(),
        tuning.unclean_recovery_aggressive_deadline is Some
            && tuning.unclean_recovery_balanced_deadline is None
            ==> tuning.unclean_recovery_aggressive_deadline->0.value.secs.value()
                <= Time::of_millis(30_000).secs.value(),
        tuning.unclean_recovery_aggressive_deadline is None
            && tuning.unclean_recovery_balanced_deadline is Some
            ==> Time::of_millis(2_000).secs.value()
                <= tuning.unclean_recovery_balanced_deadline->0.value.secs.value(),
        tuning.telemetry_decompressed_output_floor is Some
            && tuning.telemetry_decompressed_output_ceiling is None
            ==> tuning.telemetry_decompressed_output_floor->0.value.bytes.value()
                <= ByteSize::of_bytes(1_073_741_824).bytes.value(),
        tuning.telemetry_decompressed_output_floor is None
            && tuning.telemetry_decompressed_output_ceiling is Some
            ==> ByteSize::of_bytes(16_777_216).bytes.value()
                <= tuning.telemetry_decompressed_output_ceiling->0.value.bytes.value(),
        tuning.transaction_min_timeout is Some && tuning.transaction_max_timeout is None
            ==> tuning.transaction_min_timeout->0.value.secs.value()
                < Time::of_millis(900_000).secs.value(),
        tuning.transaction_min_timeout is None && tuning.transaction_max_timeout is Some
            ==> Time::of_millis(1_000).secs.value()
                < tuning.transaction_max_timeout->0.value.secs.value(),
        tuning.consumer_group_min_session_timeout is Some
            && tuning.consumer_group_max_session_timeout is None
            ==> tuning.consumer_group_min_session_timeout->0.value.secs.value()
                <= Time::of_millis(60_000).secs.value(),
        tuning.consumer_group_min_session_timeout is None
            && tuning.consumer_group_max_session_timeout is Some
            ==> Time::of_millis(45_000).secs.value()
                <= tuning.consumer_group_max_session_timeout->0.value.secs.value(),
        tuning.consumer_group_min_heartbeat_interval is Some
            && tuning.consumer_group_max_heartbeat_interval is None
            ==> tuning.consumer_group_min_heartbeat_interval->0.value.secs.value()
                <= Time::of_millis(15_000).secs.value(),
        tuning.consumer_group_min_heartbeat_interval is None
            && tuning.consumer_group_max_heartbeat_interval is Some
            ==> Time::of_millis(5_000).secs.value()
                <= tuning.consumer_group_max_heartbeat_interval->0.value.secs.value(),
        tuning.share_group_session_timeout matches Some(setting)
            ==> Time::of_millis(45_000).secs.value()
            <= setting.value.secs.value() <= Time::of_millis(60_000).secs.value(),
        tuning.share_group_heartbeat_interval matches Some(setting)
            ==> Time::of_millis(5_000).secs.value()
            <= setting.value.secs.value() <= Time::of_millis(15_000).secs.value(),
        tuning.streams_group_session_timeout matches Some(setting)
            ==> Time::of_millis(45_000).secs.value()
            <= setting.value.secs.value() <= Time::of_millis(60_000).secs.value(),
        tuning.streams_group_heartbeat_interval matches Some(setting)
            ==> Time::of_millis(5_000).secs.value()
            <= setting.value.secs.value() <= Time::of_millis(15_000).secs.value(),
{
    lemma_validation(tuning, snapshot_fetch, record_decompression, Ok(()));
    reveal(secs);
    reveal(bytes);
}

/// The validation of the strings by themselves accepts a server name that is not empty,
/// and a level and an assignor that are expected.
pub proof fn lemma_strings(tuning: BrokerTuning, r: Result<(), String>)
    requires
        call_ensures(BrokerTuning::validate_strings, (&tuning,), r),
    ensures
        r is Ok <==> strings_valid(tuning, Ok(())) && (
        tuning.inter_broker_server_name matches Some(name) ==> name@.len() > 0),
{
    let server_name = choose|server_name: Result<(), String>| #[trigger]
        tuning.judges_server_name(server_name) && report::reports(
            r,
            tuning.strings_error(server_name),
        );
    lemma_strings_valid(tuning, server_name);
    lemma_string_findings(tuning, server_name);
}

/// The validation of the relations by themselves reports the first that does not hold.
pub proof fn lemma_relations(
    tuning: BrokerTuning,
    record_decompression: Result<(), String>,
    r: Result<(), String>,
)
    requires
        call_ensures(BrokerTuning::validate_relations, (&tuning, &record_decompression), r),
    ensures
        report::reports(
            r,
            first(
                limits_findings(tuning, record_decompression) + timeouts_findings(tuning),
            ),
        ),
{
    lemma_relation_findings(tuning, record_decompression);
    reveal(relations_error);
    reveal(relations_found);
    reveal(limits_found);
    reveal(timeouts_found);
}

/// The limits for the decompression of records that are in force are those that are set,
/// and the defaults for the rest.
pub proof fn lemma_decompression_limits(
    tuning: BrokerTuning,
    defaults: RecordDecompressionLimits,
    r: RecordDecompressionLimits,
)
    requires
        call_ensures(BrokerTuning::record_decompression, (&tuning, defaults), r),
    ensures
        tuning.record_decompression_max_ratio matches Some(x) ==> r.max_ratio == x.value,
        tuning.record_decompression_max_ratio is None ==> r.max_ratio == defaults.max_ratio,
        tuning.record_decompression_output_floor matches Some(x) ==> r.output_floor == x.value,
        tuning.record_decompression_output_floor is None ==> r.output_floor
            == defaults.output_floor,
        tuning.record_decompression_output_ceiling matches Some(x) ==> r.output_ceiling
            == x.value,
        tuning.record_decompression_output_ceiling is None ==> r.output_ceiling
            == defaults.output_ceiling,
{
}

} // verus!
