//! What holds of every tuning of the brokers.

use crate::crd::broker_tuning;
use crate::crd::broker_tuning::{BrokerTuning, Field, Relation};
use crate::crd::report;
use crate::text;
use crate::units;
use crate::units::{ByteSize, Time};
use vstd::prelude::*;

verus! {

/// Whether none of the fields is set.
pub open spec fn absent(fields: Seq<Field<'_>>) -> bool {
    forall|i: int| 0 <= i < fields.len() ==> (#[trigger] fields[i]).toml() is None
}

proof fn lemma_absent_fields(fields: Seq<Field<'_>>, snapshot_fetch: Result<(), String>)
    requires
        absent(fields),
    ensures
        broker_tuning::first_error(fields, snapshot_fetch) is None,
        broker_tuning::lines(fields) == Seq::<char>::empty(),
    decreases fields.len(),
{
    if fields.len() > 0 {
        assert(fields[0].toml() is None);
        assert(fields.last().toml() is None);
        assert forall|i: int| 0 <= i < fields.len() - 1 implies (
        #[trigger] fields.drop_first()[i]).toml() is None by {
            assert(fields.drop_first()[i] == fields[i + 1]);
        }
        assert forall|i: int| 0 <= i < fields.len() - 1 implies (
        #[trigger] fields.drop_last()[i]).toml() is None by {
            assert(fields.drop_last()[i] == fields[i]);
        }
        lemma_absent_fields(fields.drop_first(), snapshot_fetch);
        lemma_absent_fields(fields.drop_last(), snapshot_fetch);
        assert(broker_tuning::lines(fields) =~= Seq::<char>::empty());
    }
}

proof fn lemma_join_absent(a: Seq<Field<'_>>, b: Seq<Field<'_>>)
    requires
        absent(a),
        absent(b),
    ensures
        absent(a + b),
{
    assert forall|i: int| 0 <= i < (a + b).len() implies (#[trigger] (a + b)[i]).toml() is None by {
        if i < a.len() {
            assert((a + b)[i] == a[i]);
        } else {
            assert((a + b)[i] == b[i - a.len()]);
        }
    }
}

proof fn lemma_no_startup_field(tuning: BrokerTuning)
    requires
        tuning.unset(),
    ensures
        absent(tuning.startup_fields()),
{
}

proof fn lemma_no_client_metrics_field(tuning: BrokerTuning)
    requires
        tuning.unset(),
    ensures
        absent(tuning.client_metrics_fields()),
{
}

proof fn lemma_no_replication_field(tuning: BrokerTuning)
    requires
        tuning.unset(),
    ensures
        absent(tuning.replication_fields()),
{
}

proof fn lemma_no_group_field(tuning: BrokerTuning)
    requires
        tuning.unset(),
    ensures
        absent(tuning.group_fields()),
{
}

proof fn lemma_no_capacity_field(tuning: BrokerTuning)
    requires
        tuning.unset(),
    ensures
        absent(tuning.capacity_fields()),
{
}

proof fn lemma_no_socket_field(tuning: BrokerTuning)
    requires
        tuning.unset(),
    ensures
        absent(tuning.socket_fields()),
{
}

proof fn lemma_no_producer_field(tuning: BrokerTuning)
    requires
        tuning.unset(),
    ensures
        absent(tuning.producer_fields()),
{
}

proof fn lemma_no_controller_field(tuning: BrokerTuning)
    requires
        tuning.unset(),
    ensures
        absent(tuning.controller_fields()),
{
}

proof fn lemma_no_connection_field(tuning: BrokerTuning)
    requires
        tuning.unset(),
    ensures
        absent(tuning.connection_fields()),
{
}

proof fn lemma_no_share_group_field(tuning: BrokerTuning)
    requires
        tuning.unset(),
    ensures
        absent(tuning.share_group_fields()),
{
}

proof fn lemma_no_streams_group_field(tuning: BrokerTuning)
    requires
        tuning.unset(),
    ensures
        absent(tuning.streams_group_fields()),
{
}

proof fn lemma_no_field(tuning: BrokerTuning)
    requires
        tuning.unset(),
    ensures
        absent(tuning.all_fields()),
{
    lemma_no_startup_field(tuning);
    lemma_no_client_metrics_field(tuning);
    lemma_no_replication_field(tuning);
    lemma_no_group_field(tuning);
    lemma_no_capacity_field(tuning);
    lemma_no_socket_field(tuning);
    lemma_no_producer_field(tuning);
    lemma_no_controller_field(tuning);
    lemma_no_connection_field(tuning);
    lemma_no_share_group_field(tuning);
    lemma_no_streams_group_field(tuning);
    let fields = tuning.startup_fields();
    lemma_join_absent(fields, tuning.client_metrics_fields());
    let fields = fields + tuning.client_metrics_fields();
    lemma_join_absent(fields, tuning.replication_fields());
    let fields = fields + tuning.replication_fields();
    lemma_join_absent(fields, tuning.group_fields());
    let fields = fields + tuning.group_fields();
    lemma_join_absent(fields, tuning.capacity_fields());
    let fields = fields + tuning.capacity_fields();
    lemma_join_absent(fields, tuning.socket_fields());
    let fields = fields + tuning.socket_fields();
    lemma_join_absent(fields, tuning.producer_fields());
    let fields = fields + tuning.producer_fields();
    lemma_join_absent(fields, tuning.controller_fields());
    let fields = fields + tuning.controller_fields();
    lemma_join_absent(fields, tuning.connection_fields());
    let fields = fields + tuning.connection_fields();
    lemma_join_absent(fields, tuning.share_group_fields());
    let fields = fields + tuning.share_group_fields();
    lemma_join_absent(fields, tuning.streams_group_fields());
    let fields = fields + tuning.streams_group_fields();
}

/// A tuning that sets no field has no table in the broker configuration.
pub proof fn lemma_unset_tuning_has_no_table(tuning: BrokerTuning)
    requires
        tuning.unset(),
    ensures
        tuning.runtime_toml() == Seq::<char>::empty(),
{
    lemma_no_field(tuning);
    lemma_absent_fields(tuning.all_fields(), Ok(()));
}

proof fn lemma_order(a: int, b: int)
    requires
        0 <= a <= b <= 0x4_0000_0000_0000,
    ensures
        !Time::of_millis(b).secs.below(Time::of_millis(a).secs),
        a < b ==> !Time::of_millis(b).secs.at_most(Time::of_millis(a).secs),
        Time::of_millis(a).secs.at_most(Time::of_millis(b).secs),
{
    units::lemma_millis_round_trip(a);
    if a < b {
        units::lemma_millis_keep_their_order(a, b);
    }
}

/// Two extents of milliseconds stand in the relation that their counts stand in.
proof fn lemma_times_hold(relation: Relation, a: int, b: int, verdict: Result<(), String>)
    requires
        0 <= a <= b <= 0x4_0000_0000_0000,
        match relation {
            Relation::AtMost { left, low, right, high } => low == Time::of_millis(a).secs && high
                == Time::of_millis(b).secs,
            Relation::Below { left, low, right, high } => a < b && low == Time::of_millis(a).secs
                && high == Time::of_millis(b).secs,
            Relation::Between { field, value, min_field, min, max_field, max } => value
                == Time::of_millis(a).secs && min == value && max == Time::of_millis(b).secs,
            Relation::Within { field, value, min_millis, max_millis } => value == Time::of_millis(
                a,
            ).secs && min_millis == a && max_millis == b,
            Relation::RecordDecompression => false,
        },
    ensures
        relation.error(verdict) is None,
{
    lemma_order(a, b);
    lemma_order(a, a);
}

proof fn lemma_sizes_hold(relation: Relation, a: int, b: int, verdict: Result<(), String>)
    requires
        0 <= a < b <= 0x10_0000_0000_0000,
        relation matches Relation::AtMost { left, low, right, high } && low == ByteSize::of_bytes(
            a,
        ).bytes && high == ByteSize::of_bytes(b).bytes,
    ensures
        relation.error(verdict) is None,
{
    units::lemma_bytes_keep_their_order(a, b);
}

proof fn lemma_default_limits_hold(tuning: BrokerTuning, record_decompression: Result<(), String>)
    requires
        tuning.unset(),
    ensures
        tuning.limit_relations().len() == 11,
        forall|i: int|
            0 <= i < 10 ==> (#[trigger] tuning.limit_relations()[i]).error(record_decompression)
                is None,
        tuning.limit_relations()[10] is RecordDecompression,
{
    let relations = tuning.limit_relations();
    lemma_times_hold(relations[0], 100, 5_000, record_decompression);
    lemma_times_hold(relations[1], 250, 10_000, record_decompression);
    lemma_sizes_hold(relations[2], 1, 1_048_576, record_decompression);
    lemma_times_hold(relations[3], 100, 5_000, record_decompression);
    lemma_times_hold(relations[4], 3_000, 9_000, record_decompression);
    lemma_times_hold(relations[5], 500, 5_000, record_decompression);
    lemma_times_hold(relations[6], 86_400_000, 604_800_000, record_decompression);
    lemma_times_hold(relations[7], 60_000, 600_000, record_decompression);
    lemma_times_hold(relations[8], 2_000, 30_000, record_decompression);
    lemma_sizes_hold(relations[9], 16_777_216, 1_073_741_824, record_decompression);
}

proof fn lemma_default_timeouts_hold(tuning: BrokerTuning, record_decompression: Result<(), String>)
    requires
        tuning.unset(),
    ensures
        forall|i: int|
            0 <= i < tuning.group_relations().len() ==> (
            #[trigger] tuning.group_relations()[i]).error(record_decompression) is None,
{
    let relations = tuning.group_relations();
    assert(relations.len() == 9);
    lemma_times_hold(relations[0], 1_000, 900_000, record_decompression);
    lemma_times_hold(relations[1], 45_000, 60_000, record_decompression);
    lemma_times_hold(relations[2], 45_000, 60_000, record_decompression);
    lemma_times_hold(relations[3], 5_000, 15_000, record_decompression);
    lemma_times_hold(relations[4], 5_000, 15_000, record_decompression);
    lemma_times_hold(relations[5], 45_000, 60_000, record_decompression);
    lemma_times_hold(relations[6], 5_000, 15_000, record_decompression);
    lemma_times_hold(relations[7], 45_000, 60_000, record_decompression);
    lemma_times_hold(relations[8], 5_000, 15_000, record_decompression);
}

/// A tuning that sets no field is valid: the defaults of the broker fit together.
/// What the broker says of its own limits for the decompression of records is the
/// one exception.
pub proof fn lemma_unset_tuning_is_valid(
    tuning: BrokerTuning,
    snapshot_fetch: Result<(), String>,
    server_name: Result<(), String>,
    record_decompression: Result<(), String>,
)
    requires
        tuning.unset(),
    ensures
        tuning.error(snapshot_fetch, server_name, record_decompression)
            == broker_tuning::record_decompression_error(record_decompression),
{
    lemma_no_field(tuning);
    lemma_absent_fields(tuning.all_fields(), snapshot_fetch);
    lemma_default_limits_hold(tuning, record_decompression);
    lemma_default_timeouts_hold(tuning, record_decompression);
    let limits = tuning.limit_relations();
    let first = limits.take(10);
    let middle = limits.skip(10);
    let last = tuning.group_relations();
    assert forall|i: int| 0 <= i < first.len() implies (#[trigger] first[i]).error(
        record_decompression,
    ) is None by {
        assert(first[i] == limits[i]);
    }
    lemma_first_broken(first, record_decompression);
    lemma_first_broken(last, record_decompression);
    lemma_broken_in_order(first, middle + last, record_decompression);
    lemma_broken_in_order(middle, last, record_decompression);
    assert(first + (middle + last) =~= tuning.all_relations());
    assert(middle[0] == limits[10]);
    assert(middle.drop_first() =~= Seq::<Relation>::empty());
    assert(broker_tuning::first_broken(middle.drop_first(), record_decompression) is None);
}

/// The first broken relation of one list and another after it is the first broken
/// one of the first list, if there is any.
pub proof fn lemma_broken_in_order(
    a: Seq<Relation>,
    b: Seq<Relation>,
    record_decompression: Result<(), String>,
)
    ensures
        broker_tuning::first_broken(a + b, record_decompression) == report::or_else(
            broker_tuning::first_broken(a, record_decompression),
            broker_tuning::first_broken(b, record_decompression),
        ),
    decreases a.len(),
{
    if a.len() == 0 {
        assert(a + b =~= b);
    } else {
        assert((a + b)[0] == a[0]);
        assert((a + b).drop_first() =~= a.drop_first() + b);
        lemma_broken_in_order(a.drop_first(), b, record_decompression);
    }
}

/// What is wrong with the fields of a tuning comes from one of them, and nothing is
/// wrong where nothing is wrong with any of them.
pub proof fn lemma_first_error(fields: Seq<Field<'_>>, snapshot_fetch: Result<(), String>)
    ensures
        broker_tuning::first_error(fields, snapshot_fetch) is None <==> forall|i: int|
            0 <= i < fields.len() ==> (#[trigger] fields[i]).error(snapshot_fetch) is None,
        broker_tuning::first_error(fields, snapshot_fetch) is Some ==> exists|i: int|
            0 <= i < fields.len() && (#[trigger] fields[i]).error(snapshot_fetch)
                == broker_tuning::first_error(fields, snapshot_fetch),
    decreases fields.len(),
{
    if fields.len() > 0 {
        let rest = fields.drop_first();
        lemma_first_error(rest, snapshot_fetch);
        assert forall|i: int| 0 <= i < rest.len() implies #[trigger] rest[i] == fields[i + 1] by {}
        if broker_tuning::first_error(fields, snapshot_fetch) is None {
            assert forall|i: int| 0 <= i < fields.len() implies (#[trigger] fields[i]).error(
                snapshot_fetch,
            ) is None by {
                if i > 0 {
                    assert(rest[i - 1] == fields[i]);
                }
            }
        } else if fields[0].error(snapshot_fetch) is None {
            let i = choose|i: int|
                0 <= i < rest.len() && (#[trigger] rest[i]).error(snapshot_fetch)
                    == broker_tuning::first_error(rest, snapshot_fetch);
            assert(fields[i + 1].error(snapshot_fetch) is Some);
        }
    }
}

/// What is wrong with the relations of a tuning comes from one of them, and nothing
/// is wrong where all of them hold.
pub proof fn lemma_first_broken(relations: Seq<Relation>, record_decompression: Result<(), String>)
    ensures
        broker_tuning::first_broken(relations, record_decompression) is None <==> forall|i: int|
            0 <= i < relations.len() ==> (#[trigger] relations[i]).error(record_decompression)
                is None,
        broker_tuning::first_broken(relations, record_decompression) is Some ==> exists|i: int|
            0 <= i < relations.len() && (#[trigger] relations[i]).error(record_decompression)
                == broker_tuning::first_broken(relations, record_decompression),
    decreases relations.len(),
{
    if relations.len() > 0 {
        let rest = relations.drop_first();
        lemma_first_broken(rest, record_decompression);
        assert forall|i: int| 0 <= i < rest.len() implies #[trigger] rest[i] == relations[i
            + 1] by {}
        if broker_tuning::first_broken(relations, record_decompression) is None {
            assert forall|i: int| 0 <= i < relations.len() implies (#[trigger] relations[i]).error(
                record_decompression,
            ) is None by {
                if i > 0 {
                    assert(rest[i - 1] == relations[i]);
                }
            }
        } else if relations[0].error(record_decompression) is None {
            let i = choose|i: int|
                0 <= i < rest.len() && (#[trigger] rest[i]).error(record_decompression)
                    == broker_tuning::first_broken(rest, record_decompression);
            assert(relations[i + 1].error(record_decompression) is Some);
        }
    }
}

/// A tuning is valid exactly where each field is valid, the strings are, and all
/// the relations hold.
pub proof fn lemma_valid_tuning(
    tuning: BrokerTuning,
    snapshot_fetch: Result<(), String>,
    server_name: Result<(), String>,
    record_decompression: Result<(), String>,
)
    ensures
        tuning.error(snapshot_fetch, server_name, record_decompression) is None <==> {
            &&& forall|i: int|
                0 <= i < tuning.all_fields().len() ==> (#[trigger] tuning.all_fields()[i]).error(
                    snapshot_fetch,
                ) is None
            &&& tuning.strings_error(server_name) is None
            &&& forall|i: int|
                0 <= i < tuning.all_relations().len() ==> (
                #[trigger] tuning.all_relations()[i]).error(record_decompression) is None
        },
{
    lemma_first_error(tuning.all_fields(), snapshot_fetch);
    lemma_first_broken(tuning.all_relations(), record_decompression);
}

/// Whether a message begins with the path of the tuning.
pub open spec fn names_the_tuning(message: Seq<char>) -> bool {
    text::begins_with(message, "spec.brokerTuning."@)
}

proof fn lemma_field_error_names_the_tuning(field: Field<'_>, snapshot_fetch: Result<(), String>)
    ensures
        field.error(snapshot_fetch) matches Some(message) ==> names_the_tuning(message),
{
    if let Some(message) = field.error(snapshot_fetch) {
        let prefix = "spec.brokerTuning."@;
        assert(message.take(prefix.len() as int) =~= prefix);
    }
}

proof fn lemma_relation_error_names_the_tuning(
    relation: Relation,
    record_decompression: Result<(), String>,
)
    ensures
        relation.error(record_decompression) matches Some(message) ==> names_the_tuning(message),
{
    if let Some(message) = relation.error(record_decompression) {
        let prefix = "spec.brokerTuning."@;
        assert(message.take(prefix.len() as int) =~= prefix);
    }
}

/// Whatever is wrong with a tuning, the message begins with the path of the tuning
/// in its resource.
#[verifier::rlimit(60)]
pub proof fn lemma_errors_name_the_tuning(
    tuning: BrokerTuning,
    snapshot_fetch: Result<(), String>,
    server_name: Result<(), String>,
    record_decompression: Result<(), String>,
)
    ensures
        tuning.error(snapshot_fetch, server_name, record_decompression) matches Some(message)
            ==> names_the_tuning(message),
{
    lemma_first_error(tuning.all_fields(), snapshot_fetch);
    lemma_first_broken(tuning.all_relations(), record_decompression);
    if broker_tuning::first_error(tuning.all_fields(), snapshot_fetch) is Some {
        let i = choose|i: int|
            0 <= i < tuning.all_fields().len() && (#[trigger] tuning.all_fields()[i]).error(
                snapshot_fetch,
            ) == broker_tuning::first_error(tuning.all_fields(), snapshot_fetch);
        lemma_field_error_names_the_tuning(tuning.all_fields()[i], snapshot_fetch);
    } else if let Some(message) = tuning.strings_error(server_name) {
        let prefix = "spec.brokerTuning."@;
        assert(message.take(prefix.len() as int) =~= prefix);
    } else if broker_tuning::first_broken(tuning.all_relations(), record_decompression) is Some {
        let i = choose|i: int|
            0 <= i < tuning.all_relations().len() && (#[trigger] tuning.all_relations()[i]).error(
                record_decompression,
            ) == broker_tuning::first_broken(tuning.all_relations(), record_decompression);
        lemma_relation_error_names_the_tuning(tuning.all_relations()[i], record_decompression);
    }
}

} // verus!
