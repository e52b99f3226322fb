//! What holds of every lease that the replicas share.

use crate::binary64::{Binary64, SCALE};
use crate::leader_election;
use crate::leader_election::{
    after_create, after_read, after_read_at, after_renewal, after_replace, held_by_us,
    is_claimable, is_claimable_at, is_expired, is_expired_at, is_vacant, lease_duration_seconds,
    overdue, release_outcome, release_update, released, renewal, renewal_at, renewal_task_failed,
    Answer, Attempt, Lease, LeaseSpec, Progress, Release, RenewError, Renewal, Timestamp,
};
use crate::text;
use crate::units;
use crate::units::Time;
use vstd::arithmetic::power2::*;
use vstd::prelude::*;

verus! {

/// Whether the string `identity` stands as the holder in `lease`.
pub open spec fn names_holder(lease: Lease, identity: Seq<char>) -> bool {
    lease.spec matches Some(spec) && spec.holder_identity matches Some(holder) && holder@
        == identity
}

/// Whether no holder stands in `lease`, or an empty one does.
pub open spec fn names_nobody(lease: Lease) -> bool {
    lease.spec matches Some(spec) ==> (spec.holder_identity matches Some(holder) ==> holder@.len()
        == 0)
}

/// Whether more whole seconds than `lease` lasts have passed at `at` since its renewal.
/// A lease that was not renewed is over. A lease without a duration lasts for
/// `fallback`.
pub open spec fn ran_out(lease: Lease, fallback: Time, at: Timestamp) -> bool {
    lease.spec matches Some(spec) ==> (spec.renew_time matches Some(renewed) ==> {
        let passed = at.second() - renewed.second();
        match spec.lease_duration_seconds {
            Some(seconds) => passed > seconds,
            None => !fallback.secs.nan() && fallback.secs.value() < passed * pow2(SCALE as nat),
        }
    })
}

/// Whether the time of the renewal in `lease`, if any, is an instant.
pub open spec fn renewed_in_time(lease: Lease) -> bool {
    lease.spec matches Some(spec) ==> (spec.renew_time matches Some(renewed)
        ==> leader_election::valid_time(renewed))
}

proof fn lemma_ran_out(lease: Lease, fallback: Time, at: Timestamp)
    requires
        renewed_in_time(lease),
        leader_election::valid_time(at),
    ensures
        lease@.expired(fallback, at) <==> ran_out(lease, fallback, at),
{
    if let Some(spec) = lease.spec {
        if let Some(renewed) = spec.renew_time {
            let passed = at.second() - renewed.second();
            Binary64::lemma_small_integer_is_exact(passed);
            if let Some(seconds) = spec.lease_duration_seconds {
                leader_election::lemma_expiry_in_seconds(lease@, seconds, renewed, fallback, at);
            }
        }
    }
}

proof fn lemma_nobody(lease: Lease)
    ensures
        lease@.vacant() <==> names_nobody(lease),
{
    if let Some(spec) = lease.spec {
        if let Some(holder) = spec.holder_identity {
            assert(holder@.len() == 0 <==> holder@ =~= Seq::<char>::empty());
        }
    }
}

/// A replica takes a lease exactly where it is not the holder already, and the lease
/// has no holder or ran out. It confirms the lease exactly where it is the holder. It
/// waits exactly where another replica holds a lease that did not run out.
pub proof fn lemma_acquisition(
    name: &str,
    lease: Lease,
    identity: &str,
    lease_duration: Time,
    lease_duration_seconds: i32,
    first: Timestamp,
    second: Timestamp,
    r: Attempt,
)
    requires
        renewed_in_time(lease),
        leader_election::valid_time(first),
        call_ensures(
            after_read_at,
            (name, Some(lease), identity, lease_duration, lease_duration_seconds, first, second),
            r,
        ),
    ensures
        r is Confirmed <==> names_holder(lease, identity@),
        r is Replace <==> !names_holder(lease, identity@) && (names_nobody(lease) || ran_out(
            lease,
            lease_duration,
            first,
        )),
        r is Wait <==> !names_holder(lease, identity@) && !names_nobody(lease) && !ran_out(
            lease,
            lease_duration,
            first,
        ),
{
    lemma_ran_out(lease, lease_duration, first);
    lemma_nobody(lease);
}

/// The count of transitions after one more, which stays within an `i32`.
pub open spec fn counts_one_more(before: Lease, after: LeaseSpec) -> bool {
    let n: int = match before.spec {
        Some(spec) => match spec.lease_transitions {
            Some(n) => n as int,
            None => 0,
        },
        None => 0,
    };
    after.lease_transitions matches Some(m) && m == if n < 0x7fff_ffff {
        n + 1
    } else {
        0x7fff_ffff
    }
}

/// What a lease says beside its holder, its duration, its times and its transitions.
pub open spec fn same_rest(before: Lease, after: LeaseSpec) -> bool {
    match before.spec {
        Some(spec) => {
            &&& leader_election::optional(after.strategy) == leader_election::optional(
                spec.strategy,
            )
            &&& leader_election::optional(after.preferred_holder) == leader_election::optional(
                spec.preferred_holder,
            )
        },
        None => after.strategy is None && after.preferred_holder is None,
    }
}

/// The lease that a replica takes over names the replica, lasts as long as it asks for,
/// is acquired and renewed at the time of the claim, and counts one transition more. The
/// rest stays, and so does the metadata.
pub proof fn lemma_takeover(
    name: &str,
    lease: Lease,
    identity: &str,
    lease_duration: Time,
    lease_duration_seconds: i32,
    first: Timestamp,
    second: Timestamp,
    after: Lease,
)
    requires
        call_ensures(
            after_read_at,
            (name, Some(lease), identity, lease_duration, lease_duration_seconds, first, second),
            Attempt::Replace(after),
        ),
    ensures
        after.metadata == lease.metadata,
        after.spec matches Some(spec) && {
            &&& spec.holder_identity matches Some(holder) && holder@ == identity@
            &&& spec.lease_duration_seconds == Some(lease_duration_seconds)
            &&& spec.acquire_time == Some(second)
            &&& spec.renew_time == Some(second)
            &&& counts_one_more(lease, spec)
            &&& same_rest(lease, spec)
        },
{
    assert(after@.spec is Some);
    assert(after@.held_by(identity@));
}

/// Where there is no lease, a replica creates one, whatever the time. It names the
/// replica, lasts as long as the replica asks for, and counts the first transition.
pub proof fn lemma_creation(
    name: &str,
    identity: &str,
    lease_duration: Time,
    lease_duration_seconds: i32,
    first: Timestamp,
    second: Timestamp,
    r: Attempt,
)
    requires
        call_ensures(
            after_read_at,
            (name, None, identity, lease_duration, lease_duration_seconds, first, second),
            r,
        ),
    ensures
        r matches Attempt::Create { name: created, spec } && {
            &&& created@ == name@
            &&& spec.holder_identity matches Some(holder) && holder@ == identity@
            &&& spec.lease_duration_seconds == Some(lease_duration_seconds)
            &&& spec.acquire_time == Some(first)
            &&& spec.renew_time == Some(second)
            &&& spec.lease_transitions == Some(1i32)
            &&& spec.strategy is None
            &&& spec.preferred_holder is None
        },
{
}

/// A holder, and only a holder, releases a lease. The released lease names nobody,
/// lasts one second from then on, and keeps its count of transitions and its metadata.
pub proof fn lemma_release(
    lease: Lease,
    identity: &str,
    now: Timestamp,
    r: Option<Lease>,
)
    requires
        call_ensures(released, (&lease, identity, now), r),
    ensures
        r is Some <==> names_holder(lease, identity@),
        r matches Some(after) ==> {
            &&& after.metadata == lease.metadata
            &&& after.spec matches Some(spec) && {
                &&& spec.holder_identity is None
                &&& spec.lease_duration_seconds == Some(1i32)
                &&& spec.acquire_time == Some(now)
                &&& spec.renew_time == Some(now)
                &&& spec.lease_transitions == lease.spec->0.lease_transitions
                &&& same_rest(lease, spec)
            }
        },
{
    if let Some(after) = r {
        assert(after@.spec is Some);
        assert(after@ == lease@.released(now));
    }
}

/// The update of a release is the released lease. There is none where there is no lease,
/// and none where the replica is not the holder.
pub proof fn lemma_release_update(
    existing: Option<Lease>,
    identity: &str,
    now: Timestamp,
    r: Result<Lease, Release>,
)
    requires
        call_ensures(release_update, (&existing, identity, now), r),
    ensures
        r is Ok <==> (existing matches Some(lease) && names_holder(lease, identity@)),
        r matches Err(release) ==> release == Release::NotHeld,
        r matches Ok(after) ==> {
            &&& after.metadata == existing->0.metadata
            &&& names_nobody(after)
            &&& after.spec matches Some(spec) && {
                &&& spec.holder_identity is None
                &&& spec.lease_duration_seconds == Some(1i32)
                &&& spec.acquire_time == Some(now)
                &&& spec.renew_time == Some(now)
                &&& spec.lease_transitions == existing->0.spec->0.lease_transitions
                &&& same_rest(existing->0, spec)
            }
        },
{
    if let Ok(after) = r {
        assert(after@.spec is Some);
        assert(after@ == existing->0@.released(now));
    }
}

/// A standby replica takes a released lease on its next read, whenever that is. The
/// lease that it writes names it, and counts one transition more than before the
/// release.
pub proof fn lemma_released_lease_is_taken(
    lease: Lease,
    holder: &str,
    now: Timestamp,
    after: Lease,
    name: &str,
    identity: &str,
    lease_duration: Time,
    lease_duration_seconds: i32,
    first: Timestamp,
    second: Timestamp,
    r: Attempt,
)
    requires
        call_ensures(released, (&lease, holder, now), Some(after)),
        call_ensures(
            after_read_at,
            (name, Some(after), identity, lease_duration, lease_duration_seconds, first, second),
            r,
        ),
    ensures
        r matches Attempt::Replace(taken) && {
            &&& names_holder(taken, identity@)
            &&& counts_one_more(lease, taken.spec->0)
            &&& taken.metadata == lease.metadata
        },
{
    lemma_release(lease, holder, now, Some(after));
    lemma_nobody(after);
    if let Attempt::Replace(taken) = r {
        lemma_takeover(
            name,
            after,
            identity,
            lease_duration,
            lease_duration_seconds,
            first,
            second,
            taken,
        );
    }
}

/// Once a replica took a lease over, it finds itself the holder. Another replica waits
/// for as long as the lease lasts, and takes it from then on.
pub proof fn lemma_taken_lease_is_kept(
    name: &str,
    lease: Lease,
    identity: &str,
    lease_duration: Time,
    seconds: i32,
    first: Timestamp,
    second: Timestamp,
    taken: Lease,
    other: &str,
    third: Timestamp,
    fourth: Timestamp,
    r: Attempt,
)
    requires
        leader_election::valid_time(second),
        leader_election::valid_time(third),
        identity@.len() > 0,
        call_ensures(
            after_read_at,
            (name, Some(lease), identity, lease_duration, seconds, first, second),
            Attempt::Replace(taken),
        ),
        call_ensures(
            after_read_at,
            (name, Some(taken), other, lease_duration, seconds, third, fourth),
            r,
        ),
    ensures
        other@ == identity@ ==> r is Confirmed,
        other@ != identity@ && third.second() - second.second() <= seconds ==> r is Wait,
        other@ != identity@ && third.second() - second.second() > seconds ==> r is Replace,
{
    lemma_takeover(name, lease, identity, lease_duration, seconds, first, second, taken);
    lemma_acquisition(name, taken, other, lease_duration, seconds, third, fourth, r);
}

/// A holder, and only a holder, renews a lease. A renewal writes its own time and the
/// duration, and changes nothing else. Whoever is not the holder any more is told who
/// is, or that there is no lease.
pub proof fn lemma_renewal(
    existing: Option<Lease>,
    identity: &str,
    lease_duration_seconds: i32,
    now: Timestamp,
    r: Result<Lease, String>,
)
    requires
        call_ensures(renewal_at, (existing, identity, lease_duration_seconds, now), r),
    ensures
        r is Ok <==> (existing matches Some(lease) && names_holder(lease, identity@)),
        r matches Ok(after) ==> {
            let before = existing->0.spec->0;
            &&& after.metadata == existing->0.metadata
            &&& names_holder(after, identity@)
            &&& after.spec matches Some(spec) && {
                &&& spec.lease_duration_seconds == Some(lease_duration_seconds)
                &&& spec.renew_time == Some(now)
                &&& spec.acquire_time == before.acquire_time
                &&& spec.lease_transitions == before.lease_transitions
                &&& same_rest(existing->0, spec)
            }
        },
        r matches Err(reason) ==> reason@ == match existing {
            None => "lease was deleted"@,
            Some(lease) => "holder changed to "@ + (match lease.spec {
                Some(spec) => match spec.holder_identity {
                    Some(holder) => holder@,
                    None => "<none>"@,
                },
                None => "<none>"@,
            }),
        },
{
    if let Ok(after) = r {
        let lease = existing->0;
        assert(after@ == lease@.renewed(lease_duration_seconds, now));
        assert(after@.spec is Some);
        assert(after@.holder() == lease@.holder());
    }
}

/// After a renewal, another replica waits for as long as the lease lasts from the time
/// of the renewal on.
pub proof fn lemma_renewed_lease_is_kept(
    lease: Lease,
    identity: &str,
    seconds: i32,
    now: Timestamp,
    after: Lease,
    name: &str,
    other: &str,
    lease_duration: Time,
    first: Timestamp,
    second: Timestamp,
    r: Attempt,
)
    requires
        leader_election::valid_time(now),
        leader_election::valid_time(first),
        identity@.len() > 0,
        other@ != identity@,
        call_ensures(renewal_at, (Some(lease), identity, seconds, now), Ok(after)),
        call_ensures(
            after_read_at,
            (name, Some(after), other, lease_duration, seconds, first, second),
            r,
        ),
    ensures
        r is Wait <==> first.second() - now.second() <= seconds,
        r is Replace <==> first.second() - now.second() > seconds,
{
    lemma_renewal(Some(lease), identity, seconds, now, Ok(after));
    lemma_acquisition(name, after, other, lease_duration, seconds, first, second, r);
}

/// What a reading of the clock gave is an instant.
pub proof fn lemma_clock_gives_instants(t: Timestamp)
    requires
        leader_election::read_from_clock(t),
    ensures
        leader_election::valid_time(t),
{
    leader_election::lemma_reading_is_what_the_clock_gave(t);
}

/// A renewal that no time is given to writes a time that the clock gave, and is else the
/// renewal at that time.
pub proof fn lemma_renewal_reads_the_clock(
    existing: Option<Lease>,
    identity: &str,
    lease_duration_seconds: i32,
    r: Result<Lease, String>,
)
    requires
        call_ensures(renewal, (existing, identity, lease_duration_seconds), r),
    ensures
        r is Ok <==> (existing matches Some(lease) && names_holder(lease, identity@)),
        r matches Ok(after) ==> {
            let before = existing->0.spec->0;
            &&& after.metadata == existing->0.metadata
            &&& names_holder(after, identity@)
            &&& after.spec matches Some(spec) && {
                &&& spec.renew_time matches Some(now) && leader_election::read_from_clock(now)
                &&& spec.lease_duration_seconds == Some(lease_duration_seconds)
                &&& spec.acquire_time == before.acquire_time
                &&& spec.lease_transitions == before.lease_transitions
                &&& same_rest(existing->0, spec)
            }
        },
        r matches Err(reason) ==> reason@ == match existing {
            None => "lease was deleted"@,
            Some(lease) => "holder changed to "@ + (match lease.spec {
                Some(spec) => match spec.holder_identity {
                    Some(holder) => holder@,
                    None => "<none>"@,
                },
                None => "<none>"@,
            }),
        },
{
    if let Ok(after) = r {
        let lease = existing->0;
        let now = choose|now: Timestamp|
            leader_election::valid_time(now) && leader_election::read_from_clock(now) && after@
                == #[trigger] lease@.renewed(lease_duration_seconds, now);
        assert(after@ == lease@.renewed(lease_duration_seconds, now));
        assert(after@.spec is Some);
        assert(after@.holder() == lease@.holder());
    }
}

/// A replica that no time is given to judges a lease at a time that the clock gave, and
/// writes a time that the clock gave.
pub proof fn lemma_acquisition_reads_the_clock(
    name: &str,
    lease: Lease,
    identity: &str,
    lease_duration: Time,
    lease_duration_seconds: i32,
    r: Attempt,
)
    requires
        renewed_in_time(lease),
        call_ensures(
            after_read,
            (name, Some(lease), identity, lease_duration, lease_duration_seconds),
            r,
        ),
    ensures
        r is Confirmed <==> names_holder(lease, identity@),
        names_nobody(lease) && !names_holder(lease, identity@) ==> r is Replace,
        r matches Attempt::Replace(after) ==> {
            &&& names_holder(after, identity@)
            &&& after.metadata == lease.metadata
            &&& after.spec->0.renew_time matches Some(second) && leader_election::read_from_clock(
                second,
            )
            &&& after.spec->0.acquire_time == after.spec->0.renew_time
            &&& after.spec->0.lease_duration_seconds == Some(lease_duration_seconds)
            &&& counts_one_more(lease, after.spec->0)
            &&& same_rest(lease, after.spec->0)
            &&& !names_nobody(lease) ==> exists|first: Timestamp|
                leader_election::read_from_clock(first) && #[trigger] ran_out(
                    lease,
                    lease_duration,
                    first,
                )
        },
        r is Wait ==> exists|first: Timestamp|
            leader_election::read_from_clock(first) && !#[trigger] ran_out(
                lease,
                lease_duration,
                first,
            ),
{
    let (first, second) = choose|first: Timestamp, second: Timestamp|
        leader_election::valid_time(first) && leader_election::valid_time(second)
            && leader_election::read_from_clock(first) && leader_election::read_from_clock(second)
            && #[trigger] leader_election::attempts(
            r,
            name@,
            Some(lease@),
            identity@,
            lease_duration,
            lease_duration_seconds,
            first,
            second,
        );
    lemma_ran_out(lease, lease_duration, first);
    lemma_nobody(lease);
    if let Attempt::Replace(after) = r {
        assert(after@ == lease@.claimed(identity@, lease_duration_seconds, second));
        assert(after@.spec is Some);
        assert(after@.held_by(identity@));
    }
}

/// A replica that no time is given to creates a lease with times that the clock gave.
pub proof fn lemma_creation_reads_the_clock(
    name: &str,
    identity: &str,
    lease_duration: Time,
    lease_duration_seconds: i32,
    r: Attempt,
)
    requires
        call_ensures(
            after_read,
            (name, None, identity, lease_duration, lease_duration_seconds),
            r,
        ),
    ensures
        r matches Attempt::Create { name: created, spec } && {
            &&& created@ == name@
            &&& spec.holder_identity matches Some(holder) && holder@ == identity@
            &&& spec.lease_duration_seconds == Some(lease_duration_seconds)
            &&& spec.acquire_time matches Some(first) && leader_election::read_from_clock(first)
            &&& spec.renew_time matches Some(second) && leader_election::read_from_clock(second)
            &&& spec.lease_transitions == Some(1i32)
        },
{
}

/// The judgements of a lease say what it says: who holds it, whether nobody does, and
/// whether it ran out. It can be claimed where nobody holds it, and where it ran out.
pub proof fn lemma_judgements(
    lease: Lease,
    identity: &str,
    fallback: Time,
    now: Timestamp,
    held: bool,
    vacant: bool,
    expired: bool,
    claimable: bool,
)
    requires
        renewed_in_time(lease),
        leader_election::valid_time(now),
        call_ensures(held_by_us, (&lease, identity), held),
        call_ensures(is_vacant, (&lease,), vacant),
        call_ensures(is_expired_at, (&lease, fallback, now), expired),
        call_ensures(is_claimable_at, (&lease, fallback, now), claimable),
    ensures
        held <==> names_holder(lease, identity@),
        vacant <==> names_nobody(lease),
        expired <==> ran_out(lease, fallback, now),
        claimable <==> names_nobody(lease) || ran_out(lease, fallback, now),
{
    lemma_ran_out(lease, fallback, now);
    lemma_nobody(lease);
}

/// The judgements that no time is given to read the clock.
pub proof fn lemma_judgements_read_the_clock(
    lease: Lease,
    fallback: Time,
    expired: bool,
    claimable: bool,
)
    requires
        renewed_in_time(lease),
        call_ensures(is_expired, (&lease, fallback), expired),
        call_ensures(is_claimable, (&lease, fallback), claimable),
    ensures
        exists|now: Timestamp|
            leader_election::read_from_clock(now) && expired == #[trigger] ran_out(
                lease,
                fallback,
                now,
            ),
        exists|now: Timestamp|
            leader_election::read_from_clock(now) && claimable == (names_nobody(lease)
                || #[trigger] ran_out(lease, fallback, now)),
{
    lemma_nobody(lease);
    let now = choose|now: Timestamp|
        leader_election::valid_time(now) && leader_election::read_from_clock(now) && expired
            == #[trigger] lease@.expired(fallback, now);
    lemma_ran_out(lease, fallback, now);
    let now = choose|now: Timestamp|
        leader_election::valid_time(now) && leader_election::read_from_clock(now) && claimable
            == #[trigger] lease@.claimable(fallback, now);
    lemma_ran_out(lease, fallback, now);
}

/// A write that the API server accepts makes the replica the holder. A refusal with the
/// code of a conflict, and no other answer, sends it back to the lease: at once where
/// another replica created the lease first, and after a wait where the lease changed.
pub proof fn lemma_answers_to_an_acquisition(answer: Answer, created: Progress, replaced: Progress)
    requires
        call_ensures(after_create, (answer,), created),
        call_ensures(after_replace, (answer,), replaced),
    ensures
        created is Acquired <==> answer is Accepted,
        replaced is Acquired <==> answer is Accepted,
        created is ReadAgain <==> (answer matches Answer::Refused(code) && code == 409),
        replaced is Wait <==> (answer matches Answer::Refused(code) && code == 409),
        created is Acquired || created is ReadAgain || created is GiveUp,
        replaced is Acquired || replaced is Wait || replaced is GiveUp,
{
}

/// A release succeeds with its update, and a conflict leaves the lease to whoever wrote
/// it. Every other failure is an error.
pub proof fn lemma_answers_to_a_release(answer: Answer, r: Option<Release>)
    requires
        call_ensures(release_outcome, (answer,), r),
    ensures
        r == Some(Release::Released) <==> answer is Accepted,
        r == Some(Release::Conflict) <==> (answer matches Answer::Refused(code) && code == 409),
        r != Some(Release::NotHeld),
{
}

/// A positive lease duration of less than `2^64` seconds is over once the time since the
/// last renewal is as long. Any other is over at once.
pub proof fn lemma_deadline(elapsed: Time, lease_duration: Time, r: bool)
    requires
        call_ensures(overdue, (elapsed, lease_duration), r),
        !elapsed.secs.nan(),
        elapsed.secs.value() >= 0,
    ensures
        r <==> {
            ||| lease_duration.secs.nan()
            ||| lease_duration.secs.value() <= elapsed.secs.value()
            ||| lease_duration.secs.value() >= 0x1_0000_0000_0000_0000 * pow2(SCALE as nat)
        },
{
    Binary64::lemma_small_integer_is_exact(0);
    Binary64::lemma_power_of_64_is_exact();
}

/// A renewal that succeeded starts the deadline anew, and a lost lease ends the
/// leadership at once. A request that failed ends it exactly where the deadline is
/// reached.
pub proof fn lemma_after_renewal(
    name: &str,
    outcome: Result<(), RenewError>,
    elapsed: Time,
    lease_duration: Time,
    over: bool,
    r: Result<Renewal, String>,
)
    requires
        call_ensures(overdue, (elapsed, lease_duration), over),
        call_ensures(after_renewal, (name, &outcome, elapsed, lease_duration), r),
    ensures
        r == Ok::<Renewal, String>(Renewal::Renewed) <==> outcome is Ok,
        r == Ok::<Renewal, String>(Renewal::Retry) <==> !over && (outcome matches Err(
            RenewError::Retry(_),
        )),
        r is Err <==> (outcome matches Err(error) && (error is Lost || over)),
        outcome matches Err(RenewError::Lost(reason)) ==> r->Err_0@
            == "lost leader-election lease "@ + name@ + ": "@ + reason@,
        (outcome matches Err(RenewError::Retry(_))) && over ==> r->Err_0@
            == "could not renew leader-election lease "@ + name@ + " before its deadline: "@
            + outcome->Err_0->Retry_0@,
{
}

/// An extent is carried as the nearest whole number of seconds, and as the one farther
/// from zero where two are as near. It is refused exactly where that number is no `i32`.
pub proof fn lemma_duration_is_carried(extent: Time, r: Result<i32, String>)
    requires
        call_ensures(lease_duration_seconds, (extent,), r),
        !extent.secs.nan(),
    ensures
        ({
            let one = pow2(SCALE as nat) as int;
            let twice = 2 * extent.secs.value();
            &&& r is Ok <==> -0x1_0000_0001 * one < twice < 0xffff_ffff * one
            &&& r matches Ok(n) ==> {
                let off = twice - 2 * (n * one);
                &&& -one <= off <= one
                &&& off == one ==> twice < 0
                &&& off == -one ==> twice > 0
            }
        }),
        forall|n: i32| extent == #[trigger] Time::of_secs(n as int) ==> r == Ok::<i32, String>(n),
{
    assert forall|n: i32| extent == #[trigger] Time::of_secs(n as int) implies r == Ok::<
        i32,
        String,
    >(n) by {
        units::lemma_secs_round_trip(n as int);
    }
    extent.secs.lemma_nearest_integer();
    let one = pow2(SCALE as nat) as int;
    lemma_pow2_pos(SCALE as nat);
    let n = extent.secs.nearest_integer();
    let twice = 2 * extent.secs.value();
    if n > i32::MAX {
        assert(n * one >= 0x8000_0000 * one) by (nonlinear_arith)
            requires
                n >= 0x8000_0000,
                one > 0,
        ;
    } else if n < i32::MIN {
        assert(n * one <= -0x8000_0001 * one) by (nonlinear_arith)
            requires
                n <= -0x8000_0001,
                one > 0,
        ;
    } else {
        assert(-0x8000_0000 * one <= n * one <= 0x7fff_ffff * one) by (nonlinear_arith)
            requires
                -0x8000_0000 <= n <= 0x7fff_ffff,
                one > 0,
        ;
    }
}

/// The error of a renewal task that did not end by itself ends the message.
pub proof fn lemma_failed_task(error: &str, r: String)
    requires
        call_ensures(renewal_task_failed, (error,), r),
    ensures
        text::begins_with(r@, "leader-election renewal task failed: "@),
        text::ends_with(r@, error@),
{
    let start = "leader-election renewal task failed: "@;
    assert(r@.take(start.len() as int) =~= start);
    assert(r@.skip(r@.len() - error@.len()) =~= error@);
}

/// A claim names the replica, lasts as long as it asks for, and is acquired and renewed at
/// the time of the claim, whoever held the lease before. The rest of the lease stays, and
/// so does the metadata.
pub proof fn lemma_claim_writes(
    lease: Lease,
    identity: Seq<char>,
    lease_duration_seconds: i32,
    now: Timestamp,
)
    ensures
        ({
            let before = lease@.spec_or_empty();
            let after = lease@.claimed(identity, lease_duration_seconds, now);
            &&& after.metadata == lease.metadata
            &&& after.spec matches Some(spec) && {
                &&& spec.holder_identity == Some(identity)
                &&& spec.lease_duration_seconds == Some(lease_duration_seconds)
                &&& spec.acquire_time == Some(now)
                &&& spec.renew_time == Some(now)
                &&& spec.strategy == before.strategy
                &&& spec.preferred_holder == before.preferred_holder
                &&& names_holder(lease, identity) ==> spec.lease_transitions
                    == before.lease_transitions
                &&& !names_holder(lease, identity) ==> spec.lease_transitions is Some
                    && spec.lease_transitions->0 == if before.lease_transitions is None {
                    1
                } else if before.lease_transitions->0 == i32::MAX {
                    i32::MAX as int
                } else {
                    before.lease_transitions->0 + 1
                }
            }
        }),
{
}

/// What a lease says is what its parts say.
pub proof fn lemma_lease_says_what_its_parts_say(lease: Lease)
    ensures
        lease@.metadata == lease.metadata,
        lease@.spec is Some <==> lease.spec is Some,
        lease.spec matches Some(spec) ==> {
            let said = lease@.spec_or_empty();
            &&& said.holder_identity == leader_election::optional(spec.holder_identity)
            &&& said.lease_duration_seconds == spec.lease_duration_seconds
            &&& said.acquire_time == spec.acquire_time
            &&& said.renew_time == spec.renew_time
            &&& said.lease_transitions == spec.lease_transitions
            &&& said.strategy == leader_election::optional(spec.strategy)
            &&& said.preferred_holder == leader_election::optional(spec.preferred_holder)
        },
        lease.spec is None ==> lease@.spec_or_empty().holder_identity is None
            && lease@.spec_or_empty().renew_time is None
            && lease@.spec_or_empty().lease_transitions is None,
{
}

} // verus!
