use k8s_openapi::apimachinery::pkg::apis::meta::v1::ObjectMeta;
use k8s_openapi::jiff;
use krabka_operator::binary64::Binary64;
use krabka_operator::leader_election::{
    after_create, after_read, after_read_at, after_renewal, after_replace, claim, claim_at,
    held_by_us, is_claimable, is_claimable_at, is_expired, is_expired_at, is_vacant,
    lease_duration_seconds, overdue, release_outcome, release_update, released, renewal, renewal_at,
    renewal_task_failed, Answer, Attempt, Lease, LeaseSpec, Progress, Release, RenewError, Renewal,
    Timestamp,
};
use krabka_operator::units::{days, minutes, secs, Time};

const NAMESPACE: &str = "krabka-system";
const LEASE: &str = "krabka-operator-leader";

fn now() -> Timestamp {
    let now = jiff::Timestamp::now();
    Timestamp::new(now.as_second(), now.subsec_nanosecond()).unwrap()
}

fn at(second: i64) -> Timestamp {
    Timestamp::new(second, 0).unwrap()
}

fn metadata() -> ObjectMeta {
    ObjectMeta {
        name: Some(LEASE.into()),
        namespace: Some(NAMESPACE.into()),
        resource_version: Some("41".into()),
        ..Default::default()
    }
}

fn stored_lease(holder: Option<&str>, renew: Timestamp) -> Lease {
    Lease {
        metadata: metadata(),
        spec: Some(LeaseSpec {
            holder_identity: holder.map(Into::into),
            lease_duration_seconds: Some(15),
            acquire_time: Some(renew),
            renew_time: Some(renew),
            lease_transitions: Some(3),
            ..Default::default()
        }),
    }
}

fn lease_with(holder: &str, renew: Timestamp) -> Lease {
    Lease {
        metadata: ObjectMeta::default(),
        spec: Some(LeaseSpec {
            holder_identity: Some(holder.into()),
            lease_duration_seconds: Some(15),
            acquire_time: Some(renew),
            renew_time: Some(renew),
            lease_transitions: Some(1),
            ..Default::default()
        }),
    }
}

#[test]
fn release_clears_the_holder_only_with_an_unchanged_lease() {
    struct Case {
        name: &'static str,
        read: Option<Lease>,
        // The answer to the update, or none where there must be no update.
        update: Option<Answer>,
        outcome: Result<Release, u16>,
    }

    let renewed = at(1_800_000_000);
    let now = at(1_800_000_005);
    // The update that a release sends: no holder, a 1 s duration, both times at
    // `now`, and the resourceVersion and transition count of the read.
    let expected = Lease {
        metadata: metadata(),
        spec: Some(LeaseSpec {
            holder_identity: None,
            lease_duration_seconds: Some(1),
            acquire_time: Some(now),
            renew_time: Some(now),
            lease_transitions: Some(3),
            ..Default::default()
        }),
    };

    let cases = [
        Case {
            name: "holds the lease and releases it",
            read: Some(stored_lease(Some("me"), renewed)),
            update: Some(Answer::Accepted),
            outcome: Ok(Release::Released),
        },
        Case {
            name: "another replica took the lease",
            read: Some(stored_lease(Some("other"), renewed)),
            update: None,
            outcome: Ok(Release::NotHeld),
        },
        Case {
            name: "the lease has no holder",
            read: Some(stored_lease(None, renewed)),
            update: None,
            outcome: Ok(Release::NotHeld),
        },
        Case {
            name: "the lease was deleted",
            read: None,
            update: None,
            outcome: Ok(Release::NotHeld),
        },
        Case {
            name: "the lease changed between the read and the update",
            read: Some(stored_lease(Some("me"), renewed)),
            update: Some(Answer::Refused(409)),
            outcome: Ok(Release::Conflict),
        },
        Case {
            name: "the update fails for another reason",
            read: Some(stored_lease(Some("me"), renewed)),
            update: Some(Answer::Refused(500)),
            outcome: Err(500),
        },
    ];

    for case in cases {
        let name = case.name;
        let outcome = match release_update(&case.read, "me", now) {
            Err(release) => {
                assert!(case.update.is_none(), "{name}");
                Ok(release)
            }
            Ok(update) => {
                assert!(update == expected, "{name}");
                let answer = case.update.unwrap();
                match (release_outcome(answer), answer) {
                    (Some(release), _) => Ok(release),
                    (None, Answer::Refused(code)) => Err(code),
                    (None, _) => panic!("{name}: unexpected answer"),
                }
            }
        };
        assert!(outcome == case.outcome, "{name}");
    }
}

#[test]
fn only_a_vacant_or_expired_lease_is_claimable() {
    let fresh = now();
    let stale = at(fresh.as_second() - 60);
    let cases = [
        ("held and renewed", Some("other"), fresh, false),
        ("held and not renewed in time", Some("other"), stale, true),
        ("released, holder absent", None, fresh, true),
        ("released, holder empty", Some(""), fresh, true),
    ];
    for (name, holder, renew, claimable) in cases {
        let lease = stored_lease(holder, renew);
        assert!(is_claimable(&lease, secs(15)) == claimable, "{name}");
    }
}

#[test]
fn held_by_us_matches_identity() {
    let l = lease_with("me", now());
    assert!(held_by_us(&l, "me"));
    assert!(!held_by_us(&l, "someone-else"));
}

#[test]
fn expiry_uses_renew_time() {
    let stale = at(now().as_second() - 60);
    let fresh = now();
    assert!(is_expired(&lease_with("x", stale), secs(15)));
    assert!(!is_expired(&lease_with("x", fresh), secs(15)));
}

#[test]
fn expiry_uses_configured_fallback_when_lease_omits_duration() {
    let renew = at(now().as_second() - 20);
    let mut lease = lease_with("x", renew);
    lease.spec.as_mut().unwrap().lease_duration_seconds = None;
    assert!(!is_expired(&lease, secs(30)));
    assert!(is_expired(&lease, secs(10)));
}

#[test]
fn lease_duration_renders_as_whole_seconds() {
    // The k8s field is `Option<i32>` seconds; the extent narrows there and nowhere
    // else.
    assert!(lease_duration_seconds(secs(15)).unwrap() == 15);
    assert!(lease_duration_seconds(minutes(2)).unwrap() == 120);
    assert!(lease_duration_seconds(days(365 * 100)).is_err());
}

#[test]
fn claim_updates_owner_timestamps_and_transition_count() {
    let old = at(now().as_second() - 60);
    let mut lease = lease_with("old", old);
    claim(&mut lease, "new", 30);
    let spec = lease.spec.unwrap();
    assert!(spec.holder_identity.as_deref() == Some("new"));
    assert!(spec.lease_duration_seconds == Some(30));
    assert!(spec.lease_transitions == Some(2));
    assert!(spec.acquire_time == spec.renew_time);
    assert!(spec.renew_time.unwrap().as_second() > old.as_second());
}

#[test]
fn lease_duration_rounds_and_reports_the_range() {
    let half = Time {
        secs: Binary64 { bits: 2.5f64.to_bits() },
    };
    assert_eq!(lease_duration_seconds(half), Ok(3));
    assert_eq!(lease_duration_seconds(Time::from_secs(-15)), Ok(-15));
    assert_eq!(
        lease_duration_seconds(Time::from_secs(2_147_483_647)),
        Ok(2_147_483_647)
    );
    assert_eq!(
        lease_duration_seconds(Time::from_secs(2_147_483_648)),
        Err("out of range integral type conversion attempted".to_owned())
    );
    let nan = Time {
        secs: Binary64 { bits: f64::NAN.to_bits() },
    };
    assert_eq!(lease_duration_seconds(nan), Ok(0));
}

#[test]
fn timestamps_have_the_range_of_the_clock() {
    let max = jiff::Timestamp::MAX;
    let min = jiff::Timestamp::MIN;
    assert!(Timestamp::new(max.as_second(), max.subsec_nanosecond()).is_some());
    assert!(Timestamp::new(min.as_second(), min.subsec_nanosecond()).is_some());
    assert!(Timestamp::new(max.as_second() + 1, 0).is_none());
    assert!(Timestamp::new(min.as_second() - 1, 0).is_none());
    assert!(Timestamp::new(min.as_second(), -1).is_none());
    assert!(Timestamp::new(5, -1).is_none());
    assert!(Timestamp::new(-5, 1).is_none());
    assert!(Timestamp::new(5, 1_000_000_000).is_none());
    let t = Timestamp::new(-5, -7).unwrap();
    assert_eq!((t.as_second(), t.subsec_nanosecond()), (-5, -7));
    for (second, nanosecond) in [(0, 0), (0, -1), (7, 999_999_999), (-7, -1)] {
        let ours = Timestamp::new(second, nanosecond).unwrap();
        let theirs = jiff::Timestamp::new(second, nanosecond).unwrap();
        assert_eq!(ours.as_second(), theirs.as_second());
        assert_eq!(ours.subsec_nanosecond(), theirs.subsec_nanosecond());
    }
}

#[test]
fn a_lease_expires_after_its_last_second() {
    let renewed = at(1_000);
    let lease = lease_with("other", renewed);
    assert!(!is_expired_at(&lease, secs(1), at(1_015)));
    assert!(is_expired_at(&lease, secs(1), at(1_016)));
    // A clock that is behind does not make a lease expire.
    assert!(!is_expired_at(&lease, secs(1), at(900)));
    // The farthest instants do not overflow.
    let oldest = at(jiff::Timestamp::MIN.as_second());
    let newest = at(jiff::Timestamp::MAX.as_second());
    assert!(is_expired_at(&lease_with("other", oldest), secs(1), newest));
    assert!(!is_expired_at(&lease_with("other", newest), secs(1), oldest));
}

#[test]
fn a_lease_that_says_nothing_is_claimable() {
    let bare = Lease {
        metadata: ObjectMeta::default(),
        spec: None,
    };
    assert!(is_vacant(&bare));
    assert!(is_expired_at(&bare, secs(15), at(0)));
    let mut lease = lease_with("other", at(0));
    lease.spec.as_mut().unwrap().renew_time = None;
    assert!(!is_vacant(&lease));
    assert!(is_claimable_at(&lease, secs(15), at(0)));
}

#[test]
fn a_replica_creates_a_missing_lease() {
    let attempt = after_read_at(LEASE, None, "me", secs(15), 15, at(7), at(8));
    let expected = LeaseSpec {
        holder_identity: Some("me".into()),
        lease_duration_seconds: Some(15),
        acquire_time: Some(at(7)),
        renew_time: Some(at(8)),
        lease_transitions: Some(1),
        ..Default::default()
    };
    assert_eq!(
        attempt,
        Attempt::Create {
            name: LEASE.into(),
            spec: expected,
        }
    );
    assert_eq!(after_create(Answer::Accepted), Progress::Acquired);
    assert_eq!(after_create(Answer::Refused(409)), Progress::ReadAgain);
    assert_eq!(after_create(Answer::Refused(500)), Progress::GiveUp);
    assert_eq!(after_create(Answer::Failed), Progress::GiveUp);
    match after_read(LEASE, None, "me", secs(15), 15) {
        Attempt::Create { name, spec } => {
            assert_eq!(name, LEASE);
            let second = spec.renew_time.unwrap().as_second();
            assert!((now().as_second() - second).abs() < 60);
        }
        other => panic!("{other:?}"),
    }
}

#[test]
fn a_replica_confirms_its_own_lease() {
    let lease = stored_lease(Some("me"), at(0));
    let attempt = after_read_at(LEASE, Some(lease), "me", secs(15), 15, at(1_000), at(1_000));
    assert_eq!(attempt, Attempt::Confirmed);
}

#[test]
fn a_replica_leaves_a_live_lease_alone() {
    for second in [100, 110, 115] {
        let lease = stored_lease(Some("other"), at(100));
        let attempt = after_read_at(LEASE, Some(lease), "me", secs(15), 15, at(second), at(second));
        assert_eq!(attempt, Attempt::Wait);
    }
}

#[test]
fn a_replica_takes_an_expired_lease_over() {
    let lease = stored_lease(Some("other"), at(100));
    let attempt = after_read_at(LEASE, Some(lease), "me", secs(15), 20, at(116), at(117));
    let mut expected = stored_lease(Some("me"), at(117));
    let spec = expected.spec.as_mut().unwrap();
    spec.lease_duration_seconds = Some(20);
    spec.lease_transitions = Some(4);
    assert_eq!(attempt, Attempt::Replace(expected));
    assert_eq!(after_replace(Answer::Accepted), Progress::Acquired);
    assert_eq!(after_replace(Answer::Refused(409)), Progress::Wait);
    assert_eq!(after_replace(Answer::Refused(500)), Progress::GiveUp);
    assert_eq!(after_replace(Answer::Failed), Progress::GiveUp);
}

#[test]
fn a_claim_by_the_holder_counts_no_transition() {
    let mut lease = stored_lease(Some("me"), at(100));
    lease.spec.as_mut().unwrap().strategy = Some("OldestEmulationVersion".into());
    claim_at(&mut lease, "me", 15, at(200));
    let spec = lease.spec.as_ref().unwrap();
    assert_eq!(spec.lease_transitions, Some(3));
    assert_eq!(spec.strategy.as_deref(), Some("OldestEmulationVersion"));
    assert_eq!(lease.metadata, metadata());
    claim_at(&mut lease, "other", 15, at(200));
    assert_eq!(lease.spec.unwrap().lease_transitions, Some(4));
}

#[test]
fn the_transition_count_does_not_overflow() {
    let mut lease = stored_lease(Some("other"), at(100));
    lease.spec.as_mut().unwrap().lease_transitions = Some(i32::MAX);
    claim_at(&mut lease, "me", 15, at(200));
    assert_eq!(lease.spec.unwrap().lease_transitions, Some(i32::MAX));
    let mut bare = Lease {
        metadata: metadata(),
        spec: None,
    };
    claim_at(&mut bare, "me", 15, at(200));
    assert_eq!(bare.spec.unwrap().lease_transitions, Some(1));
}

#[test]
fn a_released_lease_is_free_at_once() {
    let lease = stored_lease(Some("me"), at(100));
    let mut free = released(&lease, "me", at(101)).unwrap();
    assert!(is_vacant(&free));
    assert!(is_claimable_at(&free, secs(15), at(101)));
    assert!(!held_by_us(&free, "me"));
    assert_eq!(free.metadata, metadata());
    claim_at(&mut free, "other", 15, at(101));
    assert_eq!(free.spec.as_ref().unwrap().lease_transitions, Some(4));
    assert!(released(&free, "me", at(102)).is_none());
}

#[test]
fn a_renewal_keeps_the_holder() {
    let lease = stored_lease(Some("me"), at(100));
    let renewed = renewal_at(Some(lease), "me", 30, at(110)).unwrap();
    let spec = renewed.spec.as_ref().unwrap();
    assert_eq!(spec.holder_identity.as_deref(), Some("me"));
    assert_eq!(spec.lease_duration_seconds, Some(30));
    assert_eq!(spec.acquire_time, Some(at(100)));
    assert_eq!(spec.renew_time, Some(at(110)));
    assert_eq!(spec.lease_transitions, Some(3));
    assert_eq!(renewed.metadata, metadata());
    let renewed = renewal(Some(stored_lease(Some("me"), at(100))), "me", 30).unwrap();
    assert!(renewed.spec.unwrap().renew_time.unwrap().as_second() > 1_000);
}

#[test]
fn a_renewal_tells_why_leadership_is_lost() {
    assert_eq!(
        renewal(None, "me", 15),
        Err("lease was deleted".to_owned())
    );
    assert_eq!(
        renewal(Some(stored_lease(Some("other"), at(0))), "me", 15),
        Err("holder changed to other".to_owned())
    );
    assert_eq!(
        renewal(Some(stored_lease(None, at(0))), "me", 15),
        Err("holder changed to <none>".to_owned())
    );
    let bare = Lease {
        metadata: ObjectMeta::default(),
        spec: None,
    };
    assert_eq!(
        renewal(Some(bare), "me", 15),
        Err("holder changed to <none>".to_owned())
    );
}

#[test]
fn the_renewal_stops_when_the_lease_is_lost_or_overdue() {
    let late = secs(15);
    let early = Time::from_millis(14_999);
    assert_eq!(after_renewal("l", &Ok(()), late, secs(15)), Ok(Renewal::Renewed));
    let retry = Err(RenewError::Retry("timed out".into()));
    assert_eq!(after_renewal("l", &retry, early, secs(15)), Ok(Renewal::Retry));
    assert_eq!(
        after_renewal("l", &retry, late, secs(15)),
        Err("could not renew leader-election lease l before its deadline: timed out".to_owned())
    );
    let lost = Err(RenewError::Lost("lease was deleted".into()));
    assert_eq!(
        after_renewal("l", &lost, early, secs(15)),
        Err("lost leader-election lease l: lease was deleted".to_owned())
    );
    assert_eq!(
        renewal_task_failed("cancelled"),
        "leader-election renewal task failed: cancelled"
    );
}

#[test]
fn a_lease_without_a_duration_is_left_alone_for_the_configured_one() {
    for (second, attempt) in [(110, true), (115, true), (116, false)] {
        let mut lease = stored_lease(Some("other"), at(100));
        lease.spec.as_mut().unwrap().lease_duration_seconds = None;
        let got = after_read_at(LEASE, Some(lease), "me", secs(15), 15, at(second), at(second));
        assert_eq!(got == Attempt::Wait, attempt);
    }
}

#[test]
fn a_deadline_is_reached_with_the_lease_duration() {
    let of = |x: f64| Time {
        secs: Binary64 { bits: x.to_bits() },
    };
    for (elapsed, duration) in [
        (0.0, 15.0),
        (14.999, 15.0),
        (15.0, 15.0),
        (15.001, 15.0),
        (0.1, 0.1),
        (0.0, 0.0),
        (0.0, -1.0),
        (0.0, f64::NAN),
        (1.0, f64::INFINITY),
        (1.0, 1e30),
        (1.0, 1e19),
    ] {
        let limit = std::time::Duration::try_from_secs_f64(duration).unwrap_or_default();
        let expected = std::time::Duration::from_secs_f64(elapsed) >= limit;
        assert_eq!(overdue(of(elapsed), of(duration)), expected, "{elapsed} {duration}");
    }
}
