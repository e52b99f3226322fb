//! Leader election over a Kubernetes lease.
//!
//! A replica reads the lease, decides what to write, and writes it with the
//! metadata that it read, so that the API server refuses a write that raced. The
//! decisions stand here. The requests stand with the caller, which hands back what
//! the API server answered.

use crate::binary64::{Binary64, BINADE, SCALE};
use crate::outside;
use crate::outside::clock;
use crate::text::same;
use crate::units::Time;
use k8s_openapi::apimachinery::pkg::apis::meta::v1::ObjectMeta;
use vstd::arithmetic::power2::*;
use vstd::prelude::*;
use vstd::string::*;

verus! {

/// An instant: a whole number of seconds from the Unix epoch, and a rest in
/// nanoseconds.
#[derive(Debug, Clone, Copy, PartialEq, Eq, Structural)]
pub struct Timestamp {
    second: i64,
    nanosecond: i32,
}

impl Timestamp {
    #[verifier::type_invariant]
    closed spec fn well_formed(self) -> bool {
        outside::instant(self.second as int, self.nanosecond as int)
    }

    /// The whole seconds from the Unix epoch.
    pub closed spec fn second(self) -> int {
        self.second as int
    }

    /// The rest in nanoseconds.
    pub closed spec fn nanosecond(self) -> int {
        self.nanosecond as int
    }

    /// The instant `second` seconds and `nanosecond` nanoseconds from the Unix
    /// epoch, if it is in range.
    pub fn new(second: i64, nanosecond: i32) -> (r: Option<Self>)
        ensures
            r is Some <==> outside::instant(second as int, nanosecond as int),
            r matches Some(t) ==> t.second() == second && t.nanosecond() == nanosecond,
    {
        if -377_705_023_201 <= second && second <= 253_402_207_200 && -999_999_999 <= nanosecond
            && nanosecond <= 999_999_999 && (second <= 0 || nanosecond >= 0) && (second >= 0
            || nanosecond <= 0) && (second != -377_705_023_201 || nanosecond == 0) {
            Some(Timestamp { second, nanosecond })
        } else {
            None
        }
    }

    /// The whole seconds from the Unix epoch.
    pub fn as_second(self) -> (r: i64)
        ensures
            r == self.second(),
            valid_time(self),
    {
        proof {
            use_type_invariant(&self);
        }
        self.second
    }

    /// The rest in nanoseconds.
    pub fn subsec_nanosecond(self) -> (r: i32)
        ensures
            r == self.nanosecond(),
            valid_time(self),
    {
        proof {
            use_type_invariant(&self);
        }
        self.nanosecond
    }

    /// The whole seconds from `earlier` to `self`.
    fn seconds_since(self, earlier: Self) -> (r: i64)
        ensures
            r == self.second() - earlier.second(),
    {
        proof {
            use_type_invariant(&self);
            use_type_invariant(&earlier);
        }
        self.second - earlier.second
    }
}

/// Whether `t` is an instant.
pub open spec fn valid_time(t: Timestamp) -> bool {
    outside::instant(t.second(), t.nanosecond())
}

/// Whether `t` is a time that a reading of the clock gave.
pub closed spec fn read_from_clock(t: Timestamp) -> bool {
    call_ensures(clock, (), (t.second, t.nanosecond))
}

/// The current time. It is an instant that the clock gave. Which one it is, the clock
/// decides.
fn now() -> (r: Timestamp)
    ensures
        valid_time(r),
        read_from_clock(r),
{
    let (second, nanosecond) = clock();
    Timestamp { second, nanosecond }
}

/// A time that a reading of the clock gave is an instant, and has the seconds and the
/// nanoseconds that the clock gave.
pub(crate) proof fn lemma_reading_is_what_the_clock_gave(t: Timestamp)
    requires
        read_from_clock(t),
    ensures
        valid_time(t),
        exists|reading: (i64, i32)| #[trigger]
            call_ensures(clock, (), reading) && t.second() == reading.0 && t.nanosecond()
                == reading.1,
{
    assert(call_ensures(clock, (), (t.second, t.nanosecond)));
}

/// The specification of a lease.
#[derive(Debug, Clone, PartialEq, Eq)]
pub struct LeaseSpec {
    pub holder_identity: Option<String>,
    pub lease_duration_seconds: Option<i32>,
    pub acquire_time: Option<Timestamp>,
    pub renew_time: Option<Timestamp>,
    pub lease_transitions: Option<i32>,
    pub strategy: Option<String>,
    pub preferred_holder: Option<String>,
}

/// What a lease specification says.
pub struct LeaseSpecView {
    pub holder_identity: Option<Seq<char>>,
    pub lease_duration_seconds: Option<i32>,
    pub acquire_time: Option<Timestamp>,
    pub renew_time: Option<Timestamp>,
    pub lease_transitions: Option<i32>,
    pub strategy: Option<Seq<char>>,
    pub preferred_holder: Option<Seq<char>>,
}

/// What an optional string says.
pub open spec fn optional(s: Option<String>) -> Option<Seq<char>> {
    match s {
        Some(s) => Some(s@),
        None => None,
    }
}

fn copy_of(s: &Option<String>) -> (r: Option<String>)
    ensures
        optional(r) == optional(*s),
{
    match s {
        Some(s) => Some(s.clone()),
        None => None,
    }
}

impl View for LeaseSpec {
    type V = LeaseSpecView;

    open spec fn view(&self) -> LeaseSpecView {
        LeaseSpecView {
            holder_identity: optional(self.holder_identity),
            lease_duration_seconds: self.lease_duration_seconds,
            acquire_time: self.acquire_time,
            renew_time: self.renew_time,
            lease_transitions: self.lease_transitions,
            strategy: optional(self.strategy),
            preferred_holder: optional(self.preferred_holder),
        }
    }
}

impl LeaseSpecView {
    /// A specification that says nothing.
    pub open spec fn empty() -> Self {
        LeaseSpecView {
            holder_identity: None,
            lease_duration_seconds: None,
            acquire_time: None,
            renew_time: None,
            lease_transitions: None,
            strategy: None,
            preferred_holder: None,
        }
    }

    /// The specification of a lease that `identity` creates.
    pub open spec fn created(
        identity: Seq<char>,
        lease_duration_seconds: i32,
        acquire_time: Timestamp,
        renew_time: Timestamp,
    ) -> Self {
        LeaseSpecView {
            holder_identity: Some(identity),
            lease_duration_seconds: Some(lease_duration_seconds),
            acquire_time: Some(acquire_time),
            renew_time: Some(renew_time),
            lease_transitions: Some(1),
            ..Self::empty()
        }
    }
}

impl Default for LeaseSpec {
    fn default() -> (r: Self)
        ensures
            r@ == LeaseSpecView::empty(),
    {
        LeaseSpec {
            holder_identity: None,
            lease_duration_seconds: None,
            acquire_time: None,
            renew_time: None,
            lease_transitions: None,
            strategy: None,
            preferred_holder: None,
        }
    }
}

/// A lease. The metadata holds the resource version, which makes a write that
/// raced fail.
#[derive(Debug, PartialEq)]
pub struct Lease {
    pub metadata: ObjectMeta,
    pub spec: Option<LeaseSpec>,
}

/// What a lease says.
pub struct LeaseView {
    pub metadata: ObjectMeta,
    pub spec: Option<LeaseSpecView>,
}

impl View for Lease {
    type V = LeaseView;

    open spec fn view(&self) -> LeaseView {
        LeaseView {
            metadata: self.metadata,
            spec: match self.spec {
                Some(spec) => Some(spec@),
                None => None,
            },
        }
    }
}

/// `n` plus one, or the largest `i32` where there is none above it.
pub open spec fn one_more(n: i32) -> i32 {
    if n < i32::MAX {
        (n + 1) as i32
    } else {
        n
    }
}

impl LeaseView {
    /// The specification, where an absent one says nothing.
    pub open spec fn spec_or_empty(self) -> LeaseSpecView {
        match self.spec {
            Some(spec) => spec,
            None => LeaseSpecView::empty(),
        }
    }

    /// The holder, if any.
    pub open spec fn holder(self) -> Option<Seq<char>> {
        self.spec_or_empty().holder_identity
    }

    /// Whether `identity` holds the lease.
    pub open spec fn held_by(self, identity: Seq<char>) -> bool {
        self.holder() == Some(identity)
    }

    /// Whether the lease has no holder. A released lease has none.
    pub open spec fn vacant(self) -> bool {
        self.holder() is None || self.holder() == Some(Seq::<char>::empty())
    }

    /// How long the lease lasts. `fallback` is for a lease that does not say.
    pub open spec fn duration(self, fallback: Time) -> Time {
        match self.spec_or_empty().lease_duration_seconds {
            Some(seconds) => Time::of_secs(seconds as int),
            None => fallback,
        }
    }

    /// Whether the holder did not renew the lease in time, seen at `now`.
    pub open spec fn expired(self, fallback: Time, now: Timestamp) -> bool {
        match self.spec_or_empty().renew_time {
            Some(renewed) => self.duration(fallback).secs.below(
                Time::of_secs(now.second() - renewed.second()).secs,
            ),
            None => true,
        }
    }

    /// Whether another replica can take the lease at `now`.
    pub open spec fn claimable(self, fallback: Time, now: Timestamp) -> bool {
        self.vacant() || self.expired(fallback, now)
    }

    /// The lease that `identity` claims at `now`.
    pub open spec fn claimed(
        self,
        identity: Seq<char>,
        lease_duration_seconds: i32,
        now: Timestamp,
    ) -> Self {
        let spec = self.spec_or_empty();
        LeaseView {
            spec: Some(
                LeaseSpecView {
                    holder_identity: Some(identity),
                    lease_duration_seconds: Some(lease_duration_seconds),
                    acquire_time: Some(now),
                    renew_time: Some(now),
                    lease_transitions: if self.held_by(identity) {
                        spec.lease_transitions
                    } else {
                        Some(
                            one_more(
                                match spec.lease_transitions {
                                    Some(n) => n,
                                    None => 0,
                                },
                            ),
                        )
                    },
                    ..spec
                },
            ),
            ..self
        }
    }

    /// The lease that its holder renews at `now`.
    pub open spec fn renewed(self, lease_duration_seconds: i32, now: Timestamp) -> Self {
        LeaseView {
            spec: Some(
                LeaseSpecView {
                    lease_duration_seconds: Some(lease_duration_seconds),
                    renew_time: Some(now),
                    ..self.spec_or_empty()
                },
            ),
            ..self
        }
    }

    /// The lease that its holder releases at `now`.
    pub open spec fn released(self, now: Timestamp) -> Self {
        LeaseView {
            spec: Some(
                LeaseSpecView {
                    holder_identity: None,
                    lease_duration_seconds: Some(1),
                    acquire_time: Some(now),
                    renew_time: Some(now),
                    ..self.spec_or_empty()
                },
            ),
            ..self
        }
    }
}

impl LeaseSpec {
    fn copy(&self) -> (r: Self)
        ensures
            r@ == self@,
    {
        LeaseSpec {
            holder_identity: copy_of(&self.holder_identity),
            lease_duration_seconds: self.lease_duration_seconds,
            acquire_time: self.acquire_time,
            renew_time: self.renew_time,
            lease_transitions: self.lease_transitions,
            strategy: copy_of(&self.strategy),
            preferred_holder: copy_of(&self.preferred_holder),
        }
    }

    /// The specification of a lease that `identity` creates.
    pub fn created(
        identity: &str,
        lease_duration_seconds: i32,
        acquire_time: Timestamp,
        renew_time: Timestamp,
    ) -> (r: Self)
        ensures
            r@ == LeaseSpecView::created(
                identity@,
                lease_duration_seconds,
                acquire_time,
                renew_time,
            ),
    {
        LeaseSpec {
            holder_identity: Some(identity.to_owned()),
            lease_duration_seconds: Some(lease_duration_seconds),
            acquire_time: Some(acquire_time),
            renew_time: Some(renew_time),
            lease_transitions: Some(1),
            strategy: None,
            preferred_holder: None,
        }
    }
}

/// The lease duration in whole seconds, as the lease carries it. An extent that
/// rounds to no `i32` is an error.
pub fn lease_duration_seconds(extent: Time) -> (r: Result<i32, String>)
    ensures
        ({
            let seconds = extent.secs.rounded(i64::MIN as int, i64::MAX as int);
            match r {
                Ok(n) => n == seconds,
                Err(message) => !(i32::MIN <= seconds <= i32::MAX) && message@
                    == "out of range integral type conversion attempted"@,
            }
        }),
{
    let seconds: i64 = extent.secs_i64();
    if i32::MIN as i64 <= seconds && seconds <= i32::MAX as i64 {
        Ok(seconds as i32)
    } else {
        Err(String::from_str("out of range integral type conversion attempted"))
    }
}

/// Whether `identity` holds `lease`.
pub fn held_by_us(lease: &Lease, identity: &str) -> (r: bool)
    ensures
        r == lease@.held_by(identity@),
{
    match &lease.spec {
        Some(spec) => match &spec.holder_identity {
            Some(holder) => same(holder.as_str(), identity),
            None => false,
        },
        None => false,
    }
}

/// Whether `lease` has no holder. A released lease has none.
pub fn is_vacant(lease: &Lease) -> (r: bool)
    ensures
        r == lease@.vacant(),
{
    match &lease.spec {
        Some(spec) => match &spec.holder_identity {
            Some(holder) => {
                assert(holder@.len() == 0 <==> holder@ =~= Seq::<char>::empty());
                holder.as_str().is_empty()
            },
            None => true,
        },
        None => true,
    }
}

/// Whether the holder of `lease` did not renew it in time, seen at `now`.
pub fn is_expired_at(lease: &Lease, fallback_duration: Time, now: Timestamp) -> (r: bool)
    ensures
        r == lease@.expired(fallback_duration, now),
{
    let spec = match &lease.spec {
        Some(spec) => spec,
        None => {
            return true;
        },
    };
    let renewed = match spec.renew_time {
        Some(renewed) => renewed,
        None => {
            return true;
        },
    };
    let lease_duration = match spec.lease_duration_seconds {
        Some(raw) => Time::from_secs(raw as i64),
        None => fallback_duration,
    };
    let elapsed = Time::from_secs(now.seconds_since(renewed));
    lease_duration.secs.is_below(elapsed.secs)
}

/// Whether the holder of `lease` did not renew it in time.
pub fn is_expired(lease: &Lease, fallback_duration: Time) -> (r: bool)
    ensures
        exists|now: Timestamp|
            valid_time(now) && read_from_clock(now) && r == #[trigger] lease@.expired(
                fallback_duration,
                now,
            ),
{
    is_expired_at(lease, fallback_duration, now())
}

/// Whether another replica can take `lease` at `now`: it has no holder, or its
/// holder did not renew it in time.
pub fn is_claimable_at(lease: &Lease, fallback_duration: Time, now: Timestamp) -> (r: bool)
    ensures
        r == lease@.claimable(fallback_duration, now),
{
    is_vacant(lease) || is_expired_at(lease, fallback_duration, now)
}

/// Whether another replica can take `lease` now.
pub fn is_claimable(lease: &Lease, fallback_duration: Time) -> (r: bool)
    ensures
        exists|now: Timestamp|
            valid_time(now) && read_from_clock(now) && r == #[trigger] lease@.claimable(
                fallback_duration,
                now,
            ),
{
    is_claimable_at(lease, fallback_duration, now())
}

/// Make `identity` the holder of `lease` from `now` on.
pub fn claim_at(lease: &mut Lease, identity: &str, lease_duration_seconds: i32, now: Timestamp)
    ensures
        final(lease)@ == old(lease)@.claimed(identity@, lease_duration_seconds, now),
{
    let changed_holder = !held_by_us(lease, identity);
    let spec = match lease.spec.take() {
        Some(spec) => spec,
        None => LeaseSpec::default(),
    };
    let transitions: i32 = match spec.lease_transitions {
        Some(n) => n,
        None => 0,
    };
    lease.spec = Some(
        LeaseSpec {
            holder_identity: Some(identity.to_owned()),
            lease_duration_seconds: Some(lease_duration_seconds),
            acquire_time: Some(now),
            renew_time: Some(now),
            lease_transitions: if changed_holder {
                Some(
                    if transitions < i32::MAX {
                        transitions + 1
                    } else {
                        i32::MAX
                    },
                )
            } else {
                spec.lease_transitions
            },
            strategy: spec.strategy,
            preferred_holder: spec.preferred_holder,
        },
    );
}

/// Make `identity` the holder of `lease` from now on.
pub fn claim(lease: &mut Lease, identity: &str, lease_duration_seconds: i32)
    ensures
        exists|now: Timestamp|
            valid_time(now) && read_from_clock(now) && final(lease)@
                == #[trigger] old(lease)@.claimed(identity@, lease_duration_seconds, now),
{
    claim_at(lease, identity, lease_duration_seconds, now());
}

/// The lease to write back when `identity` releases `lease`, or `None` if
/// `identity` does not hold it.
///
/// The holder is cleared and the lease duration is 1 second. The metadata, and
/// with it the resource version, stays as it was read. The transition count stays
/// too: the next holder adds one.
pub fn released(lease: &Lease, identity: &str, now: Timestamp) -> (r: Option<Lease>)
    ensures
        match r {
            Some(after) => lease@.held_by(identity@) && after@ == lease@.released(now),
            None => !lease@.held_by(identity@),
        },
{
    if !held_by_us(lease, identity) {
        return None;
    }
    let spec = match &lease.spec {
        Some(spec) => spec.copy(),
        None => LeaseSpec::default(),
    };
    Some(
        Lease {
            metadata: lease.metadata.clone(),
            spec: Some(
                LeaseSpec {
                    holder_identity: None,
                    lease_duration_seconds: Some(1),
                    acquire_time: Some(now),
                    renew_time: Some(now),
                    lease_transitions: spec.lease_transitions,
                    strategy: spec.strategy,
                    preferred_holder: spec.preferred_holder,
                },
            ),
        },
    )
}

/// What the API server answered to a write.
#[derive(Debug, Clone, Copy, PartialEq, Eq, Structural)]
pub enum Answer {
    /// It accepted the write.
    Accepted,
    /// It refused the write with a status code.
    Refused(u16),
    /// The request failed in another way.
    Failed,
}

/// The status code of a write that raced with another.
pub const CONFLICT: u16 = 409;

/// What a replica that wants the lease does after a read.
#[derive(Debug, PartialEq)]
pub enum Attempt {
    /// There is no lease: create one with this name and this specification.
    Create { name: String, spec: LeaseSpec },
    /// This replica is the holder already.
    Confirmed,
    /// The lease can be taken: replace it with this one.
    Replace(Lease),
    /// Another replica holds the lease: wait, then read again.
    Wait,
}

/// What a replica that wants the lease does after a write.
#[derive(Debug, Clone, Copy, PartialEq, Eq, Structural)]
pub enum Progress {
    /// This replica is the holder now.
    Acquired,
    /// Read the lease again at once.
    ReadAgain,
    /// Wait, then read the lease again.
    Wait,
    /// Give up with the error of the write.
    GiveUp,
}

/// Whether `attempt` is what a replica does after it read `existing` under the name
/// `name`. `first` is when a created lease is acquired and when the expiry is judged,
/// and `second` is when a created lease is renewed and when the claim is made.
pub open spec fn attempts(
    attempt: Attempt,
    name: Seq<char>,
    existing: Option<LeaseView>,
    identity: Seq<char>,
    lease_duration: Time,
    lease_duration_seconds: i32,
    first: Timestamp,
    second: Timestamp,
) -> bool {
    match existing {
        None => attempt matches Attempt::Create { name: created, spec } && created@ == name
            && spec@ == LeaseSpecView::created(identity, lease_duration_seconds, first, second),
        Some(lease) => if lease.held_by(identity) {
            attempt is Confirmed
        } else if lease.claimable(lease_duration, first) {
            attempt matches Attempt::Replace(after) && after@ == lease.claimed(
                identity,
                lease_duration_seconds,
                second,
            )
        } else {
            attempt is Wait
        },
    }
}

/// What an optional lease says.
pub open spec fn optional_lease(lease: Option<Lease>) -> Option<LeaseView> {
    match lease {
        Some(lease) => Some(lease@),
        None => None,
    }
}

/// What a replica that wants the lease `name` does after it read `existing`, with
/// the clock read twice.
pub fn after_read_at(
    name: &str,
    existing: Option<Lease>,
    identity: &str,
    lease_duration: Time,
    lease_duration_seconds: i32,
    first: Timestamp,
    second: Timestamp,
) -> (r: Attempt)
    ensures
        attempts(
            r,
            name@,
            optional_lease(existing),
            identity@,
            lease_duration,
            lease_duration_seconds,
            first,
            second,
        ),
{
    match existing {
        None => Attempt::Create {
            name: name.to_owned(),
            spec: LeaseSpec::created(identity, lease_duration_seconds, first, second),
        },
        Some(lease) => {
            if held_by_us(&lease, identity) {
                return Attempt::Confirmed;
            }
            if is_claimable_at(&lease, lease_duration, first) {
                let mut lease = lease;
                claim_at(&mut lease, identity, lease_duration_seconds, second);
                return Attempt::Replace(lease);
            }
            Attempt::Wait
        },
    }
}

/// What a replica that wants the lease `name` does after it read `existing`.
pub fn after_read(
    name: &str,
    existing: Option<Lease>,
    identity: &str,
    lease_duration: Time,
    lease_duration_seconds: i32,
) -> (r: Attempt)
    ensures
        exists|first: Timestamp, second: Timestamp|
            valid_time(first) && valid_time(second) && read_from_clock(first)
                && read_from_clock(second) && #[trigger] attempts(
                r,
                name@,
                optional_lease(existing),
                identity@,
                lease_duration,
                lease_duration_seconds,
                first,
                second,
            ),
{
    let (first, second) = (now(), now());
    after_read_at(name, existing, identity, lease_duration, lease_duration_seconds, first, second)
}

/// What a replica does after it tried to create the lease. A conflict means that
/// another replica created it first.
pub fn after_create(answer: Answer) -> (r: Progress)
    ensures
        r == match answer {
            Answer::Accepted => Progress::Acquired,
            Answer::Refused(code) if code == CONFLICT => Progress::ReadAgain,
            _ => Progress::GiveUp,
        },
{
    match answer {
        Answer::Accepted => Progress::Acquired,
        Answer::Refused(code) => if code == CONFLICT {
            Progress::ReadAgain
        } else {
            Progress::GiveUp
        },
        Answer::Failed => Progress::GiveUp,
    }
}

/// What a replica does after it tried to take the lease over. A conflict means that
/// the lease changed since it was read. Any other failure is the error of the attempt.
pub fn after_replace(answer: Answer) -> (r: Progress)
    ensures
        r == match answer {
            Answer::Accepted => Progress::Acquired,
            Answer::Refused(code) if code == CONFLICT => Progress::Wait,
            _ => Progress::GiveUp,
        },
{
    match answer {
        Answer::Accepted => Progress::Acquired,
        Answer::Refused(code) => if code == CONFLICT {
            Progress::Wait
        } else {
            Progress::GiveUp
        },
        Answer::Failed => Progress::GiveUp,
    }
}

/// The result of a release.
#[derive(Debug, Clone, Copy, PartialEq, Eq, Structural)]
pub enum Release {
    /// This replica held the lease. The update cleared the holder, so a standby
    /// replica takes the lease on its next retry.
    Released,
    /// The lease does not exist, or another replica holds it. The release did not
    /// change the lease.
    NotHeld,
    /// The lease changed between the read and the update. The release did not
    /// change the lease, so it cannot overwrite a new holder.
    Conflict,
}

/// The lease to write back when `identity` releases the lease that it read, or the
/// result where there is nothing to write.
pub fn release_update(existing: &Option<Lease>, identity: &str, now: Timestamp) -> (r: Result<
    Lease,
    Release,
>)
    ensures
        match r {
            Ok(after) => existing matches Some(lease) && lease@.held_by(identity@) && after@
                == lease@.released(now),
            Err(release) => release is NotHeld && (existing matches Some(lease)
                ==> !lease@.held_by(identity@)),
        },
{
    match existing {
        None => Err(Release::NotHeld),
        Some(lease) => match released(lease, identity, now) {
            None => Err(Release::NotHeld),
            Some(after) => Ok(after),
        },
    }
}

/// The result of a release after its update, or `None` where the error of the
/// update is the result.
pub fn release_outcome(answer: Answer) -> (r: Option<Release>)
    ensures
        r == match answer {
            Answer::Accepted => Some(Release::Released),
            Answer::Refused(code) if code == CONFLICT => Some(Release::Conflict),
            _ => None,
        },
{
    match answer {
        Answer::Accepted => Some(Release::Released),
        Answer::Refused(code) => if code == CONFLICT {
            Some(Release::Conflict)
        } else {
            None
        },
        Answer::Failed => None,
    }
}

/// Why leadership is lost once the lease reads `existing`.
pub open spec fn loss(existing: Option<LeaseView>, identity: Seq<char>) -> Option<Seq<char>> {
    match existing {
        None => Some("lease was deleted"@),
        Some(lease) => if lease.held_by(identity) {
            None
        } else {
            Some(
                "holder changed to "@ + match lease.holder() {
                    Some(holder) => holder,
                    None => "<none>"@,
                },
            )
        },
    }
}

/// The lease to write back when its holder `identity` renews the lease that it
/// read at `now`, or the reason why leadership is lost.
pub fn renewal_at(
    existing: Option<Lease>,
    identity: &str,
    lease_duration_seconds: i32,
    now: Timestamp,
) -> (r: Result<Lease, String>)
    ensures
        match r {
            Ok(after) => loss(optional_lease(existing), identity@) is None && after@
                == optional_lease(existing)->0.renewed(lease_duration_seconds, now),
            Err(reason) => loss(optional_lease(existing), identity@) == Some(reason@),
        },
{
    let mut lease = match existing {
        None => {
            return Err(String::from_str("lease was deleted"));
        },
        Some(lease) => lease,
    };
    if !held_by_us(&lease, identity) {
        let mut reason = String::from_str("holder changed to ");
        match &lease.spec {
            Some(spec) => match &spec.holder_identity {
                Some(holder) => reason.append(holder.as_str()),
                None => reason.append("<none>"),
            },
            None => reason.append("<none>"),
        }
        return Err(reason);
    }
    let spec = match lease.spec.take() {
        Some(spec) => spec,
        None => LeaseSpec::default(),
    };
    lease.spec = Some(
        LeaseSpec {
            holder_identity: spec.holder_identity,
            lease_duration_seconds: Some(lease_duration_seconds),
            acquire_time: spec.acquire_time,
            renew_time: Some(now),
            lease_transitions: spec.lease_transitions,
            strategy: spec.strategy,
            preferred_holder: spec.preferred_holder,
        },
    );
    Ok(lease)
}

/// The lease to write back when its holder `identity` renews the lease that it
/// read, or the reason why leadership is lost.
pub fn renewal(existing: Option<Lease>, identity: &str, lease_duration_seconds: i32) -> (r: Result<
    Lease,
    String,
>)
    ensures
        match r {
            Ok(after) => loss(optional_lease(existing), identity@) is None && exists|now: Timestamp|
                valid_time(now) && read_from_clock(now) && after@
                    == #[trigger] optional_lease(existing)->0.renewed(lease_duration_seconds, now),
            Err(reason) => loss(optional_lease(existing), identity@) == Some(reason@),
        },
{
    renewal_at(existing, identity, lease_duration_seconds, now())
}

/// Why one renewal did not happen.
#[derive(Debug, Clone, PartialEq, Eq)]
pub enum RenewError {
    /// Leadership is lost, for this reason.
    Lost(String),
    /// A request failed with this error. A later one may succeed.
    Retry(String),
}

/// What the renewal of a lease does next.
#[derive(Debug, Clone, Copy, PartialEq, Eq, Structural)]
pub enum Renewal {
    /// The lease was renewed: the deadline starts anew.
    Renewed,
    /// Try again before the deadline.
    Retry,
}

/// Whether the time `elapsed` since the last renewal has reached the lease duration.
/// A lease duration that no duration can hold counts as none. A caller that waits for
/// a lease duration must take such a one for no time, too.
pub open spec fn deadline_reached(elapsed: Time, lease_duration: Time) -> bool {
    if lease_duration.representable() {
        lease_duration.secs.at_most(elapsed.secs)
    } else {
        Time::of_secs(0).secs.at_most(elapsed.secs)
    }
}

/// Whether the time `elapsed` since the last renewal has reached the lease duration.
pub fn overdue(elapsed: Time, lease_duration: Time) -> (r: bool)
    ensures
        r == deadline_reached(elapsed, lease_duration),
{
    let limit = if lease_duration.is_representable() {
        lease_duration
    } else {
        Time::from_secs(0)
    };
    limit.secs.is_at_most(elapsed.secs)
}

/// What the renewal of the lease `name` does after one renewal, or the reason why
/// it stops. `elapsed` is the time since the last renewal that succeeded.
pub fn after_renewal(
    name: &str,
    outcome: &Result<(), RenewError>,
    elapsed: Time,
    lease_duration: Time,
) -> (r: Result<Renewal, String>)
    ensures
        match *outcome {
            Ok(_) => r == Ok::<Renewal, String>(Renewal::Renewed),
            Err(RenewError::Lost(reason)) => r matches Err(message) && message@
                == "lost leader-election lease "@ + name@ + ": "@ + reason@,
            Err(RenewError::Retry(error)) => if deadline_reached(elapsed, lease_duration) {
                r matches Err(message) && message@ == "could not renew leader-election lease "@
                    + name@ + " before its deadline: "@ + error@
            } else {
                r == Ok::<Renewal, String>(Renewal::Retry)
            },
        },
{
    match outcome {
        Ok(_) => Ok(Renewal::Renewed),
        Err(RenewError::Lost(reason)) => {
            let mut message = String::from_str("lost leader-election lease ");
            message.append(name);
            message.append(": ");
            message.append(reason.as_str());
            Err(message)
        },
        Err(RenewError::Retry(error)) => {
            if !overdue(elapsed, lease_duration) {
                return Ok(Renewal::Retry);
            }
            let mut message = String::from_str("could not renew leader-election lease ");
            message.append(name);
            message.append(" before its deadline: ");
            message.append(error.as_str());
            Err(message)
        },
    }
}

/// The error for a renewal task that did not end by itself.
pub fn renewal_task_failed(error: &str) -> (r: String)
    ensures
        r@ == "leader-election renewal task failed: "@ + error@,
{
    let mut message = String::from_str("leader-election renewal task failed: ");
    message.append(error);
    message
}

proof fn lemma_seconds_compare_exactly(a: int, b: int)
    requires
        -(2 * BINADE) <= a <= 2 * BINADE,
        -(2 * BINADE) <= b <= 2 * BINADE,
    ensures
        Time::of_secs(a).secs.below(Time::of_secs(b).secs) <==> a < b,
{
    let one = pow2(SCALE as nat) as int;
    lemma_pow2_pos(SCALE as nat);
    Binary64::lemma_small_integer_is_exact(a);
    Binary64::lemma_small_integer_is_exact(b);
    assert(a * one < b * one <==> a < b) by (nonlinear_arith)
        requires
            one > 0,
    ;
}

/// A lease expires once more whole seconds have passed since its renewal than it
/// lasts.
pub proof fn lemma_expiry_in_seconds(
    lease: LeaseView,
    seconds: i32,
    renewed: Timestamp,
    fallback: Time,
    now: Timestamp,
)
    requires
        valid_time(renewed),
        valid_time(now),
        lease.spec_or_empty().lease_duration_seconds == Some(seconds),
        lease.spec_or_empty().renew_time == Some(renewed),
    ensures
        lease.expired(fallback, now) <==> now.second() - renewed.second() > seconds,
{
    lemma_seconds_compare_exactly(seconds as int, now.second() - renewed.second());
}

/// A lease without a duration lasts as long as the fallback.
pub proof fn lemma_expiry_by_fallback(
    lease: LeaseView,
    renewed: Timestamp,
    fallback: u32,
    now: Timestamp,
)
    requires
        valid_time(renewed),
        valid_time(now),
        lease.spec_or_empty().lease_duration_seconds is None,
        lease.spec_or_empty().renew_time == Some(renewed),
    ensures
        lease.expired(Time::of_secs(fallback as int), now) <==> now.second() - renewed.second()
            > fallback,
{
    lemma_seconds_compare_exactly(fallback as int, now.second() - renewed.second());
}

/// A claim makes the replica the holder and keeps the metadata, and with it the
/// resource version. It counts a transition exactly where the holder changes.
pub proof fn lemma_claim(
    lease: LeaseView,
    identity: Seq<char>,
    lease_duration_seconds: i32,
    now: Timestamp,
)
    ensures
        ({
            let after = lease.claimed(identity, lease_duration_seconds, now);
            &&& after.held_by(identity)
            &&& after.metadata == lease.metadata
            &&& lease.held_by(identity) ==> after.spec_or_empty().lease_transitions
                == lease.spec_or_empty().lease_transitions
            &&& !lease.held_by(identity) ==> after.spec_or_empty().lease_transitions == Some(
                one_more(
                    match lease.spec_or_empty().lease_transitions {
                        Some(n) => n,
                        None => 0,
                    },
                ),
            )
            &&& after.claimed(identity, lease_duration_seconds, now) == after
        }),
{
}

/// A lease that was claimed cannot be claimed by another replica before it expires.
pub proof fn lemma_claimed_lease_is_kept(
    lease: LeaseView,
    identity: Seq<char>,
    seconds: i32,
    now: Timestamp,
    fallback: Time,
    later: Timestamp,
)
    requires
        identity.len() > 0,
        valid_time(now),
        valid_time(later),
    ensures
        lease.claimed(identity, seconds, now).claimable(fallback, later) <==> later.second()
            - now.second() > seconds,
{
    lemma_expiry_in_seconds(lease.claimed(identity, seconds, now), seconds, now, fallback, later);
}

/// The same holds of a lease that was created.
pub proof fn lemma_created_lease_is_kept(
    metadata: ObjectMeta,
    identity: Seq<char>,
    seconds: i32,
    acquired: Timestamp,
    renewed: Timestamp,
    fallback: Time,
    later: Timestamp,
)
    requires
        identity.len() > 0,
        valid_time(renewed),
        valid_time(later),
    ensures
        ({
            let lease = LeaseView {
                metadata,
                spec: Some(LeaseSpecView::created(identity, seconds, acquired, renewed)),
            };
            &&& lease.held_by(identity)
            &&& lease.claimable(fallback, later) <==> later.second() - renewed.second() > seconds
        }),
{
    let lease = LeaseView {
        metadata,
        spec: Some(LeaseSpecView::created(identity, seconds, acquired, renewed)),
    };
    lemma_expiry_in_seconds(lease, seconds, renewed, fallback, later);
}

/// A renewal changes nothing but the duration and the time of the renewal, so the
/// holder stays the holder.
pub proof fn lemma_renewal_keeps_the_holder(
    lease: LeaseView,
    lease_duration_seconds: i32,
    now: Timestamp,
)
    ensures
        ({
            let after = lease.renewed(lease_duration_seconds, now);
            &&& after.holder() == lease.holder()
            &&& after.metadata == lease.metadata
            &&& after.spec_or_empty().acquire_time == lease.spec_or_empty().acquire_time
            &&& after.spec_or_empty().lease_transitions
                == lease.spec_or_empty().lease_transitions
        }),
{
}

/// A lease that was released has no holder, so that a standby replica can take it
/// at once, whatever the time. The metadata and the transition count stay as they
/// were read, and the next holder adds one.
pub proof fn lemma_released_lease_is_free(
    lease: LeaseView,
    now: Timestamp,
    identity: Seq<char>,
    lease_duration_seconds: i32,
    fallback: Time,
    later: Timestamp,
)
    ensures
        ({
            let released = lease.released(now);
            &&& released.vacant()
            &&& released.claimable(fallback, later)
            &&& !released.held_by(identity)
            &&& released.metadata == lease.metadata
            &&& released.spec_or_empty().lease_transitions
                == lease.spec_or_empty().lease_transitions
            &&& released.claimed(
                identity,
                lease_duration_seconds,
                later,
            ).spec_or_empty().lease_transitions == Some(
                one_more(
                    match lease.spec_or_empty().lease_transitions {
                        Some(n) => n,
                        None => 0,
                    },
                ),
            )
        }),
{
}

/// A replica does not write to a lease that another replica holds and renewed in
/// time: no longer ago than the lease lasts, or than the configured duration where
/// the lease does not say.
pub proof fn lemma_live_lease_is_left_alone(
    attempt: Attempt,
    name: Seq<char>,
    lease: LeaseView,
    holder: Seq<char>,
    renewed: Timestamp,
    identity: Seq<char>,
    lease_duration: Time,
    lease_duration_seconds: i32,
    first: Timestamp,
    second: Timestamp,
)
    requires
        valid_time(renewed),
        valid_time(first),
        lease.holder() == Some(holder),
        holder.len() > 0,
        holder != identity,
        lease.spec_or_empty().renew_time == Some(renewed),
        match lease.spec_or_empty().lease_duration_seconds {
            Some(seconds) => first.second() - renewed.second() <= seconds,
            None => !lease_duration.secs.below(
                Time::of_secs(first.second() - renewed.second()).secs,
            ),
        },
        attempts(
            attempt,
            name,
            Some(lease),
            identity,
            lease_duration,
            lease_duration_seconds,
            first,
            second,
        ),
    ensures
        attempt is Wait,
{
    if let Some(seconds) = lease.spec_or_empty().lease_duration_seconds {
        lemma_expiry_in_seconds(lease, seconds, renewed, lease_duration, first);
    }
}

/// A replica that takes a lease over writes with the metadata that it read, and
/// makes itself the holder.
pub proof fn lemma_takeover_is_optimistic(
    attempt: Attempt,
    name: Seq<char>,
    existing: Option<LeaseView>,
    identity: Seq<char>,
    lease_duration: Time,
    lease_duration_seconds: i32,
    first: Timestamp,
    second: Timestamp,
)
    requires
        attempts(
            attempt,
            name,
            existing,
            identity,
            lease_duration,
            lease_duration_seconds,
            first,
            second,
        ),
    ensures
        attempt matches Attempt::Replace(after) ==> {
            &&& existing matches Some(lease) && after@.metadata == lease.metadata
                && lease.claimable(lease_duration, first)
            &&& after@.held_by(identity)
        },
        attempt matches Attempt::Create { name: created, spec } ==> existing is None && created@
            == name && spec@.holder_identity == Some(identity),
        attempt is Confirmed ==> (existing matches Some(lease) && lease.held_by(identity)),
{
}

} // verus!
