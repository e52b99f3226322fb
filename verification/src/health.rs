//! The health of one operator process, and what its health server answers.
//!
//! Readiness follows the process [`Phase`]. It does not follow leadership. A
//! replica that waits for the leader-election lease is ready, because the
//! Deployment rolls with `maxUnavailable: 0`. The old pod stops only after the new
//! pod is ready, and the new pod gets the lease only after the old pod stops. The
//! `leader` gauge and the readiness body show which replica leads.

use crate::outside;
use crate::outside::{encode, new_gauge, register_gauge, set_gauge};
use crate::text;
use prometheus_client::metrics::gauge::Gauge;
use prometheus_client::registry::Registry;
use vstd::prelude::*;
use vstd::string::*;

verus! {

/// The lifecycle phase of one operator process. A phase only moves forward.
#[derive(Debug, Clone, Copy, PartialEq, Eq, Structural)]
pub enum Phase {
    /// The process has not built its Kubernetes client yet.
    Starting,
    /// The process can serve. It waits for the leader-election lease and runs no
    /// controller.
    Standby,
    /// The process holds the leader-election lease and runs the controllers.
    Leading,
    /// The process stops. A shutdown signal arrived, a supervised task ended, or
    /// the process lost the lease.
    Stopping,
}

impl Phase {
    /// The place of the phase in the order of the phases.
    pub open spec fn rank(self) -> u8 {
        match self {
            Phase::Starting => 0,
            Phase::Standby => 1,
            Phase::Leading => 2,
            Phase::Stopping => 3,
        }
    }

    /// Whether a process in this phase is ready.
    pub open spec fn ready(self) -> bool {
        self is Standby || self is Leading
    }

    /// The name of the phase.
    pub open spec fn label(self) -> Seq<char> {
        match self {
            Phase::Starting => "starting"@,
            Phase::Standby => "standby"@,
            Phase::Leading => "leading"@,
            Phase::Stopping => "stopping"@,
        }
    }

    /// The later of two phases.
    pub open spec fn later(self, other: Self) -> Self {
        if other.rank() > self.rank() {
            other
        } else {
            self
        }
    }

    pub fn to_raw(self) -> (r: u8)
        ensures
            r == self.rank(),
    {
        match self {
            Phase::Starting => 0,
            Phase::Standby => 1,
            Phase::Leading => 2,
            Phase::Stopping => 3,
        }
    }

    /// The phase of a raw value. One above the last phase stands for the last.
    pub fn from_raw(raw: u8) -> (r: Self)
        ensures
            r.rank() == if raw > 3 {
                3
            } else {
                raw
            },
    {
        match raw {
            0 => Phase::Starting,
            1 => Phase::Standby,
            2 => Phase::Leading,
            _ => Phase::Stopping,
        }
    }

    /// Whether the process is ready in this phase. A standby replica is ready, so
    /// that a rolling update can finish while the old replica holds the lease.
    #[must_use]
    pub fn is_ready(self) -> (r: bool)
        ensures
            r == self.ready(),
    {
        matches!(self, Phase::Standby | Phase::Leading)
    }

    /// Whether this phase holds the leader-election lease.
    #[must_use]
    pub fn is_leader(self) -> (r: bool)
        ensures
            r == (self is Leading),
    {
        matches!(self, Phase::Leading)
    }

    pub fn name(self) -> (r: &'static str)
        ensures
            r@ == self.label(),
    {
        match self {
            Phase::Starting => "starting",
            Phase::Standby => "standby",
            Phase::Leading => "leading",
            Phase::Stopping => "stopping",
        }
    }
}

/// An answer of the health server.
#[derive(Debug, Clone, PartialEq, Eq)]
pub struct Reply {
    pub status: u16,
    pub content_type: Option<&'static str>,
    pub body: String,
}

/// The status code of success.
pub const OK: u16 = 200;

/// The status code of a failure in the server.
pub const INTERNAL_SERVER_ERROR: u16 = 500;

/// The status code of a process that is not ready.
pub const SERVICE_UNAVAILABLE: u16 = 503;

/// The name of the gauge that shows whether this replica leads.
pub const LEADER: &'static str = "leader";

/// The help text of the gauge that shows whether this replica leads.
pub const LEADER_HELP: &'static str =
    "1 while this replica holds the leader-election lease and runs the controllers, else 0";

/// The media type of the metrics.
pub const OPENMETRICS: &'static str = "application/openmetrics-text; version=1.0.0; charset=utf-8";

/// The health of one operator process.
pub struct HealthState {
    /// The metrics. Controllers that must register metrics share it.
    pub registry: Registry,
    phase: u8,
    leader: Gauge,
}

/// The answer to a liveness probe.
pub fn healthz() -> (r: Reply)
    ensures
        r.status == OK,
        r.content_type is None,
        r.body@ == "ok"@,
{
    Reply { status: OK, content_type: None, body: String::from_str("ok") }
}

/// The answer to a readiness probe in a phase.
pub fn readyz_reply(phase: Phase) -> (r: Reply)
    ensures
        r.content_type is None,
        phase.ready() ==> r.status == OK && r.body@ == "ready: "@ + phase.label(),
        !phase.ready() ==> r.status == SERVICE_UNAVAILABLE && r.body@ == "not ready: "@
            + phase.label(),
{
    if phase.is_ready() {
        let mut body = String::from_str("ready: ");
        body.append(phase.name());
        Reply { status: OK, content_type: None, body }
    } else {
        let mut body = String::from_str("not ready: ");
        body.append(phase.name());
        Reply { status: SERVICE_UNAVAILABLE, content_type: None, body }
    }
}

/// The answer to a scrape with the outcome `encoded` of the encoder.
pub fn metrics_reply(encoded: Result<String, String>) -> (r: Reply)
    ensures
        match encoded {
            Ok(text) => r.status == OK && r.content_type == Some(OPENMETRICS) && r.body@ == text@,
            Err(error) => r.status == INTERNAL_SERVER_ERROR && r.content_type is None && r.body@
                == "encode: "@ + error@,
        },
{
    match encoded {
        Ok(text) => Reply { status: OK, content_type: Some(OPENMETRICS), body: text },
        Err(error) => {
            let mut body = String::from_str("encode: ");
            body.append(error.as_str());
            Reply { status: INTERNAL_SERVER_ERROR, content_type: None, body }
        },
    }
}

impl HealthState {
    /// The phase of the process.
    pub closed spec fn current(self) -> Phase {
        match self.phase {
            0 => Phase::Starting,
            1 => Phase::Standby,
            2 => Phase::Leading,
            _ => Phase::Stopping,
        }
    }

    /// The metrics of the process.
    pub closed spec fn metrics_registry(self) -> Registry {
        self.registry
    }

    /// The value of the `leader` gauge.
    pub closed spec fn leader_gauge(self) -> int {
        outside::gauge_value(self.leader)
    }

    /// The cell of the `leader` gauge.
    pub closed spec fn leader_cell(self) -> int {
        outside::gauge_cell(self.leader)
    }

    /// What the `leader` gauge shows in a scrape.
    pub open spec fn leader_sample(self) -> int {
        if self.current() is Leading {
            1
        } else {
            0
        }
    }

    /// Register the `leader` gauge in `registry`. The state starts in
    /// [`Phase::Starting`].
    #[must_use]
    pub fn new(registry: Registry) -> (r: Self)
        ensures
            outside::registered_gauges(r.metrics_registry()) == outside::registered_gauges(
                registry,
            ).push((LEADER@, LEADER_HELP@, r.leader_cell())),
            outside::registry_prefix(r.metrics_registry()) == outside::registry_prefix(registry),
            outside::registry_labels(r.metrics_registry()) == outside::registry_labels(registry),
            outside::holds_only_gauges(r.metrics_registry()) == outside::holds_only_gauges(
                registry,
            ),
            r.current() == Phase::Starting,
            r.leader_gauge() == 0,
    {
        let mut registry = registry;
        let leader = new_gauge();
        register_gauge(&mut registry, LEADER, LEADER_HELP, &leader);
        HealthState { registry, phase: Phase::Starting.to_raw(), leader }
    }

    /// The current phase.
    #[must_use]
    pub fn phase(&self) -> (r: Phase)
        ensures
            r == self.current(),
    {
        Phase::from_raw(self.phase)
    }

    /// Move to `next`. A move to an earlier phase has no effect, so a late call
    /// cannot make a stopping process ready again.
    pub fn advance(&mut self, next: Phase)
        ensures
            final(self).current() == old(self).current().later(next),
            final(self).metrics_registry() == old(self).metrics_registry(),
            final(self).leader_gauge() == old(self).leader_gauge(),
            final(self).leader_cell() == old(self).leader_cell(),
    {
        let raw = next.to_raw();
        if raw > self.phase {
            self.phase = raw;
        }
    }

    /// The answer to a readiness probe.
    pub fn readyz(&self) -> (r: Reply)
        ensures
            r.content_type is None,
            self.current().ready() ==> r.status == OK && r.body@ == "ready: "@
                + self.current().label(),
            !self.current().ready() ==> r.status == SERVICE_UNAVAILABLE && r.body@
                == "not ready: "@ + self.current().label(),
    {
        readyz_reply(self.phase())
    }

    /// The answer to a scrape. The gauge is set from the phase at scrape time, so
    /// that the two always agree: a scrape that succeeds shows the sample 1 where the
    /// process leads, and the sample 0 in every other phase.
    pub fn metrics(&mut self) -> (r: Reply)
        ensures
            final(self).leader_gauge() == old(self).leader_sample(),
            final(self).leader_cell() == old(self).leader_cell(),
            final(self).current() == old(self).current(),
            final(self).metrics_registry() == old(self).metrics_registry(),
            r.status == OK || r.status == INTERNAL_SERVER_ERROR,
            outside::holds_only_gauges(old(self).metrics_registry()) ==> r.status == OK,
            r.status == OK ==> {
                &&& r.content_type == Some(OPENMETRICS)
                &&& text::ends_with(r.body@, "# EOF\n"@)
                &&& forall|i: int|
                    0 <= i < outside::registered_gauges(old(self).metrics_registry()).len() ==> {
                        let registry = old(self).metrics_registry();
                        let (name, help, cell) = #[trigger] outside::registered_gauges(
                            old(self).metrics_registry(),
                        )[i];
                        &&& outside::describes(r.body@, registry, name, help)
                        &&& cell == old(self).leader_cell() ==> outside::samples(
                            r.body@,
                            registry,
                            name,
                            old(self).leader_sample(),
                        )
                    }
            },
            r.status != OK ==> r.content_type is None && text::begins_with(
                r.body@,
                "encode: "@,
            ),
    {
        let leads = self.phase().is_leader();
        set_gauge(
            &mut self.leader,
            if leads {
                1
            } else {
                0
            },
        );
        let r = metrics_reply(encode(&self.registry, &self.leader));
        proof {
            let prefix = "encode: "@;
            if r.status != OK {
                assert(r.body@.take(prefix.len() as int) =~= prefix);
            }
        }
        r
    }
}

/// The phase after a list of moves, from the first to the last.
pub open spec fn after_moves(start: Phase, moves: Seq<Phase>) -> Phase
    decreases moves.len(),
{
    if moves.len() == 0 {
        start
    } else {
        after_moves(start, moves.drop_last()).later(moves.last())
    }
}

/// A phase only moves forward: whatever the moves are, the process is in the latest
/// phase that it started in or was moved to.
pub proof fn lemma_phase_only_moves_forward(start: Phase, moves: Seq<Phase>)
    ensures
        after_moves(start, moves).rank() >= start.rank(),
        forall|i: int|
            0 <= i < moves.len() ==> after_moves(start, moves).rank() >= (
            #[trigger] moves[i]).rank(),
        after_moves(start, moves) == start || moves.contains(after_moves(start, moves)),
    decreases moves.len(),
{
    if moves.len() > 0 {
        let before = moves.drop_last();
        lemma_phase_only_moves_forward(start, before);
        assert forall|i: int| 0 <= i < moves.len() implies after_moves(start, moves).rank() >= (
        #[trigger] moves[i]).rank() by {
            if i < before.len() {
                assert(before[i] == moves[i]);
            }
        }
        let phase = after_moves(start, moves);
        if phase == moves.last() {
            assert(moves[moves.len() - 1] == phase);
        } else if phase != start {
            let i = choose|i: int| 0 <= i < before.len() && before[i] == phase;
            assert(moves[i] == phase);
        }
    }
}

/// A stopping process does not get ready again, and it does not lead again.
pub proof fn lemma_stopping_is_final(start: Phase, moves: Seq<Phase>, i: int)
    requires
        0 <= i < moves.len(),
        moves[i] == Phase::Stopping,
    ensures
        after_moves(start, moves) == Phase::Stopping,
        !after_moves(start, moves).ready(),
{
    lemma_phase_only_moves_forward(start, moves);
}

/// A replica is ready before it holds the lease, and the leader is ready.
pub proof fn lemma_standby_is_ready(phase: Phase)
    ensures
        phase == Phase::Standby ==> phase.ready() && !(phase is Leading),
        phase is Leading ==> phase.ready(),
        phase.ready() <==> Phase::Starting.rank() < phase.rank() < Phase::Stopping.rank(),
{
}

/// A phase has its own raw value.
pub proof fn lemma_rank_tells_phases_apart(a: Phase, b: Phase)
    ensures
        a.rank() == b.rank() <==> a == b,
{
}

/// A process answers a readiness probe with success exactly in standby and when it
/// leads, and the answer names its phase.
pub proof fn lemma_readiness(phase: Phase, name: &str, r: Reply)
    requires
        call_ensures(readyz_reply, (phase,), r),
        call_ensures(Phase::name, (phase,), name),
    ensures
        r.status == 200 <==> phase == Phase::Standby || phase == Phase::Leading,
        r.status == 503 <==> phase == Phase::Starting || phase == Phase::Stopping,
        text::ends_with(r.body@, name@),
        text::begins_with(r.body@, "ready: "@) || text::begins_with(r.body@, "not ready: "@),
        r.content_type is None,
{
    let (ready, not_ready) = ("ready: "@, "not ready: "@);
    assert(r.body@.skip(r.body@.len() - name@.len()) =~= name@);
    if phase.ready() {
        assert(r.body@.take(ready.len() as int) =~= ready);
    } else {
        assert(r.body@.take(not_ready.len() as int) =~= not_ready);
    }
}

/// A state answers a readiness probe as its phase does.
pub proof fn lemma_state_answers_as_its_phase(
    state: HealthState,
    phase: Phase,
    expected: Reply,
    r: Reply,
)
    requires
        call_ensures(HealthState::phase, (&state,), phase),
        call_ensures(readyz_reply, (phase,), expected),
        call_ensures(HealthState::readyz, (&state,), r),
    ensures
        r.status == expected.status,
        r.content_type == expected.content_type,
        r.body@ == expected.body@,
{
}

/// The raw values of the phases are in the order of the phases, from zero on, and a
/// phase comes back from its raw value.
pub proof fn lemma_raw_phases(phase: Phase, raw: u8, back: Phase)
    requires
        call_ensures(Phase::to_raw, (phase,), raw),
        call_ensures(Phase::from_raw, (raw,), back),
    ensures
        back == phase,
        raw == match phase {
            Phase::Starting => 0u8,
            Phase::Standby => 1u8,
            Phase::Leading => 2u8,
            Phase::Stopping => 3u8,
        },
{
    lemma_rank_tells_phases_apart(back, phase);
}

/// The later of two phases is one of them, and it is not before the other. A move to the
/// phase that a process is in changes nothing.
pub proof fn lemma_later_phase(a: Phase, b: Phase)
    ensures
        a.later(b) == a || a.later(b) == b,
        a.later(b).rank() >= a.rank(),
        a.later(b).rank() >= b.rank(),
        a.later(b) == b.later(a),
        a.later(a) == a,
{
    lemma_rank_tells_phases_apart(a, b);
}

/// The sample of the leader is 1 exactly where the process leads, and 0 otherwise.
pub proof fn lemma_leader_sample(state: HealthState, phase: Phase)
    requires
        call_ensures(HealthState::phase, (&state,), phase),
    ensures
        state.leader_sample() == 1 <==> phase == Phase::Leading,
        state.leader_sample() == 0 <==> phase != Phase::Leading,
{
}

/// A scrape hands the text on as it is with the media type of the metrics, and an error
/// of the encoder with its text.
pub proof fn lemma_scrape(encoded: Result<String, String>, r: Reply)
    requires
        call_ensures(metrics_reply, (encoded,), r),
    ensures
        r.status == 200 <==> encoded is Ok,
        r.status == 500 <==> encoded is Err,
        r.content_type is Some <==> encoded is Ok,
        encoded matches Ok(text) ==> r.body@ == text@,
        encoded matches Err(error) ==> text::ends_with(r.body@, error@),
{
    if let Err(error) = encoded {
        assert(r.body@.skip(r.body@.len() - error@.len()) =~= error@);
    }
}

} // verus!
