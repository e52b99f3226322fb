use krabka_operator::health::{healthz, metrics_reply, readyz_reply, HealthState, Phase, Reply};
use krabka_operator::health::Phase::{Leading, Standby, Starting, Stopping};
use krabka_operator::run::{
    reach, step, stop, Action, Event, Input, LogLine, Milestone, Stop, Task, TaskEnd,
};
use krabka_operator::telemetry::new_registry;
use prometheus_client::metrics::counter::Counter;
use prometheus_client::registry::Registry;

fn fixture() -> HealthState {
    HealthState::new(new_registry())
}

#[test]
fn healthz_ok() {
    let reply = healthz();
    assert!(reply.status == 200);
    assert_eq!(reply.body, "ok");
}

/// What the health server shows after a sequence of phase moves.
#[derive(Debug, PartialEq, Eq)]
struct Observed {
    phase: Phase,
    readyz_status: u16,
    readyz_body: String,
    leader_metric: String,
}

fn observe(state: &mut HealthState) -> Observed {
    let readyz = state.readyz();
    let metrics = state.metrics().body;
    let leader_metric = metrics
        .lines()
        .find(|line| line.starts_with("krabka_operator_leader "))
        .unwrap_or("<missing>")
        .to_owned();
    Observed {
        phase: state.phase(),
        readyz_status: readyz.status,
        readyz_body: readyz.body,
        leader_metric,
    }
}

fn expected(phase: Phase, status: u16, body: &str, leader: &str) -> Observed {
    Observed {
        phase,
        readyz_status: status,
        readyz_body: body.to_owned(),
        leader_metric: format!("krabka_operator_leader {leader}"),
    }
}

/// A rolling update with `maxUnavailable: 0` stops the old pod only after the new
/// pod is Ready. The old pod holds the lease until it stops. A standby replica must
/// therefore be ready.
#[test]
fn readiness_follows_the_phase_and_not_the_lease() {
    const OK: u16 = 200;
    const UNAVAILABLE: u16 = 503;
    let cases: [(&str, &[Phase], Observed); 7] = [
        (
            "a new process is not ready",
            &[],
            expected(Starting, UNAVAILABLE, "not ready: starting", "0"),
        ),
        (
            "a standby replica is ready before it holds the lease",
            &[Standby],
            expected(Standby, OK, "ready: standby", "0"),
        ),
        (
            "a leader is ready",
            &[Standby, Leading],
            expected(Leading, OK, "ready: leading", "1"),
        ),
        (
            "a leader that stops is not ready",
            &[Standby, Leading, Stopping],
            expected(Stopping, UNAVAILABLE, "not ready: stopping", "0"),
        ),
        (
            "a standby replica that stops is not ready",
            &[Standby, Stopping],
            expected(Stopping, UNAVAILABLE, "not ready: stopping", "0"),
        ),
        (
            "a leader does not move back to standby",
            &[Standby, Leading, Standby],
            expected(Leading, OK, "ready: leading", "1"),
        ),
        (
            "a stopping process does not get ready again",
            &[Standby, Leading, Stopping, Leading],
            expected(Stopping, UNAVAILABLE, "not ready: stopping", "0"),
        ),
    ];
    for (name, moves, want) in cases {
        let mut state = fixture();
        for &next in moves {
            state.advance(next);
        }
        let got = observe(&mut state);
        assert!(got == want, "{name}");
    }
}

#[test]
fn metrics_returns_openmetrics() {
    let reply = fixture().metrics();
    assert!(reply.status == 200);
    let ct = reply.content_type.unwrap();
    assert!(ct.starts_with("application/openmetrics-text"));
    // The encoder always emits `# EOF` as the terminator.
    let body = reply.body;
    assert!(body.contains("# EOF"), "metrics body missing # EOF: {body}");
}

#[test]
fn the_leader_gauge_is_described_and_follows_the_phase() {
    let mut state = fixture();
    state.registry.register("reconciles", "Reconciles", Counter::<u64>::default());
    let body = state.metrics().body;
    assert_eq!(
        body,
        "# HELP krabka_operator_leader 1 while this replica holds the leader-election lease and \
         runs the controllers, else 0.\n\
         # TYPE krabka_operator_leader gauge\n\
         krabka_operator_leader 0\n\
         # HELP krabka_operator_reconciles Reconciles.\n\
         # TYPE krabka_operator_reconciles counter\n\
         krabka_operator_reconciles_total 0\n\
         # EOF\n"
    );
    state.advance(Phase::Leading);
    assert!(state.metrics().body.contains("\nkrabka_operator_leader 1\n"));
    state.advance(Phase::Stopping);
    assert!(state.metrics().body.contains("\nkrabka_operator_leader 0\n"));
}

#[test]
fn a_failed_encoding_is_an_internal_error() {
    assert_eq!(
        metrics_reply(Err("no".into())),
        Reply {
            status: 500,
            content_type: None,
            body: "encode: no".into()
        }
    );
    assert_eq!(
        metrics_reply(Ok("# EOF\n".into())),
        Reply {
            status: 200,
            content_type: Some("application/openmetrics-text; version=1.0.0; charset=utf-8"),
            body: "# EOF\n".into()
        }
    );
}

#[test]
fn phases_have_raw_values_in_order() {
    let phases = [Phase::Starting, Phase::Standby, Phase::Leading, Phase::Stopping];
    for (i, phase) in phases.into_iter().enumerate() {
        assert_eq!(phase.to_raw() as usize, i);
        assert_eq!(Phase::from_raw(phase.to_raw()), phase);
    }
    assert_eq!(Phase::from_raw(4), Phase::Stopping);
    assert_eq!(Phase::from_raw(255), Phase::Stopping);
    assert_eq!(phases.map(Phase::is_ready), [false, true, true, false]);
    assert_eq!(phases.map(Phase::is_leader), [false, false, true, false]);
    assert_eq!(
        phases.map(Phase::name),
        ["starting", "standby", "leading", "stopping"]
    );
}

#[test]
fn a_process_is_ready_before_it_leads() {
    let mut state = fixture();
    assert_eq!(
        reach(&mut state, Milestone::ClientBuilt),
        "ready in standby; waiting for the leader-election lease"
    );
    assert_eq!(state.phase(), Phase::Standby);
    assert_eq!(
        reach(&mut state, Milestone::LeaseAcquired),
        "leading; starting the controllers"
    );
    assert_eq!(state.phase(), Phase::Leading);
}

fn stopped(event: Event) -> Stop {
    let mut state = fixture();
    state.advance(Phase::Leading);
    let stop = stop(&mut state, event);
    assert_eq!(state.phase(), Phase::Stopping);
    stop
}

#[test]
fn the_loss_of_the_lease_is_an_error_of_the_process() {
    assert_eq!(
        stopped(Event::LeadershipEnded(Err("lost".into()))),
        Stop {
            log: None,
            result: Err("lost".into())
        }
    );
    assert_eq!(
        stopped(Event::LeadershipEnded(Ok(()))),
        Stop {
            log: None,
            result: Err("leader-election renewal stopped".into())
        }
    );
}

#[test]
fn the_end_of_a_task_is_logged_and_no_error_of_the_process() {
    for (task, failed, panicked) in [
        (
            Task::Health,
            "health server exited with error",
            "health task panicked",
        ),
        (
            Task::Kafka,
            "Kafka controller exited with error",
            "Kafka controller task panicked",
        ),
        (
            Task::KafkaNodePool,
            "KafkaNodePool controller exited with error",
            "KafkaNodePool controller task panicked",
        ),
        (
            Task::KafkaTopic,
            "KafkaTopic controller exited with error",
            "KafkaTopic controller task panicked",
        ),
        (
            Task::KafkaUser,
            "KafkaUser controller exited with error",
            "KafkaUser controller task panicked",
        ),
        (
            Task::KafkaRebalance,
            "KafkaRebalance controller exited with error",
            "KafkaRebalance controller task panicked",
        ),
        (
            Task::KafkaGrpcGateway,
            "KafkaGrpcGateway controller exited with error",
            "KafkaGrpcGateway controller task panicked",
        ),
        (
            Task::KafkaConnector,
            "KafkaConnector controller exited with error",
            "KafkaConnector controller task panicked",
        ),
        (
            Task::SchemaRegistry,
            "SchemaRegistry controller exited with error",
            "SchemaRegistry controller task panicked",
        ),
    ] {
        for (end, log) in [
            (TaskEnd::Finished, None),
            (TaskEnd::Failed("e".into()), Some(failed)),
            (TaskEnd::Panicked("e".into()), Some(panicked)),
        ] {
            let log = log.map(|message| LogLine::Error {
                message: message.into(),
                error: "e".into(),
            });
            assert_eq!(
                stopped(Event::TaskEnded(task, end)),
                Stop { log, result: Ok(()) }
            );
        }
    }
}

#[test]
fn a_shutdown_signal_is_logged() {
    assert_eq!(
        stopped(Event::Shutdown),
        Stop {
            log: Some(LogLine::Info("shutdown signal received".into())),
            result: Ok(())
        }
    );
}

#[test]
fn a_registry_of_the_operator_is_always_encoded() {
    let mut state = fixture();
    for (phase, value) in [(Starting, 0), (Standby, 0), (Leading, 1), (Stopping, 0)] {
        state.advance(phase);
        let reply = state.metrics();
        assert_eq!(reply.status, 200);
        assert_eq!(
            reply.body,
            format!(
                "# HELP krabka_operator_leader 1 while this replica holds the leader-election \
                 lease and runs the controllers, else 0.\n\
                 # TYPE krabka_operator_leader gauge\n\
                 krabka_operator_leader {value}\n# EOF\n"
            )
        );
        let ready = readyz_reply(phase);
        assert_eq!((ready.status, ready.body), (state.readyz().status, state.readyz().body));
    }
}

#[test]
fn the_leader_sample_carries_the_labels_of_the_registry() {
    let labels = [("pod".into(), "a".into()), ("zone".into(), "b".into())];
    let registry = Registry::with_prefix_and_labels("p", labels.into_iter());
    let mut state = HealthState::new(registry);
    state.advance(Phase::Leading);
    let body = state.metrics().body;
    assert!(body.contains("\np_leader{pod=\"a\",zone=\"b\"} 1\n"), "{body}");
    let mut bare = HealthState::new(Registry::default());
    assert!(bare.metrics().body.contains("\nleader 0\n"));
    bare.advance(Phase::Leading);
    assert!(bare.metrics().body.contains("\nleader 1\n"));
}

#[test]
fn a_run_goes_through_its_phases_in_order() {
    let mut state = fixture();
    assert_eq!(
        step(&mut state, Input::ClientBuilt),
        Action::RequestLease("ready in standby; waiting for the leader-election lease")
    );
    assert_eq!(state.phase(), Phase::Standby);
    assert_eq!(
        step(&mut state, Input::LeaseAcquired),
        Action::StartControllers("leading; starting the controllers")
    );
    assert_eq!(state.phase(), Phase::Leading);
    assert_eq!(
        step(&mut state, Input::Ended(Event::LeadershipEnded(Err("lost".into())))),
        Action::Return(Stop {
            log: None,
            result: Err("lost".into())
        })
    );
    assert_eq!(state.phase(), Phase::Stopping);
    assert_eq!(step(&mut state, Input::ClientBuilt), Action::Continue);
    assert_eq!(step(&mut state, Input::LeaseAcquired), Action::Continue);
    assert_eq!(state.phase(), Phase::Stopping);
}

#[test]
fn a_run_without_a_client_or_a_lease_returns_the_error() {
    let failed = |error: &str| {
        Action::Return(Stop {
            log: None,
            result: Err(error.into()),
        })
    };
    let mut state = fixture();
    assert_eq!(step(&mut state, Input::LeaseAcquired), Action::Continue);
    assert_eq!(state.phase(), Phase::Starting);
    assert_eq!(step(&mut state, Input::ClientFailed("no".into())), failed("no"));
    assert_eq!(state.phase(), Phase::Starting);
    step(&mut state, Input::ClientBuilt);
    assert_eq!(step(&mut state, Input::LeaseFailed("no".into())), failed("no"));
    assert_eq!(state.phase(), Phase::Standby);
}

#[test]
fn a_run_stops_on_a_signal_in_every_phase() {
    for moves in 0..3 {
        let mut state = fixture();
        if moves > 0 {
            step(&mut state, Input::ClientBuilt);
        }
        if moves > 1 {
            step(&mut state, Input::LeaseAcquired);
        }
        assert_eq!(
            step(&mut state, Input::Ended(Event::Shutdown)),
            Action::Return(Stop {
                log: Some(LogLine::Info("shutdown signal received".into())),
                result: Ok(())
            })
        );
        assert_eq!(state.phase(), Phase::Stopping);
    }
}
