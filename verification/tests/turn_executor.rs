use buzz_gateway::gateway_api::{ClientError, JobResult, JobView, RouteView};
use buzz_gateway::json::Json;
use buzz_gateway::outcome::TurnOutcome;
use buzz_gateway::turn_executor::{
    map_job_state, parse_write_route, parse_write_routes, GatewayExecutor, GatewayExecutorError, TurnStep,
    MAX_CONSECUTIVE_POLL_FAILURES,
};
use buzz_gateway::wire::{ErrorKind, WireError};

#[test]
fn non_terminal_states_keep_polling() {
    for state in ["received", "queued", "running", "starting_worker", "completing"] {
        assert_eq!(map_job_state(state, None, None), None, "state {state}");
    }
}

#[test]
fn completed_carries_the_worker_summary() {
    assert_eq!(
        map_job_state("completed", None, Some("stop: end_turn")),
        Some(TurnOutcome::Completed {
            summary: "stop: end_turn".into()
        })
    );
}

#[test]
fn failed_prefers_the_worker_message_over_the_transition_reason() {
    assert_eq!(
        map_job_state(
            "failed",
            Some("non-retry-safe attempt failed"),
            Some("worker reported turn failure: exit 1")
        ),
        Some(TurnOutcome::Failed {
            reason: "worker reported turn failure: exit 1".into()
        })
    );
    assert_eq!(
        map_job_state("failed", Some("route membership removed"), None),
        Some(TurnOutcome::Failed {
            reason: "route membership removed".into()
        })
    );
}

#[test]
fn cancellation_and_unknown_outcomes_are_distinct() {
    assert_eq!(map_job_state("canceled", None, None), Some(TurnOutcome::Canceled));
    assert!(matches!(
        map_job_state("unknown_outcome", Some("outcome unknown after daemon crash"), None),
        Some(TurnOutcome::UnknownOutcome { .. })
    ));
    // A cancelled effectful job parks in `reconciling`; that is an
    // unknown outcome for the harness, not a clean cancel.
    assert!(matches!(
        map_job_state("reconciling", None, None),
        Some(TurnOutcome::UnknownOutcome { .. })
    ));
}

fn route(id: &str, profile: &str, contexts: &[&str]) -> RouteView {
    RouteView {
        id: id.to_string(),
        agent_id: "agent".to_string(),
        contexts: contexts.iter().map(|c| c.to_string()).collect(),
        workspace_path: "/srv/repo".to_string(),
        permission_profile: profile.to_string(),
    }
}

const CHANNEL: &str = "67e55044-10b1-426f-9247-bb680e5fe0c8";

fn channel() -> u128 {
    parse_write_route(&format!("{CHANNEL}=repo-write")).unwrap().channel_id
}

fn executor() -> GatewayExecutor {
    let mapping = parse_write_route(&format!("{CHANNEL}=repo-write")).unwrap();
    GatewayExecutor::connect(
        "repo".to_string(),
        vec![mapping],
        Ok(vec![
            route("repo", "repository_read", &[]),
            route("repo-write", "repository_write", &["x", CHANNEL]),
        ]),
    )
    .ok()
    .unwrap()
}

#[test]
fn write_routes_map_a_channel_uuid() {
    let mapping = parse_write_route(&format!("{CHANNEL}=repo=write")).unwrap();
    assert_eq!(mapping.route_id, "repo=write");
    assert_eq!(mapping.channel_id, 0x67e55044_10b1_426f_9247_bb680e5fe0c8);
    assert!(parse_write_route("my-channel=repo-write").is_none());
    assert!(parse_write_route(CHANNEL).is_none());
}

#[test]
fn setup_checks_every_route() {
    let connect = |mapped: &str, routes: Vec<RouteView>| {
        GatewayExecutor::connect(
            "repo".to_string(),
            vec![parse_write_route(&format!("{CHANNEL}={mapped}")).unwrap()],
            Ok(routes),
        )
        .err()
        .unwrap()
    };
    let read = || route("repo", "repository_read", &[CHANNEL]);
    assert_eq!(
        connect("w", vec![]).message(),
        "gateway has no route 'repo' — create it with `agent-gateway routes set` first"
    );
    assert_eq!(connect("w", vec![read()]), GatewayExecutorError::RouteMissing("w".to_string()));
    assert_eq!(
        connect("repo", vec![read()]),
        GatewayExecutorError::NotAWriteRoute("repo".to_string())
    );
    assert_eq!(
        connect("w", vec![read(), route("w", "repository_write", &["general"])]),
        GatewayExecutorError::ChannelUnbound("w".to_string())
    );
    let unreachable = GatewayExecutor::connect(
        "repo".to_string(),
        Vec::new(),
        Err(ClientError::Http(503)),
    );
    assert_eq!(
        unreachable.err().unwrap().message(),
        "gateway connection failed: gateway returned HTTP 503"
    );
    assert_eq!(executor().route_id(), "repo");
}

#[test]
fn only_a_mapped_channel_writes() {
    let executor = executor();
    let payload = Json::object().with("events", Json::array(Vec::new()));
    let write = executor.run_turn(channel(), "turn-1", &payload, Some(5));
    assert_eq!(write.route_id.as_deref(), Some("repo-write"));
    assert_eq!(write.permission_profile.as_deref(), Some("repository_write"));
    assert_eq!(write.side_effect_class.as_deref(), Some("workspace_write"));
    assert_eq!(write.thread_id.as_deref(), Some(CHANNEL));
    assert_eq!(write.idempotency_key.as_deref(), Some("turn-1"));
    assert_eq!(write.task, r#"{"events":[]}"#);
    assert_eq!(write.timeout_ms, Some(5));
    let read = executor.run_turn(channel() + 1, "turn-2", &payload, None);
    assert_eq!(read.route_id.as_deref(), Some("repo"));
    assert_eq!(read.permission_profile.as_deref(), Some("repository_read"));
    assert_eq!(read.side_effect_class.as_deref(), Some("external_effects"));
    assert_eq!(read.thread_id.as_deref(), Some("67e55044-10b1-426f-9247-bb680e5fe0c9"));
}

fn job(state: &str) -> JobView {
    JobView { state: state.to_string(), reason: None, result: None }
}

#[test]
fn a_turn_is_polled_until_its_job_is_terminal() {
    let mut executor = executor();
    let polling = match executor.submitted("t", Ok("job-1".to_string())) {
        TurnStep::Poll(polling) => polling,
        TurnStep::Done(_) => panic!("submitted"),
    };
    assert_eq!(executor.cancel_turn("t").as_deref(), Some("job-1"));
    assert_eq!(executor.cancel_turn("other"), None);
    let polling = match executor.polled("t", polling, Err(ClientError::InvalidResponse)) {
        TurnStep::Poll(polling) => polling,
        TurnStep::Done(_) => panic!("one failure is tolerated"),
    };
    assert_eq!(polling.failures, 1);
    let polling = match executor.polled("t", polling, Ok(job("running"))) {
        TurnStep::Poll(polling) => polling,
        TurnStep::Done(_) => panic!("still running"),
    };
    assert_eq!(polling.failures, 0);
    let done = JobView {
        state: "completed".to_string(),
        reason: None,
        result: Some(JobResult { summary: "done".to_string() }),
    };
    assert_eq!(
        executor.polled("t", polling, Ok(done)),
        TurnStep::Done(TurnOutcome::Completed { summary: "done".to_string() })
    );
    assert_eq!(executor.cancel_turn("t"), None);
}

fn gone() -> ClientError {
    ClientError::Io(WireError::new(ErrorKind::Other, "gone"))
}

#[test]
fn losing_contact_is_an_unknown_outcome() {
    let mut executor = executor();
    let mut step = executor.submitted("t", Ok("job-1".to_string()));
    let mut polls = 0;
    let outcome = loop {
        match step {
            TurnStep::Poll(polling) => {
                polls += 1;
                step = executor.polled("t", polling, Err(gone()));
            }
            TurnStep::Done(outcome) => break outcome,
        }
    };
    assert_eq!(polls, MAX_CONSECUTIVE_POLL_FAILURES);
    assert_eq!(
        outcome,
        TurnOutcome::UnknownOutcome {
            reason: "lost contact with gateway while polling job job-1: gateway I/O error: gone"
                .to_string()
        }
    );
}

#[test]
fn a_refused_submit_fails_the_turn() {
    let mut executor = executor();
    assert_eq!(
        executor.submitted("t", Err(ClientError::Json("bad".to_string()))),
        TurnStep::Done(TurnOutcome::Failed {
            reason: "gateway submit failed: gateway JSON error: bad".to_string()
        })
    );
    assert_eq!(executor.cancel_turn("t"), None);
}

#[test]
fn a_list_of_mappings_is_read_up_to_its_first_bad_entry() {
    let list = |entries: &[&str]| entries.iter().map(|e| e.to_string()).collect::<Vec<String>>();
    let one = format!("{CHANNEL}=a");
    let two = format!("{CHANNEL}=b");
    let routes = parse_write_routes(&list(&[&one, &two])).unwrap();
    assert_eq!(routes.len(), 2);
    assert_eq!(routes[1].route_id, "b");
    assert_eq!(parse_write_routes(&list(&[&one, "x", "y"])).unwrap_err(), "x");
    assert_eq!(parse_write_routes(&vec![]).unwrap(), vec![]);
}
