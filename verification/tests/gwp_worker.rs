use buzz_gateway::gwp_worker::{
    base_prompt, owner_pubkey, take_first, working_directory, PromptOutcome, Worker, WorkerEvent, WorkerStep, WorkerTask,
};
use buzz_gateway::json::{decode, Json};

const HELLO: &str = r#"{"type":"hello","protocol":"gwp/0","gateway":"smoke/0","worker_id":"w1"}"#;

fn worker() -> Worker {
    Worker::with_session("codex".to_string(), "s1".to_string())
}

fn tell(worker: &mut Worker, event: WorkerEvent) -> WorkerStep {
    assert!(worker.awaits(&event));
    worker.step(event)
}

fn line(text: &str) -> WorkerEvent {
    WorkerEvent::Line(text.to_string())
}

fn written(step: &WorkerStep) -> String {
    String::from_utf8(step.write.clone().unwrap()).unwrap()
}

fn quiet(step: WorkerStep) -> WorkerTask {
    assert_eq!(step.write, None);
    step.task
}

fn ready() -> Worker {
    let mut worker = worker();
    let step = tell(&mut worker, line(HELLO));
    assert_eq!(
        written(&step),
        "{\"protocol\":\"gwp/0\",\"runtime\":\"codex\",\"session\":\"s1\",\"type\":\"ready\"}\n"
    );
    assert_eq!(step.task, WorkerTask::Read);
    worker
}

/// A worker that runs a turn on its agent.
fn running() -> Worker {
    let mut worker = ready();
    let turn = r#"{"type":"turn","turn_id":"turn-1","task":"payload"}"#;
    assert_eq!(
        quiet(tell(&mut worker, line(turn))),
        WorkerTask::Decode("payload".to_string())
    );
    assert_eq!(quiet(tell(&mut worker, WorkerEvent::Decoded(Ok(())))), WorkerTask::Spawn(1));
    assert_eq!(
        quiet(tell(&mut worker, WorkerEvent::Spawned(Ok(())))),
        WorkerTask::Run("turn-1".to_string())
    );
    worker
}

fn failure(step: WorkerStep) -> String {
    match step.task {
        WorkerTask::Exit { error: Some(error), shutdown: false } => error,
        other => panic!("{other:?}"),
    }
}

#[test]
fn a_turn_is_answered_and_the_agent_is_kept() {
    let mut worker = running();
    let step = tell(
        &mut worker,
        WorkerEvent::Finished(PromptOutcome::Stopped("EndTurn".to_string())),
    );
    assert_eq!(
        written(&step),
        "{\"session\":\"s1\",\"structured\":{\"stopReason\":\"EndTurn\"},\"summary\":\"stop_reason=EndTurn\",\"turn_id\":\"turn-1\",\"type\":\"result\"}\n"
    );
    assert_eq!(step.task, WorkerTask::Read);
    tell(&mut worker, line(r#"{"type":"turn"}"#));
    assert_eq!(
        quiet(tell(&mut worker, WorkerEvent::Decoded(Ok(())))),
        WorkerTask::Run(String::new())
    );
    let step = tell(&mut worker, WorkerEvent::Finished(PromptOutcome::Cancelled));
    assert_eq!(written(&step), "{\"turn_id\":\"\",\"type\":\"canceled\"}\n");
    assert_eq!(
        quiet(tell(&mut worker, WorkerEvent::Closed)),
        WorkerTask::Exit { error: None, shutdown: true }
    );
    assert!(!worker.awaits(&WorkerEvent::Closed));
}

#[test]
fn the_first_frame_must_be_a_hello() {
    assert_eq!(
        failure(tell(&mut worker(), line(r#"{"type":"turn"}"#))),
        "first frame was not a gwp/0 hello"
    );
    assert_eq!(
        failure(tell(&mut worker(), line(r#"{"type":"hello","protocol":"gwp/1"}"#))),
        "first frame was not a gwp/0 hello"
    );
    assert_eq!(failure(tell(&mut worker(), WorkerEvent::Closed)), "stdin closed before hello");
    assert_eq!(failure(tell(&mut worker(), line("{"))), decode(b"{").unwrap_err());
}

#[test]
fn failed_turns_are_never_retryable() {
    let outcomes = [
        (PromptOutcome::Error("boom".to_string()), "acp error: boom", false),
        (PromptOutcome::Timeout("Idle".to_string()), "turn timed out: Idle", false),
        (PromptOutcome::AgentExited, "acp agent process exited", true),
        (
            PromptOutcome::CancelDrainTimeout("5s".to_string()),
            "cancel drain exceeded 5s; agent poisoned",
            true,
        ),
    ];
    for (outcome, message, unusable) in outcomes {
        let mut worker = running();
        let step = tell(&mut worker, WorkerEvent::Finished(outcome));
        let frame = decode(&step.write.clone().unwrap()).unwrap();
        assert!(frame.field_is("type", "error"));
        assert!(frame.field_is("turn_id", "turn-1"));
        assert!(frame.field_is("message", message));
        assert!(!frame.get("retryable").unwrap().is_true());
        if unusable {
            assert_eq!(failure(step), "acp agent no longer usable; exiting for gateway respawn");
        } else {
            assert_eq!(step.task, WorkerTask::Read);
        }
    }
}

#[test]
fn bad_payloads_and_failed_spawns_are_reported() {
    let mut worker = ready();
    tell(&mut worker, line(r#"{"type":"turn","turn_id":"a"}"#));
    let step = tell(&mut worker, WorkerEvent::Decoded(Err("no json".to_string())));
    assert!(written(&step).contains("\"message\":\"bad turn payload: no json\""));
    tell(&mut worker, line(r#"{"type":"turn","turn_id":"b"}"#));
    tell(&mut worker, WorkerEvent::Decoded(Ok(())));
    let step = tell(&mut worker, WorkerEvent::Spawned(Err("enoent".to_string())));
    assert!(written(&step).contains("\"message\":\"acp agent spawn failed: enoent\""));
    assert_eq!(
        quiet(tell(&mut worker, WorkerEvent::Closed)),
        WorkerTask::Exit { error: None, shutdown: false }
    );
}

#[test]
fn other_frames_end_the_worker() {
    assert_eq!(
        failure(tell(&mut ready(), line(r#"{"type":"a\"b"}"#))),
        "unexpected frame type Some(\"a\\\"b\")"
    );
    assert_eq!(failure(tell(&mut ready(), line("{}"))), "unexpected frame type None");
    assert_eq!(
        failure(tell(&mut running(), WorkerEvent::NoResult)),
        "prompt result channel closed"
    );
    let step = tell(&mut ready(), line(r#"{"type":"cancel","turn_id":"t9"}"#));
    assert_eq!(written(&step), "{\"turn_id\":\"t9\",\"type\":\"canceled\"}\n");
}

#[test]
fn each_worker_has_a_session_of_its_own() {
    let session = || {
        let mut worker = Worker::new("codex".to_string());
        let step = tell(&mut worker, line(HELLO));
        let frame = decode(&step.write.unwrap()).unwrap();
        frame.get_str("session").unwrap().to_string()
    };
    let one = session();
    assert_eq!(one.len(), 36);
    assert_eq!(one.as_bytes()[14], b'4');
    assert!("89ab".contains(one.as_bytes()[19] as char));
    assert_ne!(one, session());
}

#[test]
fn the_base_prompt_is_chosen() {
    let own = || Some("own".to_string());
    assert_eq!(base_prompt(true, own(), "standing"), None);
    assert_eq!(base_prompt(false, own(), "standing").as_deref(), Some("own"));
    assert_eq!(base_prompt(false, None, "standing").as_deref(), Some("standing"));
}

#[test]
fn the_first_agent_is_taken() {
    let mut slots = vec![None, Some(1), Some(2)];
    assert_eq!(take_first(&mut slots), Some(1));
    assert_eq!(slots, vec![None, None, Some(2)]);
    assert_eq!(take_first(&mut slots), Some(2));
    assert_eq!(take_first(&mut slots), None);
}

#[test]
fn the_owner_is_read_from_hexadecimal() {
    assert_eq!(owner_pubkey(Some(&"0F".repeat(32))), Some([15; 32]));
    assert_eq!(owner_pubkey(Some(&"0f".repeat(31))), None);
    assert_eq!(owner_pubkey(Some(&"0g".repeat(32))), None);
    assert_eq!(owner_pubkey(None), None);
}

#[test]
fn a_line_that_was_read_is_acted_on() {
    assert_eq!(failure(worker().greeted(Err("bad".to_string()))), "bad");
    assert_eq!(failure(worker().greeted(Ok(Json::Null))), "first frame was not a gwp/0 hello");
    assert_eq!(worker().greeted(decode(HELLO.as_bytes())).task, WorkerTask::Read);
    assert_eq!(failure(ready().asked(Err("bad".to_string()))), "bad");
    let turn = Json::object().with("type", Json::text("turn")).with("task", Json::text("p"));
    assert_eq!(quiet(ready().asked(Ok(turn))), WorkerTask::Decode("p".to_string()));
}

#[test]
fn an_agent_works_in_the_directory_of_the_process() {
    assert_eq!(working_directory(Some("/srv".to_string())), "/srv");
    assert_eq!(working_directory(None), "/");
}
