use buzz_gateway::json::{decode, encode, Json};
use buzz_gateway::outcome::TurnOutcome;
use buzz_gateway::publish::{
    plan_reply, publication_outcome, Message, Publication, Reply, ReplyAction, ReplyEvent,
    ReplyPlan,
};
use buzz_gateway::shared_gateway::{
    admitted, greeting, prompt, prompt_args, read_frame, submission_from_digest, submission_id, task_id,
    frame_verdict, take_byte, task_state, terminal, text_chunk, BatchEvent, Connection,
    FlushBatch, Settled, MAX_FRAME, MAX_PENDING_EVENTS,
};
use buzz_gateway::shared_turn::{Action, Event, SharedTurn, RECONNECT_ATTEMPTS};
use buzz_gateway::wire::{ErrorKind, Wait, WireError};

fn json(text: &str) -> Json {
    decode(text.as_bytes()).unwrap()
}

fn event(id: [u8; 32], root: Option<&str>) -> BatchEvent {
    BatchEvent { id, root_event_id: root.map(|r| r.to_string()) }
}

fn batch(events: Vec<BatchEvent>) -> FlushBatch {
    FlushBatch { channel_id: 7, events }
}

fn counting() -> [u8; 32] {
    let mut id = [0u8; 32];
    for (i, byte) in id.iter_mut().enumerate() {
        *byte = i as u8;
    }
    id
}

#[test]
fn the_submission_id_is_a_digest_of_route_and_event_ids() {
    let events = vec![event([0xab; 32], None), event(counting(), None)];
    assert_eq!(
        submission_id("repo-main", &batch(events)),
        "buzz-04d499cfe9c44ab20d27db2be659807c1e9785729dfd4d02ccedd3cead70972c"
    );
    assert_eq!(
        submission_id("r", &batch(vec![])),
        "buzz-a3bab363ccf485597013d097bd6ba70876ad316f744b62f0527d53d4be96b316"
    );
    assert_eq!(submission_from_digest(&[0x0f, 0xf0]), "buzz-0ff0");
}

#[test]
fn the_event_ids_alone_tell_submissions_apart() {
    let one = submission_id("r", &batch(vec![event([1; 32], None), event([2; 32], None)]));
    let tagged = submission_id("r", &batch(vec![event([1; 32], Some("x")), event([2; 32], None)]));
    let swapped = submission_id("r", &batch(vec![event([2; 32], None), event([1; 32], None)]));
    let elsewhere = submission_id("s", &batch(vec![event([1; 32], None), event([2; 32], None)]));
    assert_eq!(one, tagged);
    assert_ne!(one, swapped);
    assert_ne!(one, elsewhere);
}

#[test]
fn a_route_is_greeted_and_admitted() {
    assert_eq!(greeting("a-B_9.z").unwrap(), b"AGW-SHARED/1\na-B_9.z\n");
    assert!(greeting(&"x".repeat(128)).is_ok());
    for bad in ["", "a b", "a\n", "é", &"x".repeat(129)] {
        let error = greeting(bad).unwrap_err();
        assert_eq!(error.kind, ErrorKind::InvalidInput);
        assert_eq!(error.message, "invalid shared route");
    }
    assert!(admitted(b"OK").is_ok());
    let refused = admitted(b"NO").unwrap_err();
    assert_eq!(refused.kind, ErrorKind::PermissionDenied);
    assert_eq!(refused.message, "shared route refused");
    assert!(read_frame(b"{}").is_ok());
    assert_eq!(read_frame(b"{").unwrap_err().kind, ErrorKind::Other);
}

#[test]
fn requests_are_numbered_and_matched_with_their_replies() {
    let mut connection = Connection::new();
    assert_eq!(
        connection.request(json(r#"{"op":"task"}"#)).unwrap(),
        b"{\"id\":\"1\",\"op\":\"task\"}\n"
    );
    match connection.settle(json(r#"{"type":"reply","id":"2","result":1}"#)) {
        Settled::Failed(error) => {
            assert_eq!(error.kind, ErrorKind::InvalidData);
            assert_eq!(error.message, "unexpected shared frame");
        }
        other => panic!("{other:?}"),
    }
    match connection.settle(json(r#"{"type":"reply","id":"1","result":{"a":1}}"#)) {
        Settled::Reply(value) => assert_eq!(encode(&value), r#"{"a":1}"#),
        other => panic!("{other:?}"),
    }
    assert_eq!(connection.settle(json(r#"{"type":"reply","id":"1"}"#)), Settled::Reply(Json::Null));
    let refusals = [
        (r#"{"type":"refusal","id":"1","reason":"busy"}"#, ErrorKind::WouldBlock, "busy"),
        (r#"{"type":"refusal","id":"1","reason":"no"}"#, ErrorKind::PermissionDenied, "no"),
        (r#"{"type":"refusal","id":"1"}"#, ErrorKind::PermissionDenied, "unknown"),
    ];
    for (frame, kind, reason) in refusals {
        assert_eq!(
            connection.settle(json(frame)),
            Settled::Failed(WireError::new(kind, &format!("shared gateway refused: {reason}")))
        );
    }
    assert_eq!(connection.request(json("[]")).unwrap_err().message, "invalid request");
    let large = Json::object().with("prompt", Json::text(&"x".repeat(MAX_FRAME)));
    let error = connection.request(large).unwrap_err();
    assert_eq!(error.kind, ErrorKind::InvalidInput);
    assert_eq!(error.message, "shared request too large");
}

#[test]
fn events_wait_in_order_up_to_a_limit() {
    let mut connection = Connection::new();
    assert!(connection.request(json("{}")).is_ok());
    for i in 0..MAX_PENDING_EVENTS {
        let frame = json(&format!(r#"{{"type":"event","sequence":{i}}}"#));
        assert_eq!(connection.settle(frame), Settled::Waiting);
    }
    match connection.settle(json(r#"{"type":"gap"}"#)) {
        Settled::Failed(error) => assert_eq!(error.message, "shared event queue overflow"),
        other => panic!("{other:?}"),
    }
    for i in 0..MAX_PENDING_EVENTS {
        let frame = connection.next_event().unwrap();
        assert_eq!(frame.get("sequence").unwrap().as_u64(), Some(i as u64));
    }
    assert!(connection.next_event().is_none());
}

#[test]
fn frames_are_read() {
    assert_eq!(task_id(&json(r#"{"task_id":"t"}"#)), Some("t"));
    assert_eq!(task_id(&json(r#"{"task_id":1}"#)), None);
    assert_eq!(task_state(&json(r#"{"state":"running"}"#)).unwrap(), "running");
    assert_eq!(task_state(&json("null")).unwrap_err().message, "shared task disappeared");
    assert_eq!(terminal("running"), None);
    assert_eq!(terminal("canceled"), Some(TurnOutcome::Canceled));
    let chunk = r#"{"kind":"acp_update","payload":{"params":{"update":{"sessionUpdate":"agent_message_chunk","content":{"text":"hi"}}}}}"#;
    assert_eq!(text_chunk(&json(chunk)), Some("hi"));
    assert_eq!(text_chunk(&json(&chunk.replace("acp_update", "terminal"))), None);
    assert_eq!(text_chunk(&json(&chunk.replace("agent_message_chunk", "tool_call"))), None);
    assert_eq!(text_chunk(&json(&chunk.replace("\"hi\"", "1"))), None);
}

#[test]
fn a_prompt_ends_with_the_publication_notice() {
    let text = prompt(vec!["one".to_string(), "two".to_string()]);
    assert!(text.starts_with("one\n\ntwo\n\nReply in your ACP response text."));
    assert!(text.ends_with("Do not send a duplicate reply with the Buzz CLI."));
}

fn ask(turn: &mut SharedTurn, event: Event) -> Action {
    assert!(turn.awaits(&event));
    turn.step(event)
}

fn op(action: &Action) -> String {
    match action {
        Action::Request(op) => encode(op),
        other => panic!("{other:?}"),
    }
}

fn reply(text: &str) -> Event {
    Event::Reply(json(text))
}

fn lost() -> Event {
    Event::Failed(WireError::new(ErrorKind::Other, "lost"))
}

/// A turn that has connected and looks its submission up.
fn looking_up() -> SharedTurn {
    let mut turn = SharedTurn::new("buzz-1".to_string(), "do it".to_string());
    assert_eq!(ask(&mut turn, Event::Clock { expired: false }), Action::ReadStop);
    assert_eq!(ask(&mut turn, Event::Stop(false)), Action::Connect);
    assert_eq!(
        op(&ask(&mut turn, Event::Connected)),
        r#"{"op":"submission","submission_id":"buzz-1"}"#
    );
    turn
}

/// A turn that has submitted its prompt and listens.
fn listening() -> SharedTurn {
    let mut turn = looking_up();
    assert_eq!(op(&ask(&mut turn, reply("null"))), r#"{"op":"route_session"}"#);
    assert_eq!(
        op(&ask(&mut turn, reply("null"))),
        r#"{"op":"submit","prompt":"do it","session_id":null,"submission_id":"buzz-1"}"#
    );
    assert_eq!(
        op(&ask(&mut turn, reply(r#"{"admission":"accepted","task":{"task_id":"t1"}}"#))),
        r#"{"op":"task","task_id":"t1"}"#
    );
    assert_eq!(
        op(&ask(&mut turn, reply(r#"{"state":"running"}"#))),
        r#"{"after_sequence":0,"op":"attach","task_id":"t1"}"#
    );
    assert_eq!(ask(&mut turn, reply("{}")), Action::ReadStop);
    assert_eq!(ask(&mut turn, Event::Stop(false)), Action::Listen);
    turn
}

fn chunk(sequence: u64, text: &str) -> Event {
    let update = Json::object()
        .with("sessionUpdate", Json::text("agent_message_chunk"))
        .with("content", Json::object().with("text", Json::text(text)));
    let payload = Json::object().with("params", Json::object().with("update", update));
    Event::Frame(
        Json::object()
            .with("type", Json::text("event"))
            .with("task_id", Json::text("t1"))
            .with("sequence", Json::number(sequence))
            .with("kind", Json::text("acp_update"))
            .with("payload", payload),
    )
}

fn unknown(action: Action) -> String {
    match action {
        Action::Finish(TurnOutcome::UnknownOutcome { reason }) => reason,
        other => panic!("{other:?}"),
    }
}

#[test]
fn a_completed_turn_publishes_its_whole_reply_once() {
    let mut turn = listening();
    assert_eq!(ask(&mut turn, chunk(1, "Hello, ")), Action::Listen);
    assert_eq!(ask(&mut turn, Event::StopSignal(false)), Action::Listen);
    assert_eq!(ask(&mut turn, chunk(2, "world")), Action::Listen);
    let end = r#"{"type":"event","task_id":"t1","sequence":3,"kind":"terminal"}"#;
    assert_eq!(
        op(&ask(&mut turn, Event::Frame(json(end)))),
        r#"{"op":"task","task_id":"t1"}"#
    );
    assert_eq!(
        ask(&mut turn, reply(r#"{"state":"completed"}"#)),
        Action::Publish("Hello, world".to_string())
    );
    let outcome = TurnOutcome::Completed { summary: "shared reply published".to_string() };
    assert_eq!(
        ask(&mut turn, Event::Published(outcome.clone())),
        Action::Finish(outcome)
    );
    assert!(!turn.awaits(&Event::Connected));
}

#[test]
fn a_missing_acknowledgment_is_looked_up_and_never_submitted_again() {
    let mut turn = looking_up();
    ask(&mut turn, reply("null"));
    ask(&mut turn, reply("\"s1\""));
    assert_eq!(ask(&mut turn, lost()), Action::CheckClock);
    assert_eq!(ask(&mut turn, Event::Clock { expired: false }), Action::Rest);
    assert_eq!(ask(&mut turn, Event::Stop(true)), Action::Connect);
    ask(&mut turn, Event::Connected);
    assert_eq!(
        unknown(ask(&mut turn, reply("null"))),
        "submission buzz-1 was not found after an uncertain submit; inspect gateway journal"
    );
}

#[test]
fn a_turn_goes_on_where_it_lost_the_connection() {
    let mut turn = listening();
    ask(&mut turn, chunk(1, "a"));
    assert_eq!(ask(&mut turn, lost()), Action::CheckClock);
    ask(&mut turn, Event::Clock { expired: false });
    ask(&mut turn, Event::Stop(false));
    ask(&mut turn, Event::Connected);
    ask(&mut turn, reply(r#"{"task_id":"t1"}"#));
    assert_eq!(
        op(&ask(&mut turn, reply(r#"{"state":"running"}"#))),
        r#"{"after_sequence":1,"op":"attach","task_id":"t1"}"#
    );
    assert_eq!(op(&ask(&mut turn, reply("{}"))), r#"{"op":"reclaim","task_id":"t1"}"#);
    assert_eq!(ask(&mut turn, reply(r#"{"claimed":true}"#)), Action::ReadStop);
    assert_eq!(op(&ask(&mut turn, Event::Stop(true))), r#"{"op":"stop","task_id":"t1"}"#);
    assert_eq!(ask(&mut turn, reply("{}")), Action::Listen);
}

#[test]
fn a_gap_is_an_unknown_outcome() {
    let gap = "shared stream gap for task t1; inspect task before re-asking";
    assert_eq!(unknown(ask(&mut listening(), chunk(2, "late"))), gap);
    assert_eq!(unknown(ask(&mut listening(), chunk(1, &"x".repeat(MAX_FRAME + 1)))), gap);
    assert_eq!(unknown(ask(&mut listening(), Event::Frame(json(r#"{"type":"gap"}"#)))), gap);
    assert_eq!(
        unknown(ask(&mut listening(), Event::Frame(json(r#"{"type":"event","task_id":"t2"}"#)))),
        "invalid shared event stream"
    );
}

#[test]
fn permission_requests_are_canceled_and_others_stop_the_task() {
    let frame = r#"{"type":"event","task_id":"t1","sequence":1,"kind":"reverse_request","request_id":"r","payload":{"method":"session/request_permission"}}"#;
    let mut turn = listening();
    assert_eq!(
        op(&ask(&mut turn, Event::Frame(json(frame)))),
        r#"{"op":"respond","request_id":"r","response":{"outcome":{"outcome":"cancelled"}},"task_id":"t1"}"#
    );
    assert_eq!(ask(&mut turn, reply("{}")), Action::Listen);
    let mut turn = listening();
    let other = frame.replace("session/request_permission", "fs/write_text_file");
    assert_eq!(
        op(&ask(&mut turn, Event::Frame(json(&other)))),
        r#"{"op":"stop","task_id":"t1"}"#
    );
    assert_eq!(
        unknown(ask(&mut turn, lost())),
        "unsupported ACP reverse request; task stopped for reconciliation"
    );
}

#[test]
fn a_turn_out_of_time_is_stopped_and_unknown() {
    let mut turn = listening();
    assert_eq!(op(&ask(&mut turn, Event::Deadline)), r#"{"op":"stop","task_id":"t1"}"#);
    assert_eq!(
        unknown(ask(&mut turn, reply("{}"))),
        "shared turn exceeded Buzz's configured duration; inspect gateway task"
    );
    let mut turn = SharedTurn::new("buzz-1".to_string(), String::new());
    assert_eq!(
        unknown(ask(&mut turn, Event::Clock { expired: true })),
        "shared gateway unavailable; reconcile submission buzz-1 before re-asking"
    );
}

#[test]
fn a_terminal_frame_needs_a_terminal_state() {
    let end = r#"{"type":"event","task_id":"t1","sequence":1,"kind":"terminal"}"#;
    let at_end = || {
        let mut turn = listening();
        ask(&mut turn, Event::Frame(json(end)));
        turn
    };
    assert_eq!(
        unknown(ask(&mut at_end(), reply(r#"{"state":"running"}"#))),
        "terminal frame without terminal state"
    );
    assert_eq!(
        unknown(ask(&mut at_end(), reply("{}"))),
        "terminal state unavailable: shared task disappeared"
    );
    assert_eq!(unknown(ask(&mut at_end(), lost())), "terminal state unavailable: lost");
    assert_eq!(
        ask(&mut at_end(), reply(r#"{"state":"failed"}"#)),
        Action::Finish(TurnOutcome::Failed { reason: "shared turn failed".to_string() })
    );
}

#[test]
fn a_stop_before_anything_was_submitted_cancels() {
    let mut turn = SharedTurn::new("buzz-1".to_string(), String::new());
    ask(&mut turn, Event::Clock { expired: false });
    assert_eq!(ask(&mut turn, Event::Stop(true)), Action::Finish(TurnOutcome::Canceled));
}

#[test]
fn a_busy_gateway_is_asked_again_and_a_refusal_fails() {
    let mut turn = looking_up();
    ask(&mut turn, reply("null"));
    ask(&mut turn, reply("null"));
    let busy = WireError::new(ErrorKind::WouldBlock, "shared gateway refused: busy");
    assert_eq!(ask(&mut turn, Event::Failed(busy)), Action::CheckClock);
    ask(&mut turn, Event::Clock { expired: false });
    ask(&mut turn, Event::Stop(false));
    ask(&mut turn, Event::Connected);
    assert_eq!(op(&ask(&mut turn, reply("null"))), r#"{"op":"route_session"}"#);
    ask(&mut turn, reply("null"));
    let denied = WireError::new(ErrorKind::PermissionDenied, "shared gateway refused: no");
    assert_eq!(
        ask(&mut turn, Event::Failed(denied)),
        Action::Finish(TurnOutcome::Failed { reason: "shared gateway refused: no".to_string() })
    );
}

#[test]
fn malformed_replies_fail_the_turn() {
    let mut turn = looking_up();
    ask(&mut turn, reply("null"));
    assert_eq!(
        ask(&mut turn, reply("1")),
        Action::Finish(TurnOutcome::Failed { reason: "invalid shared session reply".to_string() })
    );
    let mut turn = looking_up();
    ask(&mut turn, reply("null"));
    ask(&mut turn, reply("null"));
    assert_eq!(
        ask(&mut turn, reply("{}")),
        Action::Finish(TurnOutcome::Failed { reason: "shared submit omitted task ID".to_string() })
    );
    let mut turn = listening();
    ask(&mut turn, lost());
    ask(&mut turn, Event::Clock { expired: false });
    ask(&mut turn, Event::Stop(false));
    ask(&mut turn, Event::Connected);
    assert_eq!(
        unknown(ask(&mut turn, reply(r#"{"task_id":"t2"}"#))),
        "submission resolved to a different task"
    );
}

#[test]
fn connecting_is_tried_a_limited_number_of_times() {
    let mut turn = SharedTurn::new("buzz-1".to_string(), String::new());
    let mut connects = 0;
    let reason = loop {
        match ask(&mut turn, Event::Clock { expired: false }) {
            Action::Finish(TurnOutcome::UnknownOutcome { reason }) => break reason,
            _ => {}
        }
        assert_eq!(ask(&mut turn, Event::Stop(false)), Action::Connect);
        connects += 1;
        assert_eq!(ask(&mut turn, lost()), Action::CheckClock);
    };
    assert_eq!(connects, RECONNECT_ATTEMPTS);
    assert_eq!(reason, "shared gateway unavailable; reconcile submission buzz-1 before re-asking");
}

fn message(content: &str, root: [u8; 32]) -> Message {
    Message {
        channel_id: 7,
        content: content.to_string(),
        root,
        parent: root,
        mentions: vec![],
        broadcast: false,
        attachments: vec![],
        tags: vec![],
    }
}

#[test]
fn a_reply_goes_to_the_thread_of_the_last_event() {
    let untagged = batch(vec![event([9; 32], Some("zz")), event([5; 32], None)]);
    assert_eq!(plan_reply(&untagged, " hi\n"), ReplyPlan::Send(message(" hi\n", [5; 32])));
    let tagged = batch(vec![event([5; 32], Some(&"0A".repeat(32)))]);
    assert_eq!(plan_reply(&tagged, "hi"), ReplyPlan::Send(message("hi", [10; 32])));
    assert_eq!(
        plan_reply(&batch(vec![event([5; 32], Some("xyz"))]), "hi"),
        ReplyPlan::Settled(TurnOutcome::Failed { reason: "invalid Buzz reply root".to_string() })
    );
    assert_eq!(
        plan_reply(&batch(vec![]), "hi"),
        ReplyPlan::Settled(TurnOutcome::Failed { reason: "empty Buzz batch".to_string() })
    );
    assert_eq!(
        plan_reply(&batch(vec![]), " \n\t"),
        ReplyPlan::Settled(TurnOutcome::Completed {
            summary: "shared turn returned no reply text".to_string()
        })
    );
}

#[test]
fn a_reply_that_may_have_left_never_fails() {
    let error = || "e".to_string();
    let outcomes = [
        (Publication::NotBuilt(error()), "could not build Buzz reply: e"),
        (Publication::NotSigned(error()), "could not sign Buzz reply: e"),
    ];
    for (publication, reason) in outcomes {
        assert_eq!(
            publication_outcome(&publication),
            TurnOutcome::Failed { reason: reason.to_string() }
        );
    }
    let outcomes = [
        (Publication::Unconfirmed(error()), "Buzz reply publication outcome uncertain: e"),
        (
            Publication::TimedOut,
            "Buzz reply publication timed out; inspect channel before re-asking",
        ),
    ];
    for (publication, reason) in outcomes {
        assert_eq!(
            publication_outcome(&publication),
            TurnOutcome::UnknownOutcome { reason: reason.to_string() }
        );
    }
    assert_eq!(
        publication_outcome(&Publication::Accepted),
        TurnOutcome::Completed { summary: "shared reply published".to_string() }
    );
}

#[test]
fn an_overlong_line_is_invalid_data() {
    let mut line: Vec<u8> = Vec::new();
    assert_eq!(take_byte(&mut line, 1, b'a'), Ok(false));
    assert_eq!(
        take_byte(&mut line, 1, b'b'),
        Err(WireError::new(ErrorKind::InvalidData, "shared frame too large"))
    );
    assert_eq!(line, b"a");
    assert_eq!(take_byte(&mut line, 1, b'\n'), Ok(true));
    assert_eq!(
        frame_verdict(Err("bad".to_string())),
        Err(WireError::new(ErrorKind::Other, "bad"))
    );
}

#[test]
fn waits_are_limited() {
    assert_eq!(Wait::SharedConnect.limit_ms(), 5000);
    assert_eq!(Wait::SharedAdmission.limit_ms(), 5000);
    assert_eq!(Wait::SharedReply.limit_ms(), 10000);
    assert_eq!(Wait::GatewayCall.limit_ms(), 10000);
    let complaints = [
        (Wait::SharedConnect, "shared connect timed out"),
        (Wait::SharedAdmission, "shared admission timed out"),
        (Wait::SharedReply, "shared reply timed out"),
        (Wait::GatewayCall, "gateway request timed out"),
    ];
    for (wait, message) in complaints {
        assert_eq!(wait.timed_out(), WireError::new(ErrorKind::TimedOut, message));
    }
}

#[test]
fn a_turn_is_that_of_its_batch() {
    let batch = batch(vec![event([0xab; 32], None), event(counting(), None)]);
    let id = submission_id("repo-main", &batch);
    assert_eq!(id.len(), 69);
    let mut turn = SharedTurn::for_batch("repo-main", &batch, vec!["hello".to_string()]);
    ask(&mut turn, Event::Clock { expired: false });
    ask(&mut turn, Event::Stop(false));
    assert_eq!(
        op(&ask(&mut turn, Event::Connected)),
        format!(r#"{{"op":"submission","submission_id":"{id}"}}"#)
    );
    ask(&mut turn, reply("null"));
    match ask(&mut turn, reply("null")) {
        Action::Request(op) => {
            assert!(op.field_is("submission_id", &id));
            assert!(op.field_is("prompt", &prompt(vec!["hello".to_string()])));
        }
        other => panic!("{other:?}"),
    }
}

fn tell(reply: &mut Reply, event: ReplyEvent) -> ReplyAction {
    assert!(reply.awaits(&event));
    reply.step(event)
}

#[test]
fn a_reply_is_submitted_once_with_a_limit() {
    let begin = || Reply::begin(&batch(vec![event([5; 32], None)]), " hi ");
    let failed = || ReplyEvent::Failed("e".to_string());
    let (mut reply, first) = begin();
    assert_eq!(first, ReplyAction::Build(message(" hi ", [5; 32])));
    assert!(!reply.awaits(&ReplyEvent::TimedOut));
    assert_eq!(tell(&mut reply, ReplyEvent::Done), ReplyAction::Sign);
    assert_eq!(tell(&mut reply, ReplyEvent::Done), ReplyAction::Submit { limit_ms: 5000 });
    assert_eq!(
        tell(&mut reply, ReplyEvent::Done),
        ReplyAction::Finish(TurnOutcome::Completed {
            summary: "shared reply published".to_string()
        })
    );
    assert!(!reply.awaits(&ReplyEvent::Done));
    let reasons = ["could not build Buzz reply: e", "could not sign Buzz reply: e"];
    for (steps, reason) in reasons.iter().enumerate() {
        let (mut reply, _) = begin();
        for _ in 0..steps {
            tell(&mut reply, ReplyEvent::Done);
        }
        assert_eq!(
            tell(&mut reply, failed()),
            ReplyAction::Finish(TurnOutcome::Failed { reason: reason.to_string() })
        );
    }
    let ends = [
        (failed(), "Buzz reply publication outcome uncertain: e"),
        (
            ReplyEvent::TimedOut,
            "Buzz reply publication timed out; inspect channel before re-asking",
        ),
    ];
    for (end, reason) in ends {
        let (mut reply, _) = begin();
        tell(&mut reply, ReplyEvent::Done);
        tell(&mut reply, ReplyEvent::Done);
        assert_eq!(
            tell(&mut reply, end),
            ReplyAction::Finish(TurnOutcome::UnknownOutcome { reason: reason.to_string() })
        );
    }
    let (reply, action) = Reply::begin(&batch(vec![]), "hi");
    assert!(!reply.awaits(&ReplyEvent::Done));
    assert_eq!(
        action,
        ReplyAction::Finish(TurnOutcome::Failed { reason: "empty Buzz batch".to_string() })
    );
}

#[test]
fn the_prompt_leaves_publishing_to_the_harness() {
    let args = prompt_args(Ok::<Option<u8>, ()>(Some(3)), Some("s".to_string()), None);
    assert_eq!(args.channel_info, Some(3));
    assert_eq!(args.base_prompt, None);
    assert_eq!(args.system_prompt.as_deref(), Some("s"));
    assert_eq!(args.team_instructions, None);
    assert!(args.harness_publishes_reply);
    assert_eq!(prompt_args(Err::<Option<u8>, ()>(()), None, None).channel_info, None);
}
