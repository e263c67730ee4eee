use buzz_gateway::control_client::{check_descriptor, ControlDescriptor};
use buzz_gateway::json::{decode, encode, Json};
use buzz_gateway::local_control::{
    api_error, authorize, default_channel_type, default_channel_visibility, describe,
    issue_token, require_approval, token_from, Answer, ControlCall, ControlStep, DesktopCommand,
    Handling, Report, BAD_REQUEST, INTERNAL_SERVER_ERROR, PRECONDITION_REQUIRED, UNAUTHORIZED,
};

fn json(text: &str) -> Json {
    decode(text.as_bytes()).unwrap()
}

#[test]
fn mutation_approval_is_fail_closed() {
    let error = require_approval(false).expect_err("missing approval must fail");
    assert_eq!(error.status, PRECONDITION_REQUIRED);
    assert!(require_approval(true).is_ok());
}

#[test]
fn bearer_auth_requires_exact_token() {
    assert_eq!(authorize(None, "secret").unwrap_err().status, UNAUTHORIZED);
    assert_eq!(
        authorize(Some(b"Bearer wrong"), "secret").unwrap_err().status,
        UNAUTHORIZED
    );
    assert!(authorize(Some(b"Bearer secret"), "secret").is_ok());
}

#[test]
fn near_misses_are_not_authorized() {
    let misses: [&[u8]; 6] = [
        b"bearer secret",
        b"Bearer secret ",
        b"Bearer  secret",
        b"Bearer secre",
        b"secret",
        b"",
    ];
    for header in misses {
        assert_eq!(authorize(Some(header), "secret").unwrap_err().status, UNAUTHORIZED);
    }
    assert!(authorize(Some("Bearer é".as_bytes()), "é").is_err());
}

#[test]
fn errors_carry_their_phrase() {
    assert_eq!(
        encode(&api_error(BAD_REQUEST, "no such agent").body),
        r#"{"error":"Bad Request","message":"no such agent","ok":false}"#
    );
    let phrases = [
        (UNAUTHORIZED, "Unauthorized"),
        (PRECONDITION_REQUIRED, "Precondition Required"),
        (INTERNAL_SERVER_ERROR, "Internal Server Error"),
        (404, "Not Found"),
        (599, "error"),
    ];
    for (status, phrase) in phrases {
        let answer = api_error(status, "m");
        assert_eq!(answer.status, status);
        assert!(answer.body.field_is("error", phrase));
    }
}

fn receive(call: ControlCall) -> (Handling, ControlStep) {
    Handling::receive(call, Some(b"Bearer t"), "t", 42)
}

fn run(call: ControlCall) -> (Handling, DesktopCommand) {
    match receive(call) {
        (handling, ControlStep::Run(command)) => (handling, command),
        (_, other) => panic!("{other:?}"),
    }
}

fn told(handling: &mut Handling, report: Report) -> ControlStep {
    assert!(!handling.answered());
    assert!(handling.suited(&report));
    handling.step(report)
}

fn answer(step: ControlStep) -> Answer {
    match step {
        ControlStep::Respond(answer) => answer,
        other => panic!("{other:?}"),
    }
}

fn body(call: ControlCall, value: &str) -> String {
    let (mut handling, _) = run(call);
    let answer = answer(told(&mut handling, Report::Value(json(value))));
    assert!(handling.answered());
    assert_eq!(answer.status, 200);
    encode(&answer.body)
}

fn start(approve: bool) -> ControlCall {
    ControlCall::StartAgent { pubkey: "k".to_string(), approve }
}

#[test]
fn the_token_comes_before_the_approval() {
    let (handling, step) = Handling::receive(start(false), Some(b"Bearer x"), "t", 42);
    assert!(handling.answered());
    assert_eq!(
        encode(&answer(step).body),
        r#"{"error":"Unauthorized","message":"missing or invalid desktop control token","ok":false}"#
    );
    let (_, step) = Handling::receive(ControlCall::Status, None, "t", 42);
    assert_eq!(answer(step).status, UNAUTHORIZED);
}

#[test]
fn changes_are_refused_without_approval() {
    let key = || "k".to_string();
    let calls = vec![
        ControlCall::CreateAgent { approve: false },
        start(false),
        ControlCall::StopAgent { pubkey: key(), approve: false },
        ControlCall::RestartAgent { pubkey: key(), approve: false },
        ControlCall::DeleteAgent { pubkey: key(), approve: false },
        ControlCall::CreateChannel {
            approve: false,
            name: key(),
            channel_type: key(),
            visibility: key(),
            description: None,
        },
        ControlCall::SetCanvas { channel_id: key(), approve: false, content: key() },
        ControlCall::AddMembers {
            channel_id: key(),
            approve: false,
            pubkeys: vec![],
            role: None,
        },
        ControlCall::DeleteChannel { channel_id: key(), approve: false },
    ];
    for call in calls {
        let (handling, step) = receive(call);
        assert!(handling.answered());
        let answer = answer(step);
        assert_eq!(answer.status, PRECONDITION_REQUIRED);
        assert!(answer.body.field_is(
            "message",
            "managed-agent mutations require explicit approval"
        ));
    }
}

#[test]
fn the_status_is_told() {
    let (_, step) = receive(ControlCall::Status);
    assert_eq!(
        encode(&answer(step).body),
        r#"{"ok":true,"pid":42,"schema_version":1,"service":"buzz-desktop-control"}"#
    );
}

#[test]
fn agents_are_listed() {
    assert_eq!(body(ControlCall::ListAgents, "[1]"), r#"{"agents":[1],"ok":true}"#);
    let (mut handling, command) = run(ControlCall::ListAgents);
    assert_eq!(command, DesktopCommand::ListAgents);
    let answer = answer(told(&mut handling, Report::Failed("io".to_string())));
    assert_eq!(answer.status, INTERNAL_SERVER_ERROR);
    assert!(answer.body.field_is("message", "io"));
}

#[test]
fn an_agent_is_created() {
    let (mut handling, command) = run(ControlCall::CreateAgent { approve: true });
    assert_eq!(command, DesktopCommand::CreateAgent);
    assert!(!handling.suited(&Report::Value(Json::Null)));
    let report = Report::Created {
        agent: json(r#"{"pubkey":"k"}"#),
        profile_sync_error: Json::Null,
        spawn_error: Json::text("x"),
    };
    assert_eq!(
        encode(&answer(told(&mut handling, report)).body),
        r#"{"agent":{"pubkey":"k"},"ok":true,"private_key_saved":true,"profile_sync_error":null,"spawn_error":"x"}"#
    );
}

#[test]
fn an_agent_is_restarted_by_stopping_and_starting_it() {
    let call = || ControlCall::RestartAgent { pubkey: "k".to_string(), approve: true };
    let (mut handling, command) = run(call());
    assert_eq!(command, DesktopCommand::StopAgent("k".to_string()));
    assert_eq!(
        told(&mut handling, Report::Value(Json::Null)),
        ControlStep::Run(DesktopCommand::StartAgent("k".to_string()))
    );
    assert_eq!(
        encode(&answer(told(&mut handling, Report::Value(json("7")))).body),
        r#"{"agent":7,"ok":true}"#
    );
    let (mut handling, _) = run(call());
    let answer = answer(told(&mut handling, Report::Failed("busy".to_string())));
    assert_eq!(answer.status, BAD_REQUEST);
    assert!(handling.answered());
}

#[test]
fn other_commands_are_answered() {
    assert_eq!(body(start(true), "1"), r#"{"agent":1,"ok":true}"#);
    let stop = ControlCall::StopAgent { pubkey: "k".to_string(), approve: true };
    assert_eq!(body(stop, "1"), r#"{"agent":1,"ok":true}"#);
    let delete = ControlCall::DeleteAgent { pubkey: "k".to_string(), approve: true };
    assert_eq!(body(delete, "null"), r#"{"deleted":"k","ok":true}"#);
    let delete = ControlCall::DeleteChannel { channel_id: "c".to_string(), approve: true };
    assert_eq!(body(delete, "null"), r#"{"deleted":"c","ok":true}"#);
    let canvas = ControlCall::SetCanvas {
        channel_id: "c".to_string(),
        approve: true,
        content: "x".to_string(),
    };
    assert_eq!(body(canvas, "{}"), r#"{"canvas":{},"ok":true}"#);
    let create = ControlCall::CreateChannel {
        approve: true,
        name: "n".to_string(),
        channel_type: default_channel_type(),
        visibility: default_channel_visibility(),
        description: None,
    };
    let (_, command) = run(create);
    assert_eq!(
        command,
        DesktopCommand::CreateChannel {
            name: "n".to_string(),
            channel_type: "stream".to_string(),
            visibility: "private".to_string(),
            description: None,
            lifetime: None,
        }
    );
    let delete = ControlCall::DeleteAgent { pubkey: "k".to_string(), approve: true };
    assert_eq!(
        run(delete).1,
        DesktopCommand::DeleteAgent { pubkey: "k".to_string(), force: Some(false) }
    );
}

#[test]
fn members_are_added_where_no_error_is_listed() {
    let add = || ControlCall::AddMembers {
        channel_id: "c".to_string(),
        approve: true,
        pubkeys: vec!["k".to_string()],
        role: Some("bot".to_string()),
    };
    assert_eq!(
        run(add()).1,
        DesktopCommand::AddMembers {
            channel_id: "c".to_string(),
            pubkeys: vec!["k".to_string()],
            role: Some("bot".to_string()),
        }
    );
    for fine in ["{}", r#"{"errors":[]}"#, r#"{"errors":"x"}"#, "null"] {
        assert!(body(add(), fine).contains(r#""ok":true"#));
    }
    assert!(body(add(), r#"{"errors":["x"]}"#).contains(r#""ok":false"#));
}

#[test]
fn a_token_is_the_digits_of_two_uuids() {
    let a = 0x67e55044_10b1_426f_9247_bb680e5fe0c8;
    let token = token_from(a, 1);
    assert_eq!(token, "67e5504410b1426f9247bb680e5fe0c800000000000000000000000000000001");
    let issued = issue_token();
    assert_eq!(issued.len(), 64);
    assert!(issued.bytes().all(|b| b.is_ascii_hexdigit() && !b.is_ascii_uppercase()));
    assert_eq!(issued.as_bytes()[12], b'4');
    assert_eq!(issued.as_bytes()[44], b'4');
    assert_ne!(issued, issue_token());
}

#[test]
fn the_client_trusts_what_the_service_publishes() {
    let published = describe("127.0.0.1:4321", issue_token(), 42);
    assert_eq!(published.schema_version, 1);
    assert_eq!(published.url, "http://127.0.0.1:4321");
    assert_eq!(published.pid, 42);
    let header = format!("Bearer {}", published.token);
    assert!(authorize(Some(header.as_bytes()), &published.token).is_ok());
    let read = ControlDescriptor {
        schema_version: published.schema_version,
        url: published.url,
        token: published.token,
    };
    assert!(check_descriptor(&read).is_ok());
}
