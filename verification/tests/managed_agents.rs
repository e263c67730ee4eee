use buzz_gateway::control_client::{
    check_descriptor, descriptor_malformed, descriptor_unavailable, prepare, request_url, resolve_descriptor_path, response_value, response_verdict,
    validate_loopback_url, CliError, ControlDescriptor, ControlRequest, DescriptorPlace, Method,
};
use buzz_gateway::json::{decode, encode, Json};
use buzz_gateway::managed_agents::{
    agent_system_prompt, canvas_content, context_directory, context_root, dispatch,
    parse_agent_specs, printed, AgentSpec, ContextRoot, Decision, Found, ManagedAgentsCmd,
};
use buzz_gateway::provision::{ChannelPlan, ProvisionAction, ProvisionEvent, Provisioning};

fn json(text: &str) -> Json {
    decode(text.as_bytes()).unwrap()
}

#[test]
fn descriptor_override_wins() {
    let path = "/tmp/custom-control.json";
    for data_dir in [None, Some("/data")] {
        assert_eq!(
            resolve_descriptor_path(Some(path), data_dir).unwrap(),
            DescriptorPlace::Given(path)
        );
    }
}

#[test]
fn the_descriptor_is_in_the_data_directory() {
    assert_eq!(
        resolve_descriptor_path(None, Some("/data")).unwrap(),
        DescriptorPlace::Below {
            dir: "/data",
            bundle: "xyz.block.buzz.app".to_string(),
            file: "desktop-control.json".to_string(),
        }
    );
    assert_eq!(
        resolve_descriptor_path(None::<&str>, None).unwrap_err(),
        CliError::Other("could not resolve platform app-data directory".to_string())
    );
}

#[test]
fn control_url_is_fail_closed_to_loopback_http() {
    assert!(validate_loopback_url("http://127.0.0.1:1234").is_ok());
    assert!(validate_loopback_url("http://[::1]:1234").is_ok());
    assert!(validate_loopback_url("http://localhost:1234").is_err());
    assert!(validate_loopback_url("https://127.0.0.1:1234").is_err());
    assert!(validate_loopback_url("http://example.com:1234").is_err());
}

#[test]
fn a_control_url_is_taken_apart() {
    let url = validate_loopback_url("HTTP://127.1:80/x?y").unwrap();
    assert_eq!(url.scheme, "http");
    assert_eq!(url.host.as_deref(), Some("127.0.0.1"));
    assert_eq!(
        validate_loopback_url("http://user@example.com").unwrap_err(),
        CliError::Auth("desktop control URL must use HTTP on loopback".to_string())
    );
    assert_eq!(
        validate_loopback_url("not a url").unwrap_err(),
        CliError::Other("invalid desktop control URL: relative URL without a base".to_string())
    );
}

#[test]
fn requests_stay_on_the_machine() {
    let target = request_url("http://127.0.0.1:1234", "v1/managed-agents/a/start").unwrap();
    assert_eq!(target.url, "http://127.0.0.1:1234/v1/managed-agents/a/start");
    assert_eq!(target.parts.host.as_deref(), Some("127.0.0.1"));
    let target = request_url("http://[::1]:9", "v1/channels///example.com/../x").unwrap();
    assert_eq!(target.parts.host.as_deref(), Some("[::1]"));
    assert!(request_url("http://example.com", "v1/status").is_err());
    let error = request_url("http://127.0.0.1", "http://a:b").unwrap_err();
    assert_eq!(
        error,
        CliError::Other("build desktop control URL: invalid port number".to_string())
    );
}

fn descriptor(version: u8, url: &str, token: &str) -> ControlDescriptor {
    ControlDescriptor {
        schema_version: version,
        url: url.to_string(),
        token: token.to_string(),
    }
}

#[test]
fn short_descriptor_tokens_are_rejected() {
    let short = descriptor(1, "http://127.0.0.1:1234", "short");
    assert!(matches!(check_descriptor(&short), Err(CliError::Auth(_))));
}

#[test]
fn descriptors_are_checked() {
    let token = "t".repeat(32);
    assert!(check_descriptor(&descriptor(1, "http://127.0.0.1:1234", &token)).is_ok());
    assert!(check_descriptor(&descriptor(1, "http://127.0.0.1:1234", &"é".repeat(16))).is_ok());
    assert!(check_descriptor(&descriptor(1, "http://127.0.0.1:1234", &"t".repeat(31))).is_err());
    assert_eq!(
        check_descriptor(&descriptor(2, "http://example.com", "short")).unwrap_err(),
        CliError::Other("unsupported Buzz Desktop control schema 2".to_string())
    );
    assert_eq!(
        check_descriptor(&descriptor(1, "http://example.com", "short")).unwrap_err(),
        CliError::Auth("desktop control URL must use HTTP on loopback".to_string())
    );
}

#[test]
fn responses_are_values_or_errors() {
    assert_eq!(encode(&response_value(200, "{\"ok\":true}").unwrap()), "{\"ok\":true}");
    assert!(response_value(299, "1").is_ok());
    assert_eq!(
        response_value(300, "moved").unwrap_err(),
        CliError::Relay { status: 300, body: "moved".to_string() }
    );
    assert_eq!(
        response_value(428, "{}").unwrap_err(),
        CliError::Relay { status: 428, body: "{}".to_string() }
    );
    assert_eq!(
        response_value(200, "").unwrap_err(),
        CliError::Other(
            "invalid desktop control response: EOF while parsing a value at line 1 column 0"
                .to_string()
        )
    );
}

#[test]
fn agent_specs_require_nonempty_name_and_command() {
    let parsed = parse_agent_specs(&vec![
        "Dokploy-Codex=codex".to_string(),
        "Dokploy-Goose=goose".to_string(),
    ])
    .unwrap();
    assert_eq!(
        parsed,
        vec![
            AgentSpec {
                name: "Dokploy-Codex".to_string(),
                command: "codex".to_string(),
            },
            AgentSpec {
                name: "Dokploy-Goose".to_string(),
                command: "goose".to_string(),
            }
        ]
    );
    assert!(parse_agent_specs(&vec!["codex".to_string()]).is_err());
    assert!(parse_agent_specs(&vec!["=codex".to_string()]).is_err());
    assert!(parse_agent_specs(&vec!["Codex=".to_string()]).is_err());
}

#[test]
fn the_first_bad_agent_spec_is_reported() {
    let specs = vec!["a = b=c ".to_string(), "no \"pair\"".to_string(), "=".to_string()];
    assert_eq!(
        parse_agent_specs(&specs).unwrap_err(),
        CliError::Usage(
            "invalid --agent \"no \\\"pair\\\"\"; expected NAME=COMMAND".to_string()
        )
    );
    assert_eq!(
        parse_agent_specs(&vec![" = x".to_string()]).unwrap_err(),
        CliError::Usage(
            "invalid --agent \" = x\"; name and command are required".to_string()
        )
    );
    let parsed = parse_agent_specs(&specs[..1].to_vec()).unwrap();
    assert_eq!(parsed[0].name, "a");
    assert_eq!(parsed[0].command, "b=c");
}

#[test]
fn canvas_records_exact_context_and_roster() {
    let agents = vec![AgentSpec {
        name: "Dokploy-Codex".to_string(),
        command: "codex".to_string(),
    }];
    let content = canvas_content("dokploy", "/srv/dokploy", &agents);
    assert!(content.contains("`/srv/dokploy`"));
    assert!(content.contains("**Dokploy-Codex** — `codex`"));
}

#[test]
fn a_canvas_is_exactly_this() {
    let agent = |name: &str| AgentSpec { name: name.to_string(), command: "c".to_string() };
    assert_eq!(
        canvas_content("n", "/x", &vec![agent("a"), agent("b")]),
        "# n\n\n## Working context\n\n`/x`\n\n## Managed agents\n\n- **a** — `c`\n- **b** — `c`\n"
    );
}

#[test]
fn the_context_is_part_of_the_system_prompt() {
    let context = "Primary working context: /x. Treat that directory as the project root and follow its repository instructions.";
    assert_eq!(agent_system_prompt(None, "/x"), context);
    assert_eq!(agent_system_prompt(Some(" \n"), "/x"), context);
    assert_eq!(agent_system_prompt(Some(" Be kind. "), "/x"), format!("Be kind.\n\n{context}"));
}

#[test]
fn a_context_is_a_directory_somewhere() {
    assert_eq!(context_root(Some("~"), false, true), Ok(ContextRoot::Home));
    assert_eq!(context_root(Some("~"), true, true), Ok(ContextRoot::BelowHome));
    assert_eq!(
        context_root(Some("~"), true, false),
        Err(CliError::Other("could not resolve home directory".to_string()))
    );
    for first in [Some("~user"), Some("/"), Some("."), None] {
        assert_eq!(context_root(first, true, false), Ok(ContextRoot::AsGiven));
    }
    let found = |is_dir: bool| Ok(Found { path: 8, shown: "/y".to_string(), is_dir });
    assert_eq!(
        context_directory::<i32>("/x", Err("gone".to_string())),
        Err(CliError::Usage("invalid context directory /x: gone".to_string()))
    );
    assert_eq!(context_directory("/x", found(true)), Ok(8));
    assert_eq!(
        context_directory("/x", found(false)),
        Err(CliError::Usage("context must be a directory: /y".to_string()))
    );
}

#[test]
fn a_parsed_response_is_a_value_or_an_error() {
    let bad = || Err("bad".to_string());
    assert_eq!(response_verdict(204, "x", Ok(Json::Null)), Ok(Json::Null));
    assert_eq!(
        response_verdict(200, "x", bad()),
        Err(CliError::Other("invalid desktop control response: bad".to_string()))
    );
    assert_eq!(
        response_verdict(199, "x", bad()),
        Err(CliError::Relay { status: 199, body: "x".to_string() })
    );
}

#[test]
fn every_port_of_the_loopback_address_is_trusted() {
    for port in [0u16, 1, 80, 443, 65535] {
        let url = format!("http://127.0.0.1:{port}");
        assert_eq!(validate_loopback_url(&url).unwrap().host.as_deref(), Some("127.0.0.1"));
    }
    assert!(validate_loopback_url("http://127.0.0.1:65536").is_err());
}

fn sent(decision: Result<Decision, CliError>) -> (Method, String, Option<String>) {
    match decision {
        Ok(Decision::Send(request)) => wire(&request),
        other => panic!("{other:?}"),
    }
}

fn wire(request: &ControlRequest) -> (Method, String, Option<String>) {
    (request.method, request.route.clone(), request.body.as_ref().map(encode))
}

fn shown(decision: Result<Decision, CliError>) -> Json {
    match decision {
        Ok(Decision::Show(plan)) => plan,
        other => panic!("{other:?}"),
    }
}

#[test]
fn reading_commands_need_no_approval() {
    assert_eq!(
        sent(dispatch(ManagedAgentsCmd::Status, Ok(()))),
        (Method::Get, "v1/status".to_string(), None)
    );
    assert_eq!(
        sent(dispatch(ManagedAgentsCmd::List, Ok(()))),
        (Method::Get, "v1/managed-agents".to_string(), None)
    );
}

#[test]
fn lifecycle_commands_are_shown_until_approved() {
    let start = |approve: bool| ManagedAgentsCmd::Start { pubkey: "ab".to_string(), approve };
    assert_eq!(
        printed(&shown(dispatch(start(false), Ok(())))),
        r#"{"action":"start_managed_agent","approval_required":true,"executed":false,"message":"Review this plan, then rerun the same command with --approve.","ok":true,"target":{"pubkey":"ab"}}"#
    );
    assert_eq!(
        sent(dispatch(start(true), Ok(()))),
        (
            Method::Post,
            "v1/managed-agents/ab/start".to_string(),
            Some(r#"{"approve":true}"#.to_string())
        )
    );
    let bad = || Err(CliError::Usage("bad key".to_string()));
    assert_eq!(dispatch(start(false), bad()).unwrap_err(), bad().unwrap_err());
    let delete = |approve: bool| ManagedAgentsCmd::Delete { pubkey: "ab".to_string(), approve };
    assert!(shown(dispatch(delete(false), Ok(()))).field_is("action", "delete_managed_agent"));
    assert_eq!(
        sent(dispatch(delete(true), Ok(()))),
        (
            Method::Delete,
            "v1/managed-agents/ab".to_string(),
            Some(r#"{"approve":true}"#.to_string())
        )
    );
    assert_eq!(dispatch(delete(true), bad()).unwrap_err(), bad().unwrap_err());
    let restart = ManagedAgentsCmd::Restart { pubkey: "ab".to_string(), approve: true };
    assert_eq!(sent(dispatch(restart, Ok(()))).1, "v1/managed-agents/ab/restart");
    let stop = ManagedAgentsCmd::Stop { pubkey: "ab".to_string(), approve: false };
    assert!(shown(dispatch(stop, Ok(()))).field_is("action", "stop_managed_agent"));
}

#[test]
fn an_agent_is_created_once_approved() {
    let create = |approve: bool| ManagedAgentsCmd::Create {
        name: "n".to_string(),
        agent_command: "c".to_string(),
        system_prompt: None,
        model: Some("m".to_string()),
        provider: None,
        start: true,
        start_on_app_launch: false,
        approve,
    };
    assert_eq!(
        sent(dispatch(create(true), Ok(()))),
        (
            Method::Post,
            "v1/managed-agents".to_string(),
            Some(r#"{"agentCommand":"c","approve":true,"harnessOverride":true,"model":"m","name":"n","provider":null,"spawnAfterCreate":true,"startOnAppLaunch":false,"systemPrompt":null}"#.to_string())
        )
    );
    let plan = shown(dispatch(create(false), Ok(())));
    assert!(plan.field_is("action", "create_managed_agent"));
    assert!(!plan.get_inner("target", "approve").unwrap().is_true());
}

fn provision(agents: &[&str], approve: bool) -> ManagedAgentsCmd {
    ManagedAgentsCmd::ProvisionChannel {
        name: "n".to_string(),
        context: "/x".to_string(),
        agents: agents.iter().map(|a| a.to_string()).collect(),
        description: None,
        visibility: "private".to_string(),
        channel_type: "stream".to_string(),
        system_prompt: None,
        start: true,
        start_on_app_launch: false,
        approve,
    }
}

#[test]
fn provisioning_is_shown_until_approved() {
    let plan = shown(dispatch(provision(&["a=c"], false), Ok(())));
    assert!(plan.field_is("action", "provision_managed_channel"));
    assert_eq!(
        encode(plan.get("target").unwrap()),
        r#"{"agents":[{"command":"c","name":"a","role":"bot"}],"channel_type":"stream","context":"/x","description":null,"name":"n","rollback":"delete agents created by this command, then delete the channel","start":true,"start_on_app_launch":false,"visibility":"private"}"#
    );
    assert!(dispatch(provision(&["a"], false), Ok(())).is_err());
    assert!(matches!(
        dispatch(provision(&["a=c"], true), Ok(())),
        Ok(Decision::Provision(_))
    ));
}

fn plan(agents: &[&str]) -> ChannelPlan {
    match dispatch(provision(agents, true), Ok(())) {
        Ok(Decision::Provision(plan)) => plan,
        other => panic!("{other:?}"),
    }
}

fn next(run: &mut Provisioning, event: ProvisionEvent) -> ProvisionAction {
    assert!(!run.done());
    run.step(event)
}

fn answer(run: &mut Provisioning, text: &str) -> (Method, String, Option<String>) {
    match next(run, ProvisionEvent::Reply(json(text))) {
        ProvisionAction::Request(request) => wire(&request),
        other => panic!("{other:?}"),
    }
}

fn failed(text: &str) -> ProvisionEvent {
    ProvisionEvent::Failed {
        error: CliError::Transport(text.to_string()),
        shown: text.to_string(),
    }
}

fn fail(run: &mut Provisioning, text: &str) -> String {
    match next(run, failed(text)) {
        ProvisionAction::Request(request) => {
            assert_eq!(request.method, Method::Delete);
            assert_eq!(request.body.as_ref().map(encode).as_deref(), Some(r#"{"approve":true}"#));
            request.route
        }
        other => panic!("{other:?}"),
    }
}

/// A provisioning of two agents whose first one is being started.
fn starting_the_first() -> Provisioning {
    let (mut run, first) = Provisioning::begin(plan(&["a=c", "b=d"]));
    assert_eq!(
        wire(&first),
        (
            Method::Post,
            "v1/channels".to_string(),
            Some(r#"{"approve":true,"channelType":"stream","description":null,"name":"n","visibility":"private"}"#.to_string())
        )
    );
    let canvas = answer(&mut run, r#"{"ok":true,"channel":{"id":"ch"}}"#);
    assert_eq!(canvas.1, "v1/channels/ch/canvas");
    let create = answer(&mut run, r#"{"ok":true}"#);
    assert_eq!(create.1, "v1/managed-agents");
    assert!(create.2.unwrap().contains(r#""name":"a""#));
    let member = answer(&mut run, r#"{"agent":{"pubkey":"k1"}}"#);
    assert_eq!(
        member,
        (
            Method::Post,
            "v1/channels/ch/members".to_string(),
            Some(r#"{"approve":true,"pubkeys":["k1"],"role":"bot"}"#.to_string())
        )
    );
    let start = answer(&mut run, r#"{"ok":true}"#);
    assert_eq!(start.1, "v1/managed-agents/k1/start");
    run
}

#[test]
fn a_channel_is_provisioned() {
    let mut run = starting_the_first();
    let create = answer(&mut run, r#"{"started":1}"#);
    assert!(create.2.unwrap().contains(r#""name":"b""#));
    answer(&mut run, r#"{"agent":{"pubkey":"k2"}}"#);
    answer(&mut run, r#"{"ok":true}"#);
    match next(&mut run, ProvisionEvent::Reply(json("{}"))) {
        ProvisionAction::Print(line) => assert_eq!(
            line,
            r#"{"action":"provision_managed_channel","agents":[{"command":"c","created":{"agent":{"pubkey":"k1"}},"membership":{"ok":true},"name":"a","pubkey":"k1","started":{"started":1}},{"command":"d","created":{"agent":{"pubkey":"k2"}},"membership":{"ok":true},"name":"b","pubkey":"k2","started":{}}],"canvas":{"ok":true},"channel":{"id":"ch"},"context":"/x","executed":true,"ok":true}"#
        ),
        other => panic!("{other:?}"),
    }
    assert!(run.done());
}

#[test]
fn a_failure_is_rolled_back_in_reverse() {
    let mut run = starting_the_first();
    answer(&mut run, "{}");
    answer(&mut run, r#"{"agent":{"pubkey":"k2"}}"#);
    let first = answer(&mut run, r#"{"ok":false}"#);
    assert_eq!(first.1, "v1/managed-agents/k2");
    assert_eq!(fail(&mut run, "stuck"), "v1/managed-agents/k1");
    let last = answer(&mut run, "{}");
    assert_eq!(last.1, "v1/channels/ch");
    assert_eq!(
        next(&mut run, failed("offline")),
        ProvisionAction::Fail(CliError::Other(
            "managed channel provisioning failed: channel membership failed: {\"ok\":false}; rollback incomplete: delete agent k2: stuck; delete channel ch: offline".to_string()
        ))
    );
    assert!(run.done());
}

#[test]
fn a_complete_rollback_is_said_to_be_one() {
    let mut run = starting_the_first();
    assert_eq!(fail(&mut run, "crashed"), "v1/managed-agents/k1");
    answer(&mut run, "{}");
    assert_eq!(
        next(&mut run, ProvisionEvent::Reply(json("{}"))),
        ProvisionAction::Fail(CliError::Other(
            "managed channel provisioning failed: crashed; rollback completed".to_string()
        ))
    );
}

#[test]
fn an_agent_without_a_key_is_rolled_back() {
    let (mut run, _) = Provisioning::begin(plan(&["a=c"]));
    answer(&mut run, r#"{"channel":{"id":"ch"}}"#);
    answer(&mut run, "{}");
    assert_eq!(answer(&mut run, r#"{"agent":{}}"#).1, "v1/channels/ch");
    assert_eq!(
        next(&mut run, ProvisionEvent::Reply(json("{}"))),
        ProvisionAction::Fail(CliError::Other(
            "managed channel provisioning failed: desktop managed-agent response omitted agent pubkey; rollback completed".to_string()
        ))
    );
}

#[test]
fn without_a_channel_there_is_nothing_to_roll_back() {
    let (mut run, _) = Provisioning::begin(plan(&["a=c"]));
    assert_eq!(
        next(&mut run, failed("down")),
        ProvisionAction::Fail(CliError::Transport("down".to_string()))
    );
    let (mut run, _) = Provisioning::begin(plan(&["a=c"]));
    assert_eq!(
        next(&mut run, ProvisionEvent::Reply(json("{}"))),
        ProvisionAction::Fail(CliError::Other(
            "desktop channel response omitted channel".to_string()
        ))
    );
    let (mut run, _) = Provisioning::begin(plan(&["a=c"]));
    assert_eq!(
        next(&mut run, ProvisionEvent::Reply(json(r#"{"channel":{}}"#))),
        ProvisionAction::Fail(CliError::Other(
            "desktop channel response omitted channel id".to_string()
        ))
    );
}

#[test]
fn a_channel_may_have_no_agents() {
    let (mut run, _) = Provisioning::begin(plan(&[]));
    answer(&mut run, r#"{"channel":{"id":"ch"}}"#);
    match next(&mut run, ProvisionEvent::Reply(json("{}"))) {
        ProvisionAction::Print(line) => assert!(line.contains(r#""agents":[]"#)),
        other => panic!("{other:?}"),
    }
}

#[test]
fn a_missing_descriptor_says_what_to_do() {
    assert_eq!(
        descriptor_unavailable("/d", "gone"),
        CliError::NotFound(
            "Buzz Desktop control service is unavailable at /d: gone; start Buzz Desktop first"
                .to_string()
        )
    );
    assert_eq!(
        descriptor_malformed("/d", "eof"),
        CliError::Other("invalid Buzz Desktop control descriptor at /d: eof".to_string())
    );
}

#[test]
fn a_request_is_made_ready_for_a_trusted_service() {
    let start = ManagedAgentsCmd::Start { pubkey: "ab".to_string(), approve: true };
    let request = match dispatch(start, Ok(())) {
        Ok(Decision::Send(request)) => request,
        other => panic!("{other:?}"),
    };
    let token = "t".repeat(32);
    let outgoing = prepare(descriptor(1, "http://127.0.0.1:1234/", &token), &request).unwrap();
    assert_eq!(outgoing.method, Method::Post);
    assert_eq!(outgoing.target.url, "http://127.0.0.1:1234/v1/managed-agents/ab/start");
    assert_eq!(outgoing.token, token);
    assert_eq!(outgoing.body.as_deref(), Some(r#"{"approve":true}"#));
    assert_eq!(
        prepare(descriptor(1, "http://10.0.0.1", &token), &request).unwrap_err(),
        CliError::Auth("desktop control URL must use HTTP on loopback".to_string())
    );
}
