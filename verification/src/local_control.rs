//! The desktop control service: who may ask, what needs approval, which command of
//! the desktop a call runs and what is answered.
use vstd::prelude::*;
use vstd::utf8::encode_utf8;

use crate::control_client::descriptor_fault;
use crate::control_client::on_loopback;
use crate::control_client::UrlView;
use crate::control_client::MIN_TOKEN_BYTES;
use crate::control_client::SCHEMA_VERSION;
use crate::ids::hex_digit;
use crate::ids::nibble;
use crate::ids::random_uuid;
use crate::ids::simple_uuid;
use crate::ids::uuid_digits;
use crate::json::u64_number;
use crate::json::Json;
use crate::json::JsonTree;
use crate::text::cat2;
use crate::text::opt_text;
use crate::text::same_bytes;
use crate::text::texts;

verus! {

pub const OK: u16 = 200;

pub const BAD_REQUEST: u16 = 400;

pub const UNAUTHORIZED: u16 = 401;

pub const PRECONDITION_REQUIRED: u16 = 428;

pub const INTERNAL_SERVER_ERROR: u16 = 500;

/// The type of a channel for which none is given.
pub fn default_channel_type() -> (r: String)
    ensures
        r@ == "stream"@,
{
    "stream".to_owned()
}

/// The visibility of a channel for which none is given.
pub fn default_channel_visibility() -> (r: String)
    ensures
        r@ == "private"@,
{
    "private".to_owned()
}

/// The phrase that goes with an HTTP status.
pub uninterp spec fn reason_phrase(status: u16) -> Option<Seq<char>>;

/// What the phrases of the statuses that the service answers with are.
pub open spec fn known_phrase(status: u16, phrase: Option<String>) -> bool {
    &&& status == BAD_REQUEST ==> opt_text(phrase) == Some("Bad Request"@)
    &&& status == UNAUTHORIZED ==> opt_text(phrase) == Some("Unauthorized"@)
    &&& status == PRECONDITION_REQUIRED ==> opt_text(phrase) == Some("Precondition Required"@)
    &&& status == INTERNAL_SERVER_ERROR ==> opt_text(phrase) == Some("Internal Server Error"@)
}

/// `axum::http::StatusCode::canonical_reason`: the phrase of a status, where it has
/// one. A status is a number from 100 to 999.
#[verifier::external_body]
fn canonical_reason(status: u16) -> (r: Option<String>)
    requires
        100 <= status <= 999,
    ensures
        opt_text(r) == reason_phrase(status),
        known_phrase(status, r),
{
    axum::http::StatusCode::from_u16(status).ok().and_then(
        |status: axum::http::StatusCode| status.canonical_reason(),
    ).map(|phrase: &str| phrase.to_owned())
}

/// What is answered: a status and a value.
#[derive(Debug, PartialEq)]
pub struct Answer {
    pub status: u16,
    pub body: Json,
}

/// What an [`Answer`] says.
pub struct AnswerView {
    pub status: u16,
    pub body: JsonTree,
}

impl View for Answer {
    type V = AnswerView;

    open spec fn view(&self) -> AnswerView {
        AnswerView { status: self.status, body: self.body@ }
    }
}

/// The answer that reports an error.
pub open spec fn error_answer(
    status: u16,
    phrase: Option<Seq<char>>,
    message: Seq<char>,
) -> AnswerView {
    AnswerView {
        status,
        body: JsonTree::object().with("ok"@, JsonTree::Bool(false)).with(
            "error"@,
            JsonTree::Str(
                match phrase {
                    Some(phrase) => phrase,
                    None => "error"@,
                },
            ),
        ).with("message"@, JsonTree::Str(message)),
    }
}

/// The answer that reports an error under a phrase.
pub fn phrased_error(status: u16, phrase: Option<String>, message: &str) -> (r: Answer)
    ensures
        r@ == error_answer(status, opt_text(phrase), message@),
{
    let error = match phrase {
        Some(phrase) => phrase,
        None => "error".to_owned(),
    };
    Answer {
        status,
        body: Json::object().with("ok", Json::Bool(false)).with(
            "error",
            Json::text(error.as_str()),
        ).with("message", Json::text(message)),
    }
}

/// The answer that reports an error.
pub fn api_error(status: u16, message: &str) -> (r: Answer)
    requires
        100 <= status <= 999,
    ensures
        r@ == error_answer(status, reason_phrase(status), message@),
        status == BAD_REQUEST ==> r@ == error_answer(status, Some("Bad Request"@), message@),
        status == UNAUTHORIZED ==> r@ == error_answer(status, Some("Unauthorized"@), message@),
        status == PRECONDITION_REQUIRED ==> r@ == error_answer(
            status,
            Some("Precondition Required"@),
            message@,
        ),
        status == INTERNAL_SERVER_ERROR ==> r@ == error_answer(
            status,
            Some("Internal Server Error"@),
            message@,
        ),
{
    phrased_error(status, canonical_reason(status), message)
}

/// A byte of a header that can be read as text.
pub open spec fn visible(byte: u8) -> bool {
    32 <= byte < 127 || byte == 9
}

/// The credential that a token is presented in.
pub open spec fn credential(token: Seq<char>) -> Seq<u8> {
    encode_utf8("Bearer "@ + token)
}

/// Whether the `Authorization` header, where there is one, presents the token: it
/// can be read as text and is the credential, byte for byte.
pub open spec fn authorized(header: Option<Seq<u8>>, token: Seq<char>) -> bool {
    &&& header is Some
    &&& header->0 == credential(token)
    &&& forall|i: int| 0 <= i < header->0.len() ==> visible(#[trigger] header->0[i])
}

pub open spec fn unauthorized_answer() -> AnswerView {
    error_answer(UNAUTHORIZED, Some("Unauthorized"@), "missing or invalid desktop control token"@)
}

pub open spec fn unapproved_answer() -> AnswerView {
    error_answer(
        PRECONDITION_REQUIRED,
        Some("Precondition Required"@),
        "managed-agent mutations require explicit approval"@,
    )
}

/// The view of the bytes of an optional header.
pub open spec fn header_view(header: Option<&[u8]>) -> Option<Seq<u8>> {
    match header {
        Some(bytes) => Some(bytes@),
        None => None,
    }
}

/// Whether every byte of a header can be read as text.
fn all_visible(bytes: &[u8]) -> (r: bool)
    ensures
        r <==> forall|i: int| 0 <= i < bytes@.len() ==> visible(#[trigger] bytes@[i]),
{
    let mut i: usize = 0;
    while i < bytes.len()
        invariant
            i <= bytes@.len(),
            forall|j: int| 0 <= j < i ==> visible(#[trigger] bytes@[j]),
        decreases bytes@.len() - i,
    {
        let byte: u8 = bytes[i];
        if !(32 <= byte && byte < 127 || byte == 9) {
            assert(!visible(bytes@[i as int]));
            return false;
        }
        i = i + 1;
    }
    true
}

/// Admits whoever presents the token in the `Authorization` header.
pub fn authorize(header: Option<&[u8]>, token: &str) -> (r: Result<(), Answer>)
    ensures
        match r {
            Ok(_) => authorized(header_view(header), token@),
            Err(answer) => !authorized(header_view(header), token@) && answer@
                == unauthorized_answer(),
        },
{
    let expected = cat2("Bearer ", token);
    let admitted = match header {
        Some(bytes) => all_visible(bytes) && same_bytes(bytes, expected.as_str().as_bytes()),
        None => false,
    };
    if !admitted {
        return Err(api_error(UNAUTHORIZED, "missing or invalid desktop control token"));
    }
    Ok(())
}

/// A call that changes something must say that it is approved.
pub fn require_approval(approve: bool) -> (r: Result<(), Answer>)
    ensures
        match r {
            Ok(_) => approve,
            Err(answer) => !approve && answer@ == unapproved_answer(),
        },
{
    if !approve {
        return Err(
            api_error(PRECONDITION_REQUIRED, "managed-agent mutations require explicit approval"),
        );
    }
    Ok(())
}

/// What is asked of the service. What an agent to create is like stays with the
/// caller.
#[derive(Debug, PartialEq)]
pub enum ControlCall {
    Status,
    ListAgents,
    CreateAgent { approve: bool },
    StartAgent { pubkey: String, approve: bool },
    StopAgent { pubkey: String, approve: bool },
    RestartAgent { pubkey: String, approve: bool },
    DeleteAgent { pubkey: String, approve: bool },
    CreateChannel {
        approve: bool,
        name: String,
        channel_type: String,
        visibility: String,
        description: Option<String>,
    },
    SetCanvas { channel_id: String, approve: bool, content: String },
    AddMembers { channel_id: String, approve: bool, pubkeys: Vec<String>, role: Option<String> },
    DeleteChannel { channel_id: String, approve: bool },
}

/// A command of the desktop.
#[derive(Debug, PartialEq)]
pub enum DesktopCommand {
    ListAgents,
    CreateAgent,
    StartAgent(String),
    StopAgent(String),
    /// Delete an agent, by force where `force` says so.
    DeleteAgent { pubkey: String, force: Option<bool> },
    /// Create a channel, which lasts for `lifetime` where that is given.
    CreateChannel {
        name: String,
        channel_type: String,
        visibility: String,
        description: Option<String>,
        lifetime: Option<u64>,
    },
    SetCanvas { channel_id: String, content: String },
    AddMembers { channel_id: String, pubkeys: Vec<String>, role: Option<String> },
    DeleteChannel(String),
}

/// What a [`DesktopCommand`] says.
pub enum CommandView {
    ListAgents,
    CreateAgent,
    StartAgent(Seq<char>),
    StopAgent(Seq<char>),
    DeleteAgent { pubkey: Seq<char>, force: Option<bool> },
    CreateChannel {
        name: Seq<char>,
        channel_type: Seq<char>,
        visibility: Seq<char>,
        description: Option<Seq<char>>,
        lifetime: Option<u64>,
    },
    SetCanvas { channel_id: Seq<char>, content: Seq<char> },
    AddMembers { channel_id: Seq<char>, pubkeys: Seq<Seq<char>>, role: Option<Seq<char>> },
    DeleteChannel(Seq<char>),
}

impl View for DesktopCommand {
    type V = CommandView;

    open spec fn view(&self) -> CommandView {
        match self {
            DesktopCommand::ListAgents => CommandView::ListAgents,
            DesktopCommand::CreateAgent => CommandView::CreateAgent,
            DesktopCommand::StartAgent(pubkey) => CommandView::StartAgent(pubkey@),
            DesktopCommand::StopAgent(pubkey) => CommandView::StopAgent(pubkey@),
            DesktopCommand::DeleteAgent { pubkey, force } => CommandView::DeleteAgent {
                pubkey: pubkey@,
                force: *force,
            },
            DesktopCommand::CreateChannel {
                name,
                channel_type,
                visibility,
                description,
                lifetime,
            } => CommandView::CreateChannel {
                name: name@,
                channel_type: channel_type@,
                visibility: visibility@,
                description: opt_text(*description),
                lifetime: *lifetime,
            },
            DesktopCommand::SetCanvas { channel_id, content } => CommandView::SetCanvas {
                channel_id: channel_id@,
                content: content@,
            },
            DesktopCommand::AddMembers { channel_id, pubkeys, role } => CommandView::AddMembers {
                channel_id: channel_id@,
                pubkeys: texts(pubkeys@),
                role: opt_text(*role),
            },
            DesktopCommand::DeleteChannel(channel_id) => CommandView::DeleteChannel(channel_id@),
        }
    }
}

/// What came of a command of the desktop.
#[derive(Debug, PartialEq)]
pub enum Report {
    /// It gave this value.
    Value(Json),
    /// It created an agent, with what went wrong beside that.
    Created { agent: Json, profile_sync_error: Json, spawn_error: Json },
    Failed(String),
}

/// What a [`Report`] says.
pub enum ReportView {
    Value(JsonTree),
    Created { agent: JsonTree, profile_sync_error: JsonTree, spawn_error: JsonTree },
    Failed(Seq<char>),
}

impl View for Report {
    type V = ReportView;

    open spec fn view(&self) -> ReportView {
        match self {
            Report::Value(value) => ReportView::Value(value@),
            Report::Created { agent, profile_sync_error, spawn_error } => ReportView::Created {
                agent: agent@,
                profile_sync_error: profile_sync_error@,
                spawn_error: spawn_error@,
            },
            Report::Failed(error) => ReportView::Failed(error@),
        }
    }
}

/// What to do next about a call.
#[derive(Debug, PartialEq)]
pub enum ControlStep {
    Run(DesktopCommand),
    Respond(Answer),
}

/// What a [`ControlStep`] says.
pub enum StepView {
    Run(CommandView),
    Respond(AnswerView),
}

impl View for ControlStep {
    type V = StepView;

    open spec fn view(&self) -> StepView {
        match self {
            ControlStep::Run(command) => StepView::Run(command@),
            ControlStep::Respond(answer) => StepView::Respond(answer@),
        }
    }
}

/// How far a call has got.
#[derive(Debug, PartialEq, Eq, Clone, Copy, Structural)]
pub enum Stage {
    /// Its first command runs.
    First,
    /// The agent that it restarts was stopped, and is being started.
    Starting,
    Answered,
}

/// Whether a call is approved, where it needs to be.
pub open spec fn call_approval(call: ControlCall) -> Option<bool> {
    match call {
        ControlCall::Status | ControlCall::ListAgents => None,
        ControlCall::CreateAgent { approve } => Some(approve),
        ControlCall::StartAgent { approve, .. } => Some(approve),
        ControlCall::StopAgent { approve, .. } => Some(approve),
        ControlCall::RestartAgent { approve, .. } => Some(approve),
        ControlCall::DeleteAgent { approve, .. } => Some(approve),
        ControlCall::CreateChannel { approve, .. } => Some(approve),
        ControlCall::SetCanvas { approve, .. } => Some(approve),
        ControlCall::AddMembers { approve, .. } => Some(approve),
        ControlCall::DeleteChannel { approve, .. } => Some(approve),
    }
}

/// The first command that a call runs, if it runs one.
pub open spec fn first_command(call: ControlCall) -> Option<CommandView> {
    match call {
        ControlCall::Status => None,
        ControlCall::ListAgents => Some(CommandView::ListAgents),
        ControlCall::CreateAgent { .. } => Some(CommandView::CreateAgent),
        ControlCall::StartAgent { pubkey, .. } => Some(CommandView::StartAgent(pubkey@)),
        ControlCall::StopAgent { pubkey, .. } => Some(CommandView::StopAgent(pubkey@)),
        ControlCall::RestartAgent { pubkey, .. } => Some(CommandView::StopAgent(pubkey@)),
        ControlCall::DeleteAgent { pubkey, .. } => Some(
            CommandView::DeleteAgent { pubkey: pubkey@, force: Some(false) },
        ),
        ControlCall::CreateChannel { name, channel_type, visibility, description, .. } => Some(
            CommandView::CreateChannel {
                name: name@,
                channel_type: channel_type@,
                visibility: visibility@,
                description: opt_text(description),
                lifetime: None,
            },
        ),
        ControlCall::SetCanvas { channel_id, content, .. } => Some(
            CommandView::SetCanvas { channel_id: channel_id@, content: content@ },
        ),
        ControlCall::AddMembers { channel_id, pubkeys, role, .. } => Some(
            CommandView::AddMembers {
                channel_id: channel_id@,
                pubkeys: texts(pubkeys@),
                role: opt_text(role),
            },
        ),
        ControlCall::DeleteChannel { channel_id, .. } => Some(
            CommandView::DeleteChannel(channel_id@),
        ),
    }
}

/// A value that says that all went well.
pub open spec fn fine() -> JsonTree {
    JsonTree::object().with("ok"@, JsonTree::Bool(true))
}

pub open spec fn status_tree(pid: u32) -> JsonTree {
    fine().with("service"@, JsonTree::Str("buzz-desktop-control"@)).with(
        "schema_version"@,
        JsonTree::Number(u64_number(1)),
    ).with("pid"@, JsonTree::Number(u64_number(pid as u64)))
}

/// The members were all added: no errors are listed.
pub open spec fn all_added(result: JsonTree) -> bool {
    match result.field("errors"@) {
        Some(JsonTree::Array(errors)) => errors.len() == 0,
        _ => true,
    }
}

/// What is answered to a call whose last command gave a value.
pub open spec fn value_answer(call: ControlCall, value: JsonTree) -> JsonTree {
    match call {
        ControlCall::ListAgents => fine().with("agents"@, value),
        ControlCall::DeleteAgent { pubkey, .. } => fine().with(
            "deleted"@,
            JsonTree::Str(pubkey@),
        ),
        ControlCall::CreateChannel { .. } => fine().with("channel"@, value),
        ControlCall::SetCanvas { .. } => fine().with("canvas"@, value),
        ControlCall::AddMembers { .. } => JsonTree::object().with(
            "ok"@,
            JsonTree::Bool(all_added(value)),
        ).with("membership"@, value),
        ControlCall::DeleteChannel { channel_id, .. } => fine().with(
            "deleted"@,
            JsonTree::Str(channel_id@),
        ),
        _ => fine().with("agent"@, value),
    }
}

/// What is answered to a call that has created an agent.
pub open spec fn created_answer(
    agent: JsonTree,
    profile_sync_error: JsonTree,
    spawn_error: JsonTree,
) -> JsonTree {
    fine().with("agent"@, agent).with("private_key_saved"@, JsonTree::Bool(true)).with(
        "profile_sync_error"@,
        profile_sync_error,
    ).with("spawn_error"@, spawn_error)
}

/// What is answered to a call whose command failed.
pub open spec fn failure_answer(call: ControlCall, error: Seq<char>) -> AnswerView {
    if call is ListAgents {
        error_answer(INTERNAL_SERVER_ERROR, Some("Internal Server Error"@), error)
    } else {
        error_answer(BAD_REQUEST, Some("Bad Request"@), error)
    }
}

/// What is done first about a call.
pub open spec fn received(
    call: ControlCall,
    header: Option<Seq<u8>>,
    token: Seq<char>,
    pid: u32,
) -> (Stage, StepView) {
    if !authorized(header, token) {
        (Stage::Answered, StepView::Respond(unauthorized_answer()))
    } else if call_approval(call) == Some(false) {
        (Stage::Answered, StepView::Respond(unapproved_answer()))
    } else {
        match first_command(call) {
            Some(command) => (Stage::First, StepView::Run(command)),
            None => (
                Stage::Answered,
                StepView::Respond(AnswerView { status: OK, body: status_tree(pid) }),
            ),
        }
    }
}

/// What is done about a call after what came of its command.
pub open spec fn reported(call: ControlCall, stage: Stage, report: ReportView) -> (
    Stage,
    StepView,
) {
    match report {
        ReportView::Failed(error) => (
            Stage::Answered,
            StepView::Respond(failure_answer(call, error)),
        ),
        ReportView::Created { agent, profile_sync_error, spawn_error } => (
            Stage::Answered,
            StepView::Respond(
                AnswerView {
                    status: OK,
                    body: created_answer(agent, profile_sync_error, spawn_error),
                },
            ),
        ),
        ReportView::Value(value) => match (call, stage) {
            (ControlCall::RestartAgent { pubkey, .. }, Stage::First) => (
                Stage::Starting,
                StepView::Run(CommandView::StartAgent(pubkey@)),
            ),
            _ => (
                Stage::Answered,
                StepView::Respond(AnswerView { status: OK, body: value_answer(call, value) }),
            ),
        },
    }
}

/// What came of a command is what that command can give: one that creates an agent
/// reports it as created.
pub open spec fn suits(call: ControlCall, report: ReportView) -> bool {
    report is Failed || (report is Created <==> call is CreateAgent)
}

/// A call that is being handled.
pub struct Handling {
    call: ControlCall,
    stage: Stage,
}

/// A copy of a list of texts.
fn copy_texts(list: &Vec<String>) -> (r: Vec<String>)
    ensures
        texts(r@) == texts(list@),
{
    let mut r: Vec<String> = Vec::new();
    let mut i: usize = 0;
    while i < list.len()
        invariant
            i <= list@.len(),
            r@.len() == i,
            forall|j: int| 0 <= j < i ==> (#[trigger] r@[j])@ == list@[j]@,
        decreases list@.len() - i,
    {
        r.push(list[i].clone());
        i = i + 1;
    }
    assert(texts(r@) =~= texts(list@));
    r
}

/// A copy of an optional text.
fn copy_optional(text: &Option<String>) -> (r: Option<String>)
    ensures
        opt_text(r) == opt_text(*text),
{
    match text {
        Some(text) => Some(text.clone()),
        None => None,
    }
}

fn fine_json() -> (r: Json)
    ensures
        r@ == fine(),
{
    Json::object().with("ok", Json::Bool(true))
}

/// Whether a call is approved, where it needs to be.
pub fn needed_approval(call: &ControlCall) -> (r: Option<bool>)
    ensures
        r == call_approval(*call),
{
    match call {
        ControlCall::Status | ControlCall::ListAgents => None,
        ControlCall::CreateAgent { approve } => Some(*approve),
        ControlCall::StartAgent { approve, .. } => Some(*approve),
        ControlCall::StopAgent { approve, .. } => Some(*approve),
        ControlCall::RestartAgent { approve, .. } => Some(*approve),
        ControlCall::DeleteAgent { approve, .. } => Some(*approve),
        ControlCall::CreateChannel { approve, .. } => Some(*approve),
        ControlCall::SetCanvas { approve, .. } => Some(*approve),
        ControlCall::AddMembers { approve, .. } => Some(*approve),
        ControlCall::DeleteChannel { approve, .. } => Some(*approve),
    }
}

/// The first command that a call runs, if it runs one.
fn command_for(call: &ControlCall) -> (r: Option<DesktopCommand>)
    ensures
        match r {
            Some(command) => first_command(*call) == Some(command@),
            None => first_command(*call) is None,
        },
{
    match call {
        ControlCall::Status => None,
        ControlCall::ListAgents => Some(DesktopCommand::ListAgents),
        ControlCall::CreateAgent { .. } => Some(DesktopCommand::CreateAgent),
        ControlCall::StartAgent { pubkey, .. } => Some(DesktopCommand::StartAgent(pubkey.clone())),
        ControlCall::StopAgent { pubkey, .. } => Some(DesktopCommand::StopAgent(pubkey.clone())),
        ControlCall::RestartAgent { pubkey, .. } => Some(
            DesktopCommand::StopAgent(pubkey.clone()),
        ),
        ControlCall::DeleteAgent { pubkey, .. } => Some(
            DesktopCommand::DeleteAgent { pubkey: pubkey.clone(), force: Some(false) },
        ),
        ControlCall::CreateChannel { name, channel_type, visibility, description, .. } => Some(
            DesktopCommand::CreateChannel {
                name: name.clone(),
                channel_type: channel_type.clone(),
                visibility: visibility.clone(),
                description: copy_optional(description),
                lifetime: None,
            },
        ),
        ControlCall::SetCanvas { channel_id, content, .. } => Some(
            DesktopCommand::SetCanvas {
                channel_id: channel_id.clone(),
                content: content.clone(),
            },
        ),
        ControlCall::AddMembers { channel_id, pubkeys, role, .. } => Some(
            DesktopCommand::AddMembers {
                channel_id: channel_id.clone(),
                pubkeys: copy_texts(pubkeys),
                role: copy_optional(role),
            },
        ),
        ControlCall::DeleteChannel { channel_id, .. } => Some(
            DesktopCommand::DeleteChannel(channel_id.clone()),
        ),
    }
}

/// What is answered to a call whose last command gave a value.
fn value_json(call: &ControlCall, value: Json) -> (r: Json)
    ensures
        r@ == value_answer(*call, value@),
{
    match call {
        ControlCall::ListAgents => fine_json().with("agents", value),
        ControlCall::DeleteAgent { pubkey, .. } => fine_json().with(
            "deleted",
            Json::text(pubkey.as_str()),
        ),
        ControlCall::CreateChannel { .. } => fine_json().with("channel", value),
        ControlCall::SetCanvas { .. } => fine_json().with("canvas", value),
        ControlCall::AddMembers { .. } => {
            let added = match value.get("errors") {
                Some(Json::Array(errors)) => errors.len() == 0,
                _ => true,
            };
            Json::object().with("ok", Json::Bool(added)).with("membership", value)
        },
        ControlCall::DeleteChannel { channel_id, .. } => fine_json().with(
            "deleted",
            Json::text(channel_id.as_str()),
        ),
        _ => fine_json().with("agent", value),
    }
}

impl Handling {
    pub closed spec fn call(self) -> ControlCall {
        self.call
    }

    pub closed spec fn stage(self) -> Stage {
        self.stage
    }

    /// Takes up a call that came with an `Authorization` header, and says what to do
    /// first. `token` is the token of the service, `pid` the id of its process.
    pub fn receive(call: ControlCall, header: Option<&[u8]>, token: &str, pid: u32) -> (r: (
        Handling,
        ControlStep,
    ))
        ensures
            r.0.call() == call,
            (r.0.stage(), r.1@) == received(call, header_view(header), token@, pid),
    {
        match authorize(header, token) {
            Err(answer) => {
                return (
                    Handling { call, stage: Stage::Answered },
                    ControlStep::Respond(answer),
                );
            },
            Ok(_) => {},
        }
        match needed_approval(&call) {
            Some(approve) => match require_approval(approve) {
                Err(answer) => {
                    return (
                        Handling { call, stage: Stage::Answered },
                        ControlStep::Respond(answer),
                    );
                },
                Ok(_) => {},
            },
            None => {},
        }
        match command_for(&call) {
            Some(command) => (Handling { call, stage: Stage::First }, ControlStep::Run(command)),
            None => {
                let body = fine_json().with("service", Json::text("buzz-desktop-control")).with(
                    "schema_version",
                    Json::number(1),
                ).with("pid", Json::number(pid as u64));
                (
                    Handling { call, stage: Stage::Answered },
                    ControlStep::Respond(Answer { status: OK, body }),
                )
            },
        }
    }

    /// Whether the call is answered.
    pub fn answered(&self) -> (r: bool)
        ensures
            r == (self.stage() is Answered),
    {
        matches!(self.stage, Stage::Answered)
    }

    /// Whether a report is one that the command of the call can give.
    pub fn suited(&self, report: &Report) -> (r: bool)
        ensures
            r == suits(self.call(), report@),
    {
        match report {
            Report::Failed(_) => true,
            Report::Created { .. } => matches!(self.call, ControlCall::CreateAgent { .. }),
            Report::Value(_) => !matches!(self.call, ControlCall::CreateAgent { .. }),
        }
    }

    /// Goes on after what came of the last command, and says what to do next.
    pub fn step(&mut self, report: Report) -> (r: ControlStep)
        requires
            !(old(self).stage() is Answered),
            suits(old(self).call(), report@),
        ensures
            final(self).call() == old(self).call(),
            (final(self).stage(), r@) == reported(
                old(self).call(),
                old(self).stage(),
                report@,
            ),
    {
        match report {
            Report::Failed(error) => {
                self.stage = Stage::Answered;
                let status: u16 = if matches!(self.call, ControlCall::ListAgents) {
                    INTERNAL_SERVER_ERROR
                } else {
                    BAD_REQUEST
                };
                ControlStep::Respond(api_error(status, error.as_str()))
            },
            Report::Created { agent, profile_sync_error, spawn_error } => {
                self.stage = Stage::Answered;
                let body = fine_json().with("agent", agent).with(
                    "private_key_saved",
                    Json::Bool(true),
                ).with("profile_sync_error", profile_sync_error).with(
                    "spawn_error",
                    spawn_error,
                );
                ControlStep::Respond(Answer { status: OK, body })
            },
            Report::Value(value) => {
                let next = match &self.call {
                    ControlCall::RestartAgent { pubkey, .. } => if matches!(
                        self.stage,
                        Stage::First
                    ) {
                        Some(pubkey.clone())
                    } else {
                        None
                    },
                    _ => None,
                };
                match next {
                    Some(pubkey) => {
                        self.stage = Stage::Starting;
                        ControlStep::Run(DesktopCommand::StartAgent(pubkey))
                    },
                    None => {
                        self.stage = Stage::Answered;
                        let body = value_json(&self.call, value);
                        ControlStep::Respond(Answer { status: OK, body })
                    },
                }
            },
        }
    }
}

/// How the service is found: what its descriptor file holds.
#[derive(Debug, PartialEq)]
pub struct ControlDescriptor {
    pub schema_version: u8,
    pub url: String,
    pub token: String,
    pub pid: u32,
}

/// A lower-case hexadecimal digit.
pub open spec fn lower_hex(c: char) -> bool {
    '0' <= c <= '9' || 'a' <= c <= 'f'
}

/// The token that two UUIDs make.
pub open spec fn token_of(a: u128, b: u128) -> Seq<char> {
    simple_uuid(a) + simple_uuid(b)
}

/// What a [`ControlDescriptor`] says.
pub struct DescriptorView {
    pub schema_version: u8,
    pub url: Seq<char>,
    pub token: Seq<char>,
    pub pid: u32,
}

impl View for ControlDescriptor {
    type V = DescriptorView;

    open spec fn view(&self) -> DescriptorView {
        DescriptorView {
            schema_version: self.schema_version,
            url: self.url@,
            token: self.token@,
            pid: self.pid,
        }
    }
}

/// The descriptor of a service that listens on an address.
pub open spec fn description(address: Seq<char>, token: Seq<char>, pid: u32) -> DescriptorView {
    DescriptorView { schema_version: SCHEMA_VERSION, url: "http://"@ + address, token, pid }
}

/// The token that two UUIDs make: their digits, one after the other.
pub fn token_from(a: u128, b: u128) -> (r: String)
    ensures
        r@ == token_of(a, b),
{
    cat2(uuid_digits(a).as_str(), uuid_digits(b).as_str())
}

/// A UUID of version 4, as random ones are.
pub open spec fn version_four(id: u128) -> bool {
    nibble(id, 12) == 4 && 8 <= nibble(id, 16) < 12
}

/// A new token, made of two random UUIDs.
pub fn issue_token() -> (r: String)
    ensures
        exists|a: u128, b: u128|
            version_four(a) && version_four(b) && r@ == #[trigger] token_of(a, b),
{
    let a: u128 = random_uuid();
    let b: u128 = random_uuid();
    token_from(a, b)
}

/// The descriptor of a service that listens on an address.
pub fn describe(address: &str, token: String, pid: u32) -> (r: ControlDescriptor)
    ensures
        r@ == description(address@, token@, pid),
{
    ControlDescriptor { schema_version: SCHEMA_VERSION, url: cat2("http://", address), token, pid }
}

/// No command of the desktop runs without the exact token, and none that changes
/// something runs without approval.
pub proof fn commands_need_token_and_approval(
    call: ControlCall,
    header: Option<Seq<u8>>,
    token: Seq<char>,
    pid: u32,
)
    requires
        received(call, header, token, pid).1 is Run,
    ensures
        header == Some(credential(token)),
        call_approval(call) != Some(false),
        call_approval(call) is None ==> received(call, header, token, pid).1 == StepView::Run(
            CommandView::ListAgents,
        ),
{
}

/// Whoever does not present the token learns nothing but that: the answer is the
/// same for every call, approved or not.
pub proof fn strangers_are_refused_alike(
    call: ControlCall,
    header: Option<Seq<u8>>,
    token: Seq<char>,
    pid: u32,
)
    requires
        !authorized(header, token),
    ensures
        received(call, header, token, pid) == (
            Stage::Answered,
            StepView::Respond(unauthorized_answer()),
        ),
{
}

/// A call that changes something and is not approved is refused, and runs nothing.
pub proof fn changes_need_approval(
    call: ControlCall,
    header: Option<Seq<u8>>,
    token: Seq<char>,
    pid: u32,
)
    requires
        authorized(header, token),
        call_approval(call) == Some(false),
    ensures
        received(call, header, token, pid) == (
            Stage::Answered,
            StepView::Respond(unapproved_answer()),
        ),
{
}

/// One token admits one credential: a header that presents one token presents no
/// other.
pub proof fn credentials_are_told_apart(header: Option<Seq<u8>>, a: Seq<char>, b: Seq<char>)
    requires
        authorized(header, a),
        authorized(header, b),
    ensures
        a == b,
{
    vstd::utf8::encode_utf8_decode_utf8("Bearer "@ + a);
    vstd::utf8::encode_utf8_decode_utf8("Bearer "@ + b);
    let start = "Bearer "@.len() as int;
    assert(("Bearer "@ + a).skip(start) =~= a);
    assert(("Bearer "@ + b).skip(start) =~= b);
}

/// An agent is restarted by stopping it and then starting it; it is not started
/// where it could not be stopped.
pub proof fn restart_stops_before_it_starts(call: ControlCall, report: ReportView)
    requires
        call is RestartAgent,
        !(report is Created),
    ensures
        first_command(call) == Some(CommandView::StopAgent(call->RestartAgent_pubkey@)),
        report is Value ==> reported(call, Stage::First, report) == (
            Stage::Starting,
            StepView::Run(CommandView::StartAgent(call->RestartAgent_pubkey@)),
        ),
        report is Failed ==> reported(call, Stage::First, report).1 is Respond,
        reported(call, Stage::Starting, report).1 is Respond,
{
}

/// A call runs at most two commands, and only a restart runs a second one.
pub proof fn only_a_restart_goes_on(call: ControlCall, stage: Stage, report: ReportView)
    ensures
        reported(call, stage, report).1 is Run ==> call is RestartAgent && stage is First,
        reported(call, stage, report).1 is Respond <==> reported(call, stage, report).0
            is Answered,
{
}

/// A token is 64 lower-case hexadecimal digits. It is long enough for the client, and
/// can be presented in a header.
pub proof fn issued_tokens_are_accepted(a: u128, b: u128)
    ensures
        token_of(a, b).len() == 64,
        forall|i: int| 0 <= i < 64 ==> lower_hex(#[trigger] token_of(a, b)[i]),
        encode_utf8(token_of(a, b)).len() >= MIN_TOKEN_BYTES,
        authorized(Some(credential(token_of(a, b))), token_of(a, b)),
{
    let token = token_of(a, b);
    let text = "Bearer "@ + token;
    reveal_strlit("Bearer ");
    assert forall|i: int| 0 <= i < token.len() implies lower_hex(#[trigger] token[i]) by {
        if i < 32 {
            assert(token[i] == hex_digit(nibble(a, i)));
        } else {
            assert(token[i] == hex_digit(nibble(b, i - 32)));
        }
    }
    assert forall|i: int| 0 <= i < text.len() implies 32 <= #[trigger] text[i] as int <= 126 by {
        if i >= 7 {
            assert(text[i] == token[i - 7]);
        }
    }
    vstd::utf8::is_ascii_chars_encode_utf8(token);
    vstd::utf8::is_ascii_chars_encode_utf8(text);
    assert forall|i: int| 0 <= i < credential(token).len() implies visible(
        #[trigger] credential(token)[i],
    ) by {
        assert(text[i] as u8 == encode_utf8(text)[i]);
    }
}

/// The client trusts the descriptor that the service publishes, where its address is
/// on this machine.
pub proof fn published_descriptor_is_trusted(
    published: ControlDescriptor,
    read: crate::control_client::ControlDescriptor,
    parsed: Result<UrlView, Seq<char>>,
    a: u128,
    b: u128,
)
    requires
        published.schema_version == SCHEMA_VERSION,
        published.token@ == token_of(a, b),
        read.schema_version == published.schema_version,
        read.url@ == published.url@,
        read.token@ == published.token@,
        parsed is Ok,
        on_loopback(parsed->Ok_0),
    ensures
        descriptor_fault(read, parsed) is None,
{
    issued_tokens_are_accepted(a, b);
}

/// The names of the fields of answers are told apart.
proof fn lemma_names()
    ensures
        "ok"@.len() == 2,
        "error"@.len() == 5,
        "message"@.len() == 7 && "message"@[0] == 'm',
        "service"@.len() == 7 && "service"@[0] == 's',
        "schema_version"@.len() == 14,
        "pid"@.len() == 3,
        "agents"@.len() == 6,
        "agent"@.len() == 5,
        "deleted"@.len() == 7,
        "channel"@.len() == 7,
        "canvas"@.len() == 6,
        "membership"@.len() == 10,
        "private_key_saved"@.len() == 17,
        "profile_sync_error"@.len() == 18,
        "spawn_error"@.len() == 11,
{
    reveal_strlit("ok");
    reveal_strlit("error");
    reveal_strlit("message");
    reveal_strlit("service");
    reveal_strlit("schema_version");
    reveal_strlit("pid");
    reveal_strlit("agents");
    reveal_strlit("agent");
    reveal_strlit("deleted");
    reveal_strlit("channel");
    reveal_strlit("canvas");
    reveal_strlit("membership");
    reveal_strlit("private_key_saved");
    reveal_strlit("profile_sync_error");
    reveal_strlit("spawn_error");
}

/// An answer that reports an error: under this status, with this phrase and this message,
/// and nothing else but that it is not ok.
pub open spec fn reports_error(
    answer: AnswerView,
    status: u16,
    phrase: Seq<char>,
    message: Seq<char>,
) -> bool {
    &&& answer.status == status
    &&& answer.body is Object
    &&& answer.body->Object_0.dom() == set!["ok"@, "error"@, "message"@]
    &&& answer.body.field("ok"@) == Some(JsonTree::Bool(false))
    &&& answer.body.field("error"@) == Some(JsonTree::Str(phrase))
    &&& answer.body.field("message"@) == Some(JsonTree::Str(message))
}

/// An error is reported under its status, with its message, and with the phrase of the
/// status, where that has one.
pub proof fn errors_are_reported(status: u16, phrase: Option<Seq<char>>, message: Seq<char>)
    ensures
        reports_error(
            error_answer(status, phrase, message),
            status,
            match phrase {
                Some(phrase) => phrase,
                None => "error"@,
            },
            message,
        ),
{
    lemma_names();
    assert(error_answer(status, phrase, message).body->Object_0.dom() =~= set![
        "ok"@,
        "error"@,
        "message"@,
    ]);
}

/// What is done first about a call that wants approval: it runs this command where it is
/// approved, and is refused where it is not.
pub open spec fn runs_if_approved(step: StepView, approve: bool, command: CommandView) -> bool {
    if approve {
        step == StepView::Run(command)
    } else {
        step matches StepView::Respond(answer) && reports_error(
            answer,
            428,
            "Precondition Required"@,
            "managed-agent mutations require explicit approval"@,
        )
    }
}

/// A call that presents the token runs just the command that it asks for, with all that it
/// says: a call that starts an agent starts that agent, one that stops it stops it, and so
/// on. Every call that changes something must be approved; the list of agents need not be,
/// and neither must the status, which is answered at once.
pub proof fn calls_run_the_command_that_they_ask_for(
    call: ControlCall,
    header: Option<Seq<u8>>,
    token: Seq<char>,
    pid: u32,
)
    requires
        authorized(header, token),
    ensures
        ({
            let step = received(call, header, token, pid).1;
            match call {
                ControlCall::Status => step matches StepView::Respond(answer) && {
                    &&& answer.status == 200
                    &&& answer.body is Object
                    &&& answer.body->Object_0.dom() == set![
                        "ok"@,
                        "service"@,
                        "schema_version"@,
                        "pid"@,
                    ]
                    &&& answer.body.field("ok"@) == Some(JsonTree::Bool(true))
                    &&& answer.body.field("service"@) == Some(
                        JsonTree::Str("buzz-desktop-control"@),
                    )
                    &&& answer.body.field("schema_version"@) == Some(
                        JsonTree::Number(u64_number(1)),
                    )
                    &&& answer.body.field("pid"@) == Some(
                        JsonTree::Number(u64_number(pid as u64)),
                    )
                },
                ControlCall::ListAgents => step == StepView::Run(CommandView::ListAgents),
                ControlCall::CreateAgent { approve } => runs_if_approved(
                    step,
                    approve,
                    CommandView::CreateAgent,
                ),
                ControlCall::StartAgent { pubkey, approve } => runs_if_approved(
                    step,
                    approve,
                    CommandView::StartAgent(pubkey@),
                ),
                ControlCall::StopAgent { pubkey, approve } => runs_if_approved(
                    step,
                    approve,
                    CommandView::StopAgent(pubkey@),
                ),
                ControlCall::RestartAgent { pubkey, approve } => runs_if_approved(
                    step,
                    approve,
                    CommandView::StopAgent(pubkey@),
                ),
                ControlCall::DeleteAgent { pubkey, approve } => runs_if_approved(
                    step,
                    approve,
                    CommandView::DeleteAgent { pubkey: pubkey@, force: Some(false) },
                ),
                ControlCall::CreateChannel {
                    approve,
                    name,
                    channel_type,
                    visibility,
                    description,
                } => runs_if_approved(
                    step,
                    approve,
                    CommandView::CreateChannel {
                        name: name@,
                        channel_type: channel_type@,
                        visibility: visibility@,
                        description: opt_text(description),
                        lifetime: None,
                    },
                ),
                ControlCall::SetCanvas { channel_id, approve, content } => runs_if_approved(
                    step,
                    approve,
                    CommandView::SetCanvas { channel_id: channel_id@, content: content@ },
                ),
                ControlCall::AddMembers { channel_id, approve, pubkeys, role } => runs_if_approved(
                    step,
                    approve,
                    CommandView::AddMembers {
                        channel_id: channel_id@,
                        pubkeys: texts(pubkeys@),
                        role: opt_text(role),
                    },
                ),
                ControlCall::DeleteChannel { channel_id, approve } => runs_if_approved(
                    step,
                    approve,
                    CommandView::DeleteChannel(channel_id@),
                ),
            }
        }),
        received(call, header, token, pid).0 is First <==> received(
            call,
            header,
            token,
            pid,
        ).1 is Run,
        !(received(call, header, token, pid).0 is Starting),
{
    lemma_names();
    errors_are_reported(
        428,
        Some("Precondition Required"@),
        "managed-agent mutations require explicit approval"@,
    );
    assert(status_tree(pid)->Object_0.dom() =~= set![
        "ok"@,
        "service"@,
        "schema_version"@,
        "pid"@,
    ]);
}

/// Only a header that is the word `Bearer`, a space and the token, byte for byte, presents
/// the token, and it does where every byte of it can be read: a tab, or a character of
/// ASCII that is no control character.
pub proof fn only_the_bearer_of_the_token_is_admitted(
    call: ControlCall,
    header: Option<Seq<u8>>,
    token: Seq<char>,
    pid: u32,
)
    ensures
        ({
            let admitted = header == Some(encode_utf8("Bearer "@ + token)) && forall|i: int|
                0 <= i < header->0.len() ==> ((#[trigger] header->0[i]) == 9 || 32 <= header->0[i]
                    <= 126);
            &&& authorized(header, token) <==> admitted
            &&& !admitted ==> (received(call, header, token, pid).1 matches StepView::Respond(
                answer,
            ) && reports_error(
                answer,
                401,
                "Unauthorized"@,
                "missing or invalid desktop control token"@,
            ))
        }),
{
    errors_are_reported(
        401,
        Some("Unauthorized"@),
        "missing or invalid desktop control token"@,
    );
    if header is Some && forall|i: int|
        0 <= i < header->0.len() ==> ((#[trigger] header->0[i]) == 9 || 32 <= header->0[i]
            <= 126) {
        assert forall|i: int| 0 <= i < header->0.len() implies visible(#[trigger] header->0[i]) by {}
    }
    if authorized(header, token) {
        assert forall|i: int| 0 <= i < header->0.len() implies ((#[trigger] header->0[i]) == 9
            || 32 <= header->0[i] <= 126) by {
            assert(visible(header->0[i]));
        }
    }
}

/// An answer that all went well, with these fields beside.
pub open spec fn answers_fine(step: StepView, names: Set<Seq<char>>) -> bool {
    step matches StepView::Respond(answer) && {
        &&& answer.status == 200
        &&& answer.body is Object
        &&& answer.body->Object_0.dom() == names.insert("ok"@)
        &&& answer.body.field("ok"@) == Some(JsonTree::Bool(true))
    }
}

/// The field of that name in an answer.
pub open spec fn answered_field(step: StepView, name: Seq<char>) -> Option<JsonTree> {
    match step {
        StepView::Respond(answer) => answer.body.field(name),
        _ => None,
    }
}

/// A call is answered with what came of its last command: the agents, the agent, the
/// channel or the canvas that the command gave, or what was deleted. Members that were
/// added are answered with the command's own account; that is ok unless it lists errors.
pub proof fn values_are_answered(call: ControlCall, stage: Stage, value: JsonTree)
    requires
        !(call is CreateAgent),
        !(call is RestartAgent && stage is First),
    ensures
        ({
            let step = reported(call, stage, ReportView::Value(value)).1;
            match call {
                ControlCall::ListAgents => answers_fine(step, set!["agents"@]) && answered_field(
                    step,
                    "agents"@,
                ) == Some(value),
                ControlCall::DeleteAgent { pubkey, .. } => answers_fine(step, set!["deleted"@])
                    && answered_field(step, "deleted"@) == Some(JsonTree::Str(pubkey@)),
                ControlCall::CreateChannel { .. } => answers_fine(step, set!["channel"@])
                    && answered_field(step, "channel"@) == Some(value),
                ControlCall::SetCanvas { .. } => answers_fine(step, set!["canvas"@])
                    && answered_field(step, "canvas"@) == Some(value),
                ControlCall::DeleteChannel { channel_id, .. } => answers_fine(
                    step,
                    set!["deleted"@],
                ) && answered_field(step, "deleted"@) == Some(JsonTree::Str(channel_id@)),
                ControlCall::AddMembers { .. } => step matches StepView::Respond(answer) && {
                    let failed = value.field("errors"@) matches Some(JsonTree::Array(errors))
                        && errors.len() > 0;
                    &&& answer.status == 200
                    &&& answer.body is Object
                    &&& answer.body->Object_0.dom() == set!["ok"@, "membership"@]
                    &&& answer.body.field("ok"@) == Some(JsonTree::Bool(!failed))
                    &&& answer.body.field("membership"@) == Some(value)
                },
                _ => answers_fine(step, set!["agent"@]) && answered_field(step, "agent"@) == Some(
                    value,
                ),
            }
        }),
{
    lemma_names();
    let names = reported(call, stage, ReportView::Value(value)).1->Respond_0.body->Object_0.dom();
    assert(names =~= set!["agents"@].insert("ok"@) || names =~= set!["deleted"@].insert("ok"@)
        || names =~= set!["channel"@].insert("ok"@) || names =~= set!["canvas"@].insert("ok"@)
        || names =~= set!["ok"@, "membership"@] || names =~= set!["agent"@].insert("ok"@));
}

/// An agent that was created is answered with what went wrong beside that, and with the
/// assurance that its private key is saved.
pub proof fn created_agents_are_answered(
    call: ControlCall,
    stage: Stage,
    agent: JsonTree,
    profile_sync_error: JsonTree,
    spawn_error: JsonTree,
)
    ensures
        ({
            let step = reported(
                call,
                stage,
                ReportView::Created { agent, profile_sync_error, spawn_error },
            ).1;
            &&& answers_fine(
                step,
                set!["agent"@, "private_key_saved"@, "profile_sync_error"@, "spawn_error"@],
            )
            &&& answered_field(step, "agent"@) == Some(agent)
            &&& answered_field(step, "private_key_saved"@) == Some(JsonTree::Bool(true))
            &&& answered_field(step, "profile_sync_error"@) == Some(profile_sync_error)
            &&& answered_field(step, "spawn_error"@) == Some(spawn_error)
        }),
{
    lemma_names();
    assert(created_answer(agent, profile_sync_error, spawn_error)->Object_0.dom() =~= set![
        "agent"@,
        "private_key_saved"@,
        "profile_sync_error"@,
        "spawn_error"@,
    ].insert("ok"@));
}

/// A command that fails is answered with its error: as a bad request, but for the list of
/// agents, which asks nothing that could be bad.
pub proof fn failures_are_answered(call: ControlCall, stage: Stage, error: Seq<char>)
    ensures
        reported(call, stage, ReportView::Failed(error)).1 matches StepView::Respond(answer)
            && if call is ListAgents {
            reports_error(answer, 500, "Internal Server Error"@, error)
        } else {
            reports_error(answer, 400, "Bad Request"@, error)
        },
{
    errors_are_reported(500, Some("Internal Server Error"@), error);
    errors_are_reported(400, Some("Bad Request"@), error);
}

/// A descriptor says where the service listens, over HTTP, and holds its token, its process
/// and the first version.
pub proof fn descriptors_say_where_to_call(address: Seq<char>, token: Seq<char>, pid: u32)
    ensures
        description(address, token, pid).url == "http://"@ + address,
        description(address, token, pid).token == token,
        description(address, token, pid).pid == pid,
        description(address, token, pid).schema_version == 1,
{
}

/// A token is the hexadecimal digits of its two UUIDs, one after the other, so that tokens
/// of different UUIDs differ where their digits do.
pub proof fn tokens_hold_both_uuids(a: u128, b: u128)
    ensures
        token_of(a, b).take(32) == simple_uuid(a),
        token_of(a, b).skip(32) == simple_uuid(b),
{
    assert(token_of(a, b).take(32) =~= simple_uuid(a));
    assert(token_of(a, b).skip(32) =~= simple_uuid(b));
}

/// What the service runs, hears and answers is seen as it is.
pub proof fn commands_are_seen_as_they_are(
    command: DesktopCommand,
    report: Report,
    answer: Answer,
    step: ControlStep,
    descriptor: ControlDescriptor,
)
    ensures
        match command {
            DesktopCommand::ListAgents => command@ is ListAgents,
            DesktopCommand::CreateAgent => command@ is CreateAgent,
            DesktopCommand::StartAgent(pubkey) => command@ == CommandView::StartAgent(pubkey@),
            DesktopCommand::StopAgent(pubkey) => command@ == CommandView::StopAgent(pubkey@),
            DesktopCommand::DeleteAgent { pubkey, force } => command@
                == (CommandView::DeleteAgent { pubkey: pubkey@, force }),
            DesktopCommand::CreateChannel {
                name,
                channel_type,
                visibility,
                description,
                lifetime,
            } => command@ == (CommandView::CreateChannel {
                name: name@,
                channel_type: channel_type@,
                visibility: visibility@,
                description: opt_text(description),
                lifetime,
            }),
            DesktopCommand::SetCanvas { channel_id, content } => command@
                == (CommandView::SetCanvas { channel_id: channel_id@, content: content@ }),
            DesktopCommand::AddMembers { channel_id, pubkeys, role } => command@
                == (CommandView::AddMembers {
                channel_id: channel_id@,
                pubkeys: texts(pubkeys@),
                role: opt_text(role),
            }),
            DesktopCommand::DeleteChannel(channel_id) => command@ == CommandView::DeleteChannel(
                channel_id@,
            ),
        },
        match report {
            Report::Value(value) => report@ == ReportView::Value(value@),
            Report::Created { agent, profile_sync_error, spawn_error } => report@
                == (ReportView::Created {
                agent: agent@,
                profile_sync_error: profile_sync_error@,
                spawn_error: spawn_error@,
            }),
            Report::Failed(error) => report@ == ReportView::Failed(error@),
        },
        answer@.status == answer.status,
        answer@.body == answer.body@,
        match step {
            ControlStep::Run(command) => step@ == StepView::Run(command@),
            ControlStep::Respond(answer) => step@ == StepView::Respond(answer@),
        },
        descriptor@.schema_version == descriptor.schema_version,
        descriptor@.url == descriptor.url@,
        descriptor@.token == descriptor.token@,
        descriptor@.pid == descriptor.pid,
{
}

/// A command that creates an agent reports it as created, every other gives a value, and
/// each can fail.
pub proof fn commands_report_what_they_can(call: ControlCall, report: ReportView)
    ensures
        suits(call, report) <==> match report {
            ReportView::Failed(_) => true,
            ReportView::Created { .. } => call is CreateAgent,
            ReportView::Value(_) => !(call is CreateAgent),
        },
{
}

/// What is first done about a call is what the call asks for: a call that starts an agent,
/// approved and with the token, starts it, and one that stops it stops it.
pub proof fn received_calls_run_what_they_ask_for(
    call: ControlCall,
    header: Option<&[u8]>,
    token: &str,
    pid: u32,
    r: (Handling, ControlStep),
)
    requires
        call_ensures(Handling::receive, (call, header, token, pid), r),
        authorized(header_view(header), token@),
    ensures
        r.0.call() == call,
        match call {
            ControlCall::ListAgents => r.1 == ControlStep::Run(DesktopCommand::ListAgents),
            ControlCall::CreateAgent { approve } => approve <==> r.1 == ControlStep::Run(
                DesktopCommand::CreateAgent,
            ),
            ControlCall::StartAgent { pubkey, approve } => approve ==> (r.1 matches ControlStep::Run(
                DesktopCommand::StartAgent(k),
            ) && k@ == pubkey@),
            ControlCall::StopAgent { pubkey, approve } => approve ==> (r.1 matches ControlStep::Run(
                DesktopCommand::StopAgent(k),
            ) && k@ == pubkey@),
            ControlCall::RestartAgent { pubkey, approve } => approve ==> (
            r.1 matches ControlStep::Run(DesktopCommand::StopAgent(k)) && k@ == pubkey@),
            ControlCall::DeleteAgent { pubkey, approve } => approve ==> (
            r.1 matches ControlStep::Run(DesktopCommand::DeleteAgent { pubkey: k, force }) && k@
                == pubkey@ && force == Some(false)),
            ControlCall::SetCanvas { channel_id, approve, content } => approve ==> (
            r.1 matches ControlStep::Run(DesktopCommand::SetCanvas { channel_id: id, content: c })
                && id@ == channel_id@ && c@ == content@),
            ControlCall::AddMembers { channel_id, approve, pubkeys, role } => approve ==> (
            r.1 matches ControlStep::Run(
                DesktopCommand::AddMembers { channel_id: id, pubkeys: ks, role: as_role },
            ) && id@ == channel_id@ && texts(ks@) == texts(pubkeys@) && opt_text(as_role)
                == opt_text(role)),
            ControlCall::DeleteChannel { channel_id, approve } => approve ==> (
            r.1 matches ControlStep::Run(DesktopCommand::DeleteChannel(id)) && id@ == channel_id@),
            ControlCall::CreateChannel {
                approve,
                name,
                channel_type,
                visibility,
                description,
            } => approve ==> (r.1 matches ControlStep::Run(
                DesktopCommand::CreateChannel {
                    name: n,
                    channel_type: t,
                    visibility: v,
                    description: d,
                    lifetime,
                },
            ) && n@ == name@ && t@ == channel_type@ && v@ == visibility@ && opt_text(d) == opt_text(
                description,
            ) && lifetime is None),
            ControlCall::Status => r.1 is Respond,
        },
        call_approval(call) == Some(false) ==> r.1 is Respond,
{
    calls_run_the_command_that_they_ask_for(call, header_view(header), token@, pid);
}

/// A channel is a private stream unless something else is asked for.
pub proof fn channels_are_private_streams(kind: String, visibility: String)
    requires
        call_ensures(default_channel_type, (), kind),
        call_ensures(default_channel_visibility, (), visibility),
    ensures
        kind@ == "stream"@,
        visibility@ == "private"@,
{
}

/// A restart that has stopped its agent starts the same agent; every other call is answered
/// after its command, and so is every call whose command failed.
pub proof fn handled_calls_go_on(handling: &mut Handling, report: Report, r: ControlStep)
    requires
        call_ensures(Handling::step, (handling, report), r),
    ensures
        final(handling).call() == old(handling).call(),
        r@ == reported(old(handling).call(), old(handling).stage(), report@).1,
        final(handling).stage() == reported(
            old(handling).call(),
            old(handling).stage(),
            report@,
        ).0,
        old(handling).call() is RestartAgent && old(handling).stage() is First && report is Value
            ==> (r matches ControlStep::Run(DesktopCommand::StartAgent(pubkey)) && pubkey@
            == old(handling).call()->RestartAgent_pubkey@),
        !(old(handling).call() is RestartAgent) || !(old(handling).stage() is First)
            || report is Failed ==> r is Respond,
{
}

} // verus!
