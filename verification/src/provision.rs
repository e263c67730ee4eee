//! Provisioning a channel with its agents, as a machine: it says what to request
//! next, and is told what came of it. Where a step fails, the agents that were
//! created are deleted again, the last one first, and then the channel.
use vstd::prelude::*;

use crate::control_client::CliError;
use crate::control_client::CliFault;
use crate::control_client::ControlRequest;
use crate::control_client::Method;
use crate::control_client::RequestView;
use crate::json::encode;
use crate::json::json_text;
use crate::json::opt_tree;
use crate::json::Json;
use crate::json::JsonTree;
use crate::managed_agents::agent_system_prompt;
use crate::managed_agents::agent_views;
use crate::managed_agents::canvas_content;
use crate::managed_agents::canvas_of;
use crate::managed_agents::system_prompt_of;
use crate::managed_agents::AgentSpec;
use crate::managed_agents::AgentView;
use crate::text::borrowed;
use crate::text::cat2;
use crate::text::cat3;
use crate::text::cat4;
use crate::text::join;
use crate::text::joined;
use crate::text::opt_text;
use crate::text::texts;

verus! {

/// A channel to provision.
#[derive(Debug, PartialEq)]
pub struct ChannelPlan {
    pub name: String,
    /// The directory that the agents work in.
    pub context: String,
    pub agents: Vec<AgentSpec>,
    pub description: Option<String>,
    pub visibility: String,
    pub channel_type: String,
    pub system_prompt: Option<String>,
    /// Start each agent once it is a member.
    pub start: bool,
    pub start_on_app_launch: bool,
}

/// What a [`ChannelPlan`] says.
pub struct PlanView {
    pub name: Seq<char>,
    pub context: Seq<char>,
    pub agents: Seq<AgentView>,
    pub description: Option<Seq<char>>,
    pub visibility: Seq<char>,
    pub channel_type: Seq<char>,
    pub system_prompt: Option<Seq<char>>,
    pub start: bool,
    pub start_on_app_launch: bool,
}

impl View for ChannelPlan {
    type V = PlanView;

    open spec fn view(&self) -> PlanView {
        PlanView {
            name: self.name@,
            context: self.context@,
            agents: agent_views(self.agents@),
            description: opt_text(self.description),
            visibility: self.visibility@,
            channel_type: self.channel_type@,
            system_prompt: opt_text(self.system_prompt),
            start: self.start,
            start_on_app_launch: self.start_on_app_launch,
        }
    }
}

/// What the provisioning waits for. An index is that of the agent in the plan, or
/// of the agent to delete among those created.
#[derive(Debug, PartialEq, Eq, Clone, Copy, Structural)]
pub enum ProvisionPhase {
    CreatingChannel,
    SettingCanvas,
    CreatingAgent { index: usize },
    AddingMember { index: usize },
    StartingAgent { index: usize },
    DeletingAgent { index: usize },
    DeletingChannel,
    Done,
}

/// What to do next.
#[derive(Debug, PartialEq)]
pub enum ProvisionAction {
    Request(ControlRequest),
    /// The channel is provisioned: print this line.
    Print(String),
    /// The provisioning failed.
    Fail(CliError),
}

/// What a [`ProvisionAction`] says.
pub enum ProvisionMove {
    Request(RequestView),
    Print(Seq<char>),
    Fail(CliFault),
}

impl View for ProvisionAction {
    type V = ProvisionMove;

    open spec fn view(&self) -> ProvisionMove {
        match self {
            ProvisionAction::Request(request) => ProvisionMove::Request(request@),
            ProvisionAction::Print(line) => ProvisionMove::Print(line@),
            ProvisionAction::Fail(error) => ProvisionMove::Fail(error@),
        }
    }
}

/// What came of a request.
#[derive(Debug, PartialEq)]
pub enum ProvisionEvent {
    Reply(Json),
    /// It failed; `shown` is how the error is shown.
    Failed { error: CliError, shown: String },
}

/// What a [`ProvisionEvent`] says.
pub enum ProvisionNews {
    Reply(JsonTree),
    Failed { fault: CliFault, shown: Seq<char> },
}

impl View for ProvisionEvent {
    type V = ProvisionNews;

    open spec fn view(&self) -> ProvisionNews {
        match self {
            ProvisionEvent::Reply(value) => ProvisionNews::Reply(value@),
            ProvisionEvent::Failed { error, shown } => ProvisionNews::Failed {
                fault: error@,
                shown: shown@,
            },
        }
    }
}

/// What a provisioning has come to.
pub struct ProvisionState {
    pub plan: PlanView,
    pub phase: ProvisionPhase,
    pub channel: JsonTree,
    pub channel_id: Seq<char>,
    pub canvas: JsonTree,
    /// The public keys of the agents that were created.
    pub created: Seq<Seq<char>>,
    /// The response to the last creation of an agent.
    pub response: JsonTree,
    /// The response to the last addition of a member.
    pub membership: JsonTree,
    /// What was done for each agent that is done with.
    pub provisioned: Seq<JsonTree>,
    /// Why the provisioning is rolled back.
    pub cause: Seq<char>,
    pub rollback_errors: Seq<Seq<char>>,
}

/// A body that approves.
pub open spec fn approved() -> JsonTree {
    JsonTree::object().with("approve"@, JsonTree::Bool(true))
}

pub open spec fn post(route: Seq<char>, body: JsonTree) -> RequestView {
    RequestView { method: Method::Post, route, body: Some(body) }
}

pub open spec fn create_channel_request(plan: PlanView) -> RequestView {
    post(
        "v1/channels"@,
        approved().with("name"@, JsonTree::Str(plan.name)).with(
            "channelType"@,
            JsonTree::Str(plan.channel_type),
        ).with("visibility"@, JsonTree::Str(plan.visibility)).with(
            "description"@,
            JsonTree::optional(plan.description),
        ),
    )
}

pub open spec fn canvas_request(plan: PlanView, channel_id: Seq<char>) -> RequestView {
    post(
        "v1/channels/"@ + channel_id + "/canvas"@,
        approved().with(
            "content"@,
            JsonTree::Str(canvas_of(plan.name, plan.context, plan.agents)),
        ),
    )
}

pub open spec fn create_agent_request(plan: PlanView, index: int) -> RequestView {
    post(
        "v1/managed-agents"@,
        approved().with("name"@, JsonTree::Str(plan.agents[index].name)).with(
            "agentCommand"@,
            JsonTree::Str(plan.agents[index].command),
        ).with("harnessOverride"@, JsonTree::Bool(true)).with(
            "systemPrompt"@,
            JsonTree::Str(system_prompt_of(plan.system_prompt, plan.context)),
        ).with("spawnAfterCreate"@, JsonTree::Bool(false)).with(
            "startOnAppLaunch"@,
            JsonTree::Bool(plan.start_on_app_launch),
        ),
    )
}

pub open spec fn member_request(channel_id: Seq<char>, pubkey: Seq<char>) -> RequestView {
    post(
        "v1/channels/"@ + channel_id + "/members"@,
        approved().with("pubkeys"@, JsonTree::Array(seq![JsonTree::Str(pubkey)])).with(
            "role"@,
            JsonTree::Str("bot"@),
        ),
    )
}

pub open spec fn start_request(pubkey: Seq<char>) -> RequestView {
    post("v1/managed-agents/"@ + pubkey + "/start"@, approved())
}

pub open spec fn delete_agent_request(pubkey: Seq<char>) -> RequestView {
    RequestView {
        method: Method::Delete,
        route: "v1/managed-agents/"@ + pubkey,
        body: Some(approved()),
    }
}

pub open spec fn delete_channel_request(channel_id: Seq<char>) -> RequestView {
    RequestView {
        method: Method::Delete,
        route: "v1/channels/"@ + channel_id,
        body: Some(approved()),
    }
}

/// What was done for an agent.
pub open spec fn agent_entry(
    agent: AgentView,
    pubkey: Seq<char>,
    created: JsonTree,
    membership: JsonTree,
    started: Option<JsonTree>,
) -> JsonTree {
    JsonTree::object().with("name"@, JsonTree::Str(agent.name)).with(
        "command"@,
        JsonTree::Str(agent.command),
    ).with("pubkey"@, JsonTree::Str(pubkey)).with("created"@, created).with(
        "membership"@,
        membership,
    ).with(
        "started"@,
        match started {
            Some(value) => value,
            None => JsonTree::Null,
        },
    )
}

/// What is printed of a provisioned channel.
pub open spec fn summary_tree(
    plan: PlanView,
    channel: JsonTree,
    canvas: JsonTree,
    provisioned: Seq<JsonTree>,
) -> JsonTree {
    JsonTree::object().with("ok"@, JsonTree::Bool(true)).with("executed"@, JsonTree::Bool(true)).with(
        "action"@,
        JsonTree::Str("provision_managed_channel"@),
    ).with("channel"@, channel).with("canvas"@, canvas).with(
        "context"@,
        JsonTree::Str(plan.context),
    ).with("agents"@, JsonTree::Array(provisioned))
}

/// How the rollback went.
pub open spec fn rollback_text(errors: Seq<Seq<char>>) -> Seq<char> {
    if errors.len() == 0 {
        "rollback completed"@
    } else {
        "rollback incomplete: "@ + joined(errors, "; "@)
    }
}

impl ProvisionState {
    pub open spec fn ask(self, phase: ProvisionPhase, request: RequestView) -> (
        ProvisionState,
        ProvisionMove,
    ) {
        (ProvisionState { phase, ..self }, ProvisionMove::Request(request))
    }

    pub open spec fn fail(self, fault: CliFault) -> (ProvisionState, ProvisionMove) {
        (ProvisionState { phase: ProvisionPhase::Done, ..self }, ProvisionMove::Fail(fault))
    }

    /// Goes on with an agent of the plan, or ends where there is none left.
    pub open spec fn take_up(self, index: int) -> (ProvisionState, ProvisionMove) {
        if index < self.plan.agents.len() {
            self.ask(
                ProvisionPhase::CreatingAgent { index: index as usize },
                create_agent_request(self.plan, index),
            )
        } else {
            (
                ProvisionState {
                    phase: ProvisionPhase::Done,
                    channel: JsonTree::Null,
                    canvas: JsonTree::Null,
                    provisioned: Seq::empty(),
                    ..self
                },
                ProvisionMove::Print(
                    json_text(
                        summary_tree(self.plan, self.channel, self.canvas, self.provisioned),
                    ),
                ),
            )
        }
    }

    /// Deletes the first agents that were created, the last of them first.
    pub open spec fn delete_from(self, count: int) -> (ProvisionState, ProvisionMove) {
        if count > 0 {
            self.ask(
                ProvisionPhase::DeletingAgent { index: (count - 1) as usize },
                delete_agent_request(self.created[count - 1]),
            )
        } else {
            self.ask(ProvisionPhase::DeletingChannel, delete_channel_request(self.channel_id))
        }
    }

    pub open spec fn roll_back(self, cause: Seq<char>) -> (ProvisionState, ProvisionMove) {
        ProvisionState { cause, ..self }.delete_from(self.created.len() as int)
    }

    /// Notes what went wrong in the rollback, if anything.
    pub open spec fn noted(self, what: Seq<char>, news: ProvisionNews) -> ProvisionState {
        match news {
            ProvisionNews::Reply(_) => self,
            ProvisionNews::Failed { shown, .. } => ProvisionState {
                rollback_errors: self.rollback_errors.push(what + ": "@ + shown),
                ..self
            },
        }
    }

    pub open spec fn channel_created(self, value: JsonTree) -> (ProvisionState, ProvisionMove) {
        match value.field("channel"@) {
            None => self.fail(CliFault::Other("desktop channel response omitted channel"@)),
            Some(channel) => match channel.field_text("id"@) {
                None => self.fail(
                    CliFault::Other("desktop channel response omitted channel id"@),
                ),
                Some(channel_id) => ProvisionState { channel, channel_id, ..self }.ask(
                    ProvisionPhase::SettingCanvas,
                    canvas_request(self.plan, channel_id),
                ),
            },
        }
    }

    pub open spec fn agent_created(self, index: usize, value: JsonTree) -> (
        ProvisionState,
        ProvisionMove,
    ) {
        match value.inner_field("agent"@, "pubkey"@) {
            Some(JsonTree::Str(pubkey)) => ProvisionState {
                created: self.created.push(pubkey),
                response: value,
                ..self
            }.ask(
                ProvisionPhase::AddingMember { index },
                member_request(self.channel_id, pubkey),
            ),
            _ => self.roll_back("desktop managed-agent response omitted agent pubkey"@),
        }
    }

    /// The agent is done with; the next one is taken up.
    pub open spec fn agent_done(self, index: usize, started: Option<JsonTree>) -> (
        ProvisionState,
        ProvisionMove,
    ) {
        ProvisionState {
            provisioned: self.provisioned.push(
                agent_entry(
                    self.plan.agents[index as int],
                    self.created.last(),
                    self.response,
                    self.membership,
                    started,
                ),
            ),
            response: JsonTree::Null,
            membership: JsonTree::Null,
            ..self
        }.take_up(index + 1)
    }

    pub open spec fn member_added(self, index: usize, value: JsonTree) -> (
        ProvisionState,
        ProvisionMove,
    ) {
        if value.field("ok"@) == Some(JsonTree::Bool(true)) {
            let joined = ProvisionState { membership: value, ..self };
            if self.plan.start {
                joined.ask(
                    ProvisionPhase::StartingAgent { index },
                    start_request(self.created.last()),
                )
            } else {
                joined.agent_done(index, None)
            }
        } else {
            self.roll_back("channel membership failed: "@ + json_text(value))
        }
    }

    /// The provisioning after what came of its last request, and what it then does.
    pub open spec fn next(self, news: ProvisionNews) -> (ProvisionState, ProvisionMove) {
        match (self.phase, news) {
            (ProvisionPhase::CreatingChannel, ProvisionNews::Reply(value)) => self.channel_created(
                value,
            ),
            (ProvisionPhase::CreatingChannel, ProvisionNews::Failed { fault, .. }) => self.fail(
                fault,
            ),
            (ProvisionPhase::SettingCanvas, ProvisionNews::Reply(value)) => ProvisionState {
                canvas: value,
                ..self
            }.take_up(0),
            (ProvisionPhase::CreatingAgent { index }, ProvisionNews::Reply(value)) =>
                self.agent_created(index, value),
            (ProvisionPhase::AddingMember { index }, ProvisionNews::Reply(value)) =>
                self.member_added(index, value),
            (ProvisionPhase::StartingAgent { index }, ProvisionNews::Reply(value)) =>
                self.agent_done(index, Some(value)),
            (ProvisionPhase::DeletingAgent { index }, _) => self.noted(
                "delete agent "@ + self.created[index as int],
                news,
            ).delete_from(index as int),
            (ProvisionPhase::DeletingChannel | ProvisionPhase::Done, _) => {
                let noted = self.noted("delete channel "@ + self.channel_id, news);
                noted.fail(
                    CliFault::Other(
                        "managed channel provisioning failed: "@ + self.cause + "; "@
                            + rollback_text(noted.rollback_errors),
                    ),
                )
            },
            (_, ProvisionNews::Failed { shown, .. }) => self.roll_back(shown),
        }
    }

    /// What holds of every provisioning.
    pub open spec fn wf(self) -> bool {
        &&& self.plan.agents.len() <= usize::MAX
        &&& self.created.len() <= usize::MAX
        &&& match self.phase {
            ProvisionPhase::CreatingChannel | ProvisionPhase::SettingCanvas =>
                self.created.len() == 0 && self.provisioned.len() == 0,
            ProvisionPhase::CreatingAgent { index } => index < self.plan.agents.len()
                && self.created.len() == index && self.provisioned.len() == index,
            ProvisionPhase::AddingMember { index } | ProvisionPhase::StartingAgent { index } => index
                < self.plan.agents.len() && self.created.len() == index + 1
                && self.provisioned.len() == index,
            ProvisionPhase::DeletingAgent { index } => index < self.created.len(),
            ProvisionPhase::DeletingChannel | ProvisionPhase::Done => true,
        }
    }
}

/// The provisioning of a channel.
pub struct Provisioning {
    plan: ChannelPlan,
    phase: ProvisionPhase,
    channel: Json,
    channel_id: String,
    canvas: Json,
    created: Vec<String>,
    response: Json,
    membership: Json,
    provisioned: Vec<Json>,
    cause: String,
    rollback_errors: Vec<String>,
}

impl View for Provisioning {
    type V = ProvisionState;

    closed spec fn view(&self) -> ProvisionState {
        ProvisionState {
            plan: self.plan@,
            phase: self.phase,
            channel: self.channel@,
            channel_id: self.channel_id@,
            canvas: self.canvas@,
            created: texts(self.created@),
            response: self.response@,
            membership: self.membership@,
            provisioned: self.provisioned@.map_values(|entry: Json| entry@),
            cause: self.cause@,
            rollback_errors: texts(self.rollback_errors@),
        }
    }
}

/// A provisioning that has requested the channel.
pub open spec fn begun(plan: PlanView) -> ProvisionState {
    ProvisionState {
        plan,
        phase: ProvisionPhase::CreatingChannel,
        channel: JsonTree::Null,
        channel_id: Seq::empty(),
        canvas: JsonTree::Null,
        created: Seq::empty(),
        response: JsonTree::Null,
        membership: JsonTree::Null,
        provisioned: Seq::empty(),
        cause: Seq::empty(),
        rollback_errors: Seq::empty(),
    }
}

fn approval() -> (r: Json)
    ensures
        r@ == approved(),
{
    Json::object().with("approve", Json::Bool(true))
}

fn posting(route: String, body: Json) -> (r: ControlRequest)
    ensures
        r@ == post(route@, body@),
{
    ControlRequest { method: Method::Post, route, body: Some(body) }
}

/// Takes a value out of its place and leaves null there.
fn take_json(place: &mut Json) -> (r: Json)
    ensures
        r == *old(place),
        final(place)@ == JsonTree::Null,
{
    let mut value = Json::Null;
    std::mem::swap(&mut value, place);
    value
}

impl Provisioning {
    /// A provisioning, and the first request that it makes.
    pub fn begin(plan: ChannelPlan) -> (r: (Provisioning, ControlRequest))
        ensures
            r.0@ == begun(plan@),
            r.0@.wf(),
            r.1@ == create_channel_request(plan@),
    {
        let count: usize = plan.agents.len();
        assert(plan@.agents.len() == count);
        let body = approval().with("name", Json::text(plan.name.as_str())).with(
            "channelType",
            Json::text(plan.channel_type.as_str()),
        ).with("visibility", Json::text(plan.visibility.as_str())).with(
            "description",
            Json::optional(borrowed(&plan.description)),
        );
        let request = posting("v1/channels".to_owned(), body);
        let begun = Provisioning {
            plan,
            phase: ProvisionPhase::CreatingChannel,
            channel: Json::Null,
            channel_id: String::new(),
            canvas: Json::Null,
            created: Vec::new(),
            response: Json::Null,
            membership: Json::Null,
            provisioned: Vec::new(),
            cause: String::new(),
            rollback_errors: Vec::new(),
        };
        assert(begun.channel_id@ =~= Seq::<char>::empty());
        assert(begun.cause@ =~= Seq::<char>::empty());
        assert(texts(begun.created@) =~= Seq::<Seq<char>>::empty());
        assert(texts(begun.rollback_errors@) =~= Seq::<Seq<char>>::empty());
        assert(begun@.provisioned =~= Seq::<JsonTree>::empty());
        (begun, request)
    }

    /// Whether the provisioning is over.
    pub fn done(&self) -> (r: bool)
        ensures
            r == (self@.phase is Done),
    {
        matches!(self.phase, ProvisionPhase::Done)
    }

    fn ask(&mut self, phase: ProvisionPhase, request: ControlRequest) -> (r: ProvisionAction)
        ensures
            (final(self)@, r@) == old(self)@.ask(phase, request@),
    {
        self.phase = phase;
        ProvisionAction::Request(request)
    }

    fn fail(&mut self, error: CliError) -> (r: ProvisionAction)
        ensures
            (final(self)@, r@) == old(self)@.fail(error@),
    {
        self.phase = ProvisionPhase::Done;
        ProvisionAction::Fail(error)
    }

    fn take_up(&mut self, index: usize) -> (r: ProvisionAction)
        requires
            index <= old(self)@.plan.agents.len(),
        ensures
            (final(self)@, r@) == old(self)@.take_up(index as int),
    {
        if index < self.plan.agents.len() {
            let agent = &self.plan.agents[index];
            let prompt = agent_system_prompt(
                borrowed(&self.plan.system_prompt),
                self.plan.context.as_str(),
            );
            let body = approval().with("name", Json::text(agent.name.as_str())).with(
                "agentCommand",
                Json::text(agent.command.as_str()),
            ).with("harnessOverride", Json::Bool(true)).with(
                "systemPrompt",
                Json::text(prompt.as_str()),
            ).with("spawnAfterCreate", Json::Bool(false)).with(
                "startOnAppLaunch",
                Json::Bool(self.plan.start_on_app_launch),
            );
            let request = posting("v1/managed-agents".to_owned(), body);
            self.ask(ProvisionPhase::CreatingAgent { index }, request)
        } else {
            let mut provisioned: Vec<Json> = Vec::new();
            std::mem::swap(&mut provisioned, &mut self.provisioned);
            let summary = Json::object().with("ok", Json::Bool(true)).with(
                "executed",
                Json::Bool(true),
            ).with("action", Json::text("provision_managed_channel")).with(
                "channel",
                take_json(&mut self.channel),
            ).with("canvas", take_json(&mut self.canvas)).with(
                "context",
                Json::text(self.plan.context.as_str()),
            ).with("agents", Json::array(provisioned));
            self.phase = ProvisionPhase::Done;
            assert(self@.provisioned =~= Seq::<JsonTree>::empty());
            ProvisionAction::Print(encode(&summary))
        }
    }

    fn delete_from(&mut self, count: usize) -> (r: ProvisionAction)
        requires
            count <= old(self)@.created.len(),
        ensures
            (final(self)@, r@) == old(self)@.delete_from(count as int),
    {
        if count > 0 {
            let request = ControlRequest {
                method: Method::Delete,
                route: cat2("v1/managed-agents/", self.created[count - 1].as_str()),
                body: Some(approval()),
            };
            self.ask(ProvisionPhase::DeletingAgent { index: count - 1 }, request)
        } else {
            let request = ControlRequest {
                method: Method::Delete,
                route: cat2("v1/channels/", self.channel_id.as_str()),
                body: Some(approval()),
            };
            self.ask(ProvisionPhase::DeletingChannel, request)
        }
    }

    fn roll_back(&mut self, cause: String) -> (r: ProvisionAction)
        ensures
            (final(self)@, r@) == old(self)@.roll_back(cause@),
    {
        self.cause = cause;
        let count: usize = self.created.len();
        self.delete_from(count)
    }

    fn note(&mut self, what: &str, event: &ProvisionEvent)
        ensures
            final(self)@ == old(self)@.noted(what@, event@),
    {
        match event {
            ProvisionEvent::Reply(_) => {},
            ProvisionEvent::Failed { shown, .. } => {
                let ghost before = self.rollback_errors@;
                let error = cat3(what, ": ", shown.as_str());
                self.rollback_errors.push(error);
                assert(texts(self.rollback_errors@) =~= texts(before).push(error@));
            },
        }
    }

    fn channel_created(&mut self, value: Json) -> (r: ProvisionAction)
        ensures
            (final(self)@, r@) == old(self)@.channel_created(value@),
    {
        let found = value.get("channel").is_some();
        if !found {
            return self.fail(
                CliError::Other("desktop channel response omitted channel".to_owned()),
            );
        }
        let channel = value.take_field("channel");
        let channel_id = match channel.get_str("id") {
            None => {
                return self.fail(
                    CliError::Other("desktop channel response omitted channel id".to_owned()),
                );
            },
            Some(channel_id) => channel_id.to_owned(),
        };
        self.channel = channel;
        let content = canvas_content(
            self.plan.name.as_str(),
            self.plan.context.as_str(),
            &self.plan.agents,
        );
        let request = posting(
            cat3("v1/channels/", channel_id.as_str(), "/canvas"),
            approval().with("content", Json::text(content.as_str())),
        );
        self.channel_id = channel_id;
        self.ask(ProvisionPhase::SettingCanvas, request)
    }

    fn agent_created(&mut self, index: usize, value: Json) -> (r: ProvisionAction)
        ensures
            (final(self)@, r@) == old(self)@.agent_created(index, value@),
    {
        let pubkey = match value.get_inner("agent", "pubkey") {
            Some(pubkey) => match pubkey.as_str() {
                Some(pubkey) => Some(pubkey.to_owned()),
                None => None,
            },
            None => None,
        };
        match pubkey {
            Some(pubkey) => {
                let ghost before = self.created@;
                let mut pubkeys: Vec<Json> = Vec::new();
                pubkeys.push(Json::text(pubkey.as_str()));
                assert(pubkeys@.map_values(|item: Json| item@) =~= seq![
                    JsonTree::Str(pubkey@),
                ]);
                let body = approval().with("pubkeys", Json::array(pubkeys)).with(
                    "role",
                    Json::text("bot"),
                );
                let request = posting(
                    cat3("v1/channels/", self.channel_id.as_str(), "/members"),
                    body,
                );
                self.created.push(pubkey);
                assert(texts(self.created@) =~= texts(before).push(pubkey@));
                self.response = value;
                self.ask(ProvisionPhase::AddingMember { index }, request)
            },
            None => self.roll_back(
                "desktop managed-agent response omitted agent pubkey".to_owned(),
            ),
        }
    }

    fn agent_done(&mut self, index: usize, started: Option<Json>) -> (r: ProvisionAction)
        requires
            index < old(self)@.plan.agents.len(),
            old(self)@.created.len() > 0,
        ensures
            (final(self)@, r@) == old(self)@.agent_done(index, opt_tree(started)),
    {
        let count: usize = self.plan.agents.len();
        assert(index < count);
        let agent = &self.plan.agents[index];
        let pubkey = &self.created[self.created.len() - 1];
        let entry = Json::object().with("name", Json::text(agent.name.as_str())).with(
            "command",
            Json::text(agent.command.as_str()),
        ).with("pubkey", Json::text(pubkey.as_str())).with(
            "created",
            take_json(&mut self.response),
        ).with("membership", take_json(&mut self.membership)).with(
            "started",
            match started {
                Some(value) => value,
                None => Json::Null,
            },
        );
        let ghost before = self@.provisioned;
        self.provisioned.push(entry);
        assert(self@.provisioned =~= before.push(entry@));
        self.take_up(index + 1)
    }

    fn member_added(&mut self, index: usize, value: Json) -> (r: ProvisionAction)
        requires
            index < old(self)@.plan.agents.len(),
            old(self)@.created.len() > 0,
        ensures
            (final(self)@, r@) == old(self)@.member_added(index, value@),
    {
        let joined = match value.get("ok") {
            Some(ok) => ok.is_true(),
            None => false,
        };
        if !joined {
            return self.roll_back(cat2("channel membership failed: ", encode(&value).as_str()));
        }
        self.membership = value;
        if self.plan.start {
            let pubkey = &self.created[self.created.len() - 1];
            let request = posting(
                cat3("v1/managed-agents/", pubkey.as_str(), "/start"),
                approval(),
            );
            self.ask(ProvisionPhase::StartingAgent { index }, request)
        } else {
            self.agent_done(index, None)
        }
    }

    /// Goes on after what came of the last request, and says what to do next.
    pub fn step(&mut self, event: ProvisionEvent) -> (r: ProvisionAction)
        requires
            old(self)@.wf(),
            !(old(self)@.phase is Done),
        ensures
            (final(self)@, r@) == old(self)@.next(event@),
            final(self)@.wf(),
    {
        match (self.phase, event) {
            (ProvisionPhase::CreatingChannel, ProvisionEvent::Reply(value)) =>
                self.channel_created(value),
            (ProvisionPhase::CreatingChannel, ProvisionEvent::Failed { error, .. }) => self.fail(
                error,
            ),
            (ProvisionPhase::SettingCanvas, ProvisionEvent::Reply(value)) => {
                self.canvas = value;
                self.take_up(0)
            },
            (ProvisionPhase::CreatingAgent { index }, ProvisionEvent::Reply(value)) =>
                self.agent_created(index, value),
            (ProvisionPhase::AddingMember { index }, ProvisionEvent::Reply(value)) =>
                self.member_added(index, value),
            (ProvisionPhase::StartingAgent { index }, ProvisionEvent::Reply(value)) =>
                self.agent_done(index, Some(value)),
            (ProvisionPhase::DeletingAgent { index }, event) => {
                let what = cat2("delete agent ", self.created[index].as_str());
                self.note(what.as_str(), &event);
                self.delete_from(index)
            },
            (ProvisionPhase::DeletingChannel | ProvisionPhase::Done, event) => {
                let what = cat2("delete channel ", self.channel_id.as_str());
                self.note(what.as_str(), &event);
                let rollback = if self.rollback_errors.len() == 0 {
                    "rollback completed".to_owned()
                } else {
                    cat2(
                        "rollback incomplete: ",
                        join(&self.rollback_errors, "; ").as_str(),
                    )
                };
                let message = cat4(
                    "managed channel provisioning failed: ",
                    self.cause.as_str(),
                    "; ",
                    rollback.as_str(),
                );
                self.fail(CliError::Other(message))
            },
            (_, ProvisionEvent::Failed { shown, .. }) => self.roll_back(shown),
        }
    }
}

/// What a provisioning is to do, does and hears is seen as it is.
pub proof fn provisionings_are_seen_as_they_are(
    plan: ChannelPlan,
    action: ProvisionAction,
    event: ProvisionEvent,
)
    ensures
        plan@.name == plan.name@,
        plan@.context == plan.context@,
        plan@.agents == agent_views(plan.agents@),
        plan@.description == opt_text(plan.description),
        plan@.visibility == plan.visibility@,
        plan@.channel_type == plan.channel_type@,
        plan@.system_prompt == opt_text(plan.system_prompt),
        plan@.start == plan.start,
        plan@.start_on_app_launch == plan.start_on_app_launch,
        match action {
            ProvisionAction::Request(request) => action@ == ProvisionMove::Request(request@),
            ProvisionAction::Print(line) => action@ == ProvisionMove::Print(line@),
            ProvisionAction::Fail(error) => action@ == ProvisionMove::Fail(error@),
        },
        match event {
            ProvisionEvent::Reply(value) => event@ == ProvisionNews::Reply(value@),
            ProvisionEvent::Failed { error, shown } => event@ == (ProvisionNews::Failed {
                fault: error@,
                shown: shown@,
            }),
        },
{
}

/// A provisioning begins with its own plan, and with the request for its channel.
pub proof fn provisionings_begin_with_their_plan(
    plan: ChannelPlan,
    r: (Provisioning, ControlRequest),
)
    requires
        call_ensures(Provisioning::begin, (plan,), r),
    ensures
        r.0@.plan == plan@,
        r.0@.phase is CreatingChannel,
        r.0@.created.len() == 0,
        r.0@.provisioned.len() == 0,
        r.0@.rollback_errors.len() == 0,
        r.1.method == Method::Post,
        r.1.route@ == "v1/channels"@,
{
}

/// A step of a provisioning is the one that its state calls for after what it heard.
pub proof fn steps_are_what_the_provisioning_calls_for(
    run: &mut Provisioning,
    event: ProvisionEvent,
    r: ProvisionAction,
)
    requires
        call_ensures(Provisioning::step, (run, event), r),
    ensures
        r@ == old(run)@.next(event@).1,
        final(run)@ == old(run)@.next(event@).0,
{
}

/// Once the canvas is set, the first agent of the plan is created: under its name, with its
/// command.
pub proof fn first_agent_follows_the_canvas(
    run: &mut Provisioning,
    canvas: Json,
    r: ProvisionAction,
)
    requires
        old(run)@.phase is SettingCanvas,
        old(run)@.plan.agents.len() > 0,
        call_ensures(Provisioning::step, (run, ProvisionEvent::Reply(canvas)), r),
    ensures
        r matches ProvisionAction::Request(request) && {
            let agent = old(run)@.plan.agents[0];
            &&& request.method == Method::Post
            &&& request.route@ == "v1/managed-agents"@
            &&& request.body matches Some(body) && {
                &&& body@.field_text("name"@) == Some(agent.name)
                &&& body@.field_text("agentCommand"@) == Some(agent.command)
            }
        },
        final(run)@.plan == old(run)@.plan,
        final(run)@.canvas == canvas@,
{
    reveal_strlit("approve");
    reveal_strlit("name");
    reveal_strlit("agentCommand");
    reveal_strlit("harnessOverride");
    reveal_strlit("systemPrompt");
    reveal_strlit("spawnAfterCreate");
    reveal_strlit("startOnAppLaunch");
    assert("approve"@.len() == 7 && "name"@.len() == 4 && "harnessOverride"@.len() == 15);
    assert("agentCommand"@.len() == 12 && "agentCommand"@[0] == 'a');
    assert("systemPrompt"@.len() == 12 && "systemPrompt"@[0] == 's');
    assert("spawnAfterCreate"@.len() == 16 && "startOnAppLaunch"@.len() == 16);
}

} // verus!
