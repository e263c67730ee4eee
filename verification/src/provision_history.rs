//! What holds of every provisioning, whatever the control service answers.
use vstd::prelude::*;

use crate::control_client::service_route;
use crate::control_client::CliFault;
use crate::control_client::RequestView;
use crate::json::json_text;
use crate::json::JsonTree;
use crate::managed_agents::canvas_of;
use crate::provision::agent_entry;
use crate::provision::approved;
use crate::provision::begun;
use crate::provision::create_channel_request;
use crate::provision::delete_agent_request;
use crate::provision::delete_channel_request;
use crate::provision::rollback_text;
use crate::provision::summary_tree;
use crate::provision::PlanView;
use crate::provision::ProvisionMove;
use crate::provision::ProvisionNews;
use crate::provision::ProvisionPhase;
use crate::provision::ProvisionState;
use crate::text::joined;
use crate::text::trimmed;

verus! {

/// A provisioning from its start, and what came of its requests.
pub struct ProvisionHistory {
    pub plan: PlanView,
    pub news: Seq<ProvisionNews>,
}

impl ProvisionHistory {
    /// The history without its last news.
    pub open spec fn before(self) -> ProvisionHistory {
        ProvisionHistory { news: self.news.drop_last(), ..self }
    }

    /// What the provisioning has come to.
    pub open spec fn state(self) -> ProvisionState
        decreases self.news.len(),
    {
        if self.news.len() == 0 {
            begun(self.plan)
        } else {
            self.before().state().next(self.news.last()).0
        }
    }

    /// What the provisioning last did.
    pub open spec fn last_move(self) -> ProvisionMove {
        if self.news.len() == 0 {
            ProvisionMove::Request(create_channel_request(self.plan))
        } else {
            self.before().state().next(self.news.last()).1
        }
    }

    /// Nothing came after the end, and the plan fits in memory.
    pub open spec fn valid(self) -> bool
        decreases self.news.len(),
    {
        &&& self.plan.agents.len() <= usize::MAX
        &&& self.news.len() > 0 ==> {
            &&& self.before().valid()
            &&& !(self.before().state().phase is Done)
        }
    }

    /// The requests to delete something, in the order in which they were made.
    pub open spec fn deletes(self) -> Seq<RequestView>
        decreases self.news.len(),
    {
        if self.news.len() == 0 {
            Seq::empty()
        } else {
            match self.last_move() {
                ProvisionMove::Request(request) => if request.method is Delete {
                    self.before().deletes().push(request)
                } else {
                    self.before().deletes()
                },
                _ => self.before().deletes(),
            }
        }
    }

    /// The public keys of the agents that the service said it had created.
    pub open spec fn agents_made(self) -> Seq<Seq<char>>
        decreases self.news.len(),
    {
        if self.news.len() == 0 {
            Seq::empty()
        } else {
            match made_by(self.before().state().phase, self.news.last()) {
                Some(pubkey) => self.before().agents_made().push(pubkey),
                None => self.before().agents_made(),
            }
        }
    }

    /// How many requests to delete something failed.
    pub open spec fn failed_deletes(self) -> nat
        decreases self.news.len(),
    {
        if self.news.len() == 0 {
            0
        } else {
            self.before().failed_deletes() + if rolling_back(self.before().state().phase)
                && self.news.last() is Failed {
                1nat
            } else {
                0nat
            }
        }
    }
}

/// The provisioning is undoing what it did.
pub open spec fn rolling_back(phase: ProvisionPhase) -> bool {
    phase is DeletingAgent || phase is DeletingChannel
}

/// All that is deleted in a rollback: the agents, the last one first, and then the
/// channel.
pub open spec fn rollback_requests(created: Seq<Seq<char>>, channel_id: Seq<char>) -> Seq<
    RequestView,
> {
    Seq::new(
        created.len(),
        |i: int| delete_agent_request(created[created.len() - 1 - i]),
    ).push(delete_channel_request(channel_id))
}

/// The public key of the agent that a reply says was created.
pub open spec fn made_by(phase: ProvisionPhase, news: ProvisionNews) -> Option<Seq<char>> {
    match (phase, news) {
        (ProvisionPhase::CreatingAgent { .. }, ProvisionNews::Reply(value)) =>
            match value.inner_field("agent"@, "pubkey"@) {
                Some(JsonTree::Str(pubkey)) => Some(pubkey),
                _ => None,
            },
        _ => None,
    }
}

/// What one step of a provisioning does to what it has come to.
proof fn step_agrees(state: ProvisionState, news: ProvisionNews)
    requires
        state.wf(),
        !(state.phase is Done),
    ensures
        state.next(news).0.wf(),
        state.next(news).0.plan == state.plan,
        state.next(news).0.phase is Done <==> !(state.next(news).1 is Request),
        !(state.next(news).0.phase is CreatingChannel),
        state.next(news).0.created == match made_by(state.phase, news) {
            Some(pubkey) => state.created.push(pubkey),
            None => state.created,
        },
        state.next(news).0.rollback_errors.len() == state.rollback_errors.len() + if rolling_back(
            state.phase,
        ) && news is Failed {
            1nat
        } else {
            0nat
        },
{
    match state.phase {
        ProvisionPhase::CreatingChannel => {},
        ProvisionPhase::SettingCanvas => {},
        ProvisionPhase::CreatingAgent { .. } => {},
        ProvisionPhase::AddingMember { .. } => {},
        ProvisionPhase::StartingAgent { .. } => {},
        ProvisionPhase::DeletingAgent { .. } => {},
        ProvisionPhase::DeletingChannel => {},
        ProvisionPhase::Done => {},
    }
}

/// What a provisioning has come to agrees with what it was told.
proof fn state_agrees(h: ProvisionHistory)
    requires
        h.valid(),
    ensures
        h.state().wf(),
        h.state().plan == h.plan,
        h.state().created == h.agents_made(),
        h.state().rollback_errors.len() == h.failed_deletes(),
        h.state().phase is Done <==> !(h.last_move() is Request),
        h.state().phase is CreatingChannel <==> h.news.len() == 0,
    decreases h.news.len(),
{
    if h.news.len() > 0 {
        state_agrees(h.before());
        step_agrees(h.before().state(), h.news.last());
    }
}

/// A provisioning that goes forward had every request answered.
proof fn forward_means_answered(h: ProvisionHistory)
    requires
        h.valid(),
        !rolling_back(h.state().phase),
        !(h.last_move() is Fail),
    ensures
        forall|i: int| 0 <= i < h.news.len() ==> #[trigger] h.news[i] is Reply,
    decreases h.news.len(),
{
    state_agrees(h);
    if h.news.len() > 0 {
        let was = h.before();
        state_agrees(was);
        assert(!(was.last_move() is Fail));
        forward_means_answered(was);
        assert forall|i: int| 0 <= i < h.news.len() implies #[trigger] h.news[i] is Reply by {
            if i < h.news.len() - 1 {
                assert(h.news[i] == was.news[i]);
            }
        }
    }
}

/// What has been deleted so far.
pub open spec fn deleted_so_far(h: ProvisionHistory) -> bool {
    let all = rollback_requests(h.state().created, h.state().channel_id);
    match h.state().phase {
        ProvisionPhase::DeletingAgent { index } => h.deletes() == all.take(
            h.state().created.len() - index,
        ),
        ProvisionPhase::DeletingChannel => h.deletes() == all,
        ProvisionPhase::Done => match h.last_move() {
            ProvisionMove::Fail(_) => h.deletes() == all || (h.news.len() == 1
                && h.deletes().len() == 0 && h.agents_made().len() == 0),
            _ => h.deletes().len() == 0,
        },
        _ => h.deletes().len() == 0,
    }
}

proof fn deletes_follow_the_rollback(h: ProvisionHistory)
    requires
        h.valid(),
    ensures
        deleted_so_far(h),
    decreases h.news.len(),
{
    state_agrees(h);
    if h.news.len() > 0 {
        let was = h.before();
        state_agrees(was);
        deletes_follow_the_rollback(was);
        let all = rollback_requests(h.state().created, h.state().channel_id);
        assert(all.take(0) =~= Seq::empty());
        match h.state().phase {
            ProvisionPhase::DeletingAgent { index } => {
                let n = h.state().created.len() - index;
                assert(h.state().created == was.state().created);
                assert(h.state().channel_id == was.state().channel_id);
                assert(all[n - 1] == delete_agent_request(h.state().created[index as int]));
                assert(all.take(n) =~= all.take(n - 1).push(all[n - 1]));
                assert(h.deletes() == was.deletes().push(all[n - 1]));
                assert(was.deletes() =~= all.take(n - 1));
            },
            ProvisionPhase::DeletingChannel => {
                let n = h.state().created.len() as int;
                assert(h.state().created == was.state().created);
                assert(h.state().channel_id == was.state().channel_id);
                assert(all =~= all.take(n).push(all[n]));
                assert(h.deletes() == was.deletes().push(all[n]));
                assert(was.deletes() =~= all.take(n));
            },
            _ => {},
        }
    }
}

/// A provisioning that fails undoes what it did. Where the service named no channel
/// there is nothing to undo. Otherwise every agent that was created is deleted, the last
/// one first, and then the channel, each of them once.
pub proof fn failure_is_rolled_back(h: ProvisionHistory)
    requires
        h.valid(),
        h.last_move() is Fail,
    ensures
        h.deletes() == rollback_requests(h.agents_made(), h.state().channel_id) || (h.news.len()
            == 1 && h.deletes().len() == 0 && h.agents_made().len() == 0),
{
    state_agrees(h);
    deletes_follow_the_rollback(h);
}

/// A provisioning that succeeds had every request answered, created an agent for
/// each in the plan and deleted nothing.
pub proof fn success_keeps_everything(h: ProvisionHistory)
    requires
        h.valid(),
        h.last_move() is Print,
    ensures
        h.deletes().len() == 0,
        h.agents_made().len() == h.plan.agents.len(),
        forall|i: int| 0 <= i < h.news.len() ==> #[trigger] h.news[i] is Reply,
{
    state_agrees(h);
    state_agrees(h.before());
    deletes_follow_the_rollback(h);
    forward_means_answered(h);
}

/// A failure is said to be rolled back completely only where every deletion
/// succeeded.
pub proof fn rollback_is_told_truly(h: ProvisionHistory)
    requires
        h.valid(),
        h.last_move() is Fail,
        h.before().state().phase is DeletingChannel,
    ensures
        h.last_move() == ProvisionMove::Fail(
            CliFault::Other(
                "managed channel provisioning failed: "@ + h.state().cause + "; "@ + rollback_text(
                    h.state().rollback_errors,
                ),
            ),
        ),
        h.state().rollback_errors.len() == h.failed_deletes(),
        h.failed_deletes() == 0 ==> rollback_text(h.state().rollback_errors)
            == "rollback completed"@,
{
    state_agrees(h);
}

/// A provisioning never does more than the plan: there are no more agents than it
/// names.
pub proof fn agents_stay_within_the_plan(h: ProvisionHistory)
    requires
        h.valid(),
    ensures
        h.agents_made().len() <= h.plan.agents.len(),
    decreases h.news.len(),
{
    state_agrees(h);
    if h.news.len() > 0 {
        state_agrees(h.before());
        agents_stay_within_the_plan(h.before());
    }
}

/// Every request of a provisioning is approved, and is made to a route of the
/// service.
pub proof fn requests_are_approved(h: ProvisionHistory)
    requires
        h.valid(),
        h.last_move() is Request,
    ensures
        h.last_move() matches ProvisionMove::Request(request) && service_route(request.route)
            && request.body is Some && request.body->0.field("approve"@) == Some(
            JsonTree::Bool(true),
        ),
{
    reveal_strlit("v1/channels");
    reveal_strlit("v1/channels/");
    reveal_strlit("v1/managed-agents");
    reveal_strlit("v1/managed-agents/");
    assert(service_route("v1/channels"@));
    assert(service_route("v1/channels/"@));
    assert(service_route("v1/managed-agents"@));
    assert(service_route("v1/managed-agents/"@));
    lemma_names();
    assert(approved().field("approve"@) == Some(JsonTree::Bool(true)));
    state_agrees(h);
    if h.news.len() > 0 {
        state_agrees(h.before());
    }
}

/// The names of the fields of requests are told apart.
proof fn lemma_names()
    ensures
        "approve"@.len() == 7 && "approve"@[0] == 'a',
        "name"@.len() == 4 && "name"@[0] == 'n',
        "channelType"@.len() == 11 && "channelType"@[0] == 'c',
        "visibility"@.len() == 10,
        "description"@.len() == 11 && "description"@[0] == 'd',
        "content"@.len() == 7 && "content"@[0] == 'c' && "content"@[1] == 'o',
        "agentCommand"@.len() == 12 && "agentCommand"@[0] == 'a',
        "harnessOverride"@.len() == 15,
        "systemPrompt"@.len() == 12 && "systemPrompt"@[0] == 's',
        "spawnAfterCreate"@.len() == 16 && "spawnAfterCreate"@[1] == 'p',
        "startOnAppLaunch"@.len() == 16 && "startOnAppLaunch"@[1] == 't',
        "pubkeys"@.len() == 7 && "pubkeys"@[0] == 'p',
        "role"@.len() == 4 && "role"@[0] == 'r',
        "command"@.len() == 7 && "command"@[0] == 'c' && "command"@[1] == 'o',
        "pubkey"@.len() == 6 && "pubkey"@[0] == 'p',
        "created"@.len() == 7 && "created"@[0] == 'c' && "created"@[1] == 'r',
        "membership"@.len() == 10,
        "started"@.len() == 7 && "started"@[0] == 's',
        "ok"@.len() == 2,
        "executed"@.len() == 8,
        "action"@.len() == 6 && "action"@[0] == 'a' && "action"@[1] == 'c',
        "channel"@.len() == 7 && "channel"@[1] == 'h',
        "canvas"@.len() == 6 && "canvas"@[0] == 'c',
        "context"@.len() == 7 && "context"@[0] == 'c' && "context"@[1] == 'o',
        "agents"@.len() == 6 && "agents"@[0] == 'a' && "agents"@[1] == 'g',
{
    reveal_strlit("approve");
    reveal_strlit("name");
    reveal_strlit("channelType");
    reveal_strlit("visibility");
    reveal_strlit("description");
    reveal_strlit("content");
    reveal_strlit("agentCommand");
    reveal_strlit("harnessOverride");
    reveal_strlit("systemPrompt");
    reveal_strlit("spawnAfterCreate");
    reveal_strlit("startOnAppLaunch");
    reveal_strlit("pubkeys");
    reveal_strlit("role");
    reveal_strlit("command");
    reveal_strlit("pubkey");
    reveal_strlit("created");
    reveal_strlit("membership");
    reveal_strlit("started");
    reveal_strlit("ok");
    reveal_strlit("executed");
    reveal_strlit("action");
    reveal_strlit("channel");
    reveal_strlit("canvas");
    reveal_strlit("context");
    reveal_strlit("agents");
}

/// A request says that it is approved, and has just these fields beside that.
pub open spec fn approved_with(request: RequestView, names: Set<Seq<char>>) -> bool {
    &&& request.body matches Some(JsonTree::Object(fields)) && fields.dom() == names.insert(
        "approve"@,
    )
    &&& request.body->0.field("approve"@) == Some(JsonTree::Bool(true))
}

/// A provisioning begins by asking for the channel of its plan: its name, its type, its
/// visibility, and its description where it has one.
pub proof fn planned_channel_is_created(h: ProvisionHistory)
    requires
        h.news.len() == 0,
    ensures
        h.last_move() matches ProvisionMove::Request(request) && {
            let body = request.body->0;
            &&& request.method is Post
            &&& request.route == "v1/channels"@
            &&& approved_with(
                request,
                set!["name"@, "channelType"@, "visibility"@, "description"@],
            )
            &&& body.field_text("name"@) == Some(h.plan.name)
            &&& body.field_text("channelType"@) == Some(h.plan.channel_type)
            &&& body.field_text("visibility"@) == Some(h.plan.visibility)
            &&& body.field("description"@) == Some(
                match h.plan.description {
                    Some(text) => JsonTree::Str(text),
                    None => JsonTree::Null,
                },
            )
        },
        h.state().plan == h.plan,
        h.state().phase is CreatingChannel,
{
    lemma_names();
    let body = create_channel_request(h.plan).body->0;
    assert(body->Object_0.dom() =~= set![
        "name"@,
        "channelType"@,
        "visibility"@,
        "description"@,
    ].insert("approve"@));
}

/// The channel is the one that the service named when it had created it.
proof fn channel_is_the_named_one(h: ProvisionHistory)
    requires
        h.valid(),
        h.news.len() > 0,
        h.last_move() is Request,
    ensures
        h.news[0] matches ProvisionNews::Reply(value) && value.field("channel"@) == Some(
            h.state().channel,
        ) && h.state().channel.field_text("id"@) == Some(h.state().channel_id),
        !(h.state().phase is SettingCanvas) && !rolling_back(h.state().phase) ==> h.news.len() > 1
            && h.news[1] == ProvisionNews::Reply(h.state().canvas),
    decreases h.news.len(),
{
    state_agrees(h);
    state_agrees(h.before());
    if h.news.len() > 1 {
        assert(h.before().news.len() > 0);
        assert(h.before().last_move() is Request);
        channel_is_the_named_one(h.before());
        assert(h.before().news[0] == h.news[0]);
        if h.news.len() > 2 {
            assert(h.before().news[1] == h.news[1]);
        }
    }
}

/// The request that creates an agent says what the plan says of it: its name, its command,
/// the system prompt that was given, trimmed, with the working context after it, and
/// whether it starts with the app. It is not spawned yet.
pub proof fn planned_agents_are_created(h: ProvisionHistory, index: usize)
    requires
        h.valid(),
        h.state().phase == (ProvisionPhase::CreatingAgent { index }),
    ensures
        index < h.plan.agents.len(),
        h.agents_made().len() == index,
        h.last_move() matches ProvisionMove::Request(request) && {
            let body = request.body->0;
            let instruction = "Primary working context: "@ + h.plan.context
                + ". Treat that directory as the project root and follow its repository instructions."@;
            &&& request.method is Post
            &&& request.route == "v1/managed-agents"@
            &&& approved_with(
                request,
                set![
                    "name"@,
                    "agentCommand"@,
                    "harnessOverride"@,
                    "systemPrompt"@,
                    "spawnAfterCreate"@,
                    "startOnAppLaunch"@,
                ],
            )
            &&& body.field_text("name"@) == Some(h.plan.agents[index as int].name)
            &&& body.field_text("agentCommand"@) == Some(h.plan.agents[index as int].command)
            &&& body.field("harnessOverride"@) == Some(JsonTree::Bool(true))
            &&& body.field_text("systemPrompt"@) == Some(
                match h.plan.system_prompt {
                    Some(given) => if trimmed(given).len() > 0 {
                        trimmed(given) + "\n\n"@ + instruction
                    } else {
                        instruction
                    },
                    None => instruction,
                },
            )
            &&& body.field("spawnAfterCreate"@) == Some(JsonTree::Bool(false))
            &&& body.field("startOnAppLaunch"@) == Some(
                JsonTree::Bool(h.plan.start_on_app_launch),
            )
        },
{
    lemma_names();
    state_agrees(h);
    state_agrees(h.before());
    let body = h.last_move()->Request_0.body->0;
    assert(body->Object_0.dom() =~= set![
        "name"@,
        "agentCommand"@,
        "harnessOverride"@,
        "systemPrompt"@,
        "spawnAfterCreate"@,
        "startOnAppLaunch"@,
    ].insert("approve"@));
}

/// The channel that the service named when it had created it.
pub open spec fn named_channel(h: ProvisionHistory) -> JsonTree {
    h.news[0]->Reply_0.field("channel"@)->0
}

/// Every later request is about the channel that the service named, or about an agent
/// that it said it had created: the canvas of the channel is set, the agent just created
/// becomes a member of it, as a bot, and is then started; in a rollback the agents are
/// deleted, and the channel.
pub proof fn requests_are_about_what_was_made(h: ProvisionHistory)
    requires
        h.valid(),
        h.news.len() > 0,
        h.last_move() is Request,
    ensures
        h.news[0] is Reply,
        named_channel(h).field_text("id"@) == Some(h.state().channel_id),
        h.last_move() matches ProvisionMove::Request(request) && {
            let body = request.body->0;
            let channel = "v1/channels/"@ + named_channel(h).field_text("id"@)->0;
            let agent = "v1/managed-agents/"@ + h.agents_made().last();
            let none = Set::<Seq<char>>::empty();
            match h.state().phase {
                ProvisionPhase::SettingCanvas => {
                    &&& request.method is Post
                    &&& request.route == channel + "/canvas"@
                    &&& approved_with(request, set!["content"@])
                    &&& body.field_text("content"@) == Some(
                        canvas_of(h.plan.name, h.plan.context, h.plan.agents),
                    )
                },
                ProvisionPhase::AddingMember { index } => {
                    &&& h.agents_made().len() == index + 1
                    &&& request.method is Post
                    &&& request.route == channel + "/members"@
                    &&& approved_with(request, set!["pubkeys"@, "role"@])
                    &&& body.field("pubkeys"@) == Some(
                        JsonTree::Array(seq![JsonTree::Str(h.agents_made().last())]),
                    )
                    &&& body.field_text("role"@) == Some("bot"@)
                },
                ProvisionPhase::StartingAgent { index } => {
                    &&& h.agents_made().len() == index + 1
                    &&& h.plan.start
                    &&& request.method is Post
                    &&& request.route == agent + "/start"@
                    &&& approved_with(request, none)
                },
                ProvisionPhase::DeletingAgent { index } => {
                    &&& index < h.agents_made().len()
                    &&& request.method is Delete
                    &&& request.route == "v1/managed-agents/"@ + h.agents_made()[index as int]
                    &&& approved_with(request, none)
                },
                ProvisionPhase::DeletingChannel => {
                    &&& request.method is Delete
                    &&& request.route == channel
                    &&& approved_with(request, none)
                },
                ProvisionPhase::CreatingAgent { .. } => true,
                _ => false,
            }
        },
{
    lemma_names();
    state_agrees(h);
    state_agrees(h.before());
    channel_is_the_named_one(h);
    let request = h.last_move()->Request_0;
    let fields = request.body->0->Object_0.dom();
    let none = Set::<Seq<char>>::empty();
    assert(h.state().phase is SettingCanvas ==> fields =~= set!["content"@].insert("approve"@));
    assert(h.state().phase is AddingMember ==> fields =~= set!["pubkeys"@, "role"@].insert(
        "approve"@,
    ));
    assert(h.state().phase is StartingAgent || rolling_back(h.state().phase) ==> fields
        =~= none.insert("approve"@));
}

/// The agent that a provisioning turns to: the one of that place in the plan is created,
/// and where the plan has none left, the channel is provisioned.
pub open spec fn turns_to(h: ProvisionHistory, index: int) -> bool {
    if index < h.plan.agents.len() {
        h.state().phase == (ProvisionPhase::CreatingAgent { index: index as usize })
    } else {
        h.last_move() is Print
    }
}

/// The provisioning gives up, for this reason, and begins to undo what it did.
pub open spec fn gives_up(h: ProvisionHistory, cause: Seq<char>) -> bool {
    &&& h.state().cause == cause
    &&& rolling_back(h.state().phase)
    &&& h.state().rollback_errors == h.before().state().rollback_errors
    &&& h.state().phase is DeletingChannel <==> h.agents_made().len() == 0
    &&& h.state().phase matches ProvisionPhase::DeletingAgent { index } ==> index
        == h.agents_made().len() - 1
}

/// A provisioning goes through its plan: the channel, its canvas, and for each agent in
/// order its creation, its membership and, where the plan says so, its start. A channel
/// that was not created, or that the service does not name, ends it at once. Whatever
/// goes wrong after that has it give up, in the words of what went wrong.
pub proof fn plan_is_followed(h: ProvisionHistory)
    requires
        h.valid(),
        h.news.len() > 0,
        !rolling_back(h.before().state().phase),
    ensures
        match (h.before().state().phase, h.news.last()) {
            (ProvisionPhase::CreatingChannel, ProvisionNews::Reply(value)) => match value.field(
                "channel"@,
            ) {
                Some(channel) => match channel.field_text("id"@) {
                    Some(id) => h.state().phase is SettingCanvas,
                    None => h.last_move() == ProvisionMove::Fail(
                        CliFault::Other("desktop channel response omitted channel id"@),
                    ),
                },
                None => h.last_move() == ProvisionMove::Fail(
                    CliFault::Other("desktop channel response omitted channel"@),
                ),
            },
            (ProvisionPhase::CreatingChannel, ProvisionNews::Failed { fault, .. }) => h.last_move()
                == ProvisionMove::Fail(fault),
            (_, ProvisionNews::Failed { shown, .. }) => gives_up(h, shown),
            (ProvisionPhase::SettingCanvas, ProvisionNews::Reply(_)) => turns_to(h, 0),
            (ProvisionPhase::CreatingAgent { index }, ProvisionNews::Reply(value)) =>
                match value.inner_field("agent"@, "pubkey"@) {
                    Some(JsonTree::Str(pubkey)) => {
                        &&& h.state().phase == (ProvisionPhase::AddingMember { index })
                        &&& h.agents_made() == h.before().agents_made().push(pubkey)
                    },
                    _ => {
                        &&& h.agents_made() == h.before().agents_made()
                        &&& gives_up(h, "desktop managed-agent response omitted agent pubkey"@)
                    },
                },
            (ProvisionPhase::AddingMember { index }, ProvisionNews::Reply(value)) => {
                if value.field("ok"@) != Some(JsonTree::Bool(true)) {
                    gives_up(h, "channel membership failed: "@ + json_text(value))
                } else if h.plan.start {
                    h.state().phase == (ProvisionPhase::StartingAgent { index })
                } else {
                    turns_to(h, index + 1)
                }
            },
            (ProvisionPhase::StartingAgent { index }, ProvisionNews::Reply(_)) => turns_to(
                h,
                index + 1,
            ),
            _ => false,
        },
        !(h.before().state().phase is CreatingAgent) ==> h.agents_made()
            == h.before().agents_made(),
{
    state_agrees(h);
    state_agrees(h.before());
    if h.news.len() == 1 {
        assert(h.before().news =~= Seq::empty());
    }
}

/// What a rollback does next, and what it keeps: the agent created before the one just
/// deleted goes next, then the channel, whatever came of the deletion. A deletion that
/// failed is noted by what was to be deleted and how it failed. In the end the cause is
/// told, and either that the rollback is complete or all that went wrong in it.
pub proof fn rollback_goes_on(h: ProvisionHistory)
    requires
        h.valid(),
        h.news.len() > 0,
        rolling_back(h.before().state().phase),
    ensures
        h.state().cause == h.before().state().cause,
        h.agents_made() == h.before().agents_made(),
        ({
            let what = match h.before().state().phase {
                ProvisionPhase::DeletingAgent { index } => "delete agent "@
                    + h.agents_made()[index as int],
                _ => "delete channel "@ + h.before().state().channel_id,
            };
            h.state().rollback_errors == match h.news.last() {
                ProvisionNews::Reply(_) => h.before().state().rollback_errors,
                ProvisionNews::Failed { shown, .. } => h.before().state().rollback_errors.push(
                    what + ": "@ + shown,
                ),
            }
        }),
        match h.before().state().phase {
            ProvisionPhase::DeletingAgent { index } => if index > 0 {
                h.state().phase == (ProvisionPhase::DeletingAgent { index: (index - 1) as usize })
            } else {
                h.state().phase is DeletingChannel
            },
            _ => h.last_move() == ProvisionMove::Fail(
                CliFault::Other(
                    "managed channel provisioning failed: "@ + h.state().cause + "; "@
                        + if h.failed_deletes() == 0 {
                        "rollback completed"@
                    } else {
                        "rollback incomplete: "@ + joined(h.state().rollback_errors, "; "@)
                    },
                ),
            ),
        },
{
    state_agrees(h);
    state_agrees(h.before());
}

/// What the service answered that the provisioning reports, agent by agent: to the
/// creations, to the additions of members and to the starts.
pub struct Replies {
    pub created: Seq<JsonTree>,
    pub joined: Seq<JsonTree>,
    pub started: Seq<JsonTree>,
}

/// The replies after one more.
pub open spec fn replies_after(
    replies: Replies,
    phase: ProvisionPhase,
    news: ProvisionNews,
) -> Replies {
    match (phase, news) {
        (ProvisionPhase::CreatingAgent { .. }, ProvisionNews::Reply(value)) => Replies {
            created: replies.created.push(value),
            ..replies
        },
        (ProvisionPhase::AddingMember { .. }, ProvisionNews::Reply(value)) => Replies {
            joined: replies.joined.push(value),
            ..replies
        },
        (ProvisionPhase::StartingAgent { .. }, ProvisionNews::Reply(value)) => Replies {
            started: replies.started.push(value),
            ..replies
        },
        _ => replies,
    }
}

/// What the service has answered so far that the provisioning reports.
pub open spec fn replies_to(h: ProvisionHistory) -> Replies
    decreases h.news.len(),
{
    if h.news.len() == 0 {
        Replies { created: Seq::empty(), joined: Seq::empty(), started: Seq::empty() }
    } else {
        replies_after(replies_to(h.before()), h.before().state().phase, h.news.last())
    }
}

/// What is told of an agent: its name and its command as planned, the public key that the
/// service gave it, and what the service answered when it was created, when it became a
/// member, and when it was started, or null where the plan does not start it.
pub open spec fn tells_of_agent(
    entry: JsonTree,
    plan: PlanView,
    pubkeys: Seq<Seq<char>>,
    replies: Replies,
    i: int,
) -> bool {
    &&& entry is Object
    &&& entry->Object_0.dom() == set![
        "name"@,
        "command"@,
        "pubkey"@,
        "created"@,
        "membership"@,
        "started"@,
    ]
    &&& entry.field_text("name"@) == Some(plan.agents[i].name)
    &&& entry.field_text("command"@) == Some(plan.agents[i].command)
    &&& entry.field_text("pubkey"@) == Some(pubkeys[i])
    &&& entry.field("created"@) == Some(replies.created[i])
    &&& entry.field("membership"@) == Some(replies.joined[i])
    &&& entry.field("started"@) == Some(
        if plan.start {
            replies.started[i]
        } else {
            JsonTree::Null
        },
    )
}

/// An entry for an agent that is done with.
proof fn entry_tells_of_agent(
    plan: PlanView,
    pubkeys: Seq<Seq<char>>,
    replies: Replies,
    started: Option<JsonTree>,
    i: int,
)
    requires
        0 <= i,
        plan.start ==> started == Some(replies.started[i]),
        !plan.start ==> started is None,
    ensures
        tells_of_agent(
            agent_entry(
                plan.agents[i],
                pubkeys[i],
                replies.created[i],
                replies.joined[i],
                started,
            ),
            plan,
            pubkeys,
            replies,
            i,
        ),
{
    lemma_names();
    let entry = agent_entry(
        plan.agents[i],
        pubkeys[i],
        replies.created[i],
        replies.joined[i],
        started,
    );
    assert(entry->Object_0.dom() =~= set![
        "name"@,
        "command"@,
        "pubkey"@,
        "created"@,
        "membership"@,
        "started"@,
    ]);
}

/// How many replies of each kind go with how far a provisioning has got, and what has been
/// noted of the agents that are done with.
pub open spec fn replies_fit(h: ProvisionHistory) -> bool {
    let state = h.state();
    let replies = replies_to(h);
    let starts = |n: int| if h.plan.start { n } else { 0 };
    &&& match state.phase {
        ProvisionPhase::CreatingChannel | ProvisionPhase::SettingCanvas => replies.created.len()
            == 0 && replies.joined.len() == 0 && replies.started.len() == 0,
        ProvisionPhase::CreatingAgent { index } => replies.created.len() == index
            && replies.joined.len() == index && replies.started.len() == starts(index as int),
        ProvisionPhase::AddingMember { index } => replies.created.len() == index + 1
            && replies.joined.len() == index && replies.started.len() == starts(index as int)
            && state.response == replies.created.last(),
        ProvisionPhase::StartingAgent { index } => h.plan.start && replies.created.len() == index
            + 1 && replies.joined.len() == index + 1 && replies.started.len() == index
            && state.response == replies.created.last() && state.membership
            == replies.joined.last(),
        _ => true,
    }
    &&& !rolling_back(state.phase) && !(state.phase is Done) ==> forall|i: int|
        0 <= i < state.provisioned.len() ==> tells_of_agent(
            #[trigger] state.provisioned[i],
            h.plan,
            h.agents_made(),
            replies,
            i,
        )
}

/// What is told of an agent does not change with later replies.
proof fn told_stays(
    entry: JsonTree,
    plan: PlanView,
    pubkeys: Seq<Seq<char>>,
    replies: Replies,
    more_pubkeys: Seq<Seq<char>>,
    more: Replies,
    i: int,
)
    requires
        tells_of_agent(entry, plan, pubkeys, replies, i),
        0 <= i,
        more_pubkeys[i] == pubkeys[i],
        more.created[i] == replies.created[i],
        more.joined[i] == replies.joined[i],
        plan.start ==> more.started[i] == replies.started[i],
    ensures
        tells_of_agent(entry, plan, more_pubkeys, more, i),
{
}

proof fn replies_fit_always(h: ProvisionHistory)
    requires
        h.valid(),
    ensures
        replies_fit(h),
    decreases h.news.len(),
{
    state_agrees(h);
    if h.news.len() > 0 {
        let was = h.before();
        state_agrees(was);
        replies_fit_always(was);
        plan_step_fits(h);
    }
}

proof fn plan_step_fits(h: ProvisionHistory)
    requires
        h.valid(),
        h.news.len() > 0,
        replies_fit(h.before()),
    ensures
        replies_fit(h),
        h.last_move() is Print ==> exists|told: Seq<JsonTree>|
            #![trigger told.len()]
            {
                &&& told.len() == h.plan.agents.len()
                &&& forall|i: int|
                    0 <= i < told.len() ==> tells_of_agent(
                        #[trigger] told[i],
                        h.plan,
                        h.agents_made(),
                        replies_to(h),
                        i,
                    )
                &&& h.last_move() == ProvisionMove::Print(
                    json_text(
                        summary_tree(
                            h.plan,
                            h.before().state().channel,
                            if h.news.len() == 2 {
                                h.news[1]->Reply_0
                            } else {
                                h.before().state().canvas
                            },
                            told,
                        ),
                    ),
                )
            },
{
    let was = h.before();
    let state = was.state();
    let news = h.news.last();
    state_agrees(h);
    state_agrees(was);
    let pubkeys = h.agents_made();
    let replies = replies_to(h);
    assert(replies == replies_after(replies_to(was), state.phase, news));
    if !rolling_back(state.phase) {
        assert forall|i: int| 0 <= i < state.provisioned.len() implies tells_of_agent(
            #[trigger] state.provisioned[i],
            h.plan,
            pubkeys,
            replies,
            i,
        ) by {
            told_stays(
                state.provisioned[i],
                h.plan,
                was.agents_made(),
                replies_to(was),
                pubkeys,
                replies,
                i,
            );
        }
        match (state.phase, news) {
            (ProvisionPhase::SettingCanvas, ProvisionNews::Reply(value)) => {
                if h.last_move() is Print {
                    let told = state.provisioned;
                    assert(told.len() == h.plan.agents.len());
                }
            },
            (ProvisionPhase::AddingMember { index }, ProvisionNews::Reply(value)) => {
                if !h.plan.start && value.field("ok"@) == Some(JsonTree::Bool(true)) {
                    entry_tells_of_agent(h.plan, pubkeys, replies, None, index as int);
                    let told = state.provisioned.push(
                        agent_entry(
                            h.plan.agents[index as int],
                            pubkeys[index as int],
                            replies.created[index as int],
                            replies.joined[index as int],
                            None,
                        ),
                    );
                    assert forall|i: int| 0 <= i < told.len() implies tells_of_agent(
                        #[trigger] told[i],
                        h.plan,
                        pubkeys,
                        replies,
                        i,
                    ) by {
                        if i < state.provisioned.len() {
                            assert(told[i] == state.provisioned[i]);
                        }
                    }
                    assert(!(h.state().phase is Done) ==> h.state().provisioned == told);
                    assert(told.len() == index + 1);
                }
            },
            (ProvisionPhase::StartingAgent { index }, ProvisionNews::Reply(value)) => {
                entry_tells_of_agent(h.plan, pubkeys, replies, Some(value), index as int);
                let told = state.provisioned.push(
                    agent_entry(
                        h.plan.agents[index as int],
                        pubkeys[index as int],
                        replies.created[index as int],
                        replies.joined[index as int],
                        Some(value),
                    ),
                );
                assert forall|i: int| 0 <= i < told.len() implies tells_of_agent(
                    #[trigger] told[i],
                    h.plan,
                    pubkeys,
                    replies,
                    i,
                ) by {
                    if i < state.provisioned.len() {
                        assert(told[i] == state.provisioned[i]);
                    }
                }
                assert(!(h.state().phase is Done) ==> h.state().provisioned == told);
                assert(told.len() == index + 1);
            },
            _ => {},
        }
    }
}

/// What is printed of a provisioned channel tells the truth: that it was executed, the
/// channel that the service named, what it answered to the canvas, the working context,
/// and one entry for each agent of the plan, in order.
pub proof fn success_is_told_truly(h: ProvisionHistory) -> (summary: JsonTree)
    requires
        h.valid(),
        h.last_move() is Print,
    ensures
        h.last_move() == ProvisionMove::Print(json_text(summary)),
        summary is Object,
        summary->Object_0.dom() == set![
            "ok"@,
            "executed"@,
            "action"@,
            "channel"@,
            "canvas"@,
            "context"@,
            "agents"@,
        ],
        summary.field("ok"@) == Some(JsonTree::Bool(true)),
        summary.field("executed"@) == Some(JsonTree::Bool(true)),
        summary.field_text("action"@) == Some("provision_managed_channel"@),
        summary.field("channel"@) == Some(named_channel(h)),
        h.news[1] matches ProvisionNews::Reply(canvas) && summary.field("canvas"@) == Some(canvas),
        summary.field_text("context"@) == Some(h.plan.context),
        summary.field("agents"@) matches Some(JsonTree::Array(told)) && told.len()
            == h.plan.agents.len() && forall|i: int|
            0 <= i < told.len() ==> tells_of_agent(
                #[trigger] told[i],
                h.plan,
                h.agents_made(),
                replies_to(h),
                i,
            ),
{
    state_agrees(h);
    state_agrees(h.before());
    replies_fit_always(h.before());
    plan_step_fits(h);
    channel_is_the_named_one(h.before());
    assert(h.before().news[0] == h.news[0]);
    let canvas = if h.news.len() == 2 {
        h.news[1]->Reply_0
    } else {
        h.before().state().canvas
    };
    if h.news.len() > 2 {
        assert(h.before().news[1] == h.news[1]);
    }
    let told = choose|told: Seq<JsonTree>|
        #![trigger told.len()]
        {
            &&& told.len() == h.plan.agents.len()
            &&& forall|i: int|
                0 <= i < told.len() ==> tells_of_agent(
                    #[trigger] told[i],
                    h.plan,
                    h.agents_made(),
                    replies_to(h),
                    i,
                )
            &&& h.last_move() == ProvisionMove::Print(
                json_text(summary_tree(h.plan, h.before().state().channel, canvas, told)),
            )
        };
    lemma_names();
    let summary = summary_tree(h.plan, h.before().state().channel, canvas, told);
    assert(summary->Object_0.dom() =~= set![
        "ok"@,
        "executed"@,
        "action"@,
        "channel"@,
        "canvas"@,
        "context"@,
        "agents"@,
    ]);
    summary
}

} // verus!
