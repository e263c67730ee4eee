//! The commands of the client: what each asks of the control service, and what it
//! shows instead while it is not approved.
use vstd::prelude::*;

use crate::control_client::service_route;
use crate::control_client::CliError;
use crate::control_client::CliFault;
use crate::control_client::ControlRequest;
use crate::control_client::Method;
use crate::control_client::RequestView;
use crate::json::encode;
use crate::json::json_text;
use crate::json::Json;
use crate::json::JsonTree;
use crate::provision::approved;
use crate::provision::delete_agent_request;
use crate::provision::post;
use crate::provision::ChannelPlan;
use crate::provision::PlanView;
use crate::text::borrowed;
use crate::text::cat2;
use crate::text::cat3;
use crate::text::cat4;
use crate::text::cat5;
use crate::text::debug_text;
use crate::text::join;
use crate::text::joined;
use crate::text::opt_str;
use crate::text::opt_text;
use crate::text::same_text;
use crate::text::split_once;
use crate::text::split_pair;
use crate::text::str_debug;
use crate::text::texts;
use crate::text::trim;
use crate::text::trimmed;

verus! {

/// An agent to create: its name, and the command that runs it.
#[derive(Debug, Clone, PartialEq, Eq)]
pub struct AgentSpec {
    pub name: String,
    pub command: String,
}

/// What an [`AgentSpec`] says.
pub struct AgentView {
    pub name: Seq<char>,
    pub command: Seq<char>,
}

impl View for AgentSpec {
    type V = AgentView;

    open spec fn view(&self) -> AgentView {
        AgentView { name: self.name@, command: self.command@ }
    }
}

/// The agents of a vector of specifications.
pub open spec fn agent_views(agents: Seq<AgentSpec>) -> Seq<AgentView> {
    agents.map_values(|agent: AgentSpec| agent@)
}

/// The agent that `NAME=COMMAND` specifies.
pub open spec fn spec_of(value: Seq<char>) -> Result<AgentView, CliFault> {
    match split_pair(value, '=') {
        None => Err(
            CliFault::Usage("invalid --agent "@ + str_debug(value) + "; expected NAME=COMMAND"@),
        ),
        Some((name, command)) => if trimmed(name).len() == 0 || trimmed(command).len() == 0 {
            Err(
                CliFault::Usage(
                    "invalid --agent "@ + str_debug(value) + "; name and command are required"@,
                ),
            )
        } else {
            Ok(AgentView { name: trimmed(name), command: trimmed(command) })
        },
    }
}

/// The agents that a list specifies, or what is wrong with the first bad one.
pub open spec fn specs_of(values: Seq<Seq<char>>) -> Result<Seq<AgentView>, CliFault>
    decreases values.len(),
{
    if values.len() == 0 {
        Ok(Seq::empty())
    } else {
        match specs_of(values.drop_last()) {
            Err(fault) => Err(fault),
            Ok(agents) => match spec_of(values.last()) {
                Err(fault) => Err(fault),
                Ok(agent) => Ok(agents.push(agent)),
            },
        }
    }
}

fn parse_agent_spec(value: &str) -> (r: Result<AgentSpec, CliError>)
    ensures
        match r {
            Ok(agent) => spec_of(value@) == Ok::<AgentView, CliFault>(agent@),
            Err(error) => spec_of(value@) == Err::<AgentView, CliFault>(error@),
        },
{
    match split_once(value, '=') {
        None => {
            let shown = debug_text(value);
            Err(
                CliError::Usage(
                    cat3("invalid --agent ", shown.as_str(), "; expected NAME=COMMAND"),
                ),
            )
        },
        Some((name, command)) => {
            let name = trim(name.as_str());
            let command = trim(command.as_str());
            if name.as_str().is_empty() || command.as_str().is_empty() {
                let shown = debug_text(value);
                return Err(
                    CliError::Usage(
                        cat3(
                            "invalid --agent ",
                            shown.as_str(),
                            "; name and command are required",
                        ),
                    ),
                );
            }
            Ok(AgentSpec { name, command })
        },
    }
}

/// An error among the first of a list is the error of the whole list.
proof fn first_error_stays(values: Seq<Seq<char>>, n: int)
    requires
        0 <= n <= values.len(),
        specs_of(values.take(n)) is Err,
    ensures
        specs_of(values) == specs_of(values.take(n)),
    decreases values.len(),
{
    if n == values.len() {
        assert(values.take(n) =~= values);
    } else {
        assert(values.drop_last().take(n) =~= values.take(n));
        first_error_stays(values.drop_last(), n);
    }
}

/// Reads agents from a list of `NAME=COMMAND`.
pub fn parse_agent_specs(values: &Vec<String>) -> (r: Result<Vec<AgentSpec>, CliError>)
    ensures
        match r {
            Ok(agents) => specs_of(texts(values@)) == Ok::<Seq<AgentView>, CliFault>(
                agent_views(agents@),
            ),
            Err(error) => specs_of(texts(values@)) == Err::<Seq<AgentView>, CliFault>(error@),
        },
{
    let mut agents: Vec<AgentSpec> = Vec::new();
    let ghost all = texts(values@);
    let mut i: usize = 0;
    assert(agent_views(agents@) =~= Seq::empty());
    while i < values.len()
        invariant
            i <= values@.len(),
            all == texts(values@),
            specs_of(all.take(i as int)) == Ok::<Seq<AgentView>, CliFault>(agent_views(agents@)),
        decreases values@.len() - i,
    {
        let ghost before = agents@;
        let ghost upto = all.take(i + 1);
        assert(upto.drop_last() =~= all.take(i as int));
        assert(upto.last() == values@[i as int]@);
        match parse_agent_spec(values[i].as_str()) {
            Ok(agent) => {
                agents.push(agent);
                assert(agent_views(agents@) =~= agent_views(before).push(agent@));
            },
            Err(error) => {
                proof {
                    first_error_stays(all, i + 1);
                }
                return Err(error);
            },
        }
        i = i + 1;
    }
    assert(all.take(all.len() as int) =~= all);
    Ok(agents)
}

/// Where a working context is looked for.
#[derive(Debug, PartialEq, Eq, Clone, Copy, Structural)]
pub enum ContextRoot {
    /// In the home directory itself.
    Home,
    /// Below the home directory, by what follows the first component.
    BelowHome,
    /// Where the path says itself.
    AsGiven,
}

/// Where a path is looked for, by its first component and whether others follow it:
/// `~` stands for the home directory, which must then be known.
pub open spec fn root_of(first: Option<Seq<char>>, more: bool, home_known: bool) -> Result<
    ContextRoot,
    CliFault,
> {
    if first == Some("~"@) {
        if !home_known {
            Err(CliFault::Other("could not resolve home directory"@))
        } else if more {
            Ok(ContextRoot::BelowHome)
        } else {
            Ok(ContextRoot::Home)
        }
    } else {
        Ok(ContextRoot::AsGiven)
    }
}

/// Where a path is looked for, by its first component and whether others follow it.
pub fn context_root(first: Option<&str>, more: bool, home_known: bool) -> (r: Result<
    ContextRoot,
    CliError,
>)
    ensures
        match r {
            Ok(root) => root_of(opt_str(first), more, home_known) == Ok::<ContextRoot, CliFault>(
                root,
            ),
            Err(error) => root_of(opt_str(first), more, home_known) == Err::<
                ContextRoot,
                CliFault,
            >(error@),
        },
{
    let tilde = match first {
        Some(first) => same_text(first, "~"),
        None => false,
    };
    if !tilde {
        return Ok(ContextRoot::AsGiven);
    }
    if !home_known {
        return Err(CliError::Other("could not resolve home directory".to_owned()));
    }
    if more {
        Ok(ContextRoot::BelowHome)
    } else {
        Ok(ContextRoot::Home)
    }
}

/// What was found at a path: its real path, how that is shown, and whether it is a
/// directory.
#[derive(Debug, PartialEq)]
pub struct Found<P> {
    pub path: P,
    pub shown: String,
    pub is_dir: bool,
}

/// The directory of a context, given where it was looked for and what was found
/// there, if it was not an error: its real path, how that is shown, and whether it is
/// a directory.
pub open spec fn directory_of<P>(
    expanded: Seq<char>,
    found: Result<(P, Seq<char>, bool), Seq<char>>,
) -> Result<P, CliFault> {
    match found {
        Err(error) => Err(
            CliFault::Usage("invalid context directory "@ + expanded + ": "@ + error),
        ),
        Ok((path, shown, is_dir)) => if is_dir {
            Ok(path)
        } else {
            Err(CliFault::Usage("context must be a directory: "@ + shown))
        },
    }
}

/// The view of what was found.
pub open spec fn found_view<P>(found: Result<Found<P>, String>) -> Result<
    (P, Seq<char>, bool),
    Seq<char>,
> {
    match found {
        Ok(found) => Ok((found.path, found.shown@, found.is_dir)),
        Err(error) => Err(error@),
    }
}

/// The directory of a context, given where it was looked for and what was found
/// there, if it was not an error.
pub fn context_directory<P>(expanded: &str, found: Result<Found<P>, String>) -> (r: Result<
    P,
    CliError,
>)
    ensures
        match r {
            Ok(path) => directory_of(expanded@, found_view(found)) == Ok::<P, CliFault>(path),
            Err(error) => directory_of(expanded@, found_view(found)) == Err::<P, CliFault>(
                error@,
            ),
        },
{
    match found {
        Err(error) => Err(
            CliError::Usage(
                cat4("invalid context directory ", expanded, ": ", error.as_str()),
            ),
        ),
        Ok(found) => {
            if found.is_dir {
                Ok(found.path)
            } else {
                Err(
                    CliError::Usage(
                        cat2("context must be a directory: ", found.shown.as_str()),
                    ),
                )
            }
        },
    }
}

/// The line of an agent on the canvas.
pub open spec fn roster_line(agent: AgentView) -> Seq<char> {
    "- **"@ + agent.name + "** — `"@ + agent.command + "`"@
}

/// The canvas of a channel: its name, its working context and its agents.
pub open spec fn canvas_of(
    channel_name: Seq<char>,
    context: Seq<char>,
    agents: Seq<AgentView>,
) -> Seq<char> {
    "# "@ + channel_name + "\n\n## Working context\n\n`"@ + context
        + "`\n\n## Managed agents\n\n"@ + joined(
        agents.map_values(|agent: AgentView| roster_line(agent)),
        "\n"@,
    ) + "\n"@
}

/// The canvas of a channel.
pub fn canvas_content(channel_name: &str, context: &str, agents: &Vec<AgentSpec>) -> (r: String)
    ensures
        r@ == canvas_of(channel_name@, context@, agent_views(agents@)),
{
    let mut lines: Vec<String> = Vec::new();
    let mut i: usize = 0;
    while i < agents.len()
        invariant
            i <= agents@.len(),
            lines@.len() == i,
            forall|j: int| 0 <= j < i ==> (#[trigger] lines@[j])@ == roster_line(agents@[j]@),
        decreases agents@.len() - i,
    {
        let agent = &agents[i];
        lines.push(cat5("- **", agent.name.as_str(), "** — `", agent.command.as_str(), "`"));
        i = i + 1;
    }
    assert(texts(lines@) =~= agent_views(agents@).map_values(
        |agent: AgentView| roster_line(agent),
    ));
    let roster = join(&lines, "\n");
    let head = cat4("# ", channel_name, "\n\n## Working context\n\n`", context);
    cat4(head.as_str(), "`\n\n## Managed agents\n\n", roster.as_str(), "\n")
}

/// What tells an agent where to work.
pub open spec fn context_instruction(context: Seq<char>) -> Seq<char> {
    "Primary working context: "@ + context
        + ". Treat that directory as the project root and follow its repository instructions."@
}

/// The system prompt of an agent: what was given, if that says anything, and where
/// to work.
pub open spec fn system_prompt_of(base: Option<Seq<char>>, context: Seq<char>) -> Seq<char> {
    if base is Some && trimmed(base->0).len() > 0 {
        trimmed(base->0) + "\n\n"@ + context_instruction(context)
    } else {
        context_instruction(context)
    }
}

/// The system prompt of an agent.
pub fn agent_system_prompt(base: Option<&str>, context: &str) -> (r: String)
    ensures
        r@ == system_prompt_of(opt_str(base), context@),
{
    let instruction = cat3(
        "Primary working context: ",
        context,
        ". Treat that directory as the project root and follow its repository instructions.",
    );
    match base {
        Some(base) => {
            let base = trim(base);
            if base.as_str().is_empty() {
                instruction
            } else {
                cat3(base.as_str(), "\n\n", instruction.as_str())
            }
        },
        None => instruction,
    }
}

/// What is shown of a command that was not approved.
pub open spec fn plan_tree(action: Seq<char>, target: JsonTree) -> JsonTree {
    JsonTree::object().with("ok"@, JsonTree::Bool(true)).with(
        "executed"@,
        JsonTree::Bool(false),
    ).with("approval_required"@, JsonTree::Bool(true)).with("action"@, JsonTree::Str(action)).with(
        "target"@,
        target,
    ).with(
        "message"@,
        JsonTree::Str("Review this plan, then rerun the same command with --approve."@),
    )
}

/// What is shown of a command that was not approved.
pub fn approval_plan(action: &str, target: Json) -> (r: Json)
    ensures
        r@ == plan_tree(action@, target@),
{
    Json::object().with("ok", Json::Bool(true)).with("executed", Json::Bool(false)).with(
        "approval_required",
        Json::Bool(true),
    ).with("action", Json::text(action)).with("target", target).with(
        "message",
        Json::text("Review this plan, then rerun the same command with --approve."),
    )
}

/// The line that a value is printed as.
pub fn printed(value: &Json) -> (r: String)
    ensures
        r@ == json_text(value@),
{
    encode(value)
}

/// A command of the client.
#[derive(Debug, PartialEq)]
pub enum ManagedAgentsCmd {
    Status,
    List,
    Create {
        name: String,
        agent_command: String,
        system_prompt: Option<String>,
        model: Option<String>,
        provider: Option<String>,
        start: bool,
        start_on_app_launch: bool,
        approve: bool,
    },
    /// `context` is the directory that the path given for it leads to.
    ProvisionChannel {
        name: String,
        context: String,
        agents: Vec<String>,
        description: Option<String>,
        visibility: String,
        channel_type: String,
        system_prompt: Option<String>,
        start: bool,
        start_on_app_launch: bool,
        approve: bool,
    },
    Start { pubkey: String, approve: bool },
    Stop { pubkey: String, approve: bool },
    Restart { pubkey: String, approve: bool },
    Delete { pubkey: String, approve: bool },
}

/// What a command comes to.
#[derive(Debug, PartialEq)]
pub enum Decision {
    /// Show this value, and do nothing.
    Show(Json),
    /// Make this request, and print the value of its response.
    Send(ControlRequest),
    /// Provision this channel.
    Provision(ChannelPlan),
}

/// What a [`Decision`] says.
pub enum DecisionView {
    Show(JsonTree),
    Send(RequestView),
    Provision(PlanView),
}

impl View for Decision {
    type V = DecisionView;

    open spec fn view(&self) -> DecisionView {
        match self {
            Decision::Show(value) => DecisionView::Show(value@),
            Decision::Send(request) => DecisionView::Send(request@),
            Decision::Provision(plan) => DecisionView::Provision(plan@),
        }
    }
}

/// The view of what a command comes to.
pub open spec fn decision_view(r: Result<Decision, CliError>) -> Result<DecisionView, CliFault> {
    match r {
        Ok(decision) => Ok(decision@),
        Err(error) => Err(error@),
    }
}

/// What shows which agent a command is about.
pub open spec fn pubkey_tree(pubkey: Seq<char>) -> JsonTree {
    JsonTree::object().with("pubkey"@, JsonTree::Str(pubkey))
}

/// A command on one agent: shown while it is not approved, else requested.
pub open spec fn on_agent(
    action: Seq<char>,
    pubkey: Seq<char>,
    approve: bool,
    request: RequestView,
) -> DecisionView {
    if approve {
        DecisionView::Send(request)
    } else {
        DecisionView::Show(plan_tree(action, pubkey_tree(pubkey)))
    }
}

/// A request to start, stop or restart an agent.
pub open spec fn lifecycle_view(action: Seq<char>, pubkey: Seq<char>) -> RequestView {
    post("v1/managed-agents/"@ + pubkey + "/"@ + action, approved())
}

/// What an agent to create is.
pub open spec fn create_tree(
    approve: bool,
    agent: AgentView,
    system_prompt: Option<Seq<char>>,
    model: Option<Seq<char>>,
    provider: Option<Seq<char>>,
    start: bool,
    start_on_app_launch: bool,
) -> JsonTree {
    JsonTree::object().with("approve"@, JsonTree::Bool(approve)).with(
        "name"@,
        JsonTree::Str(agent.name),
    ).with("agentCommand"@, JsonTree::Str(agent.command)).with(
        "harnessOverride"@,
        JsonTree::Bool(true),
    ).with("systemPrompt"@, JsonTree::optional(system_prompt)).with(
        "model"@,
        JsonTree::optional(model),
    ).with("provider"@, JsonTree::optional(provider)).with(
        "spawnAfterCreate"@,
        JsonTree::Bool(start),
    ).with("startOnAppLaunch"@, JsonTree::Bool(start_on_app_launch))
}

/// What an agent of a channel to provision is.
pub open spec fn planned_agent(agent: AgentView) -> JsonTree {
    JsonTree::object().with("name"@, JsonTree::Str(agent.name)).with(
        "command"@,
        JsonTree::Str(agent.command),
    ).with("role"@, JsonTree::Str("bot"@))
}

/// What a channel to provision is.
pub open spec fn channel_tree(plan: PlanView) -> JsonTree {
    JsonTree::object().with("name"@, JsonTree::Str(plan.name)).with(
        "context"@,
        JsonTree::Str(plan.context),
    ).with(
        "agents"@,
        JsonTree::Array(plan.agents.map_values(|agent: AgentView| planned_agent(agent))),
    ).with("description"@, JsonTree::optional(plan.description)).with(
        "visibility"@,
        JsonTree::Str(plan.visibility),
    ).with("channel_type"@, JsonTree::Str(plan.channel_type)).with(
        "start"@,
        JsonTree::Bool(plan.start),
    ).with("start_on_app_launch"@, JsonTree::Bool(plan.start_on_app_launch)).with(
        "rollback"@,
        JsonTree::Str("delete agents created by this command, then delete the channel"@),
    )
}

/// What a command comes to. `checked` is what checking its public key gave, where it
/// has one.
pub open spec fn decision_of(
    command: ManagedAgentsCmd,
    checked: Result<(), CliError>,
) -> Result<DecisionView, CliFault> {
    match command {
        ManagedAgentsCmd::Status => Ok(
            DecisionView::Send(
                RequestView { method: Method::Get, route: "v1/status"@, body: None },
            ),
        ),
        ManagedAgentsCmd::List => Ok(
            DecisionView::Send(
                RequestView { method: Method::Get, route: "v1/managed-agents"@, body: None },
            ),
        ),
        ManagedAgentsCmd::Create {
            name,
            agent_command,
            system_prompt,
            model,
            provider,
            start,
            start_on_app_launch,
            approve,
        } => {
            let body = create_tree(
                approve,
                AgentView { name: name@, command: agent_command@ },
                opt_text(system_prompt),
                opt_text(model),
                opt_text(provider),
                start,
                start_on_app_launch,
            );
            Ok(
                if approve {
                    DecisionView::Send(post("v1/managed-agents"@, body))
                } else {
                    DecisionView::Show(plan_tree("create_managed_agent"@, body))
                },
            )
        },
        ManagedAgentsCmd::ProvisionChannel {
            name,
            context,
            agents,
            description,
            visibility,
            channel_type,
            system_prompt,
            start,
            start_on_app_launch,
            approve,
        } => match specs_of(texts(agents@)) {
            Err(fault) => Err(fault),
            Ok(agents) => {
                let plan = PlanView {
                    name: name@,
                    context: context@,
                    agents,
                    description: opt_text(description),
                    visibility: visibility@,
                    channel_type: channel_type@,
                    system_prompt: opt_text(system_prompt),
                    start,
                    start_on_app_launch,
                };
                Ok(
                    if approve {
                        DecisionView::Provision(plan)
                    } else {
                        DecisionView::Show(
                            plan_tree("provision_managed_channel"@, channel_tree(plan)),
                        )
                    },
                )
            },
        },
        ManagedAgentsCmd::Start { pubkey, approve } => lifecycle_of(
            "start"@,
            pubkey@,
            checked,
            approve,
        ),
        ManagedAgentsCmd::Stop { pubkey, approve } => lifecycle_of(
            "stop"@,
            pubkey@,
            checked,
            approve,
        ),
        ManagedAgentsCmd::Restart { pubkey, approve } => lifecycle_of(
            "restart"@,
            pubkey@,
            checked,
            approve,
        ),
        ManagedAgentsCmd::Delete { pubkey, approve } => deletion_of(pubkey@, checked, approve),
    }
}

/// What a command to delete an agent comes to.
pub open spec fn deletion_of(
    pubkey: Seq<char>,
    checked: Result<(), CliError>,
    approve: bool,
) -> Result<DecisionView, CliFault> {
    match checked {
        Err(error) => Err(error@),
        Ok(_) => Ok(
            on_agent(
                "delete_managed_agent"@,
                pubkey,
                approve,
                delete_agent_request(pubkey),
            ),
        ),
    }
}

/// What a command to start, stop or restart an agent comes to.
pub open spec fn lifecycle_of(
    action: Seq<char>,
    pubkey: Seq<char>,
    checked: Result<(), CliError>,
    approve: bool,
) -> Result<DecisionView, CliFault> {
    match checked {
        Err(error) => Err(error@),
        Ok(_) => Ok(
            on_agent(
                action + "_managed_agent"@,
                pubkey,
                approve,
                lifecycle_view(action, pubkey),
            ),
        ),
    }
}

/// A command to start, stop or restart an agent, whose public key was checked.
pub fn lifecycle_request(
    action: &str,
    pubkey: &str,
    checked: Result<(), CliError>,
    approve: bool,
) -> (r: Result<Decision, CliError>)
    ensures
        decision_view(r) == lifecycle_of(action@, pubkey@, checked, approve),
{
    match checked {
        Err(error) => return Err(error),
        Ok(_) => {},
    }
    if !approve {
        let target = Json::object().with("pubkey", Json::text(pubkey));
        let name = cat2(action, "_managed_agent");
        return Ok(Decision::Show(approval_plan(name.as_str(), target)));
    }
    Ok(
        Decision::Send(
            ControlRequest {
                method: Method::Post,
                route: cat4("v1/managed-agents/", pubkey, "/", action),
                body: Some(Json::object().with("approve", Json::Bool(true))),
            },
        ),
    )
}

/// A command to delete an agent, whose public key was checked.
pub fn delete_agent(pubkey: &str, checked: Result<(), CliError>, approve: bool) -> (r: Result<
    Decision,
    CliError,
>)
    ensures
        decision_view(r) == deletion_of(pubkey@, checked, approve),
{
    match checked {
        Err(error) => return Err(error),
        Ok(_) => {},
    }
    if !approve {
        let target = Json::object().with("pubkey", Json::text(pubkey));
        return Ok(Decision::Show(approval_plan("delete_managed_agent", target)));
    }
    Ok(
        Decision::Send(
            ControlRequest {
                method: Method::Delete,
                route: cat2("v1/managed-agents/", pubkey),
                body: Some(Json::object().with("approve", Json::Bool(true))),
            },
        ),
    )
}

/// What a channel to provision is.
fn channel_json(plan: &ChannelPlan) -> (r: Json)
    ensures
        r@ == channel_tree(plan@),
{
    let mut agents: Vec<Json> = Vec::new();
    let mut i: usize = 0;
    while i < plan.agents.len()
        invariant
            i <= plan.agents@.len(),
            agents@.len() == i,
            forall|j: int|
                0 <= j < i ==> (#[trigger] agents@[j])@ == planned_agent(plan.agents@[j]@),
        decreases plan.agents@.len() - i,
    {
        let agent = &plan.agents[i];
        agents.push(
            Json::object().with("name", Json::text(agent.name.as_str())).with(
                "command",
                Json::text(agent.command.as_str()),
            ).with("role", Json::text("bot")),
        );
        i = i + 1;
    }
    assert(agents@.map_values(|item: Json| item@) =~= plan@.agents.map_values(
        |agent: AgentView| planned_agent(agent),
    ));
    Json::object().with("name", Json::text(plan.name.as_str())).with(
        "context",
        Json::text(plan.context.as_str()),
    ).with("agents", Json::array(agents)).with(
        "description",
        Json::optional(borrowed(&plan.description)),
    ).with("visibility", Json::text(plan.visibility.as_str())).with(
        "channel_type",
        Json::text(plan.channel_type.as_str()),
    ).with("start", Json::Bool(plan.start)).with(
        "start_on_app_launch",
        Json::Bool(plan.start_on_app_launch),
    ).with(
        "rollback",
        Json::text("delete agents created by this command, then delete the channel"),
    )
}

/// Decides what a command comes to: a request, a plan to show while it is not
/// approved, or a channel to provision. `checked` is what checking its public key
/// gave, where it has one.
pub fn dispatch(command: ManagedAgentsCmd, checked: Result<(), CliError>) -> (r: Result<
    Decision,
    CliError,
>)
    ensures
        decision_view(r) == decision_of(command, checked),
{
    match command {
        ManagedAgentsCmd::Status => Ok(
            Decision::Send(
                ControlRequest { method: Method::Get, route: "v1/status".to_owned(), body: None },
            ),
        ),
        ManagedAgentsCmd::List => Ok(
            Decision::Send(
                ControlRequest {
                    method: Method::Get,
                    route: "v1/managed-agents".to_owned(),
                    body: None,
                },
            ),
        ),
        ManagedAgentsCmd::Create {
            name,
            agent_command,
            system_prompt,
            model,
            provider,
            start,
            start_on_app_launch,
            approve,
        } => {
            let body = Json::object().with("approve", Json::Bool(approve)).with(
                "name",
                Json::text(name.as_str()),
            ).with("agentCommand", Json::text(agent_command.as_str())).with(
                "harnessOverride",
                Json::Bool(true),
            ).with("systemPrompt", Json::optional(borrowed(&system_prompt))).with(
                "model",
                Json::optional(borrowed(&model)),
            ).with("provider", Json::optional(borrowed(&provider))).with(
                "spawnAfterCreate",
                Json::Bool(start),
            ).with("startOnAppLaunch", Json::Bool(start_on_app_launch));
            if !approve {
                return Ok(Decision::Show(approval_plan("create_managed_agent", body)));
            }
            Ok(
                Decision::Send(
                    ControlRequest {
                        method: Method::Post,
                        route: "v1/managed-agents".to_owned(),
                        body: Some(body),
                    },
                ),
            )
        },
        ManagedAgentsCmd::ProvisionChannel {
            name,
            context,
            agents,
            description,
            visibility,
            channel_type,
            system_prompt,
            start,
            start_on_app_launch,
            approve,
        } => {
            let agents = match parse_agent_specs(&agents) {
                Ok(agents) => agents,
                Err(error) => return Err(error),
            };
            let plan = ChannelPlan {
                name,
                context,
                agents,
                description,
                visibility,
                channel_type,
                system_prompt,
                start,
                start_on_app_launch,
            };
            if !approve {
                return Ok(
                    Decision::Show(
                        approval_plan("provision_managed_channel", channel_json(&plan)),
                    ),
                );
            }
            Ok(Decision::Provision(plan))
        },
        ManagedAgentsCmd::Start { pubkey, approve } => lifecycle_request(
            "start",
            pubkey.as_str(),
            checked,
            approve,
        ),
        ManagedAgentsCmd::Stop { pubkey, approve } => lifecycle_request(
            "stop",
            pubkey.as_str(),
            checked,
            approve,
        ),
        ManagedAgentsCmd::Restart { pubkey, approve } => lifecycle_request(
            "restart",
            pubkey.as_str(),
            checked,
            approve,
        ),
        ManagedAgentsCmd::Delete { pubkey, approve } => delete_agent(
            pubkey.as_str(),
            checked,
            approve,
        ),
    }
}

/// A command that changes something, and whether it is approved.
pub open spec fn approval_of(command: ManagedAgentsCmd) -> Option<bool> {
    match command {
        ManagedAgentsCmd::Status | ManagedAgentsCmd::List => None,
        ManagedAgentsCmd::Create { approve, .. } => Some(approve),
        ManagedAgentsCmd::ProvisionChannel { approve, .. } => Some(approve),
        ManagedAgentsCmd::Start { approve, .. } => Some(approve),
        ManagedAgentsCmd::Stop { approve, .. } => Some(approve),
        ManagedAgentsCmd::Restart { approve, .. } => Some(approve),
        ManagedAgentsCmd::Delete { approve, .. } => Some(approve),
    }
}

/// Nothing is requested of the service for a command that is not approved, unless it
/// only reads: such a command shows its plan, or fails.
pub proof fn unapproved_commands_only_show(
    command: ManagedAgentsCmd,
    checked: Result<(), CliError>,
)
    requires
        approval_of(command) == Some(false),
    ensures
        decision_of(command, checked) matches Ok(decision) ==> decision is Show,
{
}

/// A command that only reads makes a request without a body.
pub proof fn reading_commands_send_nothing(command: ManagedAgentsCmd, checked: Result<(), CliError>)
    requires
        approval_of(command) is None,
    ensures
        decision_of(command, checked) matches Ok(DecisionView::Send(request)) && request.method
            is Get && request.body is None,
{
}

/// Every request that a command makes goes to a route of the service, and one that
/// changes something says that it is approved.
pub proof fn requests_go_to_the_service(
    command: ManagedAgentsCmd,
    checked: Result<(), CliError>,
    request: RequestView,
)
    requires
        decision_of(command, checked) == Ok::<DecisionView, CliFault>(DecisionView::Send(request)),
    ensures
        service_route(request.route),
        request.method is Get || (request.body is Some && request.body->0.field("approve"@)
            == Some(JsonTree::Bool(true))),
{
    reveal_strlit("v1/status");
    reveal_strlit("v1/managed-agents");
    reveal_strlit("v1/managed-agents/");
    lemma_names();
}

/// The first component of a path.
pub open spec fn first_part(path: Seq<Seq<char>>) -> Option<Seq<char>> {
    if path.len() > 0 {
        Some(path[0])
    } else {
        None
    }
}

/// The path that is looked for: the home directory, what follows a leading `~` below
/// it, or the path itself.
pub open spec fn expanded_path(
    path: Seq<Seq<char>>,
    root: ContextRoot,
    home: Seq<Seq<char>>,
) -> Seq<Seq<char>> {
    match root {
        ContextRoot::Home => home,
        ContextRoot::BelowHome => home + path.drop_first(),
        ContextRoot::AsGiven => path,
    }
}

/// What a file system knows: how a path is shown, and what is found at it, which is
/// its real path and whether that is a directory, or an error.
pub struct Disk {
    pub shown: spec_fn(Seq<Seq<char>>) -> Seq<char>,
    pub found: spec_fn(Seq<Seq<char>>) -> Result<(Seq<Seq<char>>, bool), Seq<char>>,
}

impl Disk {
    /// Real paths are absolute, so none begins with `~`, and each is its own real
    /// path.
    pub open spec fn has_real_paths(self) -> bool {
        forall|path: Seq<Seq<char>>|
            (#[trigger] (self.found)(path)) matches Ok((canonical, is_dir)) ==> {
                &&& (self.found)(canonical) == Ok::<(Seq<Seq<char>>, bool), Seq<char>>(
                    (canonical, is_dir),
                )
                &&& first_part(canonical) != Some("~"@)
            }
    }
}

/// The directory that a context path leads to.
pub open spec fn resolved_context(
    path: Seq<Seq<char>>,
    home: Option<Seq<Seq<char>>>,
    disk: Disk,
) -> Result<Seq<Seq<char>>, CliFault> {
    match root_of(first_part(path), path.len() > 1, home is Some) {
        Err(fault) => Err(fault),
        Ok(root) => {
            let expanded = expanded_path(path, root, home->0);
            directory_of(
                (disk.shown)(expanded),
                match (disk.found)(expanded) {
                    Ok((canonical, is_dir)) => Ok((canonical, (disk.shown)(canonical), is_dir)),
                    Err(error) => Err(error),
                },
            )
        },
    }
}

/// A context path leads to a directory where the path that is looked for exists and
/// is one, and then to its real path. Where it does not exist or is something else,
/// the usage is wrong; a home directory that is needed and not known is another
/// error. Only a whole first component `~` stands for the home directory.
pub proof fn context_is_a_directory(
    path: Seq<Seq<char>>,
    home: Option<Seq<Seq<char>>>,
    disk: Disk,
)
    ensures
        ({
            let tilde = path.len() > 0 && path[0] == "~"@;
            let expanded = if tilde {
                home->0 + path.drop_first()
            } else {
                path
            };
            let r = resolved_context(path, home, disk);
            if tilde && home is None {
                r matches Err(fault) && fault is Other
            } else {
                match (disk.found)(expanded) {
                    Ok((canonical, true)) => r == Ok::<Seq<Seq<char>>, CliFault>(canonical),
                    _ => r matches Err(fault) && fault is Usage,
                }
            }
        }),
{
    if path.len() == 1 {
        assert(home->0 + path.drop_first() =~= home->0);
    }
}

/// The directory that a context path leads to leads to itself, on every file system
/// that has real paths.
pub proof fn resolved_context_stays(
    path: Seq<Seq<char>>,
    home: Option<Seq<Seq<char>>>,
    disk: Disk,
)
    requires
        disk.has_real_paths(),
    ensures
        resolved_context(path, home, disk) matches Ok(directory) ==> resolved_context(
            directory,
            home,
            disk,
        ) == Ok::<Seq<Seq<char>>, CliFault>(directory),
{
}

/// The names of the fields are told apart.
proof fn lemma_names()
    ensures
        "approve"@.len() == 7 && "approve"@[0] == 'a',
        "name"@.len() == 4 && "name"@[0] == 'n',
        "agentCommand"@.len() == 12 && "agentCommand"@[0] == 'a',
        "harnessOverride"@.len() == 15,
        "systemPrompt"@.len() == 12 && "systemPrompt"@[0] == 's',
        "model"@.len() == 5 && "model"@[0] == 'm',
        "provider"@.len() == 8 && "provider"@[0] == 'p',
        "spawnAfterCreate"@.len() == 16 && "spawnAfterCreate"@[1] == 'p',
        "startOnAppLaunch"@.len() == 16 && "startOnAppLaunch"@[1] == 't',
        "ok"@.len() == 2,
        "executed"@.len() == 8 && "executed"@[0] == 'e',
        "approval_required"@.len() == 17,
        "action"@.len() == 6 && "action"@[0] == 'a' && "action"@[1] == 'c',
        "target"@.len() == 6 && "target"@[0] == 't',
        "message"@.len() == 7 && "message"@[0] == 'm',
        "command"@.len() == 7 && "command"@[0] == 'c' && "command"@[2] == 'm',
        "role"@.len() == 4 && "role"@[0] == 'r',
        "context"@.len() == 7 && "context"@[0] == 'c' && "context"@[2] == 'n',
        "agents"@.len() == 6 && "agents"@[0] == 'a' && "agents"@[1] == 'g',
        "description"@.len() == 11,
        "visibility"@.len() == 10,
        "channel_type"@.len() == 12 && "channel_type"@[0] == 'c',
        "start"@.len() == 5 && "start"@[0] == 's',
        "start_on_app_launch"@.len() == 19,
        "rollback"@.len() == 8 && "rollback"@[0] == 'r',
{
    reveal_strlit("approve");
    reveal_strlit("name");
    reveal_strlit("agentCommand");
    reveal_strlit("harnessOverride");
    reveal_strlit("systemPrompt");
    reveal_strlit("model");
    reveal_strlit("provider");
    reveal_strlit("spawnAfterCreate");
    reveal_strlit("startOnAppLaunch");
    reveal_strlit("ok");
    reveal_strlit("executed");
    reveal_strlit("approval_required");
    reveal_strlit("action");
    reveal_strlit("target");
    reveal_strlit("message");
    reveal_strlit("command");
    reveal_strlit("role");
    reveal_strlit("context");
    reveal_strlit("agents");
    reveal_strlit("description");
    reveal_strlit("visibility");
    reveal_strlit("channel_type");
    reveal_strlit("start");
    reveal_strlit("start_on_app_launch");
    reveal_strlit("rollback");
}

/// A field that holds a text where one is given, and null where none is.
pub open spec fn holds_optional(tree: JsonTree, name: Seq<char>, text: Option<Seq<char>>) -> bool {
    match text {
        Some(text) => tree.field(name) == Some(JsonTree::Str(text)),
        None => tree.field(name) == Some(JsonTree::Null),
    }
}

/// An object says all that a command to create an agent says, and that its harness is
/// fixed; nothing else.
pub open spec fn says_all_of_create(body: JsonTree, command: ManagedAgentsCmd) -> bool {
    &&& command matches ManagedAgentsCmd::Create {
        name,
        agent_command,
        system_prompt,
        model,
        provider,
        start,
        start_on_app_launch,
        approve,
    } && {
        &&& body.field("approve"@) == Some(JsonTree::Bool(approve))
        &&& body.field("name"@) == Some(JsonTree::Str(name@))
        &&& body.field("agentCommand"@) == Some(JsonTree::Str(agent_command@))
        &&& body.field("harnessOverride"@) == Some(JsonTree::Bool(true))
        &&& holds_optional(body, "systemPrompt"@, opt_text(system_prompt))
        &&& holds_optional(body, "model"@, opt_text(model))
        &&& holds_optional(body, "provider"@, opt_text(provider))
        &&& body.field("spawnAfterCreate"@) == Some(JsonTree::Bool(start))
        &&& body.field("startOnAppLaunch"@) == Some(JsonTree::Bool(start_on_app_launch))
    }
    &&& body is Object
    &&& body->Object_0.dom() == set![
        "approve"@,
        "name"@,
        "agentCommand"@,
        "harnessOverride"@,
        "systemPrompt"@,
        "model"@,
        "provider"@,
        "spawnAfterCreate"@,
        "startOnAppLaunch"@,
    ]
}

/// What is shown of a command that is not approved: that nothing was executed, that
/// approval is required and how to give it, which action it is and what it is about.
pub open spec fn shows_plan(shown: JsonTree, action: Seq<char>) -> bool {
    &&& shown is Object
    &&& shown->Object_0.dom() == set![
        "ok"@,
        "executed"@,
        "approval_required"@,
        "action"@,
        "target"@,
        "message"@,
    ]
    &&& shown.field("ok"@) == Some(JsonTree::Bool(true))
    &&& shown.field("executed"@) == Some(JsonTree::Bool(false))
    &&& shown.field("approval_required"@) == Some(JsonTree::Bool(true))
    &&& shown.field("action"@) == Some(JsonTree::Str(action))
    &&& shown.field("message"@) == Some(
        JsonTree::Str("Review this plan, then rerun the same command with --approve."@),
    )
}

proof fn lemma_plan_shows(action: Seq<char>, target: JsonTree)
    ensures
        shows_plan(plan_tree(action, target), action),
        plan_tree(action, target).field("target"@) == Some(target),
{
    lemma_names();
    assert(plan_tree(action, target)->Object_0.dom() =~= set![
        "ok"@,
        "executed"@,
        "approval_required"@,
        "action"@,
        "target"@,
        "message"@,
    ]);
}

/// A command to create an agent is posted, where it is approved, with all that it says,
/// and else shown with all that it says. It fails never.
pub proof fn create_says_all(command: ManagedAgentsCmd, checked: Result<(), CliError>)
    requires
        command is Create,
    ensures
        command->Create_approve ==> (decision_of(command, checked) matches Ok(
            DecisionView::Send(request),
        ) && request.method is Post && request.route == "v1/managed-agents"@ && request.body is Some
            && says_all_of_create(request.body->0, command)),
        !command->Create_approve ==> (decision_of(command, checked) matches Ok(
            DecisionView::Show(shown),
        ) && shows_plan(shown, "create_managed_agent"@) && shown.field("target"@) is Some
            && says_all_of_create(shown.field("target"@)->0, command)),
{
    let body = create_tree(
        command->Create_approve,
        AgentView { name: command->Create_name@, command: command->Create_agent_command@ },
        opt_text(command->Create_system_prompt),
        opt_text(command->Create_model),
        opt_text(command->Create_provider),
        command->Create_start,
        command->Create_start_on_app_launch,
    );
    lemma_plan_shows("create_managed_agent"@, body);
    lemma_names();
    assert(body->Object_0.dom() =~= set![
        "approve"@,
        "name"@,
        "agentCommand"@,
        "harnessOverride"@,
        "systemPrompt"@,
        "model"@,
        "provider"@,
        "spawnAfterCreate"@,
        "startOnAppLaunch"@,
    ]);
}

/// Two commands to create an agent that come to the same say the same.
pub proof fn different_creates_come_to_different_things(
    a: ManagedAgentsCmd,
    b: ManagedAgentsCmd,
    checked: Result<(), CliError>,
)
    requires
        a is Create,
        b is Create,
        decision_of(a, checked) == decision_of(b, checked),
    ensures
        a->Create_name@ == b->Create_name@,
        a->Create_agent_command@ == b->Create_agent_command@,
        opt_text(a->Create_system_prompt) == opt_text(b->Create_system_prompt),
        opt_text(a->Create_model) == opt_text(b->Create_model),
        opt_text(a->Create_provider) == opt_text(b->Create_provider),
        a->Create_start == b->Create_start,
        a->Create_start_on_app_launch == b->Create_start_on_app_launch,
        a->Create_approve == b->Create_approve,
{
    create_says_all(a, checked);
    create_says_all(b, checked);
}

/// What is posted, by path, for a command about one agent that is approved: nothing but
/// the approval. What is shown of it else: the action and the agent.
pub open spec fn comes_to_agent_action(
    decision: Result<DecisionView, CliFault>,
    checked: Result<(), CliError>,
    approve: bool,
    method: Method,
    route: Seq<char>,
    action: Seq<char>,
    pubkey: Seq<char>,
) -> bool {
    match checked {
        Err(error) => decision == Err::<DecisionView, CliFault>(error@),
        Ok(_) => if approve {
            decision matches Ok(DecisionView::Send(request)) && {
                &&& request.method == method
                &&& request.route == route
                &&& request.body == Some(
                    JsonTree::Object(map!["approve"@ => JsonTree::Bool(true)]),
                )
            }
        } else {
            decision matches Ok(DecisionView::Show(shown)) && {
                &&& shows_plan(shown, action)
                &&& shown.field("target"@) == Some(
                    JsonTree::Object(map!["pubkey"@ => JsonTree::Str(pubkey)]),
                )
            }
        },
    }
}

/// A command to start, stop, restart or delete an agent asks just that, of that agent. It
/// fails where the agent's public key did not pass its check, approved or not.
pub proof fn agent_commands_ask_what_they_say(
    command: ManagedAgentsCmd,
    checked: Result<(), CliError>,
)
    ensures
        ({
            let decision = decision_of(command, checked);
            let agent = "v1/managed-agents/"@;
            match command {
                ManagedAgentsCmd::Start { pubkey, approve } => comes_to_agent_action(
                    decision,
                    checked,
                    approve,
                    Method::Post,
                    agent + pubkey@ + "/start"@,
                    "start_managed_agent"@,
                    pubkey@,
                ),
                ManagedAgentsCmd::Stop { pubkey, approve } => comes_to_agent_action(
                    decision,
                    checked,
                    approve,
                    Method::Post,
                    agent + pubkey@ + "/stop"@,
                    "stop_managed_agent"@,
                    pubkey@,
                ),
                ManagedAgentsCmd::Restart { pubkey, approve } => comes_to_agent_action(
                    decision,
                    checked,
                    approve,
                    Method::Post,
                    agent + pubkey@ + "/restart"@,
                    "restart_managed_agent"@,
                    pubkey@,
                ),
                ManagedAgentsCmd::Delete { pubkey, approve } => comes_to_agent_action(
                    decision,
                    checked,
                    approve,
                    Method::Delete,
                    agent + pubkey@,
                    "delete_managed_agent"@,
                    pubkey@,
                ),
                _ => true,
            }
        }),
{
    reveal_strlit("/");
    reveal_strlit("start");
    reveal_strlit("stop");
    reveal_strlit("restart");
    reveal_strlit("/start");
    reveal_strlit("/stop");
    reveal_strlit("/restart");
    reveal_strlit("_managed_agent");
    reveal_strlit("start_managed_agent");
    reveal_strlit("stop_managed_agent");
    reveal_strlit("restart_managed_agent");
    assert("/"@ + "start"@ =~= "/start"@);
    assert("/"@ + "stop"@ =~= "/stop"@);
    assert("/"@ + "restart"@ =~= "/restart"@);
    assert("start"@ + "_managed_agent"@ =~= "start_managed_agent"@);
    assert("stop"@ + "_managed_agent"@ =~= "stop_managed_agent"@);
    assert("restart"@ + "_managed_agent"@ =~= "restart_managed_agent"@);
    let pubkey = match command {
        ManagedAgentsCmd::Start { pubkey, .. } => pubkey@,
        ManagedAgentsCmd::Stop { pubkey, .. } => pubkey@,
        ManagedAgentsCmd::Restart { pubkey, .. } => pubkey@,
        ManagedAgentsCmd::Delete { pubkey, .. } => pubkey@,
        _ => Seq::empty(),
    };
    let agent = "v1/managed-agents/"@ + pubkey;
    assert(agent + "/"@ + "start"@ =~= agent + "/start"@);
    assert(agent + "/"@ + "stop"@ =~= agent + "/stop"@);
    assert(agent + "/"@ + "restart"@ =~= agent + "/restart"@);
    lemma_plan_shows("start_managed_agent"@, pubkey_tree(pubkey));
    lemma_plan_shows("stop_managed_agent"@, pubkey_tree(pubkey));
    lemma_plan_shows("restart_managed_agent"@, pubkey_tree(pubkey));
    lemma_plan_shows("delete_managed_agent"@, pubkey_tree(pubkey));
}

/// The commands that only read ask for the status and for the list of agents.
pub proof fn reading_commands_ask_what_they_say(checked: Result<(), CliError>)
    ensures
        decision_of(ManagedAgentsCmd::Status, checked) matches Ok(DecisionView::Send(request))
            && request.route == "v1/status"@,
        decision_of(ManagedAgentsCmd::List, checked) matches Ok(DecisionView::Send(request))
            && request.route == "v1/managed-agents"@,
{
}

/// A plan has everything that a command to provision a channel says, with the agents that
/// its list specifies.
pub open spec fn plans_all(
    plan: PlanView,
    command: ManagedAgentsCmd,
    agents: Seq<AgentView>,
) -> bool {
    command matches ManagedAgentsCmd::ProvisionChannel {
        name,
        context,
        description,
        visibility,
        channel_type,
        system_prompt,
        start,
        start_on_app_launch,
        ..
    } && {
        &&& plan.name == name@
        &&& plan.context == context@
        &&& plan.agents == agents
        &&& plan.description == opt_text(description)
        &&& plan.visibility == visibility@
        &&& plan.channel_type == channel_type@
        &&& plan.system_prompt == opt_text(system_prompt)
        &&& plan.start == start
        &&& plan.start_on_app_launch == start_on_app_launch
    }
}

/// An object says what a plan says, but for the system prompt, and that a failure is rolled
/// back.
pub open spec fn says_all_of_plan(target: JsonTree, plan: PlanView) -> bool {
    &&& target is Object
    &&& target->Object_0.dom() == set![
        "name"@,
        "context"@,
        "agents"@,
        "description"@,
        "visibility"@,
        "channel_type"@,
        "start"@,
        "start_on_app_launch"@,
        "rollback"@,
    ]
    &&& target.field("name"@) == Some(JsonTree::Str(plan.name))
    &&& target.field("context"@) == Some(JsonTree::Str(plan.context))
    &&& target.field("agents"@) matches Some(JsonTree::Array(shown)) && shown.len()
        == plan.agents.len() && forall|i: int|
        0 <= i < shown.len() ==> {
            &&& (#[trigger] shown[i]) is Object
            &&& shown[i]->Object_0.dom() == set!["name"@, "command"@, "role"@]
            &&& shown[i].field("name"@) == Some(JsonTree::Str(plan.agents[i].name))
            &&& shown[i].field("command"@) == Some(JsonTree::Str(plan.agents[i].command))
            &&& shown[i].field("role"@) == Some(JsonTree::Str("bot"@))
        }
    &&& holds_optional(target, "description"@, plan.description)
    &&& target.field("visibility"@) == Some(JsonTree::Str(plan.visibility))
    &&& target.field("channel_type"@) == Some(JsonTree::Str(plan.channel_type))
    &&& target.field("start"@) == Some(JsonTree::Bool(plan.start))
    &&& target.field("start_on_app_launch"@) == Some(JsonTree::Bool(plan.start_on_app_launch))
    &&& target.field("rollback"@) == Some(
        JsonTree::Str("delete agents created by this command, then delete the channel"@),
    )
}

proof fn lemma_channel_tree(plan: PlanView)
    ensures
        says_all_of_plan(channel_tree(plan), plan),
{
    lemma_names();
    let target = channel_tree(plan);
    assert(target->Object_0.dom() =~= set![
        "name"@,
        "context"@,
        "agents"@,
        "description"@,
        "visibility"@,
        "channel_type"@,
        "start"@,
        "start_on_app_launch"@,
        "rollback"@,
    ]);
    assert forall|i: int| 0 <= i < plan.agents.len() implies (#[trigger] planned_agent(
        plan.agents[i],
    ))->Object_0.dom() == set!["name"@, "command"@, "role"@] by {
        assert(planned_agent(plan.agents[i])->Object_0.dom() =~= set![
            "name"@,
            "command"@,
            "role"@,
        ]);
    }
}

/// A command to provision a channel provisions just what it says, where it is approved, and
/// else shows what it would provision. It fails where its list of agents does.
pub proof fn provision_says_all(command: ManagedAgentsCmd, checked: Result<(), CliError>)
    requires
        command is ProvisionChannel,
    ensures
        match specs_of(texts(command->ProvisionChannel_agents@)) {
            Err(fault) => decision_of(command, checked) == Err::<DecisionView, CliFault>(fault),
            Ok(agents) => if command->ProvisionChannel_approve {
                decision_of(command, checked) matches Ok(DecisionView::Provision(plan))
                    && plans_all(plan, command, agents)
            } else {
                decision_of(command, checked) matches Ok(DecisionView::Show(shown)) && shows_plan(
                    shown,
                    "provision_managed_channel"@,
                ) && exists|plan: PlanView| #[trigger]
                    plans_all(plan, command, agents) && shown.field("target"@) is Some
                        && says_all_of_plan(shown.field("target"@)->0, plan)
            },
        },
{
    match specs_of(texts(command->ProvisionChannel_agents@)) {
        Err(_) => {},
        Ok(agents) => {
            let plan = PlanView {
                name: command->ProvisionChannel_name@,
                context: command->ProvisionChannel_context@,
                agents,
                description: opt_text(command->ProvisionChannel_description),
                visibility: command->ProvisionChannel_visibility@,
                channel_type: command->ProvisionChannel_channel_type@,
                system_prompt: opt_text(command->ProvisionChannel_system_prompt),
                start: command->ProvisionChannel_start,
                start_on_app_launch: command->ProvisionChannel_start_on_app_launch,
            };
            assert(plans_all(plan, command, agents));
            lemma_channel_tree(plan);
            lemma_plan_shows("provision_managed_channel"@, channel_tree(plan));
        },
    }
}

/// An agent is specified by its name, an equals sign and its command, which may hold more
/// of them. White space around either does not count, and neither may be empty.
pub proof fn agent_is_read_at_its_first_equals_sign(
    name: Seq<char>,
    command: Seq<char>,
    value: Seq<char>,
)
    ensures
        !name.contains('=') ==> spec_of(name + seq!['='] + command) == if trimmed(name).len() > 0
            && trimmed(command).len() > 0 {
            Ok::<AgentView, CliFault>(AgentView { name: trimmed(name), command: trimmed(command) })
        } else {
            Err(
                CliFault::Usage(
                    "invalid --agent "@ + str_debug(name + seq!['='] + command)
                        + "; name and command are required"@,
                ),
            )
        },
        !value.contains('=') ==> spec_of(value) == Err::<AgentView, CliFault>(
            CliFault::Usage("invalid --agent "@ + str_debug(value) + "; expected NAME=COMMAND"@),
        ),
{
    if !name.contains('=') {
        crate::text::split_at_first(name, '=', command);
    }
    if !value.contains('=') {
        crate::text::no_split_without_separator(value, '=');
    }
}

/// A list of agents is read one by one: each gives its agent, in order, and the first that
/// is wrong is the error.
pub proof fn agents_are_read_in_order(values: Seq<Seq<char>>)
    ensures
        match specs_of(values) {
            Ok(agents) => agents.len() == values.len() && forall|i: int|
                0 <= i < values.len() ==> spec_of(#[trigger] values[i]) == Ok::<
                    AgentView,
                    CliFault,
                >(agents[i]),
            Err(fault) => exists|i: int|
                0 <= i < values.len() && spec_of(#[trigger] values[i]) == Err::<
                    AgentView,
                    CliFault,
                >(fault) && forall|j: int| 0 <= j < i ==> spec_of(#[trigger] values[j]) is Ok,
        },
    decreases values.len(),
{
    if values.len() > 0 {
        let front = values.drop_last();
        agents_are_read_in_order(front);
        match specs_of(front) {
            Ok(agents) => {
                assert forall|i: int| 0 <= i < front.len() implies spec_of(#[trigger] values[i])
                    == Ok::<AgentView, CliFault>(agents[i]) by {
                    assert(front[i] == values[i]);
                }
                assert(spec_of(values[values.len() - 1]) == spec_of(values.last()));
            },
            Err(fault) => {
                let i = choose|i: int|
                    0 <= i < front.len() && spec_of(#[trigger] front[i]) == Err::<
                        AgentView,
                        CliFault,
                    >(fault) && forall|j: int| 0 <= j < i ==> spec_of(#[trigger] front[j]) is Ok;
                assert(values[i] == front[i]);
                assert forall|j: int| 0 <= j < i implies spec_of(#[trigger] values[j]) is Ok by {
                    assert(front[j] == values[j]);
                }
            },
        }
    }
}

/// The canvas of a channel without agents tells its name and its working context, and every
/// agent adds one line at its end: the agent's name, and its command.
pub proof fn canvas_has_a_line_for_each_agent(
    name: Seq<char>,
    context: Seq<char>,
    agents: Seq<AgentView>,
    agent: AgentView,
)
    ensures
        canvas_of(name, context, Seq::empty()) == "# "@ + name + "\n\n## Working context\n\n`"@
            + context + "`\n\n## Managed agents\n\n"@ + "\n"@,
        canvas_of(name, context, agents.push(agent)) == canvas_of(name, context, agents).drop_last()
            + (if agents.len() == 0 {
            Seq::empty()
        } else {
            "\n"@
        }) + ("- **"@ + agent.name + "** — `"@ + agent.command + "`"@) + "\n"@,
{
    reveal_strlit("\n");
    let lines = |agents: Seq<AgentView>|
        agents.map_values(|agent: AgentView| roster_line(agent));
    let none = Seq::<AgentView>::empty();
    let head = "# "@ + name + "\n\n## Working context\n\n`"@ + context
        + "`\n\n## Managed agents\n\n"@;
    assert(joined(lines(none), "\n"@) =~= Seq::<char>::empty());
    assert(canvas_of(name, context, none) =~= head + "\n"@);
    let before = canvas_of(name, context, agents);
    assert(before.drop_last() =~= head + joined(lines(agents), "\n"@));
    assert(lines(agents.push(agent)).drop_last() =~= lines(agents));
    let line = roster_line(agent);
    assert(lines(agents.push(agent)).last() == line);
    if agents.len() == 0 {
        assert(joined(lines(agents), "\n"@) =~= Seq::<char>::empty());
        assert(canvas_of(name, context, agents.push(agent)) =~= before.drop_last() + Seq::<
            char,
        >::empty() + line + "\n"@);
    } else {
        assert(canvas_of(name, context, agents.push(agent)) =~= before.drop_last() + "\n"@ + line
            + "\n"@);
    }
}

/// The system prompt of an agent ends with where to work. Before that stands what was
/// given, without the white space around it, and a blank line, where that says anything.
pub proof fn system_prompt_ends_with_the_context(base: Option<Seq<char>>, context: Seq<char>)
    ensures
        ({
            let instruction = "Primary working context: "@ + context
                + ". Treat that directory as the project root and follow its repository instructions."@;
            system_prompt_of(base, context) == if base is Some && trimmed(base->0).len() > 0 {
                trimmed(base->0) + "\n\n"@ + instruction
            } else {
                instruction
            }
        }),
{
}

/// A context that is not there, or is no directory, is a wrong usage: what was looked for
/// is named, with why it was not found, or what was found instead.
pub proof fn wrong_contexts_are_named<P>(
    expanded: Seq<char>,
    error: Seq<char>,
    path: P,
    shown: Seq<char>,
)
    ensures
        directory_of::<P>(expanded, Err(error)) == Err::<P, CliFault>(
            CliFault::Usage("invalid context directory "@ + expanded + ": "@ + error),
        ),
        directory_of(expanded, Ok((path, shown, false))) == Err::<P, CliFault>(
            CliFault::Usage("context must be a directory: "@ + shown),
        ),
        directory_of(expanded, Ok((path, shown, true))) == Ok::<P, CliFault>(path),
{
}

/// What a command comes to is seen as it is, and so are the agents that it names and what
/// was found of its context.
pub proof fn decisions_are_seen_as_they_are<P>(
    decision: Decision,
    decided: Result<Decision, CliError>,
    agents: Vec<AgentSpec>,
    found: Result<Found<P>, String>,
)
    ensures
        match decision {
            Decision::Show(value) => decision@ == DecisionView::Show(value@),
            Decision::Send(request) => decision@ == DecisionView::Send(request@),
            Decision::Provision(plan) => decision@ == DecisionView::Provision(plan@),
        },
        match decided {
            Ok(decision) => decision_view(decided) == Ok::<DecisionView, CliFault>(decision@),
            Err(error) => decision_view(decided) == Err::<DecisionView, CliFault>(error@),
        },
        agent_views(agents@).len() == agents@.len(),
        forall|i: int|
            0 <= i < agents@.len() ==> {
                &&& (#[trigger] agent_views(agents@)[i]).name == agents@[i].name@
                &&& agent_views(agents@)[i].command == agents@[i].command@
            },
        match found {
            Ok(found_there) => found_view(found) == Ok::<(P, Seq<char>, bool), Seq<char>>(
                (found_there.path, found_there.shown@, found_there.is_dir),
            ),
            Err(error) => found_view(found) == Err::<(P, Seq<char>, bool), Seq<char>>(error@),
        },
{
}

/// A command comes to what it says: what is sent for an approved command to create an agent
/// says all that the command says.
pub proof fn dispatched_creates_say_all(
    command: ManagedAgentsCmd,
    checked: Result<(), CliError>,
    r: Result<Decision, CliError>,
)
    requires
        command is Create,
        call_ensures(dispatch, (command, checked), r),
    ensures
        command->Create_approve ==> (r matches Ok(Decision::Send(request)) && request.method
            == Method::Post && request.route@ == "v1/managed-agents"@ && request.body is Some
            && says_all_of_create(request.body->0@, command)),
        !command->Create_approve ==> (r matches Ok(Decision::Show(shown)) && shown@.field(
            "target"@,
        ) is Some && says_all_of_create(shown@.field("target"@)->0, command)),
{
    create_says_all(command, checked);
}

/// A command about one agent comes to what it says, of that agent.
pub proof fn dispatched_agent_commands_ask_what_they_say(
    command: ManagedAgentsCmd,
    checked: Result<(), CliError>,
    r: Result<Decision, CliError>,
)
    requires
        call_ensures(dispatch, (command, checked), r),
        checked is Ok,
    ensures
        match command {
            ManagedAgentsCmd::Start { pubkey, approve } => approve ==> (r matches Ok(
                Decision::Send(request),
            ) && request.method == Method::Post && request.route@ == "v1/managed-agents/"@ + pubkey@
                + "/start"@),
            ManagedAgentsCmd::Stop { pubkey, approve } => approve ==> (r matches Ok(
                Decision::Send(request),
            ) && request.method == Method::Post && request.route@ == "v1/managed-agents/"@ + pubkey@
                + "/stop"@),
            ManagedAgentsCmd::Restart { pubkey, approve } => approve ==> (r matches Ok(
                Decision::Send(request),
            ) && request.method == Method::Post && request.route@ == "v1/managed-agents/"@ + pubkey@
                + "/restart"@),
            ManagedAgentsCmd::Delete { pubkey, approve } => approve ==> (r matches Ok(
                Decision::Send(request),
            ) && request.method == Method::Delete && request.route@ == "v1/managed-agents/"@
                + pubkey@),
            ManagedAgentsCmd::Status => r matches Ok(Decision::Send(request)) && request.method
                == Method::Get && request.route@ == "v1/status"@,
            ManagedAgentsCmd::List => r matches Ok(Decision::Send(request)) && request.method
                == Method::Get && request.route@ == "v1/managed-agents"@,
            _ => true,
        },
{
    agent_commands_ask_what_they_say(command, checked);
    reading_commands_ask_what_they_say(checked);
}

/// A channel is provisioned with everything that the command says.
pub proof fn dispatched_provisions_plan_all(
    command: ManagedAgentsCmd,
    checked: Result<(), CliError>,
    r: Result<Decision, CliError>,
)
    requires
        command is ProvisionChannel,
        command->ProvisionChannel_approve,
        call_ensures(dispatch, (command, checked), r),
    ensures
        match specs_of(texts(command->ProvisionChannel_agents@)) {
            Ok(agents) => r matches Ok(Decision::Provision(plan)) && plans_all(
                plan@,
                command,
                agents,
            ),
            Err(fault) => r is Err && r->Err_0@ == fault,
        },
{
    provision_says_all(command, checked);
}

} // verus!
