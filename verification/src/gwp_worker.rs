//! The GWP/0 worker: one process, one agent, driven over newline-delimited JSON
//! frames, as a machine that says what to do next and is told what happened.
//!
//! Only GWP frames are written. `ready` follows `hello` at once: the gateway's
//! handshake window is far shorter than the cold start of an agent, so the agent is
//! spawned for the first turn instead. It is kept for the turns that follow.
use vstd::prelude::*;
use vstd::utf8::encode_utf8;

use crate::framing::frame_line;
use crate::framing::json_line;
use crate::ids::hex_bytes;
use crate::ids::hex_of_len;
use crate::ids::hyphenated_uuid;
use crate::ids::nibble;
use crate::ids::public_key_from_hex;
use crate::ids::random_uuid;
use crate::ids::uuid_text;
use crate::json::decode;
use crate::json::decoded;
use crate::json::json_parsed;
use crate::json::Json;
use crate::json::JsonTree;
use crate::text::cat2;
use crate::text::cat3;
use crate::text::opt_str;
use crate::text::opt_text;
use crate::text::str_debug;
use crate::text::debug_text;

verus! {

/// How many agents the pool of a worker has: running several at once is up to the
/// gateway.
pub const POOL_AGENTS: usize = 1;

/// What the worker waits for.
#[derive(Debug, PartialEq, Eq, Clone, Copy, Structural)]
pub enum WorkerPhase {
    /// The first line, which greets it.
    Hello,
    /// A line.
    Idle,
    /// Whether the payload of a turn is a batch.
    Decoding,
    /// Whether an agent could be spawned.
    Spawning,
    /// How the agent ended the turn.
    Running,
    Ended,
}

/// How the agent ended a turn. What the agent says of it is given as text.
#[derive(Debug, PartialEq)]
pub enum PromptOutcome {
    /// It stopped for the given reason.
    Stopped(String),
    Error(String),
    AgentExited,
    /// The given limit was reached.
    Timeout(String),
    Cancelled,
    /// It was still busy when the given grace period after a cancel was over.
    CancelDrainTimeout(String),
}

/// What happened.
#[derive(Debug, PartialEq)]
pub enum WorkerEvent {
    Line(String),
    /// There are no more lines.
    Closed,
    /// The payload was decoded, or why not.
    Decoded(Result<(), String>),
    /// An agent was spawned, or why not.
    Spawned(Result<(), String>),
    Finished(PromptOutcome),
    /// The agent's task ended without a result.
    NoResult,
}

/// What to do next.
#[derive(Debug, PartialEq)]
pub enum WorkerTask {
    /// Read a line.
    Read,
    /// Decode the payload of a turn.
    Decode(String),
    /// Start a pool of so many agents, and take one from it.
    Spawn(usize),
    /// Run the batch of the turn of that id on the agent.
    Run(String),
    /// Leave, with an error where something went wrong. An agent that is still there
    /// is shut down first where `shutdown` says so.
    Exit { error: Option<String>, shutdown: bool },
}

/// What to write, if anything, and what to do after that.
#[derive(Debug, PartialEq)]
pub struct WorkerStep {
    pub write: Option<Vec<u8>>,
    pub task: WorkerTask,
}

/// What a [`PromptOutcome`] says.
pub enum TurnEnd {
    Stopped(Seq<char>),
    Error(Seq<char>),
    AgentExited,
    Timeout(Seq<char>),
    Cancelled,
    CancelDrainTimeout(Seq<char>),
}

impl View for PromptOutcome {
    type V = TurnEnd;

    open spec fn view(&self) -> TurnEnd {
        match self {
            PromptOutcome::Stopped(stop) => TurnEnd::Stopped(stop@),
            PromptOutcome::Error(error) => TurnEnd::Error(error@),
            PromptOutcome::AgentExited => TurnEnd::AgentExited,
            PromptOutcome::Timeout(kind) => TurnEnd::Timeout(kind@),
            PromptOutcome::Cancelled => TurnEnd::Cancelled,
            PromptOutcome::CancelDrainTimeout(grace) => TurnEnd::CancelDrainTimeout(grace@),
        }
    }
}

/// What a [`WorkerEvent`] says. The error of a failure is its text.
pub enum WorkerNews {
    Line(Seq<char>),
    Closed,
    Decoded(Option<Seq<char>>),
    Spawned(Option<Seq<char>>),
    Finished(TurnEnd),
    NoResult,
}

/// The error of a result, if it is one.
pub open spec fn error_text(result: Result<(), String>) -> Option<Seq<char>> {
    match result {
        Ok(_) => None,
        Err(error) => Some(error@),
    }
}

impl View for WorkerEvent {
    type V = WorkerNews;

    open spec fn view(&self) -> WorkerNews {
        match self {
            WorkerEvent::Line(line) => WorkerNews::Line(line@),
            WorkerEvent::Closed => WorkerNews::Closed,
            WorkerEvent::Decoded(result) => WorkerNews::Decoded(error_text(*result)),
            WorkerEvent::Spawned(result) => WorkerNews::Spawned(error_text(*result)),
            WorkerEvent::Finished(outcome) => WorkerNews::Finished(outcome@),
            WorkerEvent::NoResult => WorkerNews::NoResult,
        }
    }
}

/// What a [`WorkerTask`] says.
pub enum Job {
    Read,
    Decode(Seq<char>),
    Spawn(usize),
    Run(Seq<char>),
    Exit { error: Option<Seq<char>>, shutdown: bool },
}

impl View for WorkerTask {
    type V = Job;

    open spec fn view(&self) -> Job {
        match self {
            WorkerTask::Read => Job::Read,
            WorkerTask::Decode(task) => Job::Decode(task@),
            WorkerTask::Spawn(agents) => Job::Spawn(*agents),
            WorkerTask::Run(turn_id) => Job::Run(turn_id@),
            WorkerTask::Exit { error, shutdown } => Job::Exit {
                error: opt_text(*error),
                shutdown: *shutdown,
            },
        }
    }
}

/// What a [`WorkerStep`] says: the frame that it writes, and what comes then.
pub struct WorkerMove {
    pub frame: Option<JsonTree>,
    pub job: Job,
}

impl WorkerStep {
    /// The step writes the frame of a move, and no other byte, and goes on as it does.
    pub open spec fn makes(self, step: WorkerMove) -> bool {
        &&& match (self.write, step.frame) {
            (Some(bytes), Some(frame)) => bytes@ == json_line(frame),
            (None, None) => true,
            _ => false,
        }
        &&& self.task@ == step.job
    }
}

/// What a worker has come to.
pub struct WorkerState {
    /// The name of what runs the agent.
    pub runtime: Seq<char>,
    pub session: Seq<char>,
    /// The turn that was asked for last.
    pub turn_id: Seq<char>,
    /// There is an agent.
    pub agent: bool,
    pub phase: WorkerPhase,
}

pub open spec fn ready_frame(runtime: Seq<char>, session: Seq<char>) -> JsonTree {
    JsonTree::object().with("type"@, JsonTree::Str("ready"@)).with(
        "protocol"@,
        JsonTree::Str("gwp/0"@),
    ).with("runtime"@, JsonTree::Str(runtime)).with("session"@, JsonTree::Str(session))
}

pub open spec fn result_frame(
    turn_id: Seq<char>,
    stop: Seq<char>,
    session: Seq<char>,
) -> JsonTree {
    JsonTree::object().with("type"@, JsonTree::Str("result"@)).with(
        "turn_id"@,
        JsonTree::Str(turn_id),
    ).with("summary"@, JsonTree::Str("stop_reason="@ + stop)).with(
        "structured"@,
        JsonTree::object().with("stopReason"@, JsonTree::Str(stop)),
    ).with("session"@, JsonTree::Str(session))
}

/// A turn that failed is never to be retried: its effects may have happened.
pub open spec fn error_frame(turn_id: Seq<char>, message: Seq<char>) -> JsonTree {
    JsonTree::object().with("type"@, JsonTree::Str("error"@)).with(
        "turn_id"@,
        JsonTree::Str(turn_id),
    ).with("message"@, JsonTree::Str(message)).with("retryable"@, JsonTree::Bool(false))
}

pub open spec fn canceled_frame(turn_id: Seq<char>) -> JsonTree {
    JsonTree::object().with("type"@, JsonTree::Str("canceled"@)).with(
        "turn_id"@,
        JsonTree::Str(turn_id),
    )
}

/// The frame that answers a turn.
pub open spec fn reply_frame(turn_id: Seq<char>, session: Seq<char>, end: TurnEnd) -> JsonTree {
    match end {
        TurnEnd::Stopped(stop) => result_frame(turn_id, stop, session),
        TurnEnd::Error(error) => error_frame(turn_id, "acp error: "@ + error),
        TurnEnd::AgentExited => error_frame(turn_id, "acp agent process exited"@),
        TurnEnd::Timeout(kind) => error_frame(turn_id, "turn timed out: "@ + kind),
        TurnEnd::Cancelled => canceled_frame(turn_id),
        TurnEnd::CancelDrainTimeout(grace) => error_frame(
            turn_id,
            "cancel drain exceeded "@ + grace + "; agent poisoned"@,
        ),
    }
}

/// An agent that ended a turn so cannot run another.
pub open spec fn agent_unusable(end: TurnEnd) -> bool {
    end is AgentExited || end is CancelDrainTimeout
}

/// The text of a field, empty where there is none.
pub open spec fn text_or_empty(frame: JsonTree, name: Seq<char>) -> Seq<char> {
    match frame.field_text(name) {
        Some(text) => text,
        None => Seq::empty(),
    }
}

pub open spec fn greets(frame: JsonTree) -> bool {
    &&& frame.field_text("type"@) == Some("hello"@)
    &&& frame.field_text("protocol"@) == Some("gwp/0"@)
}

/// How an optional text is shown for debugging.
pub open spec fn shown(text: Option<Seq<char>>) -> Seq<char> {
    match text {
        Some(text) => "Some("@ + str_debug(text) + ")"@,
        None => "None"@,
    }
}

/// News that answers what the worker waits for.
pub open spec fn worker_answers(phase: WorkerPhase, news: WorkerNews) -> bool {
    match phase {
        WorkerPhase::Hello | WorkerPhase::Idle => news is Line || news is Closed,
        WorkerPhase::Decoding => news is Decoded,
        WorkerPhase::Spawning => news is Spawned,
        WorkerPhase::Running => news is Finished || news is NoResult,
        WorkerPhase::Ended => false,
    }
}

impl WorkerState {
    pub open spec fn go(self, phase: WorkerPhase, frame: Option<JsonTree>, job: Job) -> (
        WorkerState,
        WorkerMove,
    ) {
        (WorkerState { phase, ..self }, WorkerMove { frame, job })
    }

    pub open spec fn fail(self, error: Seq<char>) -> (WorkerState, WorkerMove) {
        self.go(WorkerPhase::Ended, None, Job::Exit { error: Some(error), shutdown: false })
    }

    /// Writes a frame, and waits for a line.
    pub open spec fn say(self, frame: JsonTree) -> (WorkerState, WorkerMove) {
        self.go(WorkerPhase::Idle, Some(frame), Job::Read)
    }

    /// The worker after its first line, given what reading the line as JSON gave.
    pub open spec fn greeted(self, parsed: Result<JsonTree, Seq<char>>) -> (
        WorkerState,
        WorkerMove,
    ) {
        match parsed {
            Err(error) => self.fail(error),
            Ok(frame) => if greets(frame) {
                self.say(ready_frame(self.runtime, self.session))
            } else {
                self.fail("first frame was not a gwp/0 hello"@)
            },
        }
    }

    /// The worker after a later line, given what reading the line as JSON gave.
    pub open spec fn asked(self, parsed: Result<JsonTree, Seq<char>>) -> (
        WorkerState,
        WorkerMove,
    ) {
        match parsed {
            Err(error) => self.fail(error),
            Ok(frame) => {
                let kind = frame.field_text("type"@);
                if kind == Some("turn"@) {
                    WorkerState { turn_id: text_or_empty(frame, "turn_id"@), ..self }.go(
                        WorkerPhase::Decoding,
                        None,
                        Job::Decode(text_or_empty(frame, "task"@)),
                    )
                } else if kind == Some("cancel"@) {
                    self.say(canceled_frame(text_or_empty(frame, "turn_id"@)))
                } else {
                    self.fail("unexpected frame type "@ + shown(kind))
                }
            },
        }
    }

    /// The worker after some news, and what it then does.
    pub open spec fn next(self, news: WorkerNews) -> (WorkerState, WorkerMove) {
        match (self.phase, news) {
            (WorkerPhase::Hello, WorkerNews::Line(line)) => self.greeted(
                json_parsed(encode_utf8(line)),
            ),
            (WorkerPhase::Hello, _) => self.fail("stdin closed before hello"@),
            (WorkerPhase::Idle, WorkerNews::Line(line)) => self.asked(
                json_parsed(encode_utf8(line)),
            ),
            (WorkerPhase::Idle, _) => self.go(
                WorkerPhase::Ended,
                None,
                Job::Exit { error: None, shutdown: self.agent },
            ),
            (WorkerPhase::Decoding, WorkerNews::Decoded(Some(reason))) => self.say(
                error_frame(self.turn_id, "bad turn payload: "@ + reason),
            ),
            (WorkerPhase::Decoding, _) => if self.agent {
                self.go(WorkerPhase::Running, None, Job::Run(self.turn_id))
            } else {
                self.go(WorkerPhase::Spawning, None, Job::Spawn(POOL_AGENTS))
            },
            (WorkerPhase::Spawning, WorkerNews::Spawned(Some(error))) => self.say(
                error_frame(self.turn_id, "acp agent spawn failed: "@ + error),
            ),
            (WorkerPhase::Spawning, _) => WorkerState { agent: true, ..self }.go(
                WorkerPhase::Running,
                None,
                Job::Run(self.turn_id),
            ),
            (_, WorkerNews::Finished(end)) => {
                let frame = reply_frame(self.turn_id, self.session, end);
                if agent_unusable(end) {
                    WorkerState { agent: false, ..self }.go(
                        WorkerPhase::Ended,
                        Some(frame),
                        Job::Exit {
                            error: Some(
                                "acp agent no longer usable; exiting for gateway respawn"@,
                            ),
                            shutdown: false,
                        },
                    )
                } else {
                    self.say(frame)
                }
            },
            _ => self.fail("prompt result channel closed"@),
        }
    }
}

/// A worker.
pub struct Worker {
    runtime: String,
    session: String,
    turn_id: String,
    agent: bool,
    phase: WorkerPhase,
}

impl View for Worker {
    type V = WorkerState;

    closed spec fn view(&self) -> WorkerState {
        WorkerState {
            runtime: self.runtime@,
            session: self.session@,
            turn_id: self.turn_id@,
            agent: self.agent,
            phase: self.phase,
        }
    }
}

/// A worker that has read nothing yet.
pub open spec fn fresh_worker(runtime: Seq<char>, session: Seq<char>) -> WorkerState {
    WorkerState {
        runtime,
        session,
        turn_id: Seq::empty(),
        agent: false,
        phase: WorkerPhase::Hello,
    }
}

/// The text of a field, empty where there is none.
fn field_or_empty(frame: &Json, name: &str) -> (r: String)
    ensures
        r@ == text_or_empty(frame@, name@),
{
    match frame.get_str(name) {
        Some(text) => text.to_owned(),
        None => {
            let r = String::new();
            assert(r@ =~= Seq::<char>::empty());
            r
        },
    }
}

fn error_json(turn_id: &str, message: &str) -> (r: Json)
    ensures
        r@ == error_frame(turn_id@, message@),
{
    Json::object().with("type", Json::text("error")).with("turn_id", Json::text(turn_id)).with(
        "message",
        Json::text(message),
    ).with("retryable", Json::Bool(false))
}

fn canceled_json(turn_id: &str) -> (r: Json)
    ensures
        r@ == canceled_frame(turn_id@),
{
    Json::object().with("type", Json::text("canceled")).with("turn_id", Json::text(turn_id))
}

/// The frame that answers a turn.
fn reply_json(turn_id: &str, session: &str, outcome: &PromptOutcome) -> (r: Json)
    ensures
        r@ == reply_frame(turn_id@, session@, outcome@),
{
    match outcome {
        PromptOutcome::Stopped(stop) => Json::object().with("type", Json::text("result")).with(
            "turn_id",
            Json::text(turn_id),
        ).with("summary", Json::text(cat2("stop_reason=", stop.as_str()).as_str())).with(
            "structured",
            Json::object().with("stopReason", Json::text(stop.as_str())),
        ).with("session", Json::text(session)),
        PromptOutcome::Error(error) => error_json(
            turn_id,
            cat2("acp error: ", error.as_str()).as_str(),
        ),
        PromptOutcome::AgentExited => error_json(turn_id, "acp agent process exited"),
        PromptOutcome::Timeout(kind) => error_json(
            turn_id,
            cat2("turn timed out: ", kind.as_str()).as_str(),
        ),
        PromptOutcome::Cancelled => canceled_json(turn_id),
        PromptOutcome::CancelDrainTimeout(grace) => error_json(
            turn_id,
            cat3("cancel drain exceeded ", grace.as_str(), "; agent poisoned").as_str(),
        ),
    }
}

/// How the type of a frame is shown for debugging.
fn shown_type(kind: Option<&str>) -> (r: String)
    ensures
        r@ == shown(opt_str(kind)),
{
    match kind {
        Some(kind) => cat3("Some(", debug_text(kind).as_str(), ")"),
        None => "None".to_owned(),
    }
}

impl Worker {
    /// A worker with a session of its own. The first thing that it does is read a
    /// line.
    pub fn new(runtime: String) -> (r: Worker)
        ensures
            exists|id: u128|
                nibble(id, 12) == 4 && 8 <= nibble(id, 16) < 12 && r@ == fresh_worker(
                    runtime@,
                    #[trigger] hyphenated_uuid(id),
                ),
    {
        let id: u128 = random_uuid();
        Worker::with_session(runtime, uuid_text(id))
    }

    /// A worker with the given session.
    pub fn with_session(runtime: String, session: String) -> (r: Worker)
        ensures
            r@ == fresh_worker(runtime@, session@),
    {
        let turn_id = String::new();
        assert(turn_id@ =~= Seq::<char>::empty());
        Worker { runtime, session, turn_id, agent: false, phase: WorkerPhase::Hello }
    }

    /// Whether an event answers what the worker waits for.
    pub fn awaits(&self, event: &WorkerEvent) -> (r: bool)
        ensures
            r == worker_answers(self@.phase, event@),
    {
        match self.phase {
            WorkerPhase::Hello | WorkerPhase::Idle => matches!(
                event,
                WorkerEvent::Line(_) | WorkerEvent::Closed
            ),
            WorkerPhase::Decoding => matches!(event, WorkerEvent::Decoded(_)),
            WorkerPhase::Spawning => matches!(event, WorkerEvent::Spawned(_)),
            WorkerPhase::Running => matches!(
                event,
                WorkerEvent::Finished(_) | WorkerEvent::NoResult
            ),
            WorkerPhase::Ended => false,
        }
    }

    fn go(&mut self, phase: WorkerPhase, task: WorkerTask) -> (r: WorkerStep)
        ensures
            final(self)@ == old(self)@.go(phase, None, task@).0,
            r.makes(old(self)@.go(phase, None, task@).1),
    {
        self.phase = phase;
        WorkerStep { write: None, task }
    }

    fn fail(&mut self, error: String) -> (r: WorkerStep)
        ensures
            final(self)@ == old(self)@.fail(error@).0,
            r.makes(old(self)@.fail(error@).1),
    {
        self.go(WorkerPhase::Ended, WorkerTask::Exit { error: Some(error), shutdown: false })
    }

    fn say(&mut self, frame: &Json) -> (r: WorkerStep)
        ensures
            final(self)@ == old(self)@.say(frame@).0,
            r.makes(old(self)@.say(frame@).1),
    {
        self.phase = WorkerPhase::Idle;
        WorkerStep { write: Some(frame_line(frame)), task: WorkerTask::Read }
    }

    /// Goes on after the first line, given what reading the line as JSON gave.
    pub fn greeted(&mut self, parsed: Result<Json, String>) -> (r: WorkerStep)
        requires
            old(self)@.phase is Hello,
        ensures
            final(self)@ == old(self)@.greeted(decoded(parsed)).0,
            r.makes(old(self)@.greeted(decoded(parsed)).1),
    {
        match parsed {
            Err(error) => self.fail(error),
            Ok(frame) => {
                if !frame.field_is("type", "hello") || !frame.field_is("protocol", "gwp/0") {
                    return self.fail("first frame was not a gwp/0 hello".to_owned());
                }
                let ready = Json::object().with("type", Json::text("ready")).with(
                    "protocol",
                    Json::text("gwp/0"),
                ).with("runtime", Json::text(self.runtime.as_str())).with(
                    "session",
                    Json::text(self.session.as_str()),
                );
                self.say(&ready)
            },
        }
    }

    /// Goes on after a later line, given what reading the line as JSON gave.
    pub fn asked(&mut self, parsed: Result<Json, String>) -> (r: WorkerStep)
        requires
            old(self)@.phase is Idle,
        ensures
            final(self)@ == old(self)@.asked(decoded(parsed)).0,
            r.makes(old(self)@.asked(decoded(parsed)).1),
    {
        match parsed {
            Err(error) => self.fail(error),
            Ok(frame) => {
                if frame.field_is("type", "turn") {
                    self.turn_id = field_or_empty(&frame, "turn_id");
                    let task = field_or_empty(&frame, "task");
                    self.go(WorkerPhase::Decoding, WorkerTask::Decode(task))
                } else if frame.field_is("type", "cancel") {
                    let turn_id = field_or_empty(&frame, "turn_id");
                    self.say(&canceled_json(turn_id.as_str()))
                } else {
                    let kind = shown_type(frame.get_str("type"));
                    self.fail(cat2("unexpected frame type ", kind.as_str()))
                }
            },
        }
    }

    fn finished(&mut self, outcome: &PromptOutcome) -> (r: WorkerStep)
        requires
            old(self)@.phase is Running,
        ensures
            final(self)@ == old(self)@.next(WorkerNews::Finished(outcome@)).0,
            r.makes(old(self)@.next(WorkerNews::Finished(outcome@)).1),
    {
        let frame = reply_json(self.turn_id.as_str(), self.session.as_str(), outcome);
        let unusable = matches!(
            outcome,
            PromptOutcome::AgentExited | PromptOutcome::CancelDrainTimeout(_)
        );
        if unusable {
            self.agent = false;
            self.phase = WorkerPhase::Ended;
            WorkerStep {
                write: Some(frame_line(&frame)),
                task: WorkerTask::Exit {
                    error: Some(
                        "acp agent no longer usable; exiting for gateway respawn".to_owned(),
                    ),
                    shutdown: false,
                },
            }
        } else {
            self.say(&frame)
        }
    }

    /// Goes on after what happened, and says what to write and what to do then.
    pub fn step(&mut self, event: WorkerEvent) -> (r: WorkerStep)
        requires
            worker_answers(old(self)@.phase, event@),
        ensures
            final(self)@ == old(self)@.next(event@).0,
            r.makes(old(self)@.next(event@).1),
    {
        match (self.phase, event) {
            (WorkerPhase::Hello, WorkerEvent::Line(line)) => self.greeted(
                decode(line.as_str().as_bytes()),
            ),
            (WorkerPhase::Hello, _) => self.fail("stdin closed before hello".to_owned()),
            (WorkerPhase::Idle, WorkerEvent::Line(line)) => self.asked(
                decode(line.as_str().as_bytes()),
            ),
            (WorkerPhase::Idle, _) => {
                let shutdown = self.agent;
                self.go(WorkerPhase::Ended, WorkerTask::Exit { error: None, shutdown })
            },
            (WorkerPhase::Decoding, WorkerEvent::Decoded(Err(reason))) => {
                let message = cat2("bad turn payload: ", reason.as_str());
                let frame = error_json(self.turn_id.as_str(), message.as_str());
                self.say(&frame)
            },
            (WorkerPhase::Decoding, _) => {
                if self.agent {
                    let turn_id = self.turn_id.clone();
                    self.go(WorkerPhase::Running, WorkerTask::Run(turn_id))
                } else {
                    self.go(WorkerPhase::Spawning, WorkerTask::Spawn(POOL_AGENTS))
                }
            },
            (WorkerPhase::Spawning, WorkerEvent::Spawned(Err(error))) => {
                let message = cat2("acp agent spawn failed: ", error.as_str());
                let frame = error_json(self.turn_id.as_str(), message.as_str());
                self.say(&frame)
            },
            (WorkerPhase::Spawning, _) => {
                self.agent = true;
                let turn_id = self.turn_id.clone();
                self.go(WorkerPhase::Running, WorkerTask::Run(turn_id))
            },
            (_, WorkerEvent::Finished(outcome)) => self.finished(&outcome),
            _ => self.fail("prompt result channel closed".to_owned()),
        }
    }
}

/// The base prompt of an agent: none where it is switched off, else what the
/// configuration gives, else the standing one.
pub fn base_prompt(switched_off: bool, content: Option<String>, standing: &str) -> (r: Option<
    String,
>)
    ensures
        opt_text(r) == if switched_off {
            None
        } else if content is Some {
            opt_text(content)
        } else {
            Some(standing@)
        },
{
    if switched_off {
        None
    } else {
        match content {
            Some(content) => Some(content),
            None => Some(standing.to_owned()),
        }
    }
}

/// The public key of the agent's owner, where the configuration gives one that can
/// be read.
pub fn owner_pubkey(owner: Option<&str>) -> (r: Option<[u8; 32]>)
    ensures
        r is Some <==> owner is Some && hex_of_len(owner->0@, 32),
        r matches Some(key) ==> key@ == hex_bytes(owner->0@),
{
    match owner {
        Some(hex) => public_key_from_hex(hex),
        None => None,
    }
}

/// The directory that an agent works in: that of the process, and the root where that
/// is not known.
pub fn working_directory(current: Option<String>) -> (r: String)
    ensures
        r@ == match opt_text(current) {
            Some(dir) => dir,
            None => "/"@,
        },
{
    match current {
        Some(dir) => dir,
        None => "/".to_owned(),
    }
}

/// Takes the first thing that is there out of its slot.
pub fn take_first<T>(slots: &mut Vec<Option<T>>) -> (r: Option<T>)
    ensures
        final(slots)@.len() == old(slots)@.len(),
        match r {
            Some(found) => exists|i: int|
                0 <= i < old(slots)@.len() && #[trigger] old(slots)@[i] == Some(found)
                    && final(slots)@ == old(slots)@.update(i, None) && forall|j: int|
                    0 <= j < i ==> #[trigger] old(slots)@[j] is None,
            None => final(slots)@ == old(slots)@ && forall|j: int|
                0 <= j < old(slots)@.len() ==> #[trigger] old(slots)@[j] is None,
        },
{
    let mut i: usize = 0;
    let ghost before = slots@;
    while i < slots.len()
        invariant
            i <= slots@.len(),
            slots@ == before,
            before == old(slots)@,
            forall|j: int| 0 <= j < i ==> #[trigger] before[j] is None,
        decreases slots@.len() - i,
    {
        if slots[i].is_some() {
            let mut found: Option<T> = None;
            std::mem::swap(&mut found, &mut slots[i]);
            assert(slots@ =~= before.update(i as int, None));
            assert(before[i as int] == found);
            return found;
        }
        i += 1;
    }
    None
}

/// What a worker does is seen as it is: it writes the line of a frame where it writes one,
/// and does just the task that goes with it. So is what happens to it.
pub proof fn workers_are_seen_as_they_are(
    step: WorkerStep,
    move_made: WorkerMove,
    event: WorkerEvent,
    outcome: PromptOutcome,
)
    ensures
        step.makes(move_made) <==> {
            &&& step.write is Some <==> move_made.frame is Some
            &&& step.write is Some ==> step.write->0@ == encode_utf8(
                crate::json::json_text(move_made.frame->0),
            ).push(10u8)
            &&& move_made.job == step.task@
        },
        match step.task {
            WorkerTask::Read => step.task@ is Read,
            WorkerTask::Decode(task) => step.task@ == Job::Decode(task@),
            WorkerTask::Spawn(agents) => step.task@ == Job::Spawn(agents),
            WorkerTask::Run(turn_id) => step.task@ == Job::Run(turn_id@),
            WorkerTask::Exit { error, shutdown } => step.task@ == (Job::Exit {
                error: opt_text(error),
                shutdown,
            }),
        },
        match event {
            WorkerEvent::Line(line) => event@ == WorkerNews::Line(line@),
            WorkerEvent::Closed => event@ is Closed,
            WorkerEvent::Decoded(Ok(_)) => event@ == WorkerNews::Decoded(None),
            WorkerEvent::Decoded(Err(error)) => event@ == WorkerNews::Decoded(Some(error@)),
            WorkerEvent::Spawned(Ok(_)) => event@ == WorkerNews::Spawned(None),
            WorkerEvent::Spawned(Err(error)) => event@ == WorkerNews::Spawned(Some(error@)),
            WorkerEvent::Finished(outcome) => event@ == WorkerNews::Finished(outcome@),
            WorkerEvent::NoResult => event@ is NoResult,
        },
        match outcome {
            PromptOutcome::Stopped(stop) => outcome@ == TurnEnd::Stopped(stop@),
            PromptOutcome::Error(error) => outcome@ == TurnEnd::Error(error@),
            PromptOutcome::AgentExited => outcome@ is AgentExited,
            PromptOutcome::Timeout(kind) => outcome@ == TurnEnd::Timeout(kind@),
            PromptOutcome::Cancelled => outcome@ is Cancelled,
            PromptOutcome::CancelDrainTimeout(grace) => outcome@ == TurnEnd::CancelDrainTimeout(
                grace@,
            ),
        },
{
}

/// An agent works where the process does, and in the root where that is not known.
pub proof fn agents_work_where_the_process_does(current: Option<String>, r: String)
    requires
        call_ensures(working_directory, (current,), r),
    ensures
        current is Some ==> r@ == current->0@,
        current is None ==> r@ == "/"@,
{
}

/// An agent has no base prompt where that is switched off, else the one that is given, and
/// the standing one where none is.
pub proof fn base_prompts_are_chosen(
    switched_off: bool,
    content: Option<String>,
    standing: &str,
    r: Option<String>,
)
    requires
        call_ensures(base_prompt, (switched_off, content, standing), r),
    ensures
        r is None <==> switched_off,
        !switched_off && content is Some ==> r->0@ == content->0@,
        !switched_off && content is None ==> r->0@ == standing@,
{
}

/// An owner is known by 64 hexadecimal digits, and has the key that they spell.
pub proof fn owners_are_known_by_their_key(owner: Option<&str>, r: Option<[u8; 32]>)
    requires
        call_ensures(owner_pubkey, (owner,), r),
    ensures
        owner is None ==> r is None,
        owner is Some && hex_of_len(owner->0@, 32) ==> r is Some && r->0@ == hex_bytes(owner->0@),
        owner is Some && !hex_of_len(owner->0@, 32) ==> r is None,
{
}

/// A worker begins with the runtime and the session that it is given, and waits to be
/// greeted.
pub proof fn workers_begin_ungreeted(runtime: String, session: String, r: Worker)
    requires
        call_ensures(Worker::with_session, (runtime, session), r),
    ensures
        r@.runtime == runtime@,
        r@.session == session@,
        !r@.agent,
        r@.phase is Hello,
{
}

/// A step of a worker is the one that its state calls for after what happened.
pub proof fn steps_are_what_the_worker_calls_for(
    worker: &mut Worker,
    event: WorkerEvent,
    r: WorkerStep,
)
    requires
        call_ensures(Worker::step, (worker, event), r),
    ensures
        r.makes(old(worker)@.next(event@).1),
        final(worker)@ == old(worker)@.next(event@).0,
{
}

} // verus!
