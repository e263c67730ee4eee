//! One turn on the shared gateway, as a machine: it says what to do next, and is
//! told what happened.
//!
//! A missing submit acknowledgment is reconciled by lookup only. A completed task
//! whose text was missed is unknown, and is never prompted or published again.
use vstd::prelude::*;
use vstd::string::StringExecFns;
use vstd::utf8::encode_utf8;

use crate::json::number_u64;
use crate::json::u64_number;
use crate::json::Json;
use crate::json::JsonTree;
use crate::outcome::Outcome;
use crate::outcome::TurnOutcome;
use crate::shared_gateway::chunk_of;
use crate::shared_gateway::prompt;
use crate::shared_gateway::publication_notice;
use crate::shared_gateway::submission_id;
use crate::shared_gateway::submission_of;
use crate::shared_gateway::task_id;
use crate::shared_gateway::task_outcome;
use crate::shared_gateway::task_state;
use crate::shared_gateway::terminal;
use crate::shared_gateway::text_chunk;
use crate::shared_gateway::FlushBatch;
use crate::shared_gateway::MAX_FRAME;
use crate::text::cat2;
use crate::text::cat3;
use crate::text::encode_utf8_adds;
use crate::text::joined;
use crate::text::opt_str;
use crate::text::opt_text;
use crate::text::same_text;
use crate::text::texts;
use crate::wire::ErrorKind;
use crate::wire::Fault;
use crate::wire::WireError;

verus! {

/// How often a turn tries to connect, busy refusals aside.
pub const RECONNECT_ATTEMPTS: u32 = 120;

/// How long to rest before connecting again, in milliseconds.
pub const RECONNECT_REST_MS: u64 = 250;

/// What the turn waits for.
#[derive(Debug, PartialEq, Eq, Clone, Copy, Structural)]
pub enum Phase {
    /// To hear whether the turn's time is over, before it tries to connect.
    Clock { first: bool },
    /// To hear whether the turn is to stop, before it connects.
    Rest,
    Connecting,
    /// The task of the submission.
    LookingUp,
    /// The session of the route.
    ReadingSession,
    /// The acknowledgment of the submission.
    Submitting,
    /// The state of the task.
    ReadingState { submitted_here: bool },
    Attaching { submitted_here: bool, settled: bool },
    /// Control over a task that another connection submitted.
    Reclaiming,
    /// To hear whether the turn is to stop, before it listens.
    CheckingStop { settled: bool },
    /// That the task was told to stop, before the turn listens.
    Stopping,
    /// An event frame, the end of the turn's time, or a sign to stop.
    Listening,
    /// That the task was told to stop while the turn listened.
    StoppingStream,
    /// That a permission request was answered.
    Responding,
    /// That the task was told to stop because the turn's time is over.
    Expiring,
    /// That the task was told to stop because of a request that Buzz cannot answer.
    Declining,
    /// The state of the task after its terminal frame.
    ReadingOutcome,
    Publishing,
    Done,
}

/// What to do next.
#[derive(Debug, PartialEq)]
pub enum Action {
    /// Tell whether the turn's time is over.
    CheckClock,
    /// Rest, and then tell whether the turn is to stop.
    Rest,
    /// Tell whether the turn is to stop.
    ReadStop,
    /// Open a connection to the route.
    Connect,
    /// Send an operation on the connection, and await its reply.
    Request(Json),
    /// Await the next event frame, the end of the turn's time, or a sign to stop.
    Listen,
    /// Publish the reply.
    Publish(String),
    /// The turn is over.
    Finish(TurnOutcome),
}

/// What an [`Action`] says.
pub enum Move {
    CheckClock,
    Rest,
    ReadStop,
    Connect,
    Request(JsonTree),
    Listen,
    Publish(Seq<char>),
    Finish(Outcome),
}

impl View for Action {
    type V = Move;

    open spec fn view(&self) -> Move {
        match self {
            Action::CheckClock => Move::CheckClock,
            Action::Rest => Move::Rest,
            Action::ReadStop => Move::ReadStop,
            Action::Connect => Move::Connect,
            Action::Request(op) => Move::Request(op@),
            Action::Listen => Move::Listen,
            Action::Publish(reply) => Move::Publish(reply@),
            Action::Finish(outcome) => Move::Finish(outcome@),
        }
    }
}

/// What happened.
#[derive(Debug, PartialEq)]
pub enum Event {
    Clock { expired: bool },
    /// Whether the turn is to stop.
    Stop(bool),
    Connected,
    Reply(Json),
    /// The connection could not be opened, a request failed, or no frame came.
    Failed(WireError),
    Frame(Json),
    /// The turn's time is over.
    Deadline,
    /// The sign to stop changed, and this is whether it now says so.
    StopSignal(bool),
    /// What came of publishing the reply.
    Published(TurnOutcome),
}

/// What an [`Event`] says.
pub enum News {
    Clock { expired: bool },
    Stop(bool),
    Connected,
    Reply(JsonTree),
    Failed(Fault),
    Frame(JsonTree),
    Deadline,
    StopSignal(bool),
    Published(Outcome),
}

impl View for Event {
    type V = News;

    open spec fn view(&self) -> News {
        match self {
            Event::Clock { expired } => News::Clock { expired: *expired },
            Event::Stop(stop) => News::Stop(*stop),
            Event::Connected => News::Connected,
            Event::Reply(result) => News::Reply(result@),
            Event::Failed(error) => News::Failed(error@),
            Event::Frame(frame) => News::Frame(frame@),
            Event::Deadline => News::Deadline,
            Event::StopSignal(stop) => News::StopSignal(*stop),
            Event::Published(outcome) => News::Published(outcome@),
        }
    }
}

/// What a turn has come to.
pub struct TurnState {
    pub submission: Seq<char>,
    pub prompt: Seq<char>,
    /// A submit may have reached the daemon.
    pub may_have_submitted: bool,
    pub known_task: Option<Seq<char>>,
    /// The sequence number of the last event that was heard.
    pub cursor: u64,
    /// The reply as far as it was heard.
    pub reply: Seq<char>,
    pub attempts: u32,
    pub phase: Phase,
}

/// An event that answers what the turn waits for.
pub open spec fn answers(phase: Phase, news: News) -> bool {
    match phase {
        Phase::Clock { .. } => news is Clock,
        Phase::Rest | Phase::CheckingStop { .. } => news is Stop,
        Phase::Connecting => news is Connected || news is Failed,
        Phase::Listening => news is Frame || news is Failed || news is Deadline
            || news is StopSignal,
        Phase::Publishing => news is Published,
        Phase::Done => false,
        _ => news is Reply || news is Failed,
    }
}

pub open spec fn plain_op(op: Seq<char>) -> JsonTree {
    JsonTree::object().with("op"@, JsonTree::Str(op))
}

pub open spec fn lookup_op(submission: Seq<char>) -> JsonTree {
    plain_op("submission"@).with("submission_id"@, JsonTree::Str(submission))
}

pub open spec fn session_op() -> JsonTree {
    plain_op("route_session"@)
}

pub open spec fn submit_op(
    submission: Seq<char>,
    session: Option<Seq<char>>,
    prompt: Seq<char>,
) -> JsonTree {
    plain_op("submit"@).with("submission_id"@, JsonTree::Str(submission)).with(
        "session_id"@,
        JsonTree::optional(session),
    ).with("prompt"@, JsonTree::Str(prompt))
}

/// An operation on a task: `task`, `reclaim` or `stop`.
pub open spec fn task_op(op: Seq<char>, task: Seq<char>) -> JsonTree {
    plain_op(op).with("task_id"@, JsonTree::Str(task))
}

pub open spec fn attach_op(task: Seq<char>, cursor: u64) -> JsonTree {
    task_op("attach"@, task).with("after_sequence"@, JsonTree::Number(u64_number(cursor)))
}

/// The answer to a permission request: nobody is there to grant it.
pub open spec fn cancel_op(task: Seq<char>, request: Seq<char>) -> JsonTree {
    task_op("respond"@, task).with("request_id"@, JsonTree::Str(request)).with(
        "response"@,
        JsonTree::object().with(
            "outcome"@,
            JsonTree::object().with("outcome"@, JsonTree::Str("cancelled"@)),
        ),
    )
}

impl TurnState {
    /// The task, once it is known.
    pub open spec fn task(self) -> Seq<char> {
        self.known_task->0
    }

    pub open spec fn at(self, phase: Phase) -> TurnState {
        TurnState { phase, ..self }
    }

    pub open spec fn ask(self, phase: Phase, op: JsonTree) -> (TurnState, Move) {
        (self.at(phase), Move::Request(op))
    }

    pub open spec fn finish(self, outcome: Outcome) -> (TurnState, Move) {
        (self.at(Phase::Done), Move::Finish(outcome))
    }

    /// Back to where the turn tries to connect.
    pub open spec fn retry(self) -> (TurnState, Move) {
        (self.at(Phase::Clock { first: false }), Move::CheckClock)
    }

    pub open spec fn listen(self) -> (TurnState, Move) {
        (self.at(Phase::Listening), Move::Listen)
    }

    /// The stream does not go on where the turn has left it.
    pub open spec fn gap(self) -> (TurnState, Move) {
        self.finish(
            Outcome::Unknown(
                "shared stream gap for task "@ + self.task()
                    + "; inspect task before re-asking"@,
            ),
        )
    }

    pub open spec fn unavailable(self) -> (TurnState, Move) {
        self.finish(
            Outcome::Unknown(
                "shared gateway unavailable; reconcile submission "@ + self.submission
                    + " before re-asking"@,
            ),
        )
    }

    /// The submission has a task.
    pub open spec fn resolved(self, task: Seq<char>, submitted_here: bool) -> (TurnState, Move) {
        if self.known_task is Some && self.known_task != Some(task) {
            self.finish(Outcome::Unknown("submission resolved to a different task"@))
        } else {
            TurnState { known_task: Some(task), ..self }.ask(
                Phase::ReadingState { submitted_here },
                task_op("task"@, task),
            )
        }
    }

    pub open spec fn looked_up(self, found: JsonTree) -> (TurnState, Move) {
        match found.field_text("task_id"@) {
            Some(task) => self.resolved(task, false),
            None => if self.may_have_submitted {
                self.finish(
                    Outcome::Unknown(
                        "submission "@ + self.submission
                            + " was not found after an uncertain submit; inspect gateway journal"@,
                    ),
                )
            } else {
                self.ask(Phase::ReadingSession, session_op())
            },
        }
    }

    pub open spec fn submit(self, session: Option<Seq<char>>) -> (TurnState, Move) {
        TurnState { may_have_submitted: true, ..self }.ask(
            Phase::Submitting,
            submit_op(self.submission, session, self.prompt),
        )
    }

    pub open spec fn session_read(self, session: JsonTree) -> (TurnState, Move) {
        match session {
            JsonTree::Str(session) => self.submit(Some(session)),
            JsonTree::Null => self.submit(None),
            _ => self.finish(Outcome::Failed("invalid shared session reply"@)),
        }
    }

    pub open spec fn accepted(self, reply: JsonTree) -> (TurnState, Move) {
        match reply.inner_field("task"@, "task_id"@) {
            Some(JsonTree::Str(task)) => self.resolved(
                task,
                reply.field_text("admission"@) == Some("accepted"@),
            ),
            _ => self.finish(Outcome::Failed("shared submit omitted task ID"@)),
        }
    }

    pub open spec fn submit_failed(self, fault: Fault) -> (TurnState, Move) {
        if fault.kind == ErrorKind::WouldBlock {
            TurnState {
                may_have_submitted: false,
                attempts: (self.attempts - 1) as u32,
                ..self
            }.retry()
        } else if fault.kind == ErrorKind::PermissionDenied {
            self.finish(Outcome::Failed(fault.message))
        } else {
            self.retry()
        }
    }

    pub open spec fn outcome_read(self, result: JsonTree) -> (TurnState, Move) {
        match result.field_text("state"@) {
            Some(state) => match task_outcome(state) {
                Some(Outcome::Completed(_)) => (
                    self.at(Phase::Publishing),
                    Move::Publish(self.reply),
                ),
                Some(outcome) => self.finish(outcome),
                None => self.finish(Outcome::Unknown("terminal frame without terminal state"@)),
            },
            None => self.finish(
                Outcome::Unknown(
                    "terminal state unavailable: "@ + "shared task disappeared"@,
                ),
            ),
        }
    }

    /// An event of the turn's task, in its turn: the reply grows by its text.
    pub open spec fn hears(self, frame: JsonTree) -> bool {
        &&& frame.field_text("type"@) == Some("event"@)
        &&& frame.field_text("task_id"@) == Some(self.task())
        &&& sequence_of(frame) == self.cursor + 1
        &&& match chunk_of(frame) {
            Some(chunk) => encode_utf8(self.reply).len() + encode_utf8(chunk).len() <= MAX_FRAME,
            None => true,
        }
    }

    /// The turn after an event that it hears.
    pub open spec fn after(self, frame: JsonTree) -> TurnState {
        TurnState {
            cursor: (self.cursor + 1) as u64,
            reply: match chunk_of(frame) {
                Some(chunk) => self.reply + chunk,
                None => self.reply,
            },
            ..self
        }
    }

    /// What an event that the turn has heard asks for.
    pub open spec fn react(self, frame: JsonTree) -> (TurnState, Move) {
        let kind = frame.field_text("kind"@);
        if kind == Some("reverse_request"@) {
            match frame.field_text("request_id"@) {
                Some(request) => if method_of(frame) == Some("session/request_permission"@) {
                    self.ask(Phase::Responding, cancel_op(self.task(), request))
                } else {
                    self.ask(Phase::Declining, task_op("stop"@, self.task()))
                },
                None => self.listen(),
            }
        } else if kind == Some("terminal"@) {
            self.ask(Phase::ReadingOutcome, task_op("task"@, self.task()))
        } else {
            self.listen()
        }
    }

    pub open spec fn heard(self, frame: JsonTree) -> (TurnState, Move) {
        let kind = frame.field_text("type"@);
        if kind == Some("gap"@) {
            self.gap()
        } else if kind == Some("event"@) && frame.field_text("task_id"@) == Some(self.task()) {
            if self.hears(frame) {
                self.after(frame).react(frame)
            } else {
                self.gap()
            }
        } else {
            self.finish(Outcome::Unknown("invalid shared event stream"@))
        }
    }

    /// The turn after some news, and what it then asks for.
    pub open spec fn next(self, news: News) -> (TurnState, Move) {
        match (self.phase, news) {
            (Phase::Clock { first }, News::Clock { expired }) => if self.attempts
                < RECONNECT_ATTEMPTS && !expired {
                (
                    self.at(Phase::Rest),
                    if first {
                        Move::ReadStop
                    } else {
                        Move::Rest
                    },
                )
            } else {
                self.unavailable()
            },
            (Phase::Rest, News::Stop(stop)) => {
                let tried = TurnState { attempts: (self.attempts + 1) as u32, ..self };
                if stop && !self.may_have_submitted && self.known_task is None {
                    tried.finish(Outcome::Canceled)
                } else {
                    (tried.at(Phase::Connecting), Move::Connect)
                }
            },
            (Phase::Connecting, News::Connected) => self.ask(
                Phase::LookingUp,
                lookup_op(self.submission),
            ),
            (Phase::LookingUp, News::Reply(found)) => self.looked_up(found),
            (Phase::ReadingSession, News::Reply(session)) => self.session_read(session),
            (Phase::Submitting, News::Reply(reply)) => self.accepted(reply),
            (Phase::Submitting, News::Failed(fault)) => self.submit_failed(fault),
            (Phase::ReadingState { submitted_here }, News::Reply(result)) => match result.field_text(
                "state"@,
            ) {
                Some(state) => self.ask(
                    Phase::Attaching { submitted_here, settled: task_outcome(state) is Some },
                    attach_op(self.task(), self.cursor),
                ),
                None => self.retry(),
            },
            (Phase::Attaching { submitted_here, settled }, News::Reply(_)) => if !submitted_here
                && !settled {
                self.ask(Phase::Reclaiming, task_op("reclaim"@, self.task()))
            } else {
                (self.at(Phase::CheckingStop { settled }), Move::ReadStop)
            },
            (Phase::Reclaiming, News::Reply(result)) => if result.field("claimed"@) == Some(
                JsonTree::Bool(true),
            ) {
                (self.at(Phase::CheckingStop { settled: false }), Move::ReadStop)
            } else {
                self.retry()
            },
            (Phase::CheckingStop { settled }, News::Stop(stop)) => if stop && !settled {
                self.ask(Phase::Stopping, task_op("stop"@, self.task()))
            } else {
                self.listen()
            },
            (Phase::Stopping | Phase::StoppingStream | Phase::Responding, News::Reply(_)) =>
                self.listen(),
            (Phase::Listening, News::Deadline) => self.ask(
                Phase::Expiring,
                task_op("stop"@, self.task()),
            ),
            (Phase::Listening, News::StopSignal(stop)) => if stop {
                self.ask(Phase::StoppingStream, task_op("stop"@, self.task()))
            } else {
                self.listen()
            },
            (Phase::Listening, News::Frame(frame)) => self.heard(frame),
            (Phase::Expiring, _) => self.finish(
                Outcome::Unknown(
                    "shared turn exceeded Buzz's configured duration; inspect gateway task"@,
                ),
            ),
            (Phase::Declining, _) => self.finish(
                Outcome::Unknown(
                    "unsupported ACP reverse request; task stopped for reconciliation"@,
                ),
            ),
            (Phase::ReadingOutcome, News::Reply(result)) => self.outcome_read(result),
            (Phase::ReadingOutcome, News::Failed(fault)) => self.finish(
                Outcome::Unknown("terminal state unavailable: "@ + fault.message),
            ),
            (Phase::Publishing, News::Published(outcome)) => self.finish(outcome),
            _ => self.retry(),
        }
    }

    /// What holds of every turn.
    pub open spec fn wf(self) -> bool {
        &&& self.attempts <= RECONNECT_ATTEMPTS
        &&& match self.phase {
            Phase::Clock { .. } | Phase::Done => true,
            Phase::Rest => self.attempts < RECONNECT_ATTEMPTS,
            Phase::Connecting | Phase::LookingUp | Phase::ReadingSession => self.attempts > 0,
            Phase::Submitting => self.attempts > 0 && self.may_have_submitted,
            _ => self.attempts > 0 && self.known_task is Some,
        }
        &&& self.phase is ReadingSession ==> !self.may_have_submitted
        &&& encode_utf8(self.reply).len() <= MAX_FRAME
    }
}

/// The sequence number of an event frame, 0 where it has none.
pub open spec fn sequence_of(frame: JsonTree) -> u64 {
    match frame.field("sequence"@) {
        Some(sequence) => match sequence.unsigned() {
            Some(n) => n,
            None => 0,
        },
        None => 0,
    }
}

/// The method that the payload of an event frame names.
pub open spec fn method_of(frame: JsonTree) -> Option<Seq<char>> {
    match frame.inner_field("payload"@, "method"@) {
        Some(method) => method.text(),
        None => None,
    }
}

/// A turn on the shared gateway.
pub struct SharedTurn {
    submission: String,
    prompt: String,
    may_have_submitted: bool,
    known_task: Option<String>,
    cursor: u64,
    reply: String,
    attempts: u32,
    phase: Phase,
}

impl View for SharedTurn {
    type V = TurnState;

    closed spec fn view(&self) -> TurnState {
        TurnState {
            submission: self.submission@,
            prompt: self.prompt@,
            may_have_submitted: self.may_have_submitted,
            known_task: opt_text(self.known_task),
            cursor: self.cursor,
            reply: self.reply@,
            attempts: self.attempts,
            phase: self.phase,
        }
    }
}

/// A turn that has done nothing yet.
pub open spec fn fresh(submission: Seq<char>, prompt: Seq<char>) -> TurnState {
    TurnState {
        submission,
        prompt,
        may_have_submitted: false,
        known_task: None,
        cursor: 0,
        reply: Seq::empty(),
        attempts: 0,
        phase: Phase::Clock { first: true },
    }
}

fn plain(op: &str) -> (r: Json)
    ensures
        r@ == plain_op(op@),
{
    Json::object().with("op", Json::text(op))
}

fn on_task(op: &str, task: &str) -> (r: Json)
    ensures
        r@ == task_op(op@, task@),
{
    plain(op).with("task_id", Json::text(task))
}

/// The sequence number of an event frame, 0 where it has none.
fn sequence(frame: &Json) -> (r: u64)
    ensures
        r == sequence_of(frame@),
{
    match frame.get("sequence") {
        Some(sequence) => match sequence.as_u64() {
            Some(n) => n,
            None => 0,
        },
        None => 0,
    }
}

impl SharedTurn {
    /// A turn that submits a prompt under a submission id. The first thing that it
    /// asks for is [`Action::CheckClock`].
    pub fn new(submission: String, prompt: String) -> (r: SharedTurn)
        ensures
            r@ == fresh(submission@, prompt@),
            r@.wf(),
    {
        let reply = String::new();
        assert(reply@ =~= Seq::<char>::empty());
        SharedTurn {
            submission,
            prompt,
            may_have_submitted: false,
            known_task: None,
            cursor: 0,
            reply,
            attempts: 0,
            phase: Phase::Clock { first: true },
        }
    }

    /// The turn of a batch on a route: it is submitted under the id of the batch, with
    /// the sections of the batch as its prompt.
    pub fn for_batch(route: &str, batch: &FlushBatch, sections: Vec<String>) -> (r: SharedTurn)
        ensures
            r@ == fresh(
                submission_of(route@, batch.events@),
                joined(texts(sections@).push(publication_notice()), "\n\n"@),
            ),
            r@.wf(),
    {
        SharedTurn::new(submission_id(route, batch), prompt(sections))
    }

    /// Whether an event answers what the turn waits for.
    pub fn awaits(&self, event: &Event) -> (r: bool)
        ensures
            r == answers(self@.phase, event@),
    {
        match self.phase {
            Phase::Clock { .. } => matches!(event, Event::Clock { .. }),
            Phase::Rest | Phase::CheckingStop { .. } => matches!(event, Event::Stop(_)),
            Phase::Connecting => matches!(event, Event::Connected | Event::Failed(_)),
            Phase::Listening => matches!(
                event,
                Event::Frame(_) | Event::Failed(_) | Event::Deadline | Event::StopSignal(_)
            ),
            Phase::Publishing => matches!(event, Event::Published(_)),
            Phase::Done => false,
            _ => matches!(event, Event::Reply(_) | Event::Failed(_)),
        }
    }

    fn ask(&mut self, phase: Phase, op: Json) -> (r: Action)
        ensures
            (final(self)@, r@) == old(self)@.ask(phase, op@),
    {
        self.phase = phase;
        Action::Request(op)
    }

    fn go(&mut self, phase: Phase, action: Action) -> (r: Action)
        ensures
            final(self)@ == old(self)@.at(phase),
            r == action,
    {
        self.phase = phase;
        action
    }

    fn finish(&mut self, outcome: TurnOutcome) -> (r: Action)
        ensures
            (final(self)@, r@) == old(self)@.finish(outcome@),
    {
        self.phase = Phase::Done;
        Action::Finish(outcome)
    }

    fn retry(&mut self) -> (r: Action)
        ensures
            (final(self)@, r@) == old(self)@.retry(),
    {
        self.phase = Phase::Clock { first: false };
        Action::CheckClock
    }

    fn listen(&mut self) -> (r: Action)
        ensures
            (final(self)@, r@) == old(self)@.listen(),
    {
        self.phase = Phase::Listening;
        Action::Listen
    }

    /// An operation on the task of the turn.
    fn ask_task(&mut self, phase: Phase, op: &str) -> (r: Action)
        requires
            old(self)@.known_task is Some,
        ensures
            (final(self)@, r@) == old(self)@.ask(phase, task_op(op@, old(self)@.task())),
    {
        let op = match &self.known_task {
            Some(task) => on_task(op, task.as_str()),
            None => plain(op),
        };
        self.ask(phase, op)
    }

    fn gap(&mut self) -> (r: Action)
        requires
            old(self)@.known_task is Some,
        ensures
            (final(self)@, r@) == old(self)@.gap(),
    {
        let reason = match &self.known_task {
            Some(task) => cat3(
                "shared stream gap for task ",
                task.as_str(),
                "; inspect task before re-asking",
            ),
            None => String::new(),
        };
        self.finish(TurnOutcome::UnknownOutcome { reason })
    }

    fn unavailable(&mut self) -> (r: Action)
        ensures
            (final(self)@, r@) == old(self)@.unavailable(),
    {
        let reason = cat3(
            "shared gateway unavailable; reconcile submission ",
            self.submission.as_str(),
            " before re-asking",
        );
        self.finish(TurnOutcome::UnknownOutcome { reason })
    }

    fn resolved(&mut self, task: String, submitted_here: bool) -> (r: Action)
        ensures
            (final(self)@, r@) == old(self)@.resolved(task@, submitted_here),
    {
        let differs = match &self.known_task {
            Some(known) => !same_text(known.as_str(), task.as_str()),
            None => false,
        };
        if differs {
            self.finish(TurnOutcome::unknown("submission resolved to a different task"))
        } else {
            let op = on_task("task", task.as_str());
            self.known_task = Some(task);
            self.ask(Phase::ReadingState { submitted_here }, op)
        }
    }

    fn looked_up(&mut self, found: Json) -> (r: Action)
        ensures
            (final(self)@, r@) == old(self)@.looked_up(found@),
    {
        match task_id(&found) {
            Some(task) => {
                let task = task.to_string();
                self.resolved(task, false)
            },
            None => if self.may_have_submitted {
                let reason = cat3(
                    "submission ",
                    self.submission.as_str(),
                    " was not found after an uncertain submit; inspect gateway journal",
                );
                self.finish(TurnOutcome::UnknownOutcome { reason })
            } else {
                self.ask(Phase::ReadingSession, plain("route_session"))
            },
        }
    }

    fn submit(&mut self, session: Option<&str>) -> (r: Action)
        ensures
            (final(self)@, r@) == old(self)@.submit(opt_str(session)),
    {
        let op = plain("submit").with(
            "submission_id",
            Json::text(self.submission.as_str()),
        ).with("session_id", Json::optional(session)).with(
            "prompt",
            Json::text(self.prompt.as_str()),
        );
        self.may_have_submitted = true;
        self.ask(Phase::Submitting, op)
    }

    fn session_read(&mut self, session: Json) -> (r: Action)
        ensures
            (final(self)@, r@) == old(self)@.session_read(session@),
    {
        match &session {
            Json::Str(session) => self.submit(Some(session.as_str())),
            Json::Null => self.submit(None),
            _ => self.finish(TurnOutcome::failed("invalid shared session reply")),
        }
    }

    fn accepted(&mut self, reply: Json) -> (r: Action)
        ensures
            (final(self)@, r@) == old(self)@.accepted(reply@),
    {
        let task = match reply.get_inner("task", "task_id") {
            Some(task) => task.as_str(),
            None => None,
        };
        match task {
            Some(task) => {
                let task = task.to_string();
                let submitted_here = reply.field_is("admission", "accepted");
                self.resolved(task, submitted_here)
            },
            None => self.finish(TurnOutcome::failed("shared submit omitted task ID")),
        }
    }

    fn submit_failed(&mut self, error: WireError) -> (r: Action)
        requires
            old(self)@.attempts > 0,
        ensures
            (final(self)@, r@) == old(self)@.submit_failed(error@),
    {
        if error.kind == ErrorKind::WouldBlock {
            self.may_have_submitted = false;
            self.attempts = self.attempts - 1;
            self.retry()
        } else if error.kind == ErrorKind::PermissionDenied {
            self.finish(TurnOutcome::Failed { reason: error.message })
        } else {
            self.retry()
        }
    }

    fn outcome_read(&mut self, result: Json) -> (r: Action)
        ensures
            (final(self)@, r@) == old(self)@.outcome_read(result@),
    {
        match task_state(&result) {
            Ok(state) => match terminal(state.as_str()) {
                Some(TurnOutcome::Completed { .. }) => {
                    let reply = self.reply.clone();
                    self.go(Phase::Publishing, Action::Publish(reply))
                },
                Some(outcome) => self.finish(outcome),
                None => self.finish(TurnOutcome::unknown("terminal frame without terminal state")),
            },
            Err(error) => {
                let reason = cat2("terminal state unavailable: ", error.message.as_str());
                self.finish(TurnOutcome::UnknownOutcome { reason })
            },
        }
    }

    /// Takes in an event of the turn's task, where it is the next one.
    fn hear(&mut self, frame: &Json) -> (r: bool)
        requires
            old(self)@.wf(),
            old(self)@.known_task is Some,
            frame@.field_text("type"@) == Some("event"@),
            frame@.field_text("task_id"@) == Some(old(self)@.task()),
        ensures
            r == old(self)@.hears(frame@),
            final(self)@ == if r {
                old(self)@.after(frame@)
            } else {
                old(self)@
            },
    {
        let sequence: u64 = sequence(frame);
        if self.cursor == u64::MAX || sequence != self.cursor + 1 {
            return false;
        }
        match text_chunk(frame) {
            Some(chunk) => {
                let held: usize = self.reply.as_str().as_bytes().len();
                let more: usize = chunk.as_bytes().len();
                if more > MAX_FRAME || held > MAX_FRAME - more {
                    return false;
                }
                self.reply.append(chunk);
            },
            None => {},
        }
        self.cursor = sequence;
        true
    }

    fn react(&mut self, frame: &Json) -> (r: Action)
        requires
            old(self)@.known_task is Some,
        ensures
            (final(self)@, r@) == old(self)@.react(frame@),
    {
        proof {
            reveal_strlit("reverse_request");
            reveal_strlit("terminal");
            assert("reverse_request"@.len() != "terminal"@.len());
        }
        if frame.field_is("kind", "reverse_request") {
            match frame.get_str("request_id") {
                Some(request) => {
                    let permission = match frame.get_inner("payload", "method") {
                        Some(method) => match method.as_str() {
                            Some(method) => same_text(method, "session/request_permission"),
                            None => false,
                        },
                        None => false,
                    };
                    if !permission {
                        return self.ask_task(Phase::Declining, "stop");
                    }
                    let response = Json::object().with(
                        "outcome",
                        Json::object().with("outcome", Json::text("cancelled")),
                    );
                    let op = match &self.known_task {
                        Some(task) => on_task("respond", task.as_str()),
                        None => plain("respond"),
                    };
                    self.ask(
                        Phase::Responding,
                        op.with("request_id", Json::text(request)).with("response", response),
                    )
                },
                None => self.listen(),
            }
        } else if frame.field_is("kind", "terminal") {
            self.ask_task(Phase::ReadingOutcome, "task")
        } else {
            self.listen()
        }
    }

    fn heard(&mut self, frame: Json) -> (r: Action)
        requires
            old(self)@.wf(),
            old(self)@.known_task is Some,
        ensures
            (final(self)@, r@) == old(self)@.heard(frame@),
    {
        let ours = match &self.known_task {
            Some(task) => frame.field_is("task_id", task.as_str()),
            None => false,
        };
        if frame.field_is("type", "gap") {
            self.gap()
        } else if frame.field_is("type", "event") && ours {
            if self.hear(&frame) {
                self.react(&frame)
            } else {
                self.gap()
            }
        } else {
            self.finish(TurnOutcome::unknown("invalid shared event stream"))
        }
    }

    /// Goes on with the turn after what happened, and says what to do next.
    pub fn step(&mut self, event: Event) -> (r: Action)
        requires
            old(self)@.wf(),
            answers(old(self)@.phase, event@),
        ensures
            (final(self)@, r@) == old(self)@.next(event@),
            final(self)@.wf(),
    {
        proof {
            next_keeps_wf(self@, event@);
        }
        match (self.phase, event) {
            (Phase::Clock { first }, Event::Clock { expired }) => {
                if self.attempts < RECONNECT_ATTEMPTS && !expired {
                    if first {
                        self.go(Phase::Rest, Action::ReadStop)
                    } else {
                        self.go(Phase::Rest, Action::Rest)
                    }
                } else {
                    self.unavailable()
                }
            },
            (Phase::Rest, Event::Stop(stop)) => {
                self.attempts = self.attempts + 1;
                if stop && !self.may_have_submitted && self.known_task.is_none() {
                    self.finish(TurnOutcome::Canceled)
                } else {
                    self.go(Phase::Connecting, Action::Connect)
                }
            },
            (Phase::Connecting, Event::Connected) => {
                let op = plain("submission").with(
                    "submission_id",
                    Json::text(self.submission.as_str()),
                );
                self.ask(Phase::LookingUp, op)
            },
            (Phase::LookingUp, Event::Reply(found)) => self.looked_up(found),
            (Phase::ReadingSession, Event::Reply(session)) => self.session_read(session),
            (Phase::Submitting, Event::Reply(reply)) => self.accepted(reply),
            (Phase::Submitting, Event::Failed(error)) => self.submit_failed(error),
            (Phase::ReadingState { submitted_here }, Event::Reply(result)) => {
                match task_state(&result) {
                    Ok(state) => {
                        let settled = terminal(state.as_str()).is_some();
                        let op = match &self.known_task {
                            Some(task) => on_task("attach", task.as_str()),
                            None => plain("attach"),
                        };
                        let op = op.with("after_sequence", Json::number(self.cursor));
                        self.ask(Phase::Attaching { submitted_here, settled }, op)
                    },
                    Err(_) => self.retry(),
                }
            },
            (Phase::Attaching { submitted_here, settled }, Event::Reply(_)) => {
                if !submitted_here && !settled {
                    self.ask_task(Phase::Reclaiming, "reclaim")
                } else {
                    self.go(Phase::CheckingStop { settled }, Action::ReadStop)
                }
            },
            (Phase::Reclaiming, Event::Reply(result)) => {
                let claimed = match result.get("claimed") {
                    Some(claimed) => claimed.is_true(),
                    None => false,
                };
                if claimed {
                    self.go(Phase::CheckingStop { settled: false }, Action::ReadStop)
                } else {
                    self.retry()
                }
            },
            (Phase::CheckingStop { settled }, Event::Stop(stop)) => {
                if stop && !settled {
                    self.ask_task(Phase::Stopping, "stop")
                } else {
                    self.listen()
                }
            },
            (Phase::Stopping | Phase::StoppingStream | Phase::Responding, Event::Reply(_)) =>
                self.listen(),
            (Phase::Listening, Event::Deadline) => self.ask_task(Phase::Expiring, "stop"),
            (Phase::Listening, Event::StopSignal(stop)) => {
                if stop {
                    self.ask_task(Phase::StoppingStream, "stop")
                } else {
                    self.listen()
                }
            },
            (Phase::Listening, Event::Frame(frame)) => self.heard(frame),
            (Phase::Expiring, _) => self.finish(
                TurnOutcome::unknown(
                    "shared turn exceeded Buzz's configured duration; inspect gateway task",
                ),
            ),
            (Phase::Declining, _) => self.finish(
                TurnOutcome::unknown(
                    "unsupported ACP reverse request; task stopped for reconciliation",
                ),
            ),
            (Phase::ReadingOutcome, Event::Reply(result)) => self.outcome_read(result),
            (Phase::ReadingOutcome, Event::Failed(error)) => {
                let reason = cat2("terminal state unavailable: ", error.message.as_str());
                self.finish(TurnOutcome::UnknownOutcome { reason })
            },
            (Phase::Publishing, Event::Published(outcome)) => self.finish(outcome),
            _ => self.retry(),
        }
    }
}

/// A turn stays well-formed whatever happens to it.
pub proof fn next_keeps_wf(state: TurnState, news: News)
    requires
        state.wf(),
        answers(state.phase, news),
    ensures
        state.next(news).0.wf(),
{
    if state.phase is Listening && news is Frame {
        let frame = news->Frame_0;
        if state.hears(frame) {
            match chunk_of(frame) {
                Some(chunk) => {
                    encode_utf8_adds(state.reply, chunk);
                },
                None => {},
            }
        }
    }
}

/// The number of an event is that of its field, and 0 where that is no unsigned integer; the
/// method is the text that its payload gives for one.
pub proof fn events_are_numbered(frame: JsonTree, n: u64, method: Seq<char>)
    ensures
        n > 0 ==> (sequence_of(frame) == n <==> (frame.field("sequence"@) matches Some(
            JsonTree::Number(number),
        ) && number_u64(number) == Some(n))),
        method_of(frame) == Some(method) <==> frame.inner_field("payload"@, "method"@) == Some(
            JsonTree::Str(method),
        ),
{
}

/// What a turn asks for is seen as it is, and so is what happens to it.
pub proof fn turns_are_seen_as_they_are(action: Action, event: Event)
    ensures
        match action {
            Action::CheckClock => action@ is CheckClock,
            Action::Rest => action@ is Rest,
            Action::ReadStop => action@ is ReadStop,
            Action::Connect => action@ is Connect,
            Action::Request(op) => action@ == Move::Request(op@),
            Action::Listen => action@ is Listen,
            Action::Publish(reply) => action@ == Move::Publish(reply@),
            Action::Finish(outcome) => action@ == Move::Finish(outcome@),
        },
        match event {
            Event::Clock { expired } => event@ == (News::Clock { expired }),
            Event::Stop(stop) => event@ == News::Stop(stop),
            Event::Connected => event@ is Connected,
            Event::Reply(result) => event@ == News::Reply(result@),
            Event::Failed(error) => event@ == News::Failed(error@),
            Event::Frame(frame) => event@ == News::Frame(frame@),
            Event::Deadline => event@ is Deadline,
            Event::StopSignal(stop) => event@ == News::StopSignal(stop),
            Event::Published(outcome) => event@ == News::Published(outcome@),
        },
{
}

/// The turn of a batch is submitted under the id of that batch on that route, and its prompt
/// is the sections of the batch and then the notice.
pub proof fn turns_are_of_their_batch(
    route: &str,
    batch: &FlushBatch,
    sections: Vec<String>,
    r: SharedTurn,
)
    requires
        call_ensures(SharedTurn::for_batch, (route, batch, sections), r),
    ensures
        r@.submission == submission_of(route@, batch.events@),
        r@.prompt == joined(texts(sections@).push(publication_notice()), "\n\n"@),
        r@.phase == (Phase::Clock { first: true }),
        r@.known_task is None,
        !r@.may_have_submitted,
        r@.wf(),
{
}

/// A turn that has asked for the session of its route submits its prompt on the session that
/// it is given, under its own submission; on none where it is given null; and fails where it
/// is given anything else.
pub proof fn turn_submits_on_the_session_it_is_given(
    turn: &mut SharedTurn,
    session: Json,
    r: Action,
)
    requires
        old(turn)@.phase is ReadingSession,
        call_ensures(SharedTurn::step, (turn, Event::Reply(session)), r),
    ensures
        session is Str || session is Null ==> {
            &&& final(turn)@.phase is Submitting
            &&& final(turn)@.may_have_submitted
            &&& r matches Action::Request(op) && {
                &&& op@.field_text("op"@) == Some("submit"@)
                &&& op@.field_text("submission_id"@) == Some(old(turn)@.submission)
                &&& op@.field_text("prompt"@) == Some(old(turn)@.prompt)
                &&& op@.field("session_id"@) == Some(session@)
            }
        },
        !(session is Str || session is Null) ==> (r matches Action::Finish(
            TurnOutcome::Failed { reason },
        ) && reason@ == "invalid shared session reply"@),
        final(turn)@.submission == old(turn)@.submission,
        final(turn)@.prompt == old(turn)@.prompt,
        final(turn)@.known_task == old(turn)@.known_task,
        final(turn)@.cursor == old(turn)@.cursor,
        final(turn)@.reply == old(turn)@.reply,
        final(turn)@.attempts == old(turn)@.attempts,
{
    reveal_strlit("op");
    reveal_strlit("submission_id");
    reveal_strlit("session_id");
    reveal_strlit("prompt");
    assert("op"@.len() == 2 && "submission_id"@.len() == 13);
    assert("session_id"@.len() == 10 && "prompt"@.len() == 6);
}

/// A step of a turn is the one that its state calls for after what happened.
pub proof fn steps_are_what_the_turn_calls_for(turn: &mut SharedTurn, event: Event, r: Action)
    requires
        call_ensures(SharedTurn::step, (turn, event), r),
    ensures
        r@ == old(turn)@.next(event@).1,
        final(turn)@ == old(turn)@.next(event@).0,
{
}

} // verus!
