//! What holds of every shared turn, whatever the gateway does: what it heard and
//! what it asked for, from its start on.
use vstd::prelude::*;
use vstd::utf8::encode_utf8;

use crate::json::u64_number;
use crate::json::JsonTree;
use crate::outcome::Outcome;
use crate::shared_gateway::chunk_of;
use crate::shared_turn::answers;
use crate::shared_turn::attach_op;
use crate::shared_turn::cancel_op;
use crate::shared_turn::fresh;
use crate::shared_turn::lookup_op;
use crate::shared_turn::next_keeps_wf;
use crate::shared_turn::sequence_of;
use crate::shared_turn::session_op;
use crate::shared_turn::submit_op;
use crate::shared_turn::task_op;
use crate::shared_turn::Move;
use crate::shared_turn::News;
use crate::shared_turn::Phase;
use crate::shared_turn::RECONNECT_ATTEMPTS;
use crate::shared_turn::TurnState;
use crate::wire::ErrorKind;

verus! {

/// A turn from its start: what it was asked, and what it has heard since.
pub struct History {
    pub submission: Seq<char>,
    pub prompt: Seq<char>,
    pub news: Seq<News>,
}

impl History {
    /// The history without its last news.
    pub open spec fn before(self) -> History {
        History { news: self.news.drop_last(), ..self }
    }

    /// What the turn has come to.
    pub open spec fn state(self) -> TurnState
        decreases self.news.len(),
    {
        if self.news.len() == 0 {
            fresh(self.submission, self.prompt)
        } else {
            self.before().state().next(self.news.last()).0
        }
    }

    /// What the turn last asked for.
    pub open spec fn last_move(self) -> Move {
        if self.news.len() == 0 {
            Move::CheckClock
        } else {
            self.before().state().next(self.news.last()).1
        }
    }

    /// All news came in answer to what the turn waited for.
    pub open spec fn valid(self) -> bool
        decreases self.news.len(),
    {
        self.news.len() > 0 ==> {
            &&& self.before().valid()
            &&& answers(self.before().state().phase, self.news.last())
        }
    }

    /// How often the turn has submitted its prompt.
    pub open spec fn submits(self) -> nat
        decreases self.news.len(),
    {
        if self.news.len() == 0 {
            0
        } else {
            self.before().submits() + if submits_prompt(self.last_move()) {
                1nat
            } else {
                0nat
            }
        }
    }

    /// How often the gateway has refused a submit because it was busy.
    pub open spec fn busy_refusals(self) -> nat
        decreases self.news.len(),
    {
        if self.news.len() == 0 {
            0
        } else {
            self.before().busy_refusals() + if self.before().state().phase is Submitting
                && busy_refusal(self.news.last()) {
                1nat
            } else {
                0nat
            }
        }
    }

    /// How often the turn has connected.
    pub open spec fn connects(self) -> nat
        decreases self.news.len(),
    {
        if self.news.len() == 0 {
            0
        } else {
            self.before().connects() + if self.last_move() is Connect {
                1nat
            } else {
                0nat
            }
        }
    }

    /// How often the turn has published a reply.
    pub open spec fn publishes(self) -> nat
        decreases self.news.len(),
    {
        if self.news.len() == 0 {
            0
        } else {
            self.before().publishes() + if self.last_move() is Publish {
                1nat
            } else {
                0nat
            }
        }
    }

    /// The event frames that the turn has taken in.
    pub open spec fn frames(self) -> Seq<JsonTree>
        decreases self.news.len(),
    {
        if self.news.len() == 0 {
            Seq::empty()
        } else {
            match self.news.last() {
                News::Frame(frame) => if self.before().state().hears(frame) {
                    self.before().frames().push(frame)
                } else {
                    self.before().frames()
                },
                _ => self.before().frames(),
            }
        }
    }
}

/// A request that submits the prompt.
pub open spec fn submits_prompt(asked: Move) -> bool {
    match asked {
        Move::Request(op) => op.field_text("op"@) == Some("submit"@),
        _ => false,
    }
}

/// News that the gateway was too busy.
pub open spec fn busy_refusal(news: News) -> bool {
    match news {
        News::Failed(fault) => fault.kind == ErrorKind::WouldBlock,
        _ => false,
    }
}

/// The text that event frames carry, one after another.
pub open spec fn text_of(frames: Seq<JsonTree>) -> Seq<char>
    decreases frames.len(),
{
    if frames.len() == 0 {
        Seq::empty()
    } else {
        match chunk_of(frames.last()) {
            Some(chunk) => text_of(frames.drop_last()) + chunk,
            None => text_of(frames.drop_last()),
        }
    }
}

/// Which operation each request names.
proof fn ops_are_told_apart(
    submission: Seq<char>,
    session: Option<Seq<char>>,
    prompt: Seq<char>,
    task: Seq<char>,
    cursor: u64,
    request: Seq<char>,
)
    ensures
        submits_prompt(Move::Request(submit_op(submission, session, prompt))),
        !submits_prompt(Move::Request(lookup_op(submission))),
        !submits_prompt(Move::Request(session_op())),
        !submits_prompt(Move::Request(attach_op(task, cursor))),
        !submits_prompt(Move::Request(cancel_op(task, request))),
        !submits_prompt(Move::Request(task_op("task"@, task))),
        !submits_prompt(Move::Request(task_op("reclaim"@, task))),
        !submits_prompt(Move::Request(task_op("stop"@, task))),
{
    lemma_names();
}

/// What holds at every point of a turn.
proof fn history_invariant(h: History)
    requires
        h.valid(),
    ensures
        h.state().wf(),
        h.state().submission == h.submission,
        h.state().prompt == h.prompt,
        h.submits() == h.busy_refusals() + if h.state().may_have_submitted {
            1nat
        } else {
            0nat
        },
        h.connects() <= h.state().attempts + h.busy_refusals(),
        h.publishes() <= 1,
        h.publishes() > 0 ==> h.state().phase is Publishing || h.state().phase is Done,
        h.state().cursor == h.frames().len(),
        h.state().reply == text_of(h.frames()),
        forall|i: int|
            0 <= i < h.frames().len() ==> sequence_of(#[trigger] h.frames()[i]) == i + 1
                && h.state().known_task is Some && h.frames()[i].field_text("task_id"@)
                == h.state().known_task,
    decreases h.news.len(),
{
    if h.news.len() == 0 {
        vstd::utf8::is_ascii_chars_encode_utf8(Seq::<char>::empty());
    } else {
        let was = h.before();
        let state = was.state();
        let news = h.news.last();
        history_invariant(was);
        next_keeps_wf(state, news);
        let request = match news {
            News::Frame(frame) => match frame.field_text("request_id"@) {
                Some(request) => request,
                None => Seq::empty(),
            },
            _ => Seq::empty(),
        };
        let session = match news {
            News::Reply(JsonTree::Str(session)) => Some(session),
            _ => None,
        };
        let task = if h.state().known_task is Some {
            h.state().known_task->0
        } else {
            Seq::empty()
        };
        ops_are_told_apart(
            state.submission,
            session,
            state.prompt,
            task,
            state.cursor,
            request,
        );
        match news {
            News::Frame(frame) => {
                if state.hears(frame) {
                    reveal_strlit("gap");
                    reveal_strlit("event");
                    assert("gap"@.len() != "event"@.len());
                    assert(h.frames().drop_last() =~= was.frames());
                }
            },
            _ => {},
        }
    }
}

/// Once a submit may have reached the gateway, the turn never submits again: each
/// submit but the last was refused because the gateway was busy.
pub proof fn submits_once_unless_refused(h: History)
    requires
        h.valid(),
    ensures
        h.submits() <= h.busy_refusals() + 1,
        h.state().may_have_submitted ==> h.submits() == h.busy_refusals() + 1,
        !h.state().may_have_submitted ==> h.submits() == h.busy_refusals(),
{
    history_invariant(h);
}

/// A submit that may have reached the gateway and is not waited on any more is
/// followed by no other, whatever comes after it: a missing acknowledgment is
/// reconciled by lookup only.
pub proof fn uncertain_submit_is_only_looked_up(h: History, n: int)
    requires
        h.valid(),
        0 <= n <= h.news.len(),
        (History { news: h.news.take(n), ..h }).state().may_have_submitted,
        !((History { news: h.news.take(n), ..h }).state().phase is Submitting),
    ensures
        h.submits() == (History { news: h.news.take(n), ..h }).submits(),
        h.busy_refusals() == (History { news: h.news.take(n), ..h }).busy_refusals(),
        h.state().may_have_submitted,
        !(h.state().phase is Submitting),
    decreases h.news.len(),
{
    if n == h.news.len() {
        assert(h.news.take(n) =~= h.news);
    } else {
        assert(h.before().news.take(n) =~= h.news.take(n));
        uncertain_submit_is_only_looked_up(h.before(), n);
        history_invariant(h.before());
        history_invariant(h);
    }
}

/// A turn connects at most [`RECONNECT_ATTEMPTS`] times, busy refusals aside.
pub proof fn connects_are_limited(h: History)
    requires
        h.valid(),
    ensures
        h.connects() <= RECONNECT_ATTEMPTS + h.busy_refusals(),
{
    history_invariant(h);
}

/// What is published is the text of the task's events from the first on, with none
/// missing, doubled or out of order, and it is published only when the gateway has
/// said that the task completed.
pub proof fn published_reply_is_whole(h: History)
    requires
        h.valid(),
        h.last_move() is Publish,
    ensures
        h.last_move() == Move::Publish(text_of(h.frames())),
        h.state().cursor == h.frames().len(),
        forall|i: int|
            0 <= i < h.frames().len() ==> sequence_of(#[trigger] h.frames()[i]) == i + 1,
        forall|i: int|
            0 <= i < h.frames().len() ==> (#[trigger] h.frames()[i]).field_text("task_id"@)
                == h.state().known_task,
        h.news.last() matches News::Reply(result) && result.field_text("state"@) == Some(
            "completed"@,
        ),
{
    history_invariant(h);
    history_invariant(h.before());
}

/// A turn publishes at most once.
pub proof fn publishes_at_most_once(h: History)
    requires
        h.valid(),
    ensures
        h.publishes() <= 1,
{
    history_invariant(h);
}

/// A turn is completed only by a publication that completed.
pub proof fn completes_only_by_publishing(h: History, summary: Seq<char>)
    requires
        h.valid(),
        h.last_move() == Move::Finish(Outcome::Completed(summary)),
    ensures
        h.news.last() == News::Published(Outcome::Completed(summary)),
        h.publishes() == 1,
{
    history_invariant(h);
    history_invariant(h.before());
    published_before(h.before());
}

/// A turn that publishes has asked for it.
proof fn published_before(h: History)
    requires
        h.valid(),
    ensures
        h.state().phase is Publishing ==> h.publishes() > 0,
    decreases h.news.len(),
{
    if h.news.len() > 0 {
        history_invariant(h.before());
    }
}

/// A turn ends where it says so, and hears nothing after that.
pub proof fn ends_with_its_outcome(h: History)
    requires
        h.valid(),
    ensures
        h.state().phase is Done <==> h.last_move() is Finish,
        h.news.len() > 0 ==> !(h.before().last_move() is Finish),
    decreases h.news.len(),
{
    if h.news.len() > 0 {
        ends_with_its_outcome(h.before());
    }
}

/// A turn that is told to stop before it connects, with nothing submitted, is
/// canceled, and all that it ever submitted was refused.
pub proof fn stopped_before_submitting_is_canceled(h: History)
    requires
        h.valid(),
        h.news.len() > 0,
        h.before().state().phase is Rest,
        h.news.last() == News::Stop(true),
        !h.before().state().may_have_submitted,
        h.before().state().known_task is None,
    ensures
        h.last_move() == Move::Finish(Outcome::Canceled),
        h.submits() == h.busy_refusals(),
{
    history_invariant(h);
    history_invariant(h.before());
}

/// A turn that has met its task never takes another for it.
pub proof fn task_never_changes(h: History)
    requires
        h.valid(),
        h.news.len() > 0,
        h.before().state().known_task is Some,
    ensures
        h.state().known_task == h.before().state().known_task,
{
}

/// Every operation that a turn asks for is an object, as a connection wants it.
pub proof fn operations_are_objects(h: History)
    ensures
        h.last_move() matches Move::Request(op) ==> op is Object,
{
}

/// The operation that a move requests, where it requests one.
pub open spec fn op_of(asked: Move) -> Option<Seq<char>> {
    match asked {
        Move::Request(op) => op.field_text("op"@),
        _ => None,
    }
}

/// A state in which a task is over.
pub open spec fn over(state: Seq<char>) -> bool {
    state == "completed"@ || state == "canceled"@ || state == "failed"@ || state
        == "unknown_outcome"@
}

/// A move that requests an operation on the task of a turn.
pub open spec fn asks_task(asked: Move, op: Seq<char>, task: Option<Seq<char>>) -> bool {
    &&& asked matches Move::Request(request) && {
        &&& request.field_text("op"@) == Some(op)
        &&& request.field_text("task_id"@) == task
    }
    &&& task is Some
}

impl History {
    /// The last news answers a request for this operation.
    pub open spec fn answers_op(self, op: Seq<char>) -> bool {
        self.news.len() > 0 && op_of(self.before().last_move()) == Some(op)
    }

    /// The turn may have submitted its prompt: not every submit was refused as busy.
    pub open spec fn submit_stands(self) -> bool {
        self.submits() > self.busy_refusals()
    }
}

/// The names of the fields of requests, and of the operations, are told apart.
proof fn lemma_names()
    ensures
        "op"@.len() == 2,
        "submission_id"@.len() == 13,
        "session_id"@.len() == 10 && "session_id"@[0] == 's',
        "prompt"@.len() == 6,
        "task_id"@.len() == 7,
        "after_sequence"@.len() == 14,
        "request_id"@.len() == 10 && "request_id"@[0] == 'r',
        "response"@.len() == 8,
        "submit"@.len() == 6 && "submit"@[0] == 's',
        "submission"@.len() == 10,
        "route_session"@.len() == 13,
        "attach"@.len() == 6 && "attach"@[0] == 'a',
        "respond"@.len() == 7 && "respond"@[2] == 's',
        "reclaim"@.len() == 7 && "reclaim"@[2] == 'c',
        "task"@.len() == 4 && "task"@[0] == 't',
        "stop"@.len() == 4 && "stop"@[0] == 's',
{
    reveal_strlit("op");
    reveal_strlit("submission_id");
    reveal_strlit("session_id");
    reveal_strlit("prompt");
    reveal_strlit("task_id");
    reveal_strlit("after_sequence");
    reveal_strlit("request_id");
    reveal_strlit("response");
    reveal_strlit("submit");
    reveal_strlit("submission");
    reveal_strlit("route_session");
    reveal_strlit("attach");
    reveal_strlit("respond");
    reveal_strlit("reclaim");
    reveal_strlit("task");
    reveal_strlit("stop");
}

proof fn earlier_is_valid(h: History)
    requires
        h.valid(),
        h.news.len() > 0,
    ensures
        h.before().valid(),
{
}

/// What a turn waits for is what it last asked for.
proof fn phase_follows_the_move(h: History)
    requires
        h.valid(),
    ensures
        match h.state().phase {
            Phase::Clock { first } => h.last_move() is CheckClock && (first <==> h.news.len() == 0),
            Phase::Rest => (h.last_move() is ReadStop || h.last_move() is Rest) && h.news.len() > 0
                && h.news.last() is Clock,
            Phase::Connecting => h.last_move() is Connect,
            Phase::LookingUp => op_of(h.last_move()) == Some("submission"@),
            Phase::ReadingSession => op_of(h.last_move()) == Some("route_session"@),
            Phase::Submitting => op_of(h.last_move()) == Some("submit"@),
            Phase::ReadingState { .. } => op_of(h.last_move()) == Some("task"@) && h.news.len() > 0
                && h.news.last() is Reply,
            Phase::Attaching { .. } => op_of(h.last_move()) == Some("attach"@),
            Phase::Reclaiming => op_of(h.last_move()) == Some("reclaim"@),
            Phase::CheckingStop { .. } => h.last_move() is ReadStop && h.news.len() > 0
                && h.news.last() is Reply,
            Phase::Stopping => op_of(h.last_move()) == Some("stop"@) && h.news.len() > 0
                && h.news.last() is Stop,
            Phase::Listening => h.last_move() is Listen,
            Phase::StoppingStream => op_of(h.last_move()) == Some("stop"@) && h.news.len() > 0
                && h.news.last() is StopSignal,
            Phase::Responding => op_of(h.last_move()) == Some("respond"@) && h.news.len() > 0
                && h.news.last() is Frame,
            Phase::Expiring => op_of(h.last_move()) == Some("stop"@) && h.news.len() > 0
                && h.news.last() is Deadline,
            Phase::Declining => op_of(h.last_move()) == Some("stop"@) && h.news.len() > 0
                && h.news.last() is Frame,
            Phase::ReadingOutcome => op_of(h.last_move()) == Some("task"@) && h.news.len() > 0
                && h.news.last() is Frame,
            Phase::Publishing => h.last_move() is Publish,
            Phase::Done => h.last_move() is Finish,
        },
{
    lemma_names();
}

/// What each request says. It names the operation, and beside that it has just the
/// fields that go with the operation: the turn's own submission and prompt, the session
/// that the gateway gave for the route, the turn's own task, the number of the events
/// that were heard of it, and the request that an event asked to be answered, which is
/// answered by cancelling it.
pub proof fn requests_say_what_they_ask(h: History)
    requires
        h.valid(),
        h.last_move() is Request,
    ensures
        h.last_move() matches Move::Request(op) && {
            let task = h.state().known_task;
            let fields = op->Object_0.dom();
            &&& op is Object
            &&& match op.field_text("op"@) {
                Some(name) => {
                    ||| name == "submission"@ && {
                        &&& op.field_text("submission_id"@) == Some(h.submission)
                        &&& fields == set!["op"@, "submission_id"@]
                    }
                    ||| name == "route_session"@ && fields == set!["op"@]
                    ||| name == "submit"@ && {
                        &&& op.field_text("submission_id"@) == Some(h.submission)
                        &&& op.field_text("prompt"@) == Some(h.prompt)
                        &&& h.answers_op("route_session"@)
                        &&& h.news.last() matches News::Reply(session) && op.field("session_id"@)
                            == Some(session)
                        &&& fields == set!["op"@, "submission_id"@, "session_id"@, "prompt"@]
                    }
                    ||| (name == "task"@ || name == "reclaim"@ || name == "stop"@) && {
                        &&& task is Some
                        &&& op.field_text("task_id"@) == task
                        &&& fields == set!["op"@, "task_id"@]
                    }
                    ||| name == "attach"@ && {
                        &&& task is Some
                        &&& op.field_text("task_id"@) == task
                        &&& op.field("after_sequence"@) == Some(
                            JsonTree::Number(u64_number(h.frames().len() as u64)),
                        )
                        &&& fields == set!["op"@, "task_id"@, "after_sequence"@]
                    }
                    ||| name == "respond"@ && {
                        &&& task is Some
                        &&& op.field_text("task_id"@) == task
                        &&& h.news.last() matches News::Frame(frame) && frame.field_text(
                            "request_id"@,
                        ) is Some && op.field_text("request_id"@) == frame.field_text(
                            "request_id"@,
                        )
                        &&& op.field("response"@) == Some(
                            JsonTree::Object(
                                map!["outcome"@ => JsonTree::Object(
                                    map!["outcome"@ => JsonTree::Str("cancelled"@)],
                                )],
                            ),
                        )
                        &&& fields == set!["op"@, "task_id"@, "request_id"@, "response"@]
                    }
                },
                None => false,
            }
        },
{
    lemma_names();
    history_invariant(h);
    history_invariant(h.before());
    phase_follows_the_move(h.before());
    let op = h.last_move()->Request_0;
    let fields = op->Object_0.dom();
    assert(fields =~= set!["op"@, "submission_id"@] || fields =~= set!["op"@] || fields =~= set![
        "op"@,
        "submission_id"@,
        "session_id"@,
        "prompt"@,
    ] || fields =~= set!["op"@, "task_id"@] || fields =~= set!["op"@, "task_id"@, "after_sequence"@]
        || fields =~= set!["op"@, "task_id"@, "request_id"@, "response"@]);
}

/// A turn that is about to try, or to give up, has connected once for each try that was
/// not refused as busy.
proof fn tries_are_counted(h: History)
    requires
        h.valid(),
    ensures
        h.state().phase is Done || h.connects() == h.state().attempts + h.busy_refusals(),
        h.state().may_have_submitted <==> h.submit_stands(),
    decreases h.news.len(),
{
    history_invariant(h);
    if h.news.len() > 0 {
        tries_are_counted(h.before());
        history_invariant(h.before());
    }
}

/// A turn tries again until its time is over or it has tried as often as it may; busy
/// refusals do not count. It rests before every try but the first. A turn that gives up
/// is of unknown outcome, and says which submission to look for.
pub proof fn tries_until_time_or_tries_are_over(h: History, expired: bool)
    requires
        h.valid(),
        h.news.len() > 0,
        h.before().last_move() is CheckClock,
        h.news.last() == (News::Clock { expired }),
    ensures
        h.last_move() == if expired || h.before().connects() >= 120 + h.before().busy_refusals() {
            Move::Finish(
                Outcome::Unknown(
                    "shared gateway unavailable; reconcile submission "@ + h.submission
                        + " before re-asking"@,
                ),
            )
        } else if h.news.len() == 1 {
            Move::ReadStop
        } else {
            Move::Rest
        },
{
    lemma_names();
    history_invariant(h.before());
    tries_are_counted(h.before());
    phase_follows_the_move(h.before());
}

/// A turn connects, unless it is to stop, has no task, and nothing that it submitted may
/// have been taken: then it is canceled.
pub proof fn connects_unless_it_is_to_stop(h: History, stop: bool)
    requires
        h.valid(),
        h.news.len() > 1,
        h.before().news.last() is Clock,
        h.news.last() == News::Stop(stop),
    ensures
        h.last_move() == if stop && !h.before().submit_stands() && h.before().state().known_task
            is None {
            Move::Finish(Outcome::Canceled)
        } else {
            Move::Connect
        },
{
    lemma_names();
    tries_are_counted(h.before());
    phase_follows_the_move(h.before());
    earlier_is_valid(h.before());
    phase_follows_the_move(h.before().before());
}

/// On every new connection a turn first looks its submission up.
pub proof fn looks_up_on_every_connection(h: History)
    requires
        h.valid(),
        h.news.len() > 0,
        h.before().last_move() is Connect,
    ensures
        h.news.last() is Connected ==> op_of(h.last_move()) == Some("submission"@),
        h.news.last() is Failed ==> h.last_move() is CheckClock,
        h.state().known_task == h.before().state().known_task,
{
    lemma_names();
    phase_follows_the_move(h.before());
}

/// A submission that is found has the task that the gateway names: that task is asked
/// about, or, where the turn knew another, the outcome is unknown. One that is not found
/// is submitted, by asking for the route's session, unless a submit may have been taken:
/// then the outcome is unknown, and the submission is named.
pub proof fn found_submission_is_taken_up(h: History, found: JsonTree)
    requires
        h.valid(),
        h.answers_op("submission"@),
        h.news.last() == News::Reply(found),
    ensures
        match found.field_text("task_id"@) {
            Some(task) => takes_up(h, task),
            None => {
                &&& h.state().known_task == h.before().state().known_task
                &&& if h.before().submit_stands() {
                    h.last_move() == Move::Finish(
                        Outcome::Unknown(
                            "submission "@ + h.submission
                                + " was not found after an uncertain submit; inspect gateway journal"@,
                        ),
                    )
                } else {
                    op_of(h.last_move()) == Some("route_session"@)
                }
            },
        },
{
    lemma_names();
    history_invariant(h.before());
    tries_are_counted(h.before());
    phase_follows_the_move(h.before());
}

/// A turn takes up the task that was named for its submission: it asks about that task.
/// Where it knew another task, its outcome is unknown instead.
pub open spec fn takes_up(h: History, task: Seq<char>) -> bool {
    let known = h.before().state().known_task;
    if known is Some && known != Some(task) {
        &&& h.last_move() == Move::Finish(
            Outcome::Unknown("submission resolved to a different task"@),
        )
        &&& h.state().known_task == known
    } else {
        &&& h.state().known_task == Some(task)
        &&& asks_task(h.last_move(), "task"@, Some(task))
    }
}

/// The prompt is submitted on the session that the gateway gives for the route, and on
/// none where it gives none. What is neither a session nor none fails the turn.
pub proof fn prompt_goes_to_the_routes_session(h: History, session: JsonTree)
    requires
        h.valid(),
        h.answers_op("route_session"@),
        h.news.last() == News::Reply(session),
    ensures
        session is Str || session is Null ==> (h.last_move() matches Move::Request(op) && {
            &&& op.field_text("op"@) == Some("submit"@)
            &&& op.field_text("submission_id"@) == Some(h.submission)
            &&& op.field_text("prompt"@) == Some(h.prompt)
            &&& op.field("session_id"@) == Some(session)
            &&& op.field_text("session_id"@) == session.text()
        }),
        !(session is Str || session is Null) ==> h.last_move() == Move::Finish(
            Outcome::Failed("invalid shared session reply"@),
        ),
        h.state().known_task == h.before().state().known_task,
{
    lemma_names();
    history_invariant(h.before());
    phase_follows_the_move(h.before());
}

/// A submit that is acknowledged gives the task that the acknowledgment names, and fails
/// where that names none. A busy gateway has the turn try again as if it had not
/// submitted; one that forbids the submit fails the turn, in the gateway's words. After
/// any other failure the turn tries again, and the submit may have been taken.
pub proof fn submit_is_answered(h: History)
    requires
        h.valid(),
        h.answers_op("submit"@),
    ensures
        h.before().submit_stands(),
        match h.news.last() {
            News::Reply(reply) => match reply.inner_field("task"@, "task_id"@) {
                Some(JsonTree::Str(task)) => takes_up(h, task) && h.submit_stands(),
                _ => h.last_move() == Move::Finish(
                    Outcome::Failed("shared submit omitted task ID"@),
                ),
            },
            News::Failed(fault) => if fault.kind is PermissionDenied {
                h.last_move() == Move::Finish(Outcome::Failed(fault.message))
            } else {
                &&& h.last_move() is CheckClock
                &&& h.submit_stands() <==> !(fault.kind is WouldBlock)
                &&& h.state().known_task == h.before().state().known_task
            },
            _ => false,
        },
{
    lemma_names();
    tries_are_counted(h);
    tries_are_counted(h.before());
    history_invariant(h.before());
    phase_follows_the_move(h.before());
}

/// A task that the turn has just been given is attached to, where its state is told;
/// else the turn tries again.
pub proof fn told_task_is_attached_to(h: History)
    requires
        h.valid(),
        h.answers_op("task"@),
        h.before().news.last() is Reply,
    ensures
        match h.news.last() {
            News::Reply(result) => if result.field_text("state"@) is Some {
                asks_task(h.last_move(), "attach"@, h.before().state().known_task)
            } else {
                h.last_move() is CheckClock
            },
            _ => h.last_move() is CheckClock,
        },
        h.state().known_task == h.before().state().known_task,
{
    lemma_names();
    history_invariant(h.before());
    phase_follows_the_move(h.before());
}

/// The turn has just submitted its prompt, and the gateway has accepted it.
pub open spec fn accepted_here(h: History) -> bool {
    &&& h.answers_op("submit"@)
    &&& h.news.last() matches News::Reply(reply) && reply.field_text("admission"@) == Some(
        "accepted"@,
    )
}

/// A task that is attached to is reclaimed, unless it is over, or was submitted and
/// accepted on this very connection. After that, and else at once, the turn looks whether
/// it is to stop.
pub proof fn attached_task_is_reclaimed(h: History)
    requires
        h.valid(),
        h.answers_op("attach"@),
    ensures
        h.before().news.last() matches News::Reply(result) && {
            let state = result.field_text("state"@);
            &&& state is Some
            &&& h.news.last() is Reply ==> if accepted_here(h.before().before()) || over(
                state->0,
            ) {
                h.last_move() is ReadStop
            } else {
                asks_task(h.last_move(), "reclaim"@, h.before().state().known_task)
            }
            &&& h.news.last() is Failed ==> h.last_move() is CheckClock
        },
        h.state().known_task == h.before().state().known_task,
{
    lemma_names();
    let a = h.before();
    let b = a.before();
    let c = b.before();
    history_invariant(a);
    phase_follows_the_move(a);
    assert(a.state().phase is Attaching);
    earlier_is_valid(a);
    phase_follows_the_move(b);
    assert(b.state().phase is ReadingState);
    earlier_is_valid(b);
    phase_follows_the_move(c);
}

/// A turn goes on with a task that it reclaimed where the gateway says that the claim
/// holds; else it tries again.
pub proof fn claim_must_hold(h: History)
    requires
        h.valid(),
        h.answers_op("reclaim"@),
    ensures
        if h.news.last() matches News::Reply(result) && result.field("claimed"@) == Some(
            JsonTree::Bool(true),
        ) {
            h.last_move() is ReadStop
        } else {
            h.last_move() is CheckClock
        },
{
    lemma_names();
    phase_follows_the_move(h.before());
}

/// A turn that is to stop tells its task to, unless the task is over. Then, and else at
/// once, it listens.
pub proof fn stops_its_task_before_it_listens(h: History, stop: bool)
    requires
        h.valid(),
        h.news.len() > 1,
        h.before().news.last() is Reply,
        h.news.last() == News::Stop(stop),
    ensures
        h.before().answers_op("reclaim"@) || h.before().answers_op("attach"@),
        ({
            let settled = h.before().answers_op("attach"@) && (
            h.before().before().news.last() matches News::Reply(result) && over(
                result.field_text("state"@)->0,
            ));
            if stop && !settled {
                asks_task(h.last_move(), "stop"@, h.before().state().known_task)
            } else {
                h.last_move() is Listen
            }
        }),
{
    lemma_names();
    let a = h.before();
    let b = a.before();
    let c = b.before();
    history_invariant(a);
    phase_follows_the_move(a);
    assert(a.state().phase is CheckingStop);
    earlier_is_valid(a);
    phase_follows_the_move(b);
    assert(b.state().phase is Attaching || b.state().phase is Reclaiming);
    earlier_is_valid(b);
    phase_follows_the_move(c);
}

/// A task that was told to stop because the turn's time is over, or because of a request
/// that Buzz cannot answer, leaves the outcome unknown, whatever it says to that. One that
/// was told to stop for another reason is listened to further.
pub proof fn stopped_task_is_heard_or_unknown(h: History)
    requires
        h.valid(),
        h.answers_op("stop"@),
    ensures
        match h.before().news.last() {
            News::Deadline => h.last_move() == Move::Finish(
                Outcome::Unknown(
                    "shared turn exceeded Buzz's configured duration; inspect gateway task"@,
                ),
            ),
            News::Frame(_) => h.last_move() == Move::Finish(
                Outcome::Unknown(
                    "unsupported ACP reverse request; task stopped for reconciliation"@,
                ),
            ),
            _ => if h.news.last() is Reply {
                h.last_move() is Listen
            } else {
                h.last_move() is CheckClock
            },
        },
{
    lemma_names();
    phase_follows_the_move(h.before());
}

/// A turn that has answered a request for permission listens further.
pub proof fn answered_request_is_followed_by_listening(h: History)
    requires
        h.valid(),
        h.answers_op("respond"@),
    ensures
        h.news.last() is Reply ==> h.last_move() is Listen,
        h.news.last() is Failed ==> h.last_move() is CheckClock,
{
    lemma_names();
    phase_follows_the_move(h.before());
}

/// A turn that listens stops its task when its time is over, or when it is told to, and
/// tries again when the connection fails.
pub proof fn listening_ends(h: History)
    requires
        h.valid(),
        h.news.len() > 0,
        h.before().last_move() is Listen,
    ensures
        h.news.last() is Deadline || h.news.last() == News::StopSignal(true) ==> asks_task(
            h.last_move(),
            "stop"@,
            h.before().state().known_task,
        ),
        h.news.last() == News::StopSignal(false) ==> h.last_move() is Listen,
        h.news.last() is Failed ==> h.last_move() is CheckClock,
        h.state().known_task == h.before().state().known_task,
{
    lemma_names();
    history_invariant(h.before());
    phase_follows_the_move(h.before());
}

/// A turn whose lookup, or whose question for the session of the route, fails tries
/// again.
pub proof fn failed_lookup_is_tried_again(h: History)
    requires
        h.valid(),
        h.answers_op("submission"@) || h.answers_op("route_session"@),
        h.news.last() is Failed,
    ensures
        h.last_move() is CheckClock,
        h.state().known_task == h.before().state().known_task,
{
    lemma_names();
    phase_follows_the_move(h.before());
}

/// An event frame of a task, the next one after so many: its type, its task and its
/// number are right, and its text fits behind the text of those before it.
pub open spec fn next_event_of(
    frame: JsonTree,
    task: Option<Seq<char>>,
    frames: Seq<JsonTree>,
) -> bool {
    &&& frame.field_text("type"@) == Some("event"@)
    &&& frame.field_text("task_id"@) == task
    &&& sequence_of(frame) == frames.len() + 1
    &&& chunk_of(frame) matches Some(chunk) ==> encode_utf8(text_of(frames)).len() + encode_utf8(
        chunk,
    ).len() <= 1048576
}

/// What a turn makes of a frame while it listens. The next event of its task is taken in.
/// A request for permission in it is cancelled, any other request has the task stopped,
/// the end of the task has its state asked for, and anything else is just heard. A gap,
/// an event out of order, or a reply that grows too long leaves the outcome unknown, and
/// the task is named; so does a frame that is no event of the task.
pub proof fn frames_are_heard_in_order(h: History, frame: JsonTree)
    requires
        h.valid(),
        h.news.len() > 0,
        h.before().last_move() is Listen,
        h.news.last() == News::Frame(frame),
    ensures
        ({
            let task = h.before().state().known_task;
            let kind = frame.field_text("type"@);
            let event = frame.field_text("kind"@);
            let requested = event == Some("reverse_request"@) && frame.field_text(
                "request_id"@,
            ) is Some;
            let for_permission = frame.inner_field("payload"@, "method"@) == Some(
                JsonTree::Str("session/request_permission"@),
            );
            &&& task is Some
            &&& h.state().known_task == task
            &&& if next_event_of(frame, task, h.before().frames()) {
                &&& h.frames() == h.before().frames().push(frame)
                &&& if requested && for_permission {
                    asks_task(h.last_move(), "respond"@, task)
                } else if requested {
                    asks_task(h.last_move(), "stop"@, task)
                } else if event == Some("terminal"@) {
                    asks_task(h.last_move(), "task"@, task)
                } else {
                    h.last_move() is Listen
                }
            } else {
                &&& h.frames() == h.before().frames()
                &&& h.last_move() == if kind == Some("gap"@) || (kind == Some("event"@)
                    && frame.field_text("task_id"@) == task) {
                    Move::Finish(
                        Outcome::Unknown(
                            "shared stream gap for task "@ + task->0
                                + "; inspect task before re-asking"@,
                        ),
                    )
                } else {
                    Move::Finish(Outcome::Unknown("invalid shared event stream"@))
                }
            }
        }),
{
    lemma_names();
    reveal_strlit("gap");
    reveal_strlit("event");
    reveal_strlit("reverse_request");
    reveal_strlit("terminal");
    assert("gap"@.len() != "event"@.len());
    assert("reverse_request"@.len() != "terminal"@.len());
    history_invariant(h.before());
    phase_follows_the_move(h.before());
}

/// How a turn whose task has ended ends: a completed task has the reply published, and
/// any other gives the outcome that its state names. Where the state cannot be had, or
/// says that the task goes on, the outcome is unknown.
pub proof fn ended_task_decides(h: History)
    requires
        h.valid(),
        h.answers_op("task"@),
        h.before().news.last() is Frame,
    ensures
        match h.news.last() {
            News::Reply(result) => match result.field_text("state"@) {
                Some(state) => {
                    &&& state == "completed"@ <==> h.last_move() is Publish
                    &&& state == "completed"@ ==> h.last_move() == Move::Publish(
                        text_of(h.frames()),
                    )
                    &&& state == "canceled"@ <==> h.last_move() == Move::Finish(Outcome::Canceled)
                    &&& state == "failed"@ <==> (h.last_move() matches Move::Finish(outcome)
                        && outcome is Failed)
                    &&& !over(state) <==> h.last_move() == Move::Finish(
                        Outcome::Unknown("terminal frame without terminal state"@),
                    )
                    &&& state == "failed"@ ==> h.last_move() == Move::Finish(
                        Outcome::Failed("shared turn failed"@),
                    )
                    &&& state == "unknown_outcome"@ ==> h.last_move() == Move::Finish(
                        Outcome::Unknown("shared turn outcome unknown"@),
                    )
                },
                None => h.last_move() == Move::Finish(
                    Outcome::Unknown("terminal state unavailable: "@ + "shared task disappeared"@),
                ),
            },
            News::Failed(fault) => h.last_move() == Move::Finish(
                Outcome::Unknown("terminal state unavailable: "@ + fault.message),
            ),
            _ => false,
        },
{
    lemma_names();
    lemma_states();
    history_invariant(h.before());
    phase_follows_the_move(h.before());
}

proof fn lemma_states()
    ensures
        "completed"@.len() == 9,
        "canceled"@.len() == 8,
        "failed"@.len() == 6,
        "unknown_outcome"@.len() == 15,
        "shared turn outcome unknown"@.len() == 27,
        "terminal frame without terminal state"@.len() == 37,
{
    reveal_strlit("completed");
    reveal_strlit("canceled");
    reveal_strlit("failed");
    reveal_strlit("unknown_outcome");
    reveal_strlit("shared turn outcome unknown");
    reveal_strlit("terminal frame without terminal state");
}

/// A turn that has had its reply published ends as the publication did.
pub proof fn publication_ends_the_turn(h: History, outcome: Outcome)
    requires
        h.valid(),
        h.news.len() > 0,
        h.news.last() == News::Published(outcome),
    ensures
        h.before().last_move() is Publish,
        h.last_move() == Move::Finish(outcome),
{
    lemma_names();
    phase_follows_the_move(h.before());
}

/// A turn that has just begun has submitted nothing and knows no task; it asks for the
/// time first.
pub proof fn turn_begins_with_nothing(h: History)
    requires
        h.news.len() == 0,
    ensures
        h.last_move() is CheckClock,
        !h.submit_stands(),
        h.state().known_task is None,
        h.state().submission == h.submission,
        h.state().prompt == h.prompt,
        h.frames().len() == 0,
        h.state().reply.len() == 0,
        h.state().attempts == 0,
        h.state().cursor == 0,
        !h.state().may_have_submitted,
{
}

/// A turn hears whatever can come of what it asked for: a request is replied to or fails,
/// and so on. After its end it hears nothing.
pub proof fn turn_hears_what_it_asked_for(h: History, news: News)
    requires
        h.valid(),
    ensures
        answers(h.state().phase, news) <==> match h.last_move() {
            Move::CheckClock => news is Clock,
            Move::Rest | Move::ReadStop => news is Stop,
            Move::Connect => news is Connected || news is Failed,
            Move::Request(_) => news is Reply || news is Failed,
            Move::Listen => news is Frame || news is Failed || news is Deadline
                || news is StopSignal,
            Move::Publish(_) => news is Published,
            Move::Finish(_) => false,
        },
{
    phase_follows_the_move(h);
}

} // verus!
