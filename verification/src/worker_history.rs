//! What holds of every worker, whatever it is sent and whatever its agent does.
use vstd::prelude::*;
use vstd::utf8::encode_utf8;

use crate::gwp_worker::canceled_frame;
use crate::gwp_worker::error_frame;
use crate::gwp_worker::fresh_worker;
use crate::gwp_worker::ready_frame;
use crate::gwp_worker::result_frame;
use crate::gwp_worker::worker_answers;
use crate::gwp_worker::Job;
use crate::gwp_worker::TurnEnd;
use crate::gwp_worker::WorkerMove;
use crate::gwp_worker::WorkerNews;
use crate::gwp_worker::WorkerPhase;
use crate::gwp_worker::WorkerState;
use crate::json::json_parsed;
use crate::json::JsonTree;
use crate::text::str_debug;

verus! {

/// A worker from its start, and what it has been told since.
pub struct WorkerHistory {
    pub runtime: Seq<char>,
    pub session: Seq<char>,
    pub news: Seq<WorkerNews>,
}

/// A worker in the middle of a turn.
pub open spec fn in_turn(phase: WorkerPhase) -> bool {
    phase is Decoding || phase is Spawning || phase is Running
}

impl WorkerHistory {
    /// The history without its last news.
    pub open spec fn before(self) -> WorkerHistory {
        WorkerHistory { news: self.news.drop_last(), ..self }
    }

    /// What the worker has come to.
    pub open spec fn state(self) -> WorkerState
        decreases self.news.len(),
    {
        if self.news.len() == 0 {
            fresh_worker(self.runtime, self.session)
        } else {
            self.before().state().next(self.news.last()).0
        }
    }

    /// What the worker last did.
    pub open spec fn last_move(self) -> WorkerMove {
        if self.news.len() == 0 {
            WorkerMove { frame: None, job: Job::Read }
        } else {
            self.before().state().next(self.news.last()).1
        }
    }

    /// All news came in answer to what the worker waited for.
    pub open spec fn valid(self) -> bool
        decreases self.news.len(),
    {
        self.news.len() > 0 ==> {
            &&& self.before().valid()
            &&& worker_answers(self.before().state().phase, self.news.last())
        }
    }

    /// How many turns were asked of the worker.
    pub open spec fn turns(self) -> nat
        decreases self.news.len(),
    {
        if self.news.len() == 0 {
            0
        } else {
            self.before().turns() + if self.last_move().job is Decode {
                1nat
            } else {
                0nat
            }
        }
    }

    /// The last news had the worker answer a turn.
    pub open spec fn just_answered(self) -> bool {
        &&& self.news.len() > 0
        &&& in_turn(self.before().state().phase)
        &&& self.last_move().frame is Some
    }

    /// How many turns the worker has answered.
    pub open spec fn answers(self) -> nat
        decreases self.news.len(),
    {
        if self.news.len() == 0 {
            0
        } else {
            self.before().answers() + if self.just_answered() {
                1nat
            } else {
                0nat
            }
        }
    }

    /// How many agents were spawned.
    pub open spec fn spawned(self) -> nat
        decreases self.news.len(),
    {
        if self.news.len() == 0 {
            0
        } else {
            self.before().spawned() + if self.news.last() == WorkerNews::Spawned(None) {
                1nat
            } else {
                0nat
            }
        }
    }

    /// The frames that the worker has written.
    pub open spec fn frames(self) -> Seq<JsonTree>
        decreases self.news.len(),
    {
        if self.news.len() == 0 {
            Seq::empty()
        } else {
            match self.last_move().frame {
                Some(frame) => self.before().frames().push(frame),
                None => self.before().frames(),
            }
        }
    }
}

/// A frame that reports a failure says that it is not to be retried.
pub open spec fn not_retryable(frame: JsonTree) -> bool {
    frame.field_text("type"@) == Some("error"@) ==> frame.field("retryable"@) == Some(
        JsonTree::Bool(false),
    )
}

/// What the frames of a worker hold.
proof fn frame_fields(
    turn_id: Seq<char>,
    message: Seq<char>,
    stop: Seq<char>,
    runtime: Seq<char>,
    session: Seq<char>,
)
    ensures
        error_frame(turn_id, message).field_text("type"@) == Some("error"@),
        error_frame(turn_id, message).field_text("turn_id"@) == Some(turn_id),
        error_frame(turn_id, message).field("retryable"@) == Some(JsonTree::Bool(false)),
        result_frame(turn_id, stop, session).field_text("type"@) == Some("result"@),
        result_frame(turn_id, stop, session).field_text("turn_id"@) == Some(turn_id),
        canceled_frame(turn_id).field_text("type"@) == Some("canceled"@),
        canceled_frame(turn_id).field_text("turn_id"@) == Some(turn_id),
        ready_frame(runtime, session).field_text("type"@) == Some("ready"@),
        "ready"@ != "error"@,
        "ready"@ != "result"@,
        "ready"@ != "canceled"@,
        "error"@ != "result"@,
        "error"@ != "canceled"@,
{
    reveal_strlit("type");
    reveal_strlit("protocol");
    reveal_strlit("runtime");
    reveal_strlit("session");
    reveal_strlit("turn_id");
    reveal_strlit("summary");
    reveal_strlit("structured");
    reveal_strlit("message");
    reveal_strlit("retryable");
    assert("type"@.len() == 4);
    assert("protocol"@.len() == 8);
    assert("runtime"@[0] == 'r');
    assert("session"@[0] == 's' && "session"@[1] == 'e');
    assert("turn_id"@[0] == 't' && "turn_id"@.len() == 7);
    assert("summary"@[0] == 's' && "summary"@[1] == 'u' && "summary"@.len() == 7);
    assert("structured"@.len() == 10);
    assert("message"@[0] == 'm' && "message"@.len() == 7);
    assert("retryable"@.len() == 9);
    assert("runtime"@.len() == 7);
    assert("session"@.len() == 7);
    reveal_strlit("ready");
    reveal_strlit("error");
    reveal_strlit("result");
    reveal_strlit("canceled");
    assert("ready"@[0] == 'r' && "ready"@.len() == 5);
    assert("error"@[0] == 'e' && "error"@.len() == 5);
    assert("result"@.len() == 6);
    assert("canceled"@.len() == 8);
}

/// What holds at every point of a worker's life.
proof fn worker_invariant(h: WorkerHistory)
    requires
        h.valid(),
    ensures
        h.state().runtime == h.runtime,
        h.state().session == h.session,
        h.answers() <= h.turns() <= h.answers() + 1,
        h.state().phase is Hello || h.state().phase is Idle ==> h.turns() == h.answers(),
        in_turn(h.state().phase) ==> h.turns() == h.answers() + 1,
        h.spawned() <= 1,
        h.state().agent ==> h.spawned() == 1,
        h.state().phase is Running ==> h.state().agent,
        !h.state().agent && h.state().phase !is Ended ==> h.spawned() == 0,
        h.state().phase is Spawning ==> !h.state().agent,
        h.state().phase is Hello ==> h.frames().len() == 0,
        h.state().phase is Idle || in_turn(h.state().phase) ==> h.frames().len() > 0,
        h.frames().len() > 0 ==> h.frames()[0] == ready_frame(h.runtime, h.session),
        forall|i: int|
            0 < i < h.frames().len() ==> (#[trigger] h.frames()[i]).field_text("type"@) != Some(
                "ready"@,
            ),
        forall|i: int| 0 <= i < h.frames().len() ==> not_retryable(#[trigger] h.frames()[i]),
    decreases h.news.len(),
{
    if h.news.len() > 0 {
        worker_invariant(h.before());
        assert forall|turn_id: Seq<char>, message: Seq<char>|
            not_retryable(#[trigger] error_frame(turn_id, message)) && error_frame(
                turn_id,
                message,
            ).field_text("type"@) != Some("ready"@) by {
            frame_fields(turn_id, message, message, message, message);
        }
        assert forall|turn_id: Seq<char>, stop: Seq<char>, session: Seq<char>|
            not_retryable(#[trigger] result_frame(turn_id, stop, session)) && result_frame(
                turn_id,
                stop,
                session,
            ).field_text("type"@) != Some("ready"@) by {
            frame_fields(turn_id, stop, stop, stop, session);
        }
        assert forall|turn_id: Seq<char>|
            not_retryable(#[trigger] canceled_frame(turn_id)) && canceled_frame(
                turn_id,
            ).field_text("type"@) != Some("ready"@) by {
            frame_fields(turn_id, turn_id, turn_id, turn_id, turn_id);
        }
        frame_fields(h.runtime, h.runtime, h.runtime, h.runtime, h.session);
    }
}

/// Each turn is answered once: a worker that waits for a line has answered every
/// turn that it was asked for, and no turn twice.
pub proof fn turns_are_answered_once(h: WorkerHistory)
    requires
        h.valid(),
    ensures
        h.answers() <= h.turns() <= h.answers() + 1,
        h.state().phase is Idle ==> h.turns() == h.answers(),
{
    worker_invariant(h);
}

/// The answer to a turn names that turn.
pub proof fn answers_name_their_turn(h: WorkerHistory)
    requires
        h.valid(),
        h.just_answered(),
    ensures
        h.last_move().frame->0.field_text("turn_id"@) == Some(h.before().state().turn_id),
{
    let turn_id = h.before().state().turn_id;
    assert forall|message: Seq<char>|
        (#[trigger] error_frame(turn_id, message)).field_text("turn_id"@) == Some(turn_id) by {
        frame_fields(turn_id, message, message, message, message);
    }
    assert forall|stop: Seq<char>, session: Seq<char>|
        (#[trigger] result_frame(turn_id, stop, session)).field_text("turn_id"@) == Some(
            turn_id,
        ) by {
        frame_fields(turn_id, stop, stop, stop, session);
    }
    frame_fields(turn_id, turn_id, turn_id, turn_id, turn_id);
}

/// One worker owns one agent: it asks for a pool of one, never spawns another, and
/// every turn that runs runs on that one.
pub proof fn one_agent_for_life(h: WorkerHistory)
    requires
        h.valid(),
    ensures
        h.spawned() <= 1,
        h.state().phase is Running ==> h.spawned() == 1,
        h.last_move().job is Spawn ==> h.spawned() == 0 && h.last_move().job == Job::Spawn(1),
{
    worker_invariant(h);
    if h.news.len() > 0 {
        worker_invariant(h.before());
    }
}

/// A worker says that it is ready before anything else, and says so once.
pub proof fn ready_comes_first_and_once(h: WorkerHistory)
    requires
        h.valid(),
        h.frames().len() > 0,
    ensures
        h.frames()[0] == ready_frame(h.runtime, h.session),
        forall|i: int|
            0 < i < h.frames().len() ==> (#[trigger] h.frames()[i]).field_text("type"@) != Some(
                "ready"@,
            ),
{
    worker_invariant(h);
}

/// No failure that a worker reports is to be retried.
pub proof fn failures_are_not_retryable(h: WorkerHistory)
    requires
        h.valid(),
    ensures
        forall|i: int| 0 <= i < h.frames().len() ==> not_retryable(#[trigger] h.frames()[i]),
{
    worker_invariant(h);
}

/// The names of the fields of frames are told apart.
proof fn lemma_names()
    ensures
        "type"@.len() == 4,
        "protocol"@.len() == 8,
        "runtime"@.len() == 7 && "runtime"@[0] == 'r',
        "session"@.len() == 7 && "session"@[0] == 's' && "session"@[1] == 'e',
        "turn_id"@.len() == 7 && "turn_id"@[0] == 't',
        "summary"@.len() == 7 && "summary"@[0] == 's' && "summary"@[1] == 'u',
        "structured"@.len() == 10,
        "message"@.len() == 7 && "message"@[0] == 'm',
        "retryable"@.len() == 9,
        "turn"@.len() == 4,
        "cancel"@.len() == 6,
{
    reveal_strlit("type");
    reveal_strlit("protocol");
    reveal_strlit("runtime");
    reveal_strlit("session");
    reveal_strlit("turn_id");
    reveal_strlit("summary");
    reveal_strlit("structured");
    reveal_strlit("message");
    reveal_strlit("retryable");
    reveal_strlit("turn");
    reveal_strlit("cancel");
}

/// A frame that says that the turn failed, why, and that it is not to be retried.
pub open spec fn says_error(frame: JsonTree, turn_id: Seq<char>, message: Seq<char>) -> bool {
    &&& frame is Object
    &&& frame->Object_0.dom() == set!["type"@, "turn_id"@, "message"@, "retryable"@]
    &&& frame.field("type"@) == Some(JsonTree::Str("error"@))
    &&& frame.field("turn_id"@) == Some(JsonTree::Str(turn_id))
    &&& frame.field("message"@) == Some(JsonTree::Str(message))
    &&& frame.field("retryable"@) == Some(JsonTree::Bool(false))
}

/// A frame that says that the turn was canceled.
pub open spec fn says_canceled(frame: JsonTree, turn_id: Seq<char>) -> bool {
    &&& frame is Object
    &&& frame->Object_0.dom() == set!["type"@, "turn_id"@]
    &&& frame.field("type"@) == Some(JsonTree::Str("canceled"@))
    &&& frame.field("turn_id"@) == Some(JsonTree::Str(turn_id))
}

/// A frame that says how the agent stopped, and in which session.
pub open spec fn says_result(
    frame: JsonTree,
    turn_id: Seq<char>,
    stop: Seq<char>,
    session: Seq<char>,
) -> bool {
    &&& frame is Object
    &&& frame->Object_0.dom() == set![
        "type"@,
        "turn_id"@,
        "summary"@,
        "structured"@,
        "session"@,
    ]
    &&& frame.field("type"@) == Some(JsonTree::Str("result"@))
    &&& frame.field("turn_id"@) == Some(JsonTree::Str(turn_id))
    &&& frame.field("summary"@) == Some(JsonTree::Str("stop_reason="@ + stop))
    &&& frame.field("structured"@) == Some(
        JsonTree::Object(map!["stopReason"@ => JsonTree::Str(stop)]),
    )
    &&& frame.field("session"@) == Some(JsonTree::Str(session))
}

/// A frame that says that the worker is ready, what runs its agent and which session it
/// has.
pub open spec fn says_ready(frame: JsonTree, runtime: Seq<char>, session: Seq<char>) -> bool {
    &&& frame is Object
    &&& frame->Object_0.dom() == set!["type"@, "protocol"@, "runtime"@, "session"@]
    &&& frame.field("type"@) == Some(JsonTree::Str("ready"@))
    &&& frame.field("protocol"@) == Some(JsonTree::Str("gwp/0"@))
    &&& frame.field("runtime"@) == Some(JsonTree::Str(runtime))
    &&& frame.field("session"@) == Some(JsonTree::Str(session))
}

proof fn lemma_frames_say(
    turn_id: Seq<char>,
    message: Seq<char>,
    runtime: Seq<char>,
    session: Seq<char>,
)
    ensures
        says_error(error_frame(turn_id, message), turn_id, message),
        says_canceled(canceled_frame(turn_id), turn_id),
        says_result(result_frame(turn_id, message, session), turn_id, message, session),
        says_ready(ready_frame(runtime, session), runtime, session),
{
    lemma_names();
    assert(error_frame(turn_id, message)->Object_0.dom() =~= set![
        "type"@,
        "turn_id"@,
        "message"@,
        "retryable"@,
    ]);
    assert(canceled_frame(turn_id)->Object_0.dom() =~= set!["type"@, "turn_id"@]);
    assert(result_frame(turn_id, message, session)->Object_0.dom() =~= set![
        "type"@,
        "turn_id"@,
        "summary"@,
        "structured"@,
        "session"@,
    ]);
    assert(ready_frame(runtime, session)->Object_0.dom() =~= set![
        "type"@,
        "protocol"@,
        "runtime"@,
        "session"@,
    ]);
}

/// The worker leaves because of an error, and writes nothing.
pub open spec fn leaves(h: WorkerHistory, error: Seq<char>) -> bool {
    &&& h.last_move().frame is None
    &&& h.last_move().job == (Job::Exit { error: Some(error), shutdown: false })
    &&& h.state().phase is Ended
}

/// The worker writes a frame, and reads on.
pub open spec fn writes_and_reads(h: WorkerHistory) -> bool {
    &&& h.last_move().frame is Some
    &&& h.last_move().job is Read
    &&& h.state().phase is Idle
}

/// A worker is ready as soon as it is greeted in its protocol: it says so, with its runtime
/// and its session, and reads on. Whatever else comes first has it leave, and so does
/// nothing at all.
pub proof fn worker_wants_a_greeting(h: WorkerHistory)
    requires
        h.valid(),
        h.news.len() == 1,
    ensures
        match h.news[0] {
            WorkerNews::Line(line) => match json_parsed(encode_utf8(line)) {
                Ok(frame) => if frame.field("type"@) == Some(JsonTree::Str("hello"@))
                    && frame.field("protocol"@) == Some(JsonTree::Str("gwp/0"@)) {
                    writes_and_reads(h) && says_ready(h.last_move().frame->0, h.runtime, h.session)
                } else {
                    leaves(h, "first frame was not a gwp/0 hello"@)
                },
                Err(error) => leaves(h, error),
            },
            WorkerNews::Closed => leaves(h, "stdin closed before hello"@),
            _ => false,
        },
{
    worker_invariant(h.before());
    lemma_frames_say(h.runtime, h.runtime, h.runtime, h.session);
}

/// The text of a field, nothing where there is none.
pub open spec fn text_in(frame: JsonTree, name: Seq<char>) -> Seq<char> {
    match frame.field(name) {
        Some(JsonTree::Str(text)) => text,
        _ => Seq::empty(),
    }
}

/// A line that asks for a turn has its task decoded, and the turn is the one that the line
/// names. One that cancels is acknowledged at once: between turns there is nothing to
/// cancel. Any other line has the worker leave. It leaves without an error when there are
/// no more lines, and shuts its agent down, if it has one.
pub proof fn lines_are_taken_up(h: WorkerHistory)
    requires
        h.valid(),
        h.news.len() > 0,
        h.before().state().phase is Idle,
    ensures
        match h.news.last() {
            WorkerNews::Line(line) => match json_parsed(encode_utf8(line)) {
                Ok(frame) => if frame.field("type"@) == Some(JsonTree::Str("turn"@)) {
                    &&& h.last_move().frame is None
                    &&& h.last_move().job == Job::Decode(text_in(frame, "task"@))
                    &&& h.state().turn_id == text_in(frame, "turn_id"@)
                    &&& h.state().phase is Decoding
                } else if frame.field("type"@) == Some(JsonTree::Str("cancel"@)) {
                    &&& writes_and_reads(h)
                    &&& says_canceled(h.last_move().frame->0, text_in(frame, "turn_id"@))
                } else {
                    leaves(
                        h,
                        "unexpected frame type "@ + match frame.field("type"@) {
                            Some(JsonTree::Str(kind)) => "Some("@ + str_debug(kind) + ")"@,
                            _ => "None"@,
                        },
                    )
                },
                Err(error) => leaves(h, error),
            },
            WorkerNews::Closed => {
                &&& h.last_move().frame is None
                &&& h.last_move().job == (Job::Exit { error: None, shutdown: h.spawned() == 1 })
                &&& h.state().phase is Ended
            },
            _ => false,
        },
{
    lemma_names();
    worker_invariant(h);
    worker_invariant(h.before());
    match h.news.last() {
        WorkerNews::Line(line) => match json_parsed(encode_utf8(line)) {
            Ok(frame) => {
                lemma_frames_say(
                    text_in(frame, "turn_id"@),
                    h.runtime,
                    h.runtime,
                    h.session,
                );
            },
            Err(_) => {},
        },
        _ => {},
    }
}

/// A turn whose payload is bad is answered so. Any other runs on the agent of the worker,
/// which is spawned first where there is none yet; a turn for which none could be spawned
/// is answered so.
pub proof fn turns_run_on_the_agent(h: WorkerHistory)
    requires
        h.valid(),
        h.news.len() > 0,
        h.before().state().phase is Decoding || h.before().state().phase is Spawning,
    ensures
        h.state().turn_id == h.before().state().turn_id,
        match h.news.last() {
            WorkerNews::Decoded(Some(reason)) => {
                &&& writes_and_reads(h)
                &&& says_error(
                    h.last_move().frame->0,
                    h.state().turn_id,
                    "bad turn payload: "@ + reason,
                )
            },
            WorkerNews::Spawned(Some(error)) => {
                &&& writes_and_reads(h)
                &&& says_error(
                    h.last_move().frame->0,
                    h.state().turn_id,
                    "acp agent spawn failed: "@ + error,
                )
            },
            WorkerNews::Decoded(None) => {
                &&& h.last_move().frame is None
                &&& h.last_move().job == if h.before().spawned() == 1 {
                    Job::Run(h.state().turn_id)
                } else {
                    Job::Spawn(1)
                }
                &&& h.state().phase is Running <==> h.before().spawned() == 1
                &&& h.state().phase is Spawning <==> h.before().spawned() == 0
            },
            WorkerNews::Spawned(None) => {
                &&& h.last_move().frame is None
                &&& h.last_move().job == Job::Run(h.state().turn_id)
                &&& h.state().phase is Running
            },
            _ => false,
        },
{
    worker_invariant(h.before());
    let turn_id = h.before().state().turn_id;
    match h.news.last() {
        WorkerNews::Decoded(Some(reason)) => {
            lemma_frames_say(turn_id, "bad turn payload: "@ + reason, h.runtime, h.session);
        },
        WorkerNews::Spawned(Some(error)) => {
            lemma_frames_say(turn_id, "acp agent spawn failed: "@ + error, h.runtime, h.session);
        },
        _ => {},
    }
}

/// A turn that the agent ended is answered by how it ended: with a result where the agent
/// stopped, as canceled where it was, and with an error in any other case. The worker reads
/// on, unless its agent can run no other turn: then it leaves, and so it does where the
/// agent's task ended without a result.
pub proof fn ended_turns_are_answered(h: WorkerHistory)
    requires
        h.valid(),
        h.news.len() > 0,
        h.before().state().phase is Running,
    ensures
        match h.news.last() {
            WorkerNews::Finished(end) => {
                let turn_id = h.before().state().turn_id;
                &&& h.last_move().frame matches Some(frame) && match end {
                    TurnEnd::Stopped(stop) => says_result(frame, turn_id, stop, h.session),
                    TurnEnd::Error(error) => says_error(frame, turn_id, "acp error: "@ + error),
                    TurnEnd::AgentExited => says_error(
                        frame,
                        turn_id,
                        "acp agent process exited"@,
                    ),
                    TurnEnd::Timeout(kind) => says_error(
                        frame,
                        turn_id,
                        "turn timed out: "@ + kind,
                    ),
                    TurnEnd::Cancelled => says_canceled(frame, turn_id),
                    TurnEnd::CancelDrainTimeout(grace) => says_error(
                        frame,
                        turn_id,
                        "cancel drain exceeded "@ + grace + "; agent poisoned"@,
                    ),
                }
                &&& if end is AgentExited || end is CancelDrainTimeout {
                    &&& h.last_move().job == (Job::Exit {
                        error: Some("acp agent no longer usable; exiting for gateway respawn"@),
                        shutdown: false,
                    })
                    &&& h.state().phase is Ended
                } else {
                    writes_and_reads(h)
                }
            },
            WorkerNews::NoResult => leaves(h, "prompt result channel closed"@),
            _ => false,
        },
{
    worker_invariant(h.before());
    let turn_id = h.before().state().turn_id;
    match h.news.last() {
        WorkerNews::Finished(end) => {
            let text = match end {
                TurnEnd::Stopped(stop) => stop,
                TurnEnd::Error(error) => "acp error: "@ + error,
                TurnEnd::AgentExited => "acp agent process exited"@,
                TurnEnd::Timeout(kind) => "turn timed out: "@ + kind,
                TurnEnd::Cancelled => Seq::empty(),
                TurnEnd::CancelDrainTimeout(grace) => "cancel drain exceeded "@ + grace
                    + "; agent poisoned"@,
            };
            lemma_frames_say(turn_id, text, h.runtime, h.session);
        },
        _ => {},
    }
}

/// A worker hears whatever can come of what it does: a line or the end of them where it
/// reads, and so on. After it has left it hears nothing.
pub proof fn worker_hears_what_it_asked_for(h: WorkerHistory, news: WorkerNews)
    requires
        h.valid(),
    ensures
        worker_answers(h.state().phase, news) <==> match h.last_move().job {
            Job::Read => news is Line || news is Closed,
            Job::Decode(_) => news is Decoded,
            Job::Spawn(_) => news is Spawned,
            Job::Run(_) => news is Finished || news is NoResult,
            Job::Exit { .. } => false,
        },
{
}

} // verus!
