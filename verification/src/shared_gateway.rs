//! The daemon-owned AGW-SHARED/1 session protocol, one connection of it.
//!
//! The relay event ids determine the submission id. Once a submit may have
//! reached the daemon, it is only looked up, never sent again.
use std::collections::VecDeque;
use vstd::prelude::*;
use vstd::utf8::encode_utf8;

use crate::framing::feed;
use crate::framing::feed_result;
use crate::framing::frame_line;
use crate::framing::json_line;
use crate::framing::Fed;
use crate::ids::event_id_hex;
use crate::ids::hex_encode;
use crate::ids::hex_text;
use crate::ids::sha256;
use crate::ids::sha256_digest;
use crate::json::decode;
use crate::json::decoded;
use crate::json::json_parsed;
use crate::json::Json;
use crate::json::JsonTree;
use crate::outcome::opt_outcome;
use crate::outcome::Outcome;
use crate::outcome::TurnOutcome;
use crate::text::cat2;
use crate::text::chars_of;
use crate::text::decimal;
use crate::text::decimal_text;
use crate::text::join;
use crate::text::joined;
use crate::text::opt_str;
use crate::text::same_bytes;
use crate::text::same_text;
use crate::text::texts;
use crate::wire::ErrorKind;
use crate::wire::Fault;
use crate::wire::WireError;

verus! {

/// The most bytes that a frame may have.
pub const MAX_FRAME: usize = 1048576;

/// The most event frames that wait while a reply is awaited.
pub const MAX_PENDING_EVENTS: usize = 128;

/// The most bytes that the answer to the greeting may have.
pub const MAX_ANSWER: usize = 128;

/// An event of a batch: its id, and the root of its thread where its tags name one.
#[derive(Debug, PartialEq)]
pub struct BatchEvent {
    pub id: [u8; 32],
    pub root_event_id: Option<String>,
}

/// The queued events of a channel that one turn answers.
#[derive(Debug, PartialEq)]
pub struct FlushBatch {
    pub channel_id: u128,
    pub events: Vec<BatchEvent>,
}

/// The ids of events, in hexadecimal, one after the other.
pub open spec fn ids_text(events: Seq<BatchEvent>) -> Seq<u8>
    decreases events.len(),
{
    if events.len() == 0 {
        Seq::empty()
    } else {
        ids_text(events.drop_last()) + encode_utf8(hex_text(events.last().id@))
    }
}

/// What the digest in a submission id is taken of.
pub open spec fn submission_text(route: Seq<char>, events: Seq<BatchEvent>) -> Seq<u8> {
    encode_utf8("buzz-agw-shared-v1\0"@) + encode_utf8(route) + seq![0u8] + ids_text(events)
}

/// The id under which a batch is submitted to a route.
pub open spec fn submission_of(route: Seq<char>, events: Seq<BatchEvent>) -> Seq<char> {
    "buzz-"@ + hex_text(sha256(submission_text(route, events)))
}

/// The id under which a digest is submitted.
pub fn submission_from_digest(digest: &[u8]) -> (r: String)
    ensures
        r@ == "buzz-"@ + hex_text(digest@),
{
    cat2("buzz-", hex_encode(digest).as_str())
}

/// The bytes that the digest in a submission id is taken of.
pub fn submission_bytes(route: &str, batch: &FlushBatch) -> (r: Vec<u8>)
    ensures
        r@ == submission_text(route@, batch.events@),
{
    let mut r: Vec<u8> = Vec::new();
    r.extend_from_slice("buzz-agw-shared-v1\0".as_bytes());
    r.extend_from_slice(route.as_bytes());
    r.push(0);
    let ghost start = r@;
    assert(start =~= encode_utf8("buzz-agw-shared-v1\0"@) + encode_utf8(route@) + seq![0u8]);
    let mut i: usize = 0;
    assert(batch.events@.take(0) =~= Seq::<BatchEvent>::empty());
    while i < batch.events.len()
        invariant
            i <= batch.events@.len(),
            r@ == start + ids_text(batch.events@.take(i as int)),
        decreases batch.events@.len() - i,
    {
        r.extend_from_slice(event_id_hex(batch.events[i].id).as_str().as_bytes());
        i = i + 1;
        proof {
            assert(batch.events@.take(i as int).drop_last() =~= batch.events@.take(i - 1));
            assert(r@ =~= start + ids_text(batch.events@.take(i as int)));
        }
    }
    assert(batch.events@.take(batch.events@.len() as int) =~= batch.events@);
    r
}

/// The id under which a batch is submitted to a route.
pub fn submission_id(route: &str, batch: &FlushBatch) -> (r: String)
    ensures
        r@ == submission_of(route@, batch.events@),
        r@.len() == 69,
{
    proof {
        reveal_strlit("buzz-");
    }
    let bytes: Vec<u8> = submission_bytes(route, batch);
    submission_from_digest(sha256_digest(bytes.as_slice()).as_slice())
}

/// A character that a route may have.
pub open spec fn route_char(c: char) -> bool {
    ||| '0' <= c <= '9'
    ||| 'A' <= c <= 'Z'
    ||| 'a' <= c <= 'z'
    ||| c == '-'
    ||| c == '_'
    ||| c == '.'
}

/// A name that a route may have: 1 to 128 letters, digits, `-`, `_` or `.`.
pub open spec fn valid_route(route: Seq<char>) -> bool {
    &&& 0 < route.len() <= 128
    &&& forall|i: int| 0 <= i < route.len() ==> route_char(#[trigger] route[i])
}

fn is_route_char(c: char) -> (r: bool)
    ensures
        r == route_char(c),
{
    ('0' <= c && c <= '9') || ('A' <= c && c <= 'Z') || ('a' <= c && c <= 'z') || c == '-' || c
        == '_' || c == '.'
}

fn is_valid_route(route: &str) -> (r: bool)
    ensures
        r == valid_route(route@),
{
    let chars: Vec<char> = chars_of(route);
    if chars.len() == 0 || chars.len() > 128 {
        return false;
    }
    let mut i: usize = 0;
    while i < chars.len()
        invariant
            i <= chars@.len(),
            chars@ == route@,
            forall|j: int| 0 <= j < i ==> route_char(#[trigger] route@[j]),
        decreases chars@.len() - i,
    {
        if !is_route_char(chars[i]) {
            assert(!route_char(route@[i as int]));
            return false;
        }
        i = i + 1;
    }
    true
}

/// The bytes that open a connection: the protocol, and the route.
pub fn greeting(route: &str) -> (r: Result<Vec<u8>, WireError>)
    ensures
        match r {
            Ok(bytes) => valid_route(route@) && bytes@ == encode_utf8("AGW-SHARED/1\n"@)
                + encode_utf8(route@) + seq![10u8],
            Err(error) => !valid_route(route@) && error@ == (Fault {
                kind: ErrorKind::InvalidInput,
                message: "invalid shared route"@,
            }),
        },
{
    if !is_valid_route(route) {
        return Err(WireError::new(ErrorKind::InvalidInput, "invalid shared route"));
    }
    let mut r: Vec<u8> = Vec::new();
    r.extend_from_slice("AGW-SHARED/1\n".as_bytes());
    r.extend_from_slice(route.as_bytes());
    r.push(10);
    assert(r@ =~= encode_utf8("AGW-SHARED/1\n"@) + encode_utf8(route@) + seq![10u8]);
    Ok(r)
}

/// Reads the answer to the greeting: `OK` admits.
pub fn admitted(answer: &[u8]) -> (r: Result<(), WireError>)
    ensures
        match r {
            Ok(_) => answer@ == encode_utf8("OK"@),
            Err(error) => answer@ != encode_utf8("OK"@) && error@ == (Fault {
                kind: ErrorKind::PermissionDenied,
                message: "shared route refused"@,
            }),
        },
{
    if same_bytes(answer, "OK".as_bytes()) {
        Ok(())
    } else {
        Err(WireError::new(ErrorKind::PermissionDenied, "shared route refused"))
    }
}

/// What one more byte makes of a line of the protocol.
pub open spec fn line_step(line: Seq<u8>, limit: nat, byte: u8) -> Result<bool, Fault> {
    match feed_result(line, limit, byte) {
        Fed::More => Ok(false),
        Fed::Whole => Ok(true),
        Fed::TooLarge => Err(
            Fault { kind: ErrorKind::InvalidData, message: "shared frame too large"@ },
        ),
    }
}

/// Takes one more byte of a line of at most `limit` bytes, and tells whether the
/// line is whole. A line that is too long is an error.
pub fn take_byte(line: &mut Vec<u8>, limit: usize, byte: u8) -> (r: Result<bool, WireError>)
    ensures
        match r {
            Ok(whole) => line_step(old(line)@, limit as nat, byte) == Ok::<bool, Fault>(whole),
            Err(error) => line_step(old(line)@, limit as nat, byte) == Err::<bool, Fault>(error@),
        },
        final(line)@ == if line_step(old(line)@, limit as nat, byte) == Ok::<bool, Fault>(false) {
            old(line)@.push(byte)
        } else {
            old(line)@
        },
{
    match feed(line, limit, byte) {
        Fed::More => Ok(false),
        Fed::Whole => Ok(true),
        Fed::TooLarge => Err(WireError::new(ErrorKind::InvalidData, "shared frame too large")),
    }
}

/// What a line amounts to, given what reading it as JSON gave.
pub open spec fn frame_of(parsed: Result<JsonTree, Seq<char>>) -> Result<JsonTree, Fault> {
    match parsed {
        Ok(frame) => Ok(frame),
        Err(message) => Err(Fault { kind: ErrorKind::Other, message }),
    }
}

/// The view of a frame that was read.
pub open spec fn frame_view(r: Result<Json, WireError>) -> Result<JsonTree, Fault> {
    match r {
        Ok(frame) => Ok(frame@),
        Err(error) => Err(error@),
    }
}

/// What a line amounts to, given what reading it as JSON gave.
pub fn frame_verdict(parsed: Result<Json, String>) -> (r: Result<Json, WireError>)
    ensures
        frame_view(r) == frame_of(decoded(parsed)),
{
    match parsed {
        Ok(frame) => Ok(frame),
        Err(message) => Err(WireError { kind: ErrorKind::Other, message }),
    }
}

/// Reads a frame off a line.
pub fn read_frame(line: &[u8]) -> (r: Result<Json, WireError>)
    ensures
        frame_view(r) == frame_of(json_parsed(line@)),
{
    frame_verdict(decode(line))
}

/// Frames that wait, the oldest first.
pub open spec fn frames_view(frames: Seq<Json>) -> Seq<JsonTree> {
    frames.map_values(|frame: Json| frame@)
}

/// The bookkeeping of one connection: the number of the last request, and the
/// event frames that came while a reply was awaited.
pub struct Connection {
    next_id: u64,
    pending: VecDeque<Json>,
}

/// What a [`Connection`] knows.
pub struct Dialogue {
    pub last_id: u64,
    pub pending: Seq<JsonTree>,
}

/// What a frame that came while a reply was awaited amounts to.
#[derive(Debug, PartialEq)]
pub enum Settled {
    Reply(Json),
    Failed(WireError),
    /// An event frame: it waits, and the reply is still to come.
    Waiting,
}

/// What a [`Settled`] says.
pub enum Settlement {
    Reply(JsonTree),
    Failed(Fault),
    Waiting,
}

impl View for Settled {
    type V = Settlement;

    open spec fn view(&self) -> Settlement {
        match self {
            Settled::Reply(json) => Settlement::Reply(json@),
            Settled::Failed(error) => Settlement::Failed(error@),
            Settled::Waiting => Settlement::Waiting,
        }
    }
}

/// What a frame amounts to that came while the reply to request `id` was awaited,
/// with so many event frames waiting.
pub open spec fn settle_frame(frame: JsonTree, id: Seq<char>, waiting: nat) -> Settlement {
    let kind = frame.field_text("type"@);
    if kind == Some("reply"@) && frame.field_text("id"@) == Some(id) {
        Settlement::Reply(
            match frame.field("result"@) {
                Some(result) => result,
                None => JsonTree::Null,
            },
        )
    } else if kind == Some("refusal"@) && frame.field_text("id"@) == Some(id) {
        let reason = match frame.field_text("reason"@) {
            Some(reason) => reason,
            None => "unknown"@,
        };
        Settlement::Failed(
            Fault {
                kind: if reason == "busy"@ {
                    ErrorKind::WouldBlock
                } else {
                    ErrorKind::PermissionDenied
                },
                message: "shared gateway refused: "@ + reason,
            },
        )
    } else if kind == Some("event"@) || kind == Some("gap"@) {
        if waiting == MAX_PENDING_EVENTS {
            Settlement::Failed(
                Fault {
                    kind: ErrorKind::InvalidData,
                    message: "shared event queue overflow"@,
                },
            )
        } else {
            Settlement::Waiting
        }
    } else {
        Settlement::Failed(
            Fault { kind: ErrorKind::InvalidData, message: "unexpected shared frame"@ },
        )
    }
}

/// The line that sends an operation as the request of that number.
pub open spec fn request_line(op: JsonTree, id: u64) -> Seq<u8> {
    json_line(op.with("id"@, JsonTree::Str(decimal(id as nat))))
}

impl View for Connection {
    type V = Dialogue;

    closed spec fn view(&self) -> Dialogue {
        Dialogue { last_id: self.next_id, pending: frames_view(self.pending@) }
    }
}

impl Connection {
    /// No more frames wait than may.
    pub open spec fn wf(self) -> bool {
        self@.pending.len() <= MAX_PENDING_EVENTS
    }

    /// A connection that was just admitted.
    pub fn new() -> (r: Connection)
        ensures
            r.wf(),
            r@.last_id == 0,
            r@.pending == Seq::<JsonTree>::empty(),
    {
        let r = Connection { next_id: 0, pending: VecDeque::new() };
        assert(r@.pending =~= Seq::<JsonTree>::empty());
        r
    }

    /// Numbers an operation and gives the line that sends it.
    pub fn request(&mut self, op: Json) -> (r: Result<Vec<u8>, WireError>)
        requires
            old(self).wf(),
        ensures
            final(self).wf(),
            final(self)@.pending == old(self)@.pending,
            final(self)@.last_id == (if old(self)@.last_id == u64::MAX {
                old(self)@.last_id
            } else {
                (old(self)@.last_id + 1) as u64
            }),
            if old(self)@.last_id == u64::MAX {
                r matches Err(error) && error@ == (Fault {
                    kind: ErrorKind::InvalidData,
                    message: "shared request ID exhausted"@,
                })
            } else if !(op@ is Object) {
                r matches Err(error) && error@ == (Fault {
                    kind: ErrorKind::InvalidInput,
                    message: "invalid request"@,
                })
            } else if request_line(op@, final(self)@.last_id).len() > MAX_FRAME + 1 {
                r matches Err(error) && error@ == (Fault {
                    kind: ErrorKind::InvalidInput,
                    message: "shared request too large"@,
                })
            } else {
                r matches Ok(line) && line@ == request_line(op@, final(self)@.last_id)
            },
    {
        if self.next_id == u64::MAX {
            return Err(WireError::new(ErrorKind::InvalidData, "shared request ID exhausted"));
        }
        self.next_id = self.next_id + 1;
        match &op {
            Json::Object(_) => {},
            _ => {
                return Err(WireError::new(ErrorKind::InvalidInput, "invalid request"));
            },
        }
        let line: Vec<u8> = frame_line(
            &op.with("id", Json::Str(decimal_text(self.next_id))),
        );
        if line.len() - 1 > MAX_FRAME {
            return Err(WireError::new(ErrorKind::InvalidInput, "shared request too large"));
        }
        Ok(line)
    }

    /// Takes in a frame while the reply to the last request is awaited.
    pub fn settle(&mut self, frame: Json) -> (r: Settled)
        requires
            old(self).wf(),
        ensures
            final(self).wf(),
            final(self)@.last_id == old(self)@.last_id,
            r@ == settle_frame(
                frame@,
                decimal(old(self)@.last_id as nat),
                old(self)@.pending.len(),
            ),
            final(self)@.pending == (if r is Waiting {
                old(self)@.pending.push(frame@)
            } else {
                old(self)@.pending
            }),
    {
        let id: String = decimal_text(self.next_id);
        if frame.field_is("type", "reply") && frame.field_is("id", id.as_str()) {
            return Settled::Reply(frame.take_field("result"));
        }
        if frame.field_is("type", "refusal") && frame.field_is("id", id.as_str()) {
            let reason: &str = match frame.get_str("reason") {
                Some(reason) => reason,
                None => "unknown",
            };
            let kind: ErrorKind = if same_text(reason, "busy") {
                ErrorKind::WouldBlock
            } else {
                ErrorKind::PermissionDenied
            };
            return Settled::Failed(
                WireError { kind, message: cat2("shared gateway refused: ", reason) },
            );
        }
        if frame.field_is("type", "event") || frame.field_is("type", "gap") {
            if self.pending.len() == MAX_PENDING_EVENTS {
                return Settled::Failed(
                    WireError::new(ErrorKind::InvalidData, "shared event queue overflow"),
                );
            }
            let ghost before = self@.pending;
            self.pending.push_back(frame);
            assert(self@.pending =~= before.push(frame@));
            return Settled::Waiting;
        }
        Settled::Failed(WireError::new(ErrorKind::InvalidData, "unexpected shared frame"))
    }

    /// The oldest event frame that waits; none, where the next is still to be read.
    pub fn next_event(&mut self) -> (r: Option<Json>)
        requires
            old(self).wf(),
        ensures
            final(self).wf(),
            final(self)@.last_id == old(self)@.last_id,
            match r {
                Some(frame) => old(self)@.pending.len() > 0 && frame@ == old(self)@.pending[0]
                    && final(self)@.pending == old(self)@.pending.drop_first(),
                None => old(self)@.pending.len() == 0 && final(self)@.pending == old(
                    self,
                )@.pending,
            },
    {
        let ghost before = self@.pending;
        let r: Option<Json> = self.pending.pop_front();
        proof {
            if r is Some {
                assert(self@.pending =~= before.drop_first());
            }
        }
        r
    }
}

/// The id of the task that a reply names.
pub fn task_id(value: &Json) -> (r: Option<&str>)
    ensures
        opt_str(r) == value@.field_text("task_id"@),
{
    value.get_str("task_id")
}

/// What a task's state means for the turn; nothing, while it is not terminal.
pub open spec fn task_outcome(state: Seq<char>) -> Option<Outcome> {
    if state == "completed"@ {
        Some(Outcome::Completed("shared turn completed"@))
    } else if state == "canceled"@ {
        Some(Outcome::Canceled)
    } else if state == "failed"@ {
        Some(Outcome::Failed("shared turn failed"@))
    } else if state == "unknown_outcome"@ {
        Some(Outcome::Unknown("shared turn outcome unknown"@))
    } else {
        None
    }
}

/// Maps a shared task's state to a turn outcome. `None` = not terminal yet.
pub fn terminal(state: &str) -> (r: Option<TurnOutcome>)
    ensures
        opt_outcome(r) == task_outcome(state@),
{
    if same_text(state, "completed") {
        Some(TurnOutcome::completed("shared turn completed"))
    } else if same_text(state, "canceled") {
        Some(TurnOutcome::Canceled)
    } else if same_text(state, "failed") {
        Some(TurnOutcome::failed("shared turn failed"))
    } else if same_text(state, "unknown_outcome") {
        Some(TurnOutcome::unknown("shared turn outcome unknown"))
    } else {
        None
    }
}

/// The state that the reply to a `task` request gives.
pub fn task_state(result: &Json) -> (r: Result<String, WireError>)
    ensures
        match r {
            Ok(state) => result@.field_text("state"@) == Some(state@),
            Err(error) => result@.field_text("state"@) is None && error@ == (Fault {
                kind: ErrorKind::InvalidData,
                message: "shared task disappeared"@,
            }),
        },
{
    match result.get_str("state") {
        Some(state) => Ok(state.to_owned()),
        None => Err(WireError::new(ErrorKind::InvalidData, "shared task disappeared")),
    }
}

/// The piece of the agent's reply that an event frame carries.
pub open spec fn chunk_of(frame: JsonTree) -> Option<Seq<char>> {
    if frame.field_text("kind"@) == Some("acp_update"@) {
        match frame.inner_field("payload"@, "params"@) {
            Some(params) => match params.field("update"@) {
                Some(update) => if update.field_text("sessionUpdate"@) == Some(
                    "agent_message_chunk"@,
                ) {
                    match update.inner_field("content"@, "text"@) {
                        Some(text) => text.text(),
                        None => None,
                    }
                } else {
                    None
                },
                None => None,
            },
            None => None,
        }
    } else {
        None
    }
}

/// The piece of the agent's reply that an event frame carries.
pub fn text_chunk(frame: &Json) -> (r: Option<&str>)
    ensures
        opt_str(r) == chunk_of(frame@),
{
    if !frame.field_is("kind", "acp_update") {
        return None;
    }
    match frame.get_inner("payload", "params") {
        Some(params) => match params.get("update") {
            Some(update) => {
                if !update.field_is("sessionUpdate", "agent_message_chunk") {
                    return None;
                }
                match update.get_inner("content", "text") {
                    Some(text) => text.as_str(),
                    None => None,
                }
            },
            None => None,
        },
        None => None,
    }
}

/// What the sections of a batch are made of, besides its events.
#[derive(Debug, PartialEq)]
pub struct PromptArgs<C> {
    pub channel_info: Option<C>,
    pub base_prompt: Option<String>,
    pub system_prompt: Option<String>,
    pub team_instructions: Option<String>,
    /// Say that the reply is published for the agent.
    pub harness_publishes_reply: bool,
}

/// What the sections of a batch are made of. The standing base prompt has agents
/// publish their replies themselves. Here the reply is published for the agent, so it
/// is left out, lest a reply is sent twice. A channel that cannot be looked up is
/// left out too.
pub fn prompt_args<C, E>(
    channel: Result<Option<C>, E>,
    system_prompt: Option<String>,
    team_instructions: Option<String>,
) -> (r: PromptArgs<C>)
    ensures
        r == (PromptArgs {
            channel_info: match channel {
                Ok(info) => info,
                Err(_) => None,
            },
            base_prompt: None,
            system_prompt,
            team_instructions,
            harness_publishes_reply: true,
        }),
{
    let channel_info = match channel {
        Ok(info) => info,
        Err(_) => None,
    };
    PromptArgs {
        channel_info,
        base_prompt: None,
        system_prompt,
        team_instructions,
        harness_publishes_reply: true,
    }
}

/// What closes every prompt.
pub open spec fn publication_notice() -> Seq<char> {
    "Reply in your ACP response text. Buzz will publish your reply to the originating channel. Do not send a duplicate reply with the Buzz CLI."@
}

/// The prompt of a turn: the sections of its batch, and the notice that the reply
/// is published for the agent.
pub fn prompt(sections: Vec<String>) -> (r: String)
    ensures
        r@ == joined(texts(sections@).push(publication_notice()), "\n\n"@),
{
    let mut sections: Vec<String> = sections;
    let ghost before = sections@;
    sections.push(
        "Reply in your ACP response text. Buzz will publish your reply to the originating channel. Do not send a duplicate reply with the Buzz CLI.".to_owned(),
    );
    assert(texts(sections@) =~= texts(before).push(publication_notice()));
    join(&sections, "\n\n")
}

/// The types of frames are told apart.
proof fn lemma_frame_types()
    ensures
        "reply"@ != "refusal"@,
        "reply"@ != "event"@,
        "reply"@ != "gap"@,
        "refusal"@ != "event"@,
        "refusal"@ != "gap"@,
{
    reveal_strlit("reply");
    reveal_strlit("refusal");
    reveal_strlit("event");
    reveal_strlit("gap");
    assert("reply"@.len() == 5 && "refusal"@.len() == 7 && "event"@.len() == 5 && "gap"@.len()
        == 3);
    assert("reply"@[0] == 'r' && "event"@[0] == 'e');
}

/// A reply or a refusal that answers another request is never taken for the
/// answer to this one.
pub proof fn replies_are_told_apart(frame: JsonTree, id: u64, other: u64, waiting: nat)
    requires
        id != other,
        frame.field_text("id"@) == Some(decimal(other as nat)),
        frame.field_text("type"@) == Some("reply"@) || frame.field_text("type"@) == Some(
            "refusal"@,
        ),
    ensures
        settle_frame(frame, decimal(id as nat), waiting) == Settlement::Failed(
            Fault { kind: ErrorKind::InvalidData, message: "unexpected shared frame"@ },
        ),
{
    if decimal(id as nat) == decimal(other as nat) {
        crate::text::decimal_injective(id as nat, other as nat);
    }
    lemma_frame_types();
}

/// An event or a gap frame.
pub open spec fn event_frame(frame: JsonTree) -> bool {
    frame.field_text("type"@) == Some("event"@) || frame.field_text("type"@) == Some("gap"@)
}

/// What waits after frames have come while the reply to request `id` was awaited.
pub open spec fn waiting_after(
    pending: Seq<JsonTree>,
    frames: Seq<JsonTree>,
    id: Seq<char>,
) -> Seq<JsonTree>
    decreases frames.len(),
{
    if frames.len() == 0 {
        pending
    } else {
        let before = waiting_after(pending, frames.drop_last(), id);
        if settle_frame(frames.last(), id, before.len()) is Waiting {
            before.push(frames.last())
        } else {
            before
        }
    }
}

/// Event frames that come while a reply is awaited all wait, in the order in
/// which they came, as long as there is room for them.
pub proof fn events_wait_in_order(
    pending: Seq<JsonTree>,
    frames: Seq<JsonTree>,
    id: Seq<char>,
)
    requires
        pending.len() + frames.len() <= MAX_PENDING_EVENTS,
        forall|i: int| 0 <= i < frames.len() ==> event_frame(#[trigger] frames[i]),
    ensures
        waiting_after(pending, frames, id) == pending + frames,
    decreases frames.len(),
{
    if frames.len() == 0 {
        assert(pending + frames =~= pending);
    } else {
        let shorter = frames.drop_last();
        assert forall|i: int| 0 <= i < shorter.len() implies event_frame(#[trigger] shorter[i]) by {
            assert(event_frame(frames[i]));
        }
        events_wait_in_order(pending, shorter, id);
        assert(event_frame(frames[frames.len() - 1]));
        lemma_frame_types();
        assert((pending + shorter).push(frames.last()) =~= pending + frames);
    }
}

proof fn lemma_route_bytes(route: Seq<char>)
    requires
        valid_route(route),
    ensures
        encode_utf8(route).len() == route.len(),
        forall|i: int| 0 <= i < route.len() ==> #[trigger] encode_utf8(route)[i] != 0,
{
    assert(vstd::utf8::is_ascii_chars(route)) by {
        assert forall|i: int| 0 <= i < route.len() implies '\0' <= #[trigger] route[i]
            <= '\u{7f}' by {
            assert(route_char(route[i]));
        }
    }
    vstd::utf8::is_ascii_chars_encode_utf8(route);
    assert forall|i: int| 0 <= i < route.len() implies #[trigger] encode_utf8(route)[i] != 0 by {
        assert(route_char(route[i]));
        assert(route[i] as u8 == encode_utf8(route)[i]);
    }
}

proof fn lemma_id_bytes(id: Seq<u8>)
    requires
        id.len() == 32,
    ensures
        encode_utf8(hex_text(id)).len() == 64,
{
    let text = hex_text(id);
    assert(vstd::utf8::is_ascii_chars(text)) by {
        assert forall|i: int| 0 <= i < text.len() implies '\0' <= #[trigger] text[i]
            <= '\u{7f}' by {
            assert(0 <= i / 2 < id.len());
        }
    }
    vstd::utf8::is_ascii_chars_encode_utf8(text);
}

proof fn lemma_ids_len(events: Seq<BatchEvent>)
    ensures
        ids_text(events).len() == 64 * events.len(),
    decreases events.len(),
{
    if events.len() > 0 {
        lemma_ids_len(events.drop_last());
        lemma_id_bytes(events.last().id@);
    }
}

/// The ids of the events, in order.
pub open spec fn event_ids(events: Seq<BatchEvent>) -> Seq<Seq<u8>> {
    events.map_values(|event: BatchEvent| event.id@)
}

proof fn lemma_ids_injective(a: Seq<BatchEvent>, b: Seq<BatchEvent>)
    requires
        ids_text(a) == ids_text(b),
    ensures
        event_ids(a) == event_ids(b),
    decreases a.len(),
{
    lemma_ids_len(a);
    lemma_ids_len(b);
    if a.len() == 0 {
        assert(event_ids(a) =~= event_ids(b));
    } else {
        let x = ids_text(a.drop_last());
        let y = ids_text(b.drop_last());
        lemma_ids_len(a.drop_last());
        lemma_ids_len(b.drop_last());
        lemma_id_bytes(a.last().id@);
        lemma_id_bytes(b.last().id@);
        assert(x =~= ids_text(a).take(64 * (a.len() - 1)));
        assert(y =~= ids_text(b).take(64 * (a.len() - 1)));
        let p = encode_utf8(hex_text(a.last().id@));
        let q = encode_utf8(hex_text(b.last().id@));
        assert(p =~= ids_text(a).skip(64 * (a.len() - 1)));
        assert(q =~= ids_text(b).skip(64 * (a.len() - 1)));
        vstd::utf8::encode_utf8_decode_utf8(hex_text(a.last().id@));
        vstd::utf8::encode_utf8_decode_utf8(hex_text(b.last().id@));
        crate::ids::hex_text_injective(a.last().id@, b.last().id@);
        lemma_ids_injective(a.drop_last(), b.drop_last());
        assert(event_ids(a) =~= event_ids(a.drop_last()).push(a.last().id@));
        assert(event_ids(b) =~= event_ids(b.drop_last()).push(b.last().id@));
    }
}

/// The submission id depends on the route and on the event ids alone, and two
/// submissions whose digests are taken of the same bytes are to one route, of the
/// same events in the same order.
pub proof fn submission_text_injective(
    route: Seq<char>,
    events: Seq<BatchEvent>,
    other_route: Seq<char>,
    other_events: Seq<BatchEvent>,
)
    requires
        valid_route(route),
        valid_route(other_route),
    ensures
        submission_text(route, events) == submission_text(other_route, other_events) <==> route
            == other_route && event_ids(events) == event_ids(other_events),
{
    let prefix = encode_utf8("buzz-agw-shared-v1\0"@);
    let a = encode_utf8(route);
    let b = encode_utf8(other_route);
    let s = submission_text(route, events);
    let t = submission_text(other_route, other_events);
    lemma_route_bytes(route);
    lemma_route_bytes(other_route);
    if s == t {
        let n = prefix.len() as int;
        assert(s[n + a.len()] == 0);
        assert(t[n + b.len()] == 0);
        if a.len() < b.len() {
            assert(t[n + a.len()] == b[a.len() as int]);
        } else if b.len() < a.len() {
            assert(s[n + b.len()] == a[b.len() as int]);
        }
        assert(a =~= s.subrange(n, n + a.len()));
        assert(b =~= t.subrange(n, n + b.len()));
        vstd::utf8::encode_utf8_decode_utf8(route);
        vstd::utf8::encode_utf8_decode_utf8(other_route);
        assert(ids_text(events) =~= s.skip(n + a.len() + 1));
        assert(ids_text(other_events) =~= t.skip(n + b.len() + 1));
        lemma_ids_injective(events, other_events);
    }
    if route == other_route && event_ids(events) == event_ids(other_events) {
        lemma_ids_determined(events, other_events);
    }
}

proof fn lemma_ids_determined(a: Seq<BatchEvent>, b: Seq<BatchEvent>)
    requires
        event_ids(a) == event_ids(b),
    ensures
        ids_text(a) == ids_text(b),
    decreases a.len(),
{
    assert(event_ids(a).len() == a.len() && event_ids(b).len() == b.len());
    if a.len() > 0 {
        assert(event_ids(a).last() == a.last().id@);
        assert(event_ids(b).last() == b.last().id@);
        assert(event_ids(a.drop_last()) =~= event_ids(a).drop_last());
        assert(event_ids(b.drop_last()) =~= event_ids(b).drop_last());
        lemma_ids_determined(a.drop_last(), b.drop_last());
    }
}

/// The ids of the events determine the submission: whatever else two batches hold,
/// the same events to the same route are the same submission.
pub proof fn event_ids_determine_submission(
    route: Seq<char>,
    events: Seq<BatchEvent>,
    other_events: Seq<BatchEvent>,
)
    requires
        event_ids(events) == event_ids(other_events),
    ensures
        submission_of(route, events) == submission_of(route, other_events),
{
    lemma_ids_determined(events, other_events);
}

/// The texts by which frames are judged are told apart.
proof fn lemma_frame_words()
    ensures
        "reply"@.len() == 5 && "reply"@[0] == 'r',
        "refusal"@.len() == 7,
        "event"@.len() == 5 && "event"@[0] == 'e',
        "gap"@.len() == 3,
        "busy"@.len() == 4,
        "unknown"@.len() == 7,
        "completed"@.len() == 9,
        "canceled"@.len() == 8,
        "failed"@.len() == 6,
        "unknown_outcome"@.len() == 15,
{
    reveal_strlit("reply");
    reveal_strlit("refusal");
    reveal_strlit("event");
    reveal_strlit("gap");
    reveal_strlit("busy");
    reveal_strlit("unknown");
    reveal_strlit("completed");
    reveal_strlit("canceled");
    reveal_strlit("failed");
    reveal_strlit("unknown_outcome");
}

/// What a frame means while a reply is awaited. A reply of the awaited number gives its
/// result, or null where it has none. A refusal of that number fails, and its reason is
/// told; one because the gateway is busy is told from all others. An event or a gap waits,
/// unless as many wait as may. Every other frame is an error.
pub proof fn frames_are_judged(frame: JsonTree, id: Seq<char>, waiting: nat)
    ensures
        ({
            let settled = settle_frame(frame, id, waiting);
            let kind = frame.field("type"@);
            let ours = frame.field("id"@) == Some(JsonTree::Str(id));
            let reply = kind == Some(JsonTree::Str("reply"@)) && ours;
            let refusal = kind == Some(JsonTree::Str("refusal"@)) && ours;
            let event = kind == Some(JsonTree::Str("event"@)) || kind == Some(
                JsonTree::Str("gap"@),
            );
            &&& settled is Reply <==> reply
            &&& reply ==> settled == Settlement::Reply(
                if frame.field("result"@) is Some {
                    frame.field("result"@)->0
                } else {
                    JsonTree::Null
                },
            )
            &&& refusal ==> (settled matches Settlement::Failed(fault) && match frame.field(
                "reason"@,
            ) {
                Some(JsonTree::Str(reason)) => {
                    &&& fault.message == "shared gateway refused: "@ + reason
                    &&& fault.kind is WouldBlock <==> reason == "busy"@
                    &&& fault.kind is PermissionDenied <==> reason != "busy"@
                },
                _ => {
                    &&& fault.message == "shared gateway refused: "@ + "unknown"@
                    &&& fault.kind is PermissionDenied
                },
            })
            &&& settled is Waiting <==> event && waiting != 128
            &&& event && waiting == 128 ==> (settled matches Settlement::Failed(fault)
                && fault.kind is InvalidData && fault.message == "shared event queue overflow"@)
            &&& !reply && !refusal && !event ==> (settled matches Settlement::Failed(fault)
                && fault.kind is InvalidData && fault.message == "unexpected shared frame"@)
        }),
{
    lemma_frame_words();
}

/// A request is sent as one line of JSON: the operation as it is, with the number of the
/// request, in decimal, as its id.
pub proof fn requests_are_numbered(op: JsonTree, id: u64) -> (sent: JsonTree)
    requires
        op is Object,
    ensures
        request_line(op, id) == encode_utf8(crate::json::json_text(sent)).push(10u8),
        sent is Object,
        sent.field("id"@) == Some(JsonTree::Str(decimal(id as nat))),
        forall|name: Seq<char>|
            name != "id"@ ==> #[trigger] sent.field(name) == op.field(name),
{
    op.with("id"@, JsonTree::Str(decimal(id as nat)))
}

/// A task is over in just four states, and each gives its own outcome.
pub proof fn four_states_end_a_task(state: Seq<char>)
    ensures
        task_outcome(state) is Some <==> seq![
            "completed"@,
            "canceled"@,
            "failed"@,
            "unknown_outcome"@,
        ].contains(state),
        state == "completed"@ <==> task_outcome(state) == Some(
            Outcome::Completed("shared turn completed"@),
        ),
        state == "canceled"@ <==> task_outcome(state) == Some(Outcome::Canceled),
        state == "failed"@ <==> task_outcome(state) == Some(
            Outcome::Failed("shared turn failed"@),
        ),
        state == "unknown_outcome"@ <==> task_outcome(state) == Some(
            Outcome::Unknown("shared turn outcome unknown"@),
        ),
{
    lemma_frame_words();
    let four = seq!["completed"@, "canceled"@, "failed"@, "unknown_outcome"@];
    assert(four[0] == "completed"@ && four[1] == "canceled"@ && four[2] == "failed"@ && four[3]
        == "unknown_outcome"@);
}

/// What stands in a value under a row of names, one inside the other.
pub open spec fn at_path(tree: JsonTree, path: Seq<Seq<char>>) -> Option<JsonTree>
    decreases path.len(),
{
    if path.len() == 0 {
        Some(tree)
    } else {
        match tree.field(path[0]) {
            Some(field) => at_path(field, path.drop_first()),
            None => None,
        }
    }
}

/// An event carries a piece of the reply where it is an update of the agent's message, and
/// then the text of the update's content, exactly.
pub proof fn message_updates_carry_text(frame: JsonTree, text: Seq<char>)
    ensures
        ({
            let update = seq!["payload"@, "params"@, "update"@];
            chunk_of(frame) == Some(text) <==> {
                &&& frame.field("kind"@) == Some(JsonTree::Str("acp_update"@))
                &&& at_path(frame, update.push("sessionUpdate"@)) == Some(
                    JsonTree::Str("agent_message_chunk"@),
                )
                &&& at_path(frame, update + seq!["content"@, "text"@]) == Some(
                    JsonTree::Str(text),
                )
            }
        }),
{
    let update = seq!["payload"@, "params"@, "update"@];
    let a = update.push("sessionUpdate"@);
    let b = update + seq!["content"@, "text"@];
    lemma_path(frame, a);
    lemma_path(frame, b);
    assert(a.drop_first() =~= seq!["params"@, "update"@, "sessionUpdate"@]);
    assert(b.drop_first() =~= seq!["params"@, "update"@, "content"@, "text"@]);
    assert(seq!["params"@, "update"@, "sessionUpdate"@].drop_first() =~= seq![
        "update"@,
        "sessionUpdate"@,
    ]);
    assert(seq!["update"@, "sessionUpdate"@].drop_first() =~= seq!["sessionUpdate"@]);
    assert(seq!["sessionUpdate"@].drop_first() =~= Seq::<Seq<char>>::empty());
    assert(seq!["params"@, "update"@, "content"@, "text"@].drop_first() =~= seq![
        "update"@,
        "content"@,
        "text"@,
    ]);
    assert(seq!["update"@, "content"@, "text"@].drop_first() =~= seq!["content"@, "text"@]);
    assert(seq!["content"@, "text"@].drop_first() =~= seq!["text"@]);
    assert(seq!["text"@].drop_first() =~= Seq::<Seq<char>>::empty());
    reveal_with_fuel(at_path, 7);
}

proof fn lemma_path(tree: JsonTree, path: Seq<Seq<char>>)
    ensures
        path.len() > 0 ==> at_path(tree, path) == match tree.field(path[0]) {
            Some(field) => at_path(field, path.drop_first()),
            None => None,
        },
{
}

/// A route is named by 1 to 128 characters out of this alphabet.
pub proof fn routes_have_plain_names(route: Seq<char>)
    ensures
        valid_route(route) <==> 1 <= route.len() <= 128 && forall|i: int|
            0 <= i < route.len() ==> {
                let c = #[trigger] route[i] as int;
                48 <= c <= 57 || 65 <= c <= 90 || 97 <= c <= 122 || c == 45 || c == 46 || c == 95
            },
{
    assert forall|c: char|
        #![trigger route_char(c)]
        route_char(c) <==> {
            let n = c as int;
            48 <= n <= 57 || 65 <= n <= 90 || 97 <= n <= 122 || n == 45 || n == 46 || n == 95
        } by {}
    if valid_route(route) {
        assert forall|i: int| 0 <= i < route.len() implies ({
            let c = #[trigger] route[i] as int;
            48 <= c <= 57 || 65 <= c <= 90 || 97 <= c <= 122 || c == 45 || c == 46 || c == 95
        }) by {
            assert(route_char(route[i]));
        }
    }
}

/// A line ends at its line feed. One that grows beyond its limit is an error of the data.
pub proof fn lines_have_a_limit(line: Seq<u8>, limit: nat, byte: u8)
    ensures
        line_step(line, limit, byte) == Ok::<bool, Fault>(true) <==> byte == 10,
        line_step(line, limit, byte) == Ok::<bool, Fault>(false) <==> byte != 10 && line.len()
            != limit,
        byte != 10 && line.len() == limit ==> line_step(line, limit, byte) == Err::<bool, Fault>(
            Fault { kind: ErrorKind::InvalidData, message: "shared frame too large"@ },
        ),
{
}

/// A line that is JSON is the frame that it spells; any other is an error, in the words of
/// the reader.
pub proof fn frames_are_json(frame: JsonTree, message: Seq<char>)
    ensures
        frame_of(Ok(frame)) == Ok::<JsonTree, Fault>(frame),
        frame_of(Err(message)) == Err::<JsonTree, Fault>(
            Fault { kind: ErrorKind::Other, message },
        ),
{
}

/// A submission is named after the digest of one text: the version of the naming, the route
/// and the ids of the events in hexadecimal, with a zero after the version and the route.
pub proof fn submissions_are_named_by_route_and_events(
    route: Seq<char>,
    events: Seq<BatchEvent>,
)
    ensures
        submission_of(route, events) == "buzz-"@ + hex_text(
            sha256(
                encode_utf8(
                    "buzz-agw-shared-v1\0"@ + route + seq!['\0'] + joined(
                        events.map_values(|event: BatchEvent| hex_text(event.id@)),
                        Seq::empty(),
                    ),
                ),
            ),
        ),
{
    let ids = joined(
        events.map_values(|event: BatchEvent| hex_text(event.id@)),
        Seq::empty(),
    );
    lemma_ids_joined(events);
    let prefix = "buzz-agw-shared-v1\0"@;
    crate::text::encode_utf8_adds(prefix, route);
    crate::text::encode_utf8_adds(prefix + route, seq!['\0']);
    crate::text::encode_utf8_adds(prefix + route + seq!['\0'], ids);
    let zero = seq!['\0'];
    assert(vstd::utf8::is_ascii_chars(zero));
    vstd::utf8::is_ascii_chars_encode_utf8(zero);
    assert(zero[0] as u8 == 0);
    assert(encode_utf8(zero) =~= seq![0u8]);
}

proof fn lemma_ids_joined(events: Seq<BatchEvent>)
    ensures
        encode_utf8(
            joined(
                events.map_values(|event: BatchEvent| hex_text(event.id@)),
                Seq::empty(),
            ),
        ) == ids_text(events),
    decreases events.len(),
{
    let texts = events.map_values(|event: BatchEvent| hex_text(event.id@));
    let none = Seq::<char>::empty();
    if events.len() == 0 {
        assert(joined(texts, none) =~= none);
        vstd::utf8::is_ascii_chars_encode_utf8(none);
        assert(encode_utf8(none) =~= Seq::<u8>::empty());
    } else {
        let front = events.drop_last();
        lemma_ids_joined(front);
        let front_texts = front.map_values(|event: BatchEvent| hex_text(event.id@));
        assert(texts.drop_last() =~= front_texts);
        let last = hex_text(events.last().id@);
        assert(texts.last() == last);
        if events.len() == 1 {
            assert(joined(front_texts, none) =~= none);
            assert(joined(texts, none) =~= joined(front_texts, none) + last);
        } else {
            assert(joined(texts, none) =~= joined(front_texts, none) + last);
        }
        crate::text::encode_utf8_adds(joined(front_texts, none), last);
    }
}

/// A prompt is the sections of its batch, in order, and then the notice that the reply is
/// published for the agent, with a blank line between each.
pub proof fn prompts_end_with_the_notice(sections: Seq<Seq<char>>)
    ensures
        ({
            let notice =
                "Reply in your ACP response text. Buzz will publish your reply to the originating channel. Do not send a duplicate reply with the Buzz CLI."@;
            joined(sections.push(publication_notice()), "\n\n"@) == if sections.len() == 0 {
                notice
            } else {
                joined(sections, "\n\n"@) + "\n\n"@ + notice
            }
        }),
{
    assert(sections.push(publication_notice()).drop_last() =~= sections);
}

/// What a frame amounts to is seen as it is, and so is what reading a line gave.
pub proof fn settlements_are_seen_as_they_are(settled: Settled, read: Result<Json, WireError>)
    ensures
        match settled {
            Settled::Reply(json) => settled@ == Settlement::Reply(json@),
            Settled::Failed(error) => settled@ == Settlement::Failed(error@),
            Settled::Waiting => settled@ is Waiting,
        },
        match read {
            Ok(frame) => frame_view(read) == Ok::<JsonTree, Fault>(frame@),
            Err(error) => frame_view(read) == Err::<JsonTree, Fault>(error@),
        },
{
}

/// A connection is greeted with the version of the protocol and the route, a line each; a
/// route that has no plain name is refused.
pub proof fn greetings_name_the_route(route: &str, r: Result<Vec<u8>, WireError>)
    requires
        call_ensures(greeting, (route,), r),
    ensures
        r is Ok <==> valid_route(route@),
        r matches Ok(bytes) ==> bytes@ == encode_utf8("AGW-SHARED/1\n"@ + route@ + seq!['\n']),
        r matches Err(error) ==> error@.kind is InvalidInput && error@.message
            == "invalid shared route"@,
{
    let newline = seq!['\n'];
    crate::text::encode_utf8_adds("AGW-SHARED/1\n"@, route@);
    crate::text::encode_utf8_adds("AGW-SHARED/1\n"@ + route@, newline);
    assert(vstd::utf8::is_ascii_chars(newline));
    vstd::utf8::is_ascii_chars_encode_utf8(newline);
    assert(newline[0] as u8 == 10);
    assert(encode_utf8(newline) =~= seq![10u8]);
}

/// A connection is admitted by the two letters `OK`, and by nothing else.
pub proof fn only_ok_admits(answer: &[u8], r: Result<(), WireError>)
    requires
        call_ensures(admitted, (answer,), r),
    ensures
        r is Ok <==> answer@ == seq![79u8, 75u8],
        r matches Err(error) ==> error@.kind is PermissionDenied && error@.message
            == "shared route refused"@,
{
    reveal_strlit("OK");
    let ok = "OK"@;
    assert(vstd::utf8::is_ascii_chars(ok));
    vstd::utf8::is_ascii_chars_encode_utf8(ok);
    assert(ok[0] as u8 == 79 && ok[1] as u8 == 75);
    assert(encode_utf8(ok) =~= seq![79u8, 75u8]);
}

/// The state of a task is the one that the reply gives; a reply that gives none is an error.
pub proof fn task_states_are_read(result: &Json, r: Result<String, WireError>)
    requires
        call_ensures(task_state, (result,), r),
    ensures
        match result@.field("state"@) {
            Some(JsonTree::Str(state)) => r is Ok && r->Ok_0@ == state,
            _ => r is Err && r->Err_0@ == (Fault {
                kind: ErrorKind::InvalidData,
                message: "shared task disappeared"@,
            }),
        },
{
}

/// The prompt leaves publishing to Buzz: the agent is not told to publish its reply itself,
/// and hears that it is published for it. It gets the channel, where that was found, and the
/// prompts and instructions that were given.
pub proof fn prompts_leave_publishing_to_buzz<C, E>(
    channel: Result<Option<C>, E>,
    system_prompt: Option<String>,
    team_instructions: Option<String>,
    r: PromptArgs<C>,
)
    requires
        call_ensures(prompt_args::<C, E>, (channel, system_prompt, team_instructions), r),
    ensures
        r.harness_publishes_reply,
        r.base_prompt is None,
        channel is Err ==> r.channel_info is None,
        channel matches Ok(info) ==> r.channel_info == info,
        r.system_prompt == system_prompt,
        r.team_instructions == team_instructions,
{
}

/// A batch is submitted under the id of its route and its own events.
pub proof fn batches_have_their_submission(route: &str, batch: &FlushBatch, r: String)
    requires
        call_ensures(submission_id, (route, batch), r),
    ensures
        r@ == submission_of(route@, batch.events@),
{
}

/// Requests are numbered from 1 on, one after the other, and each is sent with its own
/// number. What is no object, or is too long, is not sent. What waits is left alone.
pub proof fn requests_are_numbered_in_order(
    connection: &mut Connection,
    op: Json,
    r: Result<Vec<u8>, WireError>,
)
    requires
        call_ensures(Connection::request, (connection, op), r),
    ensures
        final(connection)@.pending == old(connection)@.pending,
        old(connection)@.last_id < u64::MAX ==> final(connection)@.last_id
            == old(connection)@.last_id + 1,
        r matches Ok(line) ==> {
            &&& op@ is Object
            &&& line@ == request_line(op@, final(connection)@.last_id)
            &&& line@.len() <= 1048577
            &&& final(connection)@.last_id == old(connection)@.last_id + 1
        },
        old(connection)@.last_id < u64::MAX && op@ is Object && request_line(
            op@,
            final(connection)@.last_id,
        ).len() <= 1048577 ==> r is Ok,
        r matches Err(error) ==> if old(connection)@.last_id == u64::MAX {
            error@.kind is InvalidData && error@.message == "shared request ID exhausted"@
        } else if op@ is Object {
            error@.kind is InvalidInput && error@.message == "shared request too large"@
        } else {
            error@.kind is InvalidInput && error@.message == "invalid request"@
        },
{
}

/// A frame is judged by the number of the last request. One that waits is put behind those
/// that wait already; any other leaves them as they were.
pub proof fn waiting_frames_are_queued(connection: &mut Connection, frame: Json, r: Settled)
    requires
        call_ensures(Connection::settle, (connection, frame), r),
    ensures
        r@ == settle_frame(
            frame@,
            decimal(old(connection)@.last_id as nat),
            old(connection)@.pending.len(),
        ),
        r is Waiting ==> final(connection)@.pending == old(connection)@.pending.push(frame@),
        !(r is Waiting) ==> final(connection)@.pending == old(connection)@.pending,
        final(connection)@.last_id == old(connection)@.last_id,
{
}

/// The frame that has waited longest comes first.
pub proof fn oldest_frame_comes_first(connection: &mut Connection, r: Option<Json>)
    requires
        call_ensures(Connection::next_event, (connection,), r),
    ensures
        r is Some <==> old(connection)@.pending.len() > 0,
        r matches Some(frame) ==> old(connection)@.pending == seq![frame@]
            + final(connection)@.pending,
        r is None ==> final(connection)@.pending == old(connection)@.pending,
        final(connection)@.last_id == old(connection)@.last_id,
{
    if r is Some {
        assert(old(connection)@.pending =~= seq![r->0@] + old(connection)@.pending.drop_first());
    }
}

} // verus!
