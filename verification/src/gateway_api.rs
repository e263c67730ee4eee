//! The gateway's `/v0` HTTP contract over its Unix socket: what is asked, how
//! the question is framed, and how the answer is read.
use vstd::prelude::*;
use vstd::string::StringExecFns;
use vstd::utf8::{decode_utf8, encode_utf8, valid_utf8};

use crate::text::cat2;
use crate::text::cat3;
use crate::text::cat5;
use crate::text::decimal;
use crate::text::decimal_has_no_white_space;
use crate::text::decimal_is_read_back;
use crate::text::decimal_text;
use crate::text::find_first_line;
use crate::text::find_second_word;
use crate::text::first_line;
use crate::text::first_line_ends_at_the_line_feed;
use crate::text::parse_u16;
use crate::text::parsed_u16;
use crate::text::second_word;
use crate::text::second_word_stands_alone;
use crate::text::white_space;
use crate::wire::ErrorKind;
use crate::wire::Fault;
use crate::wire::WireError;

verus! {

/// The most bytes that a response may have.
pub const MAX_RESPONSE_BYTES: usize = 2097152;

/// Why a call to the gateway brought no answer.
#[derive(Debug, PartialEq)]
pub enum ClientError {
    Io(WireError),
    Json(String),
    Http(u16),
    InvalidResponse,
}

/// What a [`ClientError`] says.
pub enum CallError {
    Io(Fault),
    Json(Seq<char>),
    Http(u16),
    InvalidResponse,
}

impl View for ClientError {
    type V = CallError;

    open spec fn view(&self) -> CallError {
        match self {
            ClientError::Io(error) => CallError::Io(error@),
            ClientError::Json(message) => CallError::Json(message@),
            ClientError::Http(status) => CallError::Http(*status),
            ClientError::InvalidResponse => CallError::InvalidResponse,
        }
    }
}

impl CallError {
    pub open spec fn message(self) -> Seq<char> {
        match self {
            CallError::Io(fault) => "gateway I/O error: "@ + fault.message,
            CallError::Json(message) => "gateway JSON error: "@ + message,
            CallError::Http(status) => "gateway returned HTTP "@ + decimal(status as nat),
            CallError::InvalidResponse => "invalid gateway HTTP response"@,
        }
    }
}

impl ClientError {
    /// The error in words.
    pub fn message(&self) -> (r: String)
        ensures
            r@ == self@.message(),
    {
        match self {
            ClientError::Io(error) => cat2("gateway I/O error: ", error.message.as_str()),
            ClientError::Json(message) => cat2("gateway JSON error: ", message.as_str()),
            ClientError::Http(status) => cat2(
                "gateway returned HTTP ",
                decimal_text(*status as u64).as_str(),
            ),
            ClientError::InvalidResponse => "invalid gateway HTTP response".to_owned(),
        }
    }
}

/// A route as the gateway lists it.
#[derive(Debug, Clone, PartialEq)]
pub struct RouteView {
    pub id: String,
    pub agent_id: String,
    pub contexts: Vec<String>,
    pub workspace_path: String,
    pub permission_profile: String,
}

/// A job to run.
#[derive(Debug, PartialEq)]
pub struct SubmitJobRequest {
    pub route_id: Option<String>,
    pub agent_id: Option<String>,
    pub context_id: Option<String>,
    pub thread_id: Option<String>,
    pub task: String,
    pub permission_profile: Option<String>,
    pub side_effect_class: Option<String>,
    pub priority: Option<String>,
    pub timeout_ms: Option<i64>,
    pub idempotency_key: Option<String>,
    pub source_id: Option<String>,
}

/// A job as the gateway reports it.
#[derive(Debug, PartialEq)]
pub struct JobView {
    pub state: String,
    pub reason: Option<String>,
    pub result: Option<JobResult>,
}

/// What the worker left of a job.
#[derive(Debug, PartialEq)]
pub struct JobResult {
    pub summary: String,
}

/// One question to the gateway.
#[derive(Debug, PartialEq)]
pub enum Question {
    Status,
    Routes,
    SetRoute,
    Submit,
    Job(String),
    Cancel(String),
}

impl Question {
    pub open spec fn method_text(&self) -> Seq<char> {
        match self {
            Question::Status | Question::Routes | Question::Job(_) => "GET"@,
            Question::SetRoute | Question::Submit | Question::Cancel(_) => "POST"@,
        }
    }

    pub open spec fn path_text(&self) -> Seq<char> {
        match self {
            Question::Status => "/v0/status"@,
            Question::Routes | Question::SetRoute => "/v0/routes"@,
            Question::Submit => "/v0/jobs"@,
            Question::Job(id) => "/v0/jobs/"@ + id@,
            Question::Cancel(id) => "/v0/jobs/"@ + id@ + "/cancel"@,
        }
    }

    /// The HTTP method of the question.
    pub fn method(&self) -> (r: &'static str)
        ensures
            r@ == self.method_text(),
    {
        match self {
            Question::Status => "GET",
            Question::Routes => "GET",
            Question::Job(_) => "GET",
            Question::SetRoute => "POST",
            Question::Submit => "POST",
            Question::Cancel(_) => "POST",
        }
    }

    /// The path of the question.
    pub fn path(&self) -> (r: String)
        ensures
            r@ == self.path_text(),
    {
        match self {
            Question::Status => "/v0/status".to_owned(),
            Question::Routes => "/v0/routes".to_owned(),
            Question::SetRoute => "/v0/routes".to_owned(),
            Question::Submit => "/v0/jobs".to_owned(),
            Question::Job(id) => cat2("/v0/jobs/", id.as_str()),
            Question::Cancel(id) => cat3("/v0/jobs/", id.as_str(), "/cancel"),
        }
    }
}

/// The head of the HTTP request with that many bytes of body.
pub open spec fn request_head(method: Seq<char>, path: Seq<char>, body_len: nat) -> Seq<char> {
    method + " "@ + path
        + " HTTP/1.1\r\nHost: localhost\r\nConnection: close\r\nContent-Type: application/json\r\nContent-Length: "@
        + decimal(body_len) + "\r\n\r\n"@
}

/// The bytes of the HTTP request that puts a question, with its body.
pub fn request_bytes(question: &Question, body: &[u8]) -> (r: Vec<u8>)
    ensures
        r@ == encode_utf8(
            request_head(question.method_text(), question.path_text(), body@.len()),
        ) + body@,
{
    let length: String = decimal_text(body.len() as u64);
    let mut head: String = cat5(
        question.method(),
        " ",
        question.path().as_str(),
        " HTTP/1.1\r\nHost: localhost\r\nConnection: close\r\nContent-Type: application/json\r\nContent-Length: ",
        length.as_str(),
    );
    head.append("\r\n\r\n");
    let mut r: Vec<u8> = Vec::new();
    r.extend_from_slice(head.as_str().as_bytes());
    r.extend_from_slice(body);
    r
}

/// Adds what was read to a response, unless it would then be too large.
pub fn receive(response: &mut Vec<u8>, chunk: &[u8]) -> (r: Result<(), ClientError>)
    ensures
        old(response)@.len() + chunk@.len() <= MAX_RESPONSE_BYTES ==> r is Ok && final(response)@
            == old(response)@ + chunk@,
        old(response)@.len() + chunk@.len() > MAX_RESPONSE_BYTES ==> final(response)@ == old(
            response,
        )@ && (r matches Err(error) && error@ == CallError::Io(
            Fault { kind: ErrorKind::InvalidData, message: "gateway response too large"@ },
        )),
{
    if response.len().saturating_add(chunk.len()) > MAX_RESPONSE_BYTES {
        return Err(
            ClientError::Io(WireError::new(ErrorKind::InvalidData, "gateway response too large")),
        );
    }
    response.extend_from_slice(chunk);
    Ok(())
}

/// The bytes of a carriage return and a line feed, twice.
pub open spec fn blank_line() -> Seq<u8> {
    seq![13u8, 10u8, 13u8, 10u8]
}

/// Where the first blank line at or after `from` starts.
pub open spec fn head_end(bytes: Seq<u8>, from: int) -> Option<int>
    decreases bytes.len() - from,
{
    if from < 0 || from + 4 > bytes.len() {
        None
    } else if bytes.subrange(from, from + 4) == blank_line() {
        Some(from)
    } else {
        head_end(bytes, from + 1)
    }
}

/// The status code that the head of a response gives.
pub open spec fn head_status(head: Seq<u8>) -> Option<u16> {
    if valid_utf8(head) {
        match first_line(decode_utf8(head)) {
            Some(line) => match second_word(line) {
                Some(word) => parsed_u16(word),
                None => None,
            },
            None => None,
        }
    } else {
        None
    }
}

/// What a response amounts to: its body where the status is 200.
pub open spec fn response_body(bytes: Seq<u8>) -> Result<Seq<u8>, CallError> {
    match head_end(bytes, 0) {
        Some(end) => match head_status(bytes.take(end)) {
            Some(status) => if status == 200 {
                Ok(bytes.skip(end + 4))
            } else {
                Err(CallError::Http(status))
            },
            None => Err(CallError::InvalidResponse),
        },
        None => Err(CallError::InvalidResponse),
    }
}

/// `std::str::from_utf8`: the text that the bytes encode, if they are UTF-8.
#[verifier::external_body]
fn utf8_text(bytes: &[u8]) -> (r: Option<String>)
    ensures
        r is Some <==> valid_utf8(bytes@),
        r matches Some(text) ==> text@ == decode_utf8(bytes@),
{
    std::str::from_utf8(bytes).ok().map(|text: &str| text.to_owned())
}

fn find_head_end(bytes: &[u8]) -> (r: Option<usize>)
    ensures
        match r {
            Some(end) => head_end(bytes@, 0) == Some(end as int) && end + 4 <= bytes@.len(),
            None => head_end(bytes@, 0) is None,
        },
{
    let mut i: usize = 0;
    while i < bytes.len() && bytes.len() - i >= 4
        invariant
            i <= bytes@.len(),
            head_end(bytes@, 0) == head_end(bytes@, i as int),
        decreases bytes@.len() - i,
    {
        if bytes[i] == 13 && bytes[i + 1] == 10 && bytes[i + 2] == 13 && bytes[i + 3] == 10 {
            assert(bytes@.subrange(i as int, i + 4) =~= blank_line());
            return Some(i);
        }
        assert(bytes@.subrange(i as int, i + 4) != blank_line()) by {
            let part = bytes@.subrange(i as int, i + 4);
            assert(part[0] == bytes@[i as int] && part[1] == bytes@[i + 1] && part[2] == bytes@[i
                + 2] && part[3] == bytes@[i + 3]);
        }
        i = i + 1;
    }
    None
}

fn find_status(head: &[u8]) -> (r: Option<u16>)
    ensures
        r == head_status(head@),
{
    match utf8_text(head) {
        Some(text) => match find_first_line(text.as_str()) {
            Some(line) => match find_second_word(line.as_str()) {
                Some(word) => parse_u16(word.as_str()),
                None => None,
            },
            None => None,
        },
        None => None,
    }
}

/// Reads a whole response: its body where the status is 200.
pub fn read_response(bytes: &[u8]) -> (r: Result<Vec<u8>, ClientError>)
    ensures
        match r {
            Ok(body) => response_body(bytes@) == Ok::<Seq<u8>, CallError>(body@),
            Err(error) => response_body(bytes@) == Err::<Seq<u8>, CallError>(error@),
        },
{
    let end: usize = match find_head_end(bytes) {
        Some(end) => end,
        None => {
            return Err(ClientError::InvalidResponse);
        },
    };
    let head: &[u8] = vstd::slice::slice_subrange(bytes, 0, end);
    assert(head@ =~= bytes@.take(end as int));
    match find_status(head) {
        Some(status) => {
            if status == 200 {
                let len: usize = bytes.len();
                let rest: &[u8] = vstd::slice::slice_subrange(bytes, end + 4, len);
                assert(rest@ =~= bytes@.skip(end + 4));
                Ok(vstd::slice::slice_to_vec(rest))
            } else {
                Err(ClientError::Http(status))
            }
        },
        None => Err(ClientError::InvalidResponse),
    }
}

/// The first blank line stays where it is, whatever follows it.
proof fn head_end_stays(start: Seq<u8>, rest: Seq<u8>, from: int)
    requires
        head_end(start, from) is Some,
    ensures
        head_end(start + rest, from) == head_end(start, from),
    decreases start.len() - from,
{
    assert((start + rest).subrange(from, from + 4) =~= start.subrange(from, from + 4));
    if start.subrange(from, from + 4) != blank_line() {
        head_end_stays(start, rest, from + 1);
    }
}

/// What a response holds is what follows its head, byte for byte, where the head
/// gives the status 200: no byte of the body, not even a blank line in it, is taken
/// for the head.
pub proof fn body_follows_the_head(head: Seq<u8>, body: Seq<u8>)
    requires
        head_end(head + blank_line(), 0) == Some(head.len() as int),
        head_status(head) is Some,
    ensures
        response_body(head + blank_line() + body) == if head_status(head) == Some(200u16) {
            Ok::<Seq<u8>, CallError>(body)
        } else {
            Err(CallError::Http(head_status(head)->0))
        },
{
    let bytes = head + blank_line() + body;
    head_end_stays(head + blank_line(), body, 0);
    assert(bytes.take(head.len() as int) =~= head);
    assert(bytes.skip(head.len() as int + 4) =~= body);
}

/// An error says what went wrong, and the status where the gateway gave one.
pub proof fn call_errors_say_what_went_wrong(fault: Fault, message: Seq<char>, status: u16)
    ensures
        CallError::Io(fault).message() == "gateway I/O error: "@ + fault.message,
        CallError::Json(message).message() == "gateway JSON error: "@ + message,
        CallError::Http(status).message() == "gateway returned HTTP "@ + decimal(status as nat),
        CallError::InvalidResponse.message() == "invalid gateway HTTP response"@,
{
}

/// Questions that only read are put with GET, and those that change something with POST.
/// Each is put under its own path, with the id of the job that it is about.
pub proof fn questions_have_their_paths(question: Question)
    ensures
        question is Status || question is Routes || question is Job <==> question.method_text()
            == "GET"@,
        question is SetRoute || question is Submit || question is Cancel
            <==> question.method_text() == "POST"@,
        match question {
            Question::Status => question.path_text() == "/v0/status"@,
            Question::Routes | Question::SetRoute => question.path_text() == "/v0/routes"@,
            Question::Submit => question.path_text() == "/v0/jobs"@,
            Question::Job(id) => question.path_text() == "/v0/jobs/"@ + id@,
            Question::Cancel(id) => question.path_text() == "/v0/jobs/"@ + id@ + "/cancel"@,
        },
{
    reveal_strlit("GET");
    reveal_strlit("POST");
    assert("GET"@.len() != "POST"@.len());
}

/// The head of a request begins with its method, its path and the version, tells that the
/// connection closes and that the body is JSON, and ends with the length of the body and a
/// blank line.
pub proof fn heads_tell_the_length_of_the_body(
    method: Seq<char>,
    path: Seq<char>,
    body_len: nat,
)
    ensures
        request_head(method, path, body_len) == method + seq![' '] + path + seq![' ']
            + "HTTP/1.1\r\n"@ + "Host: localhost\r\n"@ + "Connection: close\r\n"@
            + "Content-Type: application/json\r\n"@ + "Content-Length: "@ + decimal(body_len)
            + "\r\n\r\n"@,
{
    reveal_strlit(" ");
    reveal_strlit(
        " HTTP/1.1\r\nHost: localhost\r\nConnection: close\r\nContent-Type: application/json\r\nContent-Length: ",
    );
    reveal_strlit("HTTP/1.1\r\n");
    reveal_strlit("Host: localhost\r\n");
    reveal_strlit("Connection: close\r\n");
    reveal_strlit("Content-Type: application/json\r\n");
    reveal_strlit("Content-Length: ");
    assert(
        " HTTP/1.1\r\nHost: localhost\r\nConnection: close\r\nContent-Type: application/json\r\nContent-Length: "@
        =~= seq![' '] + "HTTP/1.1\r\n"@ + "Host: localhost\r\n"@ + "Connection: close\r\n"@
        + "Content-Type: application/json\r\n"@ + "Content-Length: "@);
    assert(" "@ =~= seq![' ']);
    assert(request_head(method, path, body_len) =~= method + seq![' '] + path + seq![' ']
        + "HTTP/1.1\r\n"@ + "Host: localhost\r\n"@ + "Connection: close\r\n"@
        + "Content-Type: application/json\r\n"@ + "Content-Length: "@ + decimal(body_len)
        + "\r\n\r\n"@);
}

/// The status of a response is the number that follows the version on the first line of its
/// head, whatever stands behind it there and on the lines below.
pub proof fn status_follows_the_version(
    version: Seq<char>,
    status: u16,
    phrase: Seq<char>,
    rest: Seq<char>,
)
    requires
        version.len() > 0,
        forall|i: int| 0 <= i < version.len() ==> !white_space(#[trigger] version[i]),
        !phrase.contains('\n'),
    ensures
        head_status(
            encode_utf8(
                version + seq![' '] + decimal(status as nat) + seq![' '] + phrase + seq!['\r', '\n']
                    + rest,
            ),
        ) == Some(status),
{
    let number = decimal(status as nat);
    let line = version + seq![' '] + number + seq![' '] + phrase;
    let text = line + seq!['\r', '\n'] + rest;
    assert(text =~= version + seq![' '] + number + seq![' '] + phrase + seq!['\r', '\n'] + rest);
    vstd::utf8::encode_utf8_valid_utf8(text);
    vstd::utf8::encode_utf8_decode_utf8(text);
    decimal_has_no_white_space(status as nat);
    assert(!line.contains('\n')) by {
        if line.contains('\n') {
            let i = choose|i: int| 0 <= i < line.len() && line[i] == '\n';
            let a = version.len() as int;
            let b = number.len() as int;
            if i < a {
                assert(line[i] == version[i]);
            } else if i == a {
                assert(line[i] == ' ');
            } else if i <= a + b {
                assert(line[i] == number[i - a - 1]);
            } else if i == a + b + 1 {
                assert(line[i] == ' ');
            } else {
                assert(line[i] == phrase[i - a - b - 2]);
                assert(phrase.contains('\n'));
            }
        }
    }
    first_line_ends_at_the_line_feed(line, rest);
    let none = Seq::<char>::empty();
    second_word_stands_alone(none, version, seq![' '], number, seq![' '] + phrase);
    assert(none + version + seq![' '] + number + (seq![' '] + phrase) =~= line);
    decimal_is_read_back(status as nat);
}

/// The head of a response ends at its first blank line: a carriage return and a line feed,
/// twice. A response without one has no head.
pub proof fn head_ends_at_the_first_blank_line(bytes: Seq<u8>, from: int)
    requires
        0 <= from,
    ensures
        match head_end(bytes, from) {
            Some(end) => {
                &&& from <= end <= bytes.len() - 4
                &&& bytes[end] == 13 && bytes[end + 1] == 10 && bytes[end + 2] == 13 && bytes[end
                    + 3] == 10
                &&& forall|i: int|
                    from <= i < end ==> !(#[trigger] bytes[i] == 13 && bytes[i + 1] == 10
                        && bytes[i + 2] == 13 && bytes[i + 3] == 10)
            },
            None => forall|i: int|
                from <= i <= bytes.len() - 4 ==> !(#[trigger] bytes[i] == 13 && bytes[i + 1] == 10
                    && bytes[i + 2] == 13 && bytes[i + 3] == 10),
        },
    decreases bytes.len() - from,
{
    if from + 4 <= bytes.len() {
        let part = bytes.subrange(from, from + 4);
        assert(part[0] == bytes[from] && part[1] == bytes[from + 1] && part[2] == bytes[from + 2]
            && part[3] == bytes[from + 3]);
        if bytes[from] == 13 && bytes[from + 1] == 10 && bytes[from + 2] == 13 && bytes[from + 3]
            == 10 {
            assert(part =~= blank_line());
        }
        if part != blank_line() {
            head_ends_at_the_first_blank_line(bytes, from + 1);
        }
    }
}

/// A head gives a status where it is UTF-8 and the second word of its first line is a number
/// of 16 bits; that number is the status.
pub proof fn status_is_the_second_word(head: Seq<u8>, status: u16)
    ensures
        head_status(head) == Some(status) <==> {
            &&& valid_utf8(head)
            &&& first_line(decode_utf8(head)) matches Some(line) && second_word(
                line,
            ) matches Some(word) && parsed_u16(word) == Some(status)
        },
{
}

/// A response without a head, or whose head gives no status, is invalid. One of the status
/// 200 is its body, which is all that follows the blank line; any other status is an error
/// that tells the status.
pub proof fn only_status_200_is_an_answer(bytes: Seq<u8>)
    ensures
        match head_end(bytes, 0) {
            None => response_body(bytes) == Err::<Seq<u8>, CallError>(CallError::InvalidResponse),
            Some(end) => match head_status(bytes.take(end)) {
                None => response_body(bytes) == Err::<Seq<u8>, CallError>(
                    CallError::InvalidResponse,
                ),
                Some(status) => if status == 200 {
                    response_body(bytes) == Ok::<Seq<u8>, CallError>(bytes.skip(end + 4))
                } else {
                    response_body(bytes) == Err::<Seq<u8>, CallError>(CallError::Http(status))
                },
            },
        },
{
}

/// An error says what it holds.
pub proof fn call_errors_are_seen_as_they_are(error: ClientError)
    ensures
        match error {
            ClientError::Io(inner) => error@ == CallError::Io(inner@),
            ClientError::Json(message) => error@ == CallError::Json(message@),
            ClientError::Http(status) => error@ == CallError::Http(status),
            ClientError::InvalidResponse => error@ == CallError::InvalidResponse,
        },
{
}

/// A question is put by its head and then its body, byte for byte, and the head tells how
/// long the body is.
pub proof fn questions_are_put_with_their_body(question: &Question, body: &[u8], r: Vec<u8>)
    requires
        call_ensures(request_bytes, (question, body), r),
    ensures
        ({
            let head = encode_utf8(
                question.method_text() + seq![' '] + question.path_text() + seq![' ']
                    + "HTTP/1.1\r\n"@ + "Host: localhost\r\n"@ + "Connection: close\r\n"@
                    + "Content-Type: application/json\r\n"@ + "Content-Length: "@ + decimal(
                    body@.len(),
                ) + "\r\n\r\n"@,
            );
            &&& r@.len() == head.len() + body@.len()
            &&& r@.take(head.len() as int) == head
            &&& r@.skip(head.len() as int) == body@
        }),
{
    heads_tell_the_length_of_the_body(
        question.method_text(),
        question.path_text(),
        body@.len(),
    );
    let head = encode_utf8(
        request_head(question.method_text(), question.path_text(), body@.len()),
    );
    assert(r@.take(head.len() as int) =~= head);
    assert(r@.skip(head.len() as int) =~= body@);
}

/// A response grows by what is read of it, up to two mebibytes; what would make it larger is
/// not taken.
pub proof fn responses_have_a_limit(
    response: &mut Vec<u8>,
    chunk: &[u8],
    r: Result<(), ClientError>,
)
    requires
        call_ensures(receive, (response, chunk), r),
    ensures
        r is Ok <==> old(response)@.len() + chunk@.len() <= 2097152,
        r is Ok ==> final(response)@ == old(response)@ + chunk@,
        r matches Err(error) ==> final(response)@ == old(response)@ && error@ == CallError::Io(
            Fault { kind: ErrorKind::InvalidData, message: "gateway response too large"@ },
        ),
{
}

} // verus!
