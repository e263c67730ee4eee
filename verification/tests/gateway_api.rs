use buzz_gateway::gateway_api::{
    read_response, receive, request_bytes, ClientError, Question, MAX_RESPONSE_BYTES,
};
use buzz_gateway::wire::{ErrorKind, WireError};

#[test]
fn a_question_is_framed_as_an_http_request() {
    assert_eq!(
        request_bytes(&Question::Cancel("j1".to_string()), b""),
        b"POST /v0/jobs/j1/cancel HTTP/1.1\r\nHost: localhost\r\nConnection: close\r\nContent-Type: application/json\r\nContent-Length: 0\r\n\r\n"
    );
    let submit = request_bytes(&Question::Submit, b"{\"task\":\"\"}");
    assert!(submit.starts_with(b"POST /v0/jobs HTTP/1.1\r\n"));
    assert!(submit.ends_with(b"Content-Length: 11\r\n\r\n{\"task\":\"\"}"));
    assert_eq!(Question::Status.path(), "/v0/status");
    assert_eq!(Question::Routes.method(), "GET");
    assert_eq!(Question::SetRoute.method(), "POST");
    assert_eq!(Question::Job("x".to_string()).path(), "/v0/jobs/x");
}

#[test]
fn the_body_follows_the_first_blank_line() {
    assert_eq!(
        read_response(b"HTTP/1.1 200 OK\r\nA: b\r\n\r\n{}\r\n\r\n{}").unwrap(),
        b"{}\r\n\r\n{}"
    );
    assert_eq!(read_response(b"HTTP/1.1 200\r\n\r\n").unwrap(), b"");
}

#[test]
fn other_responses_are_errors() {
    assert_eq!(read_response(b"HTTP/1.1 404 Not Found\r\n\r\n"), Err(ClientError::Http(404)));
    assert_eq!(read_response(b"HTTP/1.1 200 OK\r\n"), Err(ClientError::InvalidResponse));
    assert_eq!(read_response(b"HTTP/1.1\r\n\r\n"), Err(ClientError::InvalidResponse));
    assert_eq!(read_response(b"HTTP/1.1 2x0 OK\r\n\r\n"), Err(ClientError::InvalidResponse));
    assert_eq!(read_response(b"\xff 200\r\n\r\n"), Err(ClientError::InvalidResponse));
    assert_eq!(ClientError::InvalidResponse.message(), "invalid gateway HTTP response");
}

#[test]
fn a_response_has_a_limit() {
    let mut response: Vec<u8> = vec![0; MAX_RESPONSE_BYTES - 1];
    assert_eq!(receive(&mut response, b"a"), Ok(()));
    assert_eq!(response.len(), MAX_RESPONSE_BYTES);
    assert_eq!(
        receive(&mut response, b"b"),
        Err(ClientError::Io(WireError::new(
            ErrorKind::InvalidData,
            "gateway response too large"
        )))
    );
    assert_eq!(response.len(), MAX_RESPONSE_BYTES);
}
