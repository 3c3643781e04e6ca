use threadrunner::client::{on_response, ClientStep};
use threadrunner::error::Error;
use threadrunner::ipc::{
    error_from_response, error_response, token_response, validate_request, ErrorResponse,
    PromptRequest, Response, TokenResponse, PROTOCOL_VERSION,
};

#[test]
fn new_request_is_streaming_v1() {
    let req = PromptRequest::new("Hello");
    assert_eq!(req.v, 1);
    assert_eq!(req.v, PROTOCOL_VERSION);
    assert_eq!(req.prompt, "Hello");
    assert!(req.stream);
    assert_eq!(validate_request(&req), Ok(()));
}

#[test]
fn version_mismatch_is_protocol_error_and_exit_one() {
    let req = PromptRequest { v: 99, prompt: "hi".to_string(), stream: true };
    let err = validate_request(&req).unwrap_err();
    assert!(matches!(err, Error::Protocol(_)));
    let frame = error_response(&err);
    assert_eq!(frame.error_type, "Protocol");
    let step = on_response(Response::Error(frame));
    match step {
        ClientStep::Abort(e) => assert_eq!(e.exit_code(), 1),
        _ => panic!("expected an abort"),
    }
}

#[test]
fn token_response_marks_end_exactly_when_empty() {
    assert_eq!(
        token_response(Some("Hi".to_string())),
        TokenResponse { token: Some("Hi".to_string()), eos: false }
    );
    assert_eq!(token_response(None), TokenResponse { token: None, eos: true });
}

#[test]
fn error_response_carries_message_and_tag() {
    let r = error_response(&Error::ModelLoad("Model failed to load".to_string()));
    assert_eq!(r.error, "Model failed to load");
    assert_eq!(r.error_type, "ModelLoad");
    assert_eq!(error_response(&Error::Io("broken pipe".to_string())).error_type, "Io");
    assert_eq!(error_response(&Error::Timeout).error, "timeout");
    assert_eq!(error_response(&Error::Timeout).error_type, "Timeout");
    assert_eq!(error_response(&Error::Unknown).error_type, "Unknown");
    assert_eq!(
        error_response(&Error::Protocol("bad".to_string())).error,
        "bad"
    );
}

#[test]
fn client_maps_error_types() {
    let mk = |t: &str| ErrorResponse { error: "boom".to_string(), error_type: t.to_string() };
    assert_eq!(error_from_response(&mk("ModelLoad")), Error::ModelLoad("boom".to_string()));
    assert_eq!(error_from_response(&mk("Io")), Error::Io("boom".to_string()));
    assert_eq!(error_from_response(&mk("Timeout")), Error::Timeout);
    assert_eq!(
        error_from_response(&mk("Protocol")),
        Error::Protocol("Daemon error: boom".to_string())
    );
    assert_eq!(
        error_from_response(&mk("Unknown")),
        Error::Protocol("Daemon error: boom".to_string())
    );
}

#[test]
fn exit_codes_follow_error_class() {
    assert_eq!(Error::Io("x".to_string()).exit_code(), 2);
    assert_eq!(Error::ModelLoad("x".to_string()).exit_code(), 3);
    assert_eq!(Error::Timeout.exit_code(), 4);
    assert_eq!(Error::Protocol("x".to_string()).exit_code(), 1);
    assert_eq!(Error::Unknown.exit_code(), 1);
}

#[test]
fn client_emits_tokens_until_end() {
    let step = on_response(Response::Token(TokenResponse { token: Some("lorem".to_string()), eos: false }));
    assert_eq!(step, ClientStep::Emit { token: Some("lorem".to_string()), done: false });
    let last = on_response(Response::Token(TokenResponse { token: None, eos: true }));
    assert_eq!(last, ClientStep::Emit { token: None, done: true });
}

#[test]
fn error_messages_render() {
    assert_eq!(Error::Io("closed".to_string()).message(), "io error: closed");
    assert_eq!(Error::Unknown.message(), "unknown");
    assert_eq!(Error::Timeout.kind_tag(), "Timeout");
}

#[test]
fn error_frame_message_is_not_prefixed_twice() {
    let frame = error_response(&Error::ModelLoad("Model failed to load".to_string()));
    let err = error_from_response(&frame);
    assert_eq!(err.message(), "model load failed: Model failed to load");
    assert_eq!(Error::Io("closed".to_string()).detail(), "closed");
    assert_eq!(Error::Unknown.detail(), "unknown");
}
