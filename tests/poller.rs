use nn_yandex::error::ClientError;
use nn_yandex::operation::{ErrorWrapper, OperationStatus, Response, ResponseWrapper, INVALID_IMAGE};
use nn_yandex::poller::{
    read_reply, Art, HttpReply, PollPolicy, PollState, PollStep, Poller, Reply, UNEXPECTED_STATUS,
};
use nn_yandex::request::{AspectRatio, Fragment, ImageType, RequestConfig};

fn envelope(id: &str, done: bool) -> Response {
    Response {
        id: id.to_string(),
        description: None,
        created_at: None,
        created_by: None,
        modified_at: None,
        done,
        metadata: None,
        error: None,
        response: None,
    }
}

fn with_image(mut r: Response, image: &str) -> Response {
    r.response = Some(ResponseWrapper { image: image.to_string(), model_version: None });
    r
}

fn with_error(mut r: Response, code: &str, message: &str) -> Response {
    r.error = Some(ErrorWrapper { code: code.to_string(), message: message.to_string(), details: None });
    r
}

fn ok_reply(r: Response) -> Reply<Response> {
    Reply::Received(HttpReply { status: 200, body: String::new(), payload: Ok(r), service_error: None })
}

fn step(state: PollState, reply: Reply<Response>) -> PollState {
    state.advance(read_reply(reply))
}

fn polling_id(state: &PollState) -> Option<String> {
    match state {
        PollState::Polling { id } => Some(id.clone()),
        _ => None,
    }
}

#[test]
fn scenario_submit_then_poll_until_image() {
    let art = Art::new("key".to_string(), "b1g".to_string());
    let config = RequestConfig {
        fragments: vec![Fragment { text: "Dog in sofa".to_string(), weight: Some(1) }],
        mime_type: Some(ImageType::Png),
        seed: None,
        aspect_ratio: Some(AspectRatio { width_ratio: 1, height_ratio: 1 }),
    };
    let request = config.build("someone-else").unwrap();
    let submission = art.submission(request);
    assert_eq!(
        submission.url,
        "https://llm.api.cloud.yandex.net/foundationModels/v1/imageGenerationAsync"
    );
    assert_eq!(submission.authorization, "Api-Key key");
    assert_eq!(submission.request.model_uri, "art://b1g/yandex-art/latest");

    let mut poller = Poller::new(PollPolicy::standard());
    assert!(matches!(poller.next_step(), PollStep::Submit));
    poller.take_reply(read_reply(ok_reply(envelope("abc", false))));
    assert_eq!(polling_id(&poller.state), Some("abc".to_string()));
    match poller.next_step() {
        PollStep::Check { id, delay_ms } => {
            assert_eq!(id, "abc");
            assert_eq!(delay_ms, 1000);
        },
        other => panic!("unexpected step {:?}", other),
    }
    let check = art.status_check("abc");
    assert_eq!(check.url, "https://operation.api.cloud.yandex.net/operations/abc");
    assert_eq!(check.authorization, "Api-Key key");

    poller.take_reply(read_reply(ok_reply(envelope("abc", false))));
    assert_eq!(polling_id(&poller.state), Some("abc".to_string()));
    assert_eq!(poller.checks, 1);

    poller.take_reply(read_reply(ok_reply(with_image(envelope("abc", true), "aGVsbG8="))));
    assert_eq!(poller.checks, 2);
    assert!(matches!(poller.next_step(), PollStep::Finish));
    match &poller.state {
        PollState::Succeeded { id, .. } => assert_eq!(id, "abc"),
        other => panic!("unexpected state {:?}", other),
    }
    let image = poller.into_outcome().unwrap();
    assert_eq!(image.bytes, b"hello".to_vec());
}

#[test]
fn scenario_submit_reply_with_error_fails() {
    let reply = ok_reply(with_error(envelope("abc", true), "400", "bad prompt"));
    let state = step(PollState::Submitting, reply);
    match state.into_outcome() {
        Err(ClientError::Service(e)) => {
            assert_eq!(e.code, "400");
            assert_eq!(e.message, "bad prompt");
        },
        other => panic!("unexpected outcome {:?}", other),
    }
}

#[test]
fn scenario_done_without_outcome_is_protocol_violation() {
    let state = PollState::Polling { id: "abc".to_string() };
    let state = step(state, ok_reply(envelope("abc", true)));
    match state.into_outcome() {
        Err(ClientError::ProtocolViolation { id }) => assert_eq!(id, "abc"),
        other => panic!("unexpected outcome {:?}", other),
    }
}

#[test]
fn polling_twice_while_not_done_stays_polling() {
    let state = PollState::Polling { id: "abc".to_string() };
    let first = step(state, ok_reply(envelope("abc", false)));
    assert_eq!(polling_id(&first), Some("abc".to_string()));
    let second = step(first, ok_reply(envelope("abc", false)));
    assert_eq!(polling_id(&second), Some("abc".to_string()));
}

#[test]
fn transport_failure_while_polling_can_be_retried() {
    let state = PollState::Polling { id: "abc".to_string() };
    let state = step(state, Reply::TransportFailed("connection reset".to_string()));
    match &state {
        PollState::TransportFailed { id, error: ClientError::Transport(m) } => {
            assert_eq!(id.as_deref(), Some("abc"));
            assert_eq!(m, "connection reset");
        },
        other => panic!("unexpected state {:?}", other),
    }
    let state = step(state, ok_reply(envelope("abc", false)));
    assert_eq!(polling_id(&state), Some("abc".to_string()));
}

#[test]
fn transport_failure_on_submit_has_no_id() {
    let state = step(PollState::Submitting, Reply::TransportFailed("dns".to_string()));
    assert!(matches!(state, PollState::TransportFailed { id: None, .. }));
    let state = step(state, ok_reply(envelope("xyz", false)));
    assert_eq!(polling_id(&state), Some("xyz".to_string()));
}

#[test]
fn submit_reply_that_is_already_done_goes_on_polling() {
    let state = step(PollState::Submitting, ok_reply(with_image(envelope("abc", true), "aGVsbG8=")));
    assert_eq!(polling_id(&state), Some("abc".to_string()));
}

#[test]
fn undecodable_body_keeps_raw_text() {
    let reply: Reply<Response> = Reply::Received(HttpReply {
        status: 200,
        body: "<html>".to_string(),
        payload: Err("expected value at line 1 column 1".to_string()),
        service_error: None,
    });
    let state = step(PollState::Polling { id: "abc".to_string() }, reply);
    match state {
        PollState::TransportFailed { id, error: ClientError::DecodeFailure { raw, cause } } => {
            assert_eq!(id.as_deref(), Some("abc"));
            assert_eq!(raw, "<html>");
            assert_eq!(cause, "expected value at line 1 column 1");
        },
        other => panic!("unexpected state {:?}", other),
    }
}

#[test]
fn failure_status_with_error_object_is_service_error() {
    let reply: Reply<Response> = Reply::Received(HttpReply {
        status: 401,
        body: "{}".to_string(),
        payload: Err("missing field `id`".to_string()),
        service_error: Some(ErrorWrapper {
            code: "16".to_string(),
            message: "Unauthenticated".to_string(),
            details: Some(vec!["{}".to_string()]),
        }),
    });
    let state = step(PollState::Polling { id: "abc".to_string() }, reply);
    match state {
        PollState::Failed { error } => {
            assert_eq!(error.code, "16");
            assert_eq!(error.details, Some(vec!["{}".to_string()]));
        },
        other => panic!("unexpected state {:?}", other),
    }
}

#[test]
fn failure_status_without_error_object_is_decode_failure() {
    let reply: Reply<Response> = Reply::Received(HttpReply {
        status: 502,
        body: "Bad Gateway".to_string(),
        payload: Err("expected value".to_string()),
        service_error: None,
    });
    match read_reply(reply) {
        Err(ClientError::DecodeFailure { raw, cause }) => {
            assert_eq!(raw, "Bad Gateway");
            assert_eq!(cause, UNEXPECTED_STATUS);
        },
        other => panic!("unexpected result {:?}", other),
    }
}

#[test]
fn invalid_image_is_decode_failure() {
    let state = PollState::Polling { id: "abc".to_string() };
    let state = step(state, ok_reply(with_image(envelope("abc", true), "not base64!")));
    match state {
        PollState::TransportFailed { id, error: ClientError::DecodeFailure { raw, cause } } => {
            assert_eq!(id.as_deref(), Some("abc"));
            assert_eq!(raw, "not base64!");
            assert_eq!(cause, INVALID_IMAGE);
        },
        other => panic!("unexpected state {:?}", other),
    }
}

#[test]
fn decode_image_keeps_model_version() {
    let payload = ResponseWrapper { image: "AAEC/w==".to_string(), model_version: Some("v2".to_string()) };
    let image = payload.decode_image().unwrap();
    assert_eq!(image.bytes, vec![0u8, 1, 2, 255]);
    assert_eq!(image.model_version, Some("v2".to_string()));
}

#[test]
fn terminal_states_ignore_replies() {
    let state = PollState::ProtocolViolation { id: "abc".to_string() };
    let state = step(state, ok_reply(with_image(envelope("abc", true), "aGVsbG8=")));
    assert!(matches!(state, PollState::ProtocolViolation { .. }));
    let state = PollState::Failed {
        error: ErrorWrapper { code: "3".to_string(), message: "m".to_string(), details: None },
    };
    let state = step(state, ok_reply(envelope("abc", false)));
    assert!(matches!(state, PollState::Failed { .. }));
}

#[test]
fn snapshot_status_covers_every_combination() {
    assert_eq!(envelope("a", false).status(), OperationStatus::Pending);
    assert_eq!(envelope("a", true).status(), OperationStatus::ProtocolViolation);
    assert_eq!(with_image(envelope("a", true), "").status(), OperationStatus::Succeeded);
    assert_eq!(with_image(envelope("a", false), "").status(), OperationStatus::ProtocolViolation);
    assert_eq!(with_error(envelope("a", true), "1", "m").status(), OperationStatus::Failed);
    assert_eq!(with_error(envelope("a", false), "1", "m").status(), OperationStatus::Failed);
    assert_eq!(
        with_image(with_error(envelope("a", true), "1", "m"), "").status(),
        OperationStatus::ProtocolViolation
    );
}

#[test]
fn change_credentials_changes_routing_and_header() {
    let mut art = Art::new("k1".to_string(), "b1".to_string());
    art.change_credentials("k2".to_string(), "b2".to_string());
    let config = RequestConfig {
        fragments: vec![Fragment { text: "Cat".to_string(), weight: None }],
        mime_type: Some(ImageType::Jpeg),
        seed: None,
        aspect_ratio: Some(AspectRatio { width_ratio: 16, height_ratio: 9 }),
    };
    let submission = art.submission(config.build("b1").unwrap());
    assert_eq!(submission.authorization, "Api-Key k2");
    assert_eq!(submission.request.model_uri, "art://b2/yandex-art/latest");
}

#[test]
fn standard_policy_does_not_retry_after_transport_failure() {
    let mut poller = Poller::new(PollPolicy::standard());
    poller.take_reply(read_reply(ok_reply(envelope("abc", false))));
    poller.take_reply(read_reply(Reply::TransportFailed("timeout".to_string())));
    assert_eq!(poller.failures, 1);
    assert!(matches!(poller.next_step(), PollStep::Finish));
    match poller.into_outcome() {
        Err(ClientError::Transport(m)) => assert_eq!(m, "timeout"),
        other => panic!("unexpected outcome {:?}", other),
    }
}

#[test]
fn retries_repeat_the_failed_call_then_stop() {
    let policy = PollPolicy { delay_ms: 10, max_retries: 1, max_checks: None };
    let mut poller = Poller::new(policy);
    poller.take_reply(read_reply(Reply::TransportFailed("dns".to_string())));
    assert!(matches!(poller.next_step(), PollStep::Submit));
    poller.take_reply(read_reply(ok_reply(envelope("abc", false))));
    assert_eq!(poller.failures, 0);
    poller.take_reply(read_reply(Reply::TransportFailed("reset".to_string())));
    match poller.next_step() {
        PollStep::Check { id, delay_ms } => {
            assert_eq!(id, "abc");
            assert_eq!(delay_ms, 10);
        },
        other => panic!("unexpected step {:?}", other),
    }
    poller.take_reply(read_reply(Reply::TransportFailed("reset".to_string())));
    assert_eq!(poller.failures, 2);
    assert!(matches!(poller.next_step(), PollStep::Finish));
}

#[test]
fn check_budget_abandons_a_running_operation() {
    let policy = PollPolicy { delay_ms: 1000, max_retries: 0, max_checks: Some(2) };
    let mut poller = Poller::new(policy);
    poller.take_reply(read_reply(ok_reply(envelope("abc", false))));
    assert_eq!(poller.checks, 0);
    poller.take_reply(read_reply(ok_reply(envelope("abc", false))));
    poller.take_reply(read_reply(ok_reply(envelope("abc", false))));
    assert_eq!(poller.checks, 2);
    assert!(matches!(poller.next_step(), PollStep::Finish));
    match poller.into_outcome() {
        Err(ClientError::Abandoned { id }) => assert_eq!(id, "abc"),
        other => panic!("unexpected outcome {:?}", other),
    }
}
