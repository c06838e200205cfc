use prompt_relay::config::{load_config, upstream_url, CONNECT_TIMEOUT_SECS, REQUEST_TIMEOUT_SECS};
use prompt_relay::relay::{
    classify_reply, client_status, encode_response_body, encode_upstream_request,
    malformed_request_response, parse_prompt_request, plan_request, relay_reply,
    relay_transport_failure, respond, PromptRequest, RelayError, UpstreamGenerationRequest,
    UpstreamGenerationResponse,
};

fn test_config() -> prompt_relay::config::RelayConfiguration {
    load_config(None, None)
}

#[test]
fn config_defaults_apply() {
    let config = test_config();
    assert_eq!(config.base_url, "http://127.0.0.1:11434");
    assert_eq!(config.model, "mistral");
}

#[test]
fn config_overrides_apply() {
    let config = load_config(
        Some("http://10.0.0.7:8080".to_string()),
        Some("llama".to_string()),
    );
    assert_eq!(config.base_url, "http://10.0.0.7:8080");
    assert_eq!(config.model, "llama");
}

#[test]
fn upstream_url_appends_generate_path() {
    let config = test_config();
    assert_eq!(upstream_url(&config), "http://127.0.0.1:11434/api/generate");
}

#[test]
fn timeouts_are_bounded() {
    assert_eq!(CONNECT_TIMEOUT_SECS, 5);
    assert_eq!(REQUEST_TIMEOUT_SECS, 45);
}

#[test]
fn prompt_hello_plans_upstream_call() {
    let config = test_config();
    let call = plan_request(&config, "{\"prompt\": \"hello\"}").unwrap();
    assert_eq!(call.url, "http://127.0.0.1:11434/api/generate");
    assert_eq!(
        call.body,
        "{\"model\":\"mistral\",\"prompt\":\"hello\",\"stream\":false}"
    );
}

#[test]
fn success_reply_passes_response_through() {
    let reply = relay_reply(200, "{\"response\": \"world\"}".to_string());
    assert_eq!(reply.status, 200);
    assert_eq!(reply.body, "{\"response\":\"world\"}");
    assert!(reply.body_is_json);
}

#[test]
fn empty_object_is_rejected_without_upstream_call() {
    let config = test_config();
    let rejection = plan_request(&config, "{}").unwrap_err();
    assert_eq!(rejection.status, 400);
    assert!(rejection.body.contains("Malformed request"));
    assert!(!rejection.body_is_json);
}

#[test]
fn invalid_json_request_is_rejected() {
    assert!(matches!(
        parse_prompt_request("{\"prompt\": \"hel"),
        Err(RelayError::MalformedRequest)
    ));
    assert!(matches!(
        parse_prompt_request("not json at all"),
        Err(RelayError::MalformedRequest)
    ));
}

#[test]
fn non_string_prompt_is_rejected() {
    assert!(matches!(
        parse_prompt_request("{\"prompt\": 5}"),
        Err(RelayError::MalformedRequest)
    ));
    assert!(matches!(
        parse_prompt_request("{\"prompt\": null}"),
        Err(RelayError::MalformedRequest)
    ));
    assert!(matches!(
        parse_prompt_request("[\"prompt\"]"),
        Err(RelayError::MalformedRequest)
    ));
}

#[test]
fn prompt_with_extra_fields_is_accepted() {
    let request = parse_prompt_request("{\"other\": [1, 2], \"prompt\": \"hi\"}").unwrap();
    assert_eq!(request.prompt, "hi");
}

#[test]
fn non_success_status_is_reflected_with_body() {
    let reply = relay_reply(404, "model not found".to_string());
    assert_eq!(reply.status, 404);
    assert_eq!(reply.body, "Upstream error: model not found");
    assert!(!reply.body_is_json);

    let reply = relay_reply(503, "overloaded".to_string());
    assert_eq!(reply.status, 503);
    assert_eq!(reply.body, "Upstream error: overloaded");
}

#[test]
fn unrepresentable_status_maps_to_gateway_failure() {
    assert_eq!(client_status(1000), 502);
    assert_eq!(client_status(42), 502);
    assert_eq!(client_status(404), 404);
    let reply = relay_reply(1000, "odd".to_string());
    assert_eq!(reply.status, 502);
    assert_eq!(reply.body, "Upstream error: odd");
}

#[test]
fn unparsable_success_reply_is_gateway_failure() {
    let reply = relay_reply(200, "not json".to_string());
    assert_eq!(reply.status, 502);
    assert!(reply.body.contains("Failed to parse upstream response"));
    assert!(!reply.body_is_json);

    let reply = relay_reply(200, "{\"response\": 7}".to_string());
    assert_eq!(reply.status, 502);

    let reply = relay_reply(204, "".to_string());
    assert_eq!(reply.status, 502);
    assert!(reply.body.contains("Failed to parse upstream response"));
}

#[test]
fn transport_failure_is_gateway_failure() {
    let reply = relay_transport_failure("connection refused".to_string());
    assert_eq!(reply.status, 502);
    assert_eq!(reply.body, "Failed contacting upstream: connection refused");
    assert!(!reply.body_is_json);
}

#[test]
fn classify_reply_covers_every_outcome() {
    let ok = classify_reply(201, "{\"response\": \"r\"}".to_string()).unwrap();
    assert_eq!(ok.response, "r");
    assert!(matches!(
        classify_reply(200, "{}".to_string()),
        Err(RelayError::UpstreamMalformedResponse)
    ));
    match classify_reply(500, "boom".to_string()) {
        Err(RelayError::UpstreamError { status, body }) => {
            assert_eq!(status, 500);
            assert_eq!(body, "boom");
        }
        other => panic!("expected an upstream error, got {:?}", other.is_ok()),
    }
}

#[test]
fn respond_maps_each_error_kind() {
    let reply = respond(Err(RelayError::MalformedRequest));
    assert_eq!(reply.status, 400);
    assert_eq!(reply.body, malformed_request_response().body);

    let reply = respond(Err(RelayError::UpstreamUnreachable {
        description: "timed out".to_string(),
    }));
    assert_eq!(reply.status, 502);
    assert_eq!(reply.body, "Failed contacting upstream: timed out");

    let reply = respond(Err(RelayError::UpstreamError {
        status: 418,
        body: "teapot".to_string(),
    }));
    assert_eq!(reply.status, 418);
    assert_eq!(reply.body, "Upstream error: teapot");

    let reply = respond(Err(RelayError::UpstreamMalformedResponse));
    assert_eq!(reply.status, 502);

    let reply = respond(Ok(UpstreamGenerationResponse {
        response: "done".to_string(),
    }));
    assert_eq!(reply.status, 200);
    assert_eq!(reply.body, "{\"response\":\"done\"}");
    assert!(reply.body_is_json);
}

#[test]
fn encoded_upstream_request_round_trips_through_serde() {
    let tricky = "he said \"hi\",\na\tbackslash \\ and a bell \u{7}";
    let encoded = encode_upstream_request(&UpstreamGenerationRequest {
        model: "mistral".to_string(),
        prompt: tricky.to_string(),
        stream: false,
    });
    let value: serde_json::Value = serde_json::from_str(&encoded).unwrap();
    assert_eq!(value.get("model").unwrap().as_str().unwrap(), "mistral");
    assert_eq!(value.get("prompt").unwrap().as_str().unwrap(), tricky);
    assert_eq!(value.get("stream").unwrap().as_bool().unwrap(), false);
}

#[test]
fn encoded_response_round_trips_through_serde() {
    let tricky = "two\u{1}controls\u{1f} and \"quotes\"";
    let encoded = encode_response_body(&UpstreamGenerationResponse {
        response: tricky.to_string(),
    });
    let value: serde_json::Value = serde_json::from_str(&encoded).unwrap();
    assert_eq!(value.get("response").unwrap().as_str().unwrap(), tricky);
}

#[test]
fn parse_recovers_prompt_from_encoded_body() {
    let tricky = "nested {\"prompt\": \"decoy\"} and a newline\n";
    let encoded = encode_upstream_request(&UpstreamGenerationRequest {
        model: "m".to_string(),
        prompt: tricky.to_string(),
        stream: false,
    });
    let request = parse_prompt_request(&encoded).unwrap();
    assert_eq!(request.prompt, tricky);
    assert_ne!(request.prompt, encoded);
}

#[test]
fn prompt_request_carries_prompt_verbatim() {
    let request = PromptRequest {
        prompt: "hello".to_string(),
    };
    let config = test_config();
    let upstream = prompt_relay::relay::build_upstream_request(&config, request);
    assert_eq!(upstream.model, "mistral");
    assert_eq!(upstream.prompt, "hello");
    assert!(!upstream.stream);
}
