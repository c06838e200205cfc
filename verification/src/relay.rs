//! The relay's translation path: validate the client request, build the
//! upstream generation request, and translate the upstream outcome into the
//! client-facing response.

use vstd::prelude::*;
use vstd::string::StringExecFns;
use crate::config::RelayConfiguration;
use crate::config::upstream_url;
use crate::json::json_string_field;
use crate::json::json_string_lit;
use crate::json::string_field_of;
use crate::json::append_json_string;

verus! {

/// The client's payload: a single prompt to generate from.
#[derive(Debug)]
pub struct PromptRequest {
    pub prompt: String,
}

/// What the relay sends upstream: the configured model, the client's
/// prompt, and streaming switched off.
#[derive(Debug)]
pub struct UpstreamGenerationRequest {
    pub model: String,
    pub prompt: String,
    pub stream: bool,
}

/// The upstream server's successful reply, relayed to the client verbatim.
#[derive(Debug)]
pub struct UpstreamGenerationResponse {
    pub response: String,
}

/// Every way one relayed request can fail. Each failure is terminal for
/// its request and is translated into one client-facing response.
#[derive(Debug)]
pub enum RelayError {
    /// The client's body was not a JSON object with a string field `prompt`.
    MalformedRequest,
    /// The outbound call itself failed (connection refused, timeout, DNS
    /// failure, and the like); carries the transport error's description.
    UpstreamUnreachable { description: String },
    /// The upstream server answered with a non-success status; carries that
    /// status and the raw reply body as a diagnostic.
    UpstreamError { status: u16, body: String },
    /// The upstream server answered with a success status but a body that
    /// is not a JSON object with a string field `response`.
    UpstreamMalformedResponse,
}

/// A client-facing response: an HTTP status, a body, and whether the body
/// is JSON (a relayed generation) or plain text (an error description).
#[derive(Debug)]
pub struct RelayResponse {
    pub status: u16,
    pub body: String,
    pub body_is_json: bool,
}

/// Everything the surrounding binary needs for the one outbound call: the
/// upstream URL and the JSON body to post to it.
#[derive(Debug)]
pub struct UpstreamCall {
    pub url: String,
    pub body: String,
}

/// Validates the client's request body: it must be a JSON object carrying a
/// string field `prompt`; any other shape is a malformed request, rejected
/// before any outbound call is attempted.
pub fn parse_prompt_request(body: &str) -> (r: Result<PromptRequest, RelayError>)
    ensures
        string_field_of(body@, "prompt"@) matches Some(p) ==> (r matches Ok(req)
            && req.prompt@ == p),
        string_field_of(body@, "prompt"@) is None ==> (r matches Err(e)
            && e is MalformedRequest),
{
    match json_string_field(body, "prompt") {
        Some(prompt) => Ok(PromptRequest { prompt }),
        None => Err(RelayError::MalformedRequest),
    }
}

/// Builds the upstream generation request from the configured model and the
/// client's prompt, with streaming fixed off: the upstream must answer with
/// one complete payload.
pub fn build_upstream_request(config: &RelayConfiguration, request: PromptRequest) -> (r:
    UpstreamGenerationRequest)
    ensures
        r.model@ == config.model@,
        r.prompt@ == request.prompt@,
        r.stream == false,
{
    UpstreamGenerationRequest { model: config.model.clone(), prompt: request.prompt, stream: false }
}

/// The JSON text posted upstream for a model, a prompt, and a streaming flag.
pub open spec fn spec_upstream_body(model: Seq<char>, prompt: Seq<char>, stream: bool) -> Seq<
    char,
> {
    "{\"model\":"@ + json_string_lit(model) + ",\"prompt\":"@ + json_string_lit(prompt)
        + ",\"stream\":"@ + (if stream { "true"@ } else { "false"@ }) + "}"@
}

/// Encodes the upstream generation request as its JSON text.
pub fn encode_upstream_request(request: &UpstreamGenerationRequest) -> (r: String)
    ensures
        r@ == spec_upstream_body(request.model@, request.prompt@, request.stream),
{
    let mut out = String::from_str("{\"model\":");
    append_json_string(&mut out, request.model.as_str());
    out.append(",\"prompt\":");
    append_json_string(&mut out, request.prompt.as_str());
    out.append(",\"stream\":");
    if request.stream {
        out.append("true");
    } else {
        out.append("false");
    }
    out.append("}");
    proof {
        assert(out@ =~= spec_upstream_body(request.model@, request.prompt@, request.stream));
    }
    out
}

/// The JSON text of the client-facing success body carrying a generated
/// response: the same shape the upstream reply had.
pub open spec fn spec_response_body(response: Seq<char>) -> Seq<char> {
    "{\"response\":"@ + json_string_lit(response) + "}"@
}

/// Encodes the client-facing success body for a generated response.
pub fn encode_response_body(response: &UpstreamGenerationResponse) -> (r: String)
    ensures
        r@ == spec_response_body(response.response@),
{
    let mut out = String::from_str("{\"response\":");
    append_json_string(&mut out, response.response.as_str());
    out.append("}");
    proof {
        assert(out@ =~= spec_response_body(response.response@));
    }
    out
}

/// Prepares the one outbound call for a client request body, or rejects the
/// body without any outbound call being possible: a malformed request is
/// answered directly and no [`UpstreamCall`] ever exists for it.
pub fn plan_request(config: &RelayConfiguration, body: &str) -> (r: Result<
    UpstreamCall,
    RelayResponse,
>)
    ensures
        string_field_of(body@, "prompt"@) matches Some(p) ==> (r matches Ok(call)
            && call.url@ == config.base_url@ + "/api/generate"@
            && call.body@ == spec_upstream_body(config.model@, p, false)),
        string_field_of(body@, "prompt"@) is None ==> (r matches Err(resp)
            && resp.status == 400u16
            && resp.body@ == spec_malformed_request_message()
            && resp.body_is_json == false),
{
    match parse_prompt_request(body) {
        Ok(request) => {
            let upstream = build_upstream_request(config, request);
            let encoded = encode_upstream_request(&upstream);
            Ok(UpstreamCall { url: upstream_url(config), body: encoded })
        },
        Err(_) => Err(malformed_request_response()),
    }
}

/// Whether an HTTP status is a success status.
pub open spec fn spec_is_success(status: u16) -> bool {
    200 <= status <= 299
}

/// The client-facing status for an upstream error status: the upstream's
/// own status where it lies in the range the relay is willing to reflect,
/// and a generic gateway failure otherwise. The fallback is deliberate: an
/// upstream status outside the standard range would only confuse a client.
pub open spec fn spec_client_status(status: u16) -> u16 {
    if 100 <= status <= 599 {
        status
    } else {
        502
    }
}

/// The client-facing status for an upstream error status, as
/// [`spec_client_status`] states.
pub fn client_status(status: u16) -> (r: u16)
    ensures
        r == spec_client_status(status),
{
    if 100 <= status && status <= 599 {
        status
    } else {
        502
    }
}

/// The plain-text body sent when the outbound call itself failed.
pub open spec fn spec_unreachable_message(description: Seq<char>) -> Seq<char> {
    "Failed contacting upstream: "@ + description
}

/// The plain-text body sent when the upstream answered a non-success
/// status: its raw reply body, verbatim, behind a fixed prefix.
pub open spec fn spec_upstream_error_message(body: Seq<char>) -> Seq<char> {
    "Upstream error: "@ + body
}

/// The plain-text body sent when a successful upstream reply could not be
/// parsed.
pub open spec fn spec_parse_failure_message() -> Seq<char> {
    "Failed to parse upstream response: expected a JSON object with a string field \"response\""@
}

/// The whole translation of an upstream reply, as one mathematical
/// function from the reply's status and body to the client-facing status,
/// body, and body kind (`true` meaning JSON).
pub open spec fn spec_relay_reply(status: u16, body: Seq<char>) -> (u16, Seq<char>, bool) {
    if spec_is_success(status) {
        match string_field_of(body, "response"@) {
            Some(response) => (200u16, spec_response_body(response), true),
            None => (502u16, spec_parse_failure_message(), false),
        }
    } else {
        (spec_client_status(status), spec_upstream_error_message(body), false)
    }
}

/// Classifies an upstream reply: a success status with a well-formed body
/// yields the generated response; a success status with any other body is a
/// malformed upstream response; a non-success status carries the upstream's
/// status and raw body through as a diagnostic.
pub fn classify_reply(status: u16, body: String) -> (r: Result<
    UpstreamGenerationResponse,
    RelayError,
>)
    ensures
        spec_is_success(status) ==> (string_field_of(body@, "response"@) matches Some(p) ==> (
        r matches Ok(resp) && resp.response@ == p)),
        (spec_is_success(status) && string_field_of(body@, "response"@) is None) ==> (
        r matches Err(e) && e is UpstreamMalformedResponse),
        !spec_is_success(status) ==> (r matches Err(e) && (e matches RelayError::UpstreamError {
            status: s,
            body: b,
        } && s == status && b@ == body@)),
{
    if 200 <= status && status <= 299 {
        match json_string_field(body.as_str(), "response") {
            Some(response) => Ok(UpstreamGenerationResponse { response }),
            None => Err(RelayError::UpstreamMalformedResponse),
        }
    } else {
        Err(RelayError::UpstreamError { status, body })
    }
}

/// Translates the handler's outcome into the client-facing response: a
/// generated response is relayed with status 200 as JSON; each failure kind
/// is mapped to its status and plain-text description.
pub fn respond(outcome: Result<UpstreamGenerationResponse, RelayError>) -> (r: RelayResponse)
    ensures
        outcome matches Ok(resp) ==> (r.status == 200u16 && r.body@ == spec_response_body(
            resp.response@,
        ) && r.body_is_json),
        outcome matches Err(e) ==> (!r.body_is_json && (match e {
            RelayError::MalformedRequest => r.status == 400u16 && r.body@
                == spec_malformed_request_message(),
            RelayError::UpstreamUnreachable { description } => r.status == 502u16 && r.body@
                == spec_unreachable_message(description@),
            RelayError::UpstreamError { status, body } => r.status == spec_client_status(status)
                && r.body@ == spec_upstream_error_message(body@),
            RelayError::UpstreamMalformedResponse => r.status == 502u16 && r.body@
                == spec_parse_failure_message(),
        })),
{
    match outcome {
        Ok(resp) => RelayResponse {
            status: 200,
            body: encode_response_body(&resp),
            body_is_json: true,
        },
        Err(RelayError::MalformedRequest) => malformed_request_response(),
        Err(RelayError::UpstreamUnreachable { description }) => {
            let mut message = String::from_str("Failed contacting upstream: ");
            message.append(description.as_str());
            RelayResponse { status: 502, body: message, body_is_json: false }
        },
        Err(RelayError::UpstreamError { status, body }) => {
            let mut message = String::from_str("Upstream error: ");
            message.append(body.as_str());
            RelayResponse { status: client_status(status), body: message, body_is_json: false }
        },
        Err(RelayError::UpstreamMalformedResponse) => RelayResponse {
            status: 502,
            body: String::from_str(
                "Failed to parse upstream response: expected a JSON object with a string field \"response\"",
            ),
            body_is_json: false,
        },
    }
}

/// Translates an upstream reply (status and raw body) into the
/// client-facing response, exactly as [`spec_relay_reply`] states.
pub fn relay_reply(status: u16, body: String) -> (r: RelayResponse)
    ensures
        (r.status, r.body@, r.body_is_json) == spec_relay_reply(status, body@),
{
    let outcome = classify_reply(status, body);
    respond(outcome)
}

/// Translates a failure of the outbound call itself (connection refused,
/// timeout, DNS failure, and the like) into the client-facing response: a
/// gateway failure naming the transport error. A call that exceeds its
/// timeout ends here too, so no request outlives the configured bounds.
pub fn relay_transport_failure(description: String) -> (r: RelayResponse)
    ensures
        r.status == 502u16,
        r.body@ == spec_unreachable_message(description@),
        !r.body_is_json,
{
    respond(Err(RelayError::UpstreamUnreachable { description }))
}

/// Law: identity pass-through. A successful upstream reply whose body
/// carries a string field `response` with value `R` is relayed as status
/// 200 with the JSON body holding exactly `R`.
pub proof fn lemma_success_pass_through(status: u16, body: Seq<char>, response: Seq<char>)
    requires
        spec_is_success(status),
        string_field_of(body, "response"@) == Some(response),
    ensures
        spec_relay_reply(status, body) == (200u16, spec_response_body(response), true),
{
}

/// Law: upstream errors are reflected. A non-success upstream status is
/// relayed unchanged where it lies in the standard range (and as 502
/// otherwise), and the client-facing body carries the upstream's raw body
/// verbatim behind a fixed prefix.
pub proof fn lemma_upstream_error_reflected(status: u16, body: Seq<char>)
    requires
        !spec_is_success(status),
    ensures
        100 <= status <= 599 ==> spec_relay_reply(status, body).0 == status,
        !(100 <= status <= 599) ==> spec_relay_reply(status, body).0 == 502u16,
        spec_relay_reply(status, body).1 == "Upstream error: "@ + body,
        spec_relay_reply(status, body).2 == false,
{
}

/// Law: an unparsable success reply is a gateway failure. A successful
/// upstream status whose body has no string field `response` is relayed as
/// 502 with the fixed parse-failure message.
pub proof fn lemma_unparsable_success_reply(status: u16, body: Seq<char>)
    requires
        spec_is_success(status),
        string_field_of(body, "response"@) is None,
    ensures
        spec_relay_reply(status, body) == (502u16, spec_parse_failure_message(), false),
{
}

/// The plain-text body sent for a malformed client request.
pub open spec fn spec_malformed_request_message() -> Seq<char> {
    "Malformed request: expected a JSON object with a string field \"prompt\""@
}

/// The client-facing response for a malformed request: a client error, sent
/// before any outbound call is attempted.
pub fn malformed_request_response() -> (r: RelayResponse)
    ensures
        r.status == 400u16,
        r.body@ == spec_malformed_request_message(),
        r.body_is_json == false,
{
    RelayResponse {
        status: 400,
        body: String::from_str(
            "Malformed request: expected a JSON object with a string field \"prompt\"",
        ),
        body_is_json: false,
    }
}

} // verus!
