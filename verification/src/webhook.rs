//! The webhook: how each callback request is answered, and what a dispatched event becomes.
use vstd::prelude::*;
use crate::access::{is_pairing_request, pairing_request, sender_admitted, sender_allowed, PairingRequest};
use crate::config::QQBotConfig;
use crate::envelope::{build_inbound_envelope, is_inbound_envelope, EventData, InboundAttachment, InboundEnvelope};
use crate::outbound::{body_reply_to, is_text_request, message_url, ApiRequest, ResponseMetadata};
use crate::signing::opt_text;
use crate::routing::{route_for_scene, scene_route, IncomingScene, RouteKind};
use crate::signing::{
    handle_validation_request, is_validation_answer, signature_check, verify_incoming_signature,
    Header, ValidationPayload, ValidationReply,
};
use crate::text::{clone_opt, str_eq};

verus! {

broadcast use vstd::string::group_string_axioms;

/// Callback operation: an event is dispatched.
pub const OP_DISPATCH_EVENT: u32 = 0;

/// Callback operation: a heartbeat.
pub const OP_HEARTBEAT: u32 = 1;

/// Answer operation: a heartbeat is acknowledged.
pub const OP_HEARTBEAT_ACK: u32 = 11;

/// Answer operation: a dispatched event is acknowledged.
pub const OP_HTTP_CALLBACK_ACK: u32 = 12;

/// Callback operation: the platform validates the webhook.
pub const OP_HTTP_CALLBACK_VALIDATION: u32 = 13;

/// The JSON body of an answer to the platform.
pub enum ReplyBody {
    /// `{"error", "details"?}`.
    Error { error: String, details: Option<String> },
    /// `{"op", "d"}`.
    Ack { op: u32, d: u32 },
    /// `{"status": "ignored", "op"}`.
    Ignored { op: u32 },
    /// `{"plain_token", "signature"}`.
    Validation(ValidationReply),
}

/// An answer to the platform: an HTTP status and a JSON body.
pub struct WebhookReply {
    pub status: u16,
    pub body: ReplyBody,
}

pub fn json_response(status: u16, body: ReplyBody) -> (r: WebhookReply)
    ensures
        r.status == status,
        r.body == body,
{
    WebhookReply { status, body }
}

/// `r` is an error answer with this status, error code and details.
pub open spec fn is_error_reply(r: WebhookReply, status: u16, error: Seq<char>, details: Option<Seq<char>>) -> bool {
    &&& r.status == status
    &&& r.body matches ReplyBody::Error { error: e, details: d } && e@ == error && match d {
        Some(x) => details == Some(x@),
        None => details is None,
    }
}

fn error_reply(status: u16, error: &str, details: Option<String>) -> (r: WebhookReply)
    ensures
        is_error_reply(
            r,
            status,
            error@,
            match details {
                Some(x) => Some(x@),
                None => None,
            },
        ),
{
    WebhookReply { status, body: ReplyBody::Error { error: String::from_str(error), details } }
}

/// A heartbeat is acknowledged with its sequence number.
pub fn heartbeat_ack(seq: u32) -> (r: WebhookReply)
    ensures
        r.status == 200,
        r.body == (ReplyBody::Ack { op: OP_HEARTBEAT_ACK, d: seq }),
{
    json_response(200, ReplyBody::Ack { op: OP_HEARTBEAT_ACK, d: seq })
}

/// A dispatched event is acknowledged with 0 when it was handled, 1 when it was not.
pub fn dispatch_ack(success: bool) -> (r: WebhookReply)
    ensures
        r.status == 200,
        r.body == (ReplyBody::Ack { op: OP_HTTP_CALLBACK_ACK, d: if success { 0 } else { 1 } }),
{
    json_response(
        200,
        ReplyBody::Ack {
            op: OP_HTTP_CALLBACK_ACK,
            d: if success {
                0
            } else {
                1
            },
        },
    )
}

// ---------------------------------------------------------------- dispatched events

/// A message passed on to the agent.
pub struct EmittedMessage {
    pub user_id: String,
    pub user_name: Option<String>,
    pub content: String,
    pub metadata: ResponseMetadata,
    pub attachments: Vec<InboundAttachment>,
}

/// What becomes of a dispatched event.
pub enum DispatchPlan {
    /// The callback names no event type.
    MissingEventType,
    /// The event could not be read; the reason.
    EventRejected(String),
    /// An event the channel does not handle, or a message without sender or destination.
    Ignored,
    /// The sender may not talk to the bot; it may be offered pairing.
    Refused { envelope: InboundEnvelope, pairing: Option<PairingRequest> },
    /// The message goes to the agent.
    Emit(EmittedMessage),
}

/// Whether the platform is told that the event was handled.
pub open spec fn plan_acknowledged(p: DispatchPlan) -> bool {
    !(p is MissingEventType || p is EventRejected)
}

impl DispatchPlan {
    pub fn acknowledged(&self) -> (ok: bool)
        ensures
            ok == plan_acknowledged(*self),
    {
        match self {
            DispatchPlan::MissingEventType => false,
            DispatchPlan::EventRejected(_) => false,
            _ => true,
        }
    }
}

/// The message emitted for an admitted envelope, and where replies to it go.
pub open spec fn is_emitted(e: InboundEnvelope, m: EmittedMessage) -> bool {
    &&& m.user_id == e.sender_id
    &&& m.user_name == e.sender_name
    &&& m.content == e.content
    &&& m.attachments == e.attachments
    &&& m.metadata.route == scene_route(e.scene)
    &&& m.metadata.target_id == e.target_id
    &&& m.metadata.sender_id == e.sender_id
    &&& m.metadata.sender_name == e.sender_name
    &&& m.metadata.reply_to_message_id == Some(e.message_id)
    &&& m.metadata.guild_id == e.guild_id
    &&& m.metadata.channel_id == e.channel_id
}

/// The plan for an envelope: refused senders (with a pairing offer where one applies),
/// otherwise the message to emit.
pub open spec fn envelope_plan(config: QQBotConfig, e: InboundEnvelope, p: DispatchPlan) -> bool {
    if sender_admitted(config, e) {
        p matches DispatchPlan::Emit(m) && is_emitted(e, m)
    } else {
        p matches DispatchPlan::Refused { envelope, pairing } && envelope == e
            && is_pairing_request(config, e, pairing)
    }
}

fn emit_message(envelope: InboundEnvelope) -> (m: EmittedMessage)
    ensures
        is_emitted(envelope, m),
{
    let metadata = ResponseMetadata {
        route: route_for_scene(envelope.scene),
        target_id: envelope.target_id.clone(),
        sender_id: envelope.sender_id.clone(),
        sender_name: clone_opt(&envelope.sender_name),
        reply_to_message_id: Some(envelope.message_id.clone()),
        guild_id: clone_opt(&envelope.guild_id),
        channel_id: clone_opt(&envelope.channel_id),
    };
    EmittedMessage {
        user_id: envelope.sender_id,
        user_name: envelope.sender_name,
        content: envelope.content,
        metadata,
        attachments: envelope.attachments,
    }
}

/// `p` is what becomes of a dispatched event of type `event_type` with data `data`: a
/// callback without a type is rejected; otherwise the event is read into an envelope, and
/// a reading error rejects it, an unhandled event is ignored, and an envelope is emitted or
/// refused as its sender is admitted or not.
pub open spec fn is_dispatch_plan(
    config: QQBotConfig,
    event_type: Option<String>,
    data: EventData,
    p: DispatchPlan,
) -> bool {
    match event_type {
        None => p is MissingEventType,
        Some(t) => exists|r: Result<Option<InboundEnvelope>, String>|
            #[trigger] is_inbound_envelope(t@, data, r) && match r {
                Err(err) => p matches DispatchPlan::EventRejected(x) && x@ == err@,
                Ok(None) => p is Ignored,
                Ok(Some(e)) => envelope_plan(config, e, p),
            },
    }
}

/// Decides what becomes of a dispatched event of type `event_type` with data `data`.
pub fn dispatch_event_plan(config: &QQBotConfig, event_type: Option<String>, data: EventData) -> (p:
    DispatchPlan)
    ensures
        is_dispatch_plan(*config, event_type, data, p),
{
    let event_type = match event_type {
        Some(t) => t,
        None => {
            return DispatchPlan::MissingEventType;
        },
    };
    let built = build_inbound_envelope(event_type.as_str(), data);
    let envelope = match built {
        Ok(Some(e)) => e,
        Ok(None) => {
            return DispatchPlan::Ignored;
        },
        Err(err) => {
            return DispatchPlan::EventRejected(err);
        },
    };
    if !sender_allowed(config, &envelope) {
        let pairing = pairing_request(config, &envelope);
        return DispatchPlan::Refused { envelope, pairing };
    }
    DispatchPlan::Emit(emit_message(envelope))
}

// ---------------------------------------------------------------- callback requests

/// A callback as read from the request body: its operation, its type for dispatched
/// events, and its data read as what each operation needs.
pub struct CallbackPayload {
    pub op: u32,
    pub s: Option<u32>,
    pub t: Option<String>,
    pub id: Option<String>,
    /// The data when it is a non-negative integer (a heartbeat's sequence number).
    pub d_u64: Option<u64>,
    /// The data read as a validation challenge.
    pub validation: Result<ValidationPayload, String>,
    /// The data read as an event.
    pub event: EventData,
}

/// The answer to a callback request, and the event to dispatch, if any, before answering.
pub struct HttpOutcome {
    pub reply: WebhookReply,
    pub dispatch: Option<DispatchPlan>,
}

/// The sequence number a heartbeat acknowledges: the data's low 32 bits (0 without data).
pub open spec fn heartbeat_seq(d: Option<u64>) -> u32 {
    match d {
        Some(n) => (n % 0x1_0000_0000) as u32,
        None => 0,
    }
}

/// `o` answers an authenticated callback: a payload that could not be read is
/// acknowledged as failed; a validation challenge gets the signed token (or a 500 error);
/// a heartbeat is acknowledged; an event is dispatched and acknowledged; any other
/// operation is ignored.
pub open spec fn answers_callback(config: QQBotConfig, payload: Result<CallbackPayload, String>, o: HttpOutcome) -> bool {
    match payload {
        Err(_) => o.dispatch is None && o.reply.status == 200 && o.reply.body == (ReplyBody::Ack {
            op: OP_HTTP_CALLBACK_ACK,
            d: 1,
        }),
        Ok(p) => if p.op == OP_HTTP_CALLBACK_VALIDATION {
            &&& o.dispatch is None
            &&& match o.reply.body {
                ReplyBody::Validation(r) => o.reply.status == 200 && is_validation_answer(
                    config.app_secret@,
                    p.validation,
                    Ok(r),
                ),
                ReplyBody::Error { error, details: Some(d) } => o.reply.status == 500 && error@
                    == "validation_failed"@ && is_validation_answer(
                    config.app_secret@,
                    p.validation,
                    Err(d),
                ),
                _ => false,
            }
        } else if p.op == OP_HEARTBEAT {
            o.dispatch is None && o.reply.status == 200 && o.reply.body == (ReplyBody::Ack {
                op: OP_HEARTBEAT_ACK,
                d: heartbeat_seq(p.d_u64),
            })
        } else if p.op == OP_DISPATCH_EVENT {
            o.dispatch matches Some(plan) && is_dispatch_plan(config, p.t, p.event, plan)
                && o.reply.status == 200 && o.reply.body == (ReplyBody::Ack {
                op: OP_HTTP_CALLBACK_ACK,
                d: if plan_acknowledged(plan) {
                    0
                } else {
                    1
                },
            })
        } else {
            o.dispatch is None && o.reply.status == 200 && o.reply.body == (ReplyBody::Ignored {
                op: p.op,
            })
        },
    }
}

/// How a webhook request is answered: only POST is accepted; when signature checking is
/// on, a request whose signature does not verify is refused with 401 (with the reason
/// when the check itself failed); every other request is answered as its callback says.
pub open spec fn answers_request(
    method: Seq<char>,
    config: QQBotConfig,
    headers: Seq<Header>,
    body: Seq<u8>,
    payload: Result<CallbackPayload, String>,
    o: HttpOutcome,
) -> bool {
    if method != "POST"@ {
        o.dispatch is None && is_error_reply(o.reply, 405, "method_not_allowed"@, None)
    } else if config.verify_signature && signature_check(config.app_secret@, headers, body)
        != Ok::<bool, Seq<char>>(true) {
        &&& o.dispatch is None
        &&& match signature_check(config.app_secret@, headers, body) {
            Err(e) => is_error_reply(o.reply, 401, "signature_error"@, Some(e)),
            Ok(_) => is_error_reply(o.reply, 401, "invalid_signature"@, None),
        }
    } else {
        answers_callback(config, payload, o)
    }
}

/// Answers the callback of an authenticated request.
fn answer_callback(config: &QQBotConfig, payload: Result<CallbackPayload, String>) -> (o: HttpOutcome)
    ensures
        answers_callback(*config, payload, o),
{
    let p = match payload {
        Ok(p) => p,
        Err(_) => {
            return HttpOutcome { reply: dispatch_ack(false), dispatch: None };
        },
    };
    if p.op == OP_HTTP_CALLBACK_VALIDATION {
        let reply = match handle_validation_request(config, p.validation) {
            Ok(body) => json_response(200, ReplyBody::Validation(body)),
            Err(err) => error_reply(500, "validation_failed", Some(err)),
        };
        HttpOutcome { reply, dispatch: None }
    } else if p.op == OP_HEARTBEAT {
        let seq: u32 = match p.d_u64 {
            Some(n) => (n % 0x1_0000_0000) as u32,
            None => 0,
        };
        HttpOutcome { reply: heartbeat_ack(seq), dispatch: None }
    } else if p.op == OP_DISPATCH_EVENT {
        let plan = dispatch_event_plan(config, p.t, p.event);
        let ok = plan.acknowledged();
        HttpOutcome { reply: dispatch_ack(ok), dispatch: Some(plan) }
    } else {
        HttpOutcome { reply: json_response(200, ReplyBody::Ignored { op: p.op }), dispatch: None }
    }
}

/// Answers a webhook request with method `method`, headers `headers` and body `body`,
/// whose callback, read from the body, is `payload`.
pub fn handle_http_request(
    method: &str,
    config: &QQBotConfig,
    headers: &[Header],
    body: &[u8],
    payload: Result<CallbackPayload, String>,
) -> (o: HttpOutcome)
    ensures
        answers_request(method@, *config, headers@, body@, payload, o),
{
    if !str_eq(method, "POST") {
        return HttpOutcome { reply: error_reply(405, "method_not_allowed", None), dispatch: None };
    }
    if config.verify_signature {
        match verify_incoming_signature(config, headers, body) {
            Ok(true) => {},
            Ok(false) => {
                return HttpOutcome {
                    reply: error_reply(401, "invalid_signature", None),
                    dispatch: None,
                };
            },
            Err(err) => {
                return HttpOutcome {
                    reply: error_reply(401, "signature_error", Some(err)),
                    dispatch: None,
                };
            },
        }
    }
    answer_callback(config, payload)
}

/// A request whose signature does not verify, while signature checking is on, is refused
/// with 401 and dispatches nothing.
pub proof fn lemma_unverified_request_refused(
    method: Seq<char>,
    config: QQBotConfig,
    headers: Seq<Header>,
    body: Seq<u8>,
    payload: Result<CallbackPayload, String>,
    o: HttpOutcome,
)
    requires
        answers_request(method, config, headers, body, payload, o),
        method == "POST"@,
        config.verify_signature,
        signature_check(config.app_secret@, headers, body) != Ok::<bool, Seq<char>>(true),
    ensures
        o.reply.status == 401,
        o.dispatch is None,
{
}

/// With signature checking on, an event is dispatched only from a POST request whose
/// signature verified.
pub proof fn lemma_dispatch_needs_signature(
    method: Seq<char>,
    config: QQBotConfig,
    headers: Seq<Header>,
    body: Seq<u8>,
    payload: Result<CallbackPayload, String>,
    o: HttpOutcome,
)
    requires
        answers_request(method, config, headers, body, payload, o),
        config.verify_signature,
        o.dispatch is Some,
    ensures
        method == "POST"@,
        signature_check(config.app_secret@, headers, body) == Ok::<bool, Seq<char>>(true),
        payload matches Ok(p) && p.op == OP_DISPATCH_EVENT,
{
}

/// The agent's reply to an emitted message goes back to the conversation the message came
/// from, and answers that message when the configuration asks for replies.
pub proof fn lemma_reply_returns_to_origin(
    config: QQBotConfig,
    e: InboundEnvelope,
    m: EmittedMessage,
    content: Seq<char>,
    now_ms: u64,
    request: ApiRequest,
)
    requires
        is_emitted(e, m),
        is_text_request(
            config.api_base@,
            m.metadata.route,
            m.metadata.target_id@,
            content,
            if config.reply_to_message {
                opt_text(m.metadata.reply_to_message_id)
            } else {
                None
            },
            now_ms,
            request,
        ),
    ensures
        request.url@ == message_url(config.api_base@, scene_route(e.scene), e.target_id@),
        body_reply_to(request.body) == if config.reply_to_message {
            Some(e.message_id@)
        } else {
            None
        },
{
}

/// An authenticated dispatch callback dispatches the plan that its event type and data give,
/// and is acknowledged with 0 exactly when it names an event type and its event could be
/// read (an unhandled event type counts as read).
pub proof fn lemma_dispatch_acknowledged(
    method: Seq<char>,
    config: QQBotConfig,
    headers: Seq<Header>,
    body: Seq<u8>,
    p: CallbackPayload,
    o: HttpOutcome,
)
    requires
        answers_request(method, config, headers, body, Ok(p), o),
        method == "POST"@,
        !config.verify_signature || signature_check(config.app_secret@, headers, body) == Ok::<
            bool,
            Seq<char>,
        >(true),
        p.op == OP_DISPATCH_EVENT,
    ensures
        o.dispatch matches Some(plan) && is_dispatch_plan(config, p.t, p.event, plan),
        o.reply.status == 200,
        o.reply.body == (ReplyBody::Ack {
            op: OP_HTTP_CALLBACK_ACK,
            d: if p.t matches Some(t) && (forall|r: Result<Option<InboundEnvelope>, String>|
                #[trigger] is_inbound_envelope(t@, p.event, r) ==> r is Ok) {
                0
            } else {
                1
            },
        }),
{
    let plan = o.dispatch->0;
    if let Some(t) = p.t {
        let r = choose|r: Result<Option<InboundEnvelope>, String>|
            #[trigger] is_inbound_envelope(t@, p.event, r) && match r {
                Err(err) => plan matches DispatchPlan::EventRejected(x) && x@ == err@,
                Ok(None) => plan is Ignored,
                Ok(Some(e)) => envelope_plan(config, e, plan),
            };
        assert forall|r2: Result<Option<InboundEnvelope>, String>|
            #[trigger] is_inbound_envelope(t@, p.event, r2) implies (r2 is Ok <==> r is Ok) by {}
    }
}

/// A validation challenge answered with a signed token is answered with HTTP 200, and a
/// 500 always carries an error body.
pub proof fn lemma_validation_answer_is_ok_status(
    method: Seq<char>,
    config: QQBotConfig,
    headers: Seq<Header>,
    body: Seq<u8>,
    payload: Result<CallbackPayload, String>,
    o: HttpOutcome,
)
    requires
        answers_request(method, config, headers, body, payload, o),
    ensures
        o.reply.body is Validation ==> o.reply.status == 200,
        o.reply.status == 500 ==> o.reply.body is Error,
{
}

/// Only POST requests are served: any other method is answered 405 with the error
/// `method_not_allowed`, and nothing is dispatched.
pub proof fn lemma_only_post(
    method: Seq<char>,
    config: QQBotConfig,
    headers: Seq<Header>,
    body: Seq<u8>,
    payload: Result<CallbackPayload, String>,
    o: HttpOutcome,
)
    requires
        answers_request(method, config, headers, body, payload, o),
        method != "POST"@,
    ensures
        o.reply.status == 405,
        o.dispatch is None,
        o.reply.body matches ReplyBody::Error { error, details } && error@ == "method_not_allowed"@
            && details is None,
{
}

/// With signature checking on, a POST whose signature check fails is answered 401: with
/// `signature_error` and the reason when the check could not be made, with
/// `invalid_signature` when the signature does not verify.
pub proof fn lemma_refusal_reasons(
    config: QQBotConfig,
    headers: Seq<Header>,
    body: Seq<u8>,
    payload: Result<CallbackPayload, String>,
    o: HttpOutcome,
)
    requires
        answers_request("POST"@, config, headers, body, payload, o),
        config.verify_signature,
    ensures
        signature_check(config.app_secret@, headers, body) matches Err(e) ==> (o.reply.status == 401
            && o.dispatch is None && (o.reply.body matches ReplyBody::Error { error, details }
            && error@ == "signature_error"@ && (details matches Some(d) && d@ == e))),
        signature_check(config.app_secret@, headers, body) == Ok::<bool, Seq<char>>(false) ==> (
        o.reply.status == 401 && o.dispatch is None && (o.reply.body matches ReplyBody::Error {
            error,
            details,
        } && error@ == "invalid_signature"@ && details is None)),
{
}

/// A POST that passes (or skips) the signature check is answered with 200 unless it is a
/// validation that fails: an unreadable callback is acknowledged `{"op": 12, "d": 1}`, a
/// heartbeat (op 1) with `{"op": 11, "d": SEQ}` where SEQ is the data's low 32 bits (0
/// without data), and an operation other than 0, 1 and 13 is ignored; none of these
/// dispatches anything.
pub proof fn lemma_authenticated_answers(
    config: QQBotConfig,
    headers: Seq<Header>,
    body: Seq<u8>,
    payload: Result<CallbackPayload, String>,
    o: HttpOutcome,
)
    requires
        answers_request("POST"@, config, headers, body, payload, o),
        !config.verify_signature || signature_check(config.app_secret@, headers, body) == Ok::<
            bool,
            Seq<char>,
        >(true),
    ensures
        payload is Err ==> (o.reply.status == 200 && o.dispatch is None && o.reply.body == (
        ReplyBody::Ack { op: 12, d: 1 })),
        payload matches Ok(p) ==> {
            &&& p.op == 1 ==> (o.reply.status == 200 && o.dispatch is None && o.reply.body == (
            ReplyBody::Ack {
                op: 11,
                d: match p.d_u64 {
                    Some(n) => (n % 0x1_0000_0000) as u32,
                    None => 0u32,
                },
            }))
            &&& (p.op != 0 && p.op != 1 && p.op != 13) ==> (o.reply.status == 200 && o.dispatch is None
                && o.reply.body == (ReplyBody::Ignored { op: p.op }))
            &&& p.op == 13 ==> (o.dispatch is None && (o.reply.body is Validation || (o.reply.status
                == 500 && (o.reply.body matches ReplyBody::Error { error, details } && error@
                == "validation_failed"@))))
        },
{
}

/// An admitted sender's message is emitted to the agent as the sender's, with its text and
/// attachments, and with the metadata for replying to it: the route of its scene, its reply
/// target, and its message id as the message to answer. A refused sender's message is not
/// emitted.
pub proof fn lemma_emitted_message(config: QQBotConfig, e: InboundEnvelope, p: DispatchPlan)
    requires
        envelope_plan(config, e, p),
    ensures
        sender_admitted(config, e) ==> (p matches DispatchPlan::Emit(m) && {
            &&& m.user_id == e.sender_id
            &&& m.user_name == e.sender_name
            &&& m.content == e.content
            &&& m.attachments == e.attachments
            &&& m.metadata.target_id == e.target_id
            &&& m.metadata.sender_id == e.sender_id
            &&& m.metadata.reply_to_message_id == Some(e.message_id)
            &&& (e.scene == IncomingScene::C2c ==> m.metadata.route == RouteKind::C2c)
            &&& (e.scene == IncomingScene::Group ==> m.metadata.route == RouteKind::Group)
            &&& (e.scene == IncomingScene::Guild ==> m.metadata.route == RouteKind::Guild)
            &&& (e.scene == IncomingScene::DirectMessage ==> m.metadata.route
                == RouteKind::DirectMessage)
        }),
        !sender_admitted(config, e) ==> p is Refused,
{
}

} // verus!
