//! Requests to the QQ Bot open API: message bodies, their URLs, and when they are sent.
use vstd::prelude::*;
use crate::access::opt_str_text;
use crate::config::QQBotConfig;
use crate::routing::{parse_send_target, send_target_of, RouteKind, SendTarget};
use crate::signing::opt_text;
use crate::text::{concat2, concat3};
use crate::token::{is_token_request, token_request, TokenRequest};

verus! {

broadcast use vstd::string::group_string_axioms;

/// Where a reply to an emitted message goes, as the host hands it back with the reply.
pub struct ResponseMetadata {
    pub route: RouteKind,
    pub target_id: String,
    pub sender_id: String,
    pub sender_name: Option<String>,
    pub reply_to_message_id: Option<String>,
    pub guild_id: Option<String>,
    pub channel_id: Option<String>,
}

/// The JSON body of an API request.
pub enum ApiBody {
    /// `{"content", "msg_type", "msg_seq", "msg_id"?}`: a reply in a one-to-one chat or group.
    Reply { content: String, msg_type: u32, msg_seq: u32, msg_id: Option<String> },
    /// `{"content", "msg_id"?}`: a message in a guild channel or guild direct message.
    Simple { content: String, msg_id: Option<String> },
    /// `{"msg_type", "input_notify": {"input_type", "input_second"}, "msg_seq", "msg_id"?}`:
    /// the "typing" notice in a one-to-one chat.
    InputNotify {
        msg_type: u32,
        input_type: u32,
        input_second: u32,
        msg_seq: u32,
        msg_id: Option<String>,
    },
}

/// A request to send to the API with the access token.
pub struct ApiRequest {
    pub method: String,
    pub url: String,
    pub body: ApiBody,
}

/// The message sequence number used at time `now_ms`: the time modulo 65535, but never 0.
pub open spec fn msg_seq_at(now_ms: u64) -> u32 {
    if now_ms % 65535 == 0 {
        1
    } else {
        (now_ms % 65535) as u32
    }
}

pub fn next_msg_seq(now_ms: u64) -> (seq: u32)
    ensures
        seq == msg_seq_at(now_ms),
        1 <= seq < 65535,
{
    let r = (now_ms % 65535) as u32;
    if r < 1 {
        1
    } else {
        r
    }
}

fn opt_string(o: Option<&str>) -> (r: Option<String>)
    ensures
        opt_text(r) == opt_str_text(o),
{
    match o {
        Some(s) => Some(String::from_str(s)),
        None => None,
    }
}

/// The body of a reply in a one-to-one chat or a group.
pub fn build_reply_body(content: &str, msg_id: Option<&str>, now_ms: u64) -> (b: ApiBody)
    ensures
        b matches ApiBody::Reply { content: c, msg_type, msg_seq, msg_id: m } && c@ == content@
            && msg_type == 0 && msg_seq == msg_seq_at(now_ms) && opt_text(m) == opt_str_text(
            msg_id,
        ),
{
    ApiBody::Reply {
        content: String::from_str(content),
        msg_type: 0,
        msg_seq: next_msg_seq(now_ms),
        msg_id: opt_string(msg_id),
    }
}

/// The body of a message in a guild channel or guild direct message.
pub fn build_simple_body(content: &str, msg_id: Option<&str>) -> (b: ApiBody)
    ensures
        b matches ApiBody::Simple { content: c, msg_id: m } && c@ == content@ && opt_text(m)
            == opt_str_text(msg_id),
{
    ApiBody::Simple { content: String::from_str(content), msg_id: opt_string(msg_id) }
}

/// The message that a request's body answers, if any.
pub open spec fn body_reply_to(b: ApiBody) -> Option<Seq<char>> {
    match b {
        ApiBody::Reply { msg_id, .. } => opt_text(msg_id),
        ApiBody::Simple { msg_id, .. } => opt_text(msg_id),
        ApiBody::InputNotify { msg_id, .. } => opt_text(msg_id),
    }
}

/// The URL that messages for a destination are posted to.
pub open spec fn message_url(api_base: Seq<char>, route: RouteKind, id: Seq<char>) -> Seq<char> {
    match route {
        RouteKind::C2c => api_base + "/v2/users/"@ + id + "/messages"@,
        RouteKind::Group => api_base + "/v2/groups/"@ + id + "/messages"@,
        RouteKind::Guild => api_base + "/channels/"@ + id + "/messages"@,
        RouteKind::DirectMessage => api_base + "/dms/"@ + id + "/messages"@,
    }
}

/// `request` posts `content` to `target`, as a reply to `reply_to` when there is one:
/// one-to-one chats and groups take a reply body, guild channels and direct messages a
/// simple body.
pub open spec fn is_text_request(
    api_base: Seq<char>,
    route: RouteKind,
    id: Seq<char>,
    content: Seq<char>,
    reply_to: Option<Seq<char>>,
    now_ms: u64,
    request: ApiRequest,
) -> bool {
    &&& request.method@ == "POST"@
    &&& request.url@ == message_url(api_base, route, id)
    &&& match route {
        RouteKind::C2c | RouteKind::Group => request.body matches ApiBody::Reply {
            content: c,
            msg_type,
            msg_seq,
            msg_id,
        } && c@ == content && msg_type == 0 && msg_seq == msg_seq_at(now_ms) && opt_text(msg_id)
            == reply_to,
        RouteKind::Guild | RouteKind::DirectMessage => request.body matches ApiBody::Simple {
            content: c,
            msg_id,
        } && c@ == content && opt_text(msg_id) == reply_to,
    }
}

/// An API request, and the token request whose token authorizes it.
pub struct SendPlan {
    pub token: TokenRequest,
    pub request: ApiRequest,
}

fn text_request(
    config: &QQBotConfig,
    target: &SendTarget,
    content: &str,
    reply_to_message_id: Option<&str>,
    now_ms: u64,
) -> (request: ApiRequest)
    ensures
        is_text_request(
            config.api_base@,
            target.route,
            target.id@,
            content@,
            opt_str_text(reply_to_message_id),
            now_ms,
            request,
        ),
{
    let body = match target.route {
        RouteKind::C2c | RouteKind::Group => build_reply_body(content, reply_to_message_id, now_ms),
        RouteKind::Guild | RouteKind::DirectMessage => build_simple_body(
            content,
            reply_to_message_id,
        ),
    };
    let base = config.api_base.as_str();
    let id = target.id.as_str();
    let head = match target.route {
        RouteKind::C2c => concat3(base, "/v2/users/", id),
        RouteKind::Group => concat3(base, "/v2/groups/", id),
        RouteKind::Guild => concat3(base, "/channels/", id),
        RouteKind::DirectMessage => concat3(base, "/dms/", id),
    };
    let url = concat2(head.as_str(), "/messages");
    ApiRequest { method: String::from_str("POST"), url, body }
}

/// Sending a text message to a destination: refused without API credentials; otherwise
/// the token request, and the request that posts the message.
pub fn send_text_message(
    config: &QQBotConfig,
    target: &SendTarget,
    content: &str,
    reply_to_message_id: Option<&str>,
    now_ms: u64,
) -> (res: Result<SendPlan, String>)
    ensures
        match res {
            Err(m) => is_token_request(*config, Err(m)),
            Ok(plan) => is_token_request(*config, Ok(plan.token)) && is_text_request(
                config.api_base@,
                target.route,
                target.id@,
                content@,
                opt_str_text(reply_to_message_id),
                now_ms,
                plan.request,
            ),
        },
{
    let token = match token_request(config) {
        Ok(t) => t,
        Err(e) => {
            return Err(e);
        },
    };
    Ok(SendPlan { token, request: text_request(config, target, content, reply_to_message_id, now_ms) })
}

fn opt_as_str(o: &Option<String>) -> (r: Option<&str>)
    ensures
        opt_str_text(r) == opt_text(*o),
{
    match o {
        Some(s) => Some(s.as_str()),
        None => None,
    }
}

/// Delivering the agent's reply to where the message came from: refused without API
/// credentials; the reply answers the incoming message only when the configuration asks
/// for replies.
pub fn send_agent_response(
    config: &QQBotConfig,
    metadata: &ResponseMetadata,
    content: &str,
    now_ms: u64,
) -> (res: Result<SendPlan, String>)
    ensures
        match res {
            Err(m) => is_token_request(*config, Err(m)),
            Ok(plan) => is_token_request(*config, Ok(plan.token)) && is_text_request(
                config.api_base@,
                metadata.route,
                metadata.target_id@,
                content@,
                if config.reply_to_message {
                    opt_text(metadata.reply_to_message_id)
                } else {
                    None
                },
                now_ms,
                plan.request,
            ),
        },
{
    let target = SendTarget { route: metadata.route, id: metadata.target_id.clone() };
    let reply_to = if config.reply_to_message {
        opt_as_str(&metadata.reply_to_message_id)
    } else {
        None
    };
    send_text_message(config, &target, content, reply_to, now_ms)
}

/// Broadcasting a message to the destination a user id names: refused without API
/// credentials.
pub fn broadcast_request(config: &QQBotConfig, user_id: &str, content: &str, now_ms: u64) -> (res:
    Result<SendPlan, String>)
    ensures
        match res {
            Err(m) => is_token_request(*config, Err(m)),
            Ok(plan) => is_token_request(*config, Ok(plan.token)) && is_text_request(
                config.api_base@,
                send_target_of(user_id@).0,
                send_target_of(user_id@).1,
                content@,
                None,
                now_ms,
                plan.request,
            ),
        },
{
    let target = parse_send_target(user_id);
    send_text_message(config, &target, content, None, now_ms)
}

/// `request` is the typing notice for the user `openid`, lasting `seconds`.
pub open spec fn is_input_notify_request(
    api_base: Seq<char>,
    openid: Seq<char>,
    seconds: u32,
    msg_id: Option<Seq<char>>,
    now_ms: u64,
    request: ApiRequest,
) -> bool {
    &&& request.method@ == "POST"@
    &&& request.url@ == message_url(api_base, RouteKind::C2c, openid)
    &&& request.body matches ApiBody::InputNotify {
        msg_type,
        input_type,
        input_second,
        msg_seq,
        msg_id: m,
    } && msg_type == 6 && input_type == 1 && input_second == seconds && msg_seq == msg_seq_at(
        now_ms,
    ) && opt_text(m) == msg_id
}

fn input_notify_request(config: &QQBotConfig, openid: &str, msg_id: Option<&str>, now_ms: u64) -> (request: ApiRequest)
    ensures
        is_input_notify_request(
            config.api_base@,
            openid@,
            config.input_notify_seconds,
            opt_str_text(msg_id),
            now_ms,
            request,
        ),
{
    let head = concat3(config.api_base.as_str(), "/v2/users/", openid);
    let url = concat2(head.as_str(), "/messages");
    ApiRequest {
        method: String::from_str("POST"),
        url,
        body: ApiBody::InputNotify {
            msg_type: 6,
            input_type: 1,
            input_second: config.input_notify_seconds,
            msg_seq: next_msg_seq(now_ms),
            msg_id: opt_string(msg_id),
        },
    }
}

/// Showing the bot as typing to a user: refused without API credentials.
pub fn send_input_notify(config: &QQBotConfig, openid: &str, msg_id: Option<&str>, now_ms: u64) -> (res: Result<SendPlan, String>)
    ensures
        match res {
            Err(m) => is_token_request(*config, Err(m)),
            Ok(plan) => is_token_request(*config, Ok(plan.token)) && is_input_notify_request(
                config.api_base@,
                openid@,
                config.input_notify_seconds,
                opt_str_text(msg_id),
                now_ms,
                plan.request,
            ),
        },
{
    let token = match token_request(config) {
        Ok(t) => t,
        Err(e) => {
            return Err(e);
        },
    };
    Ok(SendPlan { token, request: input_notify_request(config, openid, msg_id, now_ms) })
}

/// A status update is answered with a typing notice only when the agent is thinking,
/// typing notices are enabled, the update's metadata could be read, and the conversation
/// is a one-to-one chat; the notice goes to the sender, about the message replied to, and
/// is refused without API credentials.
pub open spec fn is_status_notice(
    config: QQBotConfig,
    is_thinking: bool,
    metadata: Option<ResponseMetadata>,
    now_ms: u64,
    notice: Option<Result<SendPlan, String>>,
) -> bool {
    &&& notice is Some <==> (is_thinking && config.enable_input_notify && (metadata matches Some(m)
        && m.route == RouteKind::C2c))
    &&& notice matches Some(res) ==> match res {
        Err(m) => is_token_request(config, Err(m)),
        Ok(plan) => is_token_request(config, Ok(plan.token)) && is_input_notify_request(
            config.api_base@,
            metadata->0.sender_id@,
            config.input_notify_seconds,
            opt_text(metadata->0.reply_to_message_id),
            now_ms,
            plan.request,
        ),
    }
}

pub fn status_notify_request(
    config: &QQBotConfig,
    is_thinking: bool,
    metadata: Option<ResponseMetadata>,
    now_ms: u64,
) -> (notice: Option<Result<SendPlan, String>>)
    ensures
        is_status_notice(*config, is_thinking, metadata, now_ms, notice),
{
    if !is_thinking || !config.enable_input_notify {
        return None;
    }
    let metadata = match metadata {
        Some(m) => m,
        None => {
            return None;
        },
    };
    if metadata.route != RouteKind::C2c {
        return None;
    }
    Some(
        send_input_notify(
            config,
            metadata.sender_id.as_str(),
            opt_as_str(&metadata.reply_to_message_id),
            now_ms,
        ),
    )
}

/// The `Authorization` header value for an access token.
pub open spec fn authorization_text(access_token: Seq<char>) -> Seq<char> {
    "QQBot "@ + access_token
}

pub fn authorization_value(access_token: &str) -> (v: String)
    ensures
        v@ == authorization_text(access_token@),
{
    concat2("QQBot ", access_token)
}

/// An HTTP status the API answers a successful request with.
pub open spec fn success_status(status: u16) -> bool {
    200 <= status < 300
}

pub fn status_is_success(status: u16) -> (ok: bool)
    ensures
        ok == success_status(status),
{
    200 <= status && status < 300
}

/// The message sequence number is the time in milliseconds modulo 65535, with 1 in place
/// of 0, so it is always between 1 and 65534.
pub proof fn lemma_msg_seq(now_ms: u64)
    ensures
        1 <= msg_seq_at(now_ms) <= 65534,
        now_ms % 65535 != 0 ==> msg_seq_at(now_ms) == now_ms % 65535,
        now_ms % 65535 == 0 ==> msg_seq_at(now_ms) == 1,
{
}

/// A text message is POSTed to `BASE/v2/users/ID/messages` (one-to-one),
/// `BASE/v2/groups/ID/messages` (group), `BASE/channels/ID/messages` (guild channel) or
/// `BASE/dms/ID/messages` (direct message). One-to-one and group messages carry the content,
/// message type 0, the sequence number and the answered message; guild and direct messages
/// carry the content and the answered message only.
pub proof fn lemma_text_request_shape(
    api_base: Seq<char>,
    route: RouteKind,
    id: Seq<char>,
    content: Seq<char>,
    reply_to: Option<Seq<char>>,
    now_ms: u64,
    request: ApiRequest,
)
    requires
        is_text_request(api_base, route, id, content, reply_to, now_ms, request),
    ensures
        request.method@ == "POST"@,
        route == RouteKind::C2c ==> request.url@ == api_base + "/v2/users/"@ + id + "/messages"@,
        route == RouteKind::Group ==> request.url@ == api_base + "/v2/groups/"@ + id + "/messages"@,
        route == RouteKind::Guild ==> request.url@ == api_base + "/channels/"@ + id + "/messages"@,
        route == RouteKind::DirectMessage ==> request.url@ == api_base + "/dms/"@ + id + "/messages"@,
        (route == RouteKind::C2c || route == RouteKind::Group) ==> (request.body matches ApiBody::Reply {
            content: c,
            msg_type,
            msg_seq,
            msg_id,
        } && c@ == content && msg_type == 0 && msg_seq == (if now_ms % 65535 == 0 {
            1
        } else {
            now_ms % 65535
        }) && opt_text(msg_id) == reply_to),
        (route == RouteKind::Guild || route == RouteKind::DirectMessage) ==> (request.body matches ApiBody::Simple {
            content: c,
            msg_id,
        } && c@ == content && opt_text(msg_id) == reply_to),
{
}

/// A typing notice is POSTed to `BASE/v2/users/OPENID/messages` with message type 6,
/// input type 1, the configured number of seconds, the sequence number and the message it
/// is about.
pub proof fn lemma_input_notice_shape(
    api_base: Seq<char>,
    openid: Seq<char>,
    seconds: u32,
    msg_id: Option<Seq<char>>,
    now_ms: u64,
    request: ApiRequest,
)
    requires
        is_input_notify_request(api_base, openid, seconds, msg_id, now_ms, request),
    ensures
        request.method@ == "POST"@,
        request.url@ == api_base + "/v2/users/"@ + openid + "/messages"@,
        request.body matches ApiBody::InputNotify { msg_type, input_type, input_second, msg_seq, msg_id: m }
            && msg_type == 6 && input_type == 1 && input_second == seconds && msg_seq == (if now_ms
            % 65535 == 0 {
            1
        } else {
            now_ms % 65535
        }) && opt_text(m) == msg_id,
{
}

/// Every API call is refused with "qqbot app_id/app_secret are required" when the app id
/// or the app secret is empty; otherwise the token is requested from the configured token
/// URL with the app id and secret.
pub proof fn lemma_calls_need_credentials(config: QQBotConfig, res: Result<TokenRequest, String>)
    requires
        is_token_request(config, res),
    ensures
        (config.app_id@.len() == 0 || config.app_secret@.len() == 0) <==> res is Err,
        res matches Err(m) ==> m@ == "qqbot app_id/app_secret are required"@,
        res matches Ok(r) ==> r.url@ == config.token_url@ && r.app_id@ == config.app_id@
            && r.client_secret@ == config.app_secret@,
{
}

/// A status update becomes a typing notice exactly when the agent is thinking, notices are
/// enabled and the conversation is a one-to-one chat; the notice goes to the sender.
pub proof fn lemma_status_notice(
    config: QQBotConfig,
    is_thinking: bool,
    metadata: Option<ResponseMetadata>,
    now_ms: u64,
    notice: Option<Result<SendPlan, String>>,
)
    requires
        is_status_notice(config, is_thinking, metadata, now_ms, notice),
    ensures
        notice is Some <==> (is_thinking && config.enable_input_notify && metadata is Some
            && metadata->0.route == RouteKind::C2c),
        notice matches Some(Ok(plan)) ==> plan.request.url@ == config.api_base@ + "/v2/users/"@
            + metadata->0.sender_id@ + "/messages"@,
{
}

/// Requests carry the header `Authorization: QQBot TOKEN`, and an answer counts as a
/// success exactly when its status is 2xx.
pub proof fn lemma_api_conventions(token: Seq<char>, status: u16)
    ensures
        authorization_text(token) == "QQBot "@ + token,
        success_status(status) <==> (200 <= status && status <= 299),
{
}

} // verus!
