use qqbot_channel::access::{matches_allow_from, pairing_reply, pairing_request, sender_allowed};
use qqbot_channel::config::{channel_setup, default_config, settle_config, QQBotConfig};
use qqbot_channel::envelope::{
    build_inbound_envelope, clean_qq_mentions, content_for_emit, convert_attachments,
    normalize_attachment_url, EventData, InboundEnvelope, QqAttachment, QqC2cAuthor,
    QqC2cMessage, QqGroupAuthor, QqGroupMessage, QqGuildAuthor, QqGuildMessage,
};
use qqbot_channel::outbound::{
    authorization_value, broadcast_request, next_msg_seq, send_agent_response, send_input_notify,
    send_text_message, status_is_success, status_notify_request, ApiBody, ResponseMetadata,
};
use qqbot_channel::routing::{parse_send_target, route_for_scene, IncomingScene, RouteKind, SendTarget};
use qqbot_channel::signing::{
    build_signature_message, derive_secret_seed, get_header, handle_validation_request,
    verify_incoming_signature, Header, ValidationPayload,
};
use qqbot_channel::text::{
    clean_spaces, decimal_string, eq_ignore_ascii_case, parse_u64, signed_decimal_string,
    IntParseError,
};
use qqbot_channel::token::{
    accept_token_response, cached_token_usable, deserialize_u64ish, token_request, CachedToken,
    LifetimeValue, TokenResponse,
};
use qqbot_channel::webhook::{
    dispatch_ack, dispatch_event_plan, handle_http_request, heartbeat_ack, CallbackPayload,
    DispatchPlan, HttpOutcome, ReplyBody,
};

#[test]
fn test_clean_mentions() {
    assert_eq!(clean_qq_mentions("<@!12345>  hello  "), "hello");
    assert_eq!(clean_qq_mentions("<@12345>\u{00A0}world"), "world");
}

#[test]
fn test_parse_send_target() {
    assert!(matches!(parse_send_target("group:abc").route, RouteKind::Group));
    assert!(matches!(parse_send_target("channel:abc").route, RouteKind::Guild));
    assert!(matches!(parse_send_target("dm:abc").route, RouteKind::DirectMessage));
    assert!(matches!(parse_send_target("plain-openid").route, RouteKind::C2c));
}

#[test]
fn test_derive_secret_seed_repeats() {
    let seed = derive_secret_seed("abc").unwrap();
    assert_eq!(&seed[..6], b"abcabc");
    assert_eq!(seed.len(), 32);
}

#[test]
fn test_build_signature_message() {
    let msg = build_signature_message("123", b"payload");
    assert_eq!(msg, b"123payload");
}

#[test]
fn test_normalize_attachment_url() {
    assert_eq!(normalize_attachment_url("//cdn.example.com/a.png").unwrap(), "https://cdn.example.com/a.png");
    assert_eq!(normalize_attachment_url("cdn.example.com/a.png").unwrap(), "https://cdn.example.com/a.png");
}

fn config_with_secret(secret: &str) -> QQBotConfig {
    let mut c = default_config();
    c.app_id = "1024".to_string();
    c.app_secret = secret.to_string();
    c
}

fn header(name: &str, value: &str) -> Header {
    Header { name: name.to_string(), value: Some(value.to_string()) }
}

fn challenge(token: &str, ts: &str) -> ValidationPayload {
    ValidationPayload { plain_token: token.to_string(), event_ts: ts.to_string() }
}

fn no_event() -> EventData {
    EventData { c2c: Err("no c2c".to_string()), group: Err("no group".to_string()), guild: Err("no guild".to_string()) }
}

fn attachment(url: Option<&str>, content_type: Option<&str>) -> QqAttachment {
    QqAttachment {
        url: url.map(|u| u.to_string()),
        filename: Some("a.png".to_string()),
        content_type: content_type.map(|t| t.to_string()),
        size: Some(10),
        width: Some(3),
        height: None,
    }
}

fn c2c_message(openid: &str, author_id: Option<&str>, content: &str) -> QqC2cMessage {
    QqC2cMessage {
        id: "m1".to_string(),
        content: content.to_string(),
        timestamp: "t".to_string(),
        author: QqC2cAuthor { id: author_id.map(|a| a.to_string()), user_openid: openid.to_string(), union_openid: None },
        attachments: vec![],
    }
}

fn guild_message(author: &str, channel: Option<&str>, guild: Option<&str>) -> QqGuildMessage {
    QqGuildMessage {
        id: "g1".to_string(),
        channel_id: channel.map(|c| c.to_string()),
        guild_id: guild.map(|g| g.to_string()),
        content: " <@!42> hi ".to_string(),
        timestamp: "t".to_string(),
        author: QqGuildAuthor { id: author.to_string(), username: Some("Alice".to_string()), bot: None },
        attachments: vec![attachment(Some("x.example/y"), None)],
    }
}

fn envelope(scene: IncomingScene, sender: &str, name: Option<&str>) -> InboundEnvelope {
    InboundEnvelope {
        scene,
        sender_id: sender.to_string(),
        sender_name: name.map(|n| n.to_string()),
        message_id: "m1".to_string(),
        content: "hi".to_string(),
        target_id: "target".to_string(),
        guild_id: None,
        channel_id: None,
        attachments: vec![],
    }
}

fn payload(op: u32) -> CallbackPayload {
    CallbackPayload {
        op,
        s: None,
        t: None,
        id: None,
        d_u64: None,
        validation: Err("not a challenge".to_string()),
        event: no_event(),
    }
}

#[test]
fn challenge_answer_passes_incoming_check() {
    let config = config_with_secret("DG5g3B4j9X2KOErG");
    let reply = handle_validation_request(&config, Ok(challenge("Arq0D5A61EgUu4OxUvOp", "1725442341"))).unwrap();
    assert_eq!(reply.plain_token, "Arq0D5A61EgUu4OxUvOp");
    assert_eq!(reply.signature.len(), 128);
    let headers = vec![header("X-Signature-Ed25519", &reply.signature), header("x-signature-timestamp", "1725442341")];
    assert_eq!(verify_incoming_signature(&config, &headers, b"Arq0D5A61EgUu4OxUvOp"), Ok(true));
    assert_eq!(verify_incoming_signature(&config, &headers, b"Arq0D5A61EgUu4OxUvOq"), Ok(false));
    let other = config_with_secret("another-secret");
    assert_eq!(verify_incoming_signature(&other, &headers, b"Arq0D5A61EgUu4OxUvOp"), Ok(false));
}

#[test]
fn validation_errors() {
    let empty = config_with_secret("");
    assert_eq!(
        handle_validation_request(&empty, Ok(challenge("a", "1"))).err().unwrap(),
        "app_secret is required for webhook validation"
    );
    let config = config_with_secret("s");
    assert_eq!(
        handle_validation_request(&config, Err("missing field".to_string())).err().unwrap(),
        "invalid validation payload: missing field"
    );
}

#[test]
fn signature_check_errors() {
    let config = config_with_secret("secret");
    assert_eq!(verify_incoming_signature(&config_with_secret(""), &[], b"x"), Err("app_secret is empty".to_string()));
    assert_eq!(verify_incoming_signature(&config, &[], b"x"), Err("missing x-signature-ed25519 header".to_string()));
    let only_sig = vec![header("x-signature-ed25519", "00")];
    assert_eq!(verify_incoming_signature(&config, &only_sig, b"x"), Err("missing x-signature-timestamp header".to_string()));
    let odd = vec![header("x-signature-ed25519", "abc"), header("x-signature-timestamp", "1")];
    assert_eq!(verify_incoming_signature(&config, &odd, b"x"), Err("invalid signature hex: Odd number of digits".to_string()));
    let short = vec![header("x-signature-ed25519", "abcd"), header("x-signature-timestamp", "1")];
    assert_eq!(
        verify_incoming_signature(&config, &short, b"x"),
        Err("invalid signature bytes: signature error".to_string())
    );
}

#[test]
fn header_lookup_ignores_case_and_takes_first() {
    let headers = vec![
        Header { name: "Other".to_string(), value: Some("o".to_string()) },
        Header { name: "X-Signature-Timestamp".to_string(), value: None },
        header("x-signature-timestamp", "later"),
    ];
    assert_eq!(get_header(&headers, "other"), Some("o".to_string()));
    assert_eq!(get_header(&headers, "x-signature-timestamp"), None);
    assert_eq!(get_header(&headers, "missing"), None);
}

#[test]
fn secret_seed_edges() {
    assert_eq!(derive_secret_seed("").err().unwrap(), "secret is empty");
    let long: String = "0123456789abcdef0123456789abcdefXYZ".to_string();
    assert_eq!(&derive_secret_seed(&long).unwrap()[..], &long.as_bytes()[..32]);
    let seed = derive_secret_seed("é").unwrap();
    assert_eq!(&seed[..4], &[0xc3, 0xa9, 0xc3, 0xa9]);
}

#[test]
fn trimming_and_mentions() {
    assert_eq!(clean_spaces(" \t\r\n\u{00A0}x y\u{00A0} \n"), "x y");
    assert_eq!(clean_spaces("   "), "");
    assert_eq!(content_for_emit("<@!1> hi <@2>", IncomingScene::Group, false), "hi");
    assert_eq!(content_for_emit("<@!1> hi", IncomingScene::C2c, false), "<@!1> hi");
    assert_eq!(content_for_emit(" <@3> ", IncomingScene::Guild, true), "");
    assert_eq!(content_for_emit("a", IncomingScene::DirectMessage, true), "a");
}

#[test]
fn attachment_urls() {
    assert_eq!(normalize_attachment_url(""), None);
    assert_eq!(normalize_attachment_url("http://a/b").unwrap(), "http://a/b");
    assert_eq!(normalize_attachment_url("https://a/b").unwrap(), "https://a/b");
    let once = normalize_attachment_url("//a/b").unwrap();
    assert_eq!(normalize_attachment_url(&once).unwrap(), once);
}

#[test]
fn attachments_are_numbered() {
    let out = convert_attachments(
        "c2c",
        "msg",
        vec![attachment(Some("//cdn/a"), Some("image/png")), attachment(None, None)],
    );
    assert_eq!(out.len(), 2);
    assert_eq!(out[0].id, "c2c:msg:0");
    assert_eq!(out[0].mime_type, "image/png");
    assert_eq!(out[0].source_url.as_deref(), Some("https://cdn/a"));
    assert_eq!(out[0].width, Some(3));
    assert_eq!(out[1].id, "c2c:msg:1");
    assert_eq!(out[1].mime_type, "application/octet-stream");
    assert_eq!(out[1].source_url, None);
    assert_eq!(out[1].size_bytes, Some(10));
}

#[test]
fn envelopes_by_event_type() {
    let data = EventData { c2c: Ok(c2c_message("", Some("author"), "  hello ")), group: Err("g".to_string()), guild: Err("x".to_string()) };
    let e = build_inbound_envelope("C2C_MESSAGE_CREATE", data).unwrap().unwrap();
    assert_eq!(e.sender_id, "author");
    assert_eq!(e.target_id, "author");
    assert_eq!(e.content, "hello");
    assert!(matches!(e.scene, IncomingScene::C2c));

    let group = QqGroupMessage {
        id: "gm".to_string(),
        content: "<@!9> do it".to_string(),
        timestamp: "t".to_string(),
        group_id: Some("gid".to_string()),
        group_openid: "".to_string(),
        author: QqGroupAuthor { id: None, member_openid: "member".to_string() },
        attachments: vec![],
    };
    let data = EventData { c2c: Err("c".to_string()), group: Ok(group), guild: Err("x".to_string()) };
    let e = build_inbound_envelope("GROUP_AT_MESSAGE_CREATE", data).unwrap().unwrap();
    assert_eq!(e.sender_id, "member");
    assert_eq!(e.target_id, "gid");
    assert_eq!(e.content, "do it");

    let data = EventData { c2c: Err("c".to_string()), group: Err("g".to_string()), guild: Ok(guild_message("u", Some("chan"), Some("guild"))) };
    let e = build_inbound_envelope("AT_MESSAGE_CREATE", data).unwrap().unwrap();
    assert_eq!(e.target_id, "chan");
    assert_eq!(e.content, "hi");
    assert_eq!(e.attachments[0].id, "guild:g1:0");
    assert_eq!(e.attachments[0].source_url.as_deref(), Some("https://x.example/y"));

    let data = EventData { c2c: Err("c".to_string()), group: Err("g".to_string()), guild: Ok(guild_message("u", Some("chan"), Some("guild"))) };
    let e = build_inbound_envelope("DIRECT_MESSAGE_CREATE", data).unwrap().unwrap();
    assert_eq!(e.target_id, "guild");
    assert_eq!(e.content, "<@!42> hi");
    assert_eq!(e.attachments[0].id, "dm:g1:0");

    let data = EventData { c2c: Err("c".to_string()), group: Err("g".to_string()), guild: Ok(guild_message("", Some("chan"), None)) };
    assert!(build_inbound_envelope("AT_MESSAGE_CREATE", data).unwrap().is_none());
    let data = EventData { c2c: Err("c".to_string()), group: Err("g".to_string()), guild: Ok(guild_message("u", None, None)) };
    assert!(build_inbound_envelope("DIRECT_MESSAGE_CREATE", data).unwrap().is_none());
    assert_eq!(build_inbound_envelope("C2C_MESSAGE_CREATE", no_event()).err().unwrap(), "no c2c");
    assert!(build_inbound_envelope("READY", no_event()).unwrap().is_none());
}

#[test]
fn allow_rules() {
    let list = vec!["Alice".to_string(), "ID-7".to_string()];
    assert!(matches_allow_from(&list, "id-7", None));
    assert!(matches_allow_from(&list, "x", Some("alice")));
    assert!(!matches_allow_from(&list, "x", None));
    assert!(!matches_allow_from(&[], "x", None));
    assert!(matches_allow_from(&["*".to_string()], "anyone", None));

    let mut config = default_config();
    assert!(sender_allowed(&config, &envelope(IncomingScene::Group, "u", None)));
    assert!(!sender_allowed(&config, &envelope(IncomingScene::C2c, "u", None)));
    config.dm_policy = Some("open".to_string());
    assert!(sender_allowed(&config, &envelope(IncomingScene::DirectMessage, "u", None)));
    config.allow_from = vec!["friend".to_string()];
    assert!(!sender_allowed(&config, &envelope(IncomingScene::Guild, "u", None)));
    assert!(sender_allowed(&config, &envelope(IncomingScene::Guild, "FRIEND", None)));
    config.owner_id = Some("boss".to_string());
    assert!(!sender_allowed(&config, &envelope(IncomingScene::Guild, "friend", None)));
    assert!(sender_allowed(&config, &envelope(IncomingScene::C2c, "x", Some("boss"))));
    assert!(!sender_allowed(&config, &envelope(IncomingScene::C2c, "BOSS", None)));
}

#[test]
fn pairing_offers() {
    let config = default_config();
    let req = pairing_request(&config, &envelope(IncomingScene::DirectMessage, "u1", Some("n"))).unwrap();
    assert_eq!(req.channel, "qqbot");
    assert_eq!(req.meta.scene, "direct_message");
    assert!(pairing_request(&config, &envelope(IncomingScene::Group, "u1", None)).is_none());
    let mut open = default_config();
    open.dm_policy = Some("open".to_string());
    assert!(pairing_request(&open, &envelope(IncomingScene::C2c, "u1", None)).is_none());
    let reply = pairing_reply(&envelope(IncomingScene::C2c, "u1", None), true, "XYZ").unwrap();
    assert_eq!(reply.content, "To pair with this bot, run: ironclaw pairing approve qqbot XYZ");
    assert!(matches!(reply.target.route, RouteKind::C2c));
    assert_eq!(reply.target.id, "target");
    assert!(pairing_reply(&envelope(IncomingScene::C2c, "u1", None), false, "XYZ").is_none());
}

#[test]
fn message_requests() {
    let config = config_with_secret("s");
    let t = SendTarget { route: RouteKind::Group, id: "g".to_string() };
    let plan = send_text_message(&config, &t, "hi", Some("m"), 65536).unwrap();
    assert_eq!(plan.token.app_id, "1024");
    assert_eq!(plan.token.url, "https://bots.qq.com/app/getAppAccessToken");
    let r = plan.request;
    assert_eq!(r.url, "https://api.sgroup.qq.com/v2/groups/g/messages");
    assert_eq!(r.method, "POST");
    match r.body {
        ApiBody::Reply { content, msg_type, msg_seq, msg_id } => {
            assert_eq!(content, "hi");
            assert_eq!(msg_type, 0);
            assert_eq!(msg_seq, 1);
            assert_eq!(msg_id.as_deref(), Some("m"));
        }
        _ => panic!("expected a reply body"),
    }
    let r = broadcast_request(&config, "channel:c9", "x", 5).unwrap().request;
    assert_eq!(r.url, "https://api.sgroup.qq.com/channels/c9/messages");
    assert!(matches!(r.body, ApiBody::Simple { .. }));
    let r = broadcast_request(&config, "dm:d1", "x", 5).unwrap().request;
    assert_eq!(r.url, "https://api.sgroup.qq.com/dms/d1/messages");
    let r = broadcast_request(&config, "c2c:u", "x", 5).unwrap().request;
    assert_eq!(r.url, "https://api.sgroup.qq.com/v2/users/u/messages");
    assert_eq!(parse_send_target("c2c:u").id, "u");
    assert_eq!(parse_send_target("group:").id, "");
}

fn metadata(route: RouteKind) -> ResponseMetadata {
    ResponseMetadata {
        route,
        target_id: "t".to_string(),
        sender_id: "s".to_string(),
        sender_name: None,
        reply_to_message_id: Some("m".to_string()),
        guild_id: None,
        channel_id: None,
    }
}

#[test]
fn agent_responses_and_typing() {
    let mut config = config_with_secret("s");
    let r = send_agent_response(&config, &metadata(RouteKind::C2c), "answer", 7).unwrap().request;
    assert_eq!(r.url, "https://api.sgroup.qq.com/v2/users/t/messages");
    assert!(matches!(&r.body, ApiBody::Reply { msg_id: Some(m), msg_seq: 7, .. } if m == "m"));
    config.reply_to_message = false;
    let r = send_agent_response(&config, &metadata(RouteKind::Guild), "answer", 7).unwrap().request;
    assert!(matches!(&r.body, ApiBody::Simple { msg_id: None, .. }));

    let n = send_input_notify(&config, "u", None, 130).unwrap().request;
    assert_eq!(n.url, "https://api.sgroup.qq.com/v2/users/u/messages");
    assert!(matches!(n.body, ApiBody::InputNotify { msg_type: 6, input_type: 1, input_second: 60, msg_seq: 130, msg_id: None }));
    assert!(status_notify_request(&config, true, Some(metadata(RouteKind::C2c)), 1).is_some());
    assert!(status_notify_request(&config, false, Some(metadata(RouteKind::C2c)), 1).is_none());
    assert!(status_notify_request(&config, true, Some(metadata(RouteKind::Group)), 1).is_none());
    assert!(status_notify_request(&config, true, None, 1).is_none());
    config.enable_input_notify = false;
    assert!(status_notify_request(&config, true, Some(metadata(RouteKind::C2c)), 1).is_none());
}

#[test]
fn sequence_numbers_and_api_helpers() {
    assert_eq!(next_msg_seq(0), 1);
    assert_eq!(next_msg_seq(65535), 1);
    assert_eq!(next_msg_seq(65534), 65534);
    assert_eq!(next_msg_seq(1_700_000_000_123), (1_700_000_000_123u64 % 65535) as u32);
    assert_eq!(authorization_value("tok"), "QQBot tok");
    assert!(status_is_success(204));
    assert!(!status_is_success(300));
    assert!(!status_is_success(199));
}

#[test]
fn tokens() {
    let mut config = config_with_secret("sec");
    let req = token_request(&config).unwrap();
    assert_eq!(req.url, "https://bots.qq.com/app/getAppAccessToken");
    assert_eq!(req.client_secret, "sec");
    config.app_id = String::new();
    assert_eq!(token_request(&config).err().unwrap(), "qqbot app_id/app_secret are required");

    let ok = TokenResponse { code: 0, message: None, access_token: "abc".to_string(), expires_in: 7200 };
    let cached = accept_token_response(200, ok, 1000).unwrap();
    assert_eq!(cached.expires_at_ms, 1000 + 7_200_000);
    assert!(cached_token_usable(&cached, 1000));
    let short = TokenResponse { code: 0, message: None, access_token: "abc".to_string(), expires_in: 5 };
    let cached = accept_token_response(200, short, 0).unwrap();
    assert_eq!(cached.expires_at_ms, 120_000);
    assert!(cached_token_usable(&cached, 59_999));
    assert!(!cached_token_usable(&cached, 60_000));
    assert!(!cached_token_usable(&CachedToken { access_token: "t".to_string(), expires_at_ms: 5 }, 10));
    let refused = TokenResponse { code: -11, message: Some("bad".to_string()), access_token: String::new(), expires_in: 0 };
    assert_eq!(
        accept_token_response(200, refused, 0).err().unwrap(),
        "qqbot token request returned status 200 code -11 message bad"
    );
    let refused = TokenResponse { code: 0, message: None, access_token: "t".to_string(), expires_in: 0 };
    assert_eq!(
        accept_token_response(500, refused, 0).err().unwrap(),
        "qqbot token request returned status 500 code 0 message "
    );
}

#[test]
fn token_lifetimes() {
    assert_eq!(deserialize_u64ish(&LifetimeValue::Number(Some(7200))), Ok(7200));
    assert_eq!(deserialize_u64ish(&LifetimeValue::Number(None)).err().unwrap(), "expires_in must be a positive integer");
    assert_eq!(deserialize_u64ish(&LifetimeValue::Text("+7200".to_string())), Ok(7200));
    assert_eq!(deserialize_u64ish(&LifetimeValue::Text("".to_string())).err().unwrap(), "cannot parse integer from empty string");
    assert_eq!(deserialize_u64ish(&LifetimeValue::Text("7a".to_string())).err().unwrap(), "invalid digit found in string");
    assert_eq!(
        deserialize_u64ish(&LifetimeValue::Text("18446744073709551616".to_string())).err().unwrap(),
        "number too large to fit in target type"
    );
    assert_eq!(deserialize_u64ish(&LifetimeValue::Null), Ok(0));
    assert_eq!(deserialize_u64ish(&LifetimeValue::Other("true".to_string())).err().unwrap(), "unsupported expires_in value: true");
}

#[test]
fn integer_text() {
    for s in ["0", "42", "+9", "18446744073709551615", "", "+", "-1", "1_0", "99999999999999999999", "12é"] {
        let expected = s.parse::<u64>();
        let got = parse_u64(s);
        match expected {
            Ok(v) => assert_eq!(got, Ok(v), "{s}"),
            Err(e) => {
                let kind = match e.kind() {
                    std::num::IntErrorKind::Empty => IntParseError::Empty,
                    std::num::IntErrorKind::InvalidDigit => IntParseError::InvalidDigit,
                    _ => IntParseError::PosOverflow,
                };
                assert_eq!(got, Err(kind), "{s}");
            }
        }
    }
    assert_eq!(decimal_string(0), "0");
    assert_eq!(decimal_string(u64::MAX), u64::MAX.to_string());
    assert_eq!(signed_decimal_string(i64::MIN), i64::MIN.to_string());
    assert_eq!(signed_decimal_string(-5), "-5");
    assert!(eq_ignore_ascii_case("AbC", "aBc"));
    assert!(!eq_ignore_ascii_case("Ä", "ä"));
    assert!(!eq_ignore_ascii_case("ab", "abc"));
}

#[test]
fn configuration() {
    let c = settle_config(None);
    assert_eq!(c.api_base, "https://api.sgroup.qq.com");
    assert_eq!(c.webhook_path, "/webhook/qqbot");
    assert_eq!(c.dm_policy.as_deref(), Some("pairing"));
    assert_eq!(c.input_notify_seconds, 60);
    let mut parsed = default_config();
    parsed.dm_policy = None;
    parsed.app_id = "id".to_string();
    let c = settle_config(Some(parsed));
    assert_eq!(c.dm_policy.as_deref(), Some("pairing"));
    assert_eq!(c.app_id, "id");
    let mut parsed = default_config();
    parsed.dm_policy = Some("open".to_string());
    assert_eq!(settle_config(Some(parsed)).dm_policy.as_deref(), Some("open"));

    let setup = channel_setup(&c);
    assert_eq!(setup.display_name, "QQ Bot");
    assert_eq!(setup.endpoint.path, "/webhook/qqbot");
    assert_eq!(setup.endpoint.methods, vec!["POST".to_string()]);
    assert!(!setup.endpoint.require_secret);
    assert!(setup.credentials_missing);
    assert!(!channel_setup(&config_with_secret("s")).credentials_missing);
    assert!(matches!(route_for_scene(IncomingScene::DirectMessage), RouteKind::DirectMessage));
}

fn status_of(o: &HttpOutcome) -> u16 {
    o.reply.status
}

#[test]
fn webhook_requests() {
    let mut config = config_with_secret("hook-secret");
    let o = handle_http_request("GET", &config, &[], b"", Ok(payload(1)));
    assert_eq!(status_of(&o), 405);
    assert!(o.dispatch.is_none());

    let o = handle_http_request("POST", &config, &[], b"{}", Ok(payload(0)));
    assert_eq!(status_of(&o), 401);
    assert!(matches!(&o.reply.body, ReplyBody::Error { error, details: Some(d) } if error == "signature_error" && d == "missing x-signature-ed25519 header"));
    assert!(o.dispatch.is_none());

    let body = b"{\"op\":1,\"d\":5}";
    let bad = vec![header("x-signature-ed25519", &"00".repeat(64)), header("x-signature-timestamp", "1")];
    let o = handle_http_request("POST", &config, &bad, body, Ok(payload(1)));
    assert_eq!(status_of(&o), 401);
    assert!(matches!(&o.reply.body, ReplyBody::Error { error, details: None } if error == "invalid_signature"));

    let signer = handle_validation_request(&config, Ok(ValidationPayload {
        plain_token: String::from_utf8(body.to_vec()).unwrap(),
        event_ts: "77".to_string(),
    }))
    .unwrap();
    let good = vec![header("x-signature-ed25519", &signer.signature), header("x-signature-timestamp", "77")];
    let mut heartbeat = payload(1);
    heartbeat.d_u64 = Some(5 + (1u64 << 32));
    let o = handle_http_request("POST", &config, &good, body, Ok(heartbeat));
    assert_eq!(status_of(&o), 200);
    assert!(matches!(o.reply.body, ReplyBody::Ack { op: 11, d: 5 }));

    config.verify_signature = false;
    let o = handle_http_request("POST", &config, &[], b"", Err("bad json".to_string()));
    assert!(matches!(o.reply.body, ReplyBody::Ack { op: 12, d: 1 }));
    let o = handle_http_request("POST", &config, &[], b"", Ok(payload(7)));
    assert!(matches!(o.reply.body, ReplyBody::Ignored { op: 7 }));
    let mut v = payload(13);
    v.validation = Ok(challenge("tok", "9"));
    let o = handle_http_request("POST", &config, &[], b"", Ok(v));
    assert!(matches!(&o.reply.body, ReplyBody::Validation(r) if r.plain_token == "tok"));
    let o = handle_http_request("POST", &config, &[], b"", Ok(payload(13)));
    assert_eq!(status_of(&o), 500);
    let o = handle_http_request("POST", &config, &[], b"", Ok(payload(0)));
    assert!(matches!(o.reply.body, ReplyBody::Ack { op: 12, d: 1 }));
    assert!(matches!(o.dispatch, Some(DispatchPlan::MissingEventType)));

    let mut event = payload(0);
    event.t = Some("C2C_MESSAGE_CREATE".to_string());
    event.event.c2c = Ok(c2c_message("user-1", None, " hey "));
    config.dm_policy = Some("open".to_string());
    let o = handle_http_request("POST", &config, &[], b"", Ok(event));
    assert!(matches!(o.reply.body, ReplyBody::Ack { op: 12, d: 0 }));
    match o.dispatch {
        Some(DispatchPlan::Emit(m)) => {
            assert_eq!(m.user_id, "user-1");
            assert_eq!(m.content, "hey");
            assert_eq!(m.metadata.reply_to_message_id.as_deref(), Some("m1"));
            assert!(matches!(m.metadata.route, RouteKind::C2c));
        }
        _ => panic!("expected an emitted message"),
    }
}

#[test]
fn dispatch_plans() {
    let config = default_config();
    let mut data = no_event();
    data.c2c = Ok(c2c_message("stranger", None, "hello"));
    match dispatch_event_plan(&config, Some("C2C_MESSAGE_CREATE".to_string()), data) {
        DispatchPlan::Refused { envelope, pairing } => {
            assert_eq!(envelope.sender_id, "stranger");
            assert_eq!(pairing.unwrap().meta.scene, "c2c");
        }
        _ => panic!("expected a refusal"),
    }
    assert!(matches!(dispatch_event_plan(&config, Some("OTHER".to_string()), no_event()), DispatchPlan::Ignored));
    assert!(matches!(
        dispatch_event_plan(&config, Some("GROUP_AT_MESSAGE_CREATE".to_string()), no_event()),
        DispatchPlan::EventRejected(e) if e == "no group"
    ));
    assert!(matches!(heartbeat_ack(3).body, ReplyBody::Ack { op: 11, d: 3 }));
    assert!(matches!(dispatch_ack(true).body, ReplyBody::Ack { op: 12, d: 0 }));
}

#[test]
fn sending_needs_credentials() {
    let config = default_config();
    let t = SendTarget { route: RouteKind::Group, id: "g1".to_string() };
    assert_eq!(
        send_text_message(&config, &t, "hi", None, 1).err().unwrap(),
        "qqbot app_id/app_secret are required"
    );
    assert!(send_agent_response(&config, &metadata(RouteKind::C2c), "x", 1).is_err());
    assert!(broadcast_request(&config, "group:g", "x", 1).is_err());
    assert!(send_input_notify(&config, "u", None, 1).is_err());
    assert!(matches!(status_notify_request(&config, true, Some(metadata(RouteKind::C2c)), 1), Some(Err(_))));
}
