//! Incoming QQ messages: their cleanup, their attachments, and the envelope handed on.
use vstd::prelude::*;
use crate::routing::IncomingScene;
use crate::signing::opt_text;
use crate::text::{
    clean_spaces, clone_opt, concat2, concat3, decimal, decimal_string, has_prefix,
    is_trim_char, lemma_decimal_injective, lemma_trimmed_edges, starts_with, str_eq, trimmed,
};

verus! {

broadcast use vstd::string::group_string_axioms;

// ---------------------------------------------------------------- text of a message

/// The result of `Regex::new(pattern)` followed by `replace_all(text, replacement)`:
/// `None` when the pattern does not compile.
pub uninterp spec fn regex_replaced(pattern: Seq<char>, text: Seq<char>, replacement: Seq<char>) -> Option<Seq<char>>;

/// The regex crate: compiles `pattern` and replaces every match in `text`. Claimed: the
/// result depends on the three texts alone and is the one named by `regex_replaced`.
#[verifier::external_body]
fn regex_replace_all(pattern: &str, text: &str, replacement: &str) -> (res: Option<String>)
    ensures
        opt_text(res) == regex_replaced(pattern@, text@, replacement@),
{
    match regex::Regex::new(pattern) {
        Ok(re) => Some(re.replace_all(text, replacement).into_owned()),
        Err(_) => None,
    }
}

/// The pattern of an `@` mention in a group or guild message: `<@123>` or `<@!123>`.
pub open spec fn mention_pattern() -> Seq<char> {
    "<@!?\\d+>"@
}

/// A message text with its mentions removed and its ends trimmed. Should the mention
/// pattern ever be refused by the regex crate, the text is only trimmed.
pub open spec fn without_mentions(content: Seq<char>) -> Seq<char> {
    match regex_replaced(mention_pattern(), content, ""@) {
        Some(t) => trimmed(t),
        None => trimmed(content),
    }
}

/// Removes `@` mentions from a message, then trims it.
pub fn clean_qq_mentions(content: &str) -> (res: String)
    ensures
        res@ == without_mentions(content@),
{
    match regex_replace_all("<@!?\\d+>", content, "") {
        Some(t) => clean_spaces(t.as_str()),
        None => clean_spaces(content),
    }
}

/// The text passed on for a message from `scene`: mentions are removed in group and guild
/// messages, and every text is trimmed.
pub open spec fn emitted_content(content: Seq<char>, scene: IncomingScene) -> Seq<char> {
    match scene {
        IncomingScene::Group | IncomingScene::Guild => without_mentions(content),
        _ => trimmed(content),
    }
}

/// The text passed on for a message. A message that is only attachments gets empty text.
pub fn content_for_emit(content: &str, scene: IncomingScene, has_attachments: bool) -> (res: String)
    ensures
        res@ == emitted_content(content@, scene),
{
    let cleaned = match scene {
        IncomingScene::Group | IncomingScene::Guild => clean_qq_mentions(content),
        _ => clean_spaces(content),
    };
    if cleaned.as_str().is_empty() && has_attachments {
        String::new()
    } else {
        cleaned
    }
}

// ---------------------------------------------------------------- attachment URLs

/// The URL an attachment is fetched from: `http(s)://` URLs stay, protocol-relative ones
/// get `https:`, and anything else gets `https://`; an empty URL gives none.
pub open spec fn normalized_url(url: Seq<char>) -> Option<Seq<char>> {
    if url.len() == 0 {
        None
    } else if has_prefix(url, "http://"@) || has_prefix(url, "https://"@) {
        Some(url)
    } else if has_prefix(url, "//"@) {
        Some("https:"@ + url)
    } else {
        Some("https://"@ + url)
    }
}

pub fn normalize_attachment_url(url: &str) -> (res: Option<String>)
    ensures
        opt_text(res) == normalized_url(url@),
{
    if url.is_empty() {
        return None;
    }
    if starts_with(url, "http://") || starts_with(url, "https://") {
        return Some(String::from_str(url));
    }
    if starts_with(url, "//") {
        return Some(concat2("https:", url));
    }
    Some(concat2("https://", url))
}

proof fn lemma_prefix_of_concat(p: Seq<char>, s: Seq<char>)
    ensures
        has_prefix(p + s, p),
{
    assert((p + s).take(p.len() as int) == p);
}

/// Every normalized attachment URL is an `http://` or `https://` URL.
pub proof fn lemma_normalized_url_scheme(url: Seq<char>)
    requires
        url.len() > 0,
    ensures
        normalized_url(url) matches Some(u) && (has_prefix(u, "http://"@) || has_prefix(
            u,
            "https://"@,
        )),
{
    reveal_strlit("https:");
    reveal_strlit("https://");
    reveal_strlit("//");
    if has_prefix(url, "http://"@) || has_prefix(url, "https://"@) {
    } else if has_prefix(url, "//"@) {
        let u = "https:"@ + url;
        assert(url.take(2) == "//"@);
        assert(url[0] == url.take(2)[0]);
        assert(url[1] == url.take(2)[1]);
        assert(u[6] == url[0]);
        assert(u[7] == url[1]);
        assert(u.take(8) =~= "https://"@);
    } else {
        lemma_prefix_of_concat("https://"@, url);
    }
}

/// Normalizing an already normalized attachment URL changes nothing.
pub proof fn lemma_normalized_url_idempotent(url: Seq<char>)
    requires
        url.len() > 0,
    ensures
        normalized_url(url) matches Some(u) && normalized_url(u) == Some(u),
{
    lemma_normalized_url_scheme(url);
}

// ---------------------------------------------------------------- attachments

/// An attachment as QQ describes it.
pub struct QqAttachment {
    pub url: Option<String>,
    pub filename: Option<String>,
    pub content_type: Option<String>,
    pub size: Option<u64>,
    pub width: Option<u32>,
    pub height: Option<u32>,
}

/// An attachment as the channel passes it on.
pub struct InboundAttachment {
    pub id: String,
    pub mime_type: String,
    pub filename: Option<String>,
    pub size_bytes: Option<u64>,
    pub source_url: Option<String>,
    pub width: Option<u32>,
    pub height: Option<u32>,
}

/// MIME type assumed when QQ names none.
pub open spec fn default_mime_type() -> Seq<char> {
    "application/octet-stream"@
}

/// The id of the `index`-th attachment of a message: `prefix:message_id:index`.
pub open spec fn attachment_id(prefix: Seq<char>, message_id: Seq<char>, index: nat) -> Seq<char> {
    prefix + ":"@ + message_id + ":"@ + decimal(index)
}

/// `out` is the attachment `a`, the `index`-th of message `message_id`, passed on.
pub open spec fn attachment_converted(
    prefix: Seq<char>,
    message_id: Seq<char>,
    index: nat,
    a: QqAttachment,
    out: InboundAttachment,
) -> bool {
    &&& out.id@ == attachment_id(prefix, message_id, index)
    &&& out.mime_type@ == match a.content_type {
        Some(t) => t@,
        None => default_mime_type(),
    }
    &&& out.filename == a.filename
    &&& out.size_bytes == a.size
    &&& opt_text(out.source_url) == match a.url {
        Some(u) => normalized_url(u@),
        None => None,
    }
    &&& out.width == a.width
    &&& out.height == a.height
}

/// Every attachment of a message, in order, passed on.
pub open spec fn attachments_converted(
    prefix: Seq<char>,
    message_id: Seq<char>,
    src: Seq<QqAttachment>,
    out: Seq<InboundAttachment>,
) -> bool {
    &&& out.len() == src.len()
    &&& forall|i: int|
        0 <= i < src.len() ==> #[trigger] attachment_converted(
            prefix,
            message_id,
            i as nat,
            src[i],
            out[i],
        )
}

fn convert_attachment(prefix: &str, message_id: &str, index: usize, a: &QqAttachment) -> (out:
    InboundAttachment)
    ensures
        attachment_converted(prefix@, message_id@, index as nat, *a, out),
{
    let head = concat3(prefix, ":", message_id);
    let num = decimal_string(index as u64);
    let id = concat3(head.as_str(), ":", num.as_str());
    let mime_type = match &a.content_type {
        Some(t) => t.clone(),
        None => String::from_str("application/octet-stream"),
    };
    let source_url = match &a.url {
        Some(u) => normalize_attachment_url(u.as_str()),
        None => None,
    };
    InboundAttachment {
        id,
        mime_type,
        filename: clone_opt(&a.filename),
        size_bytes: a.size,
        source_url,
        width: a.width,
        height: a.height,
    }
}

/// Passes on the attachments of a message, numbering them from 0.
pub fn convert_attachments(prefix: &str, message_id: &str, attachments: Vec<QqAttachment>) -> (res:
    Vec<InboundAttachment>)
    ensures
        attachments_converted(prefix@, message_id@, attachments@, res@),
{
    let mut res: Vec<InboundAttachment> = Vec::new();
    let n = attachments.len();
    for i in 0..n
        invariant
            n == attachments@.len(),
            res@.len() == i,
            forall|j: int|
                0 <= j < i ==> #[trigger] attachment_converted(
                    prefix@,
                    message_id@,
                    j as nat,
                    attachments@[j],
                    res@[j],
                ),
    {
        let out = convert_attachment(prefix, message_id, i, &attachments[i]);
        res.push(out);
    }
    res
}

// ---------------------------------------------------------------- messages

pub struct QqC2cAuthor {
    pub id: Option<String>,
    pub user_openid: String,
    pub union_openid: Option<String>,
}

/// A one-to-one message.
pub struct QqC2cMessage {
    pub id: String,
    pub content: String,
    pub timestamp: String,
    pub author: QqC2cAuthor,
    pub attachments: Vec<QqAttachment>,
}

pub struct QqGroupAuthor {
    pub id: Option<String>,
    pub member_openid: String,
}

/// A group message that mentions the bot.
pub struct QqGroupMessage {
    pub id: String,
    pub content: String,
    pub timestamp: String,
    pub group_id: Option<String>,
    pub group_openid: String,
    pub author: QqGroupAuthor,
    pub attachments: Vec<QqAttachment>,
}

pub struct QqGuildAuthor {
    pub id: String,
    pub username: Option<String>,
    pub bot: Option<bool>,
}

/// A guild channel message that mentions the bot, or a guild direct message.
pub struct QqGuildMessage {
    pub id: String,
    pub channel_id: Option<String>,
    pub guild_id: Option<String>,
    pub content: String,
    pub timestamp: String,
    pub author: QqGuildAuthor,
    pub attachments: Vec<QqAttachment>,
}

/// An incoming message, reduced to what the channel passes on.
pub struct InboundEnvelope {
    pub scene: IncomingScene,
    pub sender_id: String,
    pub sender_name: Option<String>,
    pub message_id: String,
    pub content: String,
    pub target_id: String,
    pub guild_id: Option<String>,
    pub channel_id: Option<String>,
    pub attachments: Vec<InboundAttachment>,
}

/// The text of an optional string, empty when absent.
pub open spec fn text_or_empty(o: Option<String>) -> Seq<char> {
    match o {
        Some(s) => s@,
        None => Seq::empty(),
    }
}

/// The text of `o`, or `fallback` when `o` is empty.
pub open spec fn or_else_text(o: Seq<char>, fallback: Seq<char>) -> Seq<char> {
    if o.len() == 0 {
        fallback
    } else {
        o
    }
}

fn string_or_empty(o: Option<String>) -> (s: String)
    ensures
        s@ == text_or_empty(o),
{
    match o {
        Some(s) => s,
        None => String::new(),
    }
}

/// The envelope of a one-to-one message: sender and reply target are the user's openid
/// (or the author id when the openid is empty).
pub open spec fn is_c2c_envelope(m: QqC2cMessage, e: InboundEnvelope) -> bool {
    let sender = or_else_text(m.author.user_openid@, text_or_empty(m.author.id));
    &&& e.scene == IncomingScene::C2c
    &&& e.sender_id@ == sender
    &&& e.sender_name is None
    &&& e.message_id@ == m.id@
    &&& e.content@ == emitted_content(m.content@, IncomingScene::C2c)
    &&& e.target_id@ == sender
    &&& e.guild_id is None
    &&& e.channel_id is None
    &&& attachments_converted("c2c"@, m.id@, m.attachments@, e.attachments@)
}

pub fn build_c2c_envelope(event: QqC2cMessage) -> (e: InboundEnvelope)
    ensures
        is_c2c_envelope(event, e),
{
    let has_attachments = event.attachments.len() > 0;
    let content = content_for_emit(event.content.as_str(), IncomingScene::C2c, has_attachments);
    let attachments = convert_attachments("c2c", event.id.as_str(), event.attachments);
    let sender_id = if event.author.user_openid.as_str().is_empty() {
        string_or_empty(event.author.id)
    } else {
        event.author.user_openid
    };
    InboundEnvelope {
        scene: IncomingScene::C2c,
        sender_id: sender_id.clone(),
        sender_name: None,
        message_id: event.id,
        content,
        target_id: sender_id,
        guild_id: None,
        channel_id: None,
        attachments,
    }
}

/// The envelope of a group message: the sender is the member's openid, and replies go to
/// the group's openid (or its id when the openid is empty).
pub open spec fn is_group_envelope(m: QqGroupMessage, e: InboundEnvelope) -> bool {
    &&& e.scene == IncomingScene::Group
    &&& e.sender_id@ == m.author.member_openid@
    &&& e.sender_name is None
    &&& e.message_id@ == m.id@
    &&& e.content@ == emitted_content(m.content@, IncomingScene::Group)
    &&& e.target_id@ == or_else_text(m.group_openid@, text_or_empty(m.group_id))
    &&& e.guild_id is None
    &&& e.channel_id is None
    &&& attachments_converted("group"@, m.id@, m.attachments@, e.attachments@)
}

pub fn build_group_envelope(event: QqGroupMessage) -> (e: InboundEnvelope)
    ensures
        is_group_envelope(event, e),
{
    let has_attachments = event.attachments.len() > 0;
    let content = content_for_emit(event.content.as_str(), IncomingScene::Group, has_attachments);
    let attachments = convert_attachments("group", event.id.as_str(), event.attachments);
    let target_id = if event.group_openid.as_str().is_empty() {
        string_or_empty(event.group_id)
    } else {
        event.group_openid
    };
    InboundEnvelope {
        scene: IncomingScene::Group,
        sender_id: event.author.member_openid,
        sender_name: None,
        message_id: event.id,
        content,
        target_id,
        guild_id: None,
        channel_id: None,
        attachments,
    }
}

/// Where replies to a guild-like message go: the channel for a guild message, the guild
/// (the direct-message session) for a direct message.
pub open spec fn guild_like_target(m: QqGuildMessage, scene: IncomingScene) -> Seq<char> {
    match scene {
        IncomingScene::Guild => text_or_empty(m.channel_id),
        IncomingScene::DirectMessage => text_or_empty(m.guild_id),
        _ => Seq::empty(),
    }
}

/// Prefix of the ids of a guild-like message's attachments.
pub open spec fn guild_like_prefix(scene: IncomingScene) -> Seq<char> {
    if scene == IncomingScene::Guild {
        "guild"@
    } else {
        "dm"@
    }
}

/// The envelope of a guild or guild direct message; there is none when the author id or
/// the reply target is empty.
pub open spec fn is_guild_like_envelope(
    m: QqGuildMessage,
    scene: IncomingScene,
    r: Option<InboundEnvelope>,
) -> bool {
    if m.author.id@.len() == 0 || guild_like_target(m, scene).len() == 0 {
        r is None
    } else {
        r matches Some(e) && {
            &&& e.scene == scene
            &&& e.sender_id@ == m.author.id@
            &&& e.sender_name == m.author.username
            &&& e.message_id@ == m.id@
            &&& e.content@ == emitted_content(m.content@, scene)
            &&& e.target_id@ == guild_like_target(m, scene)
            &&& e.guild_id == m.guild_id
            &&& e.channel_id == m.channel_id
            &&& attachments_converted(guild_like_prefix(scene), m.id@, m.attachments@, e.attachments@)
        }
    }
}

pub fn build_guild_like_envelope(event: QqGuildMessage, scene: IncomingScene) -> (r: Option<
    InboundEnvelope,
>)
    ensures
        is_guild_like_envelope(event, scene, r),
{
    let target_id = match scene {
        IncomingScene::Guild => string_or_empty(clone_opt(&event.channel_id)),
        IncomingScene::DirectMessage => string_or_empty(clone_opt(&event.guild_id)),
        _ => String::new(),
    };
    if event.author.id.as_str().is_empty() || target_id.as_str().is_empty() {
        return None;
    }
    let has_attachments = event.attachments.len() > 0;
    let content = content_for_emit(event.content.as_str(), scene, has_attachments);
    let prefix = if scene == IncomingScene::Guild {
        "guild"
    } else {
        "dm"
    };
    let attachments = convert_attachments(prefix, event.id.as_str(), event.attachments);
    Some(
        InboundEnvelope {
            scene,
            sender_id: event.author.id,
            sender_name: event.author.username,
            message_id: event.id,
            content,
            target_id,
            guild_id: event.guild_id,
            channel_id: event.channel_id,
            attachments,
        },
    )
}

/// The event data of a dispatch callback, read as each kind of message it may be
/// (or why it could not be read as that kind).
pub struct EventData {
    pub c2c: Result<QqC2cMessage, String>,
    pub group: Result<QqGroupMessage, String>,
    pub guild: Result<QqGuildMessage, String>,
}

/// What `build_inbound_envelope` gives for an event: messages of the four supported
/// event types become envelopes (or the error that reading them gave); other events are
/// ignored.
pub open spec fn is_inbound_envelope(
    event_type: Seq<char>,
    data: EventData,
    r: Result<Option<InboundEnvelope>, String>,
) -> bool {
    if event_type == "C2C_MESSAGE_CREATE"@ {
        match data.c2c {
            Ok(m) => r matches Ok(Some(e)) && is_c2c_envelope(m, e),
            Err(err) => r matches Err(x) && x@ == err@,
        }
    } else if event_type == "GROUP_AT_MESSAGE_CREATE"@ {
        match data.group {
            Ok(m) => r matches Ok(Some(e)) && is_group_envelope(m, e),
            Err(err) => r matches Err(x) && x@ == err@,
        }
    } else if event_type == "AT_MESSAGE_CREATE"@ {
        match data.guild {
            Ok(m) => r matches Ok(o) && is_guild_like_envelope(m, IncomingScene::Guild, o),
            Err(err) => r matches Err(x) && x@ == err@,
        }
    } else if event_type == "DIRECT_MESSAGE_CREATE"@ {
        match data.guild {
            Ok(m) => r matches Ok(o) && is_guild_like_envelope(m, IncomingScene::DirectMessage, o),
            Err(err) => r matches Err(x) && x@ == err@,
        }
    } else {
        r matches Ok(None)
    }
}

/// Turns a dispatch event into an envelope.
pub fn build_inbound_envelope(event_type: &str, data: EventData) -> (r: Result<
    Option<InboundEnvelope>,
    String,
>)
    ensures
        is_inbound_envelope(event_type@, data, r),
{
    if str_eq(event_type, "C2C_MESSAGE_CREATE") {
        match data.c2c {
            Ok(m) => Ok(Some(build_c2c_envelope(m))),
            Err(e) => Err(e),
        }
    } else if str_eq(event_type, "GROUP_AT_MESSAGE_CREATE") {
        match data.group {
            Ok(m) => Ok(Some(build_group_envelope(m))),
            Err(e) => Err(e),
        }
    } else if str_eq(event_type, "AT_MESSAGE_CREATE") {
        match data.guild {
            Ok(m) => Ok(build_guild_like_envelope(m, IncomingScene::Guild)),
            Err(e) => Err(e),
        }
    } else if str_eq(event_type, "DIRECT_MESSAGE_CREATE") {
        match data.guild {
            Ok(m) => Ok(build_guild_like_envelope(m, IncomingScene::DirectMessage)),
            Err(e) => Err(e),
        }
    } else {
        Ok(None)
    }
}

/// Within a message, different attachments get different ids.
pub proof fn lemma_attachment_ids_distinct(prefix: Seq<char>, message_id: Seq<char>, i: nat, j: nat)
    requires
        i != j,
    ensures
        attachment_id(prefix, message_id, i) != attachment_id(prefix, message_id, j),
{
    let head = prefix + ":"@ + message_id + ":"@;
    if attachment_id(prefix, message_id, i) == attachment_id(prefix, message_id, j) {
        assert(attachment_id(prefix, message_id, i).skip(head.len() as int) == decimal(i));
        assert(attachment_id(prefix, message_id, j).skip(head.len() as int) == decimal(j));
        lemma_decimal_injective(i, j);
    }
}

/// The text passed on for a message never starts or ends with a space, no-break space,
/// newline, tab or carriage return.
pub proof fn lemma_emitted_content_trimmed(content: Seq<char>, scene: IncomingScene)
    ensures
        emitted_content(content, scene).len() > 0 ==> !is_trim_char(emitted_content(content, scene)[0])
            && !is_trim_char(emitted_content(content, scene).last()),
{
    lemma_trimmed_edges(content);
    match regex_replaced(mention_pattern(), content, ""@) {
        Some(t) => lemma_trimmed_edges(t),
        None => {},
    }
}

/// A guild channel message or guild direct message that becomes an envelope carries its
/// author as the sender: the author's id as sender id and the author's username as
/// sender name.
pub proof fn lemma_guild_envelope_names_author(
    event_type: Seq<char>,
    data: EventData,
    m: QqGuildMessage,
    e: InboundEnvelope,
)
    requires
        event_type == "AT_MESSAGE_CREATE"@ || event_type == "DIRECT_MESSAGE_CREATE"@,
        data.guild == Ok::<QqGuildMessage, String>(m),
        is_inbound_envelope(event_type, data, Ok(Some(e))),
    ensures
        e.sender_id@ == m.author.id@,
        e.sender_name == m.author.username,
        m.author.username matches Some(n) ==> e.sender_name == Some(n),
{
    reveal_strlit("AT_MESSAGE_CREATE");
    reveal_strlit("DIRECT_MESSAGE_CREATE");
    reveal_strlit("C2C_MESSAGE_CREATE");
    reveal_strlit("GROUP_AT_MESSAGE_CREATE");
    assert("AT_MESSAGE_CREATE"@.len() == 17);
    assert("C2C_MESSAGE_CREATE"@.len() == 18);
    assert("GROUP_AT_MESSAGE_CREATE"@.len() == 23);
    assert("DIRECT_MESSAGE_CREATE"@.len() == 21);
    assert("AT_MESSAGE_CREATE"@ != "C2C_MESSAGE_CREATE"@);
    assert("AT_MESSAGE_CREATE"@ != "GROUP_AT_MESSAGE_CREATE"@);
    assert("DIRECT_MESSAGE_CREATE"@ != "C2C_MESSAGE_CREATE"@);
    assert("DIRECT_MESSAGE_CREATE"@ != "GROUP_AT_MESSAGE_CREATE"@);
    assert("DIRECT_MESSAGE_CREATE"@ != "AT_MESSAGE_CREATE"@);
}

proof fn lemma_event_types_distinct()
    ensures
        "C2C_MESSAGE_CREATE"@ != "GROUP_AT_MESSAGE_CREATE"@,
        "C2C_MESSAGE_CREATE"@ != "AT_MESSAGE_CREATE"@,
        "C2C_MESSAGE_CREATE"@ != "DIRECT_MESSAGE_CREATE"@,
        "GROUP_AT_MESSAGE_CREATE"@ != "AT_MESSAGE_CREATE"@,
        "GROUP_AT_MESSAGE_CREATE"@ != "DIRECT_MESSAGE_CREATE"@,
        "AT_MESSAGE_CREATE"@ != "DIRECT_MESSAGE_CREATE"@,
{
    reveal_strlit("AT_MESSAGE_CREATE");
    reveal_strlit("DIRECT_MESSAGE_CREATE");
    reveal_strlit("C2C_MESSAGE_CREATE");
    reveal_strlit("GROUP_AT_MESSAGE_CREATE");
    assert("AT_MESSAGE_CREATE"@.len() == 17);
    assert("C2C_MESSAGE_CREATE"@.len() == 18);
    assert("GROUP_AT_MESSAGE_CREATE"@.len() == 23);
    assert("DIRECT_MESSAGE_CREATE"@.len() == 21);
}

/// A one-to-one message becomes an envelope from and back to the user: the user's openid
/// (the author id when the openid is empty) is both sender and reply target, there is no
/// sender name, the text is only trimmed (mentions stay), and attachments are numbered
/// `c2c:MESSAGE_ID:INDEX`; a message that could not be read gives its reading error.
pub proof fn lemma_c2c_event(data: EventData, r: Result<Option<InboundEnvelope>, String>)
    requires
        is_inbound_envelope("C2C_MESSAGE_CREATE"@, data, r),
    ensures
        data.c2c matches Err(x) ==> (r matches Err(y) && y@ == x@),
        data.c2c matches Ok(m) ==> (r matches Ok(Some(e)) && {
            let sender = if m.author.user_openid@.len() > 0 {
                m.author.user_openid@
            } else {
                match m.author.id {
                    Some(i) => i@,
                    None => Seq::<char>::empty(),
                }
            };
            &&& e.scene == IncomingScene::C2c
            &&& e.sender_id@ == sender
            &&& e.target_id@ == sender
            &&& e.sender_name is None
            &&& e.message_id@ == m.id@
            &&& e.content@ == trimmed(m.content@)
            &&& e.guild_id is None && e.channel_id is None
            &&& e.attachments@.len() == m.attachments@.len()
            &&& forall|i: int| 0 <= i < m.attachments@.len() ==> (#[trigger] e.attachments@[i]).id@
                == "c2c"@ + ":"@ + m.id@ + ":"@ + decimal(i as nat)
        }),
{
    if let Ok(m) = data.c2c {
        let e = r->Ok_0->0;
        assert forall|i: int| 0 <= i < m.attachments@.len() implies (#[trigger] e.attachments@[i]).id@
            == "c2c"@ + ":"@ + m.id@ + ":"@ + decimal(i as nat) by {
            assert(attachment_converted("c2c"@, m.id@, i as nat, m.attachments@[i], e.attachments@[i]));
        }
    }
}

/// A group message that mentions the bot comes from the member's openid and is answered in
/// the group (its openid, or its id when the openid is empty); its `<@...>` mentions are
/// removed before trimming, and attachments are numbered `group:MESSAGE_ID:INDEX`.
pub proof fn lemma_group_event(data: EventData, r: Result<Option<InboundEnvelope>, String>)
    requires
        is_inbound_envelope("GROUP_AT_MESSAGE_CREATE"@, data, r),
    ensures
        data.group matches Err(x) ==> (r matches Err(y) && y@ == x@),
        data.group matches Ok(m) ==> (r matches Ok(Some(e)) && {
            &&& e.scene == IncomingScene::Group
            &&& e.sender_id@ == m.author.member_openid@
            &&& e.target_id@ == if m.group_openid@.len() > 0 {
                m.group_openid@
            } else {
                match m.group_id {
                    Some(g) => g@,
                    None => Seq::<char>::empty(),
                }
            }
            &&& e.sender_name is None
            &&& e.message_id@ == m.id@
            &&& e.content@ == match regex_replaced("<@!?\\d+>"@, m.content@, ""@) {
                Some(t) => trimmed(t),
                None => trimmed(m.content@),
            }
            &&& e.attachments@.len() == m.attachments@.len()
            &&& forall|i: int| 0 <= i < m.attachments@.len() ==> (#[trigger] e.attachments@[i]).id@
                == "group"@ + ":"@ + m.id@ + ":"@ + decimal(i as nat)
        }),
{
    lemma_event_types_distinct();
    if let Ok(m) = data.group {
        let e = r->Ok_0->0;
        assert forall|i: int| 0 <= i < m.attachments@.len() implies (#[trigger] e.attachments@[i]).id@
            == "group"@ + ":"@ + m.id@ + ":"@ + decimal(i as nat) by {
            assert(attachment_converted("group"@, m.id@, i as nat, m.attachments@[i], e.attachments@[i]));
        }
    }
}

/// A guild channel message is answered in its channel and a guild direct message in its
/// guild (direct-message session); either is dropped when the author id or that target is
/// empty. Guild channel messages lose their mentions; direct messages are only trimmed.
/// Attachments are numbered `guild:...` and `dm:...`.
pub proof fn lemma_guild_events(event_type: Seq<char>, data: EventData, r: Result<Option<InboundEnvelope>, String>)
    requires
        event_type == "AT_MESSAGE_CREATE"@ || event_type == "DIRECT_MESSAGE_CREATE"@,
        is_inbound_envelope(event_type, data, r),
    ensures
        data.guild matches Err(x) ==> (r matches Err(y) && y@ == x@),
        data.guild matches Ok(m) ==> {
            let direct = event_type == "DIRECT_MESSAGE_CREATE"@;
            let target = if direct {
                match m.guild_id {
                    Some(g) => g@,
                    None => Seq::<char>::empty(),
                }
            } else {
                match m.channel_id {
                    Some(c) => c@,
                    None => Seq::<char>::empty(),
                }
            };
            &&& (m.author.id@.len() == 0 || target.len() == 0) ==> (r matches Ok(None))
            &&& (m.author.id@.len() > 0 && target.len() > 0) ==> (r matches Ok(Some(e)) && {
                &&& e.scene == if direct {
                    IncomingScene::DirectMessage
                } else {
                    IncomingScene::Guild
                }
                &&& e.target_id@ == target
                &&& e.guild_id == m.guild_id
                &&& e.channel_id == m.channel_id
                &&& e.message_id@ == m.id@
                &&& e.content@ == if direct {
                    trimmed(m.content@)
                } else {
                    match regex_replaced("<@!?\\d+>"@, m.content@, ""@) {
                        Some(t) => trimmed(t),
                        None => trimmed(m.content@),
                    }
                }
                &&& e.attachments@.len() == m.attachments@.len()
                &&& forall|i: int| 0 <= i < m.attachments@.len() ==> (#[trigger] e.attachments@[i]).id@
                    == (if direct { "dm"@ } else { "guild"@ }) + ":"@ + m.id@ + ":"@ + decimal(i as nat)
            })
        },
{
    lemma_event_types_distinct();
    if let Ok(m) = data.guild {
        let direct = event_type == "DIRECT_MESSAGE_CREATE"@;
        let scene = if direct { IncomingScene::DirectMessage } else { IncomingScene::Guild };
        if let Ok(Some(e)) = r {
            assert forall|i: int| 0 <= i < m.attachments@.len() implies (#[trigger] e.attachments@[i]).id@
                == (if direct { "dm"@ } else { "guild"@ }) + ":"@ + m.id@ + ":"@ + decimal(i as nat) by {
                assert(attachment_converted(guild_like_prefix(scene), m.id@, i as nat, m.attachments@[i], e.attachments@[i]));
            }
        }
    }
}

/// Events other than the four message events are not passed on, and nothing is read.
pub proof fn lemma_other_events_ignored(event_type: Seq<char>, data: EventData, r: Result<Option<InboundEnvelope>, String>)
    requires
        event_type != "C2C_MESSAGE_CREATE"@,
        event_type != "GROUP_AT_MESSAGE_CREATE"@,
        event_type != "AT_MESSAGE_CREATE"@,
        event_type != "DIRECT_MESSAGE_CREATE"@,
        is_inbound_envelope(event_type, data, r),
    ensures
        r matches Ok(None),
{
}

/// An attachment is passed on with the id `PREFIX:MESSAGE_ID:INDEX`, its content type (or
/// `application/octet-stream`), its file name, size and dimensions, and its URL normalized.
pub proof fn lemma_attachment_fields(
    prefix: Seq<char>,
    message_id: Seq<char>,
    index: nat,
    a: QqAttachment,
    out: InboundAttachment,
)
    requires
        attachment_converted(prefix, message_id, index, a, out),
    ensures
        out.id@ == prefix + ":"@ + message_id + ":"@ + decimal(index),
        a.content_type matches Some(t) ==> out.mime_type@ == t@,
        a.content_type is None ==> out.mime_type@ == "application/octet-stream"@,
        out.filename == a.filename,
        out.size_bytes == a.size,
        out.width == a.width,
        out.height == a.height,
        a.url is None ==> out.source_url is None,
        a.url matches Some(u) ==> opt_text(out.source_url) == normalized_url(u@),
{
}

/// Attachment URLs: an empty URL is dropped, `http://` and `https://` URLs are kept,
/// protocol-relative `//host/...` URLs get `https:`, and any other gets `https://`.
pub proof fn lemma_normalized_url_cases(url: Seq<char>)
    ensures
        url.len() == 0 ==> normalized_url(url) is None,
        url.len() > 0 && (has_prefix(url, "http://"@) || has_prefix(url, "https://"@)) ==> normalized_url(url) == Some(url),
        url.len() > 0 && !has_prefix(url, "http://"@) && !has_prefix(url, "https://"@) && has_prefix(url, "//"@)
            ==> normalized_url(url) == Some("https:"@ + url),
        url.len() > 0 && !has_prefix(url, "http://"@) && !has_prefix(url, "https://"@) && !has_prefix(url, "//"@)
            ==> normalized_url(url) == Some("https://"@ + url),
{
}

} // verus!
