//! Who may talk to the bot, and how an unknown direct-message sender is offered pairing.
use vstd::prelude::*;
use crate::config::QQBotConfig;
use crate::envelope::InboundEnvelope;
use crate::routing::{route_for_scene, scene_route, IncomingScene, RouteKind, SendTarget};
use crate::signing::opt_text;
use crate::text::{clone_opt, concat2, eq_ignore_ascii_case, eq_ignore_ascii_case_spec, str_eq};

verus! {

broadcast use vstd::string::group_string_axioms;

/// The text of an optional string slice.
pub open spec fn opt_str_text(o: Option<&str>) -> Option<Seq<char>> {
    match o {
        Some(s) => Some(s@),
        None => None,
    }
}

/// An allow-list entry admits a sender: it is `*`, or equals the sender's id or name up
/// to ASCII case.
pub open spec fn entry_admits(entry: Seq<char>, sender_id: Seq<char>, sender_name: Option<Seq<char>>) -> bool {
    ||| entry == "*"@
    ||| eq_ignore_ascii_case_spec(entry, sender_id)
    ||| (sender_name matches Some(n) && eq_ignore_ascii_case_spec(entry, n))
}

/// Some entry of the allow list admits the sender (an empty list admits nobody).
pub open spec fn allow_list_admits(allow_from: Seq<String>, sender_id: Seq<char>, sender_name: Option<Seq<char>>) -> bool {
    exists|i: int| 0 <= i < allow_from.len() && #[trigger] entry_admits(allow_from[i]@, sender_id, sender_name)
}

pub fn matches_allow_from(allow_from: &[String], sender_id: &str, sender_name: Option<&str>) -> (res: bool)
    ensures
        res == allow_list_admits(allow_from@, sender_id@, opt_str_text(sender_name)),
{
    if allow_from.len() == 0 {
        return false;
    }
    let n = allow_from.len();
    for i in 0..n
        invariant
            n == allow_from@.len(),
            forall|j: int| 0 <= j < i ==> !#[trigger] entry_admits(allow_from@[j]@, sender_id@, opt_str_text(sender_name)),
    {
        let entry = allow_from[i].as_str();
        let by_name = match sender_name {
            Some(name) => eq_ignore_ascii_case(entry, name),
            None => false,
        };
        if str_eq(entry, "*") || eq_ignore_ascii_case(entry, sender_id) || by_name {
            assert(entry_admits(allow_from@[i as int]@, sender_id@, opt_str_text(sender_name)));
            return true;
        }
    }
    false
}

/// A direct-message policy equal to `text`.
pub open spec fn policy_is(config: QQBotConfig, text: Seq<char>) -> bool {
    config.dm_policy matches Some(p) && p@ == text
}

/// Whether a message's sender may talk to the bot. An owner, when configured, is the only
/// one admitted (by id, or by exact name). Otherwise the allow list admits; failing that,
/// direct messages need the `open` policy, and group or guild messages are admitted only
/// while the allow list is empty.
pub open spec fn sender_admitted(config: QQBotConfig, e: InboundEnvelope) -> bool {
    match config.owner_id {
        Some(o) => e.sender_id@ == o@ || opt_text(e.sender_name) == Some(o@),
        None => {
            ||| allow_list_admits(config.allow_from@, e.sender_id@, opt_text(e.sender_name))
            ||| match e.scene {
                IncomingScene::C2c | IncomingScene::DirectMessage => policy_is(config, "open"@),
                IncomingScene::Group | IncomingScene::Guild => config.allow_from@.len() == 0,
            }
        },
    }
}

fn opt_as_str(o: &Option<String>) -> (r: Option<&str>)
    ensures
        opt_str_text(r) == opt_text(*o),
{
    match o {
        Some(s) => Some(s.as_str()),
        None => None,
    }
}

fn policy_equals(config: &QQBotConfig, text: &str) -> (res: bool)
    ensures
        res == policy_is(*config, text@),
{
    match &config.dm_policy {
        Some(p) => str_eq(p.as_str(), text),
        None => false,
    }
}

pub fn sender_allowed(config: &QQBotConfig, envelope: &InboundEnvelope) -> (res: bool)
    ensures
        res == sender_admitted(*config, *envelope),
{
    if let Some(owner_id) = &config.owner_id {
        let by_name = match &envelope.sender_name {
            Some(n) => str_eq(n.as_str(), owner_id.as_str()),
            None => false,
        };
        return str_eq(envelope.sender_id.as_str(), owner_id.as_str()) || by_name;
    }
    if matches_allow_from(
        config.allow_from.as_slice(),
        envelope.sender_id.as_str(),
        opt_as_str(&envelope.sender_name),
    ) {
        return true;
    }
    match envelope.scene {
        IncomingScene::C2c | IncomingScene::DirectMessage => policy_equals(config, "open"),
        IncomingScene::Group | IncomingScene::Guild => config.allow_from.len() == 0,
    }
}

/// With no owner, an allow list holding `*` admits every sender.
pub proof fn lemma_wildcard_admits_everyone(config: QQBotConfig, e: InboundEnvelope, i: int)
    requires
        config.owner_id is None,
        0 <= i < config.allow_from@.len(),
        config.allow_from@[i]@ == "*"@,
    ensures
        sender_admitted(config, e),
{
    assert(entry_admits(config.allow_from@[i]@, e.sender_id@, opt_text(e.sender_name)));
}

/// With an owner configured, the owner is admitted whatever the allow list and the
/// direct-message policy say, and nobody else is.
pub proof fn lemma_owner_only(config: QQBotConfig, e: InboundEnvelope)
    requires
        config.owner_id is Some,
    ensures
        sender_admitted(config, e) <==> (e.sender_id@ == config.owner_id->0@ || opt_text(
            e.sender_name,
        ) == Some(config.owner_id->0@)),
{
}

/// With no owner and an empty allow list, group and guild messages are admitted, and
/// direct messages exactly under the `open` policy.
pub proof fn lemma_open_defaults(config: QQBotConfig, e: InboundEnvelope)
    requires
        config.owner_id is None,
        config.allow_from@.len() == 0,
    ensures
        (e.scene == IncomingScene::Group || e.scene == IncomingScene::Guild) ==> sender_admitted(config, e),
        (e.scene == IncomingScene::C2c || e.scene == IncomingScene::DirectMessage) ==> (sender_admitted(config, e) <==> policy_is(config, "open"@)),
{
}

// ---------------------------------------------------------------- pairing

/// What a pairing request records about the sender.
pub struct PairingMeta {
    pub sender_id: String,
    pub sender_name: Option<String>,
    pub scene: String,
}

/// A request to the host to start pairing a sender with this channel.
pub struct PairingRequest {
    pub channel: String,
    pub sender_id: String,
    pub meta: PairingMeta,
}

/// The label of a scene in a pairing request.
pub open spec fn pairing_scene_label(scene: IncomingScene) -> Seq<char> {
    match scene {
        IncomingScene::C2c => "c2c"@,
        IncomingScene::DirectMessage => "direct_message"@,
        _ => "other"@,
    }
}

/// `r` is the pairing request for a refused sender: there is one only for direct messages
/// under the `pairing` policy, and it names this channel and the sender.
pub open spec fn is_pairing_request(config: QQBotConfig, e: InboundEnvelope, r: Option<PairingRequest>) -> bool {
    &&& r is Some <==> ((e.scene == IncomingScene::C2c || e.scene == IncomingScene::DirectMessage)
        && policy_is(config, "pairing"@))
    &&& r matches Some(p) ==> {
        &&& p.channel@ == "qqbot"@
        &&& p.sender_id@ == e.sender_id@
        &&& p.meta.sender_id@ == e.sender_id@
        &&& p.meta.sender_name == e.sender_name
        &&& p.meta.scene@ == pairing_scene_label(e.scene)
    }
}

/// A refused sender is offered pairing only in direct messages, and only under the
/// `pairing` policy; the request names this channel and the sender.
pub fn pairing_request(config: &QQBotConfig, envelope: &InboundEnvelope) -> (res: Option<PairingRequest>)
    ensures
        is_pairing_request(*config, *envelope, res),
{
    match envelope.scene {
        IncomingScene::C2c | IncomingScene::DirectMessage => {},
        _ => {
            return None;
        },
    }
    if !policy_equals(config, "pairing") {
        return None;
    }
    let scene = match envelope.scene {
        IncomingScene::C2c => String::from_str("c2c"),
        IncomingScene::DirectMessage => String::from_str("direct_message"),
        _ => String::from_str("other"),
    };
    Some(
        PairingRequest {
            channel: String::from_str("qqbot"),
            sender_id: envelope.sender_id.clone(),
            meta: PairingMeta {
                sender_id: envelope.sender_id.clone(),
                sender_name: clone_opt(&envelope.sender_name),
                scene,
            },
        },
    )
}

/// A text to send to a destination.
pub struct OutgoingText {
    pub target: SendTarget,
    pub content: String,
}

/// The instructions that a newly created pairing code is sent back with.
pub open spec fn pairing_instructions(code: Seq<char>) -> Seq<char> {
    "To pair with this bot, run: ironclaw pairing approve qqbot "@ + code
}

/// `res` is what a refused sender is sent after a pairing request: instructions only when
/// the request is new, to the conversation the message came from.
pub open spec fn is_pairing_reply(envelope: InboundEnvelope, created: bool, code: Seq<char>, res: Option<OutgoingText>) -> bool {
    &&& res is Some <==> created
    &&& res matches Some(t) ==> {
        &&& t.target.route == scene_route(envelope.scene)
        &&& t.target.id@ == envelope.target_id@
        &&& t.content@ == pairing_instructions(code)
    }
}

/// When the host created a new pairing request, the sender is told how to approve it,
/// in the conversation the message came from; nothing is sent otherwise.
pub fn pairing_reply(envelope: &InboundEnvelope, created: bool, code: &str) -> (res: Option<OutgoingText>)
    ensures
        is_pairing_reply(*envelope, created, code@, res),
{
    if !created {
        return None;
    }
    Some(
        OutgoingText {
            target: SendTarget { route: route_for_scene(envelope.scene), id: envelope.target_id.clone() },
            content: concat2("To pair with this bot, run: ironclaw pairing approve qqbot ", code),
        },
    )
}

/// With no owner, a non-empty allow list guards groups and guilds: a group or guild
/// message whose sender no entry names (not `*`, not the sender's id or name up to ASCII
/// case) is refused.
pub proof fn lemma_allow_list_guards_groups(config: QQBotConfig, e: InboundEnvelope)
    requires
        config.owner_id is None,
        config.allow_from@.len() > 0,
        forall|i: int|
            0 <= i < config.allow_from@.len() ==> {
                let entry = #[trigger] config.allow_from@[i]@;
                &&& entry != "*"@
                &&& !eq_ignore_ascii_case_spec(entry, e.sender_id@)
                &&& (e.sender_name matches Some(n) ==> !eq_ignore_ascii_case_spec(entry, n@))
            },
        e.scene == IncomingScene::Group || e.scene == IncomingScene::Guild,
    ensures
        !sender_admitted(config, e),
{
    assert forall|i: int| 0 <= i < config.allow_from@.len() implies !#[trigger] entry_admits(
        config.allow_from@[i]@,
        e.sender_id@,
        opt_text(e.sender_name),
    ) by {
        let entry = config.allow_from@[i]@;
        assert(entry != "*"@);
    }
}

/// With no owner, an allow-list entry equal to the sender's id, or to its name, up to
/// ASCII case admits the sender, whatever the scene and policy.
pub proof fn lemma_allow_entry_admits(config: QQBotConfig, e: InboundEnvelope, i: int)
    requires
        config.owner_id is None,
        0 <= i < config.allow_from@.len(),
        eq_ignore_ascii_case_spec(config.allow_from@[i]@, e.sender_id@) || (e.sender_name matches Some(
            n) && eq_ignore_ascii_case_spec(config.allow_from@[i]@, n@)),
    ensures
        sender_admitted(config, e),
{
    assert(entry_admits(config.allow_from@[i]@, e.sender_id@, opt_text(e.sender_name)));
}

/// With no owner and no allow-list entry admitting the sender, a one-to-one or direct
/// message is admitted exactly under the `open` policy.
pub proof fn lemma_direct_messages_need_open_policy(config: QQBotConfig, e: InboundEnvelope)
    requires
        config.owner_id is None,
        forall|i: int|
            0 <= i < config.allow_from@.len() ==> !#[trigger] entry_admits(
                config.allow_from@[i]@,
                e.sender_id@,
                opt_text(e.sender_name),
            ),
        e.scene == IncomingScene::C2c || e.scene == IncomingScene::DirectMessage,
    ensures
        sender_admitted(config, e) <==> (config.dm_policy matches Some(p) && p@ == "open"@),
{
}

/// Pairing is offered to one-to-one and direct-message senders exactly under the `pairing`
/// policy, never in groups or guilds; the request is for the channel `qqbot` and the sender,
/// and labels the scene `c2c` or `direct_message`.
pub proof fn lemma_pairing_offer(config: QQBotConfig, e: InboundEnvelope, r: Option<PairingRequest>)
    requires
        is_pairing_request(config, e, r),
    ensures
        (e.scene == IncomingScene::Group || e.scene == IncomingScene::Guild) ==> r is None,
        (e.scene == IncomingScene::C2c || e.scene == IncomingScene::DirectMessage) ==> (r is Some
            <==> (config.dm_policy matches Some(p) && p@ == "pairing"@)),
        r matches Some(q) ==> {
            &&& q.channel@ == "qqbot"@
            &&& q.sender_id@ == e.sender_id@
            &&& q.meta.sender_id@ == e.sender_id@
            &&& q.meta.sender_name == e.sender_name
            &&& (e.scene == IncomingScene::C2c ==> q.meta.scene@ == "c2c"@)
            &&& (e.scene == IncomingScene::DirectMessage ==> q.meta.scene@ == "direct_message"@)
        },
{
}

/// A new pairing code is sent back, in the conversation the message came from, as
/// "To pair with this bot, run: ironclaw pairing approve qqbot CODE"; an existing request
/// sends nothing.
pub proof fn lemma_pairing_instructions(e: InboundEnvelope, created: bool, code: Seq<char>, res: Option<OutgoingText>)
    requires
        is_pairing_reply(e, created, code, res),
    ensures
        !created ==> res is None,
        created ==> (res matches Some(t) && t.content@ == "To pair with this bot, run: ironclaw pairing approve qqbot "@ + code
            && t.target.id@ == e.target_id@ && (e.scene == IncomingScene::C2c ==> t.target.route
            == RouteKind::C2c) && (e.scene == IncomingScene::DirectMessage ==> t.target.route
            == RouteKind::DirectMessage)),
{
}

} // verus!
