//! Where messages come from and where replies go.
use vstd::prelude::*;
use crate::text::{has_prefix, strip_prefix};

verus! {

broadcast use vstd::string::group_string_axioms;

/// The kind of conversation a reply is sent to.
#[derive(Debug, Clone, Copy, PartialEq, Eq, Structural)]
pub enum RouteKind {
    C2c,
    Group,
    Guild,
    DirectMessage,
}

/// The kind of conversation an incoming message came from.
#[derive(Debug, Clone, Copy, PartialEq, Eq, Structural)]
pub enum IncomingScene {
    C2c,
    Group,
    Guild,
    DirectMessage,
}

/// The route on which replies to a scene go back.
pub open spec fn scene_route(scene: IncomingScene) -> RouteKind {
    match scene {
        IncomingScene::C2c => RouteKind::C2c,
        IncomingScene::Group => RouteKind::Group,
        IncomingScene::Guild => RouteKind::Guild,
        IncomingScene::DirectMessage => RouteKind::DirectMessage,
    }
}

pub fn route_for_scene(scene: IncomingScene) -> (r: RouteKind)
    ensures
        r == scene_route(scene),
{
    match scene {
        IncomingScene::C2c => RouteKind::C2c,
        IncomingScene::Group => RouteKind::Group,
        IncomingScene::Guild => RouteKind::Guild,
        IncomingScene::DirectMessage => RouteKind::DirectMessage,
    }
}

/// Different scenes reply on different routes.
pub proof fn lemma_scene_route_injective(a: IncomingScene, b: IncomingScene)
    ensures
        scene_route(a) == scene_route(b) ==> a == b,
{
}

/// A destination for an outgoing message.
pub struct SendTarget {
    pub route: RouteKind,
    pub id: String,
}

/// Route and id named by a user id of the form `group:ID`, `channel:ID`, `dm:ID`, `c2c:ID`,
/// or a bare user openid (a one-to-one chat).
pub open spec fn send_target_of(user_id: Seq<char>) -> (RouteKind, Seq<char>) {
    if has_prefix(user_id, "group:"@) {
        (RouteKind::Group, user_id.skip("group:"@.len() as int))
    } else if has_prefix(user_id, "channel:"@) {
        (RouteKind::Guild, user_id.skip("channel:"@.len() as int))
    } else if has_prefix(user_id, "dm:"@) {
        (RouteKind::DirectMessage, user_id.skip("dm:"@.len() as int))
    } else if has_prefix(user_id, "c2c:"@) {
        (RouteKind::C2c, user_id.skip("c2c:"@.len() as int))
    } else {
        (RouteKind::C2c, user_id)
    }
}

/// Reads the destination that a broadcast user id names.
pub fn parse_send_target(user_id: &str) -> (t: SendTarget)
    ensures
        (t.route, t.id@) == send_target_of(user_id@),
{
    if let Some(rest) = strip_prefix(user_id, "group:") {
        return SendTarget { route: RouteKind::Group, id: rest };
    }
    if let Some(rest) = strip_prefix(user_id, "channel:") {
        return SendTarget { route: RouteKind::Guild, id: rest };
    }
    if let Some(rest) = strip_prefix(user_id, "dm:") {
        return SendTarget { route: RouteKind::DirectMessage, id: rest };
    }
    if let Some(rest) = strip_prefix(user_id, "c2c:") {
        return SendTarget { route: RouteKind::C2c, id: rest };
    }
    SendTarget { route: RouteKind::C2c, id: String::from_str(user_id) }
}

/// Prefixing an id with `group:` addresses that group.
pub proof fn lemma_group_prefix_round_trip(id: Seq<char>)
    ensures
        send_target_of("group:"@ + id) == (RouteKind::Group, id),
{
    let s = "group:"@ + id;
    assert(s.take("group:"@.len() as int) == "group:"@);
    assert(s.skip("group:"@.len() as int) == id);
}

/// A user id with none of the prefixes `group:`, `channel:`, `dm:` or `c2c:` names the
/// one-to-one chat with exactly that id.
pub proof fn lemma_bare_id_is_c2c(user_id: Seq<char>)
    requires
        !has_prefix(user_id, "group:"@),
        !has_prefix(user_id, "channel:"@),
        !has_prefix(user_id, "dm:"@),
        !has_prefix(user_id, "c2c:"@),
    ensures
        send_target_of(user_id).0 == RouteKind::C2c,
        send_target_of(user_id).1 == user_id,
{
}

/// Replies go back on the route of the scene they answer: one-to-one chats to users,
/// groups to groups, guild channels to channels, direct messages to direct messages.
pub proof fn lemma_scene_route_mapping()
    ensures
        scene_route(IncomingScene::C2c) == RouteKind::C2c,
        scene_route(IncomingScene::Group) == RouteKind::Group,
        scene_route(IncomingScene::Guild) == RouteKind::Guild,
        scene_route(IncomingScene::DirectMessage) == RouteKind::DirectMessage,
{
}

proof fn lemma_prefix_concat(p: Seq<char>, id: Seq<char>)
    ensures
        has_prefix(p + id, p),
        (p + id).skip(p.len() as int) == id,
{
    assert((p + id).take(p.len() as int) == p);
    assert((p + id).skip(p.len() as int) == id);
}

/// `channel:ID` names guild channel ID, `dm:ID` direct-message session ID, and `c2c:ID`
/// the one-to-one chat with ID.
pub proof fn lemma_prefixed_targets(id: Seq<char>)
    ensures
        send_target_of("channel:"@ + id) == (RouteKind::Guild, id),
        send_target_of("dm:"@ + id) == (RouteKind::DirectMessage, id),
        send_target_of("c2c:"@ + id) == (RouteKind::C2c, id),
{
    reveal_strlit("group:");
    reveal_strlit("channel:");
    reveal_strlit("dm:");
    reveal_strlit("c2c:");
    lemma_prefix_concat("channel:"@, id);
    lemma_prefix_concat("dm:"@, id);
    lemma_prefix_concat("c2c:"@, id);
    let a = "channel:"@ + id;
    let b = "dm:"@ + id;
    let c = "c2c:"@ + id;
    assert(a[0] == 'c' && a[1] == 'h');
    assert(b[0] == 'd');
    assert(c[0] == 'c' && c[1] == '2');
    assert(!has_prefix(a, "group:"@)) by {
        if has_prefix(a, "group:"@) {
            assert(a.take(6)[0] == 'g');
        }
    }
    assert(!has_prefix(b, "group:"@)) by {
        if has_prefix(b, "group:"@) {
            assert(b.take(6)[0] == 'g');
        }
    }
    assert(!has_prefix(b, "channel:"@)) by {
        if has_prefix(b, "channel:"@) {
            assert(b.take(8)[0] == 'c');
        }
    }
    assert(!has_prefix(c, "group:"@)) by {
        if has_prefix(c, "group:"@) {
            assert(c.take(6)[0] == 'g');
        }
    }
    assert(!has_prefix(c, "channel:"@)) by {
        if has_prefix(c, "channel:"@) {
            assert(c.take(8)[1] == 'h');
        }
    }
    assert(!has_prefix(c, "dm:"@)) by {
        if has_prefix(c, "dm:"@) {
            assert(c.take(3)[0] == 'd');
        }
    }
}

} // verus!
