//! The texts that the server sends: confirmations, room notices, relayed
//! handshake payloads and diagnostics. Each is one JSON object whose members
//! are strings.
use crate::codec::{SignalMessage, SignalMessageView};
use crate::json::{
    object_new, object_put_null, object_put_text, object_render, object_text, MemberView,
};
use vstd::prelude::*;

verus! {

/// What the superseded connection of a user is told.
pub const SESSION_CONFLICT_MESSAGE: &'static str =
    "New connection detected, disconnecting old session";

/// Why an unresponsive member was removed.
pub const DISCONNECT_REASON: &'static str = "Connection problem, removed from room";

/// The object with no member.
pub open spec fn no_members() -> Map<Seq<char>, MemberView> {
    Map::empty()
}

/// `members` with the string `value` under `name`.
pub open spec fn with_text(members: Map<Seq<char>, MemberView>, name: Seq<char>, value: Seq<char>)
    -> Map<Seq<char>, MemberView> {
    members.insert(name, MemberView::Text(value))
}

/// `members` with `value` under `name`, `null` where there is no value.
pub open spec fn with_opt_text(
    members: Map<Seq<char>, MemberView>,
    name: Seq<char>,
    value: Option<Seq<char>>,
) -> Map<Seq<char>, MemberView> {
    match value {
        Some(v) => members.insert(name, MemberView::Text(v)),
        None => members.insert(name, MemberView::Null),
    }
}

/// The text of the object `{"type": kind, "user": user, "room": room}`.
pub open spec fn spec_room_notice(kind: Seq<char>, user: Seq<char>, room: Seq<char>) -> Seq<char> {
    object_text(
        with_text(with_text(with_text(no_members(), "type"@, kind), "user"@, user), "room"@, room),
    )
}

/// `{"type":"join","user":user,"room":room}`: confirms a join to the joiner
/// and announces it to the members already there.
pub open spec fn spec_join_notice(user: Seq<char>, room: Seq<char>) -> Seq<char> {
    spec_room_notice("join"@, user, room)
}

/// `{"type":"leave","user":user,"room":room}`.
pub open spec fn spec_leave_notice(user: Seq<char>, room: Seq<char>) -> Seq<char> {
    spec_room_notice("leave"@, user, room)
}

/// `{"type":"trigger_offer","new_user":new_user,"room":room,"action":"send_offer"}`.
pub open spec fn spec_trigger_offer_notice(new_user: Seq<char>, room: Seq<char>) -> Seq<char> {
    object_text(
        with_text(
            with_text(
                with_text(with_text(no_members(), "type"@, "trigger_offer"@), "new_user"@, new_user),
                "room"@,
                room,
            ),
            "action"@,
            "send_offer"@,
        ),
    )
}

/// `{"type":"session_conflict","user":user,"room":room,"message":...}`.
pub open spec fn spec_session_conflict_notice(user: Seq<char>, room: Seq<char>) -> Seq<char> {
    object_text(
        with_text(
            with_text(
                with_text(with_text(no_members(), "type"@, "session_conflict"@), "user"@, user),
                "room"@,
                room,
            ),
            "message"@,
            SESSION_CONFLICT_MESSAGE@,
        ),
    )
}

/// `{"type":"user_disconnected","user":user,"room":room,"reason":...}`.
pub open spec fn spec_user_disconnected_notice(user: Seq<char>, room: Seq<char>) -> Seq<char> {
    object_text(
        with_text(
            with_text(
                with_text(with_text(no_members(), "type"@, "user_disconnected"@), "user"@, user),
                "room"@,
                room,
            ),
            "reason"@,
            DISCONNECT_REASON@,
        ),
    )
}

/// The text of the object `{"type": kind, "from": from, field: payload}`.
pub open spec fn spec_relay(kind: Seq<char>, from: Seq<char>, field: Seq<char>, payload: Seq<char>)
    -> Seq<char> {
    object_text(
        with_text(with_text(with_text(no_members(), "type"@, kind), "from"@, from), field, payload),
    )
}

/// `{"type":"Offer","from":from,"sdp":sdp}`.
pub open spec fn spec_offer_relay(from: Seq<char>, sdp: Seq<char>) -> Seq<char> {
    spec_relay("Offer"@, from, "sdp"@, sdp)
}

/// `{"type":"Answer","from":from,"sdp":sdp}`.
pub open spec fn spec_answer_relay(from: Seq<char>, sdp: Seq<char>) -> Seq<char> {
    spec_relay("Answer"@, from, "sdp"@, sdp)
}

/// `{"type":"ice","from":from,"candidate":candidate}`.
pub open spec fn spec_ice_relay(from: Seq<char>, candidate: Seq<char>) -> Seq<char> {
    spec_relay("ice"@, from, "candidate"@, candidate)
}

/// The text of the object `{"type": kind}`.
pub open spec fn spec_bare(kind: Seq<char>) -> Seq<char> {
    object_text(with_text(no_members(), "type"@, kind))
}

/// `{"type":"pong"}`.
pub open spec fn spec_pong() -> Seq<char> {
    spec_bare("pong"@)
}

/// `{"type":"ping"}`: the liveness probe.
pub open spec fn spec_ping() -> Seq<char> {
    spec_bare("ping"@)
}

/// The members of the object that a message is written as.
pub open spec fn message_members(msg: SignalMessageView) -> Map<Seq<char>, MemberView> {
    match msg {
        SignalMessageView::Join { room, user, session_id } => with_opt_text(
            with_text(with_text(with_text(no_members(), "type"@, "Join"@), "room"@, room), "user"@, user),
            "session_id"@,
            session_id,
        ),
        SignalMessageView::Leave { room, user, session_id } => with_opt_text(
            with_text(with_text(with_text(no_members(), "type"@, "Leave"@), "room"@, room), "user"@, user),
            "session_id"@,
            session_id,
        ),
        SignalMessageView::Offer { to, from, sdp } => with_text(
            with_text(with_text(with_text(no_members(), "type"@, "Offer"@), "to"@, to), "from"@, from),
            "sdp"@,
            sdp,
        ),
        SignalMessageView::Answer { to, from, sdp } => with_text(
            with_text(with_text(with_text(no_members(), "type"@, "Answer"@), "to"@, to), "from"@, from),
            "sdp"@,
            sdp,
        ),
        SignalMessageView::Ice { to, from, candidate } => with_text(
            with_text(with_text(with_text(no_members(), "type"@, "Ice"@), "to"@, to), "from"@, from),
            "candidate"@,
            candidate,
        ),
        SignalMessageView::TriggerOffer { target_user, room } => with_text(
            with_text(with_text(no_members(), "type"@, "TriggerOffer"@), "target_user"@, target_user),
            "room"@,
            room,
        ),
        SignalMessageView::Ping => with_text(no_members(), "type"@, "Ping"@),
    }
}

/// The text that a message is written as.
pub open spec fn spec_encode(msg: SignalMessageView) -> Seq<char> {
    object_text(message_members(msg))
}

fn room_notice(kind: &str, user: &str, room: &str) -> (r: String)
    ensures
        r@ == spec_room_notice(kind@, user@, room@),
{
    let mut m = object_new();
    object_put_text(&mut m, "type", kind);
    object_put_text(&mut m, "user", user);
    object_put_text(&mut m, "room", room);
    object_render(m)
}

fn relay(kind: &str, from: &str, field: &str, payload: &str) -> (r: String)
    ensures
        r@ == spec_relay(kind@, from@, field@, payload@),
{
    let mut m = object_new();
    object_put_text(&mut m, "type", kind);
    object_put_text(&mut m, "from", from);
    object_put_text(&mut m, field, payload);
    object_render(m)
}

fn bare(kind: &str) -> (r: String)
    ensures
        r@ == spec_bare(kind@),
{
    let mut m = object_new();
    object_put_text(&mut m, "type", kind);
    object_render(m)
}

/// The join confirmation, which is also the notice of a join.
pub fn join_notice(user: &str, room: &str) -> (r: String)
    ensures
        r@ == spec_join_notice(user@, room@),
{
    room_notice("join", user, room)
}

/// The notice that `user` has left `room`.
pub fn leave_notice(user: &str, room: &str) -> (r: String)
    ensures
        r@ == spec_leave_notice(user@, room@),
{
    room_notice("leave", user, room)
}

/// The instruction to start the handshake with the newcomer `new_user`.
pub fn trigger_offer_notice(new_user: &str, room: &str) -> (r: String)
    ensures
        r@ == spec_trigger_offer_notice(new_user@, room@),
{
    let mut m = object_new();
    object_put_text(&mut m, "type", "trigger_offer");
    object_put_text(&mut m, "new_user", new_user);
    object_put_text(&mut m, "room", room);
    object_put_text(&mut m, "action", "send_offer");
    object_render(m)
}

/// Tells a connection that a newer one has taken over its user id.
pub fn session_conflict_notice(user: &str, room: &str) -> (r: String)
    ensures
        r@ == spec_session_conflict_notice(user@, room@),
{
    let mut m = object_new();
    object_put_text(&mut m, "type", "session_conflict");
    object_put_text(&mut m, "user", user);
    object_put_text(&mut m, "room", room);
    object_put_text(&mut m, "message", SESSION_CONFLICT_MESSAGE);
    object_render(m)
}

/// Tells a room member that `user` was removed for not responding.
pub fn user_disconnected_notice(user: &str, room: &str) -> (r: String)
    ensures
        r@ == spec_user_disconnected_notice(user@, room@),
{
    let mut m = object_new();
    object_put_text(&mut m, "type", "user_disconnected");
    object_put_text(&mut m, "user", user);
    object_put_text(&mut m, "room", room);
    object_put_text(&mut m, "reason", DISCONNECT_REASON);
    object_render(m)
}

/// An offer as its target receives it.
pub fn offer_relay(from: &str, sdp: &str) -> (r: String)
    ensures
        r@ == spec_offer_relay(from@, sdp@),
{
    relay("Offer", from, "sdp", sdp)
}

/// An answer as its target receives it.
pub fn answer_relay(from: &str, sdp: &str) -> (r: String)
    ensures
        r@ == spec_answer_relay(from@, sdp@),
{
    relay("Answer", from, "sdp", sdp)
}

/// A network candidate as its target receives it.
pub fn ice_relay(from: &str, candidate: &str) -> (r: String)
    ensures
        r@ == spec_ice_relay(from@, candidate@),
{
    relay("ice", from, "candidate", candidate)
}

/// The reply to a `Ping` message.
pub fn pong_reply() -> (r: String)
    ensures
        r@ == spec_pong(),
{
    bare("pong")
}

/// The text sent to a member to see whether its connection still takes
/// messages.
pub fn ping_probe() -> (r: String)
    ensures
        r@ == spec_ping(),
{
    bare("ping")
}

fn put_opt_text(m: &mut serde_json::Map<String, serde_json::Value>, name: &str, value: &Option<String>)
    ensures
        crate::json::object_members(*final(m)) == with_opt_text(
            crate::json::object_members(*old(m)),
            name@,
            crate::codec::opt_text(*value),
        ),
{
    match value {
        Some(v) => object_put_text(m, name, v.as_str()),
        None => object_put_null(m, name),
    }
}

impl SignalMessage {
    /// Writes the message as a frame: one JSON object with the `type` member
    /// and the fields of the kind. It never fails.
    pub fn encode(&self) -> (r: String)
        ensures
            r@ == spec_encode(self@),
    {
        let mut m = object_new();
        match self {
            SignalMessage::Join { room, user, session_id } => {
                object_put_text(&mut m, "type", "Join");
                object_put_text(&mut m, "room", room.as_str());
                object_put_text(&mut m, "user", user.as_str());
                put_opt_text(&mut m, "session_id", session_id);
            },
            SignalMessage::Leave { room, user, session_id } => {
                object_put_text(&mut m, "type", "Leave");
                object_put_text(&mut m, "room", room.as_str());
                object_put_text(&mut m, "user", user.as_str());
                put_opt_text(&mut m, "session_id", session_id);
            },
            SignalMessage::Offer { to, from, sdp } => {
                object_put_text(&mut m, "type", "Offer");
                object_put_text(&mut m, "to", to.as_str());
                object_put_text(&mut m, "from", from.as_str());
                object_put_text(&mut m, "sdp", sdp.as_str());
            },
            SignalMessage::Answer { to, from, sdp } => {
                object_put_text(&mut m, "type", "Answer");
                object_put_text(&mut m, "to", to.as_str());
                object_put_text(&mut m, "from", from.as_str());
                object_put_text(&mut m, "sdp", sdp.as_str());
            },
            SignalMessage::Ice { to, from, candidate } => {
                object_put_text(&mut m, "type", "Ice");
                object_put_text(&mut m, "to", to.as_str());
                object_put_text(&mut m, "from", from.as_str());
                object_put_text(&mut m, "candidate", candidate.as_str());
            },
            SignalMessage::TriggerOffer { target_user, room } => {
                object_put_text(&mut m, "type", "TriggerOffer");
                object_put_text(&mut m, "target_user", target_user.as_str());
                object_put_text(&mut m, "room", room.as_str());
            },
            SignalMessage::Ping => {
                object_put_text(&mut m, "type", "Ping");
            },
        }
        object_render(m)
    }
}

} // verus!
