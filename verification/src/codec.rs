//! The wire vocabulary: the messages a client may send, and how a text frame
//! is read as one.
//!
//! A frame is one JSON object. Its `type` member picks the message kind; the
//! other members are the fields of that kind, each a JSON string. Members that
//! a kind does not name are ignored.
use crate::json::{member_at, object_member, parse_object, parsed_members, Member, MemberView};
use crate::text::text_eq;
use vstd::prelude::*;

verus! {

/// A message of the signaling protocol.
#[derive(Debug, PartialEq, Eq)]
pub enum SignalMessage {
    /// Enter `room` as `user`, optionally naming the client's session.
    Join { room: String, user: String, session_id: Option<String> },
    /// Leave `room` as `user`.
    Leave { room: String, user: String, session_id: Option<String> },
    /// A session offer for the peer `to`.
    Offer { to: String, from: String, sdp: String },
    /// The answer to an offer, for the peer `to`.
    Answer { to: String, from: String, sdp: String },
    /// A network candidate for the peer `to`.
    Ice { to: String, from: String, candidate: String },
    /// Tells a room member to start the handshake with `target_user`. Only
    /// the server sends it.
    TriggerOffer { target_user: String, room: String },
    /// Asks for a `pong`.
    Ping,
}

/// The mathematical value of a `SignalMessage`.
pub enum SignalMessageView {
    Join { room: Seq<char>, user: Seq<char>, session_id: Option<Seq<char>> },
    Leave { room: Seq<char>, user: Seq<char>, session_id: Option<Seq<char>> },
    Offer { to: Seq<char>, from: Seq<char>, sdp: Seq<char> },
    Answer { to: Seq<char>, from: Seq<char>, sdp: Seq<char> },
    Ice { to: Seq<char>, from: Seq<char>, candidate: Seq<char> },
    TriggerOffer { target_user: Seq<char>, room: Seq<char> },
    Ping,
}

/// The characters of an optional name.
pub open spec fn opt_text(s: Option<String>) -> Option<Seq<char>> {
    match s {
        Some(t) => Some(t@),
        None => None,
    }
}

impl View for SignalMessage {
    type V = SignalMessageView;

    open spec fn view(&self) -> SignalMessageView {
        match self {
            SignalMessage::Join { room, user, session_id } => SignalMessageView::Join {
                room: room@,
                user: user@,
                session_id: opt_text(*session_id),
            },
            SignalMessage::Leave { room, user, session_id } => SignalMessageView::Leave {
                room: room@,
                user: user@,
                session_id: opt_text(*session_id),
            },
            SignalMessage::Offer { to, from, sdp } => SignalMessageView::Offer {
                to: to@,
                from: from@,
                sdp: sdp@,
            },
            SignalMessage::Answer { to, from, sdp } => SignalMessageView::Answer {
                to: to@,
                from: from@,
                sdp: sdp@,
            },
            SignalMessage::Ice { to, from, candidate } => SignalMessageView::Ice {
                to: to@,
                from: from@,
                candidate: candidate@,
            },
            SignalMessage::TriggerOffer { target_user, room } => SignalMessageView::TriggerOffer {
                target_user: target_user@,
                room: room@,
            },
            SignalMessage::Ping => SignalMessageView::Ping,
        }
    }
}

/// Why a frame is not a message. None of these closes the connection.
#[derive(Debug, Clone, Copy, PartialEq, Eq, Structural)]
pub enum DecodeError {
    /// The text is not one JSON object.
    Malformed,
    /// The object has no `type` member.
    MissingTag,
    /// The `type` member is not a string.
    InvalidTag,
    /// The `type` member names no message kind.
    UnknownTag,
    /// A field that the message kind requires is absent.
    MissingField,
    /// A field is there, but not as a string.
    InvalidField,
}

/// The members of a frame that some message kind reads, taken out of the
/// JSON object by name.
pub struct RawMessage {
    /// The member `type`.
    pub kind: Member,
    pub room: Member,
    pub user: Member,
    pub session_id: Member,
    pub to: Member,
    pub from: Member,
    pub sdp: Member,
    pub candidate: Member,
    pub target_user: Member,
}

/// The mathematical value of a `RawMessage`.
pub struct RawMessageView {
    pub kind: MemberView,
    pub room: MemberView,
    pub user: MemberView,
    pub session_id: MemberView,
    pub to: MemberView,
    pub from: MemberView,
    pub sdp: MemberView,
    pub candidate: MemberView,
    pub target_user: MemberView,
}

impl View for RawMessage {
    type V = RawMessageView;

    open spec fn view(&self) -> RawMessageView {
        RawMessageView {
            kind: self.kind@,
            room: self.room@,
            user: self.user@,
            session_id: self.session_id@,
            to: self.to@,
            from: self.from@,
            sdp: self.sdp@,
            candidate: self.candidate@,
            target_user: self.target_user@,
        }
    }
}

/// The members of a JSON object that the protocol reads.
pub open spec fn raw_of(members: Map<Seq<char>, MemberView>) -> RawMessageView {
    RawMessageView {
        kind: member_at(members, "type"@),
        room: member_at(members, "room"@),
        user: member_at(members, "user"@),
        session_id: member_at(members, "session_id"@),
        to: member_at(members, "to"@),
        from: member_at(members, "from"@),
        sdp: member_at(members, "sdp"@),
        candidate: member_at(members, "candidate"@),
        target_user: member_at(members, "target_user"@),
    }
}

/// A field that must be a string.
pub open spec fn required(m: MemberView) -> Result<Seq<char>, DecodeError> {
    match m {
        MemberView::Text(s) => Ok(s),
        MemberView::Absent => Err(DecodeError::MissingField),
        _ => Err(DecodeError::InvalidField),
    }
}

/// A field that may be left out or be `null`, and is a string otherwise.
pub open spec fn optional(m: MemberView) -> Result<Option<Seq<char>>, DecodeError> {
    match m {
        MemberView::Text(s) => Ok(Some(s)),
        MemberView::Absent => Ok(None),
        MemberView::Null => Ok(None),
        MemberView::Other => Err(DecodeError::InvalidField),
    }
}

/// The message with two required fields and one optional field, or the error
/// of the first field that is not as it must be.
pub open spec fn with_session(
    room: MemberView,
    user: MemberView,
    session_id: MemberView,
    join: bool,
) -> Result<SignalMessageView, DecodeError> {
    match (required(room), required(user), optional(session_id)) {
        (Err(e), _, _) => Err(e),
        (Ok(_), Err(e), _) => Err(e),
        (Ok(_), Ok(_), Err(e)) => Err(e),
        (Ok(r), Ok(u), Ok(s)) => if join {
            Ok(SignalMessageView::Join { room: r, user: u, session_id: s })
        } else {
            Ok(SignalMessageView::Leave { room: r, user: u, session_id: s })
        },
    }
}

/// The three required fields of a relayed message, or the error of the first
/// that is not as it must be.
pub open spec fn relayed(to: MemberView, from: MemberView, payload: MemberView) -> Result<
    (Seq<char>, Seq<char>, Seq<char>),
    DecodeError,
> {
    match (required(to), required(from), required(payload)) {
        (Err(e), _, _) => Err(e),
        (Ok(_), Err(e), _) => Err(e),
        (Ok(_), Ok(_), Err(e)) => Err(e),
        (Ok(t), Ok(f), Ok(p)) => Ok((t, f, p)),
    }
}

/// The message that the members of a frame stand for. The tag decides the
/// kind; the fields of that kind are then checked in the order in which the
/// kind declares them, and the first that fails gives the error.
pub open spec fn interpret(raw: RawMessageView) -> Result<SignalMessageView, DecodeError> {
    match raw.kind {
        MemberView::Absent => Err(DecodeError::MissingTag),
        MemberView::Null => Err(DecodeError::InvalidTag),
        MemberView::Other => Err(DecodeError::InvalidTag),
        MemberView::Text(tag) => {
            if tag == "Join"@ {
                with_session(raw.room, raw.user, raw.session_id, true)
            } else if tag == "Leave"@ {
                with_session(raw.room, raw.user, raw.session_id, false)
            } else if tag == "Offer"@ {
                match relayed(raw.to, raw.from, raw.sdp) {
                    Ok((to, from, sdp)) => Ok(SignalMessageView::Offer { to, from, sdp }),
                    Err(e) => Err(e),
                }
            } else if tag == "Answer"@ {
                match relayed(raw.to, raw.from, raw.sdp) {
                    Ok((to, from, sdp)) => Ok(SignalMessageView::Answer { to, from, sdp }),
                    Err(e) => Err(e),
                }
            } else if tag == "Ice"@ {
                match relayed(raw.to, raw.from, raw.candidate) {
                    Ok((to, from, candidate)) => Ok(
                        SignalMessageView::Ice { to, from, candidate },
                    ),
                    Err(e) => Err(e),
                }
            } else if tag == "TriggerOffer"@ {
                match (required(raw.target_user), required(raw.room)) {
                    (Err(e), _) => Err(e),
                    (Ok(_), Err(e)) => Err(e),
                    (Ok(target_user), Ok(room)) => Ok(
                        SignalMessageView::TriggerOffer { target_user, room },
                    ),
                }
            } else if tag == "Ping"@ {
                Ok(SignalMessageView::Ping)
            } else {
                Err(DecodeError::UnknownTag)
            }
        },
    }
}

/// What a text frame decodes to.
pub open spec fn spec_decode(text: Seq<char>) -> Result<SignalMessageView, DecodeError> {
    match parsed_members(text) {
        None => Err(DecodeError::Malformed),
        Some(members) => interpret(raw_of(members)),
    }
}

/// A decoding result agrees with its mathematical value.
pub open spec fn decoded_as(
    r: Result<SignalMessage, DecodeError>,
    v: Result<SignalMessageView, DecodeError>,
) -> bool {
    match (r, v) {
        (Ok(m), Ok(mv)) => m@ == mv,
        (Err(e), Err(ev)) => e == ev,
        _ => false,
    }
}

fn take_required(m: Member) -> (r: Result<String, DecodeError>)
    ensures
        match (r, required(m@)) {
            (Ok(s), Ok(sv)) => s@ == sv,
            (Err(e), Err(ev)) => e == ev,
            _ => false,
        },
{
    match m {
        Member::Text(s) => Ok(s),
        Member::Absent => Err(DecodeError::MissingField),
        _ => Err(DecodeError::InvalidField),
    }
}

fn take_optional(m: Member) -> (r: Result<Option<String>, DecodeError>)
    ensures
        match (r, optional(m@)) {
            (Ok(s), Ok(sv)) => opt_text(s) == sv,
            (Err(e), Err(ev)) => e == ev,
            _ => false,
        },
{
    match m {
        Member::Text(s) => Ok(Some(s)),
        Member::Absent => Ok(None),
        Member::Null => Ok(None),
        Member::Other => Err(DecodeError::InvalidField),
    }
}

fn take_relayed(to: Member, from: Member, payload: Member) -> (r: Result<
    (String, String, String),
    DecodeError,
>)
    ensures
        match (r, relayed(to@, from@, payload@)) {
            (Ok(s), Ok(sv)) => s.0@ == sv.0 && s.1@ == sv.1 && s.2@ == sv.2,
            (Err(e), Err(ev)) => e == ev,
            _ => false,
        },
{
    let t = match take_required(to) {
        Ok(t) => t,
        Err(e) => { return Err(e); },
    };
    let f = match take_required(from) {
        Ok(f) => f,
        Err(e) => { return Err(e); },
    };
    let p = match take_required(payload) {
        Ok(p) => p,
        Err(e) => { return Err(e); },
    };
    Ok((t, f, p))
}

fn take_with_session(room: Member, user: Member, session_id: Member, join: bool) -> (r: Result<
    SignalMessage,
    DecodeError,
>)
    ensures
        decoded_as(r, with_session(room@, user@, session_id@, join)),
{
    let r = match take_required(room) {
        Ok(r) => r,
        Err(e) => { return Err(e); },
    };
    let u = match take_required(user) {
        Ok(u) => u,
        Err(e) => { return Err(e); },
    };
    let s = match take_optional(session_id) {
        Ok(s) => s,
        Err(e) => { return Err(e); },
    };
    if join {
        Ok(SignalMessage::Join { room: r, user: u, session_id: s })
    } else {
        Ok(SignalMessage::Leave { room: r, user: u, session_id: s })
    }
}

impl SignalMessage {
    /// Reads the members of a frame as a message.
    pub fn from_raw(raw: RawMessage) -> (r: Result<SignalMessage, DecodeError>)
        ensures
            decoded_as(r, interpret(raw@)),
    {
        let tag = match raw.kind {
            Member::Absent => { return Err(DecodeError::MissingTag); },
            Member::Null => { return Err(DecodeError::InvalidTag); },
            Member::Other => { return Err(DecodeError::InvalidTag); },
            Member::Text(tag) => tag,
        };
        let tag = tag.as_str();
        if text_eq(tag, "Join") {
            take_with_session(raw.room, raw.user, raw.session_id, true)
        } else if text_eq(tag, "Leave") {
            take_with_session(raw.room, raw.user, raw.session_id, false)
        } else if text_eq(tag, "Offer") {
            match take_relayed(raw.to, raw.from, raw.sdp) {
                Ok((to, from, sdp)) => Ok(SignalMessage::Offer { to, from, sdp }),
                Err(e) => Err(e),
            }
        } else if text_eq(tag, "Answer") {
            match take_relayed(raw.to, raw.from, raw.sdp) {
                Ok((to, from, sdp)) => Ok(SignalMessage::Answer { to, from, sdp }),
                Err(e) => Err(e),
            }
        } else if text_eq(tag, "Ice") {
            match take_relayed(raw.to, raw.from, raw.candidate) {
                Ok((to, from, candidate)) => Ok(SignalMessage::Ice { to, from, candidate }),
                Err(e) => Err(e),
            }
        } else if text_eq(tag, "TriggerOffer") {
            let target_user = match take_required(raw.target_user) {
                Ok(t) => t,
                Err(e) => { return Err(e); },
            };
            let room = match take_required(raw.room) {
                Ok(r) => r,
                Err(e) => { return Err(e); },
            };
            Ok(SignalMessage::TriggerOffer { target_user, room })
        } else if text_eq(tag, "Ping") {
            Ok(SignalMessage::Ping)
        } else {
            Err(DecodeError::UnknownTag)
        }
    }

    /// Decodes one text frame. The text must be one JSON object; what its
    /// members then mean is decided by `from_raw`.
    pub fn decode(text: &str) -> (r: Result<SignalMessage, DecodeError>)
        ensures
            decoded_as(r, spec_decode(text@)),
    {
        match parse_object(text) {
            None => Err(DecodeError::Malformed),
            Some(object) => {
                let raw = RawMessage {
                    kind: object_member(&object, "type"),
                    room: object_member(&object, "room"),
                    user: object_member(&object, "user"),
                    session_id: object_member(&object, "session_id"),
                    to: object_member(&object, "to"),
                    from: object_member(&object, "from"),
                    sdp: object_member(&object, "sdp"),
                    candidate: object_member(&object, "candidate"),
                    target_user: object_member(&object, "target_user"),
                };
                SignalMessage::from_raw(raw)
            },
        }
    }
}

} // verus!
