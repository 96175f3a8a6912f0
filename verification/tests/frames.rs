use spkmeeting::codec::{DecodeError, RawMessage, SignalMessage};
use spkmeeting::delivery::Action;
use spkmeeting::json::Member;
use spkmeeting::state::AppState;
use spkmeeting::ws::{Finding, Frame, WsConn};

fn fr_text(s: &str) -> Member {
    Member::Text(s.to_string())
}

fn fr_raw(kind: Member) -> RawMessage {
    RawMessage {
        kind,
        room: Member::Absent,
        user: Member::Absent,
        session_id: Member::Absent,
        to: Member::Absent,
        from: Member::Absent,
        sdp: Member::Absent,
        candidate: Member::Absent,
        target_user: Member::Absent,
    }
}

#[test]
fn decode_join_with_session() {
    let msg = SignalMessage::decode(r#"{"type":"Join","room":"r1","user":"A","session_id":"s1"}"#);
    assert_eq!(
        msg,
        Ok(SignalMessage::Join {
            room: "r1".to_string(),
            user: "A".to_string(),
            session_id: Some("s1".to_string()),
        })
    );
}

#[test]
fn decode_join_without_session() {
    let expected = Ok(SignalMessage::Join {
        room: "r1".to_string(),
        user: "A".to_string(),
        session_id: None,
    });
    assert_eq!(SignalMessage::decode(r#"{"type":"Join","room":"r1","user":"A"}"#), expected);
    assert_eq!(
        SignalMessage::decode(r#"{"type":"Join","room":"r1","user":"A","session_id":null}"#),
        expected
    );
}

#[test]
fn decode_leave() {
    assert_eq!(
        SignalMessage::decode(r#"{"user":"B","room":"r2","type":"Leave","session_id":"t"}"#),
        Ok(SignalMessage::Leave {
            room: "r2".to_string(),
            user: "B".to_string(),
            session_id: Some("t".to_string()),
        })
    );
}

#[test]
fn decode_offer_answer_and_candidate() {
    assert_eq!(
        SignalMessage::decode(r#"{"type":"Offer","to":"B","from":"A","sdp":"X"}"#),
        Ok(SignalMessage::Offer {
            to: "B".to_string(),
            from: "A".to_string(),
            sdp: "X".to_string()
        })
    );
    assert_eq!(
        SignalMessage::decode(r#"{"type":"Answer","to":"A","from":"B","sdp":"Y"}"#),
        Ok(SignalMessage::Answer {
            to: "A".to_string(),
            from: "B".to_string(),
            sdp: "Y".to_string()
        })
    );
    assert_eq!(
        SignalMessage::decode(r#"{"type":"Ice","to":"B","from":"A","candidate":"c"}"#),
        Ok(SignalMessage::Ice {
            to: "B".to_string(),
            from: "A".to_string(),
            candidate: "c".to_string()
        })
    );
}

#[test]
fn decode_trigger_offer_and_ping() {
    assert_eq!(
        SignalMessage::decode(r#"{"type":"TriggerOffer","target_user":"B","room":"r1"}"#),
        Ok(SignalMessage::TriggerOffer { target_user: "B".to_string(), room: "r1".to_string() })
    );
    assert_eq!(SignalMessage::decode(r#"{"type":"Ping"}"#), Ok(SignalMessage::Ping));
    assert_eq!(SignalMessage::decode(r#"{"type":"Ping","extra":[1,2]}"#), Ok(SignalMessage::Ping));
}

#[test]
fn decode_resolves_escapes_and_ignores_unknown_members() {
    assert_eq!(
        SignalMessage::decode(r#"{"type":"Offer","to":"B","from":"A","sdp":"a\"b\né","x":1}"#),
        Ok(SignalMessage::Offer {
            to: "B".to_string(),
            from: "A".to_string(),
            sdp: "a\"b\n\u{e9}".to_string()
        })
    );
}

#[test]
fn decode_rejects_text_that_is_no_object() {
    assert_eq!(SignalMessage::decode(""), Err(DecodeError::Malformed));
    assert_eq!(SignalMessage::decode("not json"), Err(DecodeError::Malformed));
    assert_eq!(SignalMessage::decode(r#"{"type":"Ping""#), Err(DecodeError::Malformed));
    assert_eq!(SignalMessage::decode(r#"["Ping"]"#), Err(DecodeError::Malformed));
    assert_eq!(SignalMessage::decode(r#""Ping""#), Err(DecodeError::Malformed));
    assert_eq!(SignalMessage::decode("42"), Err(DecodeError::Malformed));
}

#[test]
fn decode_rejects_missing_invalid_and_unknown_tags() {
    assert_eq!(SignalMessage::decode(r#"{"room":"r1","user":"A"}"#), Err(DecodeError::MissingTag));
    assert_eq!(SignalMessage::decode(r#"{"type":7}"#), Err(DecodeError::InvalidTag));
    assert_eq!(SignalMessage::decode(r#"{"type":null}"#), Err(DecodeError::InvalidTag));
    assert_eq!(SignalMessage::decode(r#"{"type":"Shout"}"#), Err(DecodeError::UnknownTag));
    assert_eq!(SignalMessage::decode(r#"{"type":"join"}"#), Err(DecodeError::UnknownTag));
}

#[test]
fn decode_rejects_missing_and_invalid_fields() {
    assert_eq!(
        SignalMessage::decode(r#"{"type":"Join","room":"r1"}"#),
        Err(DecodeError::MissingField)
    );
    assert_eq!(
        SignalMessage::decode(r#"{"type":"Join","room":5,"user":"A"}"#),
        Err(DecodeError::InvalidField)
    );
    assert_eq!(
        SignalMessage::decode(r#"{"type":"Join","room":"r1","user":"A","session_id":3}"#),
        Err(DecodeError::InvalidField)
    );
    assert_eq!(
        SignalMessage::decode(r#"{"type":"Offer","to":"B","from":"A"}"#),
        Err(DecodeError::MissingField)
    );
    assert_eq!(
        SignalMessage::decode(r#"{"type":"Ice","to":"B","from":"A","candidate":null}"#),
        Err(DecodeError::InvalidField)
    );
    assert_eq!(
        SignalMessage::decode(r#"{"type":"TriggerOffer","room":"r1"}"#),
        Err(DecodeError::MissingField)
    );
}

#[test]
fn from_raw_reports_the_first_field_that_fails() {
    let mut raw = fr_raw(fr_text("Join"));
    raw.room = Member::Other;
    assert_eq!(SignalMessage::from_raw(raw), Err(DecodeError::InvalidField));
    let mut raw = fr_raw(fr_text("Join"));
    raw.room = fr_text("r");
    raw.user = Member::Null;
    assert_eq!(SignalMessage::from_raw(raw), Err(DecodeError::InvalidField));
    let mut raw = fr_raw(fr_text("Join"));
    raw.user = Member::Other;
    assert_eq!(SignalMessage::from_raw(raw), Err(DecodeError::MissingField));
    let mut raw = fr_raw(fr_text("Join"));
    raw.room = fr_text("r");
    raw.session_id = Member::Other;
    assert_eq!(SignalMessage::from_raw(raw), Err(DecodeError::MissingField));
    let mut raw = fr_raw(fr_text("Leave"));
    raw.room = fr_text("r");
    raw.user = fr_text("u");
    raw.session_id = Member::Null;
    assert_eq!(
        SignalMessage::from_raw(raw),
        Ok(SignalMessage::Leave { room: "r".to_string(), user: "u".to_string(), session_id: None })
    );
    assert_eq!(SignalMessage::from_raw(fr_raw(Member::Absent)), Err(DecodeError::MissingTag));
    assert_eq!(SignalMessage::from_raw(fr_raw(Member::Other)), Err(DecodeError::InvalidTag));
    assert_eq!(SignalMessage::from_raw(fr_raw(fr_text("Pong"))), Err(DecodeError::UnknownTag));
    assert_eq!(SignalMessage::from_raw(fr_raw(fr_text("Ping"))), Ok(SignalMessage::Ping));
}

#[test]
fn encode_then_decode_gives_the_message_back() {
    let messages = vec![
        SignalMessage::Join {
            room: "r \"1\"".to_string(),
            user: "A\\".to_string(),
            session_id: Some("s".to_string()),
        },
        SignalMessage::Join { room: "r".to_string(), user: "A".to_string(), session_id: None },
        SignalMessage::Leave { room: "r".to_string(), user: "A".to_string(), session_id: None },
        SignalMessage::Offer {
            to: "B".to_string(),
            from: "A".to_string(),
            sdp: "v=0\r\n".to_string(),
        },
        SignalMessage::Answer { to: "A".to_string(), from: "B".to_string(), sdp: "".to_string() },
        SignalMessage::Ice { to: "B".to_string(), from: "A".to_string(), candidate: "c".to_string() },
        SignalMessage::TriggerOffer { target_user: "B".to_string(), room: "r".to_string() },
        SignalMessage::Ping,
    ];
    for msg in messages {
        let text = msg.encode();
        assert_eq!(SignalMessage::decode(&text), Ok(msg));
    }
}

#[test]
fn encode_writes_members_sorted_by_name() {
    let msg = SignalMessage::Join {
        room: "r1".to_string(),
        user: "A".to_string(),
        session_id: None,
    };
    assert_eq!(msg.encode(), r#"{"room":"r1","session_id":null,"type":"Join","user":"A"}"#);
    assert_eq!(SignalMessage::Ping.encode(), r#"{"type":"Ping"}"#);
}

#[test]
fn malformed_text_frame_is_dropped_and_the_connection_stays() {
    let mut state = AppState::new();
    let mut a = WsConn::new(1);
    let r = a.handle(&mut state, Frame::Text("{".to_string()));
    assert_eq!(r.finding, Finding::Malformed(DecodeError::Malformed));
    assert!(r.actions.is_empty());
    let r = a.handle(&mut state, Frame::Text(r#"{"type":"Nope"}"#.to_string()));
    assert_eq!(r.finding, Finding::Malformed(DecodeError::UnknownTag));
    assert!(r.actions.is_empty());
    assert!(!a.closed);
    assert_eq!(state.get_stats(), (0, 0));
}

#[test]
fn transport_frames_are_answered_or_dropped() {
    let mut state = AppState::new();
    let mut a = WsConn::new(1);
    let r = a.handle(&mut state, Frame::Ping);
    assert_eq!(r.actions, vec![Action::Pong]);
    assert_eq!(r.finding, Finding::Clean);
    let r = a.handle(&mut state, Frame::Pong);
    assert!(r.actions.is_empty());
    assert_eq!(r.finding, Finding::Clean);
    let r = a.handle(&mut state, Frame::Binary);
    assert!(r.actions.is_empty());
    assert_eq!(r.finding, Finding::BinaryFrame);
    let r = a.handle(&mut state, Frame::Other);
    assert!(r.actions.is_empty());
    assert_eq!(r.finding, Finding::UnhandledFrame);
    let r = a.handle(&mut state, Frame::Close);
    assert_eq!(r.actions, vec![Action::Stop]);
    assert_eq!(r.finding, Finding::Clean);
    assert!(!a.closed);
}

#[test]
fn text_frame_with_a_join_is_handled_as_the_message() {
    let mut state = AppState::new();
    let mut a = WsConn::new(7);
    let r = a.handle(
        &mut state,
        Frame::Text(r#"{"type":"Join","room":"lobby","user":"ann","session_id":"s-1"}"#.to_string()),
    );
    assert_eq!(r.finding, Finding::Clean);
    assert_eq!(r.actions.len(), 1);
    assert_eq!(a.id, Some("ann".to_string()));
    assert_eq!(a.session_id, Some("s-1".to_string()));
    assert_eq!(state.peer("ann"), Some(7));
    assert_eq!(state.room_members("lobby"), Some(vec!["ann".to_string()]));
}

#[test]
fn closed_connection_ignores_every_event() {
    let mut state = AppState::new();
    let mut a = WsConn::new(1);
    a.stopped(&mut state);
    let r = a.handle(&mut state, Frame::Text(r#"{"type":"Join","room":"r","user":"A"}"#.to_string()));
    assert_eq!(r.finding, Finding::Closed);
    assert!(r.actions.is_empty());
    let r = a.handle_signal(&mut state, SignalMessage::Ping);
    assert_eq!(r.finding, Finding::Closed);
    assert!(r.actions.is_empty());
    let r = a.finish_join(&mut state, "r", "A", &Vec::new());
    assert_eq!(r.finding, Finding::Closed);
    assert!(r.actions.is_empty());
    assert_eq!(state.get_stats(), (0, 0));
    assert_eq!(a.id, None);
}
