use spkmeeting::codec::SignalMessage;
use spkmeeting::delivery::Action;
use spkmeeting::state::AppState;
use spkmeeting::ws::{Finding, Frame, WsConn};

fn sc_join(room: &str, user: &str) -> SignalMessage {
    SignalMessage::Join { room: room.to_string(), user: user.to_string(), session_id: None }
}

fn sc_same_json(actual: &str, expected: &str) -> bool {
    let a: serde_json::Value = serde_json::from_str(actual).unwrap();
    let b: serde_json::Value = serde_json::from_str(expected).unwrap();
    a == b
}

fn sc_reply_text(action: &Action) -> &str {
    match action {
        Action::Reply { text } => text,
        other => panic!("not a reply: {:?}", other),
    }
}

fn sc_send(action: &Action) -> (u64, &str) {
    match action {
        Action::Send { to, text } => (*to, text),
        other => panic!("not a send: {:?}", other),
    }
}

fn sc_room_of_a_and_b() -> (AppState, WsConn, WsConn) {
    let mut state = AppState::new();
    let mut a = WsConn::new(1);
    let mut b = WsConn::new(2);
    a.handle_signal(&mut state, sc_join("r1", "A"));
    b.handle_signal(&mut state, sc_join("r1", "B"));
    (state, a, b)
}

#[test]
fn first_join_confirms_and_sends_no_fan_out() {
    let mut state = AppState::new();
    let mut a = WsConn::new(1);
    let r = a.handle_signal(&mut state, sc_join("r1", "A"));
    assert_eq!(r.finding, Finding::Clean);
    assert!(r.reconcile.is_none());
    assert_eq!(r.actions.len(), 1);
    let text = sc_reply_text(&r.actions[0]);
    assert!(sc_same_json(text, r#"{"type":"join","user":"A","room":"r1"}"#));
    assert_eq!(state.room_members("r1"), Some(vec!["A".to_string()]));
    assert_eq!(state.get_stats(), (1, 1));
    assert_eq!(state.peer("A"), Some(1));
    assert_eq!(a.id, Some("A".to_string()));
}

#[test]
fn second_join_confirms_and_tells_the_first_member() {
    let mut state = AppState::new();
    let mut a = WsConn::new(1);
    let mut b = WsConn::new(2);
    a.handle_signal(&mut state, sc_join("r1", "A"));
    let r = b.handle_signal(&mut state, sc_join("r1", "B"));
    assert_eq!(r.finding, Finding::Clean);
    assert!(r.reconcile.is_none());
    assert_eq!(r.actions.len(), 3);
    assert!(sc_same_json(
        sc_reply_text(&r.actions[0]),
        r#"{"type":"join","user":"B","room":"r1"}"#
    ));
    let (to, text) = sc_send(&r.actions[1]);
    assert_eq!(to, 1);
    assert!(sc_same_json(text, r#"{"type":"join","user":"B","room":"r1"}"#));
    let (to, text) = sc_send(&r.actions[2]);
    assert_eq!(to, 1);
    assert!(sc_same_json(
        text,
        r#"{"type":"trigger_offer","new_user":"B","room":"r1","action":"send_offer"}"#
    ));
    let mut members = state.room_members("r1").unwrap();
    members.sort();
    assert_eq!(members, vec!["A".to_string(), "B".to_string()]);
}

#[test]
fn offer_is_relayed_to_its_target() {
    let (mut state, mut a, _b) = sc_room_of_a_and_b();
    let r = a.handle_signal(
        &mut state,
        SignalMessage::Offer { to: "B".to_string(), from: "A".to_string(), sdp: "X".to_string() },
    );
    assert_eq!(r.finding, Finding::Clean);
    assert_eq!(r.actions.len(), 1);
    let (to, text) = sc_send(&r.actions[0]);
    assert_eq!(to, 2);
    assert!(sc_same_json(text, r#"{"type":"Offer","from":"A","sdp":"X"}"#));
}

#[test]
fn offer_to_a_disconnected_target_is_dropped_silently() {
    let (mut state, mut a, mut b) = sc_room_of_a_and_b();
    b.stopped(&mut state);
    let r = a.handle_signal(
        &mut state,
        SignalMessage::Offer { to: "B".to_string(), from: "A".to_string(), sdp: "X".to_string() },
    );
    assert_eq!(r.finding, Finding::UnreachableTarget);
    assert!(r.actions.is_empty());
    assert!(r.reconcile.is_none());
}

#[test]
fn abrupt_disconnect_tells_the_remaining_member() {
    let (mut state, mut a, _b) = sc_room_of_a_and_b();
    let actions = a.stopped(&mut state);
    assert_eq!(actions.len(), 1);
    let (to, text) = sc_send(&actions[0]);
    assert_eq!(to, 2);
    assert!(sc_same_json(text, r#"{"type":"leave","user":"A","room":"r1"}"#));
    assert_eq!(state.room_members("r1"), Some(vec!["B".to_string()]));
    assert_eq!(state.peer("A"), None);
    assert!(a.closed);
}

#[test]
fn last_leave_removes_the_room() {
    let (mut state, mut a, mut b) = sc_room_of_a_and_b();
    a.stopped(&mut state);
    let r = b.handle_signal(
        &mut state,
        SignalMessage::Leave { room: "r1".to_string(), user: "B".to_string(), session_id: None },
    );
    assert_eq!(r.finding, Finding::Clean);
    assert!(r.actions.is_empty());
    assert_eq!(state.room_members("r1"), None);
    assert_eq!(state.get_stats(), (0, 0));
    assert!(state.get_room_details().is_empty());
}

#[test]
fn rejoin_over_a_stale_session_evicts_it() {
    let mut state = AppState::new();
    let mut old = WsConn::new(1);
    old.handle_signal(&mut state, sc_join("r1", "A"));
    let mut new = WsConn::new(2);
    let r = new.handle_signal(&mut state, sc_join("r1", "A"));
    assert_eq!(r.finding, Finding::SessionConflict);
    let pending = r.reconcile.expect("the join must be reconciled");
    assert_eq!(pending.room, "r1");
    assert_eq!(pending.user, "A");
    assert_eq!(pending.pause_millis, 100);
    assert_eq!(r.actions.len(), 1);
    let (to, text) = sc_send(&r.actions[0]);
    assert_eq!(to, 1);
    assert!(sc_same_json(
        text,
        r#"{"type":"session_conflict","user":"A","room":"r1","message":"New connection detected, disconnecting old session"}"#
    ));
    // The stale entries are gone before the join is finished.
    assert_eq!(state.peer("A"), None);
    assert_eq!(state.room_members("r1"), None);
    assert!(state.probe_targets("r1", "A").is_empty());
    let r = new.finish_join(&mut state, &pending.room, &pending.user, &Vec::new());
    assert_eq!(r.finding, Finding::Clean);
    assert_eq!(r.actions.len(), 1);
    assert!(sc_same_json(
        sc_reply_text(&r.actions[0]),
        r#"{"type":"join","user":"A","room":"r1"}"#
    ));
    assert_eq!(state.peer("A"), Some(2));
    assert_eq!(state.room_members("r1"), Some(vec!["A".to_string()]));
    assert_eq!(state.get_stats(), (1, 1));
}

#[test]
fn ping_message_is_answered_with_pong() {
    let mut state = AppState::new();
    let mut a = WsConn::new(1);
    let r = a.handle(&mut state, Frame::Text(r#"{"type":"Ping"}"#.to_string()));
    assert_eq!(r.finding, Finding::Clean);
    assert_eq!(r.actions.len(), 1);
    assert_eq!(sc_reply_text(&r.actions[0]), r#"{"type":"pong"}"#);
    assert_eq!(state.get_stats(), (0, 0));
    assert_eq!(a.id, None);
}

#[test]
fn trigger_offer_from_a_client_is_dropped() {
    let (mut state, mut a, _b) = sc_room_of_a_and_b();
    let r = a.handle(
        &mut state,
        Frame::Text(r#"{"type":"TriggerOffer","target_user":"B","room":"r1"}"#.to_string()),
    );
    assert_eq!(r.finding, Finding::ProtocolMisuse);
    assert!(r.actions.is_empty());
    assert_eq!(state.get_stats(), (1, 2));
}
