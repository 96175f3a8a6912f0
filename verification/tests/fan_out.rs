use spkmeeting::codec::SignalMessage;
use spkmeeting::delivery::Action;
use spkmeeting::notice::{
    answer_relay, ice_relay, join_notice, leave_notice, offer_relay, ping_probe, pong_reply,
    session_conflict_notice, trigger_offer_notice, user_disconnected_notice,
};
use spkmeeting::reconcile::Probe;
use spkmeeting::state::AppState;
use spkmeeting::ws::{Finding, WsConn};

fn fo_join(room: &str, user: &str, session: Option<&str>) -> SignalMessage {
    SignalMessage::Join {
        room: room.to_string(),
        user: user.to_string(),
        session_id: session.map(|s| s.to_string()),
    }
}

fn fo_leave(room: &str, user: &str, session: Option<&str>) -> SignalMessage {
    SignalMessage::Leave {
        room: room.to_string(),
        user: user.to_string(),
        session_id: session.map(|s| s.to_string()),
    }
}

fn fo_room(users: &[&str]) -> (AppState, Vec<WsConn>) {
    let mut state = AppState::new();
    let mut conns = Vec::new();
    for (i, user) in users.iter().enumerate() {
        let mut conn = WsConn::new(i as u64 + 1);
        conn.handle_signal(&mut state, fo_join("r", user, None));
        conns.push(conn);
    }
    (state, conns)
}

fn fo_sends(actions: &[Action]) -> Vec<(u64, String)> {
    actions
        .iter()
        .map(|a| match a {
            Action::Send { to, text } => (*to, text.clone()),
            other => panic!("not a send: {:?}", other),
        })
        .collect()
}

#[test]
fn notices_are_written_as_json_objects() {
    assert_eq!(join_notice("A", "r1"), r#"{"room":"r1","type":"join","user":"A"}"#);
    assert_eq!(leave_notice("A", "r1"), r#"{"room":"r1","type":"leave","user":"A"}"#);
    assert_eq!(
        trigger_offer_notice("B", "r1"),
        r#"{"action":"send_offer","new_user":"B","room":"r1","type":"trigger_offer"}"#
    );
    assert_eq!(
        session_conflict_notice("A", "r1"),
        r#"{"message":"New connection detected, disconnecting old session","room":"r1","type":"session_conflict","user":"A"}"#
    );
    assert_eq!(
        user_disconnected_notice("A", "r1"),
        r#"{"reason":"Connection problem, removed from room","room":"r1","type":"user_disconnected","user":"A"}"#
    );
    assert_eq!(offer_relay("A", "X"), r#"{"from":"A","sdp":"X","type":"Offer"}"#);
    assert_eq!(answer_relay("B", "Y"), r#"{"from":"B","sdp":"Y","type":"Answer"}"#);
    assert_eq!(ice_relay("A", "c"), r#"{"candidate":"c","from":"A","type":"ice"}"#);
    assert_eq!(pong_reply(), r#"{"type":"pong"}"#);
    assert_eq!(ping_probe(), r#"{"type":"ping"}"#);
}

#[test]
fn notices_escape_what_json_must_escape() {
    assert_eq!(
        join_notice("a\"b", "r\\1\n"),
        r#"{"room":"r\\1\n","type":"join","user":"a\"b"}"#
    );
}

#[test]
fn join_of_the_fourth_member_sends_three_pairs() {
    let (mut state, _conns) = fo_room(&["a", "b", "c"]);
    let mut d = WsConn::new(4);
    let r = d.handle_signal(&mut state, fo_join("r", "d", None));
    assert_eq!(r.finding, Finding::Clean);
    assert_eq!(r.actions.len(), 2 * 3 + 1);
    assert_eq!(r.actions[0], Action::Reply { text: join_notice("d", "r") });
    let sends = fo_sends(&r.actions[1..]);
    let mut targets = Vec::new();
    for pair in sends.chunks(2) {
        assert_eq!(pair[0].0, pair[1].0);
        assert_eq!(pair[0].1, join_notice("d", "r"));
        assert_eq!(pair[1].1, trigger_offer_notice("d", "r"));
        targets.push(pair[0].0);
    }
    targets.sort();
    assert_eq!(targets, vec![1, 2, 3]);
}

#[test]
fn join_passes_over_a_member_without_a_handle() {
    let (mut state, _conns) = fo_room(&["a", "b"]);
    state.join_room("r", "ghost");
    let mut c = WsConn::new(3);
    let r = c.handle_signal(&mut state, fo_join("r", "c", None));
    assert_eq!(r.actions.len(), 2 * 2 + 1);
    let mut targets: Vec<u64> = fo_sends(&r.actions[1..]).into_iter().map(|s| s.0).collect();
    targets.sort();
    assert_eq!(targets, vec![1, 1, 2, 2]);
    assert_eq!(state.room_members("r").unwrap().len(), 4);
}

#[test]
fn leave_from_a_room_of_four_sends_three_notices() {
    let (mut state, mut conns) = fo_room(&["a", "b", "c", "d"]);
    let r = conns[1].handle_signal(&mut state, fo_leave("r", "b", None));
    assert_eq!(r.finding, Finding::Clean);
    assert!(r.reconcile.is_none());
    let mut sends = fo_sends(&r.actions);
    sends.sort();
    assert_eq!(
        sends,
        vec![
            (1, leave_notice("b", "r")),
            (3, leave_notice("b", "r")),
            (4, leave_notice("b", "r")),
        ]
    );
    assert_eq!(state.peer("b"), None);
    assert!(!state.is_member("r", "b"));
    assert_eq!(state.get_stats(), (1, 3));
    // The connection stays bound until it is torn down.
    assert_eq!(conns[1].id, Some("b".to_string()));
}

#[test]
fn leave_with_another_session_is_carried_out_all_the_same() {
    let mut state = AppState::new();
    let mut a = WsConn::new(1);
    let mut b = WsConn::new(2);
    a.handle_signal(&mut state, fo_join("r", "a", Some("s-a")));
    b.handle_signal(&mut state, fo_join("r", "b", Some("s-b")));
    let r = b.handle_signal(&mut state, fo_leave("r", "b", Some("other")));
    assert_eq!(r.finding, Finding::SessionMismatch);
    assert_eq!(fo_sends(&r.actions), vec![(1, leave_notice("b", "r"))]);
    assert!(!state.is_member("r", "b"));
    let r = a.handle_signal(&mut state, fo_leave("r", "a", Some("s-a")));
    assert_eq!(r.finding, Finding::Clean);
    let mut c = WsConn::new(3);
    c.handle_signal(&mut state, fo_join("r", "c", None));
    let r = c.handle_signal(&mut state, fo_leave("r", "c", Some("whatever")));
    assert_eq!(r.finding, Finding::Clean);
    assert_eq!(state.get_stats(), (0, 0));
}

#[test]
fn answer_and_candidate_are_relayed_verbatim() {
    let (mut state, mut conns) = fo_room(&["a", "b"]);
    let r = conns[1].handle_signal(
        &mut state,
        SignalMessage::Answer { to: "a".to_string(), from: "b".to_string(), sdp: "Y".to_string() },
    );
    assert_eq!(r.actions, vec![Action::Send { to: 1, text: answer_relay("b", "Y") }]);
    let r = conns[0].handle_signal(
        &mut state,
        SignalMessage::Ice {
            to: "b".to_string(),
            from: "a".to_string(),
            candidate: "cand".to_string(),
        },
    );
    assert_eq!(r.actions, vec![Action::Send { to: 2, text: ice_relay("a", "cand") }]);
    let r = conns[0].handle_signal(
        &mut state,
        SignalMessage::Ice { to: "z".to_string(), from: "a".to_string(), candidate: "c".to_string() },
    );
    assert_eq!(r.finding, Finding::UnreachableTarget);
    assert!(r.actions.is_empty());
}

#[test]
fn teardown_twice_is_teardown_once() {
    let (mut state, mut conns) = fo_room(&["a", "b", "c"]);
    state.join_room("other", "a");
    state.join_room("other", "c");
    let first = conns[0].stopped(&mut state);
    let mut sends = fo_sends(&first);
    sends.sort();
    assert_eq!(
        sends,
        vec![
            (2, leave_notice("a", "r")),
            (3, leave_notice("a", "other")),
            (3, leave_notice("a", "r")),
        ]
    );
    let stats = state.get_stats();
    let mut details = state.get_room_details();
    details.sort();
    let second = conns[0].stopped(&mut state);
    assert!(second.is_empty());
    assert_eq!(state.get_stats(), stats);
    let mut again = state.get_room_details();
    again.sort();
    assert_eq!(
        again.iter().map(|d| &d.0).collect::<Vec<_>>(),
        details.iter().map(|d| &d.0).collect::<Vec<_>>()
    );
    assert!(conns[0].closed);
    assert!(!state.is_member("r", "a"));
    assert!(!state.is_member("other", "a"));
}

#[test]
fn teardown_of_an_anonymous_connection_changes_nothing() {
    let (mut state, _conns) = fo_room(&["a"]);
    let mut anon = WsConn::new(9);
    assert!(anon.stopped(&mut state).is_empty());
    assert!(anon.closed);
    assert_eq!(state.get_stats(), (1, 1));
}

#[test]
fn teardown_removes_the_user_from_every_room() {
    let mut state = AppState::new();
    let mut a = WsConn::new(1);
    a.handle_signal(&mut state, fo_join("r1", "a", None));
    state.join_room("r2", "a");
    state.join_room("r3", "a");
    state.join_room("r3", "b");
    let actions = a.stopped(&mut state);
    assert!(actions.is_empty());
    assert_eq!(state.room_members("r1"), None);
    assert_eq!(state.room_members("r2"), None);
    assert_eq!(state.room_members("r3"), Some(vec!["b".to_string()]));
    assert_eq!(state.get_stats(), (1, 0));
}

#[test]
fn probes_go_to_the_other_members_that_have_a_handle() {
    let (mut state, _conns) = fo_room(&["a", "b", "c"]);
    state.join_room("r", "ghost");
    let mut probes = state.probe_targets("r", "a");
    probes.sort_by(|x, y| x.user.cmp(&y.user));
    assert_eq!(
        probes,
        vec![
            Probe { user: "b".to_string(), to: 2, text: ping_probe() },
            Probe { user: "c".to_string(), to: 3, text: ping_probe() },
        ]
    );
    assert!(state.probe_targets("elsewhere", "a").is_empty());
}

#[test]
fn sweep_evicts_broken_members_and_tells_the_live_ones() {
    let (mut state, _conns) = fo_room(&["a", "b", "c", "d"]);
    state.join_room("r", "ghost");
    let failed = vec!["c".to_string()];
    let sweep = state.cleanup_problematic_connections_in_room("r", "a", &failed);
    let mut evicted = sweep.evicted.clone();
    evicted.sort();
    assert_eq!(evicted, vec!["c".to_string(), "ghost".to_string()]);
    let mut sends = fo_sends(&sweep.actions);
    sends.sort();
    assert_eq!(
        sends,
        vec![
            (2, user_disconnected_notice("c", "r")),
            (2, user_disconnected_notice("ghost", "r")),
            (4, user_disconnected_notice("c", "r")),
            (4, user_disconnected_notice("ghost", "r")),
        ]
    );
    let mut members = state.room_members("r").unwrap();
    members.sort();
    assert_eq!(members, vec!["a".to_string(), "b".to_string(), "d".to_string()]);
    assert_eq!(state.peer("c"), None);
    assert_eq!(state.peer("b"), Some(2));
    assert_eq!(state.get_stats(), (1, 3));
}

#[test]
fn sweep_of_a_healthy_room_changes_nothing() {
    let (mut state, _conns) = fo_room(&["a", "b"]);
    let sweep = state.cleanup_problematic_connections_in_room("r", "a", &Vec::new());
    assert!(sweep.evicted.is_empty());
    assert!(sweep.actions.is_empty());
    assert_eq!(state.get_stats(), (1, 2));
    let sweep = state.cleanup_problematic_connections_in_room("none", "a", &vec!["b".to_string()]);
    assert!(sweep.evicted.is_empty());
    assert_eq!(state.get_stats(), (1, 2));
}

#[test]
fn sweep_that_evicts_everybody_removes_the_room() {
    let (mut state, _conns) = fo_room(&["b", "c"]);
    let failed = vec!["b".to_string(), "c".to_string()];
    let sweep = state.cleanup_problematic_connections_in_room("r", "a", &failed);
    assert_eq!(sweep.evicted.len(), 2);
    assert!(sweep.actions.is_empty());
    assert_eq!(state.room_members("r"), None);
    assert_eq!(state.get_stats(), (0, 0));
}

#[test]
fn reconciled_join_evicts_then_admits() {
    let (mut state, _conns) = fo_room(&["a", "b", "c"]);
    let mut again = WsConn::new(10);
    let r = again.handle_signal(&mut state, fo_join("r", "a", Some("s2")));
    assert_eq!(r.finding, Finding::SessionConflict);
    assert_eq!(r.actions, vec![Action::Send { to: 1, text: session_conflict_notice("a", "r") }]);
    let pending = r.reconcile.unwrap();
    assert_eq!(again.id, Some("a".to_string()));
    assert_eq!(again.session_id, Some("s2".to_string()));
    let probes = state.probe_targets(&pending.room, &pending.user);
    assert_eq!(probes.len(), 2);
    let failed = vec!["b".to_string()];
    let r = again.finish_join(&mut state, &pending.room, &pending.user, &failed);
    assert_eq!(r.finding, Finding::BrokenPeers);
    assert!(r.reconcile.is_none());
    assert_eq!(
        r.actions,
        vec![
            Action::Send { to: 3, text: user_disconnected_notice("b", "r") },
            Action::Reply { text: join_notice("a", "r") },
            Action::Send { to: 3, text: join_notice("a", "r") },
            Action::Send { to: 3, text: trigger_offer_notice("a", "r") },
        ]
    );
    assert_eq!(state.peer("a"), Some(10));
    assert_eq!(state.peer("b"), None);
    let mut members = state.room_members("r").unwrap();
    members.sort();
    assert_eq!(members, vec!["a".to_string(), "c".to_string()]);
}

#[test]
fn join_with_a_handle_but_no_membership_is_a_conflict() {
    let mut state = AppState::new();
    let mut a = WsConn::new(1);
    a.handle_signal(&mut state, fo_join("r1", "a", None));
    let r = a.handle_signal(&mut state, fo_join("r2", "a", None));
    assert_eq!(r.finding, Finding::SessionConflict);
    // The notice goes to the handle that was registered, here the joiner's own.
    assert_eq!(r.actions, vec![Action::Send { to: 1, text: session_conflict_notice("a", "r2") }]);
    assert!(state.has_prior_session("r1", "a"));
    assert!(!state.has_prior_session("r2", "a"));
    let r = a.finish_join(&mut state, "r2", "a", &Vec::new());
    assert_eq!(r.finding, Finding::Clean);
    assert_eq!(r.actions, vec![Action::Reply { text: join_notice("a", "r2") }]);
    assert!(state.is_member("r1", "a"));
    assert!(state.is_member("r2", "a"));
    assert_eq!(state.peer("a"), Some(1));
}

#[test]
fn welcome_registers_over_any_other_handle() {
    let mut state = AppState::new();
    state.register_peer("a", 1);
    let conn = WsConn::new(2);
    let actions = conn.welcome(&mut state, "r", "a");
    assert_eq!(actions, vec![Action::Reply { text: join_notice("a", "r") }]);
    assert_eq!(state.peer("a"), Some(2));
    assert_eq!(state.get_stats(), (1, 1));
}
