use spkmeeting::delivery::Action;
use spkmeeting::routes::{api_key_accepted, room_members};
use spkmeeting::state::AppState;

fn rg_sorted(mut list: Vec<String>) -> Vec<String> {
    list.sort();
    list
}

fn rg_names(list: &[&str]) -> Vec<String> {
    list.iter().map(|s| s.to_string()).collect()
}

#[test]
fn new_state_is_empty() {
    assert_eq!(AppState::default().get_stats(), (0, 0));
    let state = AppState::new();
    assert_eq!(state.get_stats(), (0, 0));
    assert!(state.get_room_details().is_empty());
    assert_eq!(state.room_members("r"), None);
    assert_eq!(state.peer("u"), None);
    assert!(!state.is_member("r", "u"));
    assert!(state.members_except("r", "u").is_empty());
}

#[test]
fn join_room_returns_the_count_after_insertion() {
    let mut state = AppState::new();
    assert_eq!(state.join_room("r", "a"), 1);
    assert_eq!(state.join_room("r", "b"), 2);
    assert_eq!(state.join_room("r", "c"), 3);
    assert_eq!(state.join_room("s", "a"), 1);
    assert_eq!(rg_sorted(state.room_members("r").unwrap()), rg_names(&["a", "b", "c"]));
    assert_eq!(state.get_stats(), (2, 0));
}

#[test]
fn joining_twice_keeps_one_membership() {
    let mut state = AppState::new();
    assert_eq!(state.join_room("r", "a"), 1);
    assert_eq!(state.join_room("r", "a"), 1);
    assert_eq!(state.join_room("r", "b"), 2);
    assert_eq!(state.join_room("r", "a"), 2);
    assert_eq!(rg_sorted(state.room_members("r").unwrap()), rg_names(&["a", "b"]));
    assert!(state.is_member("r", "a"));
}

#[test]
fn leave_room_prunes_the_empty_room() {
    let mut state = AppState::new();
    state.join_room("r", "a");
    state.join_room("r", "b");
    assert!(state.leave_room("r", "a"));
    assert_eq!(state.room_members("r"), Some(rg_names(&["b"])));
    assert!(!state.leave_room("r", "a"));
    assert_eq!(state.get_stats(), (1, 0));
    assert!(state.leave_room("r", "b"));
    assert_eq!(state.room_members("r"), None);
    assert_eq!(state.get_stats(), (0, 0));
    assert!(!state.leave_room("r", "b"));
    assert!(!state.leave_room("nowhere", "b"));
    assert_eq!(state.get_stats(), (0, 0));
}

#[test]
fn members_except_leaves_the_user_out() {
    let mut state = AppState::new();
    state.join_room("r", "a");
    state.join_room("r", "b");
    state.join_room("r", "c");
    assert_eq!(rg_sorted(state.members_except("r", "b")), rg_names(&["a", "c"]));
    assert_eq!(rg_sorted(state.members_except("r", "z")), rg_names(&["a", "b", "c"]));
    assert!(state.members_except("other", "a").is_empty());
}

#[test]
fn register_peer_replaces_and_returns_the_previous_handle() {
    let mut state = AppState::new();
    assert_eq!(state.register_peer("a", 1), None);
    assert_eq!(state.peer("a"), Some(1));
    assert_eq!(state.register_peer("a", 2), Some(1));
    assert_eq!(state.peer("a"), Some(2));
    assert_eq!(state.register_peer("b", 3), None);
    assert_eq!(state.get_stats(), (0, 2));
    assert_eq!(state.unregister_peer("a"), Some(2));
    assert_eq!(state.unregister_peer("a"), None);
    assert_eq!(state.peer("a"), None);
    assert_eq!(state.peer("b"), Some(3));
    assert_eq!(state.get_stats(), (0, 1));
}

#[test]
fn send_is_a_no_op_without_a_handle() {
    let mut state = AppState::new();
    assert_eq!(state.send("a", "hello".to_string()), None);
    state.register_peer("a", 9);
    assert_eq!(
        state.send("a", "hello".to_string()),
        Some(Action::Send { to: 9, text: "hello".to_string() })
    );
}

#[test]
fn notify_others_passes_over_members_without_a_handle() {
    let mut state = AppState::new();
    state.join_room("r", "a");
    state.join_room("r", "b");
    state.join_room("r", "c");
    state.register_peer("a", 1);
    state.register_peer("c", 3);
    let texts = vec!["one".to_string(), "two".to_string()];
    let actions = state.notify_others("r", "a", &texts);
    assert_eq!(
        actions,
        vec![
            Action::Send { to: 3, text: "one".to_string() },
            Action::Send { to: 3, text: "two".to_string() },
        ]
    );
    assert!(state.notify_others("r", "c", &Vec::new()).is_empty());
    assert!(state.notify_others("none", "c", &texts).is_empty());
}

#[test]
fn leave_all_rooms_reports_the_rooms_left() {
    let mut state = AppState::new();
    state.join_room("r1", "a");
    state.join_room("r1", "b");
    state.join_room("r2", "a");
    state.join_room("r3", "c");
    let left = rg_sorted(state.leave_all_rooms("a"));
    assert_eq!(left, rg_names(&["r1", "r2"]));
    assert_eq!(state.room_members("r1"), Some(rg_names(&["b"])));
    assert_eq!(state.room_members("r2"), None);
    assert_eq!(state.room_members("r3"), Some(rg_names(&["c"])));
    assert!(state.leave_all_rooms("a").is_empty());
    assert_eq!(state.get_stats(), (2, 0));
}

#[test]
fn room_details_list_every_room_with_its_members() {
    let mut state = AppState::new();
    state.join_room("r1", "a");
    state.join_room("r1", "b");
    state.join_room("r2", "c");
    let mut details: Vec<(String, Vec<String>)> = state
        .get_room_details()
        .into_iter()
        .map(|(room, members)| (room, rg_sorted(members)))
        .collect();
    details.sort();
    assert_eq!(
        details,
        vec![
            ("r1".to_string(), rg_names(&["a", "b"])),
            ("r2".to_string(), rg_names(&["c"])),
        ]
    );
}

#[test]
fn no_room_is_ever_listed_empty() {
    let mut state = AppState::new();
    let users = ["a", "b", "c"];
    let rooms = ["r1", "r2"];
    for round in 0..3 {
        for (i, user) in users.iter().enumerate() {
            state.join_room(rooms[(i + round) % 2], user);
            for (room, members) in state.get_room_details() {
                assert!(!members.is_empty(), "room {} is empty", room);
            }
        }
        for (i, user) in users.iter().enumerate() {
            state.leave_room(rooms[(i + round) % 2], user);
            for (room, members) in state.get_room_details() {
                assert!(!members.is_empty(), "room {} is empty", room);
                let mut unique = members.clone();
                unique.sort();
                unique.dedup();
                assert_eq!(unique.len(), members.len());
            }
        }
    }
    assert_eq!(state.get_stats(), (0, 0));
}

#[test]
fn membership_query_answers_with_members_and_count() {
    let mut state = AppState::new();
    state.join_room("r1", "a");
    state.join_room("r1", "b");
    let reply = room_members(&state, "r1");
    assert_eq!(reply.room, "r1");
    assert!(reply.found);
    assert_eq!(reply.count, 2);
    assert_eq!(rg_sorted(reply.members), rg_names(&["a", "b"]));
    let reply = room_members(&state, "r9");
    assert_eq!(reply.room, "r9");
    assert!(!reply.found);
    assert_eq!(reply.count, 0);
    assert!(reply.members.is_empty());
}

#[test]
fn api_key_is_checked_only_when_one_is_configured() {
    assert!(api_key_accepted(None, None));
    assert!(api_key_accepted(None, Some("anything")));
    assert!(api_key_accepted(Some(""), None));
    assert!(api_key_accepted(Some(""), Some("x")));
    assert!(api_key_accepted(Some("secret"), Some("secret")));
    assert!(!api_key_accepted(Some("secret"), Some("Secret")));
    assert!(!api_key_accepted(Some("secret"), Some("")));
    assert!(!api_key_accepted(Some("secret"), None));
}

#[test]
fn prior_session_is_a_membership_or_a_handle() {
    let mut state = AppState::new();
    assert!(!state.has_prior_session("r", "a"));
    state.join_room("r", "a");
    assert!(state.has_prior_session("r", "a"));
    assert!(!state.has_prior_session("s", "a"));
    assert!(!state.has_prior_session("r", "b"));
    state.register_peer("b", 2);
    assert!(state.has_prior_session("r", "b"));
    assert!(state.has_prior_session("anywhere", "b"));
}

#[test]
fn cleanup_of_a_prior_session_evicts_handle_and_membership() {
    let mut state = AppState::new();
    state.join_room("r", "a");
    state.join_room("r", "b");
    state.join_room("s", "a");
    state.register_peer("a", 1);
    let actions = state.cleanup_user_session("a", "r");
    assert_eq!(
        actions,
        vec![Action::Send {
            to: 1,
            text: spkmeeting::notice::session_conflict_notice("a", "r"),
        }]
    );
    assert_eq!(state.peer("a"), None);
    assert!(!state.is_member("r", "a"));
    assert!(state.is_member("s", "a"));
    // Without a handle there is nobody to tell.
    let actions = state.cleanup_user_session("b", "r");
    assert!(actions.is_empty());
    assert_eq!(state.room_members("r"), None);
    assert_eq!(state.get_stats(), (1, 0));
}

#[test]
fn names_are_found_and_left_out_by_their_characters() {
    let list = rg_names(&["a", "b", "a", "c", ""]);
    assert!(spkmeeting::text::contains_name(&list, "a"));
    assert!(spkmeeting::text::contains_name(&list, ""));
    assert!(!spkmeeting::text::contains_name(&list, "A"));
    assert!(!spkmeeting::text::contains_name(&Vec::new(), "a"));
    assert_eq!(spkmeeting::text::names_except(&list, "a"), rg_names(&["b", "c", ""]));
    assert_eq!(spkmeeting::text::names_except(&list, "z"), list);
    assert!(spkmeeting::text::names_except(&rg_names(&["x", "x"]), "x").is_empty());
}
