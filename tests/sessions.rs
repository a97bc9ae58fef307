use pocket_web_backend::registry::{HeartbeatVerdict, LoginRejection, Sessions};
use pocket_web_backend::session::{pocket_t, ControllerKind, Resource, Session};
use pocket_web_backend::session_id::SecureSessionIdGenerator;

const NOW: u64 = 1_700_000_000;

fn live_engine() -> pocket_t {
    pocket_t { session: 0x10, user: 0x20, aes: 0x30 }
}

fn new_id() -> String {
    let mut g = SecureSessionIdGenerator::new(NOW, 1).expect("entropy");
    g.generate(NOW)
}

fn new_session() -> Session {
    Session::new(new_id(), 0x1000, live_engine(), NOW)
}

#[test]
fn test_session_new() {
    let session = new_session();

    assert!(!session.session_id.is_empty());
    assert_eq!(session.session_id.len(), 64);

    assert!(session.pocket != 0);

    assert!(session.group_controller == 0);
    assert!(session.group_field_controller == 0);
    assert!(session.field_controller == 0);
    assert!(session.email.is_none());
    assert!(session.remote_session_handling);

    assert!(session.timestamp_last_update > 0);
}

#[test]
fn test_session_update_timestamp() {
    let mut session = new_session();
    let initial_timestamp = session.timestamp_last_update;

    session.update_timestamp_last_update(NOW + 10);
    // expiry is left to the engine: nothing changes
    assert_eq!(session.timestamp_last_update, initial_timestamp);

    session.remote_session_handling = false;
    session.update_timestamp_last_update(NOW + 10);
    assert!(session.timestamp_last_update >= initial_timestamp);
    assert_eq!(session.timestamp_last_update, NOW + 10);
}

#[test]
fn test_sessions_new() {
    let sessions = Sessions::new(300);

    assert_eq!(sessions.len(), 0);
    assert!(sessions.session_expiration_time() > 0);
}

#[test]
fn test_sessions_add_session() {
    let mut sessions = Sessions::new(300);
    let session = new_session();
    let session_id = session.session_id.clone();

    sessions.add(session);

    assert!(sessions.get(&session_id).is_some());
    assert_eq!(sessions.len(), 1);
}

#[test]
fn test_sessions_get_session() {
    let mut sessions = Sessions::new(300);
    let session = new_session();
    let session_id = session.session_id.clone();

    sessions.add(session);

    let retrieved_session = sessions.get(&session_id);
    assert!(retrieved_session.is_some());
    assert_eq!(retrieved_session.unwrap().session_id, session_id);

    let non_existent = sessions.get("non_existent_id");
    assert!(non_existent.is_none());
}

#[test]
fn test_sessions_get_session_mut() {
    let mut sessions = Sessions::new(300);
    let mut session = new_session();
    session.email = Some("test@example.com".to_string());
    let session_id = session.session_id.clone();

    sessions.add(session);

    let mut copy = sessions.get(&session_id).unwrap();
    copy.email = Some("updated@example.com".to_string());
    sessions.remove(&session_id, false);
    sessions.add(copy);

    let retrieved_session = sessions.get(&session_id);
    assert_eq!(retrieved_session.unwrap().email, Some("updated@example.com".to_string()));
}

#[test]
fn test_sessions_remove_session() {
    let mut sessions = Sessions::new(300);
    let session = new_session();
    let session_id = session.session_id.clone();

    sessions.add(session);

    assert!(sessions.get(&session_id).is_some());

    sessions.remove(&session_id, false);

    assert!(sessions.get(&session_id).is_none());
}

#[test]
fn test_sessions_contains() {
    let mut sessions = Sessions::new(300);
    let session = new_session();
    let session_id = session.session_id.clone();

    assert!(sessions.get(&session_id).is_none());

    sessions.add(session);

    assert!(sessions.get(&session_id).is_some());

    assert!(sessions.get("non_existent_id").is_none());
}

#[test]
fn test_pocket_t_is_valid() {
    let pocket = pocket_t { session: 0, user: 0, aes: 0 };

    assert!(!pocket.is_valid());
    assert!(live_engine().is_valid());
}

#[test]
fn add_replaces_same_id() {
    let mut sessions = Sessions::new(300);
    let mut s = Session::new("abc".to_string(), 1, live_engine(), NOW);
    sessions.add(s.clone());
    s.timestamp_last_update = NOW + 5;
    sessions.add(s);
    assert_eq!(sessions.len(), 1);
    assert_eq!(sessions.get("abc").unwrap().timestamp_last_update, NOW + 5);
}

#[test]
fn remove_with_release_hands_back_handles_once() {
    let mut sessions = Sessions::new(300);
    let mut s = Session::new("abc".to_string(), 0x1000, live_engine(), NOW);
    s.field_controller = 0x2000;
    sessions.add(s);
    let released = sessions.remove("abc", true);
    assert_eq!(released, vec![Resource::Engine(0x1000), Resource::FieldController(0x2000)]);
    let again = sessions.remove("abc", true);
    assert!(again.is_empty());
    assert!(sessions.remove("unknown", true).is_empty());
}

#[test]
fn remove_without_release_hands_back_nothing() {
    let mut sessions = Sessions::new(300);
    sessions.add(Session::new("abc".to_string(), 0x1000, live_engine(), NOW));
    assert!(sessions.remove("abc", false).is_empty());
    assert_eq!(sessions.len(), 0);
}

#[test]
fn resources_list_non_null_handles_in_order() {
    let mut s = Session::new("x".to_string(), 1, live_engine(), NOW);
    s.group_controller = 2;
    s.group_field_controller = 3;
    s.field_controller = 4;
    assert_eq!(
        s.resources(),
        vec![
            Resource::Engine(1),
            Resource::GroupController(2),
            Resource::GroupFieldController(3),
            Resource::FieldController(4)
        ]
    );
    let empty = Session::new("y".to_string(), 0, live_engine(), NOW);
    assert!(empty.resources().is_empty());
}

#[test]
fn check_if_already_logged_finds_account() {
    let mut sessions = Sessions::new(300);
    let mut s = Session::new("a".to_string(), 1, live_engine(), NOW);
    s.email = Some("user@x".to_string());
    sessions.add(s);
    sessions.add(Session::new("b".to_string(), 2, live_engine(), NOW));
    let mut found = None;
    assert!(sessions.check_if_already_logged(&"user@x".to_string(), &mut found));
    assert_eq!(found.unwrap().session_id, "a");
    let mut none = None;
    assert!(!sessions.check_if_already_logged(&"other@x".to_string(), &mut none));
    assert!(none.is_none());
}

#[test]
fn login_then_second_login_is_refused() {
    let mut sessions = Sessions::new(300);
    sessions.add(Session::new("x".to_string(), 1, live_engine(), NOW));
    sessions.add(Session::new("y".to_string(), 2, live_engine(), NOW));
    let email = "a@b".to_string();
    let s = sessions.begin_login("x", &email).unwrap();
    sessions.complete_login(s, email.clone(), true, NOW + 1);
    let mut found = None;
    assert!(sessions.check_if_already_logged(&email, &mut found));
    assert_eq!(sessions.begin_login("y", &email).unwrap_err(), LoginRejection::AlreadyLogged);
    assert_eq!(LoginRejection::AlreadyLogged.message(), "Account already logged in");
    assert_eq!(sessions.begin_login("z", &"c@d".to_string()).unwrap_err(), LoginRejection::SessionNotFound);
    assert_eq!(LoginRejection::SessionNotFound.message(), "Session not found");
}

#[test]
fn complete_login_with_local_expiry_refreshes_activity() {
    let mut sessions = Sessions::new(300);
    sessions.add(Session::new("x".to_string(), 1, live_engine(), NOW));
    let s = sessions.begin_login("x", &"a@b".to_string()).unwrap();
    sessions.complete_login(s, "a@b".to_string(), false, NOW + 50);
    let stored = sessions.get("x").unwrap();
    assert_eq!(stored.email, Some("a@b".to_string()));
    assert!(!stored.remote_session_handling);
    assert_eq!(stored.timestamp_last_update, NOW + 50);
}

#[test]
fn invalidate_evicts_expired_local_sessions() {
    let mut sessions = Sessions::new(300);
    let mut old = Session::new("old".to_string(), 1, live_engine(), NOW - 301);
    old.remote_session_handling = false;
    let mut fresh = Session::new("fresh".to_string(), 2, live_engine(), NOW);
    fresh.remote_session_handling = false;
    let remote = Session::new("remote".to_string(), 3, live_engine(), 0);
    let mut dead_remote = Session::new("dead".to_string(), 4, pocket_t { session: 1, user: 0, aes: 0 }, 0);
    dead_remote.remote_session_handling = true;
    sessions.add(old);
    sessions.add(fresh);
    sessions.add(remote);
    sessions.add(dead_remote);
    let mut removed: Vec<String> = sessions.invalidate(NOW).into_iter().map(|s| s.session_id).collect();
    removed.sort();
    assert_eq!(removed, vec!["dead".to_string(), "old".to_string()]);
    assert!(sessions.get("old").is_none());
    assert!(sessions.get("dead").is_none());
    assert!(sessions.get("fresh").is_some());
    assert!(sessions.get("remote").is_some());
    assert_eq!(sessions.len(), 2);
}

#[test]
fn invalidate_keeps_session_exactly_at_the_limit() {
    let mut sessions = Sessions::new(300);
    let mut s = Session::new("edge".to_string(), 1, live_engine(), NOW - 300);
    s.remote_session_handling = false;
    sessions.add(s);
    assert!(sessions.invalidate(NOW).is_empty());
    assert_eq!(sessions.invalidate(NOW + 1).len(), 1);
}

#[test]
fn hello_needs_new_session() {
    let mut sessions = Sessions::new(300);
    sessions.add(Session::new("abc".to_string(), 1, live_engine(), NOW));
    assert!(sessions.needs_new_session("null"));
    assert!(sessions.needs_new_session("zzz"));
    assert!(!sessions.needs_new_session("abc"));
}

#[test]
fn heartbeat_paths() {
    let mut sessions = Sessions::new(300);
    let (v, r) = sessions.heartbeat_begin("missing");
    assert_eq!(v, HeartbeatVerdict::Expired);
    assert!(r.is_empty());
    assert_eq!(v.reason(), "Session expired for session_id: ");

    sessions.add(Session::new("bad".to_string(), 7, pocket_t { session: 1, user: 0, aes: 0 }, NOW));
    let (v, r) = sessions.heartbeat_begin("bad");
    assert_eq!(v, HeartbeatVerdict::Invalid);
    assert_eq!(r, vec![Resource::Engine(7)]);
    assert!(sessions.get("bad").is_none());

    sessions.add(Session::new("ok".to_string(), 8, live_engine(), NOW));
    let (v, _) = sessions.heartbeat_begin("ok");
    assert_eq!(v, HeartbeatVerdict::NeedsProbe);
    let s = sessions.get("ok").unwrap();
    let (v, _) = sessions.heartbeat_finish(s.clone(), true, false, NOW + 1);
    assert_eq!(v, HeartbeatVerdict::Alive);
    let (v, _) = sessions.heartbeat_finish(s.clone(), false, true, NOW + 2);
    assert_eq!(v, HeartbeatVerdict::Alive);
    let stored = sessions.get("ok").unwrap();
    assert!(!stored.remote_session_handling);
    assert_eq!(stored.timestamp_last_update, NOW + 2);
    let (v, _) = sessions.heartbeat_begin("ok");
    assert_eq!(v, HeartbeatVerdict::Alive);
    let (v, r) = sessions.heartbeat_finish(stored, false, false, NOW + 3);
    assert_eq!(v, HeartbeatVerdict::RemoteExpired);
    assert_eq!(r, vec![Resource::Engine(8)]);
    assert!(sessions.get("ok").is_none());
}

#[test]
fn controllers_attach_lazily() {
    let mut s = Session::new("x".to_string(), 1, live_engine(), NOW);
    assert_eq!(s.controller(ControllerKind::Group), 0);
    assert_eq!(s.attach_controller(ControllerKind::Group, 0), Err("Group controller null"));
    assert_eq!(s.group_controller, 0);
    assert_eq!(s.attach_controller(ControllerKind::Group, 0x55), Ok(0x55));
    assert_eq!(s.controller(ControllerKind::Group), 0x55);
    assert_eq!(s.attach_controller(ControllerKind::Field, 0), Err("Field controller null"));
    assert_eq!(s.attach_controller(ControllerKind::GroupField, 9), Ok(9));
    assert_eq!(s.group_field_controller, 9);
}
