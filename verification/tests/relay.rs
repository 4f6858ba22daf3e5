use room_relay::lifecycle::{
    dispatch, handle_connect, handle_disconnect, handle_join, handle_leave, handle_send,
    handle_send_at, Event, Notification,
};
use room_relay::registry::{Registry, RegistryError};
use room_relay::router::members_of;

fn s(x: &str) -> String {
    x.to_string()
}

fn sorted(mut v: Vec<String>) -> Vec<String> {
    v.sort();
    v
}

fn connect(reg: &mut Registry, id: &str) {
    let r = handle_connect(reg, &s(id));
    assert!(r.is_ok());
}

fn join(reg: &mut Registry, id: &str, room: &str, name: &str) -> Vec<Notification> {
    handle_join(reg, &s(id), s(room), s(name))
}

#[test]
fn connect_emits_private_welcome() {
    let mut reg = Registry::new();
    let notes = handle_connect(&mut reg, &s("a")).unwrap();
    assert_eq!(notes.len(), 1);
    match &notes[0] {
        Notification::Welcome { to, socket_id, message } => {
            assert_eq!(to, "a");
            assert_eq!(socket_id, "a");
            assert_eq!(message, "Welcome to Axum Socket.IO server!");
        }
        _ => panic!("expected a welcome"),
    }
}

#[test]
fn duplicate_connect_is_refused() {
    let mut reg = Registry::new();
    connect(&mut reg, "a");
    let r = handle_connect(&mut reg, &s("a"));
    assert!(matches!(r, Err(RegistryError::DuplicateIdentity)));
    assert_eq!(reg.list().len(), 1);
}

#[test]
fn join_then_get_round_trip() {
    let mut reg = Registry::new();
    connect(&mut reg, "a");
    join(&mut reg, "a", "r1", "alice");
    let p = reg.get(&s("a")).expect("registered");
    assert_eq!(p.id, "a");
    assert_eq!(p.username, "alice");
    assert_eq!(p.room, Some(s("r1")));
}

#[test]
fn join_notifies_room_and_confirms_privately() {
    let mut reg = Registry::new();
    connect(&mut reg, "a");
    connect(&mut reg, "b");
    join(&mut reg, "b", "lobby", "bob");
    let notes = join(&mut reg, "a", "lobby", "alice");
    assert_eq!(notes.len(), 2);
    match &notes[0] {
        Notification::UserJoined { recipients, username, message } => {
            assert_eq!(recipients, &vec![s("b")]);
            assert_eq!(username, "alice");
            assert_eq!(message, "alice joined the room");
        }
        _ => panic!("expected a join announcement"),
    }
    match &notes[1] {
        Notification::RoomJoined { to, room, message } => {
            assert_eq!(to, "a");
            assert_eq!(room, "lobby");
            assert_eq!(message, "Successfully joined room");
        }
        _ => panic!("expected a private confirmation"),
    }
}

#[test]
fn join_with_unknown_id_is_a_noop() {
    let mut reg = Registry::new();
    let notes = join(&mut reg, "ghost", "r1", "casper");
    assert!(notes.is_empty());
    assert!(reg.list().is_empty());
}

#[test]
fn rejoin_moves_between_rooms() {
    let mut reg = Registry::new();
    connect(&mut reg, "a");
    connect(&mut reg, "b");
    join(&mut reg, "b", "r1", "bob");
    join(&mut reg, "a", "r1", "alice");
    join(&mut reg, "a", "r2", "alice");
    assert_eq!(members_of(&reg, &s("r1")), vec![s("b")]);
    assert_eq!(members_of(&reg, &s("r2")), vec![s("a")]);
}

#[test]
fn send_reaches_other_room_members_only() {
    let mut reg = Registry::new();
    connect(&mut reg, "a");
    connect(&mut reg, "b");
    join(&mut reg, "a", "lobby", "alice");
    join(&mut reg, "b", "lobby", "bob");
    let notes = handle_send(&reg, &s("a"), s("hi"), None, s("m1"), 42);
    assert_eq!(notes.len(), 1);
    match &notes[0] {
        Notification::NewMessage { recipients, message } => {
            assert_eq!(recipients, &vec![s("b")]);
            assert_eq!(message.id, "m1");
            assert_eq!(message.user_id, "a");
            assert_eq!(message.username, "alice");
            assert_eq!(message.content, "hi");
            assert_eq!(message.timestamp, 42);
            assert_eq!(message.room, Some(s("lobby")));
        }
        _ => panic!("expected a routed message"),
    }
}

#[test]
fn send_without_any_room_broadcasts_to_everyone_else() {
    let mut reg = Registry::new();
    connect(&mut reg, "a");
    connect(&mut reg, "b");
    connect(&mut reg, "c");
    let notes = handle_send(&reg, &s("a"), s("hello"), None, s("m2"), 1);
    assert_eq!(notes.len(), 1);
    match &notes[0] {
        Notification::NewMessage { recipients, message } => {
            assert_eq!(sorted(recipients.clone()), vec![s("b"), s("c")]);
            assert_eq!(message.room, None);
        }
        _ => panic!("expected a broadcast message"),
    }
}

#[test]
fn send_with_explicit_target_room_overrides_own_room() {
    let mut reg = Registry::new();
    connect(&mut reg, "a");
    connect(&mut reg, "b");
    connect(&mut reg, "c");
    join(&mut reg, "a", "r1", "alice");
    join(&mut reg, "b", "r2", "bob");
    join(&mut reg, "c", "r2", "carol");
    let notes = handle_send(&reg, &s("a"), s("psst"), Some(s("r2")), s("m3"), 2);
    assert_eq!(notes.len(), 1);
    match &notes[0] {
        Notification::NewMessage { recipients, message } => {
            assert_eq!(sorted(recipients.clone()), vec![s("b"), s("c")]);
            assert_eq!(message.room, Some(s("r2")));
        }
        _ => panic!("expected a routed message"),
    }
}

#[test]
fn send_from_unknown_sender_is_dropped_silently() {
    let reg = Registry::new();
    let notes = handle_send(&reg, &s("ghost"), s("boo"), None, s("m4"), 3);
    assert!(notes.is_empty());
}

#[test]
fn sender_alone_in_a_room_reaches_nobody() {
    let mut reg = Registry::new();
    connect(&mut reg, "a");
    join(&mut reg, "a", "solo", "alice");
    let notes = handle_send(&reg, &s("a"), s("echo"), None, s("m5"), 4);
    assert_eq!(notes.len(), 1);
    match &notes[0] {
        Notification::NewMessage { recipients, .. } => assert!(recipients.is_empty()),
        _ => panic!("expected a routed message"),
    }
}

#[test]
fn leave_notifies_remaining_members_and_clears_room() {
    let mut reg = Registry::new();
    connect(&mut reg, "a");
    connect(&mut reg, "b");
    join(&mut reg, "a", "r", "alice");
    join(&mut reg, "b", "r", "bob");
    let notes = handle_leave(&mut reg, &s("a"));
    assert_eq!(notes.len(), 1);
    match &notes[0] {
        Notification::UserLeft { recipients, username, message } => {
            assert_eq!(recipients, &vec![s("b")]);
            assert_eq!(username, "alice");
            assert_eq!(message, "alice left the room");
        }
        _ => panic!("expected a departure announcement"),
    }
    let p = reg.get(&s("a")).expect("still registered");
    assert_eq!(p.room, None);
    assert_eq!(members_of(&reg, &s("r")), vec![s("b")]);
}

#[test]
fn leave_without_a_room_is_a_noop() {
    let mut reg = Registry::new();
    connect(&mut reg, "a");
    let notes = handle_leave(&mut reg, &s("a"));
    assert!(notes.is_empty());
    assert_eq!(reg.list().len(), 1);
}

#[test]
fn leave_by_unknown_id_is_a_noop() {
    let mut reg = Registry::new();
    let notes = handle_leave(&mut reg, &s("ghost"));
    assert!(notes.is_empty());
}

#[test]
fn disconnect_in_a_room_notifies_and_unregisters() {
    let mut reg = Registry::new();
    connect(&mut reg, "a");
    connect(&mut reg, "b");
    join(&mut reg, "a", "r", "alice");
    join(&mut reg, "b", "r", "bob");
    let notes = handle_disconnect(&mut reg, &s("a"));
    assert_eq!(notes.len(), 1);
    match &notes[0] {
        Notification::UserLeft { recipients, username, .. } => {
            assert_eq!(recipients, &vec![s("b")]);
            assert_eq!(username, "alice");
        }
        _ => panic!("expected a departure announcement"),
    }
    assert!(reg.get(&s("a")).is_none());
    assert_eq!(members_of(&reg, &s("r")), vec![s("b")]);
    assert_eq!(reg.list().len(), 1);
}

#[test]
fn operations_after_disconnect_are_noops() {
    let mut reg = Registry::new();
    connect(&mut reg, "a");
    connect(&mut reg, "b");
    join(&mut reg, "a", "r", "alice");
    handle_disconnect(&mut reg, &s("a"));
    assert!(handle_send(&reg, &s("a"), s("late"), None, s("m6"), 5).is_empty());
    assert!(handle_leave(&mut reg, &s("a")).is_empty());
    assert!(handle_disconnect(&mut reg, &s("a")).is_empty());
    assert_eq!(reg.list().len(), 1);
}

#[test]
fn disconnect_without_a_room_is_silent() {
    let mut reg = Registry::new();
    connect(&mut reg, "a");
    connect(&mut reg, "b");
    let notes = handle_disconnect(&mut reg, &s("a"));
    assert!(notes.is_empty());
    assert!(reg.get(&s("a")).is_none());
    let listed = reg.list();
    assert_eq!(listed.len(), 1);
    assert_eq!(listed[0].id, "b");
}

#[test]
fn room_names_are_compared_exactly() {
    let mut reg = Registry::new();
    connect(&mut reg, "a");
    connect(&mut reg, "b");
    join(&mut reg, "a", "Lobby", "alice");
    join(&mut reg, "b", "lobby", "bob");
    assert_eq!(members_of(&reg, &s("lobby")), vec![s("b")]);
    assert_eq!(members_of(&reg, &s("Lobby")), vec![s("a")]);
    assert!(members_of(&reg, &s("lobby ")).is_empty());
}

#[test]
fn display_name_updates_on_a_later_join() {
    let mut reg = Registry::new();
    connect(&mut reg, "a");
    join(&mut reg, "a", "r1", "alice");
    join(&mut reg, "a", "r2", "alicia");
    let p = reg.get(&s("a")).expect("registered");
    assert_eq!(p.username, "alicia");
    assert_eq!(p.room, Some(s("r2")));
}

#[test]
fn generated_message_ids_are_uuid_shaped_and_fresh() {
    let mut reg = Registry::new();
    connect(&mut reg, "a");
    connect(&mut reg, "b");
    let first = handle_send_at(&reg, &s("a"), s("one"), None, 7);
    let second = handle_send_at(&reg, &s("a"), s("two"), None, 7);
    let id_of = |notes: &Vec<Notification>| match &notes[0] {
        Notification::NewMessage { message, .. } => message.id.clone(),
        _ => panic!("expected a routed message"),
    };
    let i1 = id_of(&first);
    let i2 = id_of(&second);
    assert_eq!(i1.len(), 36);
    assert_eq!(i2.len(), 36);
    assert_ne!(i1, i2);
    match &first[0] {
        Notification::NewMessage { message, .. } => assert_eq!(message.timestamp, 7),
        _ => unreachable!(),
    }
}

#[test]
fn dispatch_drives_a_whole_session() {
    let mut reg = Registry::new();
    let hello = dispatch(&mut reg, &s("a"), Event::Connect).unwrap();
    assert!(matches!(hello[0], Notification::Welcome { .. }));
    dispatch(&mut reg, &s("b"), Event::Connect).unwrap();
    dispatch(&mut reg, &s("b"), Event::Join { room: s("r"), username: s("bob") }).unwrap();
    let joined = dispatch(&mut reg, &s("a"), Event::Join { room: s("r"), username: s("alice") })
        .unwrap();
    assert_eq!(joined.len(), 2);
    let sent = dispatch(
        &mut reg,
        &s("a"),
        Event::Send { content: s("hi"), target_room: None, timestamp: 9 },
    )
    .unwrap();
    match &sent[0] {
        Notification::NewMessage { recipients, message } => {
            assert_eq!(recipients, &vec![s("b")]);
            assert_eq!(message.room, Some(s("r")));
        }
        _ => panic!("expected a routed message"),
    }
    let left = dispatch(&mut reg, &s("a"), Event::Leave).unwrap();
    assert_eq!(left.len(), 1);
    let gone = dispatch(&mut reg, &s("a"), Event::Disconnect).unwrap();
    assert!(gone.is_empty());
    assert!(reg.get(&s("a")).is_none());
}

#[test]
fn registry_set_profile_requires_registration() {
    let mut reg = Registry::new();
    let r = reg.set_profile(&s("a"), s("alice"), s("r1"));
    assert!(matches!(r, Err(RegistryError::UnknownParticipant)));
    assert!(reg.list().is_empty());
}

#[test]
fn registry_clear_and_unregister_are_idempotent() {
    let mut reg = Registry::new();
    reg.clear_room(&s("nobody"));
    reg.unregister(&s("nobody"));
    assert!(reg.list().is_empty());
    connect(&mut reg, "a");
    join(&mut reg, "a", "r", "alice");
    reg.clear_room(&s("a"));
    reg.clear_room(&s("a"));
    let p = reg.get(&s("a")).expect("registered");
    assert_eq!(p.room, None);
    reg.unregister(&s("a"));
    reg.unregister(&s("a"));
    assert!(reg.list().is_empty());
}

#[test]
fn members_of_an_unused_room_is_empty() {
    let reg = Registry::new();
    assert!(members_of(&reg, &s("anything")).is_empty());
}
