use bong::messages::{get_table, Connection, MsgRegError, MsgTable, Transport, KEY_BRICK_BREAK,
    KEY_CONNECTION, KEY_CONNECTION_BROADCAST, KEY_DISCONNECT, KEY_DISCONNECT_BROADCAST,
    KEY_GAME_WIN, KEY_NET_TRANSFORM, KEY_NET_VELOCITY, KEY_RESPONSE, KEY_START_GAME};

#[test]
fn game_table_registers_the_event_types_in_order() {
    let t = get_table();
    let expected = vec![
        (KEY_CONNECTION_BROADCAST, Transport::TCP),
        (KEY_DISCONNECT_BROADCAST, Transport::TCP),
        (KEY_START_GAME, Transport::TCP),
        (KEY_BRICK_BREAK, Transport::TCP),
        (KEY_GAME_WIN, Transport::TCP),
    ];
    assert_eq!(t.table, expected);
}

#[test]
fn duplicate_registration_is_refused_and_changes_nothing() {
    let mut t = get_table();
    let before = t.table.clone();
    let r = t.register(KEY_BRICK_BREAK, Transport::UDP);
    assert_eq!(r, Err(MsgRegError::TypeAlreadyRegistered));
    assert_eq!(t.table, before);
}

#[test]
fn fresh_registration_appends() {
    let mut t = get_table();
    assert_eq!(t.register(KEY_NET_TRANSFORM, Transport::UDP), Ok(()));
    assert_eq!(t.register(KEY_NET_VELOCITY, Transport::UDP), Ok(()));
    assert_eq!(t.table.len(), 7);
    assert_eq!(t.table[5], (KEY_NET_TRANSFORM, Transport::UDP));
    assert_eq!(t.table[6], (KEY_NET_VELOCITY, Transport::UDP));
}

#[test]
fn build_prepends_the_connection_types_and_assigns_stable_tags() {
    let mut t = get_table();
    t.register(KEY_NET_TRANSFORM, Transport::UDP).unwrap();
    t.register(KEY_NET_VELOCITY, Transport::UDP).unwrap();
    let parts = t.build(KEY_CONNECTION, KEY_RESPONSE, KEY_DISCONNECT).unwrap();
    assert_eq!(parts.table[0], (KEY_CONNECTION, Transport::TCP));
    assert_eq!(parts.table[1], (KEY_RESPONSE, Transport::TCP));
    assert_eq!(parts.table[2], (KEY_DISCONNECT, Transport::TCP));
    assert_eq!(parts.table[3], (KEY_CONNECTION_BROADCAST, Transport::TCP));
    assert_eq!(parts.lookup(KEY_GAME_WIN), Some((7, Transport::TCP)));
    assert_eq!(parts.lookup(KEY_NET_VELOCITY), Some((9, Transport::UDP)));
    assert_eq!(parts.lookup(12345), None);
}

#[test]
fn build_refuses_an_already_registered_connection_type() {
    let t = get_table();
    assert_eq!(
        t.build(KEY_BRICK_BREAK, KEY_RESPONSE, KEY_DISCONNECT),
        Err(MsgRegError::TypeAlreadyRegistered)
    );
    let t2 = get_table();
    assert_eq!(
        t2.build(KEY_CONNECTION, KEY_CONNECTION, KEY_DISCONNECT),
        Err(MsgRegError::TypeAlreadyRegistered)
    );
}

#[test]
fn empty_table_accepts_any_distinct_connection_types() {
    let t = MsgTable::new();
    let parts = t.build(1, 2, 3).unwrap();
    assert_eq!(parts.table.len(), 3);
}

#[test]
fn connection_message_carries_the_name() {
    let c = Connection::new("Ada".to_string());
    assert_eq!(c.name, "Ada");
}
