use bong::net::{CidSpec, NetComp, NetCompMsg, NetDirection, NetEntity};
use bong::sync::{client_sync, run_if_client, run_if_host, run_if_server, server_sync, SendCmd,
    ServerMsg, SyncObj};
use bong::game::{ball_dir, client_paddle_dir, server_paddle_dir, Team};
use bong::MultiplayerType;

/// A reduced transform, as a game would replicate it.
#[derive(Clone, Copy, PartialEq, Debug)]
struct Pos {
    x: f32,
    y: f32,
}

fn obj<M>(id: u64, dir: NetDirection, val: M) -> SyncObj<M> {
    SyncObj { ent: NetEntity::new(id), comp: NetComp::new(dir), val }
}

fn envelope<M>(cid: u32, id: u64, msg: M) -> ServerMsg<M> {
    ServerMsg { cid, msg: NetCompMsg::new(id, msg) }
}

#[test]
fn last_writer_wins_within_one_tick() {
    // Two envelopes for the same object in ingest order (v1, v2): the
    // field ends at v2, regardless of v1.
    let mut objs = vec![obj(42, NetDirection::From(CidSpec::All), 7u32)];
    let msgs = vec![envelope(1, 42, 10u32), envelope(2, 42, 20u32)];
    let sends = server_sync(&mut objs, &msgs);
    assert_eq!(objs[0].val, 20);
    assert!(sends.is_empty());
}

#[test]
fn from_with_no_accepted_envelope_keeps_stale_value() {
    let mut objs = vec![obj(42, NetDirection::From(CidSpec::Only(3)), 7u32)];
    // Right object id, but the sender is filtered out.
    let msgs = vec![envelope(1, 42, 10u32)];
    let sends = server_sync(&mut objs, &msgs);
    assert_eq!(objs[0].val, 7);
    assert!(sends.is_empty());
}

#[test]
fn sender_filter_selects_among_envelopes() {
    let mut objs = vec![obj(42, NetDirection::From(CidSpec::Only(3)), 0u32)];
    // The last envelope from the accepted sender wins, later other-sender
    // traffic notwithstanding.
    let msgs = vec![envelope(3, 42, 11u32), envelope(3, 42, 12u32), envelope(4, 42, 99u32)];
    server_sync(&mut objs, &msgs);
    assert_eq!(objs[0].val, 12);
}

#[test]
fn unknown_object_id_is_dropped_silently() {
    // An envelope for an object with no local match mutates nothing.
    let mut objs = vec![obj(42, NetDirection::From(CidSpec::All), 7u32)];
    let msgs = vec![envelope(1, 43, 10u32)];
    let sends = server_sync(&mut objs, &msgs);
    assert_eq!(objs[0].val, 7);
    assert!(sends.is_empty());
}

#[test]
fn no_directive_isolation() {
    // An object with an authoritative directive for the field is never
    // mutated by traffic, and an object not handed to the tick at all is
    // untouched by construction; other objects still apply.
    let mut objs = vec![
        obj(1, NetDirection::To(CidSpec::All), 100u32),
        obj(2, NetDirection::From(CidSpec::All), 200u32),
    ];
    let msgs = vec![envelope(9, 1, 555u32), envelope(9, 2, 201u32)];
    let sends = server_sync(&mut objs, &msgs);
    assert_eq!(objs[0].val, 100, "a To field ignores inbound traffic");
    assert_eq!(objs[1].val, 201);
    assert_eq!(sends.len(), 1);
    assert_eq!(sends[0].msg.id, 1);
    assert_eq!(sends[0].msg.msg, 100);
}

#[test]
fn tofrom_rejected_on_client_leaves_field_local() {
    // Instantiating a ToFrom directive on a client-only peer is a
    // configuration error: reported, no crash, field left alone.
    let mut objs = vec![
        obj(7, NetDirection::ToFrom(CidSpec::All, CidSpec::All), 1u32),
        obj(8, NetDirection::From(CidSpec::All), 2u32),
    ];
    let msgs = vec![NetCompMsg::new(7, 50u32), NetCompMsg::new(8, 60u32)];
    let (sends, errors) = client_sync(&mut objs, &msgs);
    assert_eq!(objs[0].val, 1, "the rejected field stays under local control");
    assert_eq!(objs[1].val, 60, "other objects still replicate");
    assert!(sends.is_empty());
    assert_eq!(errors, vec![7u64]);
}

#[test]
fn scenario_server_publishes_position_to_client() {
    // The server spawns object 42 with To(All) and position (0,0); one
    // tick later a connected client with From(All) and the same object id
    // holds (0,0).
    let origin = Pos { x: 0.0, y: 0.0 };
    let mut server_objs = vec![obj(42, NetDirection::To(CidSpec::All), origin)];
    let no_inbound: Vec<ServerMsg<Pos>> = Vec::new();
    let sends = server_sync(&mut server_objs, &no_inbound);
    assert_eq!(sends.len(), 1);
    let SendCmd { to, msg } = sends[0];
    assert_eq!(to, CidSpec::All);
    assert_eq!(msg.id, 42);

    let mut client_objs = vec![obj(42, NetDirection::From(CidSpec::All), Pos { x: 5.0, y: 5.0 })];
    let inbound = vec![msg];
    client_sync(&mut client_objs, &inbound);
    assert_eq!(client_objs[0].val, origin);
}

#[test]
fn scenario_paddle_relayed_through_server() {
    // Client A (cid 1) owns paddle object 7 with To(Only(server)); the
    // server relays via ToFrom(Except(1), Only(1)); client B follows with
    // From(All).  After one round trip B holds A's last published value.
    let a_cid = 1u32;
    let moved = Pos { x: -350.0, y: 120.0 };

    let mut a_objs = vec![obj(7, NetDirection::To(CidSpec::All), moved)];
    let no_inbound_a: Vec<NetCompMsg<Pos>> = Vec::new();
    let (a_sends, a_errors) = client_sync(&mut a_objs, &no_inbound_a);
    assert!(a_errors.is_empty());
    assert_eq!(a_sends.len(), 1);

    let mut server_objs = vec![obj(
        7,
        NetDirection::ToFrom(CidSpec::Except(a_cid), CidSpec::Only(a_cid)),
        Pos { x: -350.0, y: 0.0 },
    )];
    let server_inbound = vec![ServerMsg { cid: a_cid, msg: a_sends[0] }];
    let relays = server_sync(&mut server_objs, &server_inbound);
    assert_eq!(server_objs[0].val, moved, "the hub applies before publishing");
    assert_eq!(relays.len(), 1);
    assert_eq!(relays[0].to, CidSpec::Except(a_cid));
    assert_eq!(relays[0].msg.msg, moved);
    // The relay spec excludes A itself: no echo back to the owner.
    assert!(!relays[0].to.matches(a_cid));

    let mut b_objs = vec![obj(7, NetDirection::From(CidSpec::All), Pos { x: -350.0, y: 0.0 })];
    let b_inbound = vec![relays[0].msg];
    client_sync(&mut b_objs, &b_inbound);
    assert_eq!(b_objs[0].val, moved);
}

#[test]
fn client_to_publishes_and_ignores_inbound() {
    let mut objs = vec![obj(7, NetDirection::To(CidSpec::All), 5u32)];
    let msgs = vec![NetCompMsg::new(7, 9u32)];
    let (sends, errors) = client_sync(&mut objs, &msgs);
    assert_eq!(objs[0].val, 5);
    assert_eq!(sends.len(), 1);
    assert_eq!(sends[0].id, 7);
    assert_eq!(sends[0].msg, 5);
    assert!(errors.is_empty());
}

#[test]
fn world_setup_directives() {
    assert_eq!(ball_dir(&MultiplayerType::Server), NetDirection::To(CidSpec::All));
    assert_eq!(ball_dir(&MultiplayerType::Host), NetDirection::To(CidSpec::All));
    assert_eq!(ball_dir(&MultiplayerType::Client), NetDirection::From(CidSpec::All));
    assert_eq!(client_paddle_dir(Team::Left, Team::Left), NetDirection::To(CidSpec::All));
    assert_eq!(client_paddle_dir(Team::Left, Team::Right), NetDirection::From(CidSpec::All));
    let d = server_paddle_dir(5);
    assert_eq!(d, NetDirection::ToFrom(CidSpec::Except(5), CidSpec::Only(5)));
    assert!(d.valid_on(&MultiplayerType::Server));
}

#[test]
fn run_criteria() {
    assert!(run_if_client(Some(true)));
    assert!(!run_if_client(Some(false)));
    assert!(!run_if_client(None));
    assert!(run_if_server(true));
    assert!(!run_if_server(false));
    assert!(run_if_host(Some(true), true));
    assert!(!run_if_host(Some(true), false));
    assert!(!run_if_host(None, true));
    assert!(!run_if_host(Some(false), true));
}
