use bong::game::{Session, Team};
use bong::lobby::{client_handle_response, player_label, server_handle_connection,
    server_handle_disconnects, status_text, try_start_game, Players};
use bong::messages::{RejectReason, Response};
use bong::GameState;
use bong::MultiplayerType;

#[test]
fn roster_fills_left_seat_first() {
    let mut p = Players::new();
    assert_eq!(p.count(), 0);
    assert!(p.first().is_none());
    assert!(p.add(5, "Ada".to_string()));
    assert_eq!(p.p1, Some((5, "Ada".to_string())));
    assert_eq!(p.count(), 1);
    assert!(p.add(6, "Grace".to_string()));
    assert_eq!(p.p2, Some((6, "Grace".to_string())));
    assert_eq!(p.count(), 2);
    assert!(!p.add(7, "Alan".to_string()), "a full roster rejects a third player");
    assert_eq!(p.first(), Some((5, "Ada".to_string())));
}

#[test]
fn roster_remove_vacates_the_matching_seat() {
    let mut p = Players::new();
    p.add(5, "Ada".to_string());
    p.add(6, "Grace".to_string());
    assert!(p.remove_cid(5));
    assert_eq!(p.p1, None);
    assert_eq!(p.p2, Some((6, "Grace".to_string())));
    assert!(!p.remove_cid(5), "removing twice finds nothing");
    assert!(p.remove_cid(6));
    assert_eq!(p.count(), 0);
}

#[test]
fn server_accepts_until_full_then_rejects() {
    let mut p = Players::new();
    let (ok1, resp1, bm1) = server_handle_connection(&mut p, 5, "Ada".to_string());
    assert!(ok1);
    assert_eq!(resp1, Response::Accepted(5, None));
    let bm1 = bm1.expect("an accepted join is broadcast");
    assert_eq!((bm1.name.as_str(), bm1.cid), ("Ada", 5));

    let (ok2, resp2, bm2) = server_handle_connection(&mut p, 6, "Grace".to_string());
    assert!(ok2);
    assert_eq!(resp2, Response::Accepted(6, Some((5, "Ada".to_string()))));
    assert!(bm2.is_some());

    let (ok3, resp3, bm3) = server_handle_connection(&mut p, 7, "Alan".to_string());
    assert!(!ok3);
    assert_eq!(resp3, Response::Rejected(RejectReason::MaxPlayersReached));
    assert!(bm3.is_none());
    assert_eq!(p.count(), 2, "a rejected connection changes nothing");
}

#[test]
fn first_client_learns_it_plays_left() {
    let mut p = Players::new();
    client_handle_response(&mut p, &Response::Accepted(5, None));
    assert_eq!(p.me, Some(Team::Left));
    assert_eq!(p.count(), 0, "no other player to seat yet");
}

#[test]
fn second_client_seats_the_first_and_plays_right() {
    let mut p = Players::new();
    client_handle_response(&mut p, &Response::Accepted(6, Some((5, "Ada".to_string()))));
    assert_eq!(p.me, Some(Team::Right));
    assert_eq!(p.p1, Some((5, "Ada".to_string())));
}

#[test]
fn rejected_client_is_left_unchanged() {
    let mut p = Players::new();
    client_handle_response(&mut p, &Response::Rejected(RejectReason::MaxPlayersReached));
    assert_eq!(p, Players::new());
}

#[test]
fn disconnect_broadcasts_and_removes_in_order() {
    let mut p = Players::new();
    p.add(5, "Ada".to_string());
    p.add(6, "Grace".to_string());
    let bms = server_handle_disconnects(&mut p, &vec![6, 9]);
    assert_eq!(bms.len(), 2);
    assert_eq!(bms[0].cid, 6);
    assert_eq!(bms[1].cid, 9, "a leave is broadcast even for an unseated cid");
    assert_eq!(p.p1, Some((5, "Ada".to_string())));
    assert_eq!(p.p2, None);
}

#[test]
fn game_starts_only_on_a_full_server_lobby() {
    let mut s = Session::new();
    s.open_lobby();
    let mut p = Players::new();
    p.add(5, "Ada".to_string());
    assert!(!try_start_game(&p, &mut s, true), "one player is not enough");
    assert_eq!(s.state, GameState::Lobby);
    p.add(6, "Grace".to_string());
    assert!(!try_start_game(&p, &mut s, false), "a pure client cannot start the game");
    assert_eq!(s.state, GameState::Lobby);
    assert!(try_start_game(&p, &mut s, true));
    assert_eq!(s.state, GameState::Game);
}

#[test]
fn status_line_follows_role_and_transport() {
    assert_eq!(status_text(&MultiplayerType::Client, Some(true), false), "Client connected");
    assert_eq!(status_text(&MultiplayerType::Client, Some(false), false), "Client not connected");
    assert_eq!(status_text(&MultiplayerType::Client, None, true), "Client not connected");
    assert_eq!(status_text(&MultiplayerType::Server, None, true), "Server Listening");
    assert_eq!(status_text(&MultiplayerType::Host, None, false), "No Server");
}

#[test]
fn player_labels_show_names_or_placeholders() {
    let mut p = Players::new();
    assert_eq!(player_label(&p.p1, "Player 1"), "Player 1");
    p.add(5, "Ada".to_string());
    assert_eq!(player_label(&p.p1, "Player 1"), "Ada");
    assert_eq!(player_label(&p.p2, "Player 2"), "Player 2");
}

#[test]
fn default_roster_is_empty() {
    let p: Players = Default::default();
    assert_eq!(p.count(), 0);
    assert_eq!(p.me, None);
}
