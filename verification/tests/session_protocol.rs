use chess_session::msg::AckMsg;
use chess_session::msg::Color;
use chess_session::msg::EndState;
use chess_session::msg::GameStatus;
use chess_session::msg::MoveMsg;
use chess_session::msg::StartMsg;
use chess_session::session::DrawOffer;
use chess_session::session::Phase;
use chess_session::session::Role;
use chess_session::session::Session;
use chess_session::session::SessionError;

fn start_msg(is_white: bool) -> StartMsg {
    StartMsg { is_white, name: None, fen: None, time: None, inc: None }
}

/// Drives two fresh sessions through connection establishment and the
/// color handshake, with the given host choice and client request.
fn playing_pair(host_color: Color, client_request: Color) -> (Session, Session) {
    let mut host = Session::new();
    host.choose_color(host_color).unwrap();
    host.host_game().unwrap();
    host.accept_peer().unwrap();

    let mut client = Session::new();
    client.choose_color(client_request).unwrap();
    client.join_succeeded().unwrap();

    let req = client.send_start(Some(String::from("Alexander")), None, None, None).unwrap();
    let echo = host.receive_start(req).unwrap().unwrap();
    assert!(client.receive_start(echo).unwrap().is_none());
    (host, client)
}

#[test]
fn fresh_session_is_in_lobby() {
    let s = Session::new();
    assert_eq!(s.phase(), Phase::Lobby);
    assert_eq!(s.role(), Role::Unconnected);
    assert_eq!(s.local_color(), None);
    assert_eq!(s.pending_outbound_move(), None);
    assert_eq!(s.draw_offer_state(), DrawOffer::Absent);
    assert_eq!(s.recorded_end(), None);
    assert!(s.board_moves().is_empty());
    assert!(s.remote_start().is_none());
}

#[test]
fn hosting_and_accepting_reach_handshake() {
    let mut s = Session::new();
    s.host_game().unwrap();
    assert_eq!(s.phase(), Phase::AwaitingPeer);
    s.accept_peer().unwrap();
    assert_eq!(s.phase(), Phase::Handshaking);
    assert_eq!(s.role(), Role::Host);
}

#[test]
fn joining_reaches_handshake_as_client() {
    let mut s = Session::new();
    s.join_succeeded().unwrap();
    assert_eq!(s.phase(), Phase::Handshaking);
    assert_eq!(s.role(), Role::Client);
}

#[test]
fn hosting_twice_is_refused() {
    let mut s = Session::new();
    s.host_game().unwrap();
    assert_eq!(s.host_game(), Err(SessionError::WrongPhase));
}

// Color handshake: if Host picks White and Client requests White, the
// assignment is Host = White, Client = Black.
#[test]
fn color_conflict_flips_client_to_black() {
    let (host, client) = playing_pair(Color::White, Color::White);
    assert_eq!(host.local_color(), Some(Color::White));
    assert_eq!(client.local_color(), Some(Color::Black));
    assert_eq!(host.phase(), Phase::Playing);
    assert_eq!(client.phase(), Phase::Playing);
}

// Color handshake: a client request for Black while the Host is White is
// honored unchanged.
#[test]
fn color_request_without_conflict_is_honored() {
    let (host, client) = playing_pair(Color::White, Color::Black);
    assert_eq!(host.local_color(), Some(Color::White));
    assert_eq!(client.local_color(), Some(Color::Black));
}

#[test]
fn color_conflict_on_black_flips_client_to_white() {
    let (host, client) = playing_pair(Color::Black, Color::Black);
    assert_eq!(host.local_color(), Some(Color::Black));
    assert_eq!(client.local_color(), Some(Color::White));
}

#[test]
fn handshake_echo_declares_host_color_and_echoes_advisory_fields() {
    let mut host = Session::new();
    host.choose_color(Color::Black).unwrap();
    host.host_game().unwrap();
    host.accept_peer().unwrap();
    let req = StartMsg {
        is_white: true,
        name: Some(String::from("Alexander")),
        fen: Some(String::from("startpos")),
        time: Some(300),
        inc: Some(5),
    };
    let echo = host.receive_start(req).unwrap().unwrap();
    assert!(!echo.is_white);
    assert_eq!(echo.name.as_deref(), Some("Alexander"));
    assert_eq!(echo.fen.as_deref(), Some("startpos"));
    assert_eq!(echo.time, Some(300));
    assert_eq!(echo.inc, Some(5));
    let stored = host.remote_start().as_ref().unwrap();
    assert!(stored.is_white);
    assert_eq!(stored.name.as_deref(), Some("Alexander"));
}

#[test]
fn receive_start_without_chosen_color_is_refused() {
    let mut host = Session::new();
    host.host_game().unwrap();
    host.accept_peer().unwrap();
    assert_eq!(host.receive_start(start_msg(true)).unwrap_err(), SessionError::NoColorChosen);
    assert_eq!(host.phase(), Phase::Handshaking);
}

#[test]
fn send_start_needs_client_in_handshake() {
    let s = Session::new();
    assert_eq!(
        s.send_start(None, None, None, None).unwrap_err(),
        SessionError::WrongPhase,
    );
    let mut c = Session::new();
    c.join_succeeded().unwrap();
    assert_eq!(c.send_start(None, None, None, None).unwrap_err(), SessionError::NoColorChosen);
    c.choose_color(Color::White).unwrap();
    let m = c.send_start(Some(String::from("Alexander")), None, None, None).unwrap();
    assert!(m.is_white);
    assert_eq!(m.name.as_deref(), Some("Alexander"));
}

#[test]
fn choosing_a_color_after_the_handshake_is_refused() {
    let (mut host, _) = playing_pair(Color::White, Color::Black);
    assert_eq!(host.choose_color(Color::Black), Err(SessionError::WrongPhase));
    assert_eq!(host.local_color(), Some(Color::White));
}

// Scenario: Host hosts, Client joins, Client requests White while Host
// also selected White at lobby time, so the Client ends up Black.  The
// Host then proposes e2-e4; the Client acks ok with no end state, and
// both boards show the move.
#[test]
fn host_e4_round_trip_leaves_boards_equal() {
    let (mut host, mut client) = playing_pair(Color::White, Color::White);
    assert_eq!(client.local_color(), Some(Color::Black));

    let e4 = MoveMsg::plain(4, 1, 4, 3, None);
    let sent = host.propose_move(e4, true).unwrap();
    assert_eq!(sent, e4);
    assert_eq!(host.pending_outbound_move(), Some(e4));
    assert!(host.board_moves().is_empty());

    let ack = client.receive_move(sent, true, GameStatus::InProgress).unwrap().unwrap();
    assert_eq!(ack, AckMsg { ok: true, end_state: None });

    host.receive_ack(ack).unwrap();
    assert_eq!(host.pending_outbound_move(), None);
    assert_eq!(host.board_moves().as_slice(), client.board_moves().as_slice());
    assert_eq!(host.board_moves().as_slice(), &[e4]);
}

// An illegal move claimed by a client: the host's ack has ok == false and
// the host's board is unchanged.
#[test]
fn illegal_client_move_is_refused_by_host() {
    let (mut host, mut client) = playing_pair(Color::White, Color::Black);
    let bogus = MoveMsg::plain(0, 0, 7, 7, None);
    let sent = client.propose_move(bogus, true).unwrap();
    let ack = host.receive_move(sent, false, GameStatus::InProgress).unwrap().unwrap();
    assert_eq!(ack, AckMsg { ok: false, end_state: None });
    assert!(host.board_moves().is_empty());

    client.receive_ack(ack).unwrap();
    assert_eq!(client.pending_outbound_move(), None);
    assert!(client.board_moves().is_empty());
    assert_eq!(client.phase(), Phase::Playing);
}

#[test]
fn legal_client_move_is_applied_by_host() {
    let (mut host, mut client) = playing_pair(Color::White, Color::Black);
    let m = MoveMsg::plain(6, 6, 6, 4, None);
    let sent = client.propose_move(m, true).unwrap();
    let ack = host.receive_move(sent, true, GameStatus::InProgress).unwrap().unwrap();
    assert_eq!(ack, AckMsg { ok: true, end_state: None });
    assert_eq!(host.board_moves().as_slice(), &[m]);
    client.receive_ack(ack).unwrap();
    assert_eq!(client.board_moves().as_slice(), &[m]);
}

// Staging a second move while one is pending is rejected, not
// overwritten.
#[test]
fn second_proposed_move_is_rejected_not_overwritten() {
    let (mut host, _) = playing_pair(Color::White, Color::Black);
    let first = MoveMsg::plain(4, 1, 4, 3, None);
    let second = MoveMsg::plain(3, 1, 3, 3, None);
    host.propose_move(first, true).unwrap();
    assert_eq!(host.propose_move(second, true), Err(SessionError::MovePending));
    assert_eq!(host.pending_outbound_move(), Some(first));
}

#[test]
fn proposing_outside_play_is_refused() {
    let mut s = Session::new();
    let m = MoveMsg::plain(4, 1, 4, 3, None);
    assert_eq!(s.propose_move(m, true), Err(SessionError::WrongPhase));
}

#[test]
fn locally_illegal_move_is_not_staged() {
    let (mut host, _) = playing_pair(Color::White, Color::Black);
    let m = MoveMsg::plain(4, 1, 4, 4, None);
    assert_eq!(host.propose_move(m, false), Err(SessionError::IllegalMove));
    assert_eq!(host.pending_outbound_move(), None);
    assert_eq!(host.propose_move(MoveMsg::forfeit_signal(), true), Err(SessionError::IllegalMove));
}

#[test]
fn rejected_ack_discards_the_pending_move() {
    let (mut host, _) = playing_pair(Color::White, Color::Black);
    let m = MoveMsg::plain(4, 1, 4, 3, None);
    host.propose_move(m, true).unwrap();
    host.receive_ack(AckMsg { ok: false, end_state: None }).unwrap();
    assert_eq!(host.pending_outbound_move(), None);
    assert!(host.board_moves().is_empty());
    assert_eq!(host.phase(), Phase::Playing);
}

#[test]
fn ack_with_nothing_outstanding_is_a_desync() {
    let (mut host, _) = playing_pair(Color::White, Color::Black);
    assert_eq!(
        host.receive_ack(AckMsg { ok: true, end_state: None }),
        Err(SessionError::Desync),
    );
    assert_eq!(host.phase(), Phase::Playing);
}

#[test]
fn checkmate_reported_in_ack_ends_the_proposer() {
    let (mut host, mut client) = playing_pair(Color::White, Color::Black);
    let m = MoveMsg::plain(5, 6, 5, 4, None);
    let sent = client.propose_move(m, true).unwrap();
    let ack = host
        .receive_move(sent, true, GameStatus::Checkmate { winner: Color::Black })
        .unwrap()
        .unwrap();
    assert_eq!(ack, AckMsg { ok: true, end_state: Some(EndState::CheckMate) });
    client.receive_ack(ack).unwrap();
    assert_eq!(client.phase(), Phase::Ended);
    assert_eq!(client.recorded_end(), Some(EndState::CheckMate));
    assert_eq!(client.board_moves().as_slice(), &[m]);
}

// Forfeit is idempotent with respect to termination: a second forfeit
// after the end is a no-op.
#[test]
fn second_forfeit_after_the_end_is_a_no_op() {
    let (mut host, mut client) = playing_pair(Color::White, Color::Black);
    let bye = client.forfeit_game().unwrap();
    assert_eq!(bye, MoveMsg::forfeit_signal());
    assert_eq!(client.phase(), Phase::Ended);

    assert_eq!(host.receive_move(bye, true, GameStatus::InProgress).unwrap(), None);
    assert_eq!(host.phase(), Phase::Ended);
    assert_eq!(host.recorded_end(), None);

    let again = MoveMsg::forfeit_signal();
    assert_eq!(host.receive_move(again, true, GameStatus::InProgress).unwrap(), None);
    assert_eq!(host.phase(), Phase::Ended);
    assert_eq!(host.recorded_end(), None);
    assert!(host.board_moves().is_empty());
}

#[test]
fn forfeiting_twice_locally_is_refused() {
    let (mut host, _) = playing_pair(Color::White, Color::Black);
    host.forfeit_game().unwrap();
    assert_eq!(host.forfeit_game(), Err(SessionError::WrongPhase));
}

// Draw offer round trip, acceptance: both sides end with a recorded draw.
#[test]
fn draw_offer_accepted_ends_both_sides() {
    let (mut host, mut client) = playing_pair(Color::White, Color::Black);
    let offer = host.offer_draw().unwrap();
    assert_eq!(offer, MoveMsg::draw_offer_signal());
    assert_eq!(host.phase(), Phase::DrawOfferPending);
    assert_eq!(host.draw_offer_state(), DrawOffer::SentByLocal);

    assert_eq!(client.receive_move(offer, true, GameStatus::InProgress).unwrap(), None);
    assert_eq!(client.draw_offer_state(), DrawOffer::ReceivedFromRemote);

    let ack = client.accept_draw().unwrap();
    assert_eq!(ack, AckMsg { ok: true, end_state: Some(EndState::Draw) });
    assert_eq!(client.phase(), Phase::Ended);
    assert_eq!(client.recorded_end(), Some(EndState::Draw));

    host.receive_ack(ack).unwrap();
    assert_eq!(host.phase(), Phase::Ended);
    assert_eq!(host.recorded_end(), Some(EndState::Draw));
}

// Draw offer round trip, rejection: both sides keep playing with the
// offer flag cleared.
#[test]
fn draw_offer_rejected_leaves_both_sides_playing() {
    let (mut host, mut client) = playing_pair(Color::White, Color::Black);
    let offer = client.offer_draw().unwrap();
    assert_eq!(host.receive_move(offer, true, GameStatus::InProgress).unwrap(), None);

    let ack = host.reject_draw().unwrap();
    assert_eq!(ack, AckMsg { ok: false, end_state: None });
    assert_eq!(host.phase(), Phase::Playing);
    assert_eq!(host.draw_offer_state(), DrawOffer::Absent);

    client.receive_ack(ack).unwrap();
    assert_eq!(client.phase(), Phase::Playing);
    assert_eq!(client.draw_offer_state(), DrawOffer::Absent);
}

#[test]
fn offering_a_draw_twice_is_refused() {
    let (mut host, _) = playing_pair(Color::White, Color::Black);
    host.offer_draw().unwrap();
    assert_eq!(host.offer_draw(), Err(SessionError::WrongPhase));
    assert_eq!(host.draw_offer_state(), DrawOffer::SentByLocal);
}

#[test]
fn answering_a_draw_nobody_offered_is_refused() {
    let (mut host, _) = playing_pair(Color::White, Color::Black);
    assert_eq!(host.accept_draw(), Err(SessionError::NoDrawOffer));
    assert_eq!(host.reject_draw(), Err(SessionError::NoDrawOffer));
    assert_eq!(host.phase(), Phase::Playing);
}

#[test]
fn plain_move_during_handshake_is_refused() {
    let mut host = Session::new();
    host.choose_color(Color::White).unwrap();
    host.host_game().unwrap();
    host.accept_peer().unwrap();
    let m = MoveMsg::plain(4, 1, 4, 3, None);
    assert_eq!(
        host.receive_move(m, true, GameStatus::InProgress),
        Err(SessionError::WrongPhase),
    );
    assert_eq!(host.phase(), Phase::Handshaking);
}

#[test]
fn messages_after_the_end_are_ignored() {
    let (mut host, _) = playing_pair(Color::White, Color::Black);
    host.forfeit_game().unwrap();
    let m = MoveMsg::plain(4, 1, 4, 3, None);
    assert_eq!(host.receive_move(m, true, GameStatus::InProgress).unwrap(), None);
    assert!(host.board_moves().is_empty());
    assert_eq!(host.receive_ack(AckMsg { ok: true, end_state: None }), Ok(()));
    assert_eq!(host.phase(), Phase::Ended);
}

#[test]
fn forfeit_during_handshake_ends_the_session() {
    let mut host = Session::new();
    host.choose_color(Color::White).unwrap();
    host.host_game().unwrap();
    host.accept_peer().unwrap();
    assert_eq!(
        host.receive_move(MoveMsg::forfeit_signal(), true, GameStatus::InProgress).unwrap(),
        None,
    );
    assert_eq!(host.phase(), Phase::Ended);
    assert_eq!(host.recorded_end(), None);
}
