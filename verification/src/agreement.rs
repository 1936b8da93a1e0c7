//! Laws about two cooperating peers.
//!
//! Each session only sees its own half of the protocol; the proofs here
//! compose the two halves through the messages that cross the wire and
//! show that the peers stay in agreement: the handshake assigns
//! complementary colors, a confirmed host move leaves the two board logs
//! equal, a draw offer resolves the same way on both sides, and forfeit
//! is idempotent with respect to termination.  Alongside stand the
//! lifecycle laws of a single session: `Ended` is terminal, the role is
//! set once, and the color assignment never changes during play.

use vstd::prelude::*;

use crate::msg::AckMsg;
use crate::msg::Color;
use crate::msg::EndState;
use crate::msg::GameStatus;
use crate::msg::MoveMsg;
use crate::msg::StartView;
use crate::session::DrawOffer;
use crate::session::Phase;
use crate::session::Role;
use crate::session::SessionError;
use crate::session::SessionView;
use crate::session::in_play;
use crate::session::spec_accept_draw;
use crate::session::spec_accept_peer;
use crate::session::spec_choose_color;
use crate::session::spec_forfeit_game;
use crate::session::spec_host_game;
use crate::session::spec_join_succeeded;
use crate::session::spec_offer_draw;
use crate::session::spec_propose_move;
use crate::session::spec_receive_ack;
use crate::session::spec_receive_move;
use crate::session::spec_receive_start;
use crate::session::spec_reject_draw;

verus! {

/// Law: the color handshake never touches the host's choice and assigns
/// the client the complement, so afterwards exactly one side is White.
///
/// The host handles the client's request `req` and produces the echo;
/// the client handles the echo.  Both end up playing, the host's color
/// is what it was, and the client's color is the opposite — whether the
/// request collided with the host's choice or not.
pub proof fn lemma_color_handshake(h: SessionView, c: SessionView, req: StartView)
    requires
        h.wf(),
        c.wf(),
        h.phase == Phase::Handshaking,
        h.role == Role::Host,
        h.local_color is Some,
        c.phase == Phase::Handshaking,
        c.role == Role::Client,
    ensures
        ({
            let (h1, reply) = spec_receive_start(h, req);
            &&& reply matches Ok(Some(echo)) && {
                let (c1, creply) = spec_receive_start(c, echo);
                &&& creply == Ok::<Option<StartView>, SessionError>(None)
                &&& h1.phase == Phase::Playing
                &&& c1.phase == Phase::Playing
                &&& h1.local_color == h.local_color
                &&& c1.local_color matches Some(cc) && h.local_color matches Some(hc) && cc
                    == hc.spec_opposite()
                &&& (h1.local_color == Some(Color::White)) <==> (c1.local_color == Some(
                    Color::Black,
                ))
                &&& h1.colors_complementary()
                &&& c1.colors_complementary()
                &&& h1.wf()
                &&& c1.wf()
            }
        }),
{
}

/// Law: a legal move proposed by the host and applied by the client
/// leaves the two board logs equal.
///
/// Starting from equal boards, the host stages `m`; the client receives
/// `m`, applies it unconditionally and acks `ok`; the host receives that
/// ack and applies its staged move.  Both boards are then the old common
/// board extended by `m`.  The client's engine hints `cl` and `cs` are
/// arbitrary: a client trusts the host and ignores them.
pub proof fn lemma_host_move_keeps_boards_equal(
    h: SessionView,
    c: SessionView,
    m: MoveMsg,
    cl: bool,
    cs: GameStatus,
)
    requires
        h.wf(),
        c.wf(),
        h.board == c.board,
        h.phase == Phase::Playing,
        h.pending_outbound is None,
        in_play(c.phase),
        c.role == Role::Client,
        m.is_plain(),
        m.wf(),
    ensures
        ({
            let (h1, sent) = spec_propose_move(h, m, true);
            let (c1, creply) = spec_receive_move(c, m, cl, cs);
            &&& sent == Ok::<MoveMsg, SessionError>(m)
            &&& creply matches Ok(Some(ack)) && ack.ok && {
                let (h2, hreply) = spec_receive_ack(h1, ack);
                &&& hreply == Ok::<(), SessionError>(())
                &&& h2.board == c1.board
                &&& h2.board == h.board.push(m)
                &&& h2.pending_outbound is None
                &&& h2.wf()
                &&& c1.wf()
            }
        }),
{
}

/// Law: a draw offer followed by acceptance ends the session on both
/// sides with a recorded draw.
///
/// The offerer `o` sends the offer; the receiver `r` sees it, and its
/// user accepts; the acceptance ack comes back to the offerer.  Both
/// sides are then `Ended` with `Draw` recorded.  The receiver's engine
/// hints `bl` and `bs` are arbitrary: a draw offer carries no move.
pub proof fn lemma_draw_offer_accepted(
    o: SessionView,
    r: SessionView,
    bl: bool,
    bs: GameStatus,
)
    requires
        o.wf(),
        r.wf(),
        o.phase == Phase::Playing,
        r.phase == Phase::Playing,
    ensures
        ({
            let (o1, sent) = spec_offer_draw(o);
            let (r1, seen) = spec_receive_move(r, MoveMsg::spec_draw_offer_msg(), bl, bs);
            let (r2, ack) = spec_accept_draw(r1);
            &&& sent == Ok::<MoveMsg, SessionError>(MoveMsg::spec_draw_offer_msg())
            &&& seen == Ok::<Option<AckMsg>, SessionError>(None)
            &&& r1.draw_offer == DrawOffer::ReceivedFromRemote
            &&& ack matches Ok(a) && a == (AckMsg {
                ok: true,
                end_state: Some(EndState::Draw),
            }) && {
                let (o2, back) = spec_receive_ack(o1, a);
                &&& back == Ok::<(), SessionError>(())
                &&& o2.phase == Phase::Ended
                &&& o2.recorded_end == Some(EndState::Draw)
                &&& r2.phase == Phase::Ended
                &&& r2.recorded_end == Some(EndState::Draw)
                &&& o2.wf()
                &&& r2.wf()
            }
        }),
{
}

/// Law: a draw offer followed by rejection leaves both sides playing
/// with the offer flag cleared.
pub proof fn lemma_draw_offer_rejected(
    o: SessionView,
    r: SessionView,
    bl: bool,
    bs: GameStatus,
)
    requires
        o.wf(),
        r.wf(),
        o.phase == Phase::Playing,
        r.phase == Phase::Playing,
    ensures
        ({
            let (o1, sent) = spec_offer_draw(o);
            let (r1, seen) = spec_receive_move(r, MoveMsg::spec_draw_offer_msg(), bl, bs);
            let (r2, ack) = spec_reject_draw(r1);
            &&& sent == Ok::<MoveMsg, SessionError>(MoveMsg::spec_draw_offer_msg())
            &&& seen == Ok::<Option<AckMsg>, SessionError>(None)
            &&& ack matches Ok(a) && a == (AckMsg { ok: false, end_state: None }) && {
                let (o2, back) = spec_receive_ack(o1, a);
                &&& back == Ok::<(), SessionError>(())
                &&& o2.phase == Phase::Playing
                &&& o2.draw_offer == DrawOffer::Absent
                &&& r2.phase == Phase::Playing
                &&& r2.draw_offer == DrawOffer::Absent
                &&& o2.wf()
                &&& r2.wf()
            }
        }),
{
}

/// Law: a session's life cycle is irreversible — `Ended` is terminal.
/// Once a session has ended, every user intent is refused and every
/// incoming message is ignored: no transition changes the state.
pub proof fn lemma_ended_is_terminal(
    s: SessionView,
    c: Color,
    m: MoveMsg,
    st: StartView,
    a: AckMsg,
    legal: bool,
    status: GameStatus,
)
    requires
        s.wf(),
        s.phase == Phase::Ended,
    ensures
        spec_choose_color(s, c).0 == s,
        spec_host_game(s).0 == s,
        spec_accept_peer(s).0 == s,
        spec_join_succeeded(s).0 == s,
        spec_receive_start(s, st).0 == s,
        spec_propose_move(s, m, legal).0 == s,
        spec_receive_move(s, m, legal, status).0 == s,
        spec_receive_ack(s, a).0 == s,
        spec_offer_draw(s).0 == s,
        spec_forfeit_game(s).0 == s,
        spec_accept_draw(s).0 == s,
        spec_reject_draw(s).0 == s,
{
}

/// Law: the connection role is set once a connection exists and is
/// immutable thereafter: no transition changes a host's or a client's
/// role.
pub proof fn lemma_role_is_set_once(
    s: SessionView,
    c: Color,
    m: MoveMsg,
    st: StartView,
    a: AckMsg,
    legal: bool,
    status: GameStatus,
)
    requires
        s.wf(),
        s.role != Role::Unconnected,
    ensures
        spec_choose_color(s, c).0.role == s.role,
        spec_host_game(s).0.role == s.role,
        spec_accept_peer(s).0.role == s.role,
        spec_join_succeeded(s).0.role == s.role,
        spec_receive_start(s, st).0.role == s.role,
        spec_propose_move(s, m, legal).0.role == s.role,
        spec_receive_move(s, m, legal, status).0.role == s.role,
        spec_receive_ack(s, a).0.role == s.role,
        spec_offer_draw(s).0.role == s.role,
        spec_forfeit_game(s).0.role == s.role,
        spec_accept_draw(s).0.role == s.role,
        spec_reject_draw(s).0.role == s.role,
{
}

/// Law: once the handshake has fixed the colors, they never change: no
/// transition out of a playing state touches the local assignment.
pub proof fn lemma_colors_fixed_during_play(
    s: SessionView,
    c: Color,
    m: MoveMsg,
    st: StartView,
    a: AckMsg,
    legal: bool,
    status: GameStatus,
)
    requires
        s.wf(),
        in_play(s.phase),
    ensures
        spec_choose_color(s, c).0.local_color == s.local_color,
        spec_receive_start(s, st).0.local_color == s.local_color,
        spec_propose_move(s, m, legal).0.local_color == s.local_color,
        spec_receive_move(s, m, legal, status).0.local_color == s.local_color,
        spec_receive_ack(s, a).0.local_color == s.local_color,
        spec_offer_draw(s).0.local_color == s.local_color,
        spec_forfeit_game(s).0.local_color == s.local_color,
        spec_accept_draw(s).0.local_color == s.local_color,
        spec_reject_draw(s).0.local_color == s.local_color,
{
}

/// Law: forfeit is idempotent with respect to termination.  The first
/// forfeit ends the session; a second forfeit arriving after the end
/// changes nothing and is answered by nothing.
pub proof fn lemma_forfeit_idempotent(s: SessionView, bl: bool, bs: GameStatus)
    requires
        s.phase != Phase::Lobby,
        s.phase != Phase::AwaitingPeer,
    ensures
        ({
            let (s1, first) = spec_receive_move(s, MoveMsg::spec_forfeit_msg(), bl, bs);
            let (s2, second) = spec_receive_move(s1, MoveMsg::spec_forfeit_msg(), bl, bs);
            &&& s1.phase == Phase::Ended
            &&& s2 == s1
            &&& second == Ok::<Option<AckMsg>, SessionError>(None)
        }),
{
}

} // verus!

