//! The session state machine.
//!
//! A `Session` owns one side of the protocol: the connection role, the
//! local and remote color assignment, the single in-flight move slot, the
//! draw/forfeit signalling, and the log of moves applied to the local
//! board.  All mutation goes through its methods; each method's contract
//! states the exact state transition as a spec function over the session's
//! mathematical view, so that the laws about two cooperating peers can be
//! proved from the contracts alone.
//!
//! The board engine (move legality, game result) and the transport are
//! collaborators outside the crate: their verdicts (`legal`, `status`) and
//! events (peer accepted, connection established, message received) are
//! handed in as plain values, and the messages to send are handed back.

use vstd::prelude::*;

use crate::msg::AckMsg;
use crate::msg::Color;
use crate::msg::EndState;
use crate::msg::GameStatus;
use crate::msg::MoveMsg;
use crate::msg::StartMsg;
use crate::msg::StartView;
use crate::msg::spec_ack_end_of;

verus! {

/// Which side of the connection this session is.  Set once a connection
/// exists; immutable thereafter.
#[derive(Clone, Copy, Debug, PartialEq, Eq, Structural)]
pub enum Role {
    Unconnected,
    Host,
    Client,
}

/// Where the session stands in its life cycle.  The phase moves
/// irreversibly toward `Ended`: a finished session is never resurrected.
#[derive(Clone, Copy, Debug, PartialEq, Eq, Structural)]
pub enum Phase {
    Lobby,
    AwaitingPeer,
    Handshaking,
    Playing,
    DrawOfferPending,
    Ended,
}

/// Whether a draw offer is outstanding, and who made it.
#[derive(Clone, Copy, Debug, PartialEq, Eq, Structural)]
pub enum DrawOffer {
    Absent,
    SentByLocal,
    ReceivedFromRemote,
}

/// Why a session method refused to act.  No error changes the session's
/// state.
#[derive(Clone, Copy, Debug, PartialEq, Eq, Structural)]
pub enum SessionError {
    /// The intent or message does not fit the current phase or role.
    WrongPhase,
    /// A proposed move is already in flight; staging a second one is
    /// refused, never overwritten.
    MovePending,
    /// The local legality pre-check rejected the move.
    IllegalMove,
    /// The handshake needs a locally chosen color first.
    NoColorChosen,
    /// There is no received draw offer to answer.
    NoDrawOffer,
    /// An ack arrived with nothing outstanding: a protocol desync.
    Desync,
}

/// The mathematical image of a `Session`.
#[verifier::ext_equal]
pub ghost struct SessionView {
    pub role: Role,
    pub local_color: Option<Color>,
    pub remote_start: Option<StartView>,
    pub pending_outbound: Option<MoveMsg>,
    pub phase: Phase,
    pub draw_offer: DrawOffer,
    pub board: Seq<MoveMsg>,
    pub recorded_end: Option<EndState>,
}

/// A phase in which moves flow: the game is on, possibly with a draw
/// offer outstanding.
pub open spec fn in_play(p: Phase) -> bool {
    p == Phase::Playing || p == Phase::DrawOfferPending
}

impl SessionView {
    /// The session a freshly created `Session` denotes.
    pub open spec fn initial() -> SessionView {
        SessionView {
            role: Role::Unconnected,
            local_color: None,
            remote_start: None,
            pending_outbound: None,
            phase: Phase::Lobby,
            draw_offer: DrawOffer::Absent,
            board: Seq::empty(),
            recorded_end: None,
        }
    }

    /// The terminal state reached from `self`, recording `end` as the
    /// reported game end.  Termination clears the in-flight slot and any
    /// outstanding draw offer.
    pub open spec fn ended_with(self, end: Option<EndState>) -> SessionView {
        SessionView {
            phase: Phase::Ended,
            draw_offer: DrawOffer::Absent,
            pending_outbound: None,
            recorded_end: end,
            ..self
        }
    }

    /// The session's internal consistency: every constructor establishes
    /// it and every method preserves it.
    pub open spec fn wf(self) -> bool {
        &&& (self.phase == Phase::Lobby || self.phase == Phase::AwaitingPeer) ==> {
            &&& self.role == Role::Unconnected
            &&& self.remote_start is None
            &&& self.board.len() == 0
        }
        &&& self.phase == Phase::Handshaking ==> {
            &&& self.role != Role::Unconnected
            &&& self.remote_start is None
            &&& self.board.len() == 0
        }
        &&& in_play(self.phase) ==> {
            &&& self.role != Role::Unconnected
            &&& self.local_color is Some
            &&& self.remote_start is Some
        }
        &&& (self.draw_offer != DrawOffer::Absent) <==> (self.phase == Phase::DrawOfferPending)
        &&& self.pending_outbound matches Some(m) ==> in_play(self.phase) && m.is_plain()
            && m.wf()
        &&& self.recorded_end is Some ==> self.phase == Phase::Ended
        &&& in_play(self.phase) ==> (self.remote_start matches Some(rs) && rs.is_white == (
        self.local_color == Some(Color::Black)))
    }

    /// After the handshake, exactly one side of this session is White:
    /// the peer declared the complement of the local assignment.
    pub open spec fn colors_complementary(self) -> bool {
        self.remote_start matches Some(rs) ==> rs.is_white == (self.local_color == Some(
            Color::Black,
        ))
    }
}

/// The image of an optional handshake message.
pub open spec fn opt_start_view(o: Option<StartMsg>) -> Option<StartView> {
    match o {
        Some(s) => Some(s@),
        None => None,
    }
}

/// One side of the protocol: role, color assignment, the single in-flight
/// move slot, draw/forfeit signalling, and the log of moves applied to the
/// local board (oldest first).
pub struct Session {
    role: Role,
    local_color: Option<Color>,
    remote_start: Option<StartMsg>,
    pending_outbound: Option<MoveMsg>,
    phase: Phase,
    draw_offer: DrawOffer,
    board: Vec<MoveMsg>,
    recorded_end: Option<EndState>,
}

impl View for Session {
    type V = SessionView;

    closed spec fn view(&self) -> SessionView {
        SessionView {
            role: self.role,
            local_color: self.local_color,
            remote_start: opt_start_view(self.remote_start),
            pending_outbound: self.pending_outbound,
            phase: self.phase,
            draw_offer: self.draw_offer,
            board: self.board@,
            recorded_end: self.recorded_end,
        }
    }
}

/// Choosing a color before the handshake: allowed until the handshake has
/// resolved the assignment.
pub open spec fn spec_choose_color(s: SessionView, c: Color) -> (SessionView, Result<
    (),
    SessionError,
>) {
    if s.phase == Phase::Lobby || s.phase == Phase::AwaitingPeer || s.phase
        == Phase::Handshaking {
        (SessionView { local_color: Some(c), ..s }, Ok(()))
    } else {
        (s, Err(SessionError::WrongPhase))
    }
}

/// Starting to listen for a peer: only a fresh session can host.
pub open spec fn spec_host_game(s: SessionView) -> (SessionView, Result<(), SessionError>) {
    if s.phase == Phase::Lobby {
        (SessionView { phase: Phase::AwaitingPeer, ..s }, Ok(()))
    } else {
        (s, Err(SessionError::WrongPhase))
    }
}

/// A peer connected to the listening side: the session becomes the host
/// and the handshake begins.
pub open spec fn spec_accept_peer(s: SessionView) -> (SessionView, Result<(), SessionError>) {
    if s.phase == Phase::AwaitingPeer {
        (SessionView { role: Role::Host, phase: Phase::Handshaking, ..s }, Ok(()))
    } else {
        (s, Err(SessionError::WrongPhase))
    }
}

/// An outbound connection succeeded: the session becomes the client and
/// the handshake begins.  A failed connection attempt is no event: the
/// session simply stays in the lobby.
pub open spec fn spec_join_succeeded(s: SessionView) -> (SessionView, Result<(), SessionError>) {
    if s.phase == Phase::Lobby {
        (SessionView { role: Role::Client, phase: Phase::Handshaking, ..s }, Ok(()))
    } else {
        (s, Err(SessionError::WrongPhase))
    }
}

/// The host's conflict resolution for the color handshake: a client
/// request that collides with the host's own choice is flipped to the
/// opposite color; any other request is honored.  Either way the client
/// lands on the complement of the host's color, which never changes.
pub open spec fn spec_resolve_client_color(host_white: bool, requested_white: bool) -> bool {
    if requested_white && host_white {
        false
    } else if !requested_white && !host_white {
        true
    } else {
        requested_white
    }
}

/// Returns the color the host assigns to the client (as "client is
/// white"), given the host's own color and the client's request.
#[verifier::when_used_as_spec(spec_resolve_client_color)]
pub fn resolve_client_color(host_white: bool, requested_white: bool) -> (r: bool)
    ensures
        r == spec_resolve_client_color(host_white, requested_white),
        r == !host_white,
{
    if requested_white && host_white {
        false
    } else if !requested_white && !host_white {
        true
    } else {
        requested_white
    }
}

/// The client's side of sending the handshake request: which color flag
/// the request carries, or why nothing may be sent.
pub open spec fn spec_send_start(s: SessionView) -> Result<bool, SessionError> {
    if s.phase != Phase::Handshaking || s.role != Role::Client {
        Err(SessionError::WrongPhase)
    } else {
        match s.local_color {
            None => Err(SessionError::NoColorChosen),
            Some(c) => Ok(c == Color::White),
        }
    }
}

/// Receiving a handshake message.
///
/// The host resolves the client's requested color against its own fixed
/// choice, stores the peer's resolved assignment, enters play, and echoes
/// a `Start` that declares the host's own color (with the advisory fields
/// carried back unchanged).  The client reads the echoed host color,
/// takes the complement as its own assignment, stores the peer's
/// declaration, and enters play with nothing to send.
pub open spec fn spec_receive_start(s: SessionView, m: StartView) -> (SessionView, Result<
    Option<StartView>,
    SessionError,
>) {
    if s.phase != Phase::Handshaking {
        (s, Err(SessionError::WrongPhase))
    } else if s.role == Role::Host {
        match s.local_color {
            None => (s, Err(SessionError::NoColorChosen)),
            Some(hc) => {
                let host_white = hc == Color::White;
                let client_white = spec_resolve_client_color(host_white, m.is_white);
                (
                    SessionView {
                        remote_start: Some(StartView { is_white: client_white, ..m }),
                        phase: Phase::Playing,
                        ..s
                    },
                    Ok(Some(StartView { is_white: host_white, ..m })),
                )
            },
        }
    } else if s.role == Role::Client {
        (
            SessionView {
                local_color: Some(
                    if m.is_white {
                        Color::Black
                    } else {
                        Color::White
                    },
                ),
                remote_start: Some(m),
                phase: Phase::Playing,
                ..s
            },
            Ok(None),
        )
    } else {
        (s, Err(SessionError::WrongPhase))
    }
}

/// Staging a move the local user proposes.  The single in-flight slot is
/// guarded: while a proposed move awaits its ack, a second one is
/// refused, never overwritten.  A staged move is not yet applied to the
/// local board; that happens when the peer acknowledges it.
pub open spec fn spec_propose_move(s: SessionView, m: MoveMsg, legal: bool) -> (SessionView, Result<
    MoveMsg,
    SessionError,
>) {
    if !in_play(s.phase) {
        (s, Err(SessionError::WrongPhase))
    } else if s.pending_outbound is Some {
        (s, Err(SessionError::MovePending))
    } else if !m.is_plain() || !m.wf() || !legal {
        (s, Err(SessionError::IllegalMove))
    } else {
        (SessionView { pending_outbound: Some(m), ..s }, Ok(m))
    }
}

/// Receiving a `Move` message.  A forfeit flag ends the session
/// unilaterally, with no ack, in any connected phase — the peer has
/// already gone.  A draw-offer flag records the outstanding
/// offer, to be answered by the local user.  A plain move is applied
/// unconditionally by a client (the host is authoritative), and applied
/// by the host only if its own engine found it legal; either way the host
/// acks with its verdict and the engine's reported end state.  The host
/// itself stays in play even when it reports a game end: the end it
/// reports is recorded by the peer whose ack carries it, while the host's
/// own display reads the engine's result directly.  A finished session
/// ignores every message.
pub open spec fn spec_receive_move(
    s: SessionView,
    m: MoveMsg,
    legal: bool,
    status: GameStatus,
) -> (SessionView, Result<Option<AckMsg>, SessionError>) {
    if s.phase == Phase::Ended {
        (s, Ok(None))
    } else if m.forfeit {
        if s.phase == Phase::Lobby || s.phase == Phase::AwaitingPeer {
            (s, Err(SessionError::WrongPhase))
        } else {
            (s.ended_with(None), Ok(None))
        }
    } else if m.offer_draw {
        if s.phase == Phase::Playing {
            (
                SessionView {
                    draw_offer: DrawOffer::ReceivedFromRemote,
                    phase: Phase::DrawOfferPending,
                    ..s
                },
                Ok(None),
            )
        } else {
            (s, Err(SessionError::WrongPhase))
        }
    } else if !in_play(s.phase) {
        (s, Err(SessionError::WrongPhase))
    } else if s.role == Role::Client {
        (
            SessionView { board: s.board.push(m), ..s },
            Ok(Some(AckMsg { ok: true, end_state: None })),
        )
    } else if s.role == Role::Host {
        (
            SessionView {
                board: if legal {
                    s.board.push(m)
                } else {
                    s.board
                },
                ..s
            },
            Ok(Some(AckMsg { ok: legal, end_state: spec_ack_end_of(status) })),
        )
    } else {
        (s, Err(SessionError::WrongPhase))
    }
}

/// Receiving an `Ack`.  While a locally sent draw offer is outstanding,
/// the ack answers that offer: acceptance ends the session with a
/// recorded draw, rejection clears the offer and play goes on.  Otherwise
/// the ack resolves the in-flight move: on `ok` the staged move is
/// applied to the local board, on refusal it is discarded; either way the
/// slot is cleared, and a carried end state ends the session.  An ack
/// with nothing outstanding is a protocol desync and is refused loudly.
/// A finished session ignores every message.
pub open spec fn spec_receive_ack(s: SessionView, a: AckMsg) -> (SessionView, Result<
    (),
    SessionError,
>) {
    if s.phase == Phase::Ended {
        (s, Ok(()))
    } else if s.draw_offer == DrawOffer::SentByLocal {
        if a.ok {
            (s.ended_with(Some(EndState::Draw)), Ok(()))
        } else {
            (SessionView { draw_offer: DrawOffer::Absent, phase: Phase::Playing, ..s }, Ok(()))
        }
    } else {
        match s.pending_outbound {
            Some(pm) => {
                let applied = SessionView {
                    board: if a.ok {
                        s.board.push(pm)
                    } else {
                        s.board
                    },
                    pending_outbound: None,
                    ..s
                };
                if a.end_state is Some {
                    (applied.ended_with(a.end_state), Ok(()))
                } else {
                    (applied, Ok(()))
                }
            },
            None => (s, Err(SessionError::Desync)),
        }
    }
}

/// Offering a draw: the offer goes out and waits for the peer's ack.
pub open spec fn spec_offer_draw(s: SessionView) -> (SessionView, Result<MoveMsg, SessionError>) {
    if s.phase != Phase::Playing {
        (s, Err(SessionError::WrongPhase))
    } else {
        (
            SessionView { draw_offer: DrawOffer::SentByLocal, phase: Phase::DrawOfferPending, ..s },
            Ok(MoveMsg::spec_draw_offer_msg()),
        )
    }
}

/// Forfeiting: the local side ends at once, unilaterally and
/// unacknowledged; the returned signal is the last message to send.
pub open spec fn spec_forfeit_game(s: SessionView) -> (SessionView, Result<MoveMsg, SessionError>) {
    if !in_play(s.phase) {
        (s, Err(SessionError::WrongPhase))
    } else {
        (s.ended_with(None), Ok(MoveMsg::spec_forfeit_msg()))
    }
}

/// Accepting a received draw offer: the session ends with a recorded
/// draw, and the acceptance ack is the last message to send.
pub open spec fn spec_accept_draw(s: SessionView) -> (SessionView, Result<AckMsg, SessionError>) {
    if s.draw_offer != DrawOffer::ReceivedFromRemote {
        (s, Err(SessionError::NoDrawOffer))
    } else {
        (
            s.ended_with(Some(EndState::Draw)),
            Ok(AckMsg { ok: true, end_state: Some(EndState::Draw) }),
        )
    }
}

/// Rejecting a received draw offer: the offer is cleared, play goes on,
/// and the rejection ack is sent.
pub open spec fn spec_reject_draw(s: SessionView) -> (SessionView, Result<AckMsg, SessionError>) {
    if s.draw_offer != DrawOffer::ReceivedFromRemote {
        (s, Err(SessionError::NoDrawOffer))
    } else {
        (
            SessionView { draw_offer: DrawOffer::Absent, phase: Phase::Playing, ..s },
            Ok(AckMsg { ok: false, end_state: None }),
        )
    }
}

/// The image of a handshake reply.
pub open spec fn start_reply_view(r: Result<Option<StartMsg>, SessionError>) -> Result<
    Option<StartView>,
    SessionError,
> {
    match r {
        Ok(Some(m)) => Ok(Some(m@)),
        Ok(None) => Ok(None),
        Err(e) => Err(e),
    }
}

impl Session {
    /// A fresh, unconnected session in the lobby.
    pub fn new() -> (r: Session)
        ensures
            r@ == SessionView::initial(),
            r@.wf(),
    {
        Session {
            role: Role::Unconnected,
            local_color: None,
            remote_start: None,
            pending_outbound: None,
            phase: Phase::Lobby,
            draw_offer: DrawOffer::Absent,
            board: Vec::new(),
            recorded_end: None,
        }
    }

    /// The local user picks a color.  Allowed any time before the
    /// handshake has resolved the assignment; refused afterwards.
    pub fn choose_color(&mut self, c: Color) -> (r: Result<(), SessionError>)
        ensures
            (final(self)@, r) == spec_choose_color(old(self)@, c),
            old(self)@.wf() ==> final(self)@.wf(),
    {
        match self.phase {
            Phase::Lobby | Phase::AwaitingPeer | Phase::Handshaking => {
                self.local_color = Some(c);
                Ok(())
            },
            _ => Err(SessionError::WrongPhase),
        }
    }

    /// The local user asks to host a game: the session starts waiting for
    /// a peer.  The listening socket itself lives with the caller, which
    /// reports a successful accept through `accept_peer`.
    pub fn host_game(&mut self) -> (r: Result<(), SessionError>)
        ensures
            (final(self)@, r) == spec_host_game(old(self)@),
            old(self)@.wf() ==> final(self)@.wf(),
    {
        match self.phase {
            Phase::Lobby => {
                self.phase = Phase::AwaitingPeer;
                Ok(())
            },
            _ => Err(SessionError::WrongPhase),
        }
    }

    /// The caller's non-blocking accept poll found a peer: this side is
    /// now the host, and the color handshake begins.
    pub fn accept_peer(&mut self) -> (r: Result<(), SessionError>)
        ensures
            (final(self)@, r) == spec_accept_peer(old(self)@),
            old(self)@.wf() ==> final(self)@.wf(),
    {
        match self.phase {
            Phase::AwaitingPeer => {
                self.role = Role::Host;
                self.phase = Phase::Handshaking;
                Ok(())
            },
            _ => Err(SessionError::WrongPhase),
        }
    }

    /// The caller's outbound connection attempt succeeded: this side is
    /// now the client, and the color handshake begins.
    pub fn join_succeeded(&mut self) -> (r: Result<(), SessionError>)
        ensures
            (final(self)@, r) == spec_join_succeeded(old(self)@),
            old(self)@.wf() ==> final(self)@.wf(),
    {
        match self.phase {
            Phase::Lobby => {
                self.role = Role::Client;
                self.phase = Phase::Handshaking;
                Ok(())
            },
            _ => Err(SessionError::WrongPhase),
        }
    }

    /// Builds the client's handshake request once the user confirms: a
    /// `Start` carrying the locally requested color and the advisory
    /// fields given.  Only a client in the handshake phase with a chosen
    /// color may send one; the session itself does not change until the
    /// host's echo arrives.
    pub fn send_start(
        &self,
        name: Option<String>,
        fen: Option<String>,
        time: Option<u32>,
        inc: Option<u32>,
    ) -> (r: Result<StartMsg, SessionError>)
        ensures
            r matches Ok(m) ==> {
                &&& spec_send_start(self@) == Ok::<bool, SessionError>(m.is_white)
                &&& m@.name == crate::msg::opt_text_view(name)
                &&& m@.fen == crate::msg::opt_text_view(fen)
                &&& m@.time == time
                &&& m@.inc == inc
            },
            r matches Err(e) ==> spec_send_start(self@) == Err::<bool, SessionError>(e),
    {
        if self.phase != Phase::Handshaking || self.role != Role::Client {
            return Err(SessionError::WrongPhase);
        }
        match self.local_color {
            None => Err(SessionError::NoColorChosen),
            Some(c) => Ok(
                StartMsg { is_white: c == Color::White, name, fen, time, inc },
            ),
        }
    }

    /// Handles an incoming handshake message, as `spec_receive_start`
    /// states: the host resolves the color conflict, stores the peer's
    /// assignment, enters play and returns the echo to send back; the
    /// client adopts the complement of the echoed host color, stores the
    /// peer's declaration, and enters play with nothing to send.
    pub fn receive_start(&mut self, s: StartMsg) -> (r: Result<Option<StartMsg>, SessionError>)
        ensures
            (final(self)@, start_reply_view(r)) == spec_receive_start(old(self)@, s@),
            old(self)@.wf() ==> final(self)@.wf(),
    {
        if self.phase != Phase::Handshaking {
            return Err(SessionError::WrongPhase);
        }
        match self.role {
            Role::Host => match self.local_color {
                None => Err(SessionError::NoColorChosen),
                Some(hc) => {
                    let host_white = hc == Color::White;
                    let client_white = resolve_client_color(host_white, s.is_white);
                    let echo = StartMsg { is_white: host_white, ..s.duplicate() };
                    self.remote_start = Some(StartMsg { is_white: client_white, ..s });
                    self.phase = Phase::Playing;
                    Ok(Some(echo))
                },
            },
            Role::Client => {
                self.local_color = Some(
                    if s.is_white {
                        Color::Black
                    } else {
                        Color::White
                    },
                );
                self.remote_start = Some(s);
                self.phase = Phase::Playing;
                Ok(None)
            },
            Role::Unconnected => Err(SessionError::WrongPhase),
        }
    }

    /// Stages a move the local user proposes, as `spec_propose_move`
    /// states.  `legal` is the local engine's defense-in-depth verdict
    /// that the move lies in the legal-move set of its origin square; the
    /// authoritative check happens on the host when the move arrives.  On
    /// success the returned message is handed to the transport, and no
    /// further move may be staged until an ack resolves this one.
    pub fn propose_move(&mut self, m: MoveMsg, legal: bool) -> (r: Result<MoveMsg, SessionError>)
        ensures
            (final(self)@, r) == spec_propose_move(old(self)@, m, legal),
            old(self)@.wf() ==> final(self)@.wf(),
            old(self)@.wf() && old(self)@.pending_outbound is Some ==> r == Err::<
                MoveMsg,
                SessionError,
            >(SessionError::MovePending) && final(self)@ == old(self)@,
    {
        match self.phase {
            Phase::Playing | Phase::DrawOfferPending => {},
            _ => {
                return Err(SessionError::WrongPhase);
            },
        }
        if self.pending_outbound.is_some() {
            return Err(SessionError::MovePending);
        }
        if m.forfeit || m.offer_draw || m.from_file >= 8 || m.from_rank >= 8 || m.to_file >= 8
            || m.to_rank >= 8 || !legal {
            return Err(SessionError::IllegalMove);
        }
        self.pending_outbound = Some(m);
        Ok(m)
    }

    /// Handles an incoming `Move` message, as `spec_receive_move` states.
    ///
    /// For a host receiving a plain move, the caller first asks its board
    /// engine whether the move lies in the legal-move set of its claimed
    /// origin square (`legal`), applies it to the engine's board if so,
    /// and passes the engine's game result afterwards (`status`); the ack
    /// to send back carries that verdict.  A client ignores both hints:
    /// it trusts the host, applies unconditionally and acks `ok`.  A
    /// forfeit flag ends the session with no ack; a draw-offer flag
    /// records the outstanding offer; a finished session ignores every
    /// message, so a forfeit arriving after the end is a no-op.
    pub fn receive_move(&mut self, m: MoveMsg, legal: bool, status: GameStatus) -> (r: Result<
        Option<AckMsg>,
        SessionError,
    >)
        ensures
            (final(self)@, r) == spec_receive_move(old(self)@, m, legal, status),
            old(self)@.wf() ==> final(self)@.wf(),
            old(self)@.phase == Phase::Ended ==> final(self)@ == old(self)@ && r == Ok::<
                Option<AckMsg>,
                SessionError,
            >(None),
            old(self)@.role == Role::Host && in_play(old(self)@.phase) && m.is_plain() && !legal
                ==> final(self)@.board == old(self)@.board && r == Ok::<
                Option<AckMsg>,
                SessionError,
            >(Some(AckMsg { ok: false, end_state: spec_ack_end_of(status) })),
    {
        if self.phase == Phase::Ended {
            return Ok(None);
        }
        if m.forfeit {
            return match self.phase {
                Phase::Lobby | Phase::AwaitingPeer => Err(SessionError::WrongPhase),
                _ => {
                    self.phase = Phase::Ended;
                    self.draw_offer = DrawOffer::Absent;
                    self.pending_outbound = None;
                    self.recorded_end = None;
                    Ok(None)
                },
            };
        }
        if m.offer_draw {
            return if self.phase == Phase::Playing {
                self.draw_offer = DrawOffer::ReceivedFromRemote;
                self.phase = Phase::DrawOfferPending;
                Ok(None)
            } else {
                Err(SessionError::WrongPhase)
            };
        }
        match self.phase {
            Phase::Playing | Phase::DrawOfferPending => {},
            _ => {
                return Err(SessionError::WrongPhase);
            },
        }
        match self.role {
            Role::Client => {
                self.board.push(m);
                Ok(Some(AckMsg { ok: true, end_state: None }))
            },
            Role::Host => {
                if legal {
                    self.board.push(m);
                }
                Ok(Some(AckMsg { ok: legal, end_state: crate::msg::ack_end_of(status) }))
            },
            Role::Unconnected => Err(SessionError::WrongPhase),
        }
    }

    /// Handles an incoming `Ack`, as `spec_receive_ack` states: it
    /// answers the outstanding draw offer if one was sent from here,
    /// otherwise it resolves the in-flight move; with nothing outstanding
    /// it is a protocol desync and is refused with the state unchanged.
    pub fn receive_ack(&mut self, a: AckMsg) -> (r: Result<(), SessionError>)
        ensures
            (final(self)@, r) == spec_receive_ack(old(self)@, a),
            old(self)@.wf() ==> final(self)@.wf(),
            old(self)@.phase == Phase::Ended ==> final(self)@ == old(self)@ && r == Ok::<
                (),
                SessionError,
            >(()),
    {
        if self.phase == Phase::Ended {
            return Ok(());
        }
        if self.draw_offer == DrawOffer::SentByLocal {
            if a.ok {
                self.phase = Phase::Ended;
                self.draw_offer = DrawOffer::Absent;
                self.pending_outbound = None;
                self.recorded_end = Some(EndState::Draw);
            } else {
                self.draw_offer = DrawOffer::Absent;
                self.phase = Phase::Playing;
            }
            return Ok(());
        }
        match self.pending_outbound {
            Some(pm) => {
                if a.ok {
                    self.board.push(pm);
                }
                self.pending_outbound = None;
                if a.end_state.is_some() {
                    self.phase = Phase::Ended;
                    self.draw_offer = DrawOffer::Absent;
                    self.recorded_end = a.end_state;
                }
                Ok(())
            },
            None => Err(SessionError::Desync),
        }
    }

    /// Offers the peer a draw, as `spec_offer_draw` states.  The returned
    /// signal is handed to the transport; the peer's ack will resolve the
    /// offer.
    pub fn offer_draw(&mut self) -> (r: Result<MoveMsg, SessionError>)
        ensures
            (final(self)@, r) == spec_offer_draw(old(self)@),
            old(self)@.wf() ==> final(self)@.wf(),
    {
        if self.phase == Phase::Playing {
            self.draw_offer = DrawOffer::SentByLocal;
            self.phase = Phase::DrawOfferPending;
            Ok(MoveMsg::draw_offer_signal())
        } else {
            Err(SessionError::WrongPhase)
        }
    }

    /// Forfeits the game, as `spec_forfeit_game` states: this side ends
    /// at once, and the returned signal is the last message the caller
    /// sends before closing the transport.  No ack is exchanged.
    pub fn forfeit_game(&mut self) -> (r: Result<MoveMsg, SessionError>)
        ensures
            (final(self)@, r) == spec_forfeit_game(old(self)@),
            old(self)@.wf() ==> final(self)@.wf(),
    {
        match self.phase {
            Phase::Playing | Phase::DrawOfferPending => {
                self.phase = Phase::Ended;
                self.draw_offer = DrawOffer::Absent;
                self.pending_outbound = None;
                self.recorded_end = None;
                Ok(MoveMsg::forfeit_signal())
            },
            _ => Err(SessionError::WrongPhase),
        }
    }

    /// Accepts the peer's draw offer, as `spec_accept_draw` states: the
    /// session ends with a recorded draw, and the returned ack is the
    /// last message the caller sends before closing the transport.
    pub fn accept_draw(&mut self) -> (r: Result<AckMsg, SessionError>)
        ensures
            (final(self)@, r) == spec_accept_draw(old(self)@),
            old(self)@.wf() ==> final(self)@.wf(),
    {
        if self.draw_offer == DrawOffer::ReceivedFromRemote {
            self.phase = Phase::Ended;
            self.draw_offer = DrawOffer::Absent;
            self.pending_outbound = None;
            self.recorded_end = Some(EndState::Draw);
            Ok(AckMsg { ok: true, end_state: Some(EndState::Draw) })
        } else {
            Err(SessionError::NoDrawOffer)
        }
    }

    /// Rejects the peer's draw offer, as `spec_reject_draw` states: the
    /// offer is cleared, play goes on, and the returned ack is handed to
    /// the transport.
    pub fn reject_draw(&mut self) -> (r: Result<AckMsg, SessionError>)
        ensures
            (final(self)@, r) == spec_reject_draw(old(self)@),
            old(self)@.wf() ==> final(self)@.wf(),
    {
        if self.draw_offer == DrawOffer::ReceivedFromRemote {
            self.draw_offer = DrawOffer::Absent;
            self.phase = Phase::Playing;
            Ok(AckMsg { ok: false, end_state: None })
        } else {
            Err(SessionError::NoDrawOffer)
        }
    }

    /// The session's connection role.
    pub fn role(&self) -> (r: Role)
        ensures
            r == self@.role,
    {
        self.role
    }

    /// Where the session stands in its life cycle.
    pub fn phase(&self) -> (r: Phase)
        ensures
            r == self@.phase,
    {
        self.phase
    }

    /// The locally chosen (or handshake-resolved) color.
    pub fn local_color(&self) -> (r: Option<Color>)
        ensures
            r == self@.local_color,
    {
        self.local_color
    }

    /// The move sent and not yet acknowledged, if any.
    pub fn pending_outbound_move(&self) -> (r: Option<MoveMsg>)
        ensures
            r == self@.pending_outbound,
    {
        self.pending_outbound
    }

    /// Whether a draw offer is outstanding, and who made it.
    pub fn draw_offer_state(&self) -> (r: DrawOffer)
        ensures
            r == self@.draw_offer,
    {
        self.draw_offer
    }

    /// The game end recorded when the session ended through the protocol
    /// (a reported checkmate or an agreed draw), if any.
    pub fn recorded_end(&self) -> (r: Option<EndState>)
        ensures
            r == self@.recorded_end,
    {
        self.recorded_end
    }

    /// The peer's handshake declaration, once the handshake is done.
    pub fn remote_start(&self) -> (r: &Option<StartMsg>)
        ensures
            opt_start_view(*r) == self@.remote_start,
    {
        &self.remote_start
    }

    /// The log of moves applied to the local board, oldest first: the
    /// board snapshot the display layer renders from.
    pub fn board_moves(&self) -> (r: &Vec<MoveMsg>)
        ensures
            r@ == self@.board,
    {
        &self.board
    }
}

} // verus!
