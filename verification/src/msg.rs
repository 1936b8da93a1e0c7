//! The messages the two peers exchange, and the plain values they carry.
//!
//! Three message shapes cross the wire: `StartMsg` (color handshake),
//! `MoveMsg` (a board move, a forfeit, or a draw offer), and `AckMsg`
//! (the answer to a move or to a draw offer).

use vstd::prelude::*;

verus! {

/// The two piece colors.
#[derive(Clone, Copy, Debug, PartialEq, Eq, Structural)]
pub enum Color {
    White,
    Black,
}

impl Color {
    /// The complementary color.
    pub open spec fn spec_opposite(self) -> Color {
        match self {
            Color::White => Color::Black,
            Color::Black => Color::White,
        }
    }

    /// Returns the complementary color.
    #[verifier::when_used_as_spec(spec_opposite)]
    pub fn opposite(self) -> (r: Color)
        ensures
            r == self.spec_opposite(),
    {
        match self {
            Color::White => Color::Black,
            Color::Black => Color::White,
        }
    }
}

/// The pieces a pawn may promote to.
#[derive(Clone, Copy, Debug, PartialEq, Eq, Structural)]
pub enum PromotionPiece {
    Queen,
    Rook,
    Bishop,
    Knight,
}

/// A chess piece, as the board engine reports it.  The engine itself is a
/// collaborator outside this crate; its pieces are carried as these plain
/// values.
#[derive(Clone, Copy, Debug, PartialEq, Eq, Structural)]
pub enum Piece {
    Pawn,
    Knight,
    Bishop,
    Rook,
    Queen,
    King,
}

/// The wire image of a promotion choice: only queen, rook, bishop and
/// knight can be promoted to; anything else carries no promotion.
pub open spec fn spec_piece_to_promotion_piece(piece: Option<Piece>) -> Option<PromotionPiece> {
    match piece {
        Some(Piece::Queen) => Some(PromotionPiece::Queen),
        Some(Piece::Bishop) => Some(PromotionPiece::Bishop),
        Some(Piece::Knight) => Some(PromotionPiece::Knight),
        Some(Piece::Rook) => Some(PromotionPiece::Rook),
        _ => None,
    }
}

/// Converts an engine piece into the promotion choice a `MoveMsg` carries.
#[verifier::when_used_as_spec(spec_piece_to_promotion_piece)]
pub fn piece_to_promotion_piece(piece: Option<Piece>) -> (r: Option<PromotionPiece>)
    ensures
        r == spec_piece_to_promotion_piece(piece),
{
    match piece {
        Some(Piece::Queen) => Some(PromotionPiece::Queen),
        Some(Piece::Bishop) => Some(PromotionPiece::Bishop),
        Some(Piece::Knight) => Some(PromotionPiece::Knight),
        Some(Piece::Rook) => Some(PromotionPiece::Rook),
        _ => None,
    }
}

/// The engine image of a promotion choice carried on the wire.
pub open spec fn spec_promotion_piece_to_piece(piece: Option<PromotionPiece>) -> Option<Piece> {
    match piece {
        Some(PromotionPiece::Queen) => Some(Piece::Queen),
        Some(PromotionPiece::Bishop) => Some(Piece::Bishop),
        Some(PromotionPiece::Knight) => Some(Piece::Knight),
        Some(PromotionPiece::Rook) => Some(Piece::Rook),
        None => None,
    }
}

/// Converts a received promotion choice back into an engine piece.  The
/// two conversions invert each other: every wire promotion choice maps to
/// the engine piece that maps back to it.
#[verifier::when_used_as_spec(spec_promotion_piece_to_piece)]
pub fn promotion_piece_to_piece(piece: Option<PromotionPiece>) -> (r: Option<Piece>)
    ensures
        r == spec_promotion_piece_to_piece(piece),
        spec_piece_to_promotion_piece(r) == piece,
{
    match piece {
        Some(PromotionPiece::Queen) => Some(Piece::Queen),
        Some(PromotionPiece::Bishop) => Some(Piece::Bishop),
        Some(PromotionPiece::Knight) => Some(Piece::Knight),
        Some(PromotionPiece::Rook) => Some(Piece::Rook),
        None => None,
    }
}

/// The game end a peer reports in an `AckMsg`.
#[derive(Clone, Copy, Debug, PartialEq, Eq, Structural)]
pub enum EndState {
    CheckMate,
    Draw,
}

/// The board engine's judgment of the current position.  The engine itself
/// is a collaborator outside this crate; its verdict is handed in as one of
/// these values.
#[derive(Clone, Copy, Debug, PartialEq, Eq, Structural)]
pub enum GameStatus {
    InProgress,
    Checkmate { winner: Color },
    Draw,
    Stalemate,
    FiftyMove,
    ThreefoldRepetition,
}

/// The end state an ack carries for a given engine verdict.
///
/// Deliberate policy: only a checkmate and an outright draw are surfaced to
/// the peer; stalemate, the fifty-move rule and threefold repetition end the
/// game on the board but are not reported in the ack.
pub open spec fn spec_ack_end_of(status: GameStatus) -> Option<EndState> {
    match status {
        GameStatus::Checkmate { winner: _ } => Some(EndState::CheckMate),
        GameStatus::Draw => Some(EndState::Draw),
        _ => None,
    }
}

/// Returns the end state an ack carries for a given engine verdict.
#[verifier::when_used_as_spec(spec_ack_end_of)]
pub fn ack_end_of(status: GameStatus) -> (r: Option<EndState>)
    ensures
        r == spec_ack_end_of(status),
{
    match status {
        GameStatus::Checkmate { winner: _ } => Some(EndState::CheckMate),
        GameStatus::Draw => Some(EndState::Draw),
        _ => None,
    }
}

/// A move message.  Exactly one of three meanings is active: a plain board
/// move, a forfeit, or a draw offer.  Forfeit and draw-offer messages carry
/// degenerate board coordinates.
#[derive(Clone, Copy, Debug, PartialEq, Eq)]
pub struct MoveMsg {
    pub from_file: u8,
    pub from_rank: u8,
    pub to_file: u8,
    pub to_rank: u8,
    pub promotion: Option<PromotionPiece>,
    pub forfeit: bool,
    pub offer_draw: bool,
}

impl MoveMsg {
    /// A plain board move: neither a forfeit nor a draw offer.
    pub open spec fn is_plain(self) -> bool {
        !self.forfeit && !self.offer_draw
    }

    /// Well-formed: coordinates on the board, at most one signal flag set,
    /// and a signal message carries only degenerate board data.
    pub open spec fn wf(self) -> bool {
        &&& self.from_file < 8
        &&& self.from_rank < 8
        &&& self.to_file < 8
        &&& self.to_rank < 8
        &&& !(self.forfeit && self.offer_draw)
        &&& !self.is_plain() ==> {
            &&& self.from_file == 0
            &&& self.from_rank == 0
            &&& self.to_file == 0
            &&& self.to_rank == 0
            &&& self.promotion is None
        }
    }

    /// Builds a plain board move.
    pub fn plain(
        from_file: u8,
        from_rank: u8,
        to_file: u8,
        to_rank: u8,
        promotion: Option<PromotionPiece>,
    ) -> (r: MoveMsg)
        requires
            from_file < 8,
            from_rank < 8,
            to_file < 8,
            to_rank < 8,
        ensures
            r.wf(),
            r.is_plain(),
            r.from_file == from_file,
            r.from_rank == from_rank,
            r.to_file == to_file,
            r.to_rank == to_rank,
            r.promotion == promotion,
    {
        MoveMsg {
            from_file,
            from_rank,
            to_file,
            to_rank,
            promotion,
            forfeit: false,
            offer_draw: false,
        }
    }

    /// The forfeit signal: `forfeit` set, degenerate board data.
    pub open spec fn spec_forfeit_msg() -> MoveMsg {
        MoveMsg {
            from_file: 0,
            from_rank: 0,
            to_file: 0,
            to_rank: 0,
            promotion: None,
            forfeit: true,
            offer_draw: false,
        }
    }

    /// The draw-offer signal: `offer_draw` set, degenerate board data.
    pub open spec fn spec_draw_offer_msg() -> MoveMsg {
        MoveMsg {
            from_file: 0,
            from_rank: 0,
            to_file: 0,
            to_rank: 0,
            promotion: None,
            forfeit: false,
            offer_draw: true,
        }
    }

    /// Builds the unilateral forfeit signal.
    pub fn forfeit_signal() -> (r: MoveMsg)
        ensures
            r == MoveMsg::spec_forfeit_msg(),
            r.wf(),
            r.forfeit,
            !r.offer_draw,
    {
        MoveMsg {
            from_file: 0,
            from_rank: 0,
            to_file: 0,
            to_rank: 0,
            promotion: None,
            forfeit: true,
            offer_draw: false,
        }
    }

    /// Builds the draw-offer signal.
    pub fn draw_offer_signal() -> (r: MoveMsg)
        ensures
            r == MoveMsg::spec_draw_offer_msg(),
            r.wf(),
            r.offer_draw,
            !r.forfeit,
    {
        MoveMsg {
            from_file: 0,
            from_rank: 0,
            to_file: 0,
            to_rank: 0,
            promotion: None,
            forfeit: false,
            offer_draw: true,
        }
    }
}

/// The acknowledgment of a move or the answer to a draw offer.
#[derive(Clone, Copy, Debug, PartialEq, Eq)]
pub struct AckMsg {
    pub ok: bool,
    pub end_state: Option<EndState>,
}

/// The handshake message.  `is_white` always declares the sender's own
/// color: the client's requested color on the way in, the host's fixed
/// color on the echo.  The other fields are advisory and carried unchanged.
#[derive(Debug)]
pub struct StartMsg {
    pub is_white: bool,
    pub name: Option<String>,
    pub fen: Option<String>,
    pub time: Option<u32>,
    pub inc: Option<u32>,
}

/// The mathematical image of a `StartMsg`.
#[verifier::ext_equal]
pub ghost struct StartView {
    pub is_white: bool,
    pub name: Option<Seq<char>>,
    pub fen: Option<Seq<char>>,
    pub time: Option<u32>,
    pub inc: Option<u32>,
}

/// The image of an optional piece of text.
pub open spec fn opt_text_view(o: Option<String>) -> Option<Seq<char>> {
    match o {
        Some(s) => Some(s@),
        None => None,
    }
}

impl View for StartMsg {
    type V = StartView;

    open spec fn view(&self) -> StartView {
        StartView {
            is_white: self.is_white,
            name: opt_text_view(self.name),
            fen: opt_text_view(self.fen),
            time: self.time,
            inc: self.inc,
        }
    }
}

/// Clones an optional piece of advisory text.
pub fn clone_opt_text(o: &Option<String>) -> (r: Option<String>)
    ensures
        opt_text_view(*o) == opt_text_view(r),
{
    match o {
        Some(s) => Some(s.clone()),
        None => None,
    }
}

impl StartMsg {
    /// Clones the message.
    pub fn duplicate(&self) -> (r: StartMsg)
        ensures
            r@ == self@,
    {
        StartMsg {
            is_white: self.is_white,
            name: clone_opt_text(&self.name),
            fen: clone_opt_text(&self.fen),
            time: self.time,
            inc: self.inc,
        }
    }
}

} // verus!
