//! Chess positions and moves. The rules of chess (legality, check, mate) are
//! computed by `shakmaty`; this module carries each position together with
//! its FEN text, and every fact the rest of the library uses about a position
//! is stated over that text.
use vstd::prelude::*;
use shakmaty::Position as ChessRules;
use shakmaty::{CastlingMode, Chess, EnPassantMode, Move};
use shakmaty::fen::Fen;
use shakmaty::uci::UciMove;
use crate::color::Color;

verus! {

#[verifier::external_type_specification]
#[verifier::external_body]
pub struct ExChess(Chess);

#[verifier::external_type_specification]
#[verifier::external_body]
pub struct ExFen(Fen);

#[verifier::external_type_specification]
#[verifier::external_body]
pub struct ExUciMove(UciMove);

#[verifier::external_type_specification]
#[verifier::external_body]
pub struct ExMove(Move);

/// The FEN text of the standard starting position.
pub open spec fn start_fen() -> Seq<char> {
    "rnbqkbnr/pppppppp/8/8/8/8/PPPPPPPP/RNBQKBNR w KQkq - 0 1"@
}

/// The side to move in the position with this FEN text: the second field,
/// the one after the first space, is `b` for black and `w` for white.
pub open spec fn fen_side_to_move(fen: Seq<char>) -> Color {
    let i = choose|i: int|
        0 <= i < fen.len() && fen[i] == ' ' && forall|j: int| 0 <= j < i ==> #[trigger] fen[j] != ' ';
    if 0 <= i && i + 1 < fen.len() && fen[i + 1] == 'b' {
        Color::Black
    } else {
        Color::White
    }
}

/// Whether the side to move is in check in the position with this FEN text.
pub uninterp spec fn fen_is_check(fen: Seq<char>) -> bool;

/// Whether the position with this FEN text is checkmate.
pub uninterp spec fn fen_is_checkmate(fen: Seq<char>) -> bool;

/// Whether the position with this FEN text is stalemate.
pub uninterp spec fn fen_is_stalemate(fen: Seq<char>) -> bool;

/// Whether neither side has material left to mate with, in the position with
/// this FEN text.
pub uninterp spec fn fen_is_insufficient_material(fen: Seq<char>) -> bool;

/// Whether a text is syntactically a FEN.
pub uninterp spec fn fen_text_parses(text: Seq<char>) -> bool;

/// The position that a syntactically valid FEN text sets up, as its FEN text
/// written back; `None` when the setup is not a legal standard position.
pub uninterp spec fn fen_text_position(text: Seq<char>) -> Option<Seq<char>>;

/// Whether a text is syntactically a UCI move.
pub uninterp spec fn uci_text_parses(text: Seq<char>) -> bool;

/// Whether the UCI move `uci` is legal in the position with FEN text `fen`.
pub uninterp spec fn uci_move_legal(fen: Seq<char>, uci: Seq<char>) -> bool;

/// The FEN text of the position reached by playing the legal UCI move `uci`
/// in the position with FEN text `fen`.
pub uninterp spec fn fen_after_move(fen: Seq<char>, uci: Seq<char>) -> Seq<char>;

/// A standard chess position together with its FEN text (en passant square
/// written only when a legal capture exists). Built only by this module, so
/// the text always belongs to the position.
pub struct Position {
    chess: Chess,
    fen: String,
}

impl View for Position {
    type V = Seq<char>;

    closed spec fn view(&self) -> Seq<char> {
        self.fen@
    }
}

/// A FEN text that has been read, before it is set up as a position.
pub struct ParsedFen {
    fen: Fen,
    text: String,
}

impl View for ParsedFen {
    type V = Seq<char>;

    /// The text that was read.
    closed spec fn view(&self) -> Seq<char> {
        self.text@
    }
}

/// A UCI move that has been read, with the text it was read from.
pub struct ParsedUci {
    uci: UciMove,
    text: String,
}

impl View for ParsedUci {
    type V = Seq<char>;

    /// The text that was read.
    closed spec fn view(&self) -> Seq<char> {
        self.text@
    }
}

/// A move that is legal in a given position: the position's FEN text and the
/// move's UCI text.
pub struct LegalMove {
    mv: Move,
    fen: String,
    uci: String,
}

impl View for LegalMove {
    type V = (Seq<char>, Seq<char>);

    /// The FEN text of the position it is legal in, and its UCI text.
    closed spec fn view(&self) -> (Seq<char>, Seq<char>) {
        (self.fen@, self.uci@)
    }
}

impl Position {
    /// `Chess::default`: the standard starting position, with its FEN text.
    #[verifier::external_body]
    pub fn initial() -> (p: Position)
        ensures
            p@ == start_fen(),
    {
        let chess = Chess::default();
        let fen = Fen::from_position(&chess, EnPassantMode::Legal).to_string();
        Position { chess, fen }
    }

    /// `Position::turn`: the side to move, the side that shakmaty writes as
    /// the second field of the position's FEN text.
    #[verifier::external_body]
    pub fn turn(&self) -> (c: Color)
        ensures
            c == fen_side_to_move(self@),
    {
        match self.chess.turn() {
            shakmaty::Color::White => Color::White,
            shakmaty::Color::Black => Color::Black,
        }
    }

    /// `Position::is_check`: the side to move is in check.
    #[verifier::external_body]
    pub fn is_check(&self) -> (b: bool)
        ensures
            b == fen_is_check(self@),
    {
        self.chess.is_check()
    }

    /// `Position::is_checkmate`: in check with no legal move. Checkmate
    /// implies check.
    #[verifier::external_body]
    pub fn is_checkmate(&self) -> (b: bool)
        ensures
            b == fen_is_checkmate(self@),
            b ==> fen_is_check(self@),
    {
        self.chess.is_checkmate()
    }

    /// `Position::is_stalemate`: not in check and no legal move. Stalemate
    /// excludes check.
    #[verifier::external_body]
    pub fn is_stalemate(&self) -> (b: bool)
        ensures
            b == fen_is_stalemate(self@),
            b ==> !fen_is_check(self@),
    {
        self.chess.is_stalemate()
    }

    /// `Position::is_insufficient_material`: neither side can still mate.
    #[verifier::external_body]
    pub fn is_insufficient_material(&self) -> (b: bool)
        ensures
            b == fen_is_insufficient_material(self@),
    {
        self.chess.is_insufficient_material()
    }

    /// `Position::is_game_over`: no legal move, or insufficient material. For
    /// standard chess, no legal move means checkmate or stalemate, so the
    /// game is over exactly when one of the three holds.
    #[verifier::external_body]
    pub fn is_game_over(&self) -> (b: bool)
        ensures
            b == (fen_is_checkmate(self@) || fen_is_stalemate(self@)
                || fen_is_insufficient_material(self@)),
    {
        self.chess.is_game_over()
    }

    /// The FEN text of the position.
    pub fn to_fen(&self) -> (s: String)
        ensures
            s@ == self@,
    {
        self.fen.clone()
    }
}

/// `Fen::from_str`: reads a FEN text. The error is the parser's message.
#[verifier::external_body]
pub fn parse_fen(text: &str) -> (r: Result<ParsedFen, String>)
    ensures
        r is Ok <==> fen_text_parses(text@),
        r matches Ok(f) ==> f@ == text@,
{
    match text.parse::<Fen>() {
        Ok(fen) => Ok(ParsedFen { fen, text: text.to_string() }),
        Err(e) => Err(e.to_string()),
    }
}

impl ParsedFen {
    /// `Fen::into_position` in standard castling mode: sets up the position,
    /// refusing illegal setups. The error is the refusal's message.
    #[verifier::external_body]
    pub fn into_position(self) -> (r: Result<Position, String>)
        ensures
            r is Ok <==> fen_text_position(self@) is Some,
            r matches Ok(p) ==> fen_text_position(self@) == Some(p@),
    {
        match self.fen.into_position::<Chess>(CastlingMode::Standard) {
            Ok(chess) => {
                let fen = Fen::from_position(&chess, EnPassantMode::Legal).to_string();
                Ok(Position { chess, fen })
            },
            Err(e) => Err(e.to_string()),
        }
    }
}

/// `UciMove::from_str`: reads a UCI move such as `e2e4` or `e7e8q`. The
/// parser's error message is always `invalid uci`.
#[verifier::external_body]
pub fn parse_uci(text: &str) -> (r: Result<ParsedUci, String>)
    ensures
        r is Ok <==> uci_text_parses(text@),
        r matches Ok(u) ==> u@ == text@,
        r matches Err(e) ==> e@ == "invalid uci"@,
{
    match text.parse::<UciMove>() {
        Ok(uci) => Ok(ParsedUci { uci, text: text.to_string() }),
        Err(e) => Err(e.to_string()),
    }
}

impl ParsedUci {
    /// `UciMove::to_move`: the move in the context of `pos`, if it is legal
    /// there. The error message is always `illegal uci`.
    #[verifier::external_body]
    pub fn to_move(&self, pos: &Position) -> (r: Result<LegalMove, String>)
        ensures
            r is Ok <==> uci_move_legal(pos@, self@),
            r matches Ok(m) ==> m@ == (pos@, self@),
            r matches Err(e) ==> e@ == "illegal uci"@,
    {
        match self.uci.to_move(&pos.chess) {
            Ok(mv) => Ok(LegalMove { mv, fen: pos.fen.clone(), uci: self.text.clone() }),
            Err(e) => Err(e.to_string()),
        }
    }
}

impl Position {
    /// `Position::play`: the position after a move. The move was checked to
    /// be legal in a position with the same FEN text, so playing it succeeds.
    #[verifier::external_body]
    pub fn play(&self, mv: &LegalMove) -> (r: Result<Position, String>)
        requires
            mv@.0 == self@,
        ensures
            r is Ok,
            r matches Ok(p) ==> p@ == fen_after_move(mv@.0, mv@.1),
    {
        match self.chess.clone().play(mv.mv) {
            Ok(chess) => {
                let fen = Fen::from_position(&chess, EnPassantMode::Legal).to_string();
                Ok(Position { chess, fen })
            },
            Err(e) => Err(e.to_string()),
        }
    }
}

} // verus!
