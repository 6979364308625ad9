//! The wire protocol: what participants may ask and what the orchestrator
//! tells them.
use vstd::prelude::*;
use crate::player::Player;
use crate::square::Square;
use crate::bit_move_wrapper::BitMoveWrapper;
use crate::game::ChessOutcome;

verus! {

/// Per-session configuration, fixed for the session's lifetime.
#[derive(Clone, Debug)]
pub struct ChessConfig {
    /// An alternative starting position.  Starting from one is not supported:
    /// a session refuses to start rather than silently using the default.
    pub starting_fen: Option<String>,
    /// Whether Black may undo moves in this game.
    pub can_black_undo: bool,
    /// Whether White may undo moves in this game.
    pub can_white_undo: bool,
    /// Whether undoing is also allowed once the game has concluded.
    pub allow_undo_after_loose: bool,
}

/// A request a participant may send to the orchestrator.
#[derive(Clone, Debug, PartialEq)]
pub enum ChessRequest {
    /// Ask for a full board snapshot (the move list so far).
    CurrentBoard,
    /// Ask how many half-moves were played.
    CurrentTotalMoves,
    /// Ask for the current outcome.
    CurrentOutcome,
    /// Ask to play a move.
    MovePiece { bit_move: BitMoveWrapper },
    /// Leave the session, ending it.
    Abort { message: String },
    /// Ask to revert the most recent moves.
    UndoMoves { moves: u16 },
}

impl ChessRequest {
    /// Whether a spectator is allowed to send this request: only the three
    /// read-only queries are.
    pub open spec fn spec_available_to_spectator(&self) -> bool {
        match self {
            ChessRequest::CurrentBoard => true,
            ChessRequest::CurrentTotalMoves => true,
            ChessRequest::CurrentOutcome => true,
            _ => false,
        }
    }

    /// Is a spectator allowed to send this request
    pub fn available_to_spectator(&self) -> (r: bool)
        ensures
            r == self.spec_available_to_spectator(),
    {
        match self {
            ChessRequest::CurrentBoard | ChessRequest::CurrentTotalMoves
            | ChessRequest::CurrentOutcome => true,
            _ => false,
        }
    }
}

/// A fact the orchestrator tells one participant or everyone.
#[derive(Clone, Debug, PartialEq)]
pub enum ChessUpdate {
    /// Usually the response to `ChessRequest::CurrentBoard`, but also sent at
    /// other points to synchronize state: the full move list from the default
    /// starting position.
    Board { movelist: Option<Vec<BitMoveWrapper>> },
    /// A move was just played; `moves_played` counts the half-moves before it.
    PlayerMove { player: Player, last_move: BitMoveWrapper, moves_played: u16 },
    /// Response to `ChessRequest::MovePiece` when the move was rejected; the
    /// sender should roll the move back on its side.
    MovePieceFailedResponse { message: String, rollback_move: BitMoveWrapper },
    /// The current outcome, or `None` while the game is ongoing.
    Outcome { outcome: Option<ChessOutcome> },
    /// The legal moves of whoever has to move now, as square pairs.
    PossibleMoves { possible_moves: Vec<(Square, Square)> },
    /// Something went wrong and the orchestrator wants to tell you about it.
    GenericErrorResponse { message: String },
    /// Response to `ChessRequest::UndoMoves` when the undo was refused.
    UndoMovesFailedResponse { message: String },
    /// Moves were undone on request of `who`.
    MovesUndone { who: Player, moves: u16 },
    /// Response to `ChessRequest::CurrentTotalMoves`.
    CurrentTotalMovesReponse { total_moves: u16 },
}

} // verus!
