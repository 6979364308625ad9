//! The authoritative game state, backed by the `pleco` rules engine.
//!
//! A `Game` pairs an engine board with the list of raw move codes that were
//! applied to it since the default starting position.  Every mutation of the
//! board goes through a trusted call that records the move in that list, so
//! the list is an exact transcript of the board: contracts over the engine
//! speak of the transcript alone.
use vstd::prelude::*;
use crate::player::Player;
use crate::square::Square;
use crate::bit_move_wrapper::BitMoveWrapper;
use crate::bit_move_wrapper::src_of;
use crate::bit_move_wrapper::dst_of;

verus! {

#[verifier::external_type_specification]
#[verifier::external_body]
pub struct ExBoard(pleco::Board);

/// The legal moves (as raw codes, in the engine's generation order) of the
/// position reached by playing the given raw move codes from the default
/// starting position.  Chess move generation is a function of the position,
/// and the position is a function of the moves played, so this is well
/// defined; only the engine can compute it.
pub uninterp spec fn legal_moves_of(hist: Seq<u16>) -> Seq<u16>;

/// Whether the side to move is checkmated in the position reached by playing
/// the given raw move codes from the default starting position.
pub uninterp spec fn checkmate_of(hist: Seq<u16>) -> bool;

/// Whether the position reached by playing the given raw move codes from the
/// default starting position is a stalemate (no legal move or the fifty-move
/// rule, while not in check).
pub uninterp spec fn stalemate_of(hist: Seq<u16>) -> bool;

/// Whose turn it is after the given moves: each applied move passes the turn
/// to the other side, and White moves first.
pub open spec fn turn_of(hist: Seq<u16>) -> Player {
    if hist.len() % 2 == 0 {
        Player::White
    } else {
        Player::Black
    }
}

/// The outcome of the position after the given moves: a checkmate loses the
/// game for the side to move, a stalemate draws it, and otherwise the game is
/// still ongoing.
pub open spec fn outcome_of(hist: Seq<u16>) -> Option<ChessOutcome> {
    if checkmate_of(hist) {
        Some(ChessOutcome::Checkmate { loser: turn_of(hist) })
    } else if stalemate_of(hist) {
        Some(ChessOutcome::Stalemate)
    } else {
        None
    }
}

/// The result classification of a concluded game.  A game with no outcome yet
/// is represented as `None` wherever an outcome is reported.
#[derive(Clone, Copy, Debug, PartialEq, Eq, Structural, Hash)]
pub enum ChessOutcome {
    /// The named side is checkmated.
    Checkmate { loser: Player },
    /// The game is drawn by stalemate or the fifty-move rule.
    Stalemate,
}

/// An engine-boundary rejection.
#[derive(Clone, Copy, Debug, PartialEq, Eq, Structural, Hash)]
pub enum EngineError {
    /// The submitted move is not legal in the current position.
    IllegalMove,
    /// The requested undo count is zero or exceeds the moves played.
    BadUndoCount,
}

/// Whether each move of `ms` is legal at its turn when `ms` is played from
/// the default starting position, one move at a time.
pub open spec fn replay_legal(ms: Seq<u16>) -> bool {
    forall|i: int|
        0 <= i < ms.len() ==> #[trigger] legal_moves_of(ms.take(i)).contains(ms[i])
}

/// The source/destination square pairs of a sequence of raw move codes.
pub open spec fn pairs_of(ms: Seq<u16>) -> Seq<(Square, Square)> {
    ms.map_values(
        |m: u16| (Square { index: src_of(m) }, Square { index: dst_of(m) }),
    )
}

/// The authoritative state of one match: an engine board together with the
/// transcript of moves that produced it.
pub struct Game {
    board: pleco::Board,
    moves: Vec<BitMoveWrapper>,
}

/// Relies on pleco::Board::start_pos: the default chess starting position.
#[verifier::external_body]
fn engine_start_board() -> pleco::Board {
    pleco::Board::start_pos()
}

/// Relies on pleco::Board::generate_moves: returns exactly the legal moves of
/// the current position, for the side to move.  The board of `g` is the
/// position reached by playing `g` transcript from the start, so the result
/// is the legal-move list of that transcript's position.
#[verifier::external_body]
fn engine_legal_moves(g: &Game) -> (r: Vec<u16>)
    ensures
        r@ == legal_moves_of(g.hist()),
{
    g.board.generate_moves().iter().map(|m| m.get_raw()).collect()
}

/// Relies on pleco::Board::apply_move: applies a move that is legal for the
/// current position (illegal moves are excluded by the caller, as the engine
/// panics on them).  The move is recorded in the transcript so that board and
/// transcript stay in step.
#[verifier::external_body]
fn engine_apply(g: &mut Game, mv: BitMoveWrapper)
    requires
        legal_moves_of(old(g).hist()).contains(mv.bit_move),
    ensures
        final(g).moves@ == old(g).moves@.push(mv),
{
    g.board.apply_move(pleco::BitMove::new(mv.bit_move));
    g.moves.push(mv);
}

/// Relies on pleco::Board::undo_move: restores the position before the last
/// applied move (the engine panics when no move was applied, which the caller
/// excludes).  The transcript is shortened in step with the board.
#[verifier::external_body]
fn engine_undo_one(g: &mut Game)
    requires
        old(g).moves@.len() > 0,
    ensures
        final(g).moves@ == old(g).moves@.drop_last(),
{
    g.board.undo_move();
    g.moves.pop();
}

/// Relies on pleco::Board::checkmate: whether the side to move is in check
/// with no legal move, in the position of the transcript of `g`.
#[verifier::external_body]
fn engine_checkmate(g: &Game) -> (r: bool)
    ensures
        r == checkmate_of(g.hist()),
{
    g.board.checkmate()
}

/// Relies on pleco::Board::stalemate: whether the side to move is not in
/// check and has no legal move or the fifty-move rule applies, in the
/// position of the transcript of `g`.
#[verifier::external_body]
fn engine_stalemate(g: &Game) -> (r: bool)
    ensures
        r == stalemate_of(g.hist()),
{
    g.board.stalemate()
}

impl Game {
    /// The transcript of this game as raw move codes.
    pub closed spec fn hist(&self) -> Seq<u16> {
        self.moves@.map_values(|w: BitMoveWrapper| w.bit_move)
    }

    /// A fresh game in the default starting position.
    pub fn new() -> (g: Game)
        ensures
            g.hist() == Seq::<u16>::empty(),
    {
        let g = Game { board: engine_start_board(), moves: Vec::new() };
        proof {
            assert(g.hist() =~= Seq::<u16>::empty());
        }
        g
    }

    /// The moves played so far, oldest first.
    pub fn movelist(&self) -> (r: &Vec<BitMoveWrapper>)
        ensures
            r@.map_values(|w: BitMoveWrapper| w.bit_move) == self.hist(),
    {
        &self.moves
    }

    /// A copy of the moves played so far, oldest first.
    pub fn movelist_copy(&self) -> (r: Vec<BitMoveWrapper>)
        ensures
            r@.map_values(|w: BitMoveWrapper| w.bit_move) == self.hist(),
    {
        let mut out: Vec<BitMoveWrapper> = Vec::new();
        let mut i: usize = 0;
        while i < self.moves.len()
            invariant
                i <= self.moves@.len(),
                out@ == self.moves@.take(i as int),
            decreases self.moves@.len() - i,
        {
            out.push(self.moves[i]);
            proof {
                assert(out@ =~= self.moves@.take(i + 1 as int));
            }
            i += 1;
        }
        proof {
            assert(out@ =~= self.moves@);
        }
        out
    }

    /// The number of half-moves played.
    pub fn total_moves(&self) -> (r: u16)
        requires
            self.hist().len() <= 0xffff,
        ensures
            r == self.hist().len(),
    {
        self.moves.len() as u16
    }

    /// Whose turn it is: the side that has to move next.
    pub fn turn(&self) -> (r: Player)
        ensures
            r == turn_of(self.hist()),
    {
        if self.moves.len() % 2 == 0 {
            Player::White
        } else {
            Player::Black
        }
    }

    /// The current outcome: `None` while the game is ongoing.
    pub fn outcome(&self) -> (r: Option<ChessOutcome>)
        ensures
            r == outcome_of(self.hist()),
    {
        if engine_checkmate(self) {
            Some(ChessOutcome::Checkmate { loser: self.turn() })
        } else if engine_stalemate(self) {
            Some(ChessOutcome::Stalemate)
        } else {
            None
        }
    }

    /// The legal moves of the current position as raw codes, in the engine's
    /// generation order.
    pub fn possible_moves(&self) -> (r: Vec<u16>)
        ensures
            r@ == legal_moves_of(self.hist()),
    {
        engine_legal_moves(self)
    }

    /// The source/destination square pairs of the legal moves of the current
    /// position, in the engine's generation order.
    pub fn possible_move_pairs(&self) -> (r: Vec<(Square, Square)>)
        ensures
            r@ == pairs_of(legal_moves_of(self.hist())),
    {
        let raw = engine_legal_moves(self);
        let mut out: Vec<(Square, Square)> = Vec::new();
        let mut i: usize = 0;
        while i < raw.len()
            invariant
                i <= raw@.len(),
                raw@ == legal_moves_of(self.hist()),
                out@ == pairs_of(raw@.take(i as int)),
            decreases raw@.len() - i,
        {
            let w = BitMoveWrapper { bit_move: raw[i] };
            out.push((w.source(), w.destination()));
            proof {
                assert(out@ =~= pairs_of(raw@.take(i + 1 as int)));
            }
            i += 1;
        }
        proof {
            assert(raw@.take(raw@.len() as int) =~= raw@);
        }
        out
    }

    /// Submits a move to the rules engine.  The move is applied if and only
    /// if the engine lists it as legal for the current position; a rejected
    /// move leaves the game untouched.
    pub fn move_piece(&mut self, mv: BitMoveWrapper) -> (r: Result<(), EngineError>)
        ensures
            r is Ok <==> legal_moves_of(old(self).hist()).contains(mv.bit_move),
            r is Ok ==> final(self).hist() == old(self).hist().push(mv.bit_move),
            r is Err ==> *final(self) == *old(self) && r == Result::<(), EngineError>::Err(
                EngineError::IllegalMove,
            ),
    {
        let legal = engine_legal_moves(self);
        let mut i: usize = 0;
        let mut found = false;
        while i < legal.len()
            invariant
                i <= legal@.len(),
                legal@ == legal_moves_of(self.hist()),
                found ==> legal@.contains(mv.bit_move),
                !found ==> forall|j: int| 0 <= j < i ==> legal@[j] != mv.bit_move,
            decreases legal@.len() - i,
        {
            if legal[i] == mv.bit_move {
                found = true;
            }
            i += 1;
        }
        if !found {
            proof {
                assert(!legal@.contains(mv.bit_move));
            }
            return Err(EngineError::IllegalMove);
        }
        engine_apply(self, mv);
        proof {
            assert(self.hist() =~= old(self).hist().push(mv.bit_move));
        }
        Ok(())
    }

    /// Reverts the most recent `n` moves.  The undo succeeds if and only if
    /// `n` is at least one and at most the number of moves played; a rejected
    /// undo leaves the game untouched.
    pub fn undo(&mut self, n: u16) -> (r: Result<(), EngineError>)
        ensures
            r is Ok <==> 1 <= n && n as int <= old(self).hist().len(),
            r is Ok ==> final(self).hist() == old(self).hist().take(
                old(self).hist().len() - n as int,
            ),
            r is Err ==> *final(self) == *old(self) && r == Result::<(), EngineError>::Err(
                EngineError::BadUndoCount,
            ),
    {
        if n == 0 || n as usize > self.moves.len() {
            return Err(EngineError::BadUndoCount);
        }
        let mut i: u16 = 0;
        while i < n
            invariant
                i <= n,
                n as int <= old(self).moves@.len(),
                self.moves@ == old(self).moves@.take(old(self).moves@.len() - i as int),
            decreases n - i,
        {
            proof {
                assert(self.moves@.drop_last() =~= old(self).moves@.take(
                    old(self).moves@.len() - (i + 1) as int,
                ));
            }
            engine_undo_one(self);
            i += 1;
        }
        proof {
            assert(self.hist() =~= old(self).hist().take(old(self).hist().len() - n as int));
        }
        Ok(())
    }
}

} // verus!
