//! The bot actor: a participant that shadows the authoritative state from the
//! updates it receives and decides when a move must be searched for.
//!
//! The bot is strictly reactive: feeding it one update yields the one thing
//! its surroundings must do next.  `Search` asks them to run the external
//! searcher on the shadow position (off the bot's own responsiveness path and
//! under the configured minimum reaction delay) and submit the chosen move as
//! a `MovePiece` request; `Halt` reports a desynchronization from the
//! authoritative state, which is fatal to the bot rather than a condition to
//! play on from.
use vstd::prelude::*;
use crate::player::Player;
use crate::bit_move_wrapper::BitMoveWrapper;
use crate::game::Game;
use crate::game::ChessOutcome;
use crate::game::legal_moves_of;
use crate::game::replay_legal;
use crate::game::turn_of;
use crate::proto::ChessUpdate;

verus! {

/// What the bot's surroundings must do after one handled update.
#[derive(Clone, Copy, Debug, PartialEq, Eq, Structural)]
pub enum BotAction {
    /// Nothing: the update needed no reaction.
    Idle,
    /// It is the bot's turn: search the shadow position and submit the move.
    Search,
    /// The bot is desynchronized from the session: stop its loop.
    Halt,
}

/// How one handled update relates the bot's state before to its state after
/// and to the demanded action.
pub open spec fn bot_transition(pre: Bot, post: Bot, update: ChessUpdate, a: BotAction) -> bool {
    &&& post.me == pre.me
    &&& match update {
        ChessUpdate::Board { movelist } => {
            let ms = match movelist {
                Some(ml) => ml@.map_values(|w: BitMoveWrapper| w.bit_move),
                None => Seq::<u16>::empty(),
            };
            &&& post.current_outcome == pre.current_outcome
            &&& if replay_legal(ms) {
                &&& post.shadow.hist() == ms
                &&& !post.failed
                &&& a is Idle
            } else {
                &&& post.failed
                &&& a is Halt
            }
        },
        ChessUpdate::PlayerMove { player, last_move, moves_played } => {
            if pre.current_outcome is Some {
                &&& post == pre
                &&& a is Idle
            } else if turn_of(pre.shadow.hist()) != player || moves_played as int
                != pre.shadow.hist().len() || !legal_moves_of(pre.shadow.hist()).contains(
                last_move.bit_move,
            ) {
                &&& post.shadow == pre.shadow
                &&& post.current_outcome == pre.current_outcome
                &&& post.failed
                &&& a is Halt
            } else {
                &&& post.shadow.hist() == pre.shadow.hist().push(last_move.bit_move)
                &&& post.current_outcome == pre.current_outcome
                &&& post.failed == pre.failed
                &&& a == (if turn_of(post.shadow.hist()) == pre.me {
                    BotAction::Search
                } else {
                    BotAction::Idle
                })
            }
        },
        ChessUpdate::MovePieceFailedResponse { .. } => {
            &&& post.shadow == pre.shadow
            &&& post.current_outcome == pre.current_outcome
            &&& post.failed
            &&& a is Halt
        },
        ChessUpdate::Outcome { outcome } => {
            &&& post.shadow == pre.shadow
            &&& post.current_outcome == outcome
            &&& post.failed == pre.failed
            &&& a is Idle
        },
        _ => {
            &&& post == pre
            &&& a is Idle
        },
    }
}

/// Rebuilds a game by replaying the given moves from the default starting
/// position; refuses the list as soon as one move is not legal at its turn.
fn replay_moves(ml: &Vec<BitMoveWrapper>) -> (r: Option<Game>)
    ensures
        r is Some <==> replay_legal(ml@.map_values(|w: BitMoveWrapper| w.bit_move)),
        (r matches Some(g) ==> g.hist() == ml@.map_values(|w: BitMoveWrapper| w.bit_move)),
{
    let ghost ms = ml@.map_values(|w: BitMoveWrapper| w.bit_move);
    let mut g = Game::new();
    let mut i: usize = 0;
    while i < ml.len()
        invariant
            i <= ml@.len(),
            ms == ml@.map_values(|w: BitMoveWrapper| w.bit_move),
            g.hist() == ms.take(i as int),
            forall|j: int| 0 <= j < i ==> #[trigger] legal_moves_of(ms.take(j)).contains(ms[j]),
        decreases ml@.len() - i,
    {
        match g.move_piece(ml[i]) {
            Ok(()) => {},
            Err(_) => {
                proof {
                    assert(!legal_moves_of(ms.take(i as int)).contains(ms[i as int]));
                }
                return None;
            },
        }
        proof {
            assert(g.hist() =~= ms.take(i + 1 as int));
        }
        i += 1;
    }
    proof {
        assert(ms.take(ms.len() as int) =~= ms);
    }
    Some(g)
}

/// An autonomous participant playing one side, holding a private replica of
/// the game rebuilt solely from received updates.
pub struct Bot {
    /// The side this bot plays.
    pub me: Player,
    /// The bot's shadow of the authoritative game.
    pub shadow: Game,
    /// The last outcome the bot was told of; once it is `Some`, the bot stops
    /// issuing moves but keeps observing updates.
    pub current_outcome: Option<ChessOutcome>,
    /// Whether the bot has halted on a desynchronization.
    pub failed: bool,
}

impl Bot {
    /// A fresh bot for the given side, shadowing a game in the default
    /// starting position.
    pub fn new(me: Player) -> (b: Bot)
        ensures
            b.me == me,
            b.shadow.hist() == Seq::<u16>::empty(),
            b.current_outcome is None,
            !b.failed,
    {
        Bot { me, shadow: Game::new(), current_outcome: None, failed: false }
    }

    /// Handles one update from the orchestrator and says what to do next.
    /// The whole behaviour is `bot_transition`: snapshots resynchronize the
    /// shadow; a move report is checked against the shadow's turn and move
    /// count and applied, and the bot asks for a search when the move makes
    /// it its own turn in a game it does not know to be over; a mismatch, an
    /// unreplayable snapshot, or a rejection of the bot's own move halts the
    /// bot.
    pub fn on_update(&mut self, update: ChessUpdate) -> (a: BotAction)
        requires
            !old(self).failed,
        ensures
            bot_transition(*old(self), *final(self), update, a),
            a is Halt <==> final(self).failed,
    {
        match update {
            ChessUpdate::Board { movelist } => {
                let replayed = match movelist {
                    Some(ml) => replay_moves(&ml),
                    None => Some(Game::new()),
                };
                match replayed {
                    Some(g) => {
                        self.shadow = g;
                        BotAction::Idle
                    },
                    None => {
                        self.failed = true;
                        BotAction::Halt
                    },
                }
            },
            ChessUpdate::PlayerMove { player, last_move, moves_played } => {
                if self.current_outcome.is_some() {
                    return BotAction::Idle;
                }
                let t = self.shadow.turn();
                let count_matches = (moves_played as usize) == self.shadow.movelist().len();
                if !(t == player && count_matches) {
                    self.failed = true;
                    return BotAction::Halt;
                }
                match self.shadow.move_piece(last_move) {
                    Err(_) => {
                        self.failed = true;
                        BotAction::Halt
                    },
                    Ok(()) => {
                        if self.shadow.turn() == self.me {
                            BotAction::Search
                        } else {
                            BotAction::Idle
                        }
                    },
                }
            },
            ChessUpdate::MovePieceFailedResponse { .. } => {
                self.failed = true;
                BotAction::Halt
            },
            ChessUpdate::Outcome { outcome } => {
                self.current_outcome = outcome;
                BotAction::Idle
            },
            _ => BotAction::Idle,
        }
    }
}

} // verus!
