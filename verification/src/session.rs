//! The session orchestrator: the one owner of the authoritative game state.
//!
//! The orchestrator is a state machine.  Feeding it one `(sender, request)`
//! pair yields the list of `Effect`s to perform: directed replies to the
//! requester, private messages to one player, and broadcasts to everyone.
//! The surrounding task performs the sends and hands in the next pair, one at
//! a time, so no two requests are ever in flight against the game state.
use vstd::prelude::*;
use vstd::string::StringExecFns;
use crate::player::Player;
use crate::bit_move_wrapper::BitMoveWrapper;
use crate::game::Game;
use crate::game::legal_moves_of;
use crate::game::outcome_of;
use crate::game::turn_of;
use crate::game::pairs_of;
use crate::game::ChessOutcome;
use crate::proto::ChessConfig;
use crate::proto::ChessRequest;
use crate::proto::ChessUpdate;

verus! {

/// One send the orchestrator asks its surroundings to perform.
pub enum Effect {
    /// Send privately to whoever sent the request being handled.
    Reply(ChessUpdate),
    /// Send privately to the given player.
    Direct(Player, ChessUpdate),
    /// Send to all participants: both players and the spectators.
    Broadcast(ChessUpdate),
}

/// The error a session refuses to start with.
#[derive(Clone, Copy, Debug, PartialEq, Eq, Structural)]
pub enum SessionInitError {
    /// The configuration asks for a starting position other than the default,
    /// which sessions do not support: they fail fast instead of silently
    /// starting from the default.
    UnsupportedStartingPosition,
}

pub open spec fn msg_spectator_denied() -> Seq<char> {
    "Spectators can't send this kind of request!"@
}

pub open spec fn msg_move_denied() -> Seq<char> {
    "Denied by engine: the move is not legal in the current position."@
}

pub open spec fn msg_undo_not_permitted() -> Seq<char> {
    "You are not permitted to do that in this game."@
}

pub open spec fn msg_undo_wrong_time_or_over() -> Seq<char> {
    "You can only undo when you are playing or it's game over."@
}

pub open spec fn msg_undo_wrong_time() -> Seq<char> {
    "You can only undo when you are playing."@
}

pub open spec fn msg_undo_denied() -> Seq<char> {
    "Denied by engine: cannot undo that many moves."@
}

/// Whether the configuration lets this player undo at all.
pub open spec fn spec_undo_allowed(config: ChessConfig, p: Player) -> bool {
    match p {
        Player::White => config.can_white_undo,
        Player::Black => config.can_black_undo,
    }
}

/// Whether this is a moment at which the player may undo: while it is their
/// turn in an ongoing game, or at any time after the game has concluded when
/// the configuration allows that.
pub open spec fn spec_undo_right_time(hist: Seq<u16>, config: ChessConfig, p: Player) -> bool {
    (turn_of(hist) == p && outcome_of(hist) is None) || (outcome_of(hist) is Some
        && config.allow_undo_after_loose)
}

/// The update is a full board snapshot carrying exactly the given transcript.
pub open spec fn is_board_update(u: ChessUpdate, hist: Seq<u16>) -> bool {
    u matches ChessUpdate::Board { movelist: Some(ml) } && ml@.map_values(
        |w: BitMoveWrapper| w.bit_move,
    ) == hist
}

/// The update lists the legal moves of the position with the given transcript.
pub open spec fn is_possible_moves_update(u: ChessUpdate, hist: Seq<u16>) -> bool {
    u matches ChessUpdate::PossibleMoves { possible_moves } && possible_moves@ == pairs_of(
        legal_moves_of(hist),
    )
}

/// The update reports exactly the given outcome.
pub open spec fn is_outcome_update(u: ChessUpdate, o: Option<ChessOutcome>) -> bool {
    u matches ChessUpdate::Outcome { outcome } && outcome == o
}

/// The effect is the directed generic error a spectator gets for sending a
/// player-only request.
pub open spec fn is_spectator_denied_reply(e: Effect) -> bool {
    e matches Effect::Reply(ChessUpdate::GenericErrorResponse { message }) && message@
        == msg_spectator_denied()
}

/// The effect is a directed undo rejection with the given message.
pub open spec fn is_undo_failed_reply(e: Effect, msg: Seq<char>) -> bool {
    e matches Effect::Reply(ChessUpdate::UndoMovesFailedResponse { message }) && message@ == msg
}

/// A spectator sent a player-only request: the state is untouched and the
/// only send is a generic error back to the spectators.
pub open spec fn spectator_denied_case(pre: Session, post: Session, eff: Seq<Effect>) -> bool {
    &&& post == pre
    &&& eff.len() == 1
    &&& is_spectator_denied_reply(eff[0])
}

/// A board query: the state is untouched and the requester alone gets the
/// full move list.
pub open spec fn query_board_case(pre: Session, post: Session, eff: Seq<Effect>) -> bool {
    &&& post == pre
    &&& eff.len() == 1
    &&& (eff[0] matches Effect::Reply(u) && is_board_update(u, pre.game.hist()))
}

/// A move-count query: the state is untouched and the requester alone gets
/// the number of half-moves played.
pub open spec fn query_total_case(pre: Session, post: Session, eff: Seq<Effect>) -> bool {
    &&& post == pre
    &&& eff.len() == 1
    &&& (eff[0] matches Effect::Reply(ChessUpdate::CurrentTotalMovesReponse { total_moves })
        && total_moves as int == pre.game.hist().len())
}

/// An outcome query: the state is untouched and the requester alone gets the
/// current outcome.
pub open spec fn query_outcome_case(pre: Session, post: Session, eff: Seq<Effect>) -> bool {
    &&& post == pre
    &&& eff.len() == 1
    &&& (eff[0] matches Effect::Reply(u) && is_outcome_update(u, outcome_of(pre.game.hist())))
}

/// A move request from a player.  An engine-accepted move extends the
/// transcript by exactly that move and is broadcast with the count before it;
/// the outcome is broadcast exactly when it differs from before; the player
/// now on turn gets the fresh legal moves privately while the game is
/// ongoing.  An engine-rejected move leaves the state untouched and is
/// reported only to its sender, with the move to roll back.
pub open spec fn move_piece_case(
    pre: Session,
    post: Session,
    p: Player,
    mv: BitMoveWrapper,
    eff: Seq<Effect>,
) -> bool {
    if legal_moves_of(pre.game.hist()).contains(mv.bit_move) {
        let h0 = pre.game.hist();
        let h1 = pre.game.hist().push(mv.bit_move);
        let changed = outcome_of(h1) != outcome_of(h0);
        let ongoing = outcome_of(h1) is None;
        &&& post.game.hist() == h1
        &&& post.config == pre.config
        &&& post.ended == pre.ended
        &&& post.departed == pre.departed
        &&& eff.len() == 1 + (if changed {
            1 as int
        } else {
            0 as int
        }) + (if ongoing {
            1 as int
        } else {
            0 as int
        })
        &&& (eff[0] matches Effect::Broadcast(ChessUpdate::PlayerMove {
            player,
            last_move,
            moves_played,
        }) && player == p && last_move == mv && moves_played as int == h0.len())
        &&& (changed ==> (eff[1] matches Effect::Broadcast(u) && is_outcome_update(
            u,
            outcome_of(h1),
        )))
        &&& (ongoing ==> (eff[eff.len() - 1] matches Effect::Direct(q, u) && q == p.spec_other()
            && is_possible_moves_update(u, h1)))
    } else {
        &&& post == pre
        &&& eff.len() == 1
        &&& (eff[0] matches Effect::Reply(ChessUpdate::MovePieceFailedResponse {
            message,
            rollback_move,
        }) && message@ == msg_move_denied() && rollback_move == mv)
    }
}

/// A player left: the departure is recorded, the session ends, and nothing
/// further is sent.
pub open spec fn abort_case(pre: Session, post: Session, p: Player, eff: Seq<Effect>) -> bool {
    &&& post.game == pre.game
    &&& post.config == pre.config
    &&& post.ended == true
    &&& post.departed == Some(p)
    &&& eff.len() == 0
}

/// An undo request from a player, gated in order: the per-player permission,
/// then the moment (own turn in an ongoing game, or after the game concluded
/// when configured), then the engine.  Each rejection leaves the state
/// untouched and is reported only to the sender.  A performed undo truncates
/// the transcript, re-broadcasts the board, broadcasts the outcome exactly
/// when it differs, sends the fresh legal moves privately to whoever is now
/// on turn, and broadcasts who undid how many moves.
pub open spec fn undo_case(
    pre: Session,
    post: Session,
    p: Player,
    n: u16,
    eff: Seq<Effect>,
) -> bool {
    let h0 = pre.game.hist();
    if !spec_undo_allowed(pre.config, p) {
        &&& post == pre
        &&& eff.len() == 1
        &&& is_undo_failed_reply(eff[0], msg_undo_not_permitted())
    } else if !spec_undo_right_time(h0, pre.config, p) {
        &&& post == pre
        &&& eff.len() == 1
        &&& is_undo_failed_reply(
            eff[0],
            if pre.config.allow_undo_after_loose {
                msg_undo_wrong_time_or_over()
            } else {
                msg_undo_wrong_time()
            },
        )
    } else if n == 0 || n as int > h0.len() {
        &&& post == pre
        &&& eff.len() == 1
        &&& is_undo_failed_reply(eff[0], msg_undo_denied())
    } else {
        let h1 = h0.take(h0.len() - n as int);
        let changed = outcome_of(h1) != outcome_of(h0);
        &&& post.game.hist() == h1
        &&& post.config == pre.config
        &&& post.ended == pre.ended
        &&& post.departed == pre.departed
        &&& eff.len() == 3 + (if changed {
            1 as int
        } else {
            0 as int
        })
        &&& (eff[0] matches Effect::Broadcast(u) && is_board_update(u, h1))
        &&& (changed ==> (eff[1] matches Effect::Broadcast(u) && is_outcome_update(
            u,
            outcome_of(h1),
        )))
        &&& (eff[eff.len() - 2] matches Effect::Direct(q, u) && q == turn_of(h1)
            && is_possible_moves_update(u, h1))
        &&& (eff[eff.len() - 1] matches Effect::Broadcast(ChessUpdate::MovesUndone { who, moves })
            && who == p && moves == n)
    }
}

/// The whole request/update contract of the orchestrator: how one handled
/// request relates the state before to the state after and to the effects
/// performed.  Requests a spectator may not send are answered with a generic
/// error when no player identity accompanies them.
pub open spec fn transition(
    pre: Session,
    post: Session,
    sender: Option<Player>,
    request: ChessRequest,
    eff: Seq<Effect>,
) -> bool {
    match request {
        ChessRequest::CurrentBoard => query_board_case(pre, post, eff),
        ChessRequest::CurrentTotalMoves => query_total_case(pre, post, eff),
        ChessRequest::CurrentOutcome => query_outcome_case(pre, post, eff),
        ChessRequest::MovePiece { bit_move } => match sender {
            None => spectator_denied_case(pre, post, eff),
            Some(p) => move_piece_case(pre, post, p, bit_move, eff),
        },
        ChessRequest::Abort { .. } => match sender {
            None => spectator_denied_case(pre, post, eff),
            Some(p) => abort_case(pre, post, p, eff),
        },
        ChessRequest::UndoMoves { moves } => match sender {
            None => spectator_denied_case(pre, post, eff),
            Some(p) => undo_case(pre, post, p, moves, eff),
        },
    }
}

fn mk_spectator_denied() -> (u: ChessUpdate)
    ensures
        (u matches ChessUpdate::GenericErrorResponse { message } && message@
            == msg_spectator_denied()),
{
    ChessUpdate::GenericErrorResponse {
        message: String::from_str("Spectators can't send this kind of request!"),
    }
}

fn mk_move_denied(mv: BitMoveWrapper) -> (u: ChessUpdate)
    ensures
        (u matches ChessUpdate::MovePieceFailedResponse { message, rollback_move } && message@
            == msg_move_denied() && rollback_move == mv),
{
    ChessUpdate::MovePieceFailedResponse {
        message: String::from_str("Denied by engine: the move is not legal in the current position."),
        rollback_move: mv,
    }
}

fn mk_undo_failed(text: &str) -> (u: ChessUpdate)
    ensures
        (u matches ChessUpdate::UndoMovesFailedResponse { message } && message@ == text@),
{
    ChessUpdate::UndoMovesFailedResponse { message: String::from_str(text) }
}

fn outcome_eq(a: &Option<ChessOutcome>, b: &Option<ChessOutcome>) -> (r: bool)
    ensures
        r == (*a == *b),
{
    match (a, b) {
        (None, None) => true,
        (
            Some(ChessOutcome::Checkmate { loser: l1 }),
            Some(ChessOutcome::Checkmate { loser: l2 }),
        ) => *l1 == *l2,
        (Some(ChessOutcome::Stalemate), Some(ChessOutcome::Stalemate)) => true,
        _ => false,
    }
}

/// The session orchestrator: the authoritative game, the fixed configuration,
/// and whether (and on whose departure) the session ended.
pub struct Session {
    pub game: Game,
    pub config: ChessConfig,
    pub ended: bool,
    pub departed: Option<Player>,
}

impl Session {
    /// Builds a session for the given configuration, in the default starting
    /// position.  A configuration asking for another starting position is
    /// refused outright.
    pub fn new(config: ChessConfig) -> (r: Result<Session, SessionInitError>)
        ensures
            r is Ok <==> config.starting_fen is None,
            (r matches Ok(s) ==> s.game.hist() == Seq::<u16>::empty() && s.config == config
                && !s.ended && s.departed is None),
            (r matches Err(e) ==> e == SessionInitError::UnsupportedStartingPosition),
    {
        if config.starting_fen.is_some() {
            return Err(SessionInitError::UnsupportedStartingPosition);
        }
        Ok(Session { game: Game::new(), config, ended: false, departed: None })
    }

    /// The sends that open a session: a full board snapshot to everyone, then
    /// the legal moves privately to whoever has the first turn.
    pub fn initial_effects(&self) -> (effects: Vec<Effect>)
        ensures
            effects@.len() == 2,
            (effects@[0] matches Effect::Broadcast(u) && is_board_update(u, self.game.hist())),
            (effects@[1] matches Effect::Direct(p, u) && p == turn_of(self.game.hist())
                && is_possible_moves_update(u, self.game.hist())),
    {
        let mut effects: Vec<Effect> = Vec::new();
        effects.push(
            Effect::Broadcast(ChessUpdate::Board { movelist: Some(self.game.movelist_copy()) }),
        );
        effects.push(
            Effect::Direct(
                self.game.turn(),
                ChessUpdate::PossibleMoves { possible_moves: self.game.possible_move_pairs() },
            ),
        );
        effects
    }

    /// Handles one request from one sender (a player, or `None` for the
    /// spectators) and returns the sends to perform, in order.  The whole
    /// behaviour is `transition`; the bound on the transcript length only
    /// keeps the half-move count representable on the wire.
    ///
    /// The spectator check and the dispatch are one total case split: every
    /// player-only request without a player identity is answered up front, so
    /// no request can reach a branch that nobody authorized.
    pub fn handle_request(&mut self, sender: Option<Player>, request: ChessRequest) -> (effects:
        Vec<Effect>)
        requires
            !old(self).ended,
            old(self).game.hist().len() < 0xffff,
        ensures
            transition(*old(self), *final(self), sender, request, effects@),
    {
        let mut effects: Vec<Effect> = Vec::new();
        if sender.is_none() && !request.available_to_spectator() {
            effects.push(Effect::Reply(mk_spectator_denied()));
            return effects;
        }
        match request {
            ChessRequest::CurrentBoard => {
                effects.push(
                    Effect::Reply(
                        ChessUpdate::Board { movelist: Some(self.game.movelist_copy()) },
                    ),
                );
            },
            ChessRequest::CurrentTotalMoves => {
                effects.push(
                    Effect::Reply(
                        ChessUpdate::CurrentTotalMovesReponse {
                            total_moves: self.game.total_moves(),
                        },
                    ),
                );
            },
            ChessRequest::CurrentOutcome => {
                effects.push(
                    Effect::Reply(ChessUpdate::Outcome { outcome: self.game.outcome() }),
                );
            },
            ChessRequest::MovePiece { bit_move } => {
                let p = match sender {
                    Some(p) => p,
                    None => vstd::pervasive::unreached(),
                };
                let prev_outcome = self.game.outcome();
                let prev_count = self.game.total_moves();
                match self.game.move_piece(bit_move) {
                    Ok(()) => {
                        effects.push(
                            Effect::Broadcast(
                                ChessUpdate::PlayerMove {
                                    player: p,
                                    last_move: bit_move,
                                    moves_played: prev_count,
                                },
                            ),
                        );
                        let new_outcome = self.game.outcome();
                        if !outcome_eq(&prev_outcome, &new_outcome) {
                            effects.push(
                                Effect::Broadcast(ChessUpdate::Outcome { outcome: new_outcome }),
                            );
                        }
                        if new_outcome.is_none() {
                            effects.push(
                                Effect::Direct(
                                    p.other(),
                                    ChessUpdate::PossibleMoves {
                                        possible_moves: self.game.possible_move_pairs(),
                                    },
                                ),
                            );
                        }
                    },
                    Err(_) => {
                        effects.push(Effect::Reply(mk_move_denied(bit_move)));
                    },
                }
            },
            ChessRequest::Abort { .. } => {
                let p = match sender {
                    Some(p) => p,
                    None => vstd::pervasive::unreached(),
                };
                self.departed = Some(p);
                self.ended = true;
            },
            ChessRequest::UndoMoves { moves } => {
                let p = match sender {
                    Some(q) => q,
                    None => vstd::pervasive::unreached(),
                };
                let allowed = match p {
                    Player::White => self.config.can_white_undo,
                    Player::Black => self.config.can_black_undo,
                };
                if !allowed {
                    effects.push(
                        Effect::Reply(
                            mk_undo_failed("You are not permitted to do that in this game."),
                        ),
                    );
                } else {
                    let t = self.game.turn();
                    let oc = self.game.outcome();
                    let right_time = (t == p && oc.is_none()) || (oc.is_some()
                        && self.config.allow_undo_after_loose);
                    if !right_time {
                        if self.config.allow_undo_after_loose {
                            effects.push(
                                Effect::Reply(
                                    mk_undo_failed(
                                        "You can only undo when you are playing or it's game over.",
                                    ),
                                ),
                            );
                        } else {
                            effects.push(
                                Effect::Reply(
                                    mk_undo_failed("You can only undo when you are playing."),
                                ),
                            );
                        }
                    } else {
                        match self.game.undo(moves) {
                            Err(_) => {
                                effects.push(
                                    Effect::Reply(
                                        mk_undo_failed(
                                            "Denied by engine: cannot undo that many moves.",
                                        ),
                                    ),
                                );
                            },
                            Ok(()) => {
                                effects.push(
                                    Effect::Broadcast(
                                        ChessUpdate::Board {
                                            movelist: Some(self.game.movelist_copy()),
                                        },
                                    ),
                                );
                                let new_outcome = self.game.outcome();
                                if !outcome_eq(&oc, &new_outcome) {
                                    effects.push(
                                        Effect::Broadcast(
                                            ChessUpdate::Outcome { outcome: new_outcome },
                                        ),
                                    );
                                }
                                effects.push(
                                    Effect::Direct(
                                        self.game.turn(),
                                        ChessUpdate::PossibleMoves {
                                            possible_moves: self.game.possible_move_pairs(),
                                        },
                                    ),
                                );
                                effects.push(
                                    Effect::Broadcast(
                                        ChessUpdate::MovesUndone { who: p, moves },
                                    ),
                                );
                            },
                        }
                    }
                }
            },
        }
        effects
    }
}

/// The effect broadcasts an outcome to everyone.
pub open spec fn is_outcome_broadcast(e: Effect) -> bool {
    e matches Effect::Broadcast(ChessUpdate::Outcome { .. })
}

/// The effect carries a legal-move list, to whomever.
pub open spec fn carries_possible_moves(e: Effect) -> bool {
    match e {
        Effect::Reply(u) => u is PossibleMoves,
        Effect::Direct(_, u) => u is PossibleMoves,
        Effect::Broadcast(u) => u is PossibleMoves,
    }
}

/// How many of the effects broadcast an outcome.
pub open spec fn count_outcome_broadcasts(eff: Seq<Effect>) -> nat
    decreases eff.len(),
{
    if eff.len() == 0 {
        0
    } else {
        (if is_outcome_broadcast(eff[0]) {
            1 as nat
        } else {
            0 as nat
        }) + count_outcome_broadcasts(eff.drop_first())
    }
}

/// A move the rules engine rejects never changes the game: the transcript
/// (and with it the move count, the turn and the outcome) stays as it was,
/// and the only send is a rejection directed at the sender alone.
pub proof fn lemma_rejected_move_changes_nothing(
    pre: Session,
    post: Session,
    p: Player,
    mv: BitMoveWrapper,
    eff: Seq<Effect>,
)
    requires
        move_piece_case(pre, post, p, mv, eff),
        !legal_moves_of(pre.game.hist()).contains(mv.bit_move),
    ensures
        post == pre,
        eff.len() == 1,
        eff[0] is Reply,
        (eff[0] matches Effect::Reply(ChessUpdate::MovePieceFailedResponse {
            message,
            rollback_move,
        }) && message@ == msg_move_denied() && rollback_move == mv),
{
}

/// A read-only query from the spectators always succeeds with a directed
/// reply and changes nothing; any other request from the spectators yields a
/// directed generic error and changes nothing.  Either way the session state
/// is exactly as before.
pub proof fn lemma_spectator_requests(
    pre: Session,
    post: Session,
    request: ChessRequest,
    eff: Seq<Effect>,
)
    requires
        transition(pre, post, None, request, eff),
    ensures
        post == pre,
        eff.len() == 1,
        eff[0] is Reply,
        !request.spec_available_to_spectator() ==> is_spectator_denied_reply(eff[0]),
{
}

/// An undo request from a player whose configuration flag is off always
/// fails with the fixed permission message, whatever the turn or the
/// outcome, and changes nothing.
pub proof fn lemma_undo_not_permitted(
    pre: Session,
    post: Session,
    p: Player,
    n: u16,
    eff: Seq<Effect>,
)
    requires
        undo_case(pre, post, p, n, eff),
        !spec_undo_allowed(pre.config, p),
    ensures
        post == pre,
        eff.len() == 1,
        is_undo_failed_reply(eff[0], msg_undo_not_permitted()),
{
}

/// Applying a sequence of engine-accepted moves one at a time, each through
/// its own `MovePiece` request, leaves the session with the transcript of the
/// whole sequence: the same transcript — and so the same outcome and the same
/// move count — the rules engine reaches when the sequence is applied to it
/// directly.  `states` are the session states the run passes through,
/// `players`, `moves` and `effs` the sender, move and effects of each step.
pub proof fn lemma_moves_one_at_a_time_match_engine(
    states: Seq<Session>,
    players: Seq<Player>,
    moves: Seq<BitMoveWrapper>,
    effs: Seq<Seq<Effect>>,
)
    requires
        states.len() == moves.len() + 1,
        players.len() == moves.len(),
        effs.len() == moves.len(),
        forall|i: int|
            0 <= i < moves.len() ==> #[trigger] move_piece_case(
                states[i],
                states[i + 1],
                players[i],
                moves[i],
                effs[i],
            ),
        forall|i: int|
            0 <= i < moves.len() ==> #[trigger] legal_moves_of(states[i].game.hist()).contains(
                moves[i].bit_move,
            ),
    ensures
        states.last().game.hist() == states[0].game.hist() + moves.map_values(
            |w: BitMoveWrapper| w.bit_move,
        ),
        outcome_of(states.last().game.hist()) == outcome_of(
            states[0].game.hist() + moves.map_values(|w: BitMoveWrapper| w.bit_move),
        ),
        states.last().game.hist().len() == states[0].game.hist().len() + moves.len(),
    decreases moves.len(),
{
    let ms = moves.map_values(|w: BitMoveWrapper| w.bit_move);
    if moves.len() == 0 {
        assert(states.last() == states[0]);
        assert(states[0].game.hist() + ms =~= states[0].game.hist());
    } else {
        let k = moves.len() - 1;
        lemma_moves_one_at_a_time_match_engine(
            states.drop_last(),
            players.drop_last(),
            moves.drop_last(),
            effs.drop_last(),
        );
        assert(states.drop_last().last() == states[k]);
        assert(states.drop_last()[0] == states[0]);
        assert(move_piece_case(states[k], states[k + 1], players[k], moves[k], effs[k]));
        assert(states.last().game.hist() == states[k].game.hist().push(moves[k].bit_move));
        assert(moves.drop_last().map_values(|w: BitMoveWrapper| w.bit_move) =~= ms.drop_last());
        assert((states[0].game.hist() + ms.drop_last()).push(ms[k]) =~= states[0].game.hist()
            + ms);
    }
}

/// An accepted move that concludes a previously ongoing game broadcasts the
/// outcome exactly once and sends a legal-move list to nobody.
pub proof fn lemma_concluding_move_outcome_once(
    pre: Session,
    post: Session,
    p: Player,
    mv: BitMoveWrapper,
    eff: Seq<Effect>,
)
    requires
        move_piece_case(pre, post, p, mv, eff),
        legal_moves_of(pre.game.hist()).contains(mv.bit_move),
        outcome_of(pre.game.hist()) is None,
        outcome_of(pre.game.hist().push(mv.bit_move)) is Some,
    ensures
        eff.len() == 2,
        count_outcome_broadcasts(eff) == 1,
        forall|i: int| 0 <= i < eff.len() ==> !carries_possible_moves(eff[i]),
{
    let d1 = eff.drop_first();
    let d2 = d1.drop_first();
    assert(eff.len() == 2);
    assert(d1[0] == eff[1]);
    assert(d2.len() == 0);
    assert(!is_outcome_broadcast(eff[0]));
    assert(is_outcome_broadcast(eff[1]));
    assert(count_outcome_broadcasts(d2) == 0);
    assert(count_outcome_broadcasts(d1) == 1);
    assert forall|i: int| 0 <= i < eff.len() implies !carries_possible_moves(eff[i]) by {
        assert(i == 0 || i == 1);
    }
}

} // verus!
