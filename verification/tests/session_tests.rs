use chess_session::BitMoveWrapper;
use chess_session::ChessConfig;
use chess_session::ChessOutcome;
use chess_session::ChessRequest;
use chess_session::ChessUpdate;
use chess_session::Effect;
use chess_session::Player;
use chess_session::Session;
use chess_session::SessionInitError;

fn default_config() -> ChessConfig {
    ChessConfig {
        starting_fen: None,
        can_black_undo: false,
        can_white_undo: false,
        allow_undo_after_loose: false,
    }
}

/// Looks a legal move up by its squares on a board reached by the given raw
/// move codes, using the engine directly (as a remote client would).
fn find_move(history: &[u16], src: u8, dst: u8) -> BitMoveWrapper {
    let mut board = pleco::Board::start_pos();
    for raw in history {
        board.apply_move(pleco::BitMove::new(*raw));
    }
    for m in board.generate_moves().iter() {
        if m.get_src_u8() == src && m.get_dest_u8() == dst {
            return BitMoveWrapper::from(*m);
        }
    }
    panic!("no legal move from {} to {}", src, dst);
}

const E2: u8 = 12;
const E4: u8 = 28;
const E5: u8 = 36;
const E7: u8 = 52;
const F2: u8 = 13;
const F3: u8 = 21;
const G2: u8 = 14;
const G4: u8 = 30;
const D8: u8 = 59;
const H4: u8 = 31;

fn new_session(config: ChessConfig) -> Session {
    Session::new(config).expect("default session must start")
}

fn total_moves(session: &mut Session) -> u16 {
    let effects = session.handle_request(None, ChessRequest::CurrentTotalMoves);
    assert_eq!(effects.len(), 1);
    match &effects[0] {
        Effect::Reply(ChessUpdate::CurrentTotalMovesReponse { total_moves }) => *total_moves,
        _ => panic!("expected a move-count reply"),
    }
}

fn current_outcome(session: &mut Session) -> Option<ChessOutcome> {
    let effects = session.handle_request(None, ChessRequest::CurrentOutcome);
    assert_eq!(effects.len(), 1);
    match &effects[0] {
        Effect::Reply(ChessUpdate::Outcome { outcome }) => *outcome,
        _ => panic!("expected an outcome reply"),
    }
}

#[test]
fn session_refuses_non_default_start() {
    let config = ChessConfig {
        starting_fen: Some(String::from("8/8/8/8/8/8/8/8 w - - 0 1")),
        can_black_undo: false,
        can_white_undo: false,
        allow_undo_after_loose: false,
    };
    match Session::new(config) {
        Err(SessionInitError::UnsupportedStartingPosition) => {}
        _ => panic!("a non-default starting position must be refused"),
    }
}

#[test]
fn initial_effects_snapshot_then_moves_for_white() {
    let session = new_session(default_config());
    let effects = session.initial_effects();
    assert_eq!(effects.len(), 2);
    match &effects[0] {
        Effect::Broadcast(ChessUpdate::Board { movelist: Some(ml) }) => assert!(ml.is_empty()),
        _ => panic!("expected a board broadcast first"),
    }
    match &effects[1] {
        Effect::Direct(Player::White, ChessUpdate::PossibleMoves { possible_moves }) => {
            assert_eq!(possible_moves.len(), 20);
        }
        _ => panic!("expected the legal moves to go privately to White"),
    }
}

#[test]
fn white_opening_move_is_broadcast_with_prior_count() {
    let mut session = new_session(default_config());
    let mv = find_move(&[], E2, E4);
    let effects = session.handle_request(
        Some(Player::White),
        ChessRequest::MovePiece { bit_move: mv },
    );
    assert_eq!(effects.len(), 2);
    match &effects[0] {
        Effect::Broadcast(ChessUpdate::PlayerMove { player, last_move, moves_played }) => {
            assert_eq!(*player, Player::White);
            assert_eq!(*last_move, mv);
            assert_eq!(*moves_played, 0);
        }
        _ => panic!("expected the move to be broadcast first"),
    }
    for e in &effects {
        match e {
            Effect::Broadcast(ChessUpdate::Outcome { .. }) => {
                panic!("no outcome broadcast for an ordinary move")
            }
            _ => {}
        }
    }
    match &effects[1] {
        Effect::Direct(Player::Black, ChessUpdate::PossibleMoves { possible_moves }) => {
            assert_eq!(possible_moves.len(), 20);
        }
        _ => panic!("expected the legal moves to go privately to Black"),
    }
    assert_eq!(total_moves(&mut session), 1);
}

#[test]
fn rejected_move_changes_nothing_and_answers_sender_only() {
    let mut session = new_session(default_config());
    // e2 to e5 is not a chess move; craft its raw code by hand.
    let bad = BitMoveWrapper { bit_move: (E2 as u16) | ((E5 as u16) << 6) };
    let effects = session.handle_request(
        Some(Player::White),
        ChessRequest::MovePiece { bit_move: bad },
    );
    assert_eq!(effects.len(), 1);
    match &effects[0] {
        Effect::Reply(ChessUpdate::MovePieceFailedResponse { message, rollback_move }) => {
            assert_eq!(*rollback_move, bad);
            assert!(message.starts_with("Denied by engine:"));
        }
        _ => panic!("expected a rejection directed at the sender"),
    }
    assert_eq!(total_moves(&mut session), 0);
    assert_eq!(current_outcome(&mut session), None);
    // The turn did not change: White's e2e4 is still accepted.
    let mv = find_move(&[], E2, E4);
    let effects = session.handle_request(
        Some(Player::White),
        ChessRequest::MovePiece { bit_move: mv },
    );
    assert_eq!(effects.len(), 2);
}

#[test]
fn spectator_queries_succeed() {
    let mut session = new_session(default_config());
    let effects = session.handle_request(None, ChessRequest::CurrentBoard);
    assert_eq!(effects.len(), 1);
    match &effects[0] {
        Effect::Reply(ChessUpdate::Board { movelist: Some(ml) }) => assert!(ml.is_empty()),
        _ => panic!("expected a board reply"),
    }
    assert_eq!(total_moves(&mut session), 0);
    assert_eq!(current_outcome(&mut session), None);
}

#[test]
fn spectator_player_request_yields_generic_error() {
    let mut session = new_session(default_config());
    let mv = find_move(&[], E2, E4);
    let effects = session.handle_request(None, ChessRequest::MovePiece { bit_move: mv });
    assert_eq!(effects.len(), 1);
    match &effects[0] {
        Effect::Reply(ChessUpdate::GenericErrorResponse { message }) => {
            assert_eq!(message.as_str(), "Spectators can't send this kind of request!");
        }
        _ => panic!("expected a generic error reply"),
    }
    assert_eq!(total_moves(&mut session), 0);
    let effects = session.handle_request(None, ChessRequest::UndoMoves { moves: 1 });
    assert_eq!(effects.len(), 1);
    match &effects[0] {
        Effect::Reply(ChessUpdate::GenericErrorResponse { .. }) => {}
        _ => panic!("expected a generic error reply"),
    }
}

#[test]
fn undo_without_permission_fails_with_fixed_message() {
    let mut config = default_config();
    config.can_black_undo = false;
    config.can_white_undo = true;
    let mut session = new_session(config);
    let effects = session.handle_request(Some(Player::Black), ChessRequest::UndoMoves { moves: 1 });
    assert_eq!(effects.len(), 1);
    match &effects[0] {
        Effect::Reply(ChessUpdate::UndoMovesFailedResponse { message }) => {
            assert_eq!(message.as_str(), "You are not permitted to do that in this game.");
        }
        _ => panic!("expected an undo rejection directed at the sender"),
    }
    assert_eq!(total_moves(&mut session), 0);
    assert_eq!(current_outcome(&mut session), None);
}

#[test]
fn undo_off_turn_fails_with_timing_message() {
    let mut config = default_config();
    config.can_white_undo = true;
    let mut session = new_session(config);
    let mv = find_move(&[], E2, E4);
    session.handle_request(Some(Player::White), ChessRequest::MovePiece { bit_move: mv });
    let effects = session.handle_request(Some(Player::White), ChessRequest::UndoMoves { moves: 1 });
    assert_eq!(effects.len(), 1);
    match &effects[0] {
        Effect::Reply(ChessUpdate::UndoMovesFailedResponse { message }) => {
            assert_eq!(message.as_str(), "You can only undo when you are playing.");
        }
        _ => panic!("expected an undo rejection"),
    }
    assert_eq!(total_moves(&mut session), 1);
}

#[test]
fn undo_too_many_moves_is_denied_by_engine() {
    let mut config = default_config();
    config.can_white_undo = true;
    let mut session = new_session(config);
    let effects = session.handle_request(Some(Player::White), ChessRequest::UndoMoves { moves: 1 });
    assert_eq!(effects.len(), 1);
    match &effects[0] {
        Effect::Reply(ChessUpdate::UndoMovesFailedResponse { message }) => {
            assert_eq!(message.as_str(), "Denied by engine: cannot undo that many moves.");
        }
        _ => panic!("expected an undo rejection"),
    }
}

#[test]
fn undo_success_rebroadcasts_board_and_notifies() {
    let mut config = default_config();
    config.can_white_undo = true;
    let mut session = new_session(config);
    let white = find_move(&[], E2, E4);
    session.handle_request(Some(Player::White), ChessRequest::MovePiece { bit_move: white });
    let black = find_move(&[white.bit_move], E7, E5);
    session.handle_request(Some(Player::Black), ChessRequest::MovePiece { bit_move: black });
    assert_eq!(total_moves(&mut session), 2);

    let effects = session.handle_request(Some(Player::White), ChessRequest::UndoMoves { moves: 2 });
    assert_eq!(effects.len(), 3);
    match &effects[0] {
        Effect::Broadcast(ChessUpdate::Board { movelist: Some(ml) }) => assert!(ml.is_empty()),
        _ => panic!("expected the board to be re-broadcast"),
    }
    match &effects[1] {
        Effect::Direct(Player::White, ChessUpdate::PossibleMoves { possible_moves }) => {
            assert_eq!(possible_moves.len(), 20);
        }
        _ => panic!("expected the legal moves to go to whoever is on turn"),
    }
    match &effects[2] {
        Effect::Broadcast(ChessUpdate::MovesUndone { who, moves }) => {
            assert_eq!(*who, Player::White);
            assert_eq!(*moves, 2);
        }
        _ => panic!("expected everyone to learn of the undo"),
    }
    assert_eq!(total_moves(&mut session), 0);
}

#[test]
fn abort_ends_session_without_updates() {
    let mut session = new_session(default_config());
    let effects = session.handle_request(
        Some(Player::White),
        ChessRequest::Abort { message: String::from("connection lost") },
    );
    assert!(effects.is_empty());
    assert!(session.ended);
    assert_eq!(session.departed, Some(Player::White));
}

#[test]
fn concluding_move_broadcasts_outcome_once_and_no_moves() {
    let mut session = new_session(default_config());
    // The fastest checkmate: 1. f3 e5 2. g4 Qh4#.
    let mut hist: Vec<u16> = Vec::new();
    for (who, src, dst) in [
        (Player::White, F2, F3),
        (Player::Black, E7, E5),
        (Player::White, G2, G4),
    ] {
        let mv = find_move(&hist, src, dst);
        let effects = session.handle_request(Some(who), ChessRequest::MovePiece { bit_move: mv });
        assert_eq!(effects.len(), 2);
        hist.push(mv.bit_move);
    }
    let mate = find_move(&hist, D8, H4);
    let effects = session.handle_request(
        Some(Player::Black),
        ChessRequest::MovePiece { bit_move: mate },
    );
    assert_eq!(effects.len(), 2);
    match &effects[0] {
        Effect::Broadcast(ChessUpdate::PlayerMove { player, moves_played, .. }) => {
            assert_eq!(*player, Player::Black);
            assert_eq!(*moves_played, 3);
        }
        _ => panic!("expected the move broadcast first"),
    }
    match &effects[1] {
        Effect::Broadcast(ChessUpdate::Outcome { outcome }) => {
            assert_eq!(*outcome, Some(ChessOutcome::Checkmate { loser: Player::White }));
        }
        _ => panic!("expected exactly one outcome broadcast and nothing else"),
    }
    assert_eq!(
        current_outcome(&mut session),
        Some(ChessOutcome::Checkmate { loser: Player::White })
    );
}

#[test]
fn available_to_spectator_covers_exactly_the_queries() {
    let mv = BitMoveWrapper { bit_move: 0 };
    assert!(ChessRequest::CurrentBoard.available_to_spectator());
    assert!(ChessRequest::CurrentTotalMoves.available_to_spectator());
    assert!(ChessRequest::CurrentOutcome.available_to_spectator());
    assert!(!ChessRequest::MovePiece { bit_move: mv }.available_to_spectator());
    assert!(!ChessRequest::Abort { message: String::new() }.available_to_spectator());
    assert!(!ChessRequest::UndoMoves { moves: 1 }.available_to_spectator());
}

#[test]
fn move_code_round_trips_and_decodes_squares() {
    let mv = find_move(&[], E2, E4);
    assert_eq!(mv.source().index, E2);
    assert_eq!(mv.destination().index, E4);
    let engine_value = mv.to_bit_move();
    assert_eq!(engine_value.get_raw(), mv.bit_move);
    let back = BitMoveWrapper::new(engine_value).expect("wrapping cannot fail");
    assert_eq!(back, mv);
}
