use chess_session::BitMoveWrapper;
use chess_session::Bot;
use chess_session::BotAction;
use chess_session::ChessOutcome;
use chess_session::ChessUpdate;
use chess_session::Player;

/// Looks a legal move up by its squares on a board reached by the given raw
/// move codes, using the engine directly.
fn find_move(history: &[u16], src: u8, dst: u8) -> BitMoveWrapper {
    let mut board = pleco::Board::start_pos();
    for raw in history {
        board.apply_move(pleco::BitMove::new(*raw));
    }
    for m in board.generate_moves().iter() {
        if m.get_src_u8() == src && m.get_dest_u8() == dst {
            return BitMoveWrapper::from(*m);
        }
    }
    panic!("no legal move from {} to {}", src, dst);
}

const E2: u8 = 12;
const E4: u8 = 28;
const E5: u8 = 36;
const E7: u8 = 52;

#[test]
fn bot_searches_when_opponent_move_makes_it_its_turn() {
    let mut bot = Bot::new(Player::Black);
    let mv = find_move(&[], E2, E4);
    let action = bot.on_update(ChessUpdate::PlayerMove {
        player: Player::White,
        last_move: mv,
        moves_played: 0,
    });
    assert_eq!(action, BotAction::Search);
    assert!(!bot.failed);
    assert_eq!(bot.shadow.movelist().len(), 1);
}

#[test]
fn bot_stays_idle_on_its_own_echoed_move() {
    let mut bot = Bot::new(Player::White);
    let mv = find_move(&[], E2, E4);
    let action = bot.on_update(ChessUpdate::PlayerMove {
        player: Player::White,
        last_move: mv,
        moves_played: 0,
    });
    assert_eq!(action, BotAction::Idle);
    assert_eq!(bot.shadow.movelist().len(), 1);
}

#[test]
fn bot_halts_on_move_count_mismatch() {
    let mut bot = Bot::new(Player::Black);
    let mv = find_move(&[], E2, E4);
    let action = bot.on_update(ChessUpdate::PlayerMove {
        player: Player::White,
        last_move: mv,
        moves_played: 5,
    });
    assert_eq!(action, BotAction::Halt);
    assert!(bot.failed);
    assert_eq!(bot.shadow.movelist().len(), 0);
}

#[test]
fn bot_halts_on_turn_mismatch() {
    let mut bot = Bot::new(Player::Black);
    let white = find_move(&[], E2, E4);
    let black = find_move(&[white.bit_move], E7, E5);
    let action = bot.on_update(ChessUpdate::PlayerMove {
        player: Player::Black,
        last_move: black,
        moves_played: 0,
    });
    assert_eq!(action, BotAction::Halt);
    assert!(bot.failed);
}

#[test]
fn bot_halts_when_its_own_move_is_rejected() {
    let mut bot = Bot::new(Player::Black);
    let action = bot.on_update(ChessUpdate::MovePieceFailedResponse {
        message: String::from("rejected"),
        rollback_move: BitMoveWrapper { bit_move: 0 },
    });
    assert_eq!(action, BotAction::Halt);
    assert!(bot.failed);
}

#[test]
fn bot_resynchronizes_from_board_snapshot() {
    let mut bot = Bot::new(Player::White);
    let white = find_move(&[], E2, E4);
    let snapshot = vec![white];
    let action = bot.on_update(ChessUpdate::Board { movelist: Some(snapshot) });
    assert_eq!(action, BotAction::Idle);
    assert_eq!(bot.shadow.movelist().len(), 1);

    let black = find_move(&[white.bit_move], E7, E5);
    let action = bot.on_update(ChessUpdate::PlayerMove {
        player: Player::Black,
        last_move: black,
        moves_played: 1,
    });
    assert_eq!(action, BotAction::Search);
}

#[test]
fn bot_halts_on_unreplayable_snapshot() {
    let mut bot = Bot::new(Player::White);
    let garbage = vec![BitMoveWrapper { bit_move: (E2 as u16) | ((E5 as u16) << 6) }];
    let action = bot.on_update(ChessUpdate::Board { movelist: Some(garbage) });
    assert_eq!(action, BotAction::Halt);
    assert!(bot.failed);
}

#[test]
fn bot_stops_issuing_moves_once_the_game_concluded() {
    let mut bot = Bot::new(Player::Black);
    let action = bot.on_update(ChessUpdate::Outcome {
        outcome: Some(ChessOutcome::Stalemate),
    });
    assert_eq!(action, BotAction::Idle);
    let mv = find_move(&[], E2, E4);
    let action = bot.on_update(ChessUpdate::PlayerMove {
        player: Player::White,
        last_move: mv,
        moves_played: 0,
    });
    assert_eq!(action, BotAction::Idle);
    assert_eq!(bot.shadow.movelist().len(), 0);
}

#[test]
fn bot_ignores_updates_meant_for_display() {
    let mut bot = Bot::new(Player::Black);
    let action = bot.on_update(ChessUpdate::PossibleMoves { possible_moves: Vec::new() });
    assert_eq!(action, BotAction::Idle);
    let action = bot.on_update(ChessUpdate::GenericErrorResponse {
        message: String::from("noise"),
    });
    assert_eq!(action, BotAction::Idle);
    let action = bot.on_update(ChessUpdate::MovesUndone { who: Player::White, moves: 1 });
    assert_eq!(action, BotAction::Idle);
}
