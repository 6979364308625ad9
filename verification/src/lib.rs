//! Session orchestration core for a two-player chess match with spectators.
//!
//! The crate owns the protocol types (`ChessRequest`, `ChessUpdate`), the
//! authoritative game state (`Game`, backed by the `pleco` rules engine), the
//! session orchestrator (`Session`), and the bot actor (`Bot`).  Channel
//! plumbing, searching and serialization live outside the library.

mod player;
mod square;
mod bit_move_wrapper;
mod game;
mod proto;
mod session;
mod bot;

pub use player::Player;
pub use square::Square;
pub use bit_move_wrapper::BitMoveWrapper;
pub use bit_move_wrapper::EncodeError;
pub use bit_move_wrapper::raw_of;
pub use bit_move_wrapper::src_of;
pub use bit_move_wrapper::dst_of;
pub use game::Game;
pub use game::ChessOutcome;
pub use game::EngineError;
pub use game::legal_moves_of;
pub use game::checkmate_of;
pub use game::stalemate_of;
pub use game::turn_of;
pub use game::outcome_of;
pub use game::pairs_of;
pub use game::replay_legal;
pub use proto::ChessConfig;
pub use proto::ChessRequest;
pub use proto::ChessUpdate;
pub use session::Session;
pub use session::SessionInitError;
pub use session::Effect;
pub use session::transition;
pub use session::spectator_denied_case;
pub use session::query_board_case;
pub use session::query_total_case;
pub use session::query_outcome_case;
pub use session::move_piece_case;
pub use session::abort_case;
pub use session::undo_case;
pub use session::spec_undo_allowed;
pub use session::spec_undo_right_time;
pub use session::is_board_update;
pub use session::is_possible_moves_update;
pub use session::is_outcome_update;
pub use session::is_spectator_denied_reply;
pub use session::is_undo_failed_reply;
pub use session::msg_spectator_denied;
pub use session::msg_move_denied;
pub use session::msg_undo_not_permitted;
pub use session::msg_undo_wrong_time_or_over;
pub use session::msg_undo_wrong_time;
pub use session::msg_undo_denied;
pub use session::is_outcome_broadcast;
pub use session::carries_possible_moves;
pub use session::count_outcome_broadcasts;
pub use session::lemma_moves_one_at_a_time_match_engine;
pub use session::lemma_rejected_move_changes_nothing;
pub use session::lemma_spectator_requests;
pub use session::lemma_undo_not_permitted;
pub use session::lemma_concluding_move_outcome_once;
pub use bot::Bot;
pub use bot::BotAction;
pub use bot::bot_transition;
