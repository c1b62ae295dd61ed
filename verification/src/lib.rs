//! A chess engine core: a fixed-depth negamax search with alpha-beta
//! pruning, a capture-only quiescence extension, an MVV-LVA move orderer
//! and a material/mobility evaluator.  Board representation, legal-move
//! generation and game-termination detection come from the `chess` crate,
//! reached only through the trusted boundary in `rules`; everything the
//! engine itself decides is specified and verified against the model in
//! `model`.

pub mod model;
pub mod rules;
pub mod eval;
pub mod search;
pub mod codec;
pub mod laws;

pub use eval::evaluate_game_over;
pub use eval::evaluate_out_of_check;
pub use eval::evaluate_position;
pub use eval::score_moves_count;
pub use eval::score_pieces_count;
pub use search::best_move;
pub use search::choose_move;
pub use search::evaluate_only_stable;
pub use search::score_move;
pub use search::sort_captures;
pub use codec::move_bytes;
pub use model::GameStatus;
pub use model::Mv;
pub use model::PieceKind;
