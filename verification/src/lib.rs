use vstd::prelude::*;

pub mod errors;
pub mod ledger;
pub mod multiplier;
pub mod pvp;
pub mod solo;

pub use errors::SolbombsError;
pub use ledger::AccountKey;
pub use ledger::Treasury;
pub use multiplier::calculate_multiplier_bps;
pub use pvp::PvpGameState;
pub use pvp::convert_pvp_to_robot;
pub use pvp::join_pvp;
pub use pvp::resolve_pvp;
pub use pvp::start_pvp;
pub use solo::GameState;
pub use solo::cash_out;
pub use solo::resolve_loss;
pub use solo::reveal_safe;
pub use solo::start_solo;

verus! {

/// Smallest stake accepted for any game, in lamports.
pub const MIN_WAGER_LAMPORTS: u64 = 10_000;

} // verus!
