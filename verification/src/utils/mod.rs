//! The calculators the operations share.

pub mod bet;
pub mod direction;
pub mod math;
pub mod price;
pub mod time;
pub mod weight;

pub use bet::is_bet_winner;
pub use direction::calculate_direction_factor;
pub use price::normalize_price_to_u64;
pub use time::calculate_time_factor;
pub use weight::calculate_bet_weight;
