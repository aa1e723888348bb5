//! The records the engine keeps, as plain values.

pub mod asset;
pub mod bet;
pub mod config;
pub mod group_asset;
pub mod oracle;
pub mod record;
pub mod round;

pub use asset::Asset;
pub use bet::Bet;
pub use config::Config;
pub use group_asset::GroupAsset;
pub use oracle::{OraclePrice, PriceUpdate};
pub use record::RecordHandle;
pub use round::Round;
