//! Decision core of a cross-venue arbitrage scanner for three
//! concentrated-liquidity exchanges on one chain.
//!
//! Every real quantity (prices, liquidity, profit) is carried as the bit
//! pattern of an IEEE-754 binary64 number, see [`double::Double`]. The
//! library compares and truncates such numbers exactly; it never adds or
//! multiplies them. Callers do the arithmetic and hand the results in.

pub mod address;
pub mod amount;
pub mod catalog;
pub mod config;
pub mod double;
pub mod factory;
pub mod hexcodec;
pub mod pool;
pub mod quote;
pub mod registry;
pub mod scan;
pub mod shm;
pub mod tier;
pub mod wire;
