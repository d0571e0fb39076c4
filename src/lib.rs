//! A multi-venue swap router.
//!
//! A swap request is charged a protocol fee, the rest is quoted at every
//! configured liquidity venue, a routing strategy picks the venue, the
//! caller's minimum output is enforced, the swap executes through that venue,
//! and only then is the protocol fee collected.
//!
//! - `fee`: fee rates in parts per million and floor-rounded fee arithmetic.
//! - `assets`: asset identifiers, accounts and balances.
//! - `traits`: the venue, fee-collector and routing-strategy interfaces, and
//!   best-price selection.
//! - `adapters`: the pool-engine and ledger interfaces, the constant-product
//!   venue and the default fee collector.
//! - `adapters_extended`: further venues, the multi-venue manager, the
//!   policy-aware strategy and the strategy-sized fee collector.
//! - `router`: the swap protocol.
pub mod adapters;
pub mod adapters_extended;
pub mod assets;
pub mod fee;
pub mod router;
pub mod traits;
