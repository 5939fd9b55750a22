//! Migration of a bonding-curve pool's accumulated reserves into an external
//! automated-market-maker pool.
//!
//! The crate holds three pieces: the fixed-layout binary codec for the
//! cross-program initialization request ([`codec`]), the seeding-fee
//! computation applied to the quote reserve ([`fee`]), and the orchestration
//! that gates migration on the pool's fill status and finalizes the pool
//! record only after the external call succeeds ([`migrate`]). The [`lp`]
//! module holds the liquidity-token burn amount computation used after a
//! constant-product pool is seeded.

pub mod accounts;
pub mod codec;
pub mod fee;
pub mod lp;
pub mod migrate;
