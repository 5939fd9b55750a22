//! Migration orchestration: drives one pool's transition from
//! filled-but-unseeded to migrated as a single logical transaction.
//!
//! The orchestrator checks the pool's gates, withholds the seeding fee from
//! the quote reserve, builds and dispatches the initialization instruction
//! under the pool's delegated authority, and finalizes the pool record only
//! after the external call succeeds. Every failure surfaces as an error with
//! the pool record untouched; the surrounding all-or-nothing transaction is
//! relied upon to roll the fee transfer back together with a failed
//! dispatch.

use vstd::prelude::*;
use vstd::arithmetic::mul::lemma_mul_upper_bound;
use crate::accounts::AccountId;
use crate::accounts::AmmKeys;
use crate::accounts::Instruction;
use crate::accounts::initialize_amm;
use crate::fee::lemma_seeding_fee_bound;
use crate::fee::seeding_fee;
use crate::fee::spec_seeding_fee;

verus! {

/// One bonding-curve pool's persisted migration state.
#[derive(Clone, Copy, Debug, PartialEq, Eq, Structural)]
pub struct Pool {
    pub base_reserve: u64,
    pub quote_reserve: u64,
    pub is_filled: bool,
    pub is_seeded: bool,
}

impl Pool {
    /// Persisted-state invariant: a seeded pool is filled and its reserve
    /// counters are zero.
    pub open spec fn wf(self) -> bool {
        self.is_seeded ==> (self.is_filled && self.base_reserve == 0 && self.quote_reserve == 0)
    }
}

/// Per-quote-asset configuration, immutable during a migration call.
#[derive(Clone, Copy, Debug, PartialEq, Eq, Structural)]
pub struct QuoteConfig {
    /// Seeding fee rate in basis points.
    pub seeding_fee_bps: u16,
}

impl QuoteConfig {
    /// Configuration invariant: the rate is at most ten thousand basis
    /// points, so the fee never exceeds the reserve it is taken from.
    pub open spec fn wf(self) -> bool {
        self.seeding_fee_bps <= 10000
    }
}

/// Authoritative vault balances read at the start of a migration; the
/// vaults, not the pool record, are ground truth for the amounts moved.
#[derive(Clone, Copy, Debug, PartialEq, Eq, Structural)]
pub struct ReservesSnapshot {
    pub base_reserve: u64,
    pub quote_reserve: u64,
}

/// Capability to sign on behalf of one pool: the derived key and the salt
/// it was derived with.
#[derive(Clone, Copy, Debug, PartialEq, Eq)]
pub struct PoolAuthority {
    pub key: AccountId,
    /// Salt of the key derivation; also the nonce of the outbound request.
    pub nonce: u8,
}

/// Failure reported by the execution environment for a delegated call: the
/// token ledger or the external program rejected it.
#[derive(Clone, Copy, Debug, PartialEq, Eq, Structural)]
pub struct ExternalError;

/// Why a migration call failed.
#[derive(Clone, Copy, Debug, PartialEq, Eq, Structural)]
pub enum MigrationError {
    /// The pool's bonding curve has not sold out yet.
    TradingNotEnded,
    /// The pool is already in its terminal migrated state.
    AlreadyMigrated,
    /// The fee would exceed the reserve it is withheld from.
    ArithmeticUnderflow,
    /// A reserve computation would exceed its integer width.
    ArithmeticOverflow,
    /// The fee transfer or the dispatched instruction was rejected.
    ExternalCallFailed,
}

/// Capabilities the orchestrator needs from its execution environment.
/// Implementations live with the host runtime; the orchestrator's contract
/// states what holds of the pool whatever an implementation returns.
pub trait CpiDispatch {
    /// Transfers `amount` units of the asset `mint` from `from` to `to`,
    /// signed on behalf of the pool by `authority`.
    fn transfer(
        &mut self,
        mint: &AccountId,
        from: &AccountId,
        to: &AccountId,
        authority: &PoolAuthority,
        amount: u64,
    ) -> Result<(), ExternalError>;

    /// Dispatches `instruction` to the external program, signed on behalf
    /// of the pool by `authority`.
    fn execute(&mut self, instruction: &Instruction, authority: &PoolAuthority) -> Result<
        (),
        ExternalError,
    >;
}

/// The accounts one migration touches: the pool's own accounts, the fee
/// destination, and the identifiers the external program requires.
#[derive(Clone, Copy, Debug, PartialEq, Eq)]
pub struct MigrationAccounts {
    /// The external pool program to invoke.
    pub amm_program: AccountId,
    pub token_program: AccountId,
    pub associated_token_program: AccountId,
    pub system_program: AccountId,
    pub rent_sysvar: AccountId,
    /// The external pool registry slot and its derived accounts.
    pub amm_pool: AccountId,
    pub amm_authority: AccountId,
    pub amm_open_orders: AccountId,
    pub amm_lp_mint: AccountId,
    pub amm_coin_vault: AccountId,
    pub amm_pc_vault: AccountId,
    pub amm_target_orders: AccountId,
    pub amm_config: AccountId,
    pub amm_create_fee_destination: AccountId,
    /// Order-book program and market the external pool is tied to.
    pub market_program: AccountId,
    pub market: AccountId,
    /// This pool's record and vaults.
    pub pool_account: AccountId,
    pub base_mint: AccountId,
    pub quote_mint: AccountId,
    pub base_vault: AccountId,
    pub quote_vault: AccountId,
    /// Destination of the minted liquidity tokens.
    pub lp_vault: AccountId,
    /// Collector of the seeding fee.
    pub fee_vault: AccountId,
}

impl MigrationAccounts {
    /// The key set handed to the external program, in its coin/pc terms.
    /// The sides are crossed at this boundary on purpose: this pool's quote
    /// asset stands on the external coin side and its base asset on the pc
    /// side, the pool record stands as the user-side signer, and the base
    /// and quote vaults stand as the user-side token accounts.
    pub fn amm_keys(&self) -> (keys: AmmKeys)
        ensures
            keys == (AmmKeys {
                token_program: self.token_program,
                associated_token_program: self.associated_token_program,
                system_program: self.system_program,
                rent_sysvar: self.rent_sysvar,
                amm_pool: self.amm_pool,
                amm_authority: self.amm_authority,
                amm_open_orders: self.amm_open_orders,
                amm_lp_mint: self.amm_lp_mint,
                amm_coin_mint: self.quote_mint,
                amm_pc_mint: self.base_mint,
                amm_coin_vault: self.amm_coin_vault,
                amm_pc_vault: self.amm_pc_vault,
                amm_target_orders: self.amm_target_orders,
                amm_config: self.amm_config,
                create_fee_destination: self.amm_create_fee_destination,
                market_program: self.market_program,
                market: self.market,
                user_wallet: self.pool_account,
                user_token_coin: self.base_vault,
                user_token_pc: self.quote_vault,
                user_token_lp: self.lp_vault,
            }),
    {
        AmmKeys {
            token_program: self.token_program,
            associated_token_program: self.associated_token_program,
            system_program: self.system_program,
            rent_sysvar: self.rent_sysvar,
            amm_pool: self.amm_pool,
            amm_authority: self.amm_authority,
            amm_open_orders: self.amm_open_orders,
            amm_lp_mint: self.amm_lp_mint,
            amm_coin_mint: self.quote_mint,
            amm_pc_mint: self.base_mint,
            amm_coin_vault: self.amm_coin_vault,
            amm_pc_vault: self.amm_pc_vault,
            amm_target_orders: self.amm_target_orders,
            amm_config: self.amm_config,
            create_fee_destination: self.amm_create_fee_destination,
            market_program: self.market_program,
            market: self.market,
            user_wallet: self.pool_account,
            user_token_coin: self.base_vault,
            user_token_pc: self.quote_vault,
            user_token_lp: self.lp_vault,
        }
    }
}

/// The fee withheld from the snapshot's quote reserve under `config`.
pub open spec fn spec_migration_fee(snapshot: ReservesSnapshot, config: QuoteConfig) -> int {
    spec_seeding_fee(snapshot.quote_reserve as int, config.seeding_fee_bps as int)
}

/// The terminal pool record after a successful migration.
pub open spec fn spec_migrated_pool() -> Pool {
    Pool { base_reserve: 0, quote_reserve: 0, is_filled: true, is_seeded: true }
}

/// Drives one pool from filled-but-unseeded to migrated.
///
/// The gates are checked, not assumed: an unfilled pool fails with
/// `TradingNotEnded`, an already seeded one with `AlreadyMigrated`, and both
/// leave the record untouched. Past the gates, the seeding fee is withheld
/// from the snapshot's quote reserve and moved to the fee vault, the
/// initialization request is built with the crossed side mapping (external
/// quote side carries this pool's base reserve; external base side carries
/// the quote reserve net of the fee) and dispatched under the pool's
/// authority, and only after both delegated calls succeed is the record set
/// to its terminal form with the reserve counters zeroed.
pub fn migrate<C: CpiDispatch>(
    pool: &mut Pool,
    config: &QuoteConfig,
    snapshot: &ReservesSnapshot,
    now: u64,
    authority: &PoolAuthority,
    accounts: &MigrationAccounts,
    cpi: &mut C,
) -> (r: Result<(), MigrationError>)
    ensures
        old(pool).wf() ==> final(pool).wf(),
        !old(pool).is_filled ==> r == Err::<(), MigrationError>(MigrationError::TradingNotEnded)
            && *final(pool) == *old(pool),
        old(pool).is_filled && old(pool).is_seeded ==> r == Err::<(), MigrationError>(
            MigrationError::AlreadyMigrated,
        ) && *final(pool) == *old(pool),
        old(pool).is_filled && !old(pool).is_seeded && spec_migration_fee(*snapshot, *config)
            > snapshot.quote_reserve ==> r == Err::<(), MigrationError>(
            MigrationError::ArithmeticUnderflow,
        ) && *final(pool) == *old(pool),
        old(pool).is_filled && !old(pool).is_seeded && spec_migration_fee(*snapshot, *config)
            <= snapshot.quote_reserve ==> match r {
            Ok(_) => *final(pool) == spec_migrated_pool(),
            Err(e) => e == MigrationError::ExternalCallFailed && *final(pool) == *old(pool),
        },
        config.wf() ==> spec_migration_fee(*snapshot, *config) <= snapshot.quote_reserve,
{
    proof {
        if config.seeding_fee_bps <= 10000 {
            lemma_seeding_fee_bound(snapshot.quote_reserve as int, config.seeding_fee_bps as int);
        }
        lemma_mul_upper_bound(
            snapshot.quote_reserve as int,
            u64::MAX as int,
            config.seeding_fee_bps as int,
            u16::MAX as int,
        );
    }
    if !pool.is_filled {
        return Err(MigrationError::TradingNotEnded);
    }
    if pool.is_seeded {
        return Err(MigrationError::AlreadyMigrated);
    }

    let base_reserve = snapshot.base_reserve;
    let quote_reserve = snapshot.quote_reserve;
    let fee_wide = seeding_fee(quote_reserve as u128, config.seeding_fee_bps);
    if fee_wide > quote_reserve as u128 {
        return Err(MigrationError::ArithmeticUnderflow);
    }
    let fee = fee_wide as u64;
    let net_quote = quote_reserve - fee;

    match cpi.transfer(
        &accounts.quote_mint,
        &accounts.quote_vault,
        &accounts.fee_vault,
        authority,
        fee,
    ) {
        Ok(_) => {},
        Err(_) => {
            return Err(MigrationError::ExternalCallFailed);
        },
    }

    let keys = accounts.amm_keys();
    let ix = initialize_amm(
        &accounts.amm_program,
        &keys,
        authority.nonce,
        now,
        base_reserve,
        net_quote,
    );
    match cpi.execute(&ix, authority) {
        Ok(_) => {},
        Err(_) => {
            return Err(MigrationError::ExternalCallFailed);
        },
    }

    pool.is_seeded = true;
    pool.base_reserve = 0;
    pool.quote_reserve = 0;
    Ok(())
}

} // verus!
