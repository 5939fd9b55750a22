use amm_migration::accounts::AccountId;
use amm_migration::accounts::Instruction;
use amm_migration::codec::AmmInstruction;
use amm_migration::codec::InitializeInstruction2;
use amm_migration::migrate::migrate;
use amm_migration::migrate::CpiDispatch;
use amm_migration::migrate::ExternalError;
use amm_migration::migrate::MigrationAccounts;
use amm_migration::migrate::MigrationError;
use amm_migration::migrate::Pool;
use amm_migration::migrate::PoolAuthority;
use amm_migration::migrate::QuoteConfig;
use amm_migration::migrate::ReservesSnapshot;

fn id(tag: u8) -> AccountId {
    AccountId { bytes: [tag; 32] }
}

fn accounts() -> MigrationAccounts {
    MigrationAccounts {
        amm_program: id(1),
        token_program: id(2),
        associated_token_program: id(3),
        system_program: id(4),
        rent_sysvar: id(5),
        amm_pool: id(6),
        amm_authority: id(7),
        amm_open_orders: id(8),
        amm_lp_mint: id(9),
        amm_coin_vault: id(10),
        amm_pc_vault: id(11),
        amm_target_orders: id(12),
        amm_config: id(13),
        amm_create_fee_destination: id(14),
        market_program: id(15),
        market: id(16),
        pool_account: id(17),
        base_mint: id(18),
        quote_mint: id(19),
        base_vault: id(20),
        quote_vault: id(21),
        lp_vault: id(22),
        fee_vault: id(23),
    }
}

fn authority() -> PoolAuthority {
    PoolAuthority { key: id(42), nonce: 42 }
}

struct MockCpi {
    fail_transfer: bool,
    fail_execute: bool,
    transfers: Vec<(AccountId, AccountId, AccountId, u64)>,
    executed: Vec<Instruction>,
}

impl MockCpi {
    fn succeeding() -> MockCpi {
        MockCpi { fail_transfer: false, fail_execute: false, transfers: Vec::new(), executed: Vec::new() }
    }
}

impl CpiDispatch for MockCpi {
    fn transfer(
        &mut self,
        mint: &AccountId,
        from: &AccountId,
        to: &AccountId,
        _authority: &PoolAuthority,
        amount: u64,
    ) -> Result<(), ExternalError> {
        if self.fail_transfer {
            return Err(ExternalError);
        }
        self.transfers.push((*mint, *from, *to, amount));
        Ok(())
    }

    fn execute(
        &mut self,
        instruction: &Instruction,
        _authority: &PoolAuthority,
    ) -> Result<(), ExternalError> {
        if self.fail_execute {
            return Err(ExternalError);
        }
        self.executed.push(instruction.clone());
        Ok(())
    }
}

fn filled_pool() -> Pool {
    Pool { base_reserve: 500_000_000, quote_reserve: 1_000_000_000, is_filled: true, is_seeded: false }
}

fn snapshot() -> ReservesSnapshot {
    ReservesSnapshot { base_reserve: 500_000_000, quote_reserve: 1_000_000_000 }
}

fn config() -> QuoteConfig {
    QuoteConfig { seeding_fee_bps: 100 }
}

#[test]
fn unfilled_pool_fails_and_is_unchanged() {
    let mut pool = Pool { base_reserve: 11, quote_reserve: 22, is_filled: false, is_seeded: false };
    let before = pool;
    let mut cpi = MockCpi::succeeding();
    let r = migrate(&mut pool, &config(), &snapshot(), 12345, &authority(), &accounts(), &mut cpi);
    assert_eq!(r, Err(MigrationError::TradingNotEnded));
    assert_eq!(pool, before);
    assert!(cpi.transfers.is_empty());
    assert!(cpi.executed.is_empty());
}

#[test]
fn seeded_pool_fails_and_is_unchanged() {
    let mut pool = Pool { base_reserve: 0, quote_reserve: 0, is_filled: true, is_seeded: true };
    let before = pool;
    let mut cpi = MockCpi::succeeding();
    let r = migrate(&mut pool, &config(), &snapshot(), 12345, &authority(), &accounts(), &mut cpi);
    assert_eq!(r, Err(MigrationError::AlreadyMigrated));
    assert_eq!(pool, before);
    assert!(cpi.transfers.is_empty());
    assert!(cpi.executed.is_empty());
}

#[test]
fn successful_migration_end_to_end() {
    let mut pool = filled_pool();
    let mut cpi = MockCpi::succeeding();
    let r = migrate(&mut pool, &config(), &snapshot(), 12345, &authority(), &accounts(), &mut cpi);
    assert_eq!(r, Ok(()));

    // the one-percent fee moved from the quote vault to the fee vault
    assert_eq!(cpi.transfers, vec![(id(19), id(21), id(23), 10_000_000)]);

    // the dispatched instruction carries the crossed amounts
    assert_eq!(cpi.executed.len(), 1);
    let ix = &cpi.executed[0];
    assert_eq!(ix.program_id, id(1));
    let decoded = AmmInstruction::unpack(&ix.data).unwrap();
    assert_eq!(
        decoded,
        AmmInstruction::Initialize2(InitializeInstruction2 {
            nonce: 42,
            open_time: 12345,
            quote_amount: 500_000_000,
            base_amount: 990_000_000,
        })
    );

    // the positional account list: fixed programs first, the pool record as
    // the user-side signer, and the pool vaults as the user token accounts
    assert_eq!(ix.accounts.len(), 21);
    assert_eq!(ix.accounts[0].pubkey, id(2));
    assert!(!ix.accounts[0].is_writable);
    assert_eq!(ix.accounts[4].pubkey, id(6));
    assert!(ix.accounts[4].is_writable);
    assert_eq!(ix.accounts[8].pubkey, id(19));
    assert_eq!(ix.accounts[9].pubkey, id(18));
    assert_eq!(ix.accounts[17].pubkey, id(17));
    assert!(ix.accounts[17].is_signer);
    assert_eq!(ix.accounts[18].pubkey, id(20));
    assert_eq!(ix.accounts[19].pubkey, id(21));
    assert_eq!(ix.accounts[20].pubkey, id(22));

    // the pool record reached its terminal form
    assert_eq!(
        pool,
        Pool { base_reserve: 0, quote_reserve: 0, is_filled: true, is_seeded: true }
    );
}

#[test]
fn failed_dispatch_leaves_pool_unchanged() {
    let mut pool = filled_pool();
    let before = pool;
    let mut cpi = MockCpi::succeeding();
    cpi.fail_execute = true;
    let r = migrate(&mut pool, &config(), &snapshot(), 12345, &authority(), &accounts(), &mut cpi);
    assert_eq!(r, Err(MigrationError::ExternalCallFailed));
    assert_eq!(pool, before);
}

#[test]
fn failed_fee_transfer_aborts_before_dispatch() {
    let mut pool = filled_pool();
    let before = pool;
    let mut cpi = MockCpi::succeeding();
    cpi.fail_transfer = true;
    let r = migrate(&mut pool, &config(), &snapshot(), 12345, &authority(), &accounts(), &mut cpi);
    assert_eq!(r, Err(MigrationError::ExternalCallFailed));
    assert_eq!(pool, before);
    assert!(cpi.executed.is_empty());
}

#[test]
fn oversized_rate_is_reported_as_underflow() {
    // a rate above ten thousand basis points breaks the configuration
    // invariant; the defensive check reports it instead of wrapping
    let mut pool = filled_pool();
    let before = pool;
    let mut cpi = MockCpi::succeeding();
    let bad = QuoteConfig { seeding_fee_bps: 10001 };
    let snap = ReservesSnapshot { base_reserve: 1, quote_reserve: 10_000 };
    let r = migrate(&mut pool, &bad, &snap, 12345, &authority(), &accounts(), &mut cpi);
    assert_eq!(r, Err(MigrationError::ArithmeticUnderflow));
    assert_eq!(pool, before);
    assert!(cpi.transfers.is_empty());
}

#[test]
fn zero_reserves_still_migrate() {
    let mut pool = Pool { base_reserve: 0, quote_reserve: 0, is_filled: true, is_seeded: false };
    let mut cpi = MockCpi::succeeding();
    let snap = ReservesSnapshot { base_reserve: 0, quote_reserve: 0 };
    let r = migrate(&mut pool, &config(), &snap, 7, &authority(), &accounts(), &mut cpi);
    assert_eq!(r, Ok(()));
    assert_eq!(cpi.transfers, vec![(id(19), id(21), id(23), 0)]);
    assert_eq!(
        pool,
        Pool { base_reserve: 0, quote_reserve: 0, is_filled: true, is_seeded: true }
    );
}
