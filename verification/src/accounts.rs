//! Modelled on-chain identifiers and the positional account list of the
//! external pool program's initialization call.
//!
//! The external program treats its account list positionally: a missing or
//! misordered entry makes it reject the call, so the order and the
//! writability flags below are part of the call's contract.

use vstd::prelude::*;
use crate::codec::AmmInstruction;
use crate::codec::InitializeInstruction2;
use crate::codec::spec_encode;

verus! {

/// Opaque 32-byte identifier of an on-chain account or program.
#[derive(Clone, Copy, Debug, PartialEq, Eq)]
pub struct AccountId {
    pub bytes: [u8; 32],
}

/// One positional entry of an instruction's account list.
#[derive(Clone, Copy, Debug, PartialEq, Eq)]
pub struct AccountMeta {
    pub pubkey: AccountId,
    pub is_signer: bool,
    pub is_writable: bool,
}

impl AccountMeta {
    /// A writable entry.
    pub fn new(pubkey: AccountId, is_signer: bool) -> (m: AccountMeta)
        ensures
            m == (AccountMeta { pubkey, is_signer, is_writable: true }),
    {
        AccountMeta { pubkey, is_signer, is_writable: true }
    }

    /// A read-only entry.
    pub fn new_readonly(pubkey: AccountId, is_signer: bool) -> (m: AccountMeta)
        ensures
            m == (AccountMeta { pubkey, is_signer, is_writable: false }),
    {
        AccountMeta { pubkey, is_signer, is_writable: false }
    }
}

/// An instruction for the external program: the program to invoke, its
/// positional account list, and the encoded request bytes.
#[derive(Clone, Debug, PartialEq, Eq)]
pub struct Instruction {
    pub program_id: AccountId,
    pub accounts: Vec<AccountMeta>,
    pub data: Vec<u8>,
}

/// The identifiers the external program's initialization call requires, in
/// its own coin/pc terms.
#[derive(Clone, Copy, Debug, PartialEq, Eq)]
pub struct AmmKeys {
    pub token_program: AccountId,
    pub associated_token_program: AccountId,
    pub system_program: AccountId,
    pub rent_sysvar: AccountId,
    pub amm_pool: AccountId,
    pub amm_authority: AccountId,
    pub amm_open_orders: AccountId,
    pub amm_lp_mint: AccountId,
    pub amm_coin_mint: AccountId,
    pub amm_pc_mint: AccountId,
    pub amm_coin_vault: AccountId,
    pub amm_pc_vault: AccountId,
    pub amm_target_orders: AccountId,
    pub amm_config: AccountId,
    pub create_fee_destination: AccountId,
    pub market_program: AccountId,
    pub market: AccountId,
    pub user_wallet: AccountId,
    pub user_token_coin: AccountId,
    pub user_token_pc: AccountId,
    pub user_token_lp: AccountId,
}

/// The account list of the initialization call, in the fixed order the
/// external program requires.
pub open spec fn spec_account_metas(keys: AmmKeys) -> Seq<AccountMeta> {
    seq![
        AccountMeta { pubkey: keys.token_program, is_signer: false, is_writable: false },
        AccountMeta { pubkey: keys.associated_token_program, is_signer: false, is_writable: false },
        AccountMeta { pubkey: keys.system_program, is_signer: false, is_writable: false },
        AccountMeta { pubkey: keys.rent_sysvar, is_signer: false, is_writable: false },
        AccountMeta { pubkey: keys.amm_pool, is_signer: false, is_writable: true },
        AccountMeta { pubkey: keys.amm_authority, is_signer: false, is_writable: false },
        AccountMeta { pubkey: keys.amm_open_orders, is_signer: false, is_writable: true },
        AccountMeta { pubkey: keys.amm_lp_mint, is_signer: false, is_writable: true },
        AccountMeta { pubkey: keys.amm_coin_mint, is_signer: false, is_writable: false },
        AccountMeta { pubkey: keys.amm_pc_mint, is_signer: false, is_writable: false },
        AccountMeta { pubkey: keys.amm_coin_vault, is_signer: false, is_writable: true },
        AccountMeta { pubkey: keys.amm_pc_vault, is_signer: false, is_writable: true },
        AccountMeta { pubkey: keys.amm_target_orders, is_signer: false, is_writable: true },
        AccountMeta { pubkey: keys.amm_config, is_signer: false, is_writable: false },
        AccountMeta { pubkey: keys.create_fee_destination, is_signer: false, is_writable: true },
        AccountMeta { pubkey: keys.market_program, is_signer: false, is_writable: false },
        AccountMeta { pubkey: keys.market, is_signer: false, is_writable: false },
        AccountMeta { pubkey: keys.user_wallet, is_signer: true, is_writable: true },
        AccountMeta { pubkey: keys.user_token_coin, is_signer: false, is_writable: true },
        AccountMeta { pubkey: keys.user_token_pc, is_signer: false, is_writable: true },
        AccountMeta { pubkey: keys.user_token_lp, is_signer: false, is_writable: true },
    ]
}

/// Builds the external pool-initialization instruction: the packed request
/// and the positional account list it requires.
pub fn initialize_amm(
    amm_program: &AccountId,
    keys: &AmmKeys,
    nonce: u8,
    open_time: u64,
    quote_amount: u64,
    base_amount: u64,
) -> (ix: Instruction)
    ensures
        ix.program_id == *amm_program,
        ix.data@ == spec_encode(
            AmmInstruction::Initialize2(
                InitializeInstruction2 { nonce, open_time, quote_amount, base_amount },
            ),
        ),
        ix.accounts@ == spec_account_metas(*keys),
{
    let init_data = AmmInstruction::Initialize2(
        InitializeInstruction2 { nonce, open_time, quote_amount, base_amount },
    );
    let data = init_data.pack();

    let mut accounts: Vec<AccountMeta> = Vec::new();
    accounts.push(AccountMeta::new_readonly(keys.token_program, false));
    accounts.push(AccountMeta::new_readonly(keys.associated_token_program, false));
    accounts.push(AccountMeta::new_readonly(keys.system_program, false));
    accounts.push(AccountMeta::new_readonly(keys.rent_sysvar, false));
    accounts.push(AccountMeta::new(keys.amm_pool, false));
    accounts.push(AccountMeta::new_readonly(keys.amm_authority, false));
    accounts.push(AccountMeta::new(keys.amm_open_orders, false));
    accounts.push(AccountMeta::new(keys.amm_lp_mint, false));
    accounts.push(AccountMeta::new_readonly(keys.amm_coin_mint, false));
    accounts.push(AccountMeta::new_readonly(keys.amm_pc_mint, false));
    accounts.push(AccountMeta::new(keys.amm_coin_vault, false));
    accounts.push(AccountMeta::new(keys.amm_pc_vault, false));
    accounts.push(AccountMeta::new(keys.amm_target_orders, false));
    accounts.push(AccountMeta::new_readonly(keys.amm_config, false));
    accounts.push(AccountMeta::new(keys.create_fee_destination, false));
    accounts.push(AccountMeta::new_readonly(keys.market_program, false));
    accounts.push(AccountMeta::new_readonly(keys.market, false));
    accounts.push(AccountMeta::new(keys.user_wallet, true));
    accounts.push(AccountMeta::new(keys.user_token_coin, false));
    accounts.push(AccountMeta::new(keys.user_token_pc, false));
    accounts.push(AccountMeta::new(keys.user_token_lp, false));
    proof {
        assert(accounts@ =~= spec_account_metas(*keys));
    }

    Instruction { program_id: *amm_program, accounts, data }
}

} // verus!
