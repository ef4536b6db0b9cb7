//! Forwarding a call to an exchange.

use vstd::prelude::*;
use crate::address::Address;
use crate::address::Signer;
use crate::state::vault::TokenAccount;

verus! {

/// An account that a caller hands to an operation.
#[derive(Clone, Copy, Debug)]
pub struct AccountInfo {
    pub key: Address,
    pub is_signer: bool,
    pub is_writable: bool,
}

/// An account as an instruction names it.
#[derive(Clone, Copy, Debug)]
pub struct AccountMeta {
    pub pubkey: Address,
    pub is_signer: bool,
    pub is_writable: bool,
}

/// A call to another program.
#[derive(Debug)]
pub struct Instruction {
    pub program_id: Address,
    pub accounts: Vec<AccountMeta>,
    pub data: Vec<u8>,
}

/// What `swap_tokens` works on.
#[derive(Debug)]
pub struct SwapTokens {
    /// The caller.
    pub payer: Signer,
    /// The exchange.
    pub swap_program: Address,
    pub source_token_account: TokenAccount,
    pub dest_token_account: TokenAccount,
    /// The accounts that the exchange asks for, in its order.
    pub remaining_accounts: Vec<AccountInfo>,
}

/// How an instruction names `account`.
pub open spec fn meta_of(account: AccountInfo) -> AccountMeta {
    AccountMeta {
        pubkey: account.key,
        is_signer: account.is_signer,
        is_writable: account.is_writable,
    }
}

/// Makes the call that forwards `data` to the exchange: to the exchange's
/// program, with the caller's accounts in their order and each with its own
/// rights, and with the data as it came.
///
/// The engine neither reads the data nor settles anything here.
pub fn swap_tokens(ctx: &SwapTokens, data: Vec<u8>) -> (instruction: Instruction)
    ensures
        instruction.program_id == ctx.swap_program,
        instruction.data == data,
        instruction.accounts@ == ctx.remaining_accounts@.map_values(
            |account: AccountInfo| meta_of(account),
        ),
{
    let mut accounts: Vec<AccountMeta> = Vec::new();
    let mut i: usize = 0;
    while i < ctx.remaining_accounts.len()
        invariant
            i <= ctx.remaining_accounts@.len(),
            accounts@.len() == i,
            forall|j: int| 0 <= j < i ==> accounts@[j] == meta_of(ctx.remaining_accounts@[j]),
        decreases ctx.remaining_accounts@.len() - i,
    {
        let account = &ctx.remaining_accounts[i];
        accounts.push(
            AccountMeta {
                pubkey: account.key,
                is_signer: account.is_signer,
                is_writable: account.is_writable,
            },
        );
        i += 1;
    }
    assert(accounts@ =~= ctx.remaining_accounts@.map_values(
        |account: AccountInfo| meta_of(account),
    ));
    Instruction { program_id: ctx.swap_program, accounts, data }
}

} // verus!
