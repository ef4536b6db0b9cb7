//! Settling an inbound cross-chain message.

use vstd::prelude::*;
use crate::address::Address;
use crate::address::Signer;
use crate::errors::EngineError;
use crate::errors::PayChainError;
use crate::events::PaymentCompleted;
use crate::events::Settlement;
use crate::payload::decode;
use crate::payload::decoded;
use crate::pda::allow_list_address;
use crate::pda::allow_list_seeds;
use crate::pda::derived_view;
use crate::pda::execution_seeds;
use crate::pda::program_address;
use crate::pda::relay_signer_address;
use crate::state::config::Config;
use crate::state::vault::transfer_outcome;
use crate::state::vault::TokenAccount;
use crate::state::vault::Vault;

verus! {

/// An amount of one currency that came with a message.
#[derive(Clone, Copy, Debug)]
pub struct SVMTokenAmount {
    pub token: Address,
    pub amount: u64,
}

/// A message that a relay delivers from another chain.
#[derive(Clone, Debug)]
pub struct Any2SVMMessage {
    pub message_id: [u8; 32],
    /// The chain that the message says it comes from.
    pub source_chain_selector: u64,
    pub sender: [u8; 32],
    /// The payload.
    pub data: Vec<u8>,
    pub dest_token_amounts: Vec<SVMTokenAmount>,
}

/// What `ccip_receive` works on.
#[derive(Debug)]
pub struct CcipReceive {
    /// The identity of the program that the engine runs as.
    pub program_id: Address,
    /// The caller.
    pub authority: Signer,
    /// The relay program that the caller claims to sign for.
    pub offramp_program: Address,
    /// The allow-list entry that the caller presents.
    pub allowed_offramp: Address,
    pub config: Config,
    pub vault_token_account: Vault,
    /// The balance that the settlement is paid to.
    pub receiver_token_account: TokenAccount,
}

/// Whether a caller and the allow-list entry that it presents match the two
/// addresses derived for a delivery: the caller must be the address by which
/// the relay program signs, and the entry the one that the router keeps for
/// the relay program and the source chain.
pub open spec fn relay_matches(
    caller: Seq<u8>,
    presented_entry: Seq<u8>,
    relay_signer: Option<(Seq<u8>, u8)>,
    allow_list_entry: Option<(Seq<u8>, u8)>,
) -> bool {
    &&& relay_signer matches Some((signer, _)) && signer == caller
    &&& allow_list_entry matches Some((entry, _)) && entry == presented_entry
}

/// Whether the caller of a delivery from `source_chain_selector` is a relay
/// that the router of the configuration trusts for that chain.
pub open spec fn relay_authorized(ctx: CcipReceive, source_chain_selector: u64) -> bool {
    relay_matches(
        ctx.authority.key@,
        ctx.allowed_offramp@,
        program_address(execution_seeds(ctx.program_id@), ctx.offramp_program@),
        program_address(
            allow_list_seeds(source_chain_selector, ctx.offramp_program@),
            ctx.config.router@,
        ),
    )
}

/// Holds a caller and the allow-list entry that it presents against the two
/// derived addresses.
pub fn authorize_relay(
    caller: &Signer,
    presented_entry: &Address,
    relay_signer: Option<(Address, u8)>,
    allow_list_entry: Option<(Address, u8)>,
) -> (result: Result<(), PayChainError>)
    ensures
        result == if relay_matches(
            caller.key@,
            presented_entry@,
            derived_view(relay_signer),
            derived_view(allow_list_entry),
        ) {
            Ok::<(), PayChainError>(())
        } else {
            Err::<(), PayChainError>(PayChainError::Unauthorized)
        },
{
    proof {
        if relay_signer is Some {
            crate::address::lemma_address_by_bytes(relay_signer.unwrap().0, caller.key);
        }
        if allow_list_entry is Some {
            crate::address::lemma_address_by_bytes(allow_list_entry.unwrap().0, *presented_entry);
        }
    }
    match relay_signer {
        Some((signer, _)) => {
            if signer != caller.key {
                return Err(PayChainError::Unauthorized);
            }
        },
        None => {
            return Err(PayChainError::Unauthorized);
        },
    }
    match allow_list_entry {
        Some((entry, _)) => {
            if entry != *presented_entry {
                return Err(PayChainError::Unauthorized);
            }
        },
        None => {
            return Err(PayChainError::Unauthorized);
        },
    }
    Ok(())
}

/// Whether a delivery goes through, and why not.
///
/// The caller's capability is looked at first, whatever the payload holds;
/// then the payload's length; then the funds.
pub open spec fn receive_outcome(ctx: CcipReceive, message: Any2SVMMessage) -> Result<
    (),
    EngineError,
> {
    if !relay_authorized(ctx, message.source_chain_selector) {
        Err(EngineError::Rejected(PayChainError::Unauthorized))
    } else {
        match decoded(message.data@) {
            None => Err(EngineError::Rejected(PayChainError::InvalidMessageData)),
            Some(said) => match transfer_outcome(
                ctx.vault_token_account@,
                ctx.receiver_token_account.amount as nat,
                said.amount,
            ) {
                Ok(()) => Ok(()),
                Err(failure) => Err(EngineError::Transfer(failure)),
            },
        }
    }
}

/// Settles a delivery: checks that the caller is a relay that the router
/// trusts for the message's source chain, decodes the payload, and pays the
/// amount it names out of custody to the receiver's balance.
///
/// A refused or failed delivery changes nothing. The same message delivered
/// twice is paid twice: the engine keeps no register of settled messages.
pub fn ccip_receive(ctx: &mut CcipReceive, message: Any2SVMMessage) -> (result: Result<
    Settlement<PaymentCompleted>,
    EngineError,
>)
    ensures
        match receive_outcome(*old(ctx), message) {
            Err(refusal) => result == Err::<Settlement<PaymentCompleted>, EngineError>(refusal)
                && *final(ctx) == *old(ctx),
            Ok(()) => {
                &&& result matches Ok(done)
                &&& decoded(message.data@) matches Some(said)
                &&& done.transferred == said.amount
                &&& done.event.payment_id@ == said.payment_id
                &&& done.event.tx_hash@ == Seq::<char>::empty()
                &&& final(ctx).vault_token_account@ == old(ctx).vault_token_account@ - said.amount
                &&& final(ctx).receiver_token_account.amount
                    == old(ctx).receiver_token_account.amount + said.amount
                &&& final(ctx).program_id == old(ctx).program_id
                &&& final(ctx).authority == old(ctx).authority
                &&& final(ctx).offramp_program == old(ctx).offramp_program
                &&& final(ctx).allowed_offramp == old(ctx).allowed_offramp
                &&& final(ctx).config == old(ctx).config
            },
        },
{
    let relay_signer = relay_signer_address(&ctx.program_id, &ctx.offramp_program);
    let allow_list_entry = allow_list_address(
        message.source_chain_selector,
        &ctx.offramp_program,
        &ctx.config.router,
    );
    match authorize_relay(&ctx.authority, &ctx.allowed_offramp, relay_signer, allow_list_entry) {
        Ok(()) => {},
        Err(refusal) => {
            return Err(EngineError::Rejected(refusal));
        },
    }
    let said = match decode(message.data.as_slice()) {
        Ok(said) => said,
        Err(refusal) => {
            return Err(EngineError::Rejected(refusal));
        },
    };
    let authority = ctx.config.vault_authority();
    let amount = said.amount;
    match ctx.vault_token_account.release(&authority, &mut ctx.receiver_token_account, amount) {
        Ok(()) => {},
        Err(failure) => {
            return Err(EngineError::Transfer(failure));
        },
    }
    Ok(
        Settlement {
            transferred: said.amount,
            event: PaymentCompleted { payment_id: said.payment_id, tx_hash: String::new() },
        },
    )
}

/// A delivery with a payload of fewer than 96 bytes is never paid: from a
/// trusted relay it is refused with `InvalidMessageData`.
pub proof fn lemma_short_payload_refused(ctx: CcipReceive, message: Any2SVMMessage)
    requires
        message.data@.len() < 96,
    ensures
        receive_outcome(ctx, message) is Err,
        relay_authorized(ctx, message.source_chain_selector) ==> receive_outcome(ctx, message)
            == Err::<(), EngineError>(EngineError::Rejected(PayChainError::InvalidMessageData)),
{
}

/// A delivery by a caller that is not the address by which the relay program
/// signs is refused with `Unauthorized`, whatever the payload holds.
pub proof fn lemma_unsigned_delivery_refused(ctx: CcipReceive, message: Any2SVMMessage)
    requires
        program_address(execution_seeds(ctx.program_id@), ctx.offramp_program@) matches Some(
            (signer, _),
        ) ==> signer != ctx.authority.key@,
    ensures
        receive_outcome(ctx, message) == Err::<(), EngineError>(
            EngineError::Rejected(PayChainError::Unauthorized),
        ),
{
}

/// A delivery from a relay and source chain that the router's allow-list does
/// not hold is refused with `Unauthorized`, whatever the payload holds.
pub proof fn lemma_untrusted_relay_refused(ctx: CcipReceive, message: Any2SVMMessage)
    requires
        program_address(
            allow_list_seeds(message.source_chain_selector, ctx.offramp_program@),
            ctx.config.router@,
        ) matches Some((entry, _)) ==> entry != ctx.allowed_offramp@,
    ensures
        receive_outcome(ctx, message) == Err::<(), EngineError>(
            EngineError::Rejected(PayChainError::Unauthorized),
        ),
{
}

} // verus!
