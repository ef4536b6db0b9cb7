//! Creating the configuration of a deployment.

use vstd::prelude::*;
use crate::address::Address;
use crate::address::Signer;
use crate::errors::PayChainError;
use crate::state::config::byte_len;
use crate::state::config::Config;
use crate::state::config::MAX_CHAIN_ID_BYTES;

verus! {

/// The fixed base fee of a new deployment: half a unit of a currency with six
/// decimals.
pub const INITIAL_FIXED_BASE_FEE: u64 = 500_000;

/// The fee rate of a new deployment: 0.3 %.
pub const INITIAL_FEE_RATE_BPS: u16 = 30;

/// What `initialize` works on.
#[derive(Debug)]
pub struct Initialize {
    /// The caller, who becomes the administrator.
    pub authority: Signer,
    pub fee_recipient: Address,
    /// The place of the configuration: empty until the deployment is
    /// initialised.
    pub config: Option<Config>,
    /// The bump seed of the configuration's address.
    pub config_bump: u8,
}

/// The configuration that a first `initialize` creates.
pub open spec fn initial_config(ctx: Initialize, router: Address, chain_id: String) -> Config {
    Config {
        authority: ctx.authority.key,
        fee_recipient: ctx.fee_recipient,
        router,
        fixed_base_fee: INITIAL_FIXED_BASE_FEE,
        fee_rate_bps: INITIAL_FEE_RATE_BPS,
        chain_id,
        bump: ctx.config_bump,
    }
}

/// Creates the configuration, once: the caller becomes the administrator, and
/// the fees start at their initial values.
///
/// Where a configuration exists already, nobody may create another: the call
/// is refused as unauthorized and the configuration stays as it is.
pub fn initialize(ctx: &mut Initialize, router: Address, chain_id: String) -> (result: Result<
    (),
    PayChainError,
>)
    requires
        byte_len(chain_id@) <= MAX_CHAIN_ID_BYTES,
    ensures
        old(ctx).config is Some ==> result == Err::<(), PayChainError>(PayChainError::Unauthorized)
            && *final(ctx) == *old(ctx),
        old(ctx).config is None ==> result == Ok::<(), PayChainError>(()) && *final(ctx) == (
        Initialize { config: Some(initial_config(*old(ctx), router, chain_id)), ..*old(ctx) }),
        final(ctx).config is Some,
        old(ctx).config is None ==> final(ctx).config.unwrap().wf(),
{
    if ctx.config.is_some() {
        return Err(PayChainError::Unauthorized);
    }
    ctx.config = Some(
        Config {
            authority: ctx.authority.key,
            fee_recipient: ctx.fee_recipient,
            router,
            fixed_base_fee: INITIAL_FIXED_BASE_FEE,
            fee_rate_bps: INITIAL_FEE_RATE_BPS,
            chain_id,
            bump: ctx.config_bump,
        },
    );
    Ok(())
}

} // verus!
