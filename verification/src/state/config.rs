//! The configuration of a deployment.

use vstd::prelude::*;
use crate::address::Address;
use crate::state::vault::VaultAuthority;

verus! {

/// Longest chain identifier, in bytes.
pub const MAX_CHAIN_ID_BYTES: usize = 64;

/// Highest fee rate: one whole, in basis points.
pub const MAX_FEE_RATE_BPS: u16 = 10000;

/// The number of bytes that a text takes.
pub open spec fn byte_len(text: Seq<char>) -> nat {
    vstd::utf8::encode_utf8(text).len()
}

/// Whether `text` takes at most `limit` bytes.
pub fn fits_in_bytes(text: &String, limit: usize) -> (fits: bool)
    ensures
        fits == (byte_len(text@) <= limit),
{
    text.as_str().as_bytes().len() <= limit
}

/// The one configuration record of a deployment.
#[derive(Clone, Debug)]
pub struct Config {
    /// The administrator.
    pub authority: Address,
    pub fee_recipient: Address,
    /// The trusted bridge router.
    pub router: Address,
    /// The least fee, in the smallest unit of the currency.
    pub fixed_base_fee: u64,
    /// The fee rate, in basis points.
    pub fee_rate_bps: u16,
    /// This deployment's chain identifier.
    pub chain_id: String,
    pub bump: u8,
}

impl Config {
    /// The rate is at most one whole and the chain identifier is short enough.
    pub open spec fn wf(&self) -> bool {
        &&& self.fee_rate_bps <= MAX_FEE_RATE_BPS
        &&& byte_len(self.chain_id@) <= MAX_CHAIN_ID_BYTES
    }

    /// Whether this configuration is well formed.
    pub fn is_well_formed(&self) -> (ok: bool)
        ensures
            ok == self.wf(),
    {
        self.fee_rate_bps <= MAX_FEE_RATE_BPS && fits_in_bytes(&self.chain_id, MAX_CHAIN_ID_BYTES)
    }

    /// The engine's own signing authority over the vault of this
    /// configuration.
    pub(crate) fn vault_authority(&self) -> (authority: VaultAuthority)
        ensures
            authority.bump_seed() == self.bump,
    {
        VaultAuthority::derive(self.bump)
    }
}

} // verus!
