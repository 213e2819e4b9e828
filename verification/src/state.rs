//! The accounts that the operations read, as plain values.

use vstd::prelude::*;

verus! {

/// The address of an account on the ledger.
#[derive(Clone, Copy, Debug, PartialEq, Eq)]
pub struct Pubkey {
    pub bytes: [u8; 32],
}

/// A token type as the ledger registers it.
#[derive(Clone, Copy, Debug, PartialEq, Eq)]
pub struct Mint {
    pub key: Pubkey,
    /// Digits after the decimal point; the ledger checks it on every transfer.
    pub decimals: u8,
    /// Units issued and not burned.
    pub supply: u64,
}

/// A balance of one token type.
#[derive(Clone, Copy, Debug, PartialEq, Eq)]
pub struct TokenAccount {
    pub key: Pubkey,
    pub amount: u64,
}

/// The record of one trading pair. It names the pair, its two vaults and its
/// share token, and holds no balance: the reserves are whatever the vaults
/// hold when an operation starts.
#[derive(Clone, Copy, Debug, PartialEq, Eq)]
pub struct Pool {
    pub token_a_mint: Pubkey,
    pub token_b_mint: Pubkey,
    pub vault_a: Pubkey,
    pub vault_b: Pubkey,
    pub lp_mint: Pubkey,
    /// The nonce that completes the seeds of the pool's signing authority.
    pub bump: u8,
}

/// The account that stores a [`Pool`]. Its address owns the vaults and the
/// share token, so it is the authority of every transfer out of a vault and of
/// every issue of shares.
#[derive(Clone, Copy, Debug, PartialEq, Eq)]
pub struct PoolAccount {
    pub key: Pubkey,
    pub pool: Pool,
}

} // verus!
