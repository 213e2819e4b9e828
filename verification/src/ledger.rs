//! The instructions that the operations hand to the token ledger.

use crate::state::Pubkey;
use vstd::prelude::*;

verus! {

/// The first seed of every pool authority: the bytes of `pool`.
pub open spec fn pool_seed_prefix() -> Seq<u8> {
    seq![112u8, 111u8, 111u8, 108u8]
}

/// What it takes to sign for a pool: the two token types of the pair and the
/// pool's nonce. The authority is no stored secret; the ledger rebuilds it
/// from these seeds.
#[derive(Clone, Copy, Debug, PartialEq, Eq)]
pub struct PoolSigner {
    pub token_a_mint: Pubkey,
    pub token_b_mint: Pubkey,
    pub bump: u8,
}

impl PoolSigner {
    /// The seeds in the order the ledger expects them.
    pub open spec fn spec_seeds(self) -> Seq<Seq<u8>> {
        seq![
            pool_seed_prefix(),
            self.token_a_mint.bytes@,
            self.token_b_mint.bytes@,
            seq![self.bump],
        ]
    }

    /// The signer of the pool of `token_a_mint` and `token_b_mint` with nonce `bump`.
    pub fn new(token_a_mint: Pubkey, token_b_mint: Pubkey, bump: u8) -> (res: PoolSigner)
        ensures
            res == (PoolSigner { token_a_mint, token_b_mint, bump }),
    {
        PoolSigner { token_a_mint, token_b_mint, bump }
    }

    /// Writes out the four seeds: `pool`, the two token types, the nonce.
    pub fn seeds(&self) -> (res: Vec<Vec<u8>>)
        ensures
            res.deep_view() == self.spec_seeds(),
    {
        let prefix: Vec<u8> = vec![112u8, 111u8, 111u8, 108u8];
        let token_a = key_bytes(&self.token_a_mint);
        let token_b = key_bytes(&self.token_b_mint);
        let nonce: Vec<u8> = vec![self.bump];
        let res: Vec<Vec<u8>> = vec![prefix, token_a, token_b, nonce];
        assert(res.deep_view() =~~= self.spec_seeds());
        res
    }
}

/// The 32 bytes of an address.
pub fn key_bytes(key: &Pubkey) -> (res: Vec<u8>)
    ensures
        res@ == key.bytes@,
{
    let mut res: Vec<u8> = Vec::new();
    let mut i: usize = 0;
    while i < 32
        invariant
            i <= 32,
            res@ == key.bytes@.subrange(0, i as int),
        decreases 32 - i,
    {
        res.push(key.bytes[i]);
        i = i + 1;
        assert(res@ =~= key.bytes@.subrange(0, i as int));
    }
    assert(key.bytes@.subrange(0, 32) =~= key.bytes@);
    res
}

/// Move `amount` of the token `mint` from one account to another. The ledger
/// refuses the transfer unless `decimals` is what it has on record for `mint`.
#[derive(Clone, Copy, Debug, PartialEq, Eq)]
pub struct TransferChecked {
    pub from: Pubkey,
    pub mint: Pubkey,
    pub to: Pubkey,
    pub authority: Pubkey,
    /// Present where the authority is a pool rather than a wallet.
    pub signer: Option<PoolSigner>,
    pub amount: u64,
    pub decimals: u8,
}

/// Issue `amount` new units of `mint` to the account `to`, signed by the pool.
#[derive(Clone, Copy, Debug, PartialEq, Eq)]
pub struct MintTo {
    pub mint: Pubkey,
    pub to: Pubkey,
    pub authority: Pubkey,
    pub signer: PoolSigner,
    pub amount: u64,
}

/// Destroy `amount` units of `mint` held in the account `from`, signed by its owner.
#[derive(Clone, Copy, Debug, PartialEq, Eq)]
pub struct BurnChecked {
    pub mint: Pubkey,
    pub from: Pubkey,
    pub authority: Pubkey,
    pub amount: u64,
    pub decimals: u8,
}

} // verus!
