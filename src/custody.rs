use vstd::prelude::*;

use crate::errors::ErrorCode;
use crate::state::{ConfidentialTokenAccount, Key};

verus! {

/// The seeds of a pool's derived signing address: `"pool"`, the pool's
/// address and its bump.
pub open spec fn pool_signer_seeds(pool_address: Seq<u8>, bump: u8) -> Seq<Seq<u8>> {
    seq![seq![112u8, 111u8, 111u8, 108u8], pool_address, seq![bump]]
}

/// Authority to move funds out of a pool, derived from the pool's own
/// address; only `for_pool` builds one.
#[derive(Clone, Debug)]
pub struct DerivedSigner {
    seeds: Vec<Vec<u8>>,
}

impl DerivedSigner {
    pub closed spec fn spec_seeds(&self) -> Seq<Seq<u8>> {
        self.seeds@.map_values(|s: Vec<u8>| s@)
    }

    /// The signer of the pool at `pool_address` with bump `bump`.
    pub fn for_pool(pool_address: &Key, bump: u8) -> (r: DerivedSigner)
        ensures
            r.spec_seeds() == pool_signer_seeds(pool_address@, bump),
    {
        let mut address: Vec<u8> = Vec::new();
        let mut i: usize = 0;
        while i < 32
            invariant
                0 <= i <= 32,
                pool_address@.len() == 32,
                address@ == pool_address@.subrange(0, i as int),
            decreases 32 - i,
        {
            address.push(pool_address[i]);
            i = i + 1;
        }
        assert(address@ =~= pool_address@);
        let tag: Vec<u8> = vec![112u8, 111u8, 111u8, 108u8];
        let bump_seed: Vec<u8> = vec![bump];
        assert(tag@ =~= seq![112u8, 111u8, 111u8, 108u8]);
        assert(bump_seed@ =~= seq![bump]);
        let mut seeds: Vec<Vec<u8>> = Vec::new();
        seeds.push(tag);
        seeds.push(address);
        seeds.push(bump_seed);
        let r = DerivedSigner { seeds };
        assert(r.spec_seeds() =~= pool_signer_seeds(pool_address@, bump));
        r
    }
}

/// Moves `amount` from `from` to `to` on `authority`'s signature through the
/// confidential token program. The program's transfer instruction is not
/// wired in: the transfer is accepted and the commitments are left to it.
pub(crate) fn confidential_transfer(
    from: &ConfidentialTokenAccount,
    to: &ConfidentialTokenAccount,
    authority: &Key,
    amount: u64,
) -> (r: Result<(), ErrorCode>)
    ensures
        r is Ok,
{
    Ok(())
}

/// As `confidential_transfer`, authorised by a pool's derived signer.
pub(crate) fn confidential_transfer_with_signer(
    from: &ConfidentialTokenAccount,
    to: &ConfidentialTokenAccount,
    authority: &Key,
    amount: u64,
    signer: &DerivedSigner,
) -> (r: Result<(), ErrorCode>)
    ensures
        r is Ok,
{
    Ok(())
}

/// Mints `amount` confidentially into `to`. The program's mint instruction
/// is not wired in: the mint is accepted.
pub(crate) fn confidential_mint(to: &ConfidentialTokenAccount, amount: u64) -> (r: Result<(), ErrorCode>)
    ensures
        r is Ok,
{
    Ok(())
}

} // verus!
