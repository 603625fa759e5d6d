use crate::address::{
    derive_with_bump, is_same_address, program_address, with_bump, Address, PROGRAM_ID,
};
use crate::error::TokenError;
use vstd::prelude::*;

verus! {

/// The fixed seed from which the asset's address is derived: the bytes of
/// "mint-account".
pub const MINT_SEED: [u8; 12] = [109, 105, 110, 116, 45, 97, 99, 99, 111, 117, 110, 116];

/// Decimal precision of the asset.
pub const ASSET_DECIMALS: u8 = 6;

/// The seeds of the asset's address, without the bump.
pub open spec fn asset_seeds() -> Seq<Seq<u8>> {
    seq![MINT_SEED@]
}

/// The bump reproduces the address from the asset's seed.
pub open spec fn bump_derives(bump: u8, address: Address) -> bool {
    program_address(with_bump(asset_seeds(), bump), PROGRAM_ID@) == Some(address@)
}

/// Proof that the holder may act as the asset's own authority: the
/// authority's address together with the bump that reproduces it from the
/// asset's seed. No key signs for that address, so the proof is only ever
/// made by `sign_as_authority`, and it is neither copied nor cloned.
#[derive(Debug, PartialEq, Eq)]
pub struct SigningProof {
    authority: Address,
    bump: u8,
}

impl SigningProof {
    #[verifier::type_invariant]
    closed spec fn holds(self) -> bool {
        bump_derives(self.bump, self.authority)
    }

    /// The proof that speaks for the address with the bump.
    pub closed spec fn of(authority: Address, bump: u8) -> SigningProof {
        SigningProof { authority, bump }
    }

    /// A proof is told by the address it speaks for and its bump.
    pub proof fn lemma_of(authority: Address, bump: u8)
        ensures
            Self::of(authority, bump).authority() == authority,
            Self::of(authority, bump).bump() == bump,
    {
    }

    /// The address that the proof speaks for.
    pub closed spec fn spec_authority(&self) -> Address {
        self.authority
    }

    /// The bump of the proof.
    pub closed spec fn spec_bump(&self) -> u8 {
        self.bump
    }

    /// The address that the proof speaks for.
    #[verifier::when_used_as_spec(spec_authority)]
    pub fn authority(&self) -> (r: Address)
        ensures
            r == self.authority(),
    {
        self.authority
    }

    /// The bump of the proof.
    #[verifier::when_used_as_spec(spec_bump)]
    pub fn bump(&self) -> (r: u8)
        ensures
            r == self.bump(),
    {
        self.bump
    }

    /// The seeds that reproduce the authority's address: the asset's seed,
    /// then the bump as a seed of one byte.
    pub fn seeds(&self) -> (r: Vec<Vec<u8>>)
        ensures
            crate::address::seed_bytes(r@) == with_bump(asset_seeds(), self.bump()),
            bump_derives(self.bump(), self.authority()),
    {
        proof {
            use_type_invariant(self);
        }
        let mut seeds = mint_seeds();
        let mut last: Vec<u8> = Vec::new();
        last.push(self.bump);
        seeds.push(last);
        proof {
            assert(last@ =~= seq![self.bump]);
            assert(crate::address::seed_bytes(seeds@) =~= with_bump(asset_seeds(), self.bump));
        }
        seeds
    }
}

/// The asset's seed as a list of seeds.
pub fn mint_seeds() -> (r: Vec<Vec<u8>>)
    ensures
        crate::address::seed_bytes(r@) == asset_seeds(),
{
    let mut seed: Vec<u8> = Vec::new();
    let mut i: usize = 0;
    while i < 12
        invariant
            i <= 12,
            seed@ == MINT_SEED@.take(i as int),
        decreases 12 - i,
    {
        seed.push(MINT_SEED[i]);
        proof {
            assert(MINT_SEED@.take(i as int).push(MINT_SEED@[i as int]) =~= MINT_SEED@.take(i + 1));
        }
        i += 1;
    }
    let mut seeds: Vec<Vec<u8>> = Vec::new();
    seeds.push(seed);
    proof {
        assert(MINT_SEED@.take(12) =~= MINT_SEED@);
        assert(crate::address::seed_bytes(seeds@) =~= asset_seeds());
    }
    seeds
}

/// Makes the proof that authorizes a call as the asset's own authority,
/// where the bump reproduces the asset's address from its seed.
pub fn sign_as_authority(bump: u8, asset: &Address) -> (r: Result<SigningProof, TokenError>)
    ensures
        match r {
            Ok(proof) => bump_derives(bump, *asset) && proof == SigningProof::of(*asset, bump),
            Err(e) => !bump_derives(bump, *asset) && e == TokenError::AddressMismatch,
        },
{
    let seeds = mint_seeds();
    let derived = derive_with_bump(&seeds, bump);
    proof {
        if derived is Some {
            derived->0.lemma_same_bytes(*asset);
        }
    }
    if is_same_address(derived, asset) {
        Ok(SigningProof { authority: *asset, bump })
    } else {
        Err(TokenError::AddressMismatch)
    }
}

} // verus!
