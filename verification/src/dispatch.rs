use crate::address::{
    derivation, derive_associated, is_associated, is_derived, is_same_address, lemma_derivation_unique,
    lemma_derivation_unique_none, associated_token_program_id, system_program_id,
    token_program_id, Address, ASSOCIATED_TOKEN_PROGRAM_ID, PROGRAM_ID, SYSTEM_PROGRAM_ID,
    TOKEN_PROGRAM_ID,
};
use crate::authority::{
    asset_seeds, bump_derives, mint_seeds, sign_as_authority, SigningProof, ASSET_DECIMALS,
};
use crate::error::TokenError;
use crate::transaction::LedgerCall;
use vstd::prelude::*;

verus! {

/// A principal named in a call, and whether it signed the call.
#[derive(Clone, Copy, Debug, PartialEq, Eq)]
pub struct Signer {
    pub address: Address,
    pub signed: bool,
}

/// The accounts of a call that creates the asset.
#[derive(Clone, Copy, Debug, PartialEq, Eq)]
pub struct InitializeMintAccount {
    /// Who pays for the asset's record.
    pub owner: Signer,
    /// The asset.
    pub mint: Address,
    pub system_program: Address,
    pub token_program: Address,
}

/// The accounts of a call that mints.
#[derive(Clone, Copy, Debug, PartialEq, Eq)]
pub struct MintToken {
    /// Who pays for the recipient's balance account.
    pub owner: Signer,
    /// The asset.
    pub mint: Address,
    /// The recipient's balance account.
    pub token_account: Address,
    /// The recipient.
    pub to_address: Address,
    pub system_program: Address,
    pub token_program: Address,
    pub associated_token_program: Address,
}

/// The accounts of a call that burns.
#[derive(Clone, Copy, Debug, PartialEq, Eq)]
pub struct BurnToken {
    /// The owner of the balance account that is debited.
    pub owner: Signer,
    /// The asset.
    pub mint: Address,
    /// The balance account that is debited.
    pub from: Address,
    pub token_program: Address,
}

/// The accounts of a call that transfers.
#[derive(Clone, Copy, Debug, PartialEq, Eq)]
pub struct TransferToken {
    /// The owner of the balance account that is debited.
    pub owner: Signer,
    /// The asset.
    pub mint: Address,
    /// The recipient, who also pays for its own balance account.
    pub to: Address,
    /// The balance account that is debited.
    pub from: Address,
    /// The recipient's balance account.
    pub to_token_account: Address,
    pub token_program: Address,
    pub system_program: Address,
    pub associated_token_program: Address,
}

/// The plan of a call that creates the asset: the call is refused unless
/// the payer signed, the services are the known ones, the asset's address
/// is the one derived from the asset's seed and the bump reproduces it;
/// else the asset's record is created if absent, with the asset as its own
/// mint and freeze authority.
pub open spec fn initialize_plan(ctx: InitializeMintAccount, mint_bump: u8) -> Result<
    Seq<LedgerCall>,
    TokenError,
> {
    if !ctx.owner.signed {
        Err(TokenError::Unauthorized)
    } else if ctx.system_program != (Address { bytes: SYSTEM_PROGRAM_ID }) || ctx.token_program
        != (Address { bytes: TOKEN_PROGRAM_ID }) {
        Err(TokenError::AddressMismatch)
    } else if !is_derived(asset_seeds(), PROGRAM_ID@, ctx.mint@) || !bump_derives(
        mint_bump,
        ctx.mint,
    ) {
        Err(TokenError::AddressMismatch)
    } else {
        Ok(
            seq![
                LedgerCall::CreateAsset {
                    address: ctx.mint,
                    payer: ctx.owner.address,
                    decimals: ASSET_DECIMALS,
                    mint_authority: ctx.mint,
                    freeze_authority: ctx.mint,
                },
            ],
        )
    }
}

/// The plan of a call that mints: the call is refused unless the amount is
/// positive, the payer signed, the services are the known ones, the bump
/// reproduces the asset's address and the balance account is the
/// recipient's for the asset; else the recipient's balance account is
/// created if absent, at the payer's cost, and the amount is minted into it
/// as the asset's own authority.
pub open spec fn mint_plan(ctx: MintToken, amount: u64, mint_bump: u8) -> Result<
    Seq<LedgerCall>,
    TokenError,
> {
    if amount == 0 {
        Err(TokenError::InvalidAmount)
    } else if !ctx.owner.signed {
        Err(TokenError::Unauthorized)
    } else if ctx.system_program != (Address { bytes: SYSTEM_PROGRAM_ID }) || ctx.token_program
        != (Address { bytes: TOKEN_PROGRAM_ID }) || ctx.associated_token_program != (Address {
        bytes: ASSOCIATED_TOKEN_PROGRAM_ID,
    }) {
        Err(TokenError::AddressMismatch)
    } else if !bump_derives(mint_bump, ctx.mint) {
        Err(TokenError::AddressMismatch)
    } else if !is_associated(ctx.to_address@, ctx.mint@, ctx.token_account@) {
        Err(TokenError::AddressMismatch)
    } else {
        Ok(
            seq![
                LedgerCall::CreateAccount {
                    address: ctx.token_account,
                    payer: ctx.owner.address,
                    owner: ctx.to_address,
                    asset: ctx.mint,
                },
                LedgerCall::Mint {
                    asset: ctx.mint,
                    account: ctx.token_account,
                    amount,
                    proof: SigningProof::of(ctx.mint, mint_bump),
                },
            ],
        )
    }
}

/// The plan of a call that burns: the call is refused unless the amount is
/// positive, the owner signed and the ledger service is the known one; else
/// the amount is burnt from the account, as the signing owner.
pub open spec fn burn_plan(ctx: BurnToken, amount: u64) -> Result<Seq<LedgerCall>, TokenError> {
    if amount == 0 {
        Err(TokenError::InvalidAmount)
    } else if !ctx.owner.signed {
        Err(TokenError::Unauthorized)
    } else if ctx.token_program != (Address { bytes: TOKEN_PROGRAM_ID }) {
        Err(TokenError::AddressMismatch)
    } else {
        Ok(
            seq![
                LedgerCall::Burn {
                    asset: ctx.mint,
                    account: ctx.from,
                    amount,
                    authority: ctx.owner.address,
                },
            ],
        )
    }
}

/// The plan of a call that transfers: the call is refused unless the amount
/// is positive, the owner signed, the services are the known ones and the
/// receiving balance account is the recipient's for the asset; else that
/// account is created if absent, at the recipient's cost, and the amount is
/// moved into it, as the signing owner.
pub open spec fn transfer_plan(ctx: TransferToken, amount: u64) -> Result<
    Seq<LedgerCall>,
    TokenError,
> {
    if amount == 0 {
        Err(TokenError::InvalidAmount)
    } else if !ctx.owner.signed {
        Err(TokenError::Unauthorized)
    } else if ctx.system_program != (Address { bytes: SYSTEM_PROGRAM_ID }) || ctx.token_program
        != (Address { bytes: TOKEN_PROGRAM_ID }) || ctx.associated_token_program != (Address {
        bytes: ASSOCIATED_TOKEN_PROGRAM_ID,
    }) {
        Err(TokenError::AddressMismatch)
    } else if !is_associated(ctx.to@, ctx.mint@, ctx.to_token_account@) {
        Err(TokenError::AddressMismatch)
    } else {
        Ok(
            seq![
                LedgerCall::CreateAccount {
                    address: ctx.to_token_account,
                    payer: ctx.to,
                    owner: ctx.to,
                    asset: ctx.mint,
                },
                LedgerCall::Transfer {
                    asset: ctx.mint,
                    from: ctx.from,
                    to: ctx.to_token_account,
                    amount,
                    authority: ctx.owner.address,
                },
            ],
        )
    }
}

/// The outcome is the plan: the same calls, or the same refusal.
pub open spec fn follows(
    plan: Result<Seq<LedgerCall>, TokenError>,
    outcome: Result<Vec<LedgerCall>, TokenError>,
) -> bool {
    match outcome {
        Ok(calls) => plan == Ok::<Seq<LedgerCall>, TokenError>(calls@),
        Err(e) => plan == Err::<Seq<LedgerCall>, TokenError>(e),
    }
}

/// The asset's address with its canonical bump, derived from the asset's
/// seed.
pub fn asset_address() -> (r: Option<(Address, u8)>)
    ensures
        derivation(
            asset_seeds(),
            PROGRAM_ID@,
            match r {
                Some((address, bump)) => Some((address@, bump)),
                None => None,
            },
        ),
{
    crate::address::derive(&mint_seeds())
}

/// Whether the address is the one derived from the asset's seed.
pub fn is_asset_address(address: &Address) -> (r: bool)
    ensures
        r == is_derived(asset_seeds(), PROGRAM_ID@, address@),
{
    match asset_address() {
        Some((derived, bump)) => {
            proof {
                derived.lemma_same_bytes(*address);
                if is_derived(asset_seeds(), PROGRAM_ID@, address@) {
                    let other = choose|other: u8|
                        derivation(asset_seeds(), PROGRAM_ID@, Some((address@, other)));
                    lemma_derivation_unique(
                        asset_seeds(),
                        PROGRAM_ID@,
                        Some((derived@, bump)),
                        Some((address@, other)),
                    );
                }
            }
            is_same_address(Some(derived), address)
        },
        None => {
            proof {
                lemma_derivation_unique_none(asset_seeds(), PROGRAM_ID@);
            }
            is_same_address(None, address)
        },
    }
}

/// Whether the address is that of the balance account of `owner` for
/// `asset`.
pub fn is_associated_address(owner: &Address, asset: &Address, address: &Address) -> (r: bool)
    ensures
        r == is_associated(owner@, asset@, address@),
{
    let found = derive_associated(owner, asset);
    match found {
        Some(derived) => {
            proof {
                derived.lemma_same_bytes(*address);
                let seeds = crate::address::associated_seeds(owner@, asset@);
                if is_associated(owner@, asset@, address@) {
                    let first = choose|first: u8|
                        derivation(
                            seeds,
                            ASSOCIATED_TOKEN_PROGRAM_ID@,
                            Some((derived@, first)),
                        );
                    let other = choose|other: u8|
                        derivation(
                            seeds,
                            ASSOCIATED_TOKEN_PROGRAM_ID@,
                            Some((address@, other)),
                        );
                    lemma_derivation_unique(
                        seeds,
                        ASSOCIATED_TOKEN_PROGRAM_ID@,
                        Some((derived@, first)),
                        Some((address@, other)),
                    );
                }
            }
            is_same_address(found, address)
        },
        None => is_same_address(found, address),
    }
}

/// Creates the asset: plans the creation of its record, if absent, at the
/// asset's derived address, with the asset as its own mint and freeze
/// authority, paid for by the signer.
pub fn initialize(ctx: &InitializeMintAccount, mint_bump: u8) -> (r: Result<
    Vec<LedgerCall>,
    TokenError,
>)
    ensures
        follows(initialize_plan(*ctx, mint_bump), r),
{
    if !ctx.owner.signed {
        return Err(TokenError::Unauthorized);
    }
    if ctx.system_program != system_program_id() || ctx.token_program != token_program_id() {
        return Err(TokenError::AddressMismatch);
    }
    if !is_asset_address(&ctx.mint) {
        return Err(TokenError::AddressMismatch);
    }
    let proof = match sign_as_authority(mint_bump, &ctx.mint) {
        Ok(proof) => proof,
        Err(e) => { return Err(e); },
    };
    let mut calls: Vec<LedgerCall> = Vec::new();
    calls.push(
        LedgerCall::CreateAsset {
            address: ctx.mint,
            payer: ctx.owner.address,
            decimals: ASSET_DECIMALS,
            mint_authority: proof.authority(),
            freeze_authority: proof.authority(),
        },
    );
    proof {
        SigningProof::lemma_of(ctx.mint, mint_bump);
        assert(calls@ =~= initialize_plan(*ctx, mint_bump)->Ok_0);
    }
    Ok(calls)
}

/// Mints `amount` to the recipient: plans the creation of the recipient's
/// balance account, if absent, paid for by the signer, and the mint into
/// it, authorized as the asset's own authority.
pub fn mint_token(ctx: &MintToken, amount: u64, mint_bump: u8) -> (r: Result<
    Vec<LedgerCall>,
    TokenError,
>)
    ensures
        follows(mint_plan(*ctx, amount, mint_bump), r),
{
    if amount == 0 {
        return Err(TokenError::InvalidAmount);
    }
    if !ctx.owner.signed {
        return Err(TokenError::Unauthorized);
    }
    if ctx.system_program != system_program_id() || ctx.token_program != token_program_id()
        || ctx.associated_token_program != associated_token_program_id() {
        return Err(TokenError::AddressMismatch);
    }
    let proof = match sign_as_authority(mint_bump, &ctx.mint) {
        Ok(proof) => proof,
        Err(e) => { return Err(e); },
    };
    if !is_associated_address(&ctx.to_address, &ctx.mint, &ctx.token_account) {
        return Err(TokenError::AddressMismatch);
    }
    let mut calls: Vec<LedgerCall> = Vec::new();
    calls.push(
        LedgerCall::CreateAccount {
            address: ctx.token_account,
            payer: ctx.owner.address,
            owner: ctx.to_address,
            asset: ctx.mint,
        },
    );
    calls.push(
        LedgerCall::Mint { asset: ctx.mint, account: ctx.token_account, amount, proof },
    );
    proof {
        assert(calls@ =~= mint_plan(*ctx, amount, mint_bump)->Ok_0);
    }
    Ok(calls)
}

/// Burns `amount` from the account: plans the burn, authorized by the
/// signing owner.
pub fn burn_token(ctx: &BurnToken, amount: u64) -> (r: Result<Vec<LedgerCall>, TokenError>)
    ensures
        follows(burn_plan(*ctx, amount), r),
{
    if amount == 0 {
        return Err(TokenError::InvalidAmount);
    }
    if !ctx.owner.signed {
        return Err(TokenError::Unauthorized);
    }
    if ctx.token_program != token_program_id() {
        return Err(TokenError::AddressMismatch);
    }
    let mut calls: Vec<LedgerCall> = Vec::new();
    calls.push(
        LedgerCall::Burn {
            asset: ctx.mint,
            account: ctx.from,
            amount,
            authority: ctx.owner.address,
        },
    );
    proof {
        assert(calls@ =~= burn_plan(*ctx, amount)->Ok_0);
    }
    Ok(calls)
}

/// Transfers `amount` to the recipient: plans the creation of the
/// recipient's balance account, if absent, paid for by the recipient, and
/// the transfer into it, authorized by the signing owner.
pub fn transfer_token(ctx: &TransferToken, amount: u64) -> (r: Result<
    Vec<LedgerCall>,
    TokenError,
>)
    ensures
        follows(transfer_plan(*ctx, amount), r),
{
    if amount == 0 {
        return Err(TokenError::InvalidAmount);
    }
    if !ctx.owner.signed {
        return Err(TokenError::Unauthorized);
    }
    if ctx.system_program != system_program_id() || ctx.token_program != token_program_id()
        || ctx.associated_token_program != associated_token_program_id() {
        return Err(TokenError::AddressMismatch);
    }
    if !is_associated_address(&ctx.to, &ctx.mint, &ctx.to_token_account) {
        return Err(TokenError::AddressMismatch);
    }
    let mut calls: Vec<LedgerCall> = Vec::new();
    calls.push(
        LedgerCall::CreateAccount {
            address: ctx.to_token_account,
            payer: ctx.to,
            owner: ctx.to,
            asset: ctx.mint,
        },
    );
    calls.push(
        LedgerCall::Transfer {
            asset: ctx.mint,
            from: ctx.from,
            to: ctx.to_token_account,
            amount,
            authority: ctx.owner.address,
        },
    );
    proof {
        assert(calls@ =~= transfer_plan(*ctx, amount)->Ok_0);
    }
    Ok(calls)
}

} // verus!
