use crate::address::{
    derivation, is_associated, is_derived, lemma_derivation_unique, Address, PROGRAM_ID,
};
use crate::authority::{asset_seeds, bump_derives, SigningProof, ASSET_DECIMALS};
use crate::dispatch::{
    burn_plan, initialize_plan, mint_plan, transfer_plan, BurnToken, InitializeMintAccount,
    MintToken, TransferToken,
};
use crate::error::TokenError;
use crate::ledger::LedgerState;
use crate::transaction::LedgerCall;
use vstd::prelude::*;

verus! {

/// A transaction of one call does what the call does.
pub proof fn lemma_apply_one(state: LedgerState, call: LedgerCall)
    ensures
        state.apply_all(seq![call]) == state.apply(call),
{
    reveal_with_fuel(LedgerState::apply_all, 2);
    assert(seq![call].drop_first() =~= Seq::<LedgerCall>::empty());
}

/// A transaction of two calls does what the second call does to what the
/// first one left, or is refused as the first one is.
pub proof fn lemma_apply_two(state: LedgerState, first: LedgerCall, second: LedgerCall)
    ensures
        state.apply_all(seq![first, second]) == match state.apply(first) {
            Ok(next) => next.apply(second),
            Err(e) => Err(e),
        },
{
    assert(seq![first, second].drop_first() =~= seq![second]);
    match state.apply(first) {
        Ok(next) => {
            lemma_apply_one(next, second);
        },
        Err(e) => {},
    }
}

/// Creating the asset is idempotent. Once a call has created the asset,
/// any later call that creates it, by whichever payer, with a bump that
/// passes, succeeds and changes nothing; and the record that the first
/// call left has the asset as its own mint and freeze authority.
pub proof fn law_create_asset_idempotent(
    state: LedgerState,
    first: InitializeMintAccount,
    first_bump: u8,
    second: InitializeMintAccount,
    second_bump: u8,
)
    requires
        state.create_asset(first, first_bump) is Ok,
        initialize_plan(second, second_bump) is Ok,
    ensures
        ({
            let created = state.create_asset(first, first_bump)->Ok_0;
            &&& created.asset is Some
            &&& created.asset->0.address == first.mint
            &&& created.asset->0.mint_authority == first.mint
            &&& created.asset->0.freeze_authority == first.mint
            &&& created.asset->0.decimals == ASSET_DECIMALS
            &&& created.create_asset(second, second_bump) == Ok::<LedgerState, TokenError>(
                created,
            )
        }),
{
    let one = initialize_plan(first, first_bump)->Ok_0;
    let two = initialize_plan(second, second_bump)->Ok_0;
    lemma_apply_one(state, one[0]);
    assert(one =~= seq![one[0]]);
    let created = state.apply_all(one)->Ok_0;
    lemma_apply_one(created, two[0]);
    assert(two =~= seq![two[0]]);
    let a = choose|a: u8| derivation(asset_seeds(), PROGRAM_ID@, Some((first.mint@, a)));
    let b = choose|b: u8| derivation(asset_seeds(), PROGRAM_ID@, Some((second.mint@, b)));
    lemma_derivation_unique(
        asset_seeds(),
        PROGRAM_ID@,
        Some((first.mint@, a)),
        Some((second.mint@, b)),
    );
    first.mint.lemma_same_bytes(second.mint);
}

/// Making sure of a balance account is idempotent. Where one caller's
/// request succeeds, the address holds the account of that owner and
/// asset, no other address has gained or lost an account, and the same
/// request by any other caller, whoever pays, succeeds and changes nothing:
/// in whichever order two callers are served, there is one account and
/// neither sees an error.
pub proof fn law_ensure_account_idempotent(
    state: LedgerState,
    address: Address,
    first_payer: Address,
    second_payer: Address,
    owner: Address,
    asset: Address,
)
    requires
        state.ensure_account(address, first_payer, owner, asset) is Ok,
    ensures
        ({
            let ensured = state.ensure_account(address, first_payer, owner, asset)->Ok_0;
            &&& ensured.accounts.dom() == state.accounts.dom().insert(address)
            &&& ensured.accounts[address].owner == owner
            &&& ensured.accounts[address].asset == asset
            &&& ensured.ensure_account(address, second_payer, owner, asset) == Ok::<
                LedgerState,
                TokenError,
            >(ensured)
        }),
{
    let ensured = state.ensure_account(address, first_payer, owner, asset)->Ok_0;
    assert(ensured.accounts.dom() =~= state.accounts.dom().insert(address));
}

/// A zero amount is refused as invalid by every operation that moves an
/// amount, whatever else the call holds, and the ledger stays as it is.
pub proof fn law_zero_amount_refused(
    state: LedgerState,
    mint: MintToken,
    mint_bump: u8,
    burn: BurnToken,
    transfer: TransferToken,
)
    ensures
        state.mint(mint, 0, mint_bump) == Err::<LedgerState, TokenError>(
            TokenError::InvalidAmount,
        ),
        state.burn(burn, 0) == Err::<LedgerState, TokenError>(TokenError::InvalidAmount),
        state.transfer(transfer, 0) == Err::<LedgerState, TokenError>(TokenError::InvalidAmount),
{
}

/// Minting and then burning the same amount is a round trip. After a mint
/// that succeeded, a burn of the same amount from the recipient's account,
/// signed by the recipient, succeeds, and leaves the account's balance and
/// the asset's supply as they were before the mint.
pub proof fn law_mint_then_burn(
    state: LedgerState,
    mint: MintToken,
    mint_bump: u8,
    burn: BurnToken,
    amount: u64,
)
    requires
        state.mint(mint, amount, mint_bump) is Ok,
        burn_plan(burn, amount) is Ok,
        burn.mint == mint.mint,
        burn.from == mint.token_account,
        burn.owner.address == mint.to_address,
    ensures
        ({
            let minted = state.mint(mint, amount, mint_bump)->Ok_0;
            let burnt = minted.burn(burn, amount);
            &&& minted.balance_of(mint.token_account) == state.balance_of(mint.token_account)
                + amount
            &&& burnt is Ok
            &&& burnt->Ok_0.balance_of(mint.token_account) == state.balance_of(
                mint.token_account,
            )
            &&& burnt->Ok_0.asset->0.supply == state.asset->0.supply
        }),
{
    let calls = mint_plan(mint, amount, mint_bump)->Ok_0;
    assert(calls =~= seq![calls[0], calls[1]]);
    lemma_apply_two(state, calls[0], calls[1]);
    SigningProof::lemma_of(mint.mint, mint_bump);
    let minted = state.apply_all(calls)->Ok_0;
    let burns = burn_plan(burn, amount)->Ok_0;
    assert(burns =~= seq![burns[0]]);
    lemma_apply_one(minted, burns[0]);
}

/// Minting and then transferring the same amount to a fresh recipient moves
/// all of it. After a mint that succeeded, a transfer of the same amount
/// from the account minted into, signed by its owner, to a recipient who
/// had no balance account and can pay for one, succeeds; it leaves the
/// first account with the balance it had before the mint (nothing, where
/// the mint created it) and the recipient's new account with the amount.
pub proof fn law_mint_then_transfer(
    state: LedgerState,
    mint: MintToken,
    mint_bump: u8,
    transfer: TransferToken,
    amount: u64,
)
    requires
        state.mint(mint, amount, mint_bump) is Ok,
        transfer_plan(transfer, amount) is Ok,
        transfer.mint == mint.mint,
        transfer.from == mint.token_account,
        transfer.owner.address == mint.to_address,
        !state.accounts.contains_key(transfer.to_token_account),
        transfer.to_token_account != mint.token_account,
        state.mint(mint, amount, mint_bump)->Ok_0.funds_of(transfer.to) >= state.creation_cost,
    ensures
        ({
            let minted = state.mint(mint, amount, mint_bump)->Ok_0;
            let moved = minted.transfer(transfer, amount);
            &&& moved is Ok
            &&& moved->Ok_0.balance_of(mint.token_account) == state.balance_of(
                mint.token_account,
            )
            &&& moved->Ok_0.balance_of(transfer.to_token_account) == amount
            &&& moved->Ok_0.accounts[transfer.to_token_account].owner == transfer.to
            &&& moved->Ok_0.asset->0.supply == minted.asset->0.supply
        }),
{
    let calls = mint_plan(mint, amount, mint_bump)->Ok_0;
    assert(calls =~= seq![calls[0], calls[1]]);
    lemma_apply_two(state, calls[0], calls[1]);
    SigningProof::lemma_of(mint.mint, mint_bump);
    let minted = state.apply_all(calls)->Ok_0;
    let moves = transfer_plan(transfer, amount)->Ok_0;
    assert(moves =~= seq![moves[0], moves[1]]);
    lemma_apply_two(minted, moves[0], moves[1]);
}

/// A burn beyond the balance is refused as underfunded. Where the asset
/// and the account exist and the account's owner signs, a burn of more
/// than the account holds is refused with `Underfunded`; a refused
/// operation leaves the ledger, and so the balance, as it was.
pub proof fn law_burn_beyond_balance(state: LedgerState, burn: BurnToken, amount: u64)
    requires
        burn_plan(burn, amount) is Ok,
        state.has_asset(burn.mint),
        state.has_account(burn.from, burn.mint),
        state.accounts[burn.from].owner == burn.owner.address,
        amount > state.balance_of(burn.from),
    ensures
        state.burn(burn, amount) == Err::<LedgerState, TokenError>(TokenError::Underfunded),
{
    let burns = burn_plan(burn, amount)->Ok_0;
    assert(burns =~= seq![burns[0]]);
    lemma_apply_one(state, burns[0]);
}

/// A mint with a wrong bump is refused. Where a call would be planned with
/// one bump, the same call with a bump that does not reproduce the asset's
/// address is refused with `AddressMismatch`, whatever the ledger holds,
/// and the ledger stays as it is.
pub proof fn law_wrong_bump_refused(
    state: LedgerState,
    mint: MintToken,
    amount: u64,
    right: u8,
    wrong: u8,
)
    requires
        mint_plan(mint, amount, right) is Ok,
        !bump_derives(wrong, mint.mint),
    ensures
        state.mint(mint, amount, wrong) == Err::<LedgerState, TokenError>(
            TokenError::AddressMismatch,
        ),
{
}

/// Every address that a planned call acts on is derived, none is taken on
/// the caller's word: the asset's address is the one derived from the
/// asset's seed or reproduced by the bump, and a balance account that may
/// be created is the one derived for its owner and the asset.
pub proof fn law_planned_addresses_are_derived(
    create: InitializeMintAccount,
    mint: MintToken,
    transfer: TransferToken,
    amount: u64,
    bump: u8,
)
    ensures
        initialize_plan(create, bump) is Ok ==> is_derived(
            asset_seeds(),
            PROGRAM_ID@,
            create.mint@,
        ) && bump_derives(bump, create.mint),
        mint_plan(mint, amount, bump) is Ok ==> bump_derives(bump, mint.mint) && is_associated(
            mint.to_address@,
            mint.mint@,
            mint.token_account@,
        ),
        transfer_plan(transfer, amount) is Ok ==> is_associated(
            transfer.to@,
            transfer.mint@,
            transfer.to_token_account@,
        ),
{
}

/// A transfer conserves the asset. A transfer that the ledger accepts
/// leaves the supply as it was, takes the amount from the one account and
/// adds it to the other, and touches no third account.
pub proof fn law_transfer_conserves(
    state: LedgerState,
    asset: Address,
    from: Address,
    to: Address,
    amount: u64,
    authority: Address,
    other: Address,
)
    requires
        state.checked_transfer(asset, from, to, amount, authority) is Ok,
        from != to,
        other != from,
        other != to,
    ensures
        ({
            let moved = state.checked_transfer(asset, from, to, amount, authority)->Ok_0;
            &&& moved.asset == state.asset
            &&& moved.balance_of(from) == state.balance_of(from) - amount
            &&& moved.balance_of(to) == state.balance_of(to) + amount
            &&& moved.balance_of(other) == state.balance_of(other)
            &&& moved.accounts.dom() == state.accounts.dom()
        }),
{
    let moved = state.checked_transfer(asset, from, to, amount, authority)->Ok_0;
    assert(moved.accounts.dom() =~= state.accounts.dom());
}

/// The asset's authority cannot be reassigned. Whatever call the ledger
/// accepts, an asset that was there is still there, at the same address,
/// with the same precision and the same mint and freeze authority.
pub proof fn law_authority_is_immutable(state: LedgerState, call: LedgerCall)
    requires
        state.asset is Some,
        state.apply(call) is Ok,
    ensures
        ({
            let after = state.apply(call)->Ok_0;
            &&& after.asset is Some
            &&& after.asset->0.address == state.asset->0.address
            &&& after.asset->0.decimals == state.asset->0.decimals
            &&& after.asset->0.mint_authority == state.asset->0.mint_authority
            &&& after.asset->0.freeze_authority == state.asset->0.freeze_authority
        }),
{
}

/// Only the asset itself can mint. A mint that the ledger accepts on an
/// asset that is its own mint authority carries a proof for the asset's
/// address.
pub proof fn law_mint_needs_own_authority(
    state: LedgerState,
    asset: Address,
    account: Address,
    amount: u64,
    proof: SigningProof,
)
    requires
        state.asset is Some,
        state.asset->0.mint_authority == state.asset->0.address,
        state.apply(LedgerCall::Mint { asset, account, amount, proof }) is Ok,
    ensures
        proof.authority() == asset,
{
}

} // verus!
