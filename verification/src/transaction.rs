use crate::address::Address;
use crate::authority::SigningProof;
use crate::error::TokenError;
use crate::ledger::{settles, AssetRecord, Ledger, LedgerState};
use crate::lifecycle::{ensure_account, ensure_asset};
use vstd::prelude::*;

verus! {

/// One call that an operation delegates to the ledger.
#[derive(Debug, PartialEq, Eq)]
pub enum LedgerCall {
    /// Create the asset's record if it is absent.
    CreateAsset {
        address: Address,
        payer: Address,
        decimals: u8,
        mint_authority: Address,
        freeze_authority: Address,
    },
    /// Create the balance account of `owner` for `asset` if it is absent.
    CreateAccount { address: Address, payer: Address, owner: Address, asset: Address },
    /// Mint into an account, as the asset's own authority.
    Mint { asset: Address, account: Address, amount: u64, proof: SigningProof },
    /// Burn from an account, as its owner.
    Burn { asset: Address, account: Address, amount: u64, authority: Address },
    /// Move from one account to another, as the owner of the first.
    Transfer { asset: Address, from: Address, to: Address, amount: u64, authority: Address },
}

impl LedgerState {
    /// The ledger after one delegated call.
    pub open spec fn apply(self, call: LedgerCall) -> Result<LedgerState, TokenError> {
        match call {
            LedgerCall::CreateAsset {
                address,
                payer,
                decimals,
                mint_authority,
                freeze_authority,
            } => self.ensure_asset(
                payer,
                AssetRecord { address, decimals, mint_authority, freeze_authority, supply: 0 },
            ),
            LedgerCall::CreateAccount { address, payer, owner, asset } => self.ensure_account(
                address,
                payer,
                owner,
                asset,
            ),
            LedgerCall::Mint { asset, account, amount, proof } => self.checked_mint(
                asset,
                account,
                amount,
                proof.authority(),
            ),
            LedgerCall::Burn { asset, account, amount, authority } => self.checked_burn(
                asset,
                account,
                amount,
                authority,
            ),
            LedgerCall::Transfer { asset, from, to, amount, authority } => self.checked_transfer(
                asset,
                from,
                to,
                amount,
                authority,
            ),
        }
    }

    /// The ledger after the calls of one operation, in their order: the
    /// first that is refused refuses them all.
    pub open spec fn apply_all(self, calls: Seq<LedgerCall>) -> Result<LedgerState, TokenError>
        decreases calls.len(),
    {
        if calls.len() == 0 {
            Ok(self)
        } else {
            match self.apply(calls[0]) {
                Ok(next) => next.apply_all(calls.drop_first()),
                Err(e) => Err(e),
            }
        }
    }
}

impl Ledger {
    /// Carries out one delegated call, which is used up.
    pub fn apply(&mut self, call: LedgerCall) -> (r: Result<(), TokenError>)
        ensures
            settles(old(self)@.apply(call), old(self)@, final(self)@, r),
    {
        match call {
            LedgerCall::CreateAsset {
                address,
                payer,
                decimals,
                mint_authority,
                freeze_authority,
            } => {
                let record = AssetRecord {
                    address,
                    decimals,
                    mint_authority,
                    freeze_authority,
                    supply: 0,
                };
                match ensure_asset(self, &payer, &record) {
                    Ok(_) => Ok(()),
                    Err(e) => Err(e),
                }
            },
            LedgerCall::CreateAccount { address, payer, owner, asset } => {
                match ensure_account(self, &address, &payer, &owner, &asset) {
                    Ok(_) => Ok(()),
                    Err(e) => Err(e),
                }
            },
            LedgerCall::Mint { asset, account, amount, proof } => self.checked_mint(
                &asset,
                &account,
                amount,
                proof,
            ),
            LedgerCall::Burn { asset, account, amount, authority } => self.checked_burn(
                &asset,
                &account,
                amount,
                &authority,
            ),
            LedgerCall::Transfer { asset, from, to, amount, authority } => self.checked_transfer(
                &asset,
                &from,
                &to,
                amount,
                &authority,
            ),
        }
    }

    /// Carries out the calls of one operation as one transaction: all of
    /// them take effect, or, where one is refused, none does. The calls are
    /// used up either way.
    pub fn submit(&mut self, calls: Vec<LedgerCall>) -> (r: Result<(), TokenError>)
        ensures
            settles(old(self)@.apply_all(calls@), old(self)@, final(self)@, r),
    {
        let mut scratch = self.duplicate();
        let mut rest = calls;
        while rest.len() > 0
            invariant
                *self == *old(self),
                old(self)@.apply_all(calls@) == scratch@.apply_all(rest@),
            decreases rest@.len(),
        {
            proof {
                assert(rest@.remove(0) =~= rest@.drop_first());
            }
            let call = rest.remove(0);
            match scratch.apply(call) {
                Ok(()) => {},
                Err(e) => {
                    return Err(e);
                },
            }
        }
        *self = scratch;
        Ok(())
    }
}

} // verus!
