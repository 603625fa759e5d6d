use crate::address::Address;
use crate::error::TokenError;
use crate::ledger::{AccountRef, AssetRecord, BalanceAccount, Ledger, LedgerState};
use vstd::prelude::*;

verus! {

impl LedgerState {
    /// The ledger once the balance account of `owner` for `asset` is sure to
    /// be at `address`: an account that is there must be that one, and is
    /// left as it is; one that is not there is created empty, paid for by
    /// `payer`.
    pub open spec fn ensure_account(
        self,
        address: Address,
        payer: Address,
        owner: Address,
        asset: Address,
    ) -> Result<LedgerState, TokenError> {
        if self.accounts.contains_key(address) {
            if self.accounts[address].owner == owner && self.accounts[address].asset == asset {
                Ok(self)
            } else {
                Err(TokenError::AccountKindMismatch)
            }
        } else if self.funds_of(payer) < self.creation_cost {
            Err(TokenError::InsufficientPayerFunds)
        } else {
            Ok(
                LedgerState {
                    accounts: self.accounts.insert(
                        address,
                        BalanceAccount { owner, asset, balance: 0 },
                    ),
                    ..self.charge(payer)
                },
            )
        }
    }

    /// The ledger once the asset's record is sure to be the given one: a
    /// record that is there must agree with it in all but the supply, and
    /// is left as it is; where none is there it is created with nothing in
    /// circulation, paid for by `payer`.
    pub open spec fn ensure_asset(self, payer: Address, record: AssetRecord) -> Result<
        LedgerState,
        TokenError,
    > {
        match self.asset {
            Some(held) => if held == (AssetRecord { supply: held.supply, ..record }) {
                Ok(self)
            } else {
                Err(TokenError::AccountKindMismatch)
            },
            None => if self.funds_of(payer) < self.creation_cost {
                Err(TokenError::InsufficientPayerFunds)
            } else {
                Ok(
                    LedgerState {
                        asset: Some(AssetRecord { supply: 0, ..record }),
                        ..self.charge(payer)
                    },
                )
            },
        }
    }
}

/// What is to be done about a balance account that must be that of `owner`
/// for `asset`, given what its address holds: it is to be created where
/// nothing is there, left alone where that account is there, and the
/// request is refused where another account is there.
pub open spec fn account_creation(
    held: Option<BalanceAccount>,
    owner: Address,
    asset: Address,
) -> Result<bool, TokenError> {
    match held {
        None => Ok(true),
        Some(account) => if account.owner == owner && account.asset == asset {
            Ok(false)
        } else {
            Err(TokenError::AccountKindMismatch)
        },
    }
}

/// What is to be done about the asset's record, given the one that is
/// there: it is to be created where none is there, left alone where the
/// one that is there agrees with the expected one in all but the supply,
/// and the request is refused where it does not.
pub open spec fn asset_creation(held: Option<AssetRecord>, record: AssetRecord) -> Result<
    bool,
    TokenError,
> {
    match held {
        None => Ok(true),
        Some(asset) => if asset == (AssetRecord { supply: asset.supply, ..record }) {
            Ok(false)
        } else {
            Err(TokenError::AccountKindMismatch)
        },
    }
}

/// Decides whether the balance account of `owner` for `asset` is to be
/// created, given what its address holds.
pub fn must_create_account(held: Option<BalanceAccount>, owner: &Address, asset: &Address) -> (r:
    Result<bool, TokenError>)
    ensures
        r == account_creation(held, *owner, *asset),
{
    match held {
        None => Ok(true),
        Some(account) => {
            if account.owner == *owner && account.asset == *asset {
                Ok(false)
            } else {
                Err(TokenError::AccountKindMismatch)
            }
        },
    }
}

/// Decides whether the asset's record is to be created, given the one that
/// is there.
pub fn must_create_asset(held: Option<AssetRecord>, record: &AssetRecord) -> (r: Result<
    bool,
    TokenError,
>)
    ensures
        r == asset_creation(held, *record),
{
    match held {
        None => Ok(true),
        Some(asset) => {
            if asset.address == record.address && asset.decimals == record.decimals
                && asset.mint_authority == record.mint_authority && asset.freeze_authority
                == record.freeze_authority {
                Ok(false)
            } else {
                Err(TokenError::AccountKindMismatch)
            }
        },
    }
}

/// Makes sure that the balance account of `owner` for `asset` is at
/// `address`, creating it empty and at the cost of `payer` where the
/// address holds no account yet. An account that is already there is
/// returned as it is; one that belongs to another owner or asset is an
/// error.
pub fn ensure_account(
    ledger: &mut Ledger,
    address: &Address,
    payer: &Address,
    owner: &Address,
    asset: &Address,
) -> (r: Result<AccountRef, TokenError>)
    ensures
        match old(ledger)@.ensure_account(*address, *payer, *owner, *asset) {
            Ok(state) => r == Ok::<AccountRef, TokenError>(
                AccountRef {
                    address: *address,
                    created: !old(ledger)@.accounts.contains_key(*address),
                },
            ) && final(ledger)@ == state,
            Err(e) => r == Err::<AccountRef, TokenError>(e) && final(ledger)@ == old(ledger)@,
        },
{
    match must_create_account(ledger.account(address), owner, asset) {
        Ok(true) => ledger.create_if_absent(
            address,
            payer,
            BalanceAccount { owner: *owner, asset: *asset, balance: 0 },
        ),
        Ok(false) => Ok(AccountRef { address: *address, created: false }),
        Err(e) => Err(e),
    }
}

/// Makes sure that the asset's record is the given one, creating it with
/// nothing in circulation and at the cost of `payer` where there is none
/// yet. A record that is already there is left as it is; one that differs
/// in address, precision or authorities is an error.
pub fn ensure_asset(ledger: &mut Ledger, payer: &Address, record: &AssetRecord) -> (r: Result<
    AccountRef,
    TokenError,
>)
    ensures
        match old(ledger)@.ensure_asset(*payer, *record) {
            Ok(state) => r == Ok::<AccountRef, TokenError>(
                AccountRef { address: record.address, created: old(ledger)@.asset is None },
            ) && final(ledger)@ == state,
            Err(e) => r == Err::<AccountRef, TokenError>(e) && final(ledger)@ == old(ledger)@,
        },
{
    match must_create_asset(ledger.asset(), record) {
        Ok(true) => {
            let fresh = AssetRecord {
                address: record.address,
                decimals: record.decimals,
                mint_authority: record.mint_authority,
                freeze_authority: record.freeze_authority,
                supply: 0,
            };
            match ledger.create_asset_if_absent(payer, fresh) {
                Ok(_) => Ok(AccountRef { address: record.address, created: true }),
                Err(e) => Err(e),
            }
        },
        Ok(false) => Ok(AccountRef { address: record.address, created: false }),
        Err(e) => Err(e),
    }
}

} // verus!
