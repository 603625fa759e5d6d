use crate::address::Address;
use crate::arena::Arena;
use crate::authority::SigningProof;
use crate::error::TokenError;
use vstd::prelude::*;

verus! {

/// The record of the asset: where it lives, its precision, who may mint and
/// freeze it, and how much of it circulates.
#[derive(Clone, Copy, Debug, PartialEq, Eq)]
pub struct AssetRecord {
    pub address: Address,
    pub decimals: u8,
    pub mint_authority: Address,
    pub freeze_authority: Address,
    pub supply: u64,
}

/// The record of a balance account: whose it is, of which asset, and how
/// much it holds.
#[derive(Clone, Copy, Debug, PartialEq, Eq)]
pub struct BalanceAccount {
    pub owner: Address,
    pub asset: Address,
    pub balance: u64,
}

/// A handle to an account, and whether the call that returned it created
/// the account.
#[derive(Clone, Copy, Debug, PartialEq, Eq)]
pub struct AccountRef {
    pub address: Address,
    pub created: bool,
}

/// What the ledger holds: the asset's record once it is created, the
/// balance accounts by address, the funds of each principal, and what the
/// creation of one account costs its payer.
#[verifier::ext_equal]
pub struct LedgerState {
    pub asset: Option<AssetRecord>,
    pub accounts: Map<Address, BalanceAccount>,
    pub funds: Map<Address, u64>,
    pub creation_cost: u64,
}

/// A refused operation leaves the ledger as it was; an accepted one leaves
/// it in the expected state.
pub open spec fn settles(
    expected: Result<LedgerState, TokenError>,
    before: LedgerState,
    after: LedgerState,
    outcome: Result<(), TokenError>,
) -> bool {
    match expected {
        Ok(state) => outcome is Ok && after == state,
        Err(e) => outcome == Err::<(), TokenError>(e) && after == before,
    }
}

impl LedgerState {
    /// The funds of a principal: nothing where none were deposited.
    pub open spec fn funds_of(self, who: Address) -> u64 {
        if self.funds.contains_key(who) {
            self.funds[who]
        } else {
            0
        }
    }

    /// The balance of an account: nothing where there is no account.
    pub open spec fn balance_of(self, account: Address) -> u64 {
        if self.accounts.contains_key(account) {
            self.accounts[account].balance
        } else {
            0
        }
    }

    /// The asset's record is at the address.
    pub open spec fn has_asset(self, address: Address) -> bool {
        self.asset is Some && self.asset->0.address == address
    }

    /// A balance account of the asset is at the address.
    pub open spec fn has_account(self, address: Address, asset: Address) -> bool {
        self.accounts.contains_key(address) && self.accounts[address].asset == asset
    }

    /// The ledger after a deposit to a principal's funds.
    pub open spec fn deposit(self, who: Address, amount: u64) -> Result<LedgerState, TokenError> {
        if self.funds_of(who) + amount > u64::MAX {
            Err(TokenError::Overflow)
        } else {
            Ok(LedgerState { funds: self.funds.insert(who, (self.funds_of(who) + amount) as u64), ..self })
        }
    }

    /// The ledger after the payer has paid for the creation of one account.
    pub open spec fn charge(self, payer: Address) -> LedgerState {
        LedgerState {
            funds: self.funds.insert(payer, (self.funds_of(payer) - self.creation_cost) as u64),
            ..self
        }
    }

    /// Creation of the asset's record where there is none yet: a record
    /// that is there stays as it is.
    pub open spec fn create_asset_if_absent(
        self,
        payer: Address,
        record: AssetRecord,
    ) -> Result<LedgerState, TokenError> {
        if self.asset is Some {
            Ok(self)
        } else if self.funds_of(payer) < self.creation_cost {
            Err(TokenError::InsufficientPayerFunds)
        } else {
            Ok(LedgerState { asset: Some(record), ..self.charge(payer) })
        }
    }

    /// Creation of a balance account where the address holds none yet: an
    /// account that is there stays as it is.
    pub open spec fn create_if_absent(
        self,
        address: Address,
        payer: Address,
        layout: BalanceAccount,
    ) -> Result<LedgerState, TokenError> {
        if self.accounts.contains_key(address) {
            Ok(self)
        } else if self.funds_of(payer) < self.creation_cost {
            Err(TokenError::InsufficientPayerFunds)
        } else {
            Ok(LedgerState { accounts: self.accounts.insert(address, layout), ..self.charge(payer) })
        }
    }

    /// A checked mint: `amount` more in the account and in circulation,
    /// authorized by the asset's mint authority.
    pub open spec fn checked_mint(
        self,
        asset: Address,
        account: Address,
        amount: u64,
        authority: Address,
    ) -> Result<LedgerState, TokenError> {
        if !self.has_asset(asset) || !self.has_account(account, asset) {
            Err(TokenError::AccountKindMismatch)
        } else if self.asset->0.mint_authority != authority {
            Err(TokenError::Unauthorized)
        } else if self.accounts[account].balance + amount > u64::MAX || self.asset->0.supply
            + amount > u64::MAX {
            Err(TokenError::Overflow)
        } else {
            Ok(
                LedgerState {
                    asset: Some(
                        AssetRecord {
                            supply: (self.asset->0.supply + amount) as u64,
                            ..self.asset->0
                        },
                    ),
                    accounts: self.accounts.insert(
                        account,
                        BalanceAccount {
                            balance: (self.accounts[account].balance + amount) as u64,
                            ..self.accounts[account]
                        },
                    ),
                    ..self
                },
            )
        }
    }

    /// A checked burn: `amount` less in the account and in circulation,
    /// authorized by the account's owner.
    pub open spec fn checked_burn(
        self,
        asset: Address,
        account: Address,
        amount: u64,
        authority: Address,
    ) -> Result<LedgerState, TokenError> {
        if !self.has_asset(asset) || !self.has_account(account, asset) {
            Err(TokenError::AccountKindMismatch)
        } else if self.accounts[account].owner != authority {
            Err(TokenError::Unauthorized)
        } else if self.accounts[account].balance < amount || self.asset->0.supply < amount {
            Err(TokenError::Underfunded)
        } else {
            Ok(
                LedgerState {
                    asset: Some(
                        AssetRecord {
                            supply: (self.asset->0.supply - amount) as u64,
                            ..self.asset->0
                        },
                    ),
                    accounts: self.accounts.insert(
                        account,
                        BalanceAccount {
                            balance: (self.accounts[account].balance - amount) as u64,
                            ..self.accounts[account]
                        },
                    ),
                    ..self
                },
            )
        }
    }

    /// A checked transfer: `amount` less in one account and as much more in
    /// the other, authorized by the owner of the first. A transfer from an
    /// account to itself changes nothing.
    pub open spec fn checked_transfer(
        self,
        asset: Address,
        from: Address,
        to: Address,
        amount: u64,
        authority: Address,
    ) -> Result<LedgerState, TokenError> {
        if !self.has_asset(asset) || !self.has_account(from, asset) || !self.has_account(
            to,
            asset,
        ) {
            Err(TokenError::AccountKindMismatch)
        } else if self.accounts[from].owner != authority {
            Err(TokenError::Unauthorized)
        } else if self.accounts[from].balance < amount {
            Err(TokenError::Underfunded)
        } else if from == to {
            Ok(self)
        } else if self.accounts[to].balance + amount > u64::MAX {
            Err(TokenError::Overflow)
        } else {
            Ok(
                LedgerState {
                    accounts: self.accounts.insert(
                        from,
                        BalanceAccount {
                            balance: (self.accounts[from].balance - amount) as u64,
                            ..self.accounts[from]
                        },
                    ).insert(
                        to,
                        BalanceAccount {
                            balance: (self.accounts[to].balance + amount) as u64,
                            ..self.accounts[to]
                        },
                    ),
                    ..self
                },
            )
        }
    }
}

/// The ledger service: it keeps the asset's record, the balance accounts
/// and the funds of the principals, and changes them only through checked
/// operations, each of which takes effect as a whole or not at all.
#[derive(Debug)]
pub struct Ledger {
    asset: Option<AssetRecord>,
    accounts: Arena<BalanceAccount>,
    wallets: Arena<u64>,
    creation_cost: u64,
}

impl View for Ledger {
    type V = LedgerState;

    closed spec fn view(&self) -> LedgerState {
        LedgerState {
            asset: self.asset,
            accounts: self.accounts@,
            funds: self.wallets@,
            creation_cost: self.creation_cost,
        }
    }
}

impl Ledger {
    /// A ledger without asset, accounts or funds, on which the creation of
    /// an account costs its payer `creation_cost`.
    pub fn new(creation_cost: u64) -> (r: Ledger)
        ensures
            r@ == (LedgerState {
                asset: None,
                accounts: Map::empty(),
                funds: Map::empty(),
                creation_cost,
            }),
    {
        Ledger { asset: None, accounts: Arena::new(), wallets: Arena::new(), creation_cost }
    }

    /// A ledger that holds the same as this one.
    pub fn duplicate(&self) -> (r: Ledger)
        ensures
            r@ == self@,
    {
        Ledger {
            asset: self.asset,
            accounts: self.accounts.duplicate(),
            wallets: self.wallets.duplicate(),
            creation_cost: self.creation_cost,
        }
    }

    /// What the creation of one account costs its payer.
    pub fn creation_cost(&self) -> (r: u64)
        ensures
            r == self@.creation_cost,
    {
        self.creation_cost
    }

    /// The asset's record, once it is created.
    pub fn asset(&self) -> (r: Option<AssetRecord>)
        ensures
            r == self@.asset,
    {
        self.asset
    }

    /// The balance account at the address, if there is one.
    pub fn account(&self, address: &Address) -> (r: Option<BalanceAccount>)
        ensures
            r == if self@.accounts.contains_key(*address) {
                Some(self@.accounts[*address])
            } else {
                None
            },
    {
        self.accounts.get(address)
    }

    /// The balance of the account at the address: nothing where there is no
    /// account.
    pub fn balance(&self, address: &Address) -> (r: u64)
        ensures
            r == self@.balance_of(*address),
    {
        match self.accounts.get(address) {
            Some(account) => account.balance,
            None => 0,
        }
    }

    /// The funds of a principal.
    pub fn funds(&self, who: &Address) -> (r: u64)
        ensures
            r == self@.funds_of(*who),
    {
        match self.wallets.get(who) {
            Some(funds) => funds,
            None => 0,
        }
    }

    /// Adds to the funds of a principal.
    pub fn deposit(&mut self, who: &Address, amount: u64) -> (r: Result<(), TokenError>)
        ensures
            settles(old(self)@.deposit(*who, amount), old(self)@, final(self)@, r),
    {
        let held = self.funds(who);
        if amount > u64::MAX - held {
            return Err(TokenError::Overflow);
        }
        self.wallets.set(*who, held + amount);
        Ok(())
    }

    /// Takes the cost of one account from the payer's funds.
    fn charge(&mut self, payer: &Address)
        requires
            old(self)@.funds_of(*payer) >= old(self)@.creation_cost,
        ensures
            final(self)@ == old(self)@.charge(*payer),
    {
        let held = self.funds(payer);
        self.wallets.set(*payer, held - self.creation_cost);
    }

    /// Creates the asset's record where there is none yet, paid for by
    /// `payer`; a record that is there stays as it is. Returns whether the
    /// record was created.
    pub fn create_asset_if_absent(&mut self, payer: &Address, record: AssetRecord) -> (r: Result<
        bool,
        TokenError,
    >)
        ensures
            match old(self)@.create_asset_if_absent(*payer, record) {
                Ok(state) => r == Ok::<bool, TokenError>(old(self)@.asset is None) && final(self)@
                    == state,
                Err(e) => r == Err::<bool, TokenError>(e) && final(self)@ == old(self)@,
            },
    {
        if self.asset.is_some() {
            return Ok(false);
        }
        if self.funds(payer) < self.creation_cost {
            return Err(TokenError::InsufficientPayerFunds);
        }
        self.charge(payer);
        self.asset = Some(record);
        Ok(true)
    }

    /// Creates a balance account at the address where it holds none yet,
    /// paid for by `payer`; an account that is there stays as it is.
    pub fn create_if_absent(&mut self, address: &Address, payer: &Address, layout: BalanceAccount) -> (r:
        Result<AccountRef, TokenError>)
        ensures
            match old(self)@.create_if_absent(*address, *payer, layout) {
                Ok(state) => r == Ok::<AccountRef, TokenError>(
                    AccountRef {
                        address: *address,
                        created: !old(self)@.accounts.contains_key(*address),
                    },
                ) && final(self)@ == state,
                Err(e) => r == Err::<AccountRef, TokenError>(e) && final(self)@ == old(self)@,
            },
    {
        if self.accounts.get(address).is_some() {
            return Ok(AccountRef { address: *address, created: false });
        }
        if self.funds(payer) < self.creation_cost {
            return Err(TokenError::InsufficientPayerFunds);
        }
        self.charge(payer);
        self.accounts.set(*address, layout);
        Ok(AccountRef { address: *address, created: true })
    }

    /// Mints `amount` of the asset into the account, authorized by the
    /// proof, which must speak for the asset's mint authority. The proof is
    /// used up, whether the mint is accepted or refused.
    pub fn checked_mint(
        &mut self,
        asset: &Address,
        account: &Address,
        amount: u64,
        proof: SigningProof,
    ) -> (r: Result<(), TokenError>)
        ensures
            settles(
                old(self)@.checked_mint(*asset, *account, amount, proof.authority()),
                old(self)@,
                final(self)@,
                r,
            ),
    {
        let record = match self.asset {
            Some(record) => record,
            None => { return Err(TokenError::AccountKindMismatch); },
        };
        if record.address != *asset {
            return Err(TokenError::AccountKindMismatch);
        }
        let held = match self.accounts.get(account) {
            Some(held) => held,
            None => { return Err(TokenError::AccountKindMismatch); },
        };
        if held.asset != *asset {
            return Err(TokenError::AccountKindMismatch);
        }
        if record.mint_authority != proof.authority() {
            return Err(TokenError::Unauthorized);
        }
        if amount > u64::MAX - held.balance || amount > u64::MAX - record.supply {
            return Err(TokenError::Overflow);
        }
        self.asset = Some(
            AssetRecord {
                address: record.address,
                decimals: record.decimals,
                mint_authority: record.mint_authority,
                freeze_authority: record.freeze_authority,
                supply: record.supply + amount,
            },
        );
        self.accounts.set(
            *account,
            BalanceAccount { owner: held.owner, asset: held.asset, balance: held.balance + amount },
        );
        Ok(())
    }

    /// Burns `amount` of the asset from the account, authorized by the
    /// account's owner.
    pub fn checked_burn(
        &mut self,
        asset: &Address,
        account: &Address,
        amount: u64,
        authority: &Address,
    ) -> (r: Result<(), TokenError>)
        ensures
            settles(
                old(self)@.checked_burn(*asset, *account, amount, *authority),
                old(self)@,
                final(self)@,
                r,
            ),
    {
        let record = match self.asset {
            Some(record) => record,
            None => { return Err(TokenError::AccountKindMismatch); },
        };
        if record.address != *asset {
            return Err(TokenError::AccountKindMismatch);
        }
        let held = match self.accounts.get(account) {
            Some(held) => held,
            None => { return Err(TokenError::AccountKindMismatch); },
        };
        if held.asset != *asset {
            return Err(TokenError::AccountKindMismatch);
        }
        if held.owner != *authority {
            return Err(TokenError::Unauthorized);
        }
        if held.balance < amount || record.supply < amount {
            return Err(TokenError::Underfunded);
        }
        self.asset = Some(
            AssetRecord {
                address: record.address,
                decimals: record.decimals,
                mint_authority: record.mint_authority,
                freeze_authority: record.freeze_authority,
                supply: record.supply - amount,
            },
        );
        self.accounts.set(
            *account,
            BalanceAccount { owner: held.owner, asset: held.asset, balance: held.balance - amount },
        );
        Ok(())
    }

    /// Moves `amount` of the asset from one account to another, authorized
    /// by the owner of the first.
    pub fn checked_transfer(
        &mut self,
        asset: &Address,
        from: &Address,
        to: &Address,
        amount: u64,
        authority: &Address,
    ) -> (r: Result<(), TokenError>)
        ensures
            settles(
                old(self)@.checked_transfer(*asset, *from, *to, amount, *authority),
                old(self)@,
                final(self)@,
                r,
            ),
    {
        let record = match self.asset {
            Some(record) => record,
            None => { return Err(TokenError::AccountKindMismatch); },
        };
        if record.address != *asset {
            return Err(TokenError::AccountKindMismatch);
        }
        let source = match self.accounts.get(from) {
            Some(source) => source,
            None => { return Err(TokenError::AccountKindMismatch); },
        };
        if source.asset != *asset {
            return Err(TokenError::AccountKindMismatch);
        }
        let target = match self.accounts.get(to) {
            Some(target) => target,
            None => { return Err(TokenError::AccountKindMismatch); },
        };
        if target.asset != *asset {
            return Err(TokenError::AccountKindMismatch);
        }
        if source.owner != *authority {
            return Err(TokenError::Unauthorized);
        }
        if source.balance < amount {
            return Err(TokenError::Underfunded);
        }
        if *from == *to {
            return Ok(());
        }
        if amount > u64::MAX - target.balance {
            return Err(TokenError::Overflow);
        }
        self.accounts.set(
            *from,
            BalanceAccount {
                owner: source.owner,
                asset: source.asset,
                balance: source.balance - amount,
            },
        );
        self.accounts.set(
            *to,
            BalanceAccount {
                owner: target.owner,
                asset: target.asset,
                balance: target.balance + amount,
            },
        );
        Ok(())
    }
}

} // verus!
