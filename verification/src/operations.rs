use crate::dispatch::{
    burn_plan, burn_token, initialize, initialize_plan, mint_plan, mint_token, transfer_plan,
    transfer_token, BurnToken, InitializeMintAccount, MintToken, TransferToken,
};
use crate::error::TokenError;
use crate::ledger::{settles, Ledger, LedgerState};
use crate::transaction::LedgerCall;
use vstd::prelude::*;

verus! {

impl LedgerState {
    /// The ledger after a planned operation: a plan that was refused
    /// changes nothing, one that was made is carried out as one
    /// transaction.
    pub open spec fn carry_out(self, plan: Result<Seq<LedgerCall>, TokenError>) -> Result<
        LedgerState,
        TokenError,
    > {
        match plan {
            Ok(calls) => self.apply_all(calls),
            Err(e) => Err(e),
        }
    }

    /// The ledger after a call that creates the asset.
    pub open spec fn create_asset(self, ctx: InitializeMintAccount, mint_bump: u8) -> Result<
        LedgerState,
        TokenError,
    > {
        self.carry_out(initialize_plan(ctx, mint_bump))
    }

    /// The ledger after a call that mints.
    pub open spec fn mint(self, ctx: MintToken, amount: u64, mint_bump: u8) -> Result<
        LedgerState,
        TokenError,
    > {
        self.carry_out(mint_plan(ctx, amount, mint_bump))
    }

    /// The ledger after a call that burns.
    pub open spec fn burn(self, ctx: BurnToken, amount: u64) -> Result<LedgerState, TokenError> {
        self.carry_out(burn_plan(ctx, amount))
    }

    /// The ledger after a call that transfers.
    pub open spec fn transfer(self, ctx: TransferToken, amount: u64) -> Result<
        LedgerState,
        TokenError,
    > {
        self.carry_out(transfer_plan(ctx, amount))
    }
}

impl Ledger {
    /// Creates the asset on this ledger: the call is planned and its plan
    /// carried out as one transaction. A call that is refused, by the plan
    /// or by the ledger, changes nothing.
    pub fn create_asset(&mut self, ctx: &InitializeMintAccount, mint_bump: u8) -> (r: Result<
        (),
        TokenError,
    >)
        ensures
            settles(old(self)@.create_asset(*ctx, mint_bump), old(self)@, final(self)@, r),
    {
        match initialize(ctx, mint_bump) {
            Ok(calls) => self.submit(calls),
            Err(e) => Err(e),
        }
    }

    /// Mints on this ledger: the call is planned and its plan carried out
    /// as one transaction. A call that is refused, by the plan or by the
    /// ledger, changes nothing.
    pub fn mint(&mut self, ctx: &MintToken, amount: u64, mint_bump: u8) -> (r: Result<
        (),
        TokenError,
    >)
        ensures
            settles(old(self)@.mint(*ctx, amount, mint_bump), old(self)@, final(self)@, r),
    {
        match mint_token(ctx, amount, mint_bump) {
            Ok(calls) => self.submit(calls),
            Err(e) => Err(e),
        }
    }

    /// Burns on this ledger: the call is planned and its plan carried out
    /// as one transaction. A call that is refused, by the plan or by the
    /// ledger, changes nothing.
    pub fn burn(&mut self, ctx: &BurnToken, amount: u64) -> (r: Result<(), TokenError>)
        ensures
            settles(old(self)@.burn(*ctx, amount), old(self)@, final(self)@, r),
    {
        match burn_token(ctx, amount) {
            Ok(calls) => self.submit(calls),
            Err(e) => Err(e),
        }
    }

    /// Transfers on this ledger: the call is planned and its plan carried
    /// out as one transaction. A call that is refused, by the plan or by
    /// the ledger, changes nothing.
    pub fn transfer(&mut self, ctx: &TransferToken, amount: u64) -> (r: Result<(), TokenError>)
        ensures
            settles(old(self)@.transfer(*ctx, amount), old(self)@, final(self)@, r),
    {
        match transfer_token(ctx, amount) {
            Ok(calls) => self.submit(calls),
            Err(e) => Err(e),
        }
    }
}

} // verus!
