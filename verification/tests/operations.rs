use fungible_token::address::{
    associated_token_program_id, derive_associated, is_same_address, program_id,
    system_program_id, token_program_id, Address,
};
use fungible_token::authority::{sign_as_authority, ASSET_DECIMALS};
use fungible_token::dispatch::{
    asset_address, burn_token, initialize, mint_token, transfer_token, BurnToken,
    InitializeMintAccount, MintToken, Signer, TransferToken,
};
use fungible_token::error::TokenError;
use fungible_token::ledger::{AccountRef, AssetRecord, BalanceAccount, Ledger};
use fungible_token::lifecycle::{
    ensure_account, ensure_asset, must_create_account, must_create_asset,
};
use fungible_token::transaction::LedgerCall;

const COST: u64 = 10;

fn wallet(n: u8) -> Address {
    Address::new([n; 32])
}

fn signer(n: u8) -> Signer {
    Signer { address: wallet(n), signed: true }
}

fn asset() -> Address {
    asset_address().unwrap().0
}

fn bump() -> u8 {
    asset_address().unwrap().1
}

fn account_of(n: u8) -> Address {
    derive_associated(&wallet(n), &asset()).unwrap()
}

fn init_ctx(payer: u8) -> InitializeMintAccount {
    InitializeMintAccount {
        owner: signer(payer),
        mint: asset(),
        system_program: system_program_id(),
        token_program: token_program_id(),
    }
}

fn mint_ctx(payer: u8, recipient: u8) -> MintToken {
    MintToken {
        owner: signer(payer),
        mint: asset(),
        token_account: account_of(recipient),
        to_address: wallet(recipient),
        system_program: system_program_id(),
        token_program: token_program_id(),
        associated_token_program: associated_token_program_id(),
    }
}

fn burn_ctx(owner: u8) -> BurnToken {
    BurnToken {
        owner: signer(owner),
        mint: asset(),
        from: account_of(owner),
        token_program: token_program_id(),
    }
}

fn transfer_ctx(owner: u8, recipient: u8) -> TransferToken {
    TransferToken {
        owner: signer(owner),
        mint: asset(),
        to: wallet(recipient),
        from: account_of(owner),
        to_token_account: account_of(recipient),
        token_program: token_program_id(),
        system_program: system_program_id(),
        associated_token_program: associated_token_program_id(),
    }
}

/// A ledger on which the asset exists and the wallets 1 to 5 hold funds.
fn ledger_with_asset() -> Ledger {
    let mut ledger = Ledger::new(COST);
    for n in 1..=5u8 {
        ledger.deposit(&wallet(n), 100).unwrap();
    }
    ledger.create_asset(&init_ctx(1), bump()).unwrap();
    ledger
}

fn mint(ledger: &mut Ledger, payer: u8, recipient: u8, amount: u64, bump: u8) -> Result<(), TokenError> {
    ledger.mint(&mint_ctx(payer, recipient), amount, bump)
}

fn burn(ledger: &mut Ledger, owner: u8, amount: u64) -> Result<(), TokenError> {
    ledger.burn(&burn_ctx(owner), amount)
}

fn transfer(ledger: &mut Ledger, owner: u8, recipient: u8, amount: u64) -> Result<(), TokenError> {
    ledger.transfer(&transfer_ctx(owner, recipient), amount)
}

fn supply(ledger: &Ledger) -> u64 {
    ledger.asset().unwrap().supply
}

#[test]
fn new_ledger_is_empty() {
    let ledger = Ledger::new(COST);
    assert_eq!(ledger.asset(), None);
    assert_eq!(ledger.account(&account_of(1)), None);
    assert_eq!(ledger.balance(&account_of(1)), 0);
    assert_eq!(ledger.funds(&wallet(1)), 0);
    assert_eq!(ledger.creation_cost(), COST);
}

#[test]
fn deposit_adds_to_funds() {
    let mut ledger = Ledger::new(COST);
    assert_eq!(ledger.deposit(&wallet(1), 7), Ok(()));
    assert_eq!(ledger.deposit(&wallet(1), 5), Ok(()));
    assert_eq!(ledger.deposit(&wallet(2), 1), Ok(()));
    assert_eq!(ledger.funds(&wallet(1)), 12);
    assert_eq!(ledger.funds(&wallet(2)), 1);
    assert_eq!(ledger.funds(&wallet(3)), 0);
}

#[test]
fn deposit_beyond_the_largest_amount_overflows() {
    let mut ledger = Ledger::new(COST);
    ledger.deposit(&wallet(1), u64::MAX - 1).unwrap();
    assert_eq!(ledger.deposit(&wallet(1), 2), Err(TokenError::Overflow));
    assert_eq!(ledger.funds(&wallet(1)), u64::MAX - 1);
    assert_eq!(ledger.deposit(&wallet(1), 1), Ok(()));
    assert_eq!(ledger.funds(&wallet(1)), u64::MAX);
}

#[test]
fn initialize_plans_the_creation_of_the_asset() {
    let calls = initialize(&init_ctx(1), bump()).unwrap();
    assert_eq!(
        calls,
        vec![LedgerCall::CreateAsset {
            address: asset(),
            payer: wallet(1),
            decimals: 6,
            mint_authority: asset(),
            freeze_authority: asset(),
        }]
    );
}

#[test]
fn initialize_creates_the_asset_as_its_own_authority() {
    let mut ledger = Ledger::new(COST);
    ledger.deposit(&wallet(1), 25).unwrap();
    assert_eq!(ledger.submit(initialize(&init_ctx(1), bump()).unwrap()), Ok(()));
    assert_eq!(
        ledger.asset(),
        Some(AssetRecord {
            address: asset(),
            decimals: ASSET_DECIMALS,
            mint_authority: asset(),
            freeze_authority: asset(),
            supply: 0,
        })
    );
    assert_eq!(ledger.funds(&wallet(1)), 15);
}

#[test]
fn initialize_twice_changes_nothing_the_second_time() {
    let mut ledger = Ledger::new(COST);
    ledger.deposit(&wallet(1), 25).unwrap();
    ledger.submit(initialize(&init_ctx(1), bump()).unwrap()).unwrap();
    mint(&mut ledger, 1, 2, 30, bump()).unwrap();
    let record = ledger.asset();
    let funds = ledger.funds(&wallet(1));
    assert_eq!(ledger.submit(initialize(&init_ctx(1), bump()).unwrap()), Ok(()));
    assert_eq!(ledger.asset(), record);
    assert_eq!(ledger.funds(&wallet(1)), funds);
    // another payer, who holds nothing, is not charged either
    assert_eq!(ledger.submit(initialize(&init_ctx(9), bump()).unwrap()), Ok(()));
    assert_eq!(ledger.asset(), record);
    let held = ledger.asset().unwrap();
    assert_eq!(held.mint_authority, held.address);
    assert_eq!(held.freeze_authority, held.address);
    assert_eq!(held.supply, 30);
}

#[test]
fn initialize_refuses_a_wrong_bump() {
    for other in 0..=255u8 {
        if other != bump() {
            assert_eq!(initialize(&init_ctx(1), other), Err(TokenError::AddressMismatch));
        }
    }
}

#[test]
fn initialize_refuses_another_address() {
    let mut ctx = init_ctx(1);
    ctx.mint = wallet(7);
    assert_eq!(initialize(&ctx, bump()), Err(TokenError::AddressMismatch));
}

#[test]
fn initialize_refuses_unknown_services() {
    let mut ctx = init_ctx(1);
    ctx.system_program = token_program_id();
    assert_eq!(initialize(&ctx, bump()), Err(TokenError::AddressMismatch));
    let mut ctx = init_ctx(1);
    ctx.token_program = program_id();
    assert_eq!(initialize(&ctx, bump()), Err(TokenError::AddressMismatch));
}

#[test]
fn initialize_refuses_a_payer_who_did_not_sign() {
    let mut ctx = init_ctx(1);
    ctx.owner.signed = false;
    assert_eq!(initialize(&ctx, bump()), Err(TokenError::Unauthorized));
    // the signature is looked at before the addresses
    ctx.mint = wallet(7);
    assert_eq!(initialize(&ctx, bump()), Err(TokenError::Unauthorized));
}

#[test]
fn initialize_fails_when_the_payer_cannot_pay() {
    let mut ledger = Ledger::new(COST);
    ledger.deposit(&wallet(1), COST - 1).unwrap();
    assert_eq!(
        ledger.submit(initialize(&init_ctx(1), bump()).unwrap()),
        Err(TokenError::InsufficientPayerFunds)
    );
    assert_eq!(ledger.asset(), None);
    assert_eq!(ledger.funds(&wallet(1)), COST - 1);
    ledger.deposit(&wallet(1), 1).unwrap();
    assert_eq!(ledger.submit(initialize(&init_ctx(1), bump()).unwrap()), Ok(()));
    assert_eq!(ledger.funds(&wallet(1)), 0);
}

#[test]
fn mint_plans_account_creation_and_the_mint() {
    let calls = mint_token(&mint_ctx(1, 2), 100, bump()).unwrap();
    assert_eq!(
        calls,
        vec![
            LedgerCall::CreateAccount {
                address: account_of(2),
                payer: wallet(1),
                owner: wallet(2),
                asset: asset(),
            },
            LedgerCall::Mint {
                asset: asset(),
                account: account_of(2),
                amount: 100,
                proof: sign_as_authority(bump(), &asset()).unwrap(),
            },
        ]
    );
}

#[test]
fn mint_then_wrong_bump_scenario() {
    let mut ledger = ledger_with_asset();
    assert_eq!(mint(&mut ledger, 1, 2, 100, bump()), Ok(()));
    assert_eq!(ledger.balance(&account_of(2)), 100);
    let wrong = bump().wrapping_sub(1);
    assert_eq!(mint(&mut ledger, 1, 2, 100, wrong), Err(TokenError::AddressMismatch));
    assert_eq!(ledger.balance(&account_of(2)), 100);
    assert_eq!(supply(&ledger), 100);
}

#[test]
fn mint_creates_the_recipients_account_at_the_payers_cost() {
    let mut ledger = ledger_with_asset();
    let before = ledger.funds(&wallet(1));
    assert_eq!(ledger.account(&account_of(2)), None);
    mint(&mut ledger, 1, 2, 5, bump()).unwrap();
    assert_eq!(
        ledger.account(&account_of(2)),
        Some(BalanceAccount { owner: wallet(2), asset: asset(), balance: 5 })
    );
    assert_eq!(ledger.funds(&wallet(1)), before - COST);
    assert_eq!(ledger.funds(&wallet(2)), 100);
    // the account is there now: a second mint creates nothing
    mint(&mut ledger, 1, 2, 7, bump()).unwrap();
    assert_eq!(ledger.balance(&account_of(2)), 12);
    assert_eq!(ledger.funds(&wallet(1)), before - COST);
    assert_eq!(supply(&ledger), 12);
}

#[test]
fn mint_refuses_a_zero_amount() {
    let mut ledger = ledger_with_asset();
    assert_eq!(mint_token(&mint_ctx(1, 2), 0, bump()), Err(TokenError::InvalidAmount));
    assert_eq!(mint(&mut ledger, 1, 2, 0, bump()), Err(TokenError::InvalidAmount));
    // the amount is looked at first
    let mut ctx = mint_ctx(1, 2);
    ctx.owner.signed = false;
    assert_eq!(mint_token(&ctx, 0, bump().wrapping_add(1)), Err(TokenError::InvalidAmount));
    assert_eq!(ledger.account(&account_of(2)), None);
}

#[test]
fn mint_refuses_a_payer_who_did_not_sign() {
    let mut ctx = mint_ctx(1, 2);
    ctx.owner.signed = false;
    assert_eq!(mint_token(&ctx, 1, bump()), Err(TokenError::Unauthorized));
}

#[test]
fn mint_refuses_unknown_services() {
    let mut ctx = mint_ctx(1, 2);
    ctx.system_program = wallet(0);
    assert_eq!(mint_token(&mint_ctx(1, 2), 1, bump()).is_ok(), true);
    ctx.system_program = wallet(1);
    assert_eq!(mint_token(&ctx, 1, bump()), Err(TokenError::AddressMismatch));
    let mut ctx = mint_ctx(1, 2);
    ctx.token_program = associated_token_program_id();
    assert_eq!(mint_token(&ctx, 1, bump()), Err(TokenError::AddressMismatch));
    let mut ctx = mint_ctx(1, 2);
    ctx.associated_token_program = token_program_id();
    assert_eq!(mint_token(&ctx, 1, bump()), Err(TokenError::AddressMismatch));
}

#[test]
fn mint_refuses_an_account_that_is_not_the_recipients() {
    let mut ctx = mint_ctx(1, 2);
    ctx.token_account = account_of(3);
    assert_eq!(mint_token(&ctx, 1, bump()), Err(TokenError::AddressMismatch));
    let mut ctx = mint_ctx(1, 2);
    ctx.token_account = wallet(2);
    assert_eq!(mint_token(&ctx, 1, bump()), Err(TokenError::AddressMismatch));
    let mut ctx = mint_ctx(1, 2);
    ctx.to_address = wallet(3);
    assert_eq!(mint_token(&ctx, 1, bump()), Err(TokenError::AddressMismatch));
}

#[test]
fn mint_refuses_another_asset_address() {
    let mut ctx = mint_ctx(1, 2);
    ctx.mint = wallet(9);
    ctx.token_account = derive_associated(&wallet(2), &wallet(9)).unwrap();
    assert_eq!(mint_token(&ctx, 1, bump()), Err(TokenError::AddressMismatch));
}

#[test]
fn mint_fails_when_the_payer_cannot_pay() {
    let mut ledger = ledger_with_asset();
    assert_eq!(mint(&mut ledger, 9, 2, 5, bump()), Err(TokenError::InsufficientPayerFunds));
    assert_eq!(ledger.account(&account_of(2)), None);
    assert_eq!(supply(&ledger), 0);
}

#[test]
fn mint_before_the_asset_exists_fails_and_creates_nothing() {
    let mut ledger = Ledger::new(COST);
    ledger.deposit(&wallet(1), 100).unwrap();
    assert_eq!(mint(&mut ledger, 1, 2, 5, bump()), Err(TokenError::AccountKindMismatch));
    assert_eq!(ledger.account(&account_of(2)), None);
    assert_eq!(ledger.funds(&wallet(1)), 100);
}

#[test]
fn mint_overflow_is_refused_and_creates_nothing() {
    let mut ledger = ledger_with_asset();
    mint(&mut ledger, 1, 2, u64::MAX, bump()).unwrap();
    let funds = ledger.funds(&wallet(1));
    // the supply would overflow: the account of wallet 3 is not created
    assert_eq!(mint(&mut ledger, 1, 3, 1, bump()), Err(TokenError::Overflow));
    assert_eq!(ledger.account(&account_of(3)), None);
    assert_eq!(ledger.funds(&wallet(1)), funds);
    assert_eq!(mint(&mut ledger, 1, 2, 1, bump()), Err(TokenError::Overflow));
    assert_eq!(ledger.balance(&account_of(2)), u64::MAX);
    assert_eq!(supply(&ledger), u64::MAX);
}

#[test]
fn burn_plans_the_burn() {
    assert_eq!(
        burn_token(&burn_ctx(2), 40).unwrap(),
        vec![LedgerCall::Burn {
            asset: asset(),
            account: account_of(2),
            amount: 40,
            authority: wallet(2),
        }]
    );
}

#[test]
fn burn_takes_from_balance_and_supply() {
    let mut ledger = ledger_with_asset();
    mint(&mut ledger, 1, 2, 100, bump()).unwrap();
    mint(&mut ledger, 1, 3, 50, bump()).unwrap();
    assert_eq!(burn(&mut ledger, 2, 30), Ok(()));
    assert_eq!(ledger.balance(&account_of(2)), 70);
    assert_eq!(ledger.balance(&account_of(3)), 50);
    assert_eq!(supply(&ledger), 120);
    assert_eq!(burn(&mut ledger, 2, 70), Ok(()));
    assert_eq!(ledger.balance(&account_of(2)), 0);
    // the account stays
    assert_eq!(
        ledger.account(&account_of(2)),
        Some(BalanceAccount { owner: wallet(2), asset: asset(), balance: 0 })
    );
}

#[test]
fn mint_then_burn_restores_the_balance() {
    let mut ledger = ledger_with_asset();
    mint(&mut ledger, 1, 2, 17, bump()).unwrap();
    let balance = ledger.balance(&account_of(2));
    let circulating = supply(&ledger);
    mint(&mut ledger, 1, 2, 1000, bump()).unwrap();
    assert_eq!(ledger.balance(&account_of(2)), 1017);
    burn(&mut ledger, 2, 1000).unwrap();
    assert_eq!(ledger.balance(&account_of(2)), balance);
    assert_eq!(supply(&ledger), circulating);
}

#[test]
fn mint_then_transfer_to_a_fresh_recipient_moves_all() {
    let mut ledger = ledger_with_asset();
    mint(&mut ledger, 1, 2, 250, bump()).unwrap();
    assert_eq!(ledger.account(&account_of(3)), None);
    transfer(&mut ledger, 2, 3, 250).unwrap();
    assert_eq!(ledger.balance(&account_of(2)), 0);
    assert_eq!(ledger.balance(&account_of(3)), 250);
    assert_eq!(supply(&ledger), 250);
}

#[test]
fn burn_beyond_the_balance_is_underfunded() {
    let mut ledger = ledger_with_asset();
    mint(&mut ledger, 1, 2, 100, bump()).unwrap();
    assert_eq!(burn(&mut ledger, 2, 101), Err(TokenError::Underfunded));
    assert_eq!(ledger.balance(&account_of(2)), 100);
    assert_eq!(supply(&ledger), 100);
    assert_eq!(burn(&mut ledger, 2, u64::MAX), Err(TokenError::Underfunded));
    assert_eq!(ledger.balance(&account_of(2)), 100);
    assert_eq!(burn(&mut ledger, 2, 100), Ok(()));
    assert_eq!(burn(&mut ledger, 2, 1), Err(TokenError::Underfunded));
}

#[test]
fn burn_refuses_a_zero_amount() {
    let mut ledger = ledger_with_asset();
    mint(&mut ledger, 1, 2, 100, bump()).unwrap();
    assert_eq!(burn_token(&burn_ctx(2), 0), Err(TokenError::InvalidAmount));
    assert_eq!(burn(&mut ledger, 2, 0), Err(TokenError::InvalidAmount));
    assert_eq!(ledger.balance(&account_of(2)), 100);
}

#[test]
fn burn_refuses_an_owner_who_did_not_sign() {
    let mut ctx = burn_ctx(2);
    ctx.owner.signed = false;
    assert_eq!(burn_token(&ctx, 1), Err(TokenError::Unauthorized));
}

#[test]
fn burn_refuses_an_unknown_ledger_service() {
    let mut ctx = burn_ctx(2);
    ctx.token_program = system_program_id();
    assert_eq!(burn_token(&ctx, 1), Err(TokenError::AddressMismatch));
}

#[test]
fn burn_by_another_than_the_owner_is_unauthorized() {
    let mut ledger = ledger_with_asset();
    mint(&mut ledger, 1, 2, 100, bump()).unwrap();
    let mut ctx = burn_ctx(2);
    ctx.owner = signer(3);
    assert_eq!(ledger.submit(burn_token(&ctx, 10).unwrap()), Err(TokenError::Unauthorized));
    assert_eq!(ledger.balance(&account_of(2)), 100);
    // the authority is looked at before the balance
    assert_eq!(ledger.submit(burn_token(&ctx, 1000).unwrap()), Err(TokenError::Unauthorized));
}

#[test]
fn burn_from_an_address_without_account_is_a_kind_mismatch() {
    let mut ledger = ledger_with_asset();
    assert_eq!(burn(&mut ledger, 2, 1), Err(TokenError::AccountKindMismatch));
    let mut ctx = burn_ctx(2);
    ctx.from = asset();
    assert_eq!(ledger.submit(burn_token(&ctx, 1).unwrap()), Err(TokenError::AccountKindMismatch));
}

#[test]
fn burn_of_another_asset_is_a_kind_mismatch() {
    let mut ledger = ledger_with_asset();
    mint(&mut ledger, 1, 2, 100, bump()).unwrap();
    let mut ctx = burn_ctx(2);
    ctx.mint = wallet(8);
    assert_eq!(ledger.submit(burn_token(&ctx, 1).unwrap()), Err(TokenError::AccountKindMismatch));
    assert_eq!(ledger.balance(&account_of(2)), 100);
}

#[test]
fn transfer_plans_account_creation_and_the_transfer() {
    assert_eq!(
        transfer_token(&transfer_ctx(2, 3), 40).unwrap(),
        vec![
            LedgerCall::CreateAccount {
                address: account_of(3),
                payer: wallet(3),
                owner: wallet(3),
                asset: asset(),
            },
            LedgerCall::Transfer {
                asset: asset(),
                from: account_of(2),
                to: account_of(3),
                amount: 40,
                authority: wallet(2),
            },
        ]
    );
}

#[test]
fn transfer_to_a_new_recipient_scenario() {
    let mut ledger = ledger_with_asset();
    mint(&mut ledger, 1, 2, 100, bump()).unwrap();
    assert_eq!(ledger.account(&account_of(3)), None);
    let funds = ledger.funds(&wallet(3));
    assert_eq!(transfer(&mut ledger, 2, 3, 40), Ok(()));
    assert_eq!(ledger.balance(&account_of(2)), 60);
    assert_eq!(ledger.balance(&account_of(3)), 40);
    assert_eq!(
        ledger.account(&account_of(3)),
        Some(BalanceAccount { owner: wallet(3), asset: asset(), balance: 40 })
    );
    // the recipient paid for its own account
    assert_eq!(ledger.funds(&wallet(3)), funds - COST);
    assert_eq!(supply(&ledger), 100);
}

#[test]
fn transfer_to_an_existing_account_creates_nothing() {
    let mut ledger = ledger_with_asset();
    mint(&mut ledger, 1, 2, 100, bump()).unwrap();
    mint(&mut ledger, 1, 3, 1, bump()).unwrap();
    let funds = ledger.funds(&wallet(3));
    transfer(&mut ledger, 2, 3, 40).unwrap();
    assert_eq!(ledger.funds(&wallet(3)), funds);
    assert_eq!(ledger.balance(&account_of(3)), 41);
    assert_eq!(ledger.balance(&account_of(2)), 60);
}

#[test]
fn transfer_to_oneself_changes_nothing() {
    let mut ledger = ledger_with_asset();
    mint(&mut ledger, 1, 2, 100, bump()).unwrap();
    assert_eq!(transfer(&mut ledger, 2, 2, 40), Ok(()));
    assert_eq!(ledger.balance(&account_of(2)), 100);
    assert_eq!(transfer(&mut ledger, 2, 2, 101), Err(TokenError::Underfunded));
}

#[test]
fn transfer_refuses_a_zero_amount() {
    let mut ledger = ledger_with_asset();
    mint(&mut ledger, 1, 2, 100, bump()).unwrap();
    assert_eq!(transfer_token(&transfer_ctx(2, 3), 0), Err(TokenError::InvalidAmount));
    assert_eq!(transfer(&mut ledger, 2, 3, 0), Err(TokenError::InvalidAmount));
    assert_eq!(ledger.account(&account_of(3)), None);
}

#[test]
fn transfer_refuses_an_owner_who_did_not_sign() {
    let mut ctx = transfer_ctx(2, 3);
    ctx.owner.signed = false;
    assert_eq!(transfer_token(&ctx, 1), Err(TokenError::Unauthorized));
}

#[test]
fn transfer_refuses_unknown_services() {
    let mut ctx = transfer_ctx(2, 3);
    ctx.system_program = wallet(1);
    assert_eq!(transfer_token(&ctx, 1), Err(TokenError::AddressMismatch));
    let mut ctx = transfer_ctx(2, 3);
    ctx.token_program = wallet(1);
    assert_eq!(transfer_token(&ctx, 1), Err(TokenError::AddressMismatch));
    let mut ctx = transfer_ctx(2, 3);
    ctx.associated_token_program = wallet(1);
    assert_eq!(transfer_token(&ctx, 1), Err(TokenError::AddressMismatch));
}

#[test]
fn transfer_refuses_an_account_that_is_not_the_recipients() {
    let mut ctx = transfer_ctx(2, 3);
    ctx.to_token_account = account_of(4);
    assert_eq!(transfer_token(&ctx, 1), Err(TokenError::AddressMismatch));
    let mut ctx = transfer_ctx(2, 3);
    ctx.to = wallet(4);
    assert_eq!(transfer_token(&ctx, 1), Err(TokenError::AddressMismatch));
}

#[test]
fn transfer_beyond_the_balance_is_underfunded_and_creates_nothing() {
    let mut ledger = ledger_with_asset();
    mint(&mut ledger, 1, 2, 100, bump()).unwrap();
    let funds = ledger.funds(&wallet(3));
    assert_eq!(transfer(&mut ledger, 2, 3, 101), Err(TokenError::Underfunded));
    assert_eq!(ledger.balance(&account_of(2)), 100);
    assert_eq!(ledger.account(&account_of(3)), None);
    assert_eq!(ledger.funds(&wallet(3)), funds);
}

#[test]
fn transfer_by_another_than_the_owner_is_unauthorized() {
    let mut ledger = ledger_with_asset();
    mint(&mut ledger, 1, 2, 100, bump()).unwrap();
    let mut ctx = transfer_ctx(2, 3);
    ctx.owner = signer(3);
    assert_eq!(ledger.submit(transfer_token(&ctx, 10).unwrap()), Err(TokenError::Unauthorized));
    assert_eq!(ledger.balance(&account_of(2)), 100);
    assert_eq!(ledger.account(&account_of(3)), None);
}

#[test]
fn transfer_fails_when_the_recipient_cannot_pay() {
    let mut ledger = ledger_with_asset();
    mint(&mut ledger, 1, 2, 100, bump()).unwrap();
    assert_eq!(transfer(&mut ledger, 2, 9, 10), Err(TokenError::InsufficientPayerFunds));
    assert_eq!(ledger.balance(&account_of(2)), 100);
    ledger.deposit(&wallet(9), COST).unwrap();
    assert_eq!(transfer(&mut ledger, 2, 9, 10), Ok(()));
    assert_eq!(ledger.balance(&account_of(9)), 10);
    assert_eq!(ledger.funds(&wallet(9)), 0);
}

#[test]
fn transfer_from_an_address_without_account_is_a_kind_mismatch() {
    let mut ledger = ledger_with_asset();
    mint(&mut ledger, 1, 3, 5, bump()).unwrap();
    assert_eq!(transfer(&mut ledger, 2, 3, 1), Err(TokenError::AccountKindMismatch));
    assert_eq!(ledger.balance(&account_of(3)), 5);
}

#[test]
fn transfer_overflow_is_refused() {
    let mut ledger = ledger_with_asset();
    let asset = asset();
    // two accounts that together hold more than the supply could: made by hand
    ledger.create_if_absent(&wallet(20), &wallet(1), BalanceAccount { owner: wallet(2), asset, balance: u64::MAX }).unwrap();
    ledger.create_if_absent(&wallet(21), &wallet(1), BalanceAccount { owner: wallet(3), asset, balance: 5 }).unwrap();
    assert_eq!(
        ledger.checked_transfer(&asset, &wallet(21), &wallet(20), 1, &wallet(3)),
        Err(TokenError::Overflow)
    );
    assert_eq!(ledger.balance(&wallet(20)), u64::MAX);
    assert_eq!(ledger.balance(&wallet(21)), 5);
    assert_eq!(ledger.checked_transfer(&asset, &wallet(20), &wallet(21), 7, &wallet(2)), Ok(()));
    assert_eq!(ledger.balance(&wallet(20)), u64::MAX - 7);
    assert_eq!(ledger.balance(&wallet(21)), 12);
}

#[test]
fn ensure_account_creates_once() {
    let mut ledger = ledger_with_asset();
    let address = account_of(2);
    let first = ensure_account(&mut ledger, &address, &wallet(1), &wallet(2), &asset());
    assert_eq!(first, Ok(AccountRef { address, created: true }));
    assert_eq!(ledger.funds(&wallet(1)), 100 - 2 * COST);
    // a second caller, with another payer, finds the account and pays nothing
    let second = ensure_account(&mut ledger, &address, &wallet(3), &wallet(2), &asset());
    assert_eq!(second, Ok(AccountRef { address, created: false }));
    assert_eq!(ledger.funds(&wallet(3)), 100);
    assert_eq!(
        ledger.account(&address),
        Some(BalanceAccount { owner: wallet(2), asset: asset(), balance: 0 })
    );
    // a payer without funds is no error either, once the account is there
    let third = ensure_account(&mut ledger, &address, &wallet(9), &wallet(2), &asset());
    assert_eq!(third, Ok(AccountRef { address, created: false }));
}

#[test]
fn ensure_account_keeps_the_balance_of_an_existing_account() {
    let mut ledger = ledger_with_asset();
    mint(&mut ledger, 1, 2, 33, bump()).unwrap();
    let address = account_of(2);
    assert_eq!(
        ensure_account(&mut ledger, &address, &wallet(1), &wallet(2), &asset()),
        Ok(AccountRef { address, created: false })
    );
    assert_eq!(ledger.balance(&address), 33);
}

#[test]
fn ensure_account_fails_when_the_payer_cannot_pay() {
    let mut ledger = Ledger::new(COST);
    ledger.deposit(&wallet(1), COST - 1).unwrap();
    assert_eq!(
        ensure_account(&mut ledger, &account_of(2), &wallet(1), &wallet(2), &asset()),
        Err(TokenError::InsufficientPayerFunds)
    );
    assert_eq!(ledger.account(&account_of(2)), None);
    assert_eq!(ledger.funds(&wallet(1)), COST - 1);
}

#[test]
fn ensure_account_refuses_an_account_of_another_kind() {
    let mut ledger = ledger_with_asset();
    let address = account_of(2);
    ensure_account(&mut ledger, &address, &wallet(1), &wallet(2), &asset()).unwrap();
    assert_eq!(
        ensure_account(&mut ledger, &address, &wallet(1), &wallet(3), &asset()),
        Err(TokenError::AccountKindMismatch)
    );
    assert_eq!(
        ensure_account(&mut ledger, &address, &wallet(1), &wallet(2), &wallet(7)),
        Err(TokenError::AccountKindMismatch)
    );
    assert_eq!(
        ledger.account(&address),
        Some(BalanceAccount { owner: wallet(2), asset: asset(), balance: 0 })
    );
}

#[test]
fn ensure_asset_refuses_a_record_of_another_kind() {
    let mut ledger = ledger_with_asset();
    let held = ledger.asset().unwrap();
    assert_eq!(
        ensure_asset(&mut ledger, &wallet(1), &held),
        Ok(AccountRef { address: asset(), created: false })
    );
    let mut other = held;
    other.decimals = 9;
    assert_eq!(ensure_asset(&mut ledger, &wallet(1), &other), Err(TokenError::AccountKindMismatch));
    let mut other = held;
    other.mint_authority = wallet(1);
    assert_eq!(ensure_asset(&mut ledger, &wallet(1), &other), Err(TokenError::AccountKindMismatch));
    let mut other = held;
    other.freeze_authority = wallet(1);
    assert_eq!(ensure_asset(&mut ledger, &wallet(1), &other), Err(TokenError::AccountKindMismatch));
    let mut other = held;
    other.address = wallet(1);
    assert_eq!(ensure_asset(&mut ledger, &wallet(1), &other), Err(TokenError::AccountKindMismatch));
    assert_eq!(ledger.asset(), Some(held));
}

#[test]
fn ensure_asset_creates_with_nothing_in_circulation() {
    let mut ledger = Ledger::new(COST);
    ledger.deposit(&wallet(1), COST).unwrap();
    let record = AssetRecord {
        address: asset(),
        decimals: 6,
        mint_authority: asset(),
        freeze_authority: asset(),
        supply: 77,
    };
    assert_eq!(
        ensure_asset(&mut ledger, &wallet(1), &record),
        Ok(AccountRef { address: asset(), created: true })
    );
    assert_eq!(ledger.asset().unwrap().supply, 0);
    assert_eq!(ledger.funds(&wallet(1)), 0);
}

#[test]
fn create_if_absent_leaves_an_existing_account_alone() {
    let mut ledger = ledger_with_asset();
    let layout = BalanceAccount { owner: wallet(2), asset: asset(), balance: 0 };
    assert_eq!(
        ledger.create_if_absent(&wallet(30), &wallet(1), layout),
        Ok(AccountRef { address: wallet(30), created: true })
    );
    let other = BalanceAccount { owner: wallet(3), asset: asset(), balance: 9 };
    assert_eq!(
        ledger.create_if_absent(&wallet(30), &wallet(1), other),
        Ok(AccountRef { address: wallet(30), created: false })
    );
    assert_eq!(ledger.account(&wallet(30)), Some(layout));
    assert_eq!(ledger.create_asset_if_absent(&wallet(1), AssetRecord {
        address: wallet(1),
        decimals: 0,
        mint_authority: wallet(1),
        freeze_authority: wallet(1),
        supply: 0,
    }), Ok(false));
    assert_eq!(ledger.asset().unwrap().address, asset());
}

#[test]
fn checked_mint_needs_a_proof_for_the_mint_authority() {
    let mut ledger = Ledger::new(0);
    // an asset whose mint authority is somebody else's address
    ledger.create_asset_if_absent(&wallet(1), AssetRecord {
        address: asset(),
        decimals: 6,
        mint_authority: wallet(5),
        freeze_authority: wallet(5),
        supply: 0,
    }).unwrap();
    ensure_account(&mut ledger, &account_of(2), &wallet(1), &wallet(2), &asset()).unwrap();
    let proof = sign_as_authority(bump(), &asset()).unwrap();
    assert_eq!(
        ledger.checked_mint(&asset(), &account_of(2), 1, proof),
        Err(TokenError::Unauthorized)
    );
    assert_eq!(ledger.balance(&account_of(2)), 0);
}

#[test]
fn submit_is_all_or_nothing() {
    let mut ledger = ledger_with_asset();
    mint(&mut ledger, 1, 2, 100, bump()).unwrap();
    let funds = ledger.funds(&wallet(1));
    let calls = vec![
        LedgerCall::CreateAccount {
            address: account_of(4),
            payer: wallet(1),
            owner: wallet(4),
            asset: asset(),
        },
        LedgerCall::Burn { asset: asset(), account: account_of(2), amount: 10, authority: wallet(2) },
        LedgerCall::Burn { asset: asset(), account: account_of(2), amount: 91, authority: wallet(2) },
    ];
    assert_eq!(ledger.submit(calls), Err(TokenError::Underfunded));
    assert_eq!(ledger.account(&account_of(4)), None);
    assert_eq!(ledger.balance(&account_of(2)), 100);
    assert_eq!(ledger.funds(&wallet(1)), funds);
    assert_eq!(supply(&ledger), 100);
    assert_eq!(ledger.submit(Vec::new()), Ok(()));
}

#[test]
fn apply_carries_out_one_call() {
    let mut ledger = ledger_with_asset();
    for _ in 0..2 {
        let create = LedgerCall::CreateAccount {
            address: account_of(2),
            payer: wallet(1),
            owner: wallet(2),
            asset: asset(),
        };
        assert_eq!(ledger.apply(create), Ok(()));
    }
    assert_eq!(ledger.funds(&wallet(1)), 100 - 2 * COST);
    for _ in 0..2 {
        let mint = LedgerCall::Mint {
            asset: asset(),
            account: account_of(2),
            amount: 8,
            proof: sign_as_authority(bump(), &asset()).unwrap(),
        };
        assert_eq!(ledger.apply(mint), Ok(()));
    }
    assert_eq!(ledger.balance(&account_of(2)), 16);
    let copy = ledger.duplicate();
    let burn = LedgerCall::Burn {
        asset: asset(),
        account: account_of(2),
        amount: 6,
        authority: wallet(2),
    };
    assert_eq!(ledger.apply(burn), Ok(()));
    assert_eq!(ledger.balance(&account_of(2)), 10);
    assert_eq!(copy.balance(&account_of(2)), 16);
    assert_eq!(copy.asset().unwrap().supply, 16);
    assert_eq!(copy.funds(&wallet(1)), ledger.funds(&wallet(1)));
}

#[test]
fn operations_do_what_their_plans_say() {
    let mut direct = Ledger::new(COST);
    let mut planned = Ledger::new(COST);
    for ledger in [&mut direct, &mut planned] {
        ledger.deposit(&wallet(1), 100).unwrap();
        ledger.deposit(&wallet(3), 100).unwrap();
    }
    assert_eq!(direct.create_asset(&init_ctx(1), bump()), Ok(()));
    assert_eq!(planned.submit(initialize(&init_ctx(1), bump()).unwrap()), Ok(()));
    assert_eq!(direct.mint(&mint_ctx(1, 2), 100, bump()), Ok(()));
    assert_eq!(planned.submit(mint_token(&mint_ctx(1, 2), 100, bump()).unwrap()), Ok(()));
    assert_eq!(direct.transfer(&transfer_ctx(2, 3), 40), Ok(()));
    assert_eq!(planned.submit(transfer_token(&transfer_ctx(2, 3), 40).unwrap()), Ok(()));
    assert_eq!(direct.burn(&burn_ctx(3), 15), Ok(()));
    assert_eq!(planned.submit(burn_token(&burn_ctx(3), 15).unwrap()), Ok(()));
    for ledger in [&direct, &planned] {
        assert_eq!(ledger.balance(&account_of(2)), 60);
        assert_eq!(ledger.balance(&account_of(3)), 25);
        assert_eq!(ledger.asset().unwrap().supply, 85);
        assert_eq!(ledger.funds(&wallet(1)), 80);
        assert_eq!(ledger.funds(&wallet(3)), 90);
    }
    assert_eq!(direct.asset(), planned.asset());
}

#[test]
fn operations_refused_by_their_plan_change_nothing() {
    let mut ledger = ledger_with_asset();
    mint(&mut ledger, 1, 2, 100, bump()).unwrap();
    let mut ctx = init_ctx(1);
    ctx.owner.signed = false;
    assert_eq!(ledger.create_asset(&ctx, bump()), Err(TokenError::Unauthorized));
    let mut ctx = mint_ctx(1, 3);
    ctx.token_account = account_of(4);
    assert_eq!(ledger.mint(&ctx, 5, bump()), Err(TokenError::AddressMismatch));
    let mut ctx = burn_ctx(2);
    ctx.owner.signed = false;
    assert_eq!(ledger.burn(&ctx, 5), Err(TokenError::Unauthorized));
    let mut ctx = transfer_ctx(2, 3);
    ctx.token_program = wallet(0);
    assert_eq!(ledger.transfer(&ctx, 5), Err(TokenError::AddressMismatch));
    assert_eq!(ledger.balance(&account_of(2)), 100);
    assert_eq!(ledger.account(&account_of(3)), None);
    assert_eq!(ledger.account(&account_of(4)), None);
    assert_eq!(supply(&ledger), 100);
}

#[test]
fn creation_decisions() {
    let held = BalanceAccount { owner: wallet(2), asset: asset(), balance: 3 };
    assert_eq!(must_create_account(None, &wallet(2), &asset()), Ok(true));
    assert_eq!(must_create_account(Some(held), &wallet(2), &asset()), Ok(false));
    assert_eq!(
        must_create_account(Some(held), &wallet(3), &asset()),
        Err(TokenError::AccountKindMismatch)
    );
    assert_eq!(
        must_create_account(Some(held), &wallet(2), &wallet(3)),
        Err(TokenError::AccountKindMismatch)
    );
    let record = AssetRecord {
        address: asset(),
        decimals: 6,
        mint_authority: asset(),
        freeze_authority: asset(),
        supply: 0,
    };
    assert_eq!(must_create_asset(None, &record), Ok(true));
    let mut grown = record;
    grown.supply = 500;
    assert_eq!(must_create_asset(Some(grown), &record), Ok(false));
    let mut other = record;
    other.freeze_authority = wallet(1);
    assert_eq!(must_create_asset(Some(other), &record), Err(TokenError::AccountKindMismatch));
}

#[test]
fn same_address_compares_with_what_was_derived() {
    assert!(is_same_address(Some(wallet(1)), &wallet(1)));
    assert!(!is_same_address(Some(wallet(1)), &wallet(2)));
    assert!(!is_same_address(None, &wallet(1)));
}
