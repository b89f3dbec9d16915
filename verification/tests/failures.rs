use nft_lend_borrow::authority::derive_authority;
use nft_lend_borrow::authority::Address;
use nft_lend_borrow::authority::Authority;
use nft_lend_borrow::authority::Seeds;
use nft_lend_borrow::instructions::borrow;
use nft_lend_borrow::instructions::create_pool;
use nft_lend_borrow::instructions::liquidate;
use nft_lend_borrow::instructions::offer_loan;
use nft_lend_borrow::instructions::repay;
use nft_lend_borrow::instructions::withdraw_offer;
use nft_lend_borrow::instructions::Borrow;
use nft_lend_borrow::instructions::Context;
use nft_lend_borrow::instructions::CreatePool;
use nft_lend_borrow::instructions::Liquidate;
use nft_lend_borrow::instructions::OfferLoan;
use nft_lend_borrow::instructions::Repay;
use nft_lend_borrow::instructions::WithdrawOffer;
use nft_lend_borrow::states::Account;
use nft_lend_borrow::states::ActiveLoan;
use nft_lend_borrow::states::Clock;
use nft_lend_borrow::states::CollectionPool;
use nft_lend_borrow::states::Offer;
use nft_lend_borrow::states::Signer;
use nft_lend_borrow::states::TokenAccount;
use nft_lend_borrow::states::Vault;
use nft_lend_borrow::ErrorCodes;

const PROGRAM: u8 = 7;
const COLLECTION: u8 = 1;
const OWNER: u8 = 10;
const LENDER: u8 = 11;
const BORROWER: u8 = 12;
const MINT: u8 = 13;

fn k(b: u8) -> Address {
    Address::new([b; 32])
}

fn pda(seeds: Seeds) -> Authority {
    derive_authority(seeds, &k(PROGRAM)).unwrap()
}

fn pool_key() -> Address {
    pda(Seeds::Pool { collection_id: k(COLLECTION) }).address
}

fn offer_key() -> Address {
    pda(Seeds::Offer { pool: pool_key(), lender: k(LENDER), counter: 0 }).address
}

fn authority() -> Authority {
    pda(Seeds::VaultAuthority { pool: pool_key(), lender: k(LENDER), counter: 1 })
}

fn pool(total_offers: u64) -> Account<CollectionPool> {
    Account {
        key: pool_key(),
        lamports: 0,
        data: CollectionPool {
            collection_id: k(COLLECTION),
            owner: k(OWNER),
            duration: 86_400,
            total_offers,
            bump: 255,
        },
    }
}

fn offer(taken: bool) -> Account<Offer> {
    Account {
        key: offer_key(),
        lamports: 0,
        data: Offer {
            collection: pool_key(),
            offer_amount: 1_000,
            repay_amount: 1_100,
            lender: k(LENDER),
            borrower: if taken { k(BORROWER) } else { Address::unset() },
            is_loan_taken: taken,
            bump: 254,
        },
    }
}

fn vault() -> Account<Vault> {
    Account {
        key: pda(Seeds::Vault { offer: offer_key() }).address,
        lamports: 1_000,
        data: Vault { offer: offer_key(), authority: authority().address, bump: 253 },
    }
}

fn loan() -> Account<ActiveLoan> {
    Account {
        key: pda(Seeds::Loan { offer: offer_key() }).address,
        lamports: 0,
        data: ActiveLoan {
            collection: pool_key(),
            offer_account: offer_key(),
            lender: k(LENDER),
            borrower: k(BORROWER),
            mint: k(MINT),
            loan_ts: 1_000,
            repay_ts: 87_400,
            is_repaid: false,
            is_liquidated: false,
            bump: 252,
        },
    }
}

fn tokens(at: u8, owner: Address, amount: u64, lamports: u64) -> Account<TokenAccount> {
    Account { key: k(at), lamports, data: TokenAccount { mint: k(MINT), owner, amount } }
}

fn offering() -> Context<OfferLoan> {
    Context {
        program_id: k(PROGRAM),
        accounts: OfferLoan {
            offer_loan: Account { key: offer_key(), lamports: 0, data: None },
            offer_token_account: Account { key: vault().key, lamports: 0, data: None },
            lender_token_account: tokens(21, k(LENDER), 0, 0),
            collection_pool: pool(0),
            lender: Signer { key: k(LENDER), lamports: 5_000 },
        },
    }
}

fn withdrawing() -> Context<WithdrawOffer> {
    let o = offer(false);
    let v = vault();
    Context {
        program_id: k(PROGRAM),
        accounts: WithdrawOffer {
            offer_loan: Account { key: o.key, lamports: 0, data: Some(o.data) },
            vault_account: Account { key: v.key, lamports: 1_000, data: Some(v.data) },
            collection_pool: pool(1),
            lender: Signer { key: k(LENDER), lamports: 4_000 },
        },
    }
}

fn borrowing() -> Context<Borrow> {
    Context {
        program_id: k(PROGRAM),
        accounts: Borrow {
            active_loan: Account { key: loan().key, lamports: 0, data: None },
            offer_loan: offer(false),
            vault_token_account: vault(),
            vault_asset_account: Account {
                key: pda(Seeds::Collateral { offer: offer_key() }).address,
                lamports: 0,
                data: None,
            },
            collection_pool: pool(1),
            borrower: Signer { key: k(BORROWER), lamports: 0 },
            borrower_asset_account: tokens(24, k(BORROWER), 1, 0),
            asset_mint: k(MINT),
            clock: Clock { unix_timestamp: 1_000 },
        },
    }
}

fn repaying() -> Context<Repay> {
    Context {
        program_id: k(PROGRAM),
        accounts: Repay {
            active_loan: loan(),
            offer: offer(true),
            collection_pool: pool(1),
            lender_token_account: tokens(21, k(LENDER), 0, 0),
            borrower_token_account: tokens(22, k(BORROWER), 0, 3_000),
            asset_mint: k(MINT),
            borrower_asset_account: tokens(24, k(BORROWER), 0, 0),
            vault_asset_account: tokens(25, authority().address, 1, 0),
            asset_account_authority: authority().address,
            borrower: Signer { key: k(BORROWER), lamports: 0 },
        },
    }
}

fn liquidating() -> Context<Liquidate> {
    Context {
        program_id: k(PROGRAM),
        accounts: Liquidate {
            active_loan: loan(),
            offer: offer(true),
            collection_pool: pool(1),
            lender_token_account: tokens(21, k(LENDER), 0, 0),
            asset_mint: k(MINT),
            vault_asset_account: tokens(25, authority().address, 1, 0),
            lender_asset_account: tokens(23, k(LENDER), 0, 0),
            lender: Signer { key: k(LENDER), lamports: 0 },
            asset_account_authority: authority().address,
            clock: Clock { unix_timestamp: 87_401 },
        },
    }
}

fn offer_fails(ctx: Context<OfferLoan>, amount: u64, collection: u8, e: ErrorCodes) {
    let mut after = ctx;
    assert_eq!(nft_lend_borrow::offer_loan(&mut after, amount, k(collection)), Err(e));
    assert_eq!(after, ctx);
}

fn withdraw_fails(ctx: Context<WithdrawOffer>, floor: u64, collection: u8, e: ErrorCodes) {
    let mut after = ctx;
    assert_eq!(nft_lend_borrow::withdraw_offer(&mut after, floor, k(collection)), Err(e));
    assert_eq!(after, ctx);
}

fn borrow_fails(ctx: Context<Borrow>, floor: u64, collection: u8, e: ErrorCodes) {
    let mut after = ctx;
    assert_eq!(nft_lend_borrow::borrow(&mut after, floor, k(collection)), Err(e));
    assert_eq!(after, ctx);
}

fn repay_fails(ctx: Context<Repay>, collection: u8, e: ErrorCodes) {
    let mut after = ctx;
    assert_eq!(nft_lend_borrow::repay(&mut after, k(collection)), Err(e));
    assert_eq!(after, ctx);
}

fn liquidate_fails(ctx: Context<Liquidate>, collection: u8, e: ErrorCodes) {
    let mut after = ctx;
    assert_eq!(nft_lend_borrow::liquidate(&mut after, k(collection)), Err(e));
    assert_eq!(after, ctx);
}

#[test]
fn well_formed_contexts_succeed() {
    assert!(nft_lend_borrow::offer_loan(&mut offering(), 1_000, k(COLLECTION)).is_ok());
    assert!(nft_lend_borrow::withdraw_offer(&mut withdrawing(), 0, k(COLLECTION)).is_ok());
    assert!(nft_lend_borrow::borrow(&mut borrowing(), 0, k(COLLECTION)).is_ok());
    assert!(nft_lend_borrow::repay(&mut repaying(), k(COLLECTION)).is_ok());
    assert!(nft_lend_borrow::liquidate(&mut liquidating(), k(COLLECTION)).is_ok());
}

#[test]
fn handler_and_entry_point_agree() {
    let mut a = borrowing();
    let mut b = borrowing();
    assert_eq!(
        borrow::handler(&mut a, 10, k(COLLECTION)),
        nft_lend_borrow::borrow(&mut b, 10, k(COLLECTION))
    );
    assert_eq!(a, b);
    let mut a = repaying();
    let mut b = repaying();
    assert_eq!(repay::handler(&mut a, k(COLLECTION)), nft_lend_borrow::repay(&mut b, k(COLLECTION)));
    assert_eq!(a, b);
    let mut a = liquidating();
    let mut b = liquidating();
    assert_eq!(
        liquidate::handler(&mut a, k(COLLECTION)),
        nft_lend_borrow::liquidate(&mut b, k(COLLECTION))
    );
    assert_eq!(a, b);
    let mut a = offering();
    let mut b = offering();
    assert_eq!(
        offer_loan::handler(&mut a, 10, k(COLLECTION)),
        nft_lend_borrow::offer_loan(&mut b, 10, k(COLLECTION))
    );
    assert_eq!(a, b);
    let mut a = withdrawing();
    let mut b = withdrawing();
    assert_eq!(
        withdraw_offer::handler(&mut a, 10, k(COLLECTION)),
        nft_lend_borrow::withdraw_offer(&mut b, 10, k(COLLECTION))
    );
    assert_eq!(a, b);
}

#[test]
fn create_pool_without_an_address_fails() {
    let mut ctx = Context {
        program_id: k(PROGRAM),
        accounts: CreatePool {
            collection_pool: Account { key: pool_key(), lamports: 0, data: None },
            authority: Signer { key: k(OWNER), lamports: 0 },
        },
    };
    let before = ctx;
    assert_eq!(
        create_pool::execute(&mut ctx, k(COLLECTION), 86_400, None),
        Err(ErrorCodes::AddressNotDerivable)
    );
    assert_eq!(ctx, before);
}

#[test]
fn create_pool_for_another_collection_is_at_another_address() {
    let mut ctx = Context {
        program_id: k(PROGRAM),
        accounts: CreatePool {
            collection_pool: Account { key: pool_key(), lamports: 0, data: None },
            authority: Signer { key: k(OWNER), lamports: 0 },
        },
    };
    assert_eq!(
        nft_lend_borrow::create_pool(&mut ctx, k(2), 86_400),
        Err(ErrorCodes::ValidationFailure)
    );
    assert_eq!(nft_lend_borrow::create_pool(&mut ctx, k(COLLECTION), -5), Ok(()));
    assert_eq!(ctx.accounts.collection_pool.data.unwrap().duration, -5);
}

#[test]
fn offer_the_lender_cannot_fund_fails() {
    let mut ctx = offering();
    ctx.accounts.lender.lamports = 999;
    offer_fails(ctx, 1_000, COLLECTION, ErrorCodes::ArithmeticFailure);
    ctx.accounts.lender.lamports = 1_000;
    assert!(nft_lend_borrow::offer_loan(&mut ctx, 1_000, k(COLLECTION)).is_ok());
    assert_eq!(ctx.accounts.lender.lamports, 0);
}

#[test]
fn offer_whose_markup_overflows_fails() {
    let mut ctx = offering();
    ctx.accounts.lender.lamports = u64::MAX;
    offer_fails(ctx, u64::MAX, COLLECTION, ErrorCodes::ArithmeticFailure);
    offer_fails(ctx, u64::MAX / 10 + 1, COLLECTION, ErrorCodes::ArithmeticFailure);
    let r = nft_lend_borrow::offer_loan(&mut ctx, u64::MAX / 10, k(COLLECTION));
    assert!(r.is_ok());
    let o = ctx.accounts.offer_loan.data.unwrap();
    assert_eq!(o.offer_amount, 1_844_674_407_370_955_161);
    assert_eq!(o.repay_amount, 2_029_141_848_108_050_677);
}

#[test]
fn offer_on_a_full_pool_fails() {
    let mut ctx = offering();
    ctx.accounts.collection_pool.data.total_offers = u64::MAX;
    offer_fails(ctx, 1_000, COLLECTION, ErrorCodes::ArithmeticFailure);
}

#[test]
fn offer_into_an_overfull_vault_fails() {
    let mut ctx = offering();
    ctx.accounts.offer_token_account.lamports = u64::MAX - 999;
    offer_fails(ctx, 1_000, COLLECTION, ErrorCodes::ArithmeticFailure);
}

#[test]
fn offer_for_another_collection_fails() {
    offer_fails(offering(), 1_000, 2, ErrorCodes::ValidationFailure);
}

#[test]
fn offer_at_another_address_fails() {
    let mut ctx = offering();
    ctx.accounts.offer_loan.key = k(90);
    offer_fails(ctx, 1_000, COLLECTION, ErrorCodes::ValidationFailure);
    let mut ctx = offering();
    ctx.accounts.offer_token_account.key = k(90);
    offer_fails(ctx, 1_000, COLLECTION, ErrorCodes::ValidationFailure);
}

#[test]
fn offer_with_a_stale_counter_is_at_another_address() {
    let mut ctx = offering();
    ctx.accounts.collection_pool.data.total_offers = 1;
    offer_fails(ctx, 1_000, COLLECTION, ErrorCodes::ValidationFailure);
}

#[test]
fn offer_from_a_foreign_token_account_fails() {
    let mut ctx = offering();
    ctx.accounts.lender_token_account.data.owner = k(BORROWER);
    offer_fails(ctx, 1_000, COLLECTION, ErrorCodes::ValidationFailure);
}

#[test]
fn offer_that_is_already_there_fails() {
    let mut ctx = offering();
    ctx.accounts.offer_loan.data = Some(offer(false).data);
    offer_fails(ctx, 1_000, COLLECTION, ErrorCodes::AccountAlreadyExists);
    let mut ctx = offering();
    ctx.accounts.offer_token_account.data = Some(vault().data);
    offer_fails(ctx, 1_000, COLLECTION, ErrorCodes::AccountAlreadyExists);
}

#[test]
fn offer_without_an_address_fails() {
    let ctx = offering();
    let a = Some(authority());
    for (o, v, w) in [(None, a, a), (a, None, a), (a, a, None)] {
        let mut after = ctx;
        assert_eq!(
            offer_loan::execute(&mut after, 1_000, k(COLLECTION), o, v, w),
            Err(ErrorCodes::AddressNotDerivable)
        );
        assert_eq!(after, ctx);
    }
}

#[test]
fn offer_fails_on_amounts_before_addresses_before_accounts() {
    let mut ctx = offering();
    ctx.accounts.lender.lamports = 0;
    ctx.accounts.offer_loan.data = Some(offer(false).data);
    let mut after = ctx;
    assert_eq!(
        offer_loan::execute(&mut after, 1_000, k(2), None, None, None),
        Err(ErrorCodes::ArithmeticFailure)
    );
    ctx.accounts.lender.lamports = 1_000;
    let mut after = ctx;
    assert_eq!(
        offer_loan::execute(&mut after, 1_000, k(2), None, None, None),
        Err(ErrorCodes::AddressNotDerivable)
    );
    offer_fails(ctx, 1_000, 2, ErrorCodes::ValidationFailure);
    offer_fails(ctx, 1_000, COLLECTION, ErrorCodes::AccountAlreadyExists);
}

#[test]
fn withdraw_from_an_empty_pool_fails() {
    let mut ctx = withdrawing();
    ctx.accounts.collection_pool.data.total_offers = 0;
    withdraw_fails(ctx, 0, COLLECTION, ErrorCodes::ArithmeticFailure);
}

#[test]
fn withdraw_that_overfills_the_lender_fails() {
    let mut ctx = withdrawing();
    ctx.accounts.lender.lamports = u64::MAX - 999;
    withdraw_fails(ctx, 0, COLLECTION, ErrorCodes::ArithmeticFailure);
    ctx.accounts.lender.lamports = u64::MAX - 1_000;
    assert!(nft_lend_borrow::withdraw_offer(&mut ctx, 0, k(COLLECTION)).is_ok());
    assert_eq!(ctx.accounts.lender.lamports, u64::MAX);
}

#[test]
fn withdraw_by_another_lender_fails() {
    let mut ctx = withdrawing();
    ctx.accounts.lender.key = k(BORROWER);
    let r = nft_lend_borrow::withdraw_offer(&mut ctx, 0, k(COLLECTION));
    assert_eq!(r, Err(ErrorCodes::ValidationFailure));
    assert_eq!(ctx.accounts.vault_account.lamports, 1_000);
}

#[test]
fn withdraw_from_a_vault_of_another_offer_fails() {
    let mut ctx = withdrawing();
    ctx.accounts.vault_account.data = Some(Vault { offer: k(90), ..vault().data });
    withdraw_fails(ctx, 0, COLLECTION, ErrorCodes::ValidationFailure);
}

#[test]
fn withdraw_from_a_vault_under_another_authority_fails() {
    let mut ctx = withdrawing();
    ctx.accounts.vault_account.data = Some(Vault { authority: k(LENDER), ..vault().data });
    withdraw_fails(ctx, 0, COLLECTION, ErrorCodes::ValidationFailure);
}

#[test]
fn withdraw_of_an_offer_of_another_pool_fails() {
    let mut ctx = withdrawing();
    ctx.accounts.offer_loan.data = Some(Offer { collection: k(90), ..offer(false).data });
    withdraw_fails(ctx, 0, COLLECTION, ErrorCodes::ValidationFailure);
    withdraw_fails(withdrawing(), 0, 2, ErrorCodes::ValidationFailure);
}

#[test]
fn withdraw_of_what_is_not_there_fails() {
    let mut ctx = withdrawing();
    ctx.accounts.offer_loan.data = None;
    withdraw_fails(ctx, 0, COLLECTION, ErrorCodes::ValidationFailure);
    let mut ctx = withdrawing();
    ctx.accounts.vault_account.data = None;
    withdraw_fails(ctx, 0, COLLECTION, ErrorCodes::ValidationFailure);
}

#[test]
fn withdraw_without_an_authority_fails() {
    let ctx = withdrawing();
    let mut after = ctx;
    assert_eq!(
        withdraw_offer::execute(&mut after, 0, k(COLLECTION), None),
        Err(ErrorCodes::AddressNotDerivable)
    );
    assert_eq!(after, ctx);
}

#[test]
fn withdraw_of_a_taken_offer_fails_first() {
    let mut ctx = withdrawing();
    ctx.accounts.offer_loan.data = Some(offer(true).data);
    ctx.accounts.collection_pool.data.total_offers = 0;
    let mut after = ctx;
    assert_eq!(
        withdraw_offer::execute(&mut after, 5_000, k(2), None),
        Err(ErrorCodes::LoanAlreadyTaken)
    );
    assert_eq!(after, ctx);
}

#[test]
fn borrow_past_the_end_of_time_fails() {
    let mut ctx = borrowing();
    ctx.accounts.clock.unix_timestamp = i64::MAX - 86_399;
    borrow_fails(ctx, 0, COLLECTION, ErrorCodes::ArithmeticFailure);
    ctx.accounts.clock.unix_timestamp = i64::MAX - 86_400;
    assert!(nft_lend_borrow::borrow(&mut ctx, 0, k(COLLECTION)).is_ok());
    assert_eq!(ctx.accounts.active_loan.data.unwrap().repay_ts, i64::MAX);
}

#[test]
fn borrow_with_a_negative_duration_is_due_in_the_past() {
    let mut ctx = borrowing();
    ctx.accounts.collection_pool.data.duration = -400;
    assert!(nft_lend_borrow::borrow(&mut ctx, 0, k(COLLECTION)).is_ok());
    assert_eq!(ctx.accounts.active_loan.data.unwrap().repay_ts, 600);
    let mut ctx = borrowing();
    ctx.accounts.collection_pool.data.duration = i64::MIN;
    ctx.accounts.clock.unix_timestamp = -1;
    borrow_fails(ctx, 0, COLLECTION, ErrorCodes::ArithmeticFailure);
}

#[test]
fn borrow_without_collateral_fails() {
    let mut ctx = borrowing();
    ctx.accounts.borrower_asset_account.data.amount = 0;
    borrow_fails(ctx, 0, COLLECTION, ErrorCodes::ArithmeticFailure);
}

#[test]
fn borrow_that_overfills_the_borrower_fails() {
    let mut ctx = borrowing();
    ctx.accounts.borrower.lamports = u64::MAX - 999;
    borrow_fails(ctx, 0, COLLECTION, ErrorCodes::ArithmeticFailure);
    assert!(nft_lend_borrow::borrow(&mut ctx, 1, k(COLLECTION)).is_ok());
    assert_eq!(ctx.accounts.borrower.lamports, u64::MAX);
    assert_eq!(ctx.accounts.vault_token_account.lamports, 1);
}

#[test]
fn borrow_with_collateral_of_another_mint_fails() {
    let mut ctx = borrowing();
    ctx.accounts.borrower_asset_account.data.mint = k(90);
    borrow_fails(ctx, 0, COLLECTION, ErrorCodes::ValidationFailure);
}

#[test]
fn borrow_with_collateral_of_another_owner_fails() {
    let mut ctx = borrowing();
    ctx.accounts.borrower_asset_account.data.owner = k(LENDER);
    borrow_fails(ctx, 0, COLLECTION, ErrorCodes::ValidationFailure);
}

#[test]
fn borrow_with_accounts_that_do_not_belong_together_fails() {
    borrow_fails(borrowing(), 0, 2, ErrorCodes::ValidationFailure);
    let mut ctx = borrowing();
    ctx.accounts.offer_loan.data.collection = k(90);
    borrow_fails(ctx, 0, COLLECTION, ErrorCodes::ValidationFailure);
    let mut ctx = borrowing();
    ctx.accounts.vault_token_account.data.offer = k(90);
    borrow_fails(ctx, 0, COLLECTION, ErrorCodes::ValidationFailure);
    let mut ctx = borrowing();
    ctx.accounts.active_loan.key = k(90);
    borrow_fails(ctx, 0, COLLECTION, ErrorCodes::ValidationFailure);
    let mut ctx = borrowing();
    ctx.accounts.vault_asset_account.key = k(90);
    borrow_fails(ctx, 0, COLLECTION, ErrorCodes::ValidationFailure);
}

#[test]
fn borrow_from_a_vault_under_another_authority_fails() {
    let mut ctx = borrowing();
    ctx.accounts.vault_token_account.data.authority = k(LENDER);
    borrow_fails(ctx, 0, COLLECTION, ErrorCodes::ValidationFailure);
    let mut ctx = borrowing();
    ctx.accounts.collection_pool.data.total_offers = 2;
    borrow_fails(ctx, 0, COLLECTION, ErrorCodes::ValidationFailure);
}

#[test]
fn borrow_into_a_loan_that_is_already_there_fails() {
    let mut ctx = borrowing();
    ctx.accounts.active_loan.data = Some(loan().data);
    borrow_fails(ctx, 0, COLLECTION, ErrorCodes::AccountAlreadyExists);
    let mut ctx = borrowing();
    ctx.accounts.vault_asset_account.data =
        Some(TokenAccount { mint: k(MINT), owner: k(BORROWER), amount: 0 });
    borrow_fails(ctx, 0, COLLECTION, ErrorCodes::AccountAlreadyExists);
}

#[test]
fn borrow_without_an_address_fails() {
    let ctx = borrowing();
    let a = Some(authority());
    for (l, c, w) in [(None, a, a), (a, None, a), (a, a, None)] {
        let mut after = ctx;
        assert_eq!(
            borrow::execute(&mut after, 0, k(COLLECTION), l, c, w),
            Err(ErrorCodes::AddressNotDerivable)
        );
        assert_eq!(after, ctx);
    }
}

#[test]
fn borrow_with_given_authorities_uses_them() {
    let mut ctx = borrowing();
    ctx.accounts.active_loan.key = k(80);
    ctx.accounts.vault_asset_account.key = k(81);
    ctx.accounts.vault_token_account.data.authority = k(82);
    let given = |address: u8, bump: u8| {
        Some(Authority { seeds: Seeds::Loan { offer: k(0) }, bump, address: k(address) })
    };
    let r = borrow::execute(&mut ctx, 0, k(COLLECTION), given(80, 1), given(81, 2), given(82, 3));
    let receipt = r.unwrap();
    assert_eq!(ctx.accounts.active_loan.data.unwrap().bump, 1);
    assert_eq!(ctx.accounts.vault_asset_account.data.unwrap().owner, k(82));
    assert_eq!(receipt.set_authority.new_authority, k(82));
    assert_eq!(receipt.transfer_to_borrower.context.signer, given(82, 3));
}

#[test]
fn repay_the_borrower_cannot_afford_fails() {
    let mut ctx = repaying();
    ctx.accounts.borrower_token_account.lamports = 1_099;
    repay_fails(ctx, COLLECTION, ErrorCodes::ArithmeticFailure);
    ctx.accounts.borrower_token_account.lamports = 1_100;
    assert!(nft_lend_borrow::repay(&mut ctx, k(COLLECTION)).is_ok());
    assert_eq!(ctx.accounts.borrower_token_account.lamports, 0);
    assert_eq!(ctx.accounts.lender_token_account.lamports, 1_100);
}

#[test]
fn repay_that_overfills_an_account_fails() {
    let mut ctx = repaying();
    ctx.accounts.lender_token_account.lamports = u64::MAX - 1_099;
    repay_fails(ctx, COLLECTION, ErrorCodes::ArithmeticFailure);
    let mut ctx = repaying();
    ctx.accounts.borrower_asset_account.data.amount = u64::MAX;
    repay_fails(ctx, COLLECTION, ErrorCodes::ArithmeticFailure);
}

#[test]
fn repay_from_an_empty_vault_fails() {
    let mut ctx = repaying();
    ctx.accounts.vault_asset_account.data.amount = 0;
    repay_fails(ctx, COLLECTION, ErrorCodes::ArithmeticFailure);
}

#[test]
fn repay_pays_what_the_offer_says() {
    let mut ctx = repaying();
    ctx.accounts.offer.data.repay_amount = 7;
    let receipt = nft_lend_borrow::repay(&mut ctx, k(COLLECTION)).unwrap();
    assert_eq!(receipt.transfer_to_lender.lamports, 7);
    assert_eq!(ctx.accounts.lender_token_account.lamports, 7);
    assert_eq!(ctx.accounts.borrower_token_account.lamports, 2_993);
}

#[test]
fn repay_by_another_borrower_fails() {
    let mut ctx = repaying();
    ctx.accounts.borrower.key = k(LENDER);
    repay_fails(ctx, COLLECTION, ErrorCodes::ValidationFailure);
}

#[test]
fn repay_with_accounts_that_do_not_belong_together_fails() {
    repay_fails(repaying(), 2, ErrorCodes::ValidationFailure);
    let mut ctx = repaying();
    ctx.accounts.offer.data.collection = k(90);
    repay_fails(ctx, COLLECTION, ErrorCodes::ValidationFailure);
    let mut ctx = repaying();
    ctx.accounts.active_loan.data.offer_account = k(90);
    repay_fails(ctx, COLLECTION, ErrorCodes::ValidationFailure);
    let mut ctx = repaying();
    ctx.accounts.asset_mint = k(90);
    repay_fails(ctx, COLLECTION, ErrorCodes::ValidationFailure);
    let mut ctx = repaying();
    ctx.accounts.lender_token_account.data.owner = k(BORROWER);
    repay_fails(ctx, COLLECTION, ErrorCodes::ValidationFailure);
    let mut ctx = repaying();
    ctx.accounts.borrower_token_account.data.owner = k(LENDER);
    repay_fails(ctx, COLLECTION, ErrorCodes::ValidationFailure);
    let mut ctx = repaying();
    ctx.accounts.borrower_asset_account.data.owner = k(LENDER);
    repay_fails(ctx, COLLECTION, ErrorCodes::ValidationFailure);
    let mut ctx = repaying();
    ctx.accounts.borrower_asset_account.data.mint = k(90);
    repay_fails(ctx, COLLECTION, ErrorCodes::ValidationFailure);
    let mut ctx = repaying();
    ctx.accounts.vault_asset_account.data.mint = k(90);
    repay_fails(ctx, COLLECTION, ErrorCodes::ValidationFailure);
}

#[test]
fn repay_from_a_vault_under_another_authority_fails() {
    let mut ctx = repaying();
    ctx.accounts.vault_asset_account.data.owner = k(BORROWER);
    repay_fails(ctx, COLLECTION, ErrorCodes::ValidationFailure);
    ctx.accounts.asset_account_authority = k(BORROWER);
    repay_fails(ctx, COLLECTION, ErrorCodes::ValidationFailure);
    let mut ctx = repaying();
    ctx.accounts.collection_pool.data.total_offers = 0;
    repay_fails(ctx, COLLECTION, ErrorCodes::ValidationFailure);
}

#[test]
fn repay_without_an_authority_fails() {
    let ctx = repaying();
    let mut after = ctx;
    assert_eq!(
        repay::execute(&mut after, k(COLLECTION), None),
        Err(ErrorCodes::AddressNotDerivable)
    );
    assert_eq!(after, ctx);
}

#[test]
fn repay_of_a_repaid_loan_fails_first() {
    let mut ctx = repaying();
    ctx.accounts.active_loan.data.is_repaid = true;
    ctx.accounts.vault_asset_account.data.amount = 0;
    let mut after = ctx;
    assert_eq!(repay::execute(&mut after, k(2), None), Err(ErrorCodes::LoanAlreadyRepaid));
    assert_eq!(after, ctx);
}

#[test]
fn liquidate_of_a_repaid_loan_fails() {
    let mut ctx = liquidating();
    ctx.accounts.active_loan.data.is_repaid = true;
    liquidate_fails(ctx, COLLECTION, ErrorCodes::LoanAlreadyRepaid);
    ctx.accounts.clock.unix_timestamp = 87_400;
    liquidate_fails(ctx, COLLECTION, ErrorCodes::CannotLiquidateYet);
}

#[test]
fn liquidate_from_an_empty_vault_fails() {
    let mut ctx = liquidating();
    ctx.accounts.vault_asset_account.data.amount = 0;
    liquidate_fails(ctx, COLLECTION, ErrorCodes::ArithmeticFailure);
    let mut ctx = liquidating();
    ctx.accounts.lender_asset_account.data.amount = u64::MAX;
    liquidate_fails(ctx, COLLECTION, ErrorCodes::ArithmeticFailure);
}

#[test]
fn liquidate_by_another_lender_fails() {
    let mut ctx = liquidating();
    ctx.accounts.lender.key = k(BORROWER);
    ctx.accounts.lender_asset_account.data.owner = k(BORROWER);
    liquidate_fails(ctx, COLLECTION, ErrorCodes::ValidationFailure);
}

#[test]
fn liquidate_with_accounts_that_do_not_belong_together_fails() {
    liquidate_fails(liquidating(), 2, ErrorCodes::ValidationFailure);
    let mut ctx = liquidating();
    ctx.accounts.offer.data.collection = k(90);
    liquidate_fails(ctx, COLLECTION, ErrorCodes::ValidationFailure);
    let mut ctx = liquidating();
    ctx.accounts.active_loan.data.offer_account = k(90);
    liquidate_fails(ctx, COLLECTION, ErrorCodes::ValidationFailure);
    let mut ctx = liquidating();
    ctx.accounts.active_loan.data.mint = k(90);
    liquidate_fails(ctx, COLLECTION, ErrorCodes::ValidationFailure);
    let mut ctx = liquidating();
    ctx.accounts.lender_token_account.data.owner = k(BORROWER);
    liquidate_fails(ctx, COLLECTION, ErrorCodes::ValidationFailure);
    let mut ctx = liquidating();
    ctx.accounts.lender_asset_account.data.owner = k(BORROWER);
    liquidate_fails(ctx, COLLECTION, ErrorCodes::ValidationFailure);
    let mut ctx = liquidating();
    ctx.accounts.lender_asset_account.data.mint = k(90);
    liquidate_fails(ctx, COLLECTION, ErrorCodes::ValidationFailure);
    let mut ctx = liquidating();
    ctx.accounts.vault_asset_account.data.mint = k(90);
    liquidate_fails(ctx, COLLECTION, ErrorCodes::ValidationFailure);
    let mut ctx = liquidating();
    ctx.accounts.vault_asset_account.data.owner = k(LENDER);
    liquidate_fails(ctx, COLLECTION, ErrorCodes::ValidationFailure);
}

#[test]
fn liquidate_without_an_authority_fails() {
    let ctx = liquidating();
    let mut after = ctx;
    assert_eq!(
        liquidate::execute(&mut after, k(COLLECTION), None),
        Err(ErrorCodes::AddressNotDerivable)
    );
    assert_eq!(after, ctx);
}

#[test]
fn liquidate_changes_nothing_but_loan_and_collateral() {
    let before = liquidating();
    let mut ctx = before;
    nft_lend_borrow::liquidate(&mut ctx, k(COLLECTION)).unwrap();
    let mut expected = before;
    expected.accounts.active_loan.data.is_liquidated = true;
    expected.accounts.vault_asset_account.data.amount = 0;
    expected.accounts.lender_asset_account.data.amount = 1;
    assert_eq!(ctx, expected);
}

#[test]
fn repay_changes_nothing_but_loan_collateral_and_payment() {
    let before = repaying();
    let mut ctx = before;
    nft_lend_borrow::repay(&mut ctx, k(COLLECTION)).unwrap();
    let mut expected = before;
    expected.accounts.active_loan.data.is_repaid = true;
    expected.accounts.vault_asset_account.data.amount = 0;
    expected.accounts.borrower_asset_account.data.amount = 1;
    expected.accounts.borrower_token_account.lamports = 1_900;
    expected.accounts.lender_token_account.lamports = 1_100;
    assert_eq!(ctx, expected);
}

#[test]
fn repay_of_a_liquidated_loan_fails() {
    let mut ctx = repaying();
    ctx.accounts.active_loan.data.is_liquidated = true;
    repay_fails(ctx, COLLECTION, ErrorCodes::LoanAlreadyLiquidated);
    ctx.accounts.vault_asset_account.data.amount = 0;
    repay_fails(ctx, COLLECTION, ErrorCodes::LoanAlreadyLiquidated);
}

#[test]
fn repay_of_a_liquidated_loan_fails_before_anything_else_is_tested() {
    let mut ctx = repaying();
    ctx.accounts.active_loan.data.is_liquidated = true;
    ctx.accounts.borrower_token_account.lamports = 0;
    ctx.accounts.borrower.key = k(LENDER);
    let mut after = ctx;
    assert_eq!(repay::execute(&mut after, k(2), None), Err(ErrorCodes::LoanAlreadyLiquidated));
    assert_eq!(after, ctx);
}

#[test]
fn repay_of_a_loan_with_both_marks_reports_the_repayment() {
    let mut ctx = repaying();
    ctx.accounts.active_loan.data.is_liquidated = true;
    ctx.accounts.active_loan.data.is_repaid = true;
    repay_fails(ctx, COLLECTION, ErrorCodes::LoanAlreadyRepaid);
}

#[test]
fn liquidate_of_a_liquidated_loan_fails() {
    let mut ctx = liquidating();
    ctx.accounts.active_loan.data.is_liquidated = true;
    liquidate_fails(ctx, COLLECTION, ErrorCodes::LoanAlreadyLiquidated);
    ctx.accounts.vault_asset_account.data.amount = 0;
    liquidate_fails(ctx, COLLECTION, ErrorCodes::LoanAlreadyLiquidated);
    ctx.accounts.active_loan.data.is_repaid = true;
    liquidate_fails(ctx, COLLECTION, ErrorCodes::LoanAlreadyRepaid);
    ctx.accounts.clock.unix_timestamp = 87_400;
    liquidate_fails(ctx, COLLECTION, ErrorCodes::CannotLiquidateYet);
}

#[test]
fn liquidate_of_a_liquidated_loan_fails_before_anything_else_is_tested() {
    let mut ctx = liquidating();
    ctx.accounts.active_loan.data.is_liquidated = true;
    ctx.accounts.lender.key = k(BORROWER);
    ctx.accounts.lender_asset_account.data.amount = u64::MAX;
    let mut after = ctx;
    assert_eq!(
        liquidate::execute(&mut after, k(2), None),
        Err(ErrorCodes::LoanAlreadyLiquidated)
    );
    assert_eq!(after, ctx);
}
