//! `borrow`: matches a borrower with an open offer. The collateral goes into
//! custody and the principal goes out to the borrower in the same step.

use vstd::prelude::*;
use crate::authority::derive_authority;
use crate::authority::derived;
use crate::authority::Address;
use crate::authority::Authority;
use crate::authority::Seeds;
use crate::cpi::AssetTransfer;
use crate::cpi::AuthorityChange;
use crate::cpi::AuthorityType;
use crate::cpi::CpiContext;
use crate::cpi::LamportTransfer;
use crate::cpi::SetAuthority;
use crate::cpi::SystemTransfer;
use crate::cpi::TokenTransfer;
use crate::errors::ErrorCodes;
use crate::instructions::context::ends_as;
use crate::instructions::context::Context;
use crate::states::account::Account;
use crate::states::account::Clock;
use crate::states::account::Signer;
use crate::states::account::TokenAccount;
use crate::states::active_loan::ActiveLoan;
use crate::states::collection_pool::CollectionPool;
use crate::states::offer::Offer;
use crate::states::vault::Vault;

verus! {

#[derive(Clone, Copy, Debug, PartialEq, Eq)]
pub struct Borrow {
    /// The loan's account, with no record in it yet.
    pub active_loan: Account<Option<ActiveLoan>>,
    pub offer_loan: Account<Offer>,
    /// The vault that holds the offer's principal.
    pub vault_token_account: Account<Vault>,
    /// The vault that will hold the collateral, with no record in it yet.
    pub vault_asset_account: Account<Option<TokenAccount>>,
    pub collection_pool: Account<CollectionPool>,
    pub borrower: Signer,
    /// Where the borrower holds the collateral.
    pub borrower_asset_account: Account<TokenAccount>,
    /// The mint of the collateral.
    pub asset_mint: Address,
    pub clock: Clock,
}

/// The calls that go with a `borrow`, in the order in which they are made.
#[derive(Clone, Copy, Debug, PartialEq, Eq)]
pub struct BorrowReceipt {
    /// One unit of the collateral, from the borrower into custody.
    pub transfer_to_vault: AssetTransfer,
    /// The principal, from the vault to the borrower.
    pub transfer_to_borrower: LamportTransfer,
    /// The ownership of the collateral's vault, handed to the derived
    /// authority.
    pub set_authority: AuthorityChange,
}

impl Borrow {
    /// The seed list of the loan's address.
    pub open spec fn loan_seeds(&self) -> Seeds {
        Seeds::Loan { offer: self.offer_loan.key }
    }

    /// The seed list of the address of the collateral's vault.
    pub open spec fn collateral_seeds(&self) -> Seeds {
        Seeds::Collateral { offer: self.offer_loan.key }
    }

    /// The seed list of the authority over the offer's vaults, with the
    /// pool's counter as it stands.
    pub open spec fn authority_seeds(&self) -> Seeds {
        Seeds::VaultAuthority {
            pool: self.collection_pool.key,
            lender: self.offer_loan.data.lender,
            counter: self.collection_pool.data.total_offers,
        }
    }

    pub open spec fn spec_transfer_to_borrower_context(&self) -> CpiContext<SystemTransfer> {
        CpiContext {
            accounts: SystemTransfer { from: self.vault_token_account.key, to: self.borrower.key },
            signer: None,
        }
    }

    /// From the principal's vault to the borrower.
    #[verifier::when_used_as_spec(spec_transfer_to_borrower_context)]
    pub fn transfer_to_borrower_context(&self) -> (r: CpiContext<SystemTransfer>)
        ensures
            r == self.spec_transfer_to_borrower_context(),
    {
        let cpi_accounts = SystemTransfer {
            from: self.vault_token_account.key,
            to: self.borrower.key,
        };
        CpiContext::new(cpi_accounts)
    }

    pub open spec fn spec_transfer_to_vault_context(&self) -> CpiContext<TokenTransfer> {
        CpiContext {
            accounts: TokenTransfer {
                from: self.borrower_asset_account.key,
                to: self.vault_asset_account.key,
                authority: self.borrower.key,
            },
            signer: None,
        }
    }

    /// From the borrower's holding to the collateral's vault, by the borrower.
    #[verifier::when_used_as_spec(spec_transfer_to_vault_context)]
    pub fn transfer_to_vault_context(&self) -> (r: CpiContext<TokenTransfer>)
        ensures
            r == self.spec_transfer_to_vault_context(),
    {
        let cpi_accounts = TokenTransfer {
            from: self.borrower_asset_account.key,
            to: self.vault_asset_account.key,
            authority: self.borrower.key,
        };
        CpiContext::new(cpi_accounts)
    }

    pub open spec fn spec_set_authority_context(&self) -> CpiContext<SetAuthority> {
        CpiContext {
            accounts: SetAuthority {
                account_or_mint: self.vault_asset_account.key,
                current_authority: self.borrower.key,
            },
            signer: None,
        }
    }

    /// Over the collateral's vault, which the borrower controls until then.
    #[verifier::when_used_as_spec(spec_set_authority_context)]
    pub fn set_authority_context(&self) -> (r: CpiContext<SetAuthority>)
        ensures
            r == self.spec_set_authority_context(),
    {
        let cpi_accounts = SetAuthority {
            account_or_mint: self.vault_asset_account.key,
            current_authority: self.borrower.key,
        };
        CpiContext::new(cpi_accounts)
    }
}

/// The principal that goes out: what the vault holds above the floor.
pub open spec fn principal(ctx: Context<Borrow>, minimum_balance_for_rent_exemption: u64) -> int {
    ctx.accounts.vault_token_account.lamports - minimum_balance_for_rent_exemption
}

/// The due time: now plus the pool's duration.
pub open spec fn due_time(ctx: Context<Borrow>) -> int {
    ctx.accounts.clock.unix_timestamp + ctx.accounts.collection_pool.data.duration
}

/// Every amount and time that `borrow` computes stays in its range.
pub open spec fn amounts_fit(ctx: Context<Borrow>, minimum_balance_for_rent_exemption: u64) -> bool {
    let a = ctx.accounts;
    &&& i64::MIN <= due_time(ctx) <= i64::MAX
    &&& principal(ctx, minimum_balance_for_rent_exemption) >= 0
    &&& a.borrower.lamports + principal(ctx, minimum_balance_for_rent_exemption) <= u64::MAX
    &&& a.borrower_asset_account.data.amount >= 1
}

/// Every account is the one meant: the pool is that of `collection_id`, the
/// offer is of that pool, the vault is of that offer, the two new accounts
/// are at the addresses derived for them, the borrower holds the collateral
/// of the given mint, and the derived authority is the one that controls the
/// vault.
pub open spec fn accounts_valid(
    ctx: Context<Borrow>,
    collection_id: Address,
    loan: Authority,
    collateral: Authority,
    authority: Authority,
) -> bool {
    let a = ctx.accounts;
    &&& a.collection_pool.data.collection_id == collection_id
    &&& a.offer_loan.data.collection == a.collection_pool.key
    &&& a.vault_token_account.data.offer == a.offer_loan.key
    &&& a.active_loan.key == loan.address
    &&& a.vault_asset_account.key == collateral.address
    &&& a.borrower_asset_account.data.owner == a.borrower.key
    &&& a.borrower_asset_account.data.mint == a.asset_mint
    &&& authority.address == a.vault_token_account.data.authority
}

/// Why `borrow` fails, if it does.
pub open spec fn failure(
    ctx: Context<Borrow>,
    minimum_balance_for_rent_exemption: u64,
    collection_id: Address,
    loan: Option<Authority>,
    collateral: Option<Authority>,
    authority: Option<Authority>,
) -> Option<ErrorCodes> {
    let a = ctx.accounts;
    if a.offer_loan.data.is_loan_taken {
        Some(ErrorCodes::LoanAlreadyTaken)
    } else if !amounts_fit(ctx, minimum_balance_for_rent_exemption) {
        Some(ErrorCodes::ArithmeticFailure)
    } else if loan is None || collateral is None || authority is None {
        Some(ErrorCodes::AddressNotDerivable)
    } else if !accounts_valid(ctx, collection_id, loan->0, collateral->0, authority->0) {
        Some(ErrorCodes::ValidationFailure)
    } else if a.active_loan.data is Some || a.vault_asset_account.data is Some {
        Some(ErrorCodes::AccountAlreadyExists)
    } else {
        None
    }
}

/// The loan that `borrow` records.
pub open spec fn new_loan(ctx: Context<Borrow>, loan: Authority) -> ActiveLoan {
    let a = ctx.accounts;
    ActiveLoan {
        collection: a.collection_pool.key,
        offer_account: a.offer_loan.key,
        lender: a.offer_loan.data.lender,
        borrower: a.borrower.key,
        mint: a.asset_mint,
        loan_ts: a.clock.unix_timestamp,
        repay_ts: due_time(ctx) as i64,
        is_repaid: false,
        is_liquidated: false,
        bump: loan.bump,
    }
}

/// The accounts after a `borrow` that succeeds. The loan is recorded and the
/// offer is matched. The collateral's vault holds one unit under the derived
/// authority, taken from the borrower. The principal's vault is down to the
/// floor, and the borrower has the rest.
pub open spec fn post(
    ctx: Context<Borrow>,
    minimum_balance_for_rent_exemption: u64,
    loan: Authority,
    authority: Authority,
) -> Context<Borrow> {
    let a = ctx.accounts;
    Context {
        accounts: Borrow {
            active_loan: Account { data: Some(new_loan(ctx, loan)), ..a.active_loan },
            offer_loan: Account {
                data: Offer { borrower: a.borrower.key, is_loan_taken: true, ..a.offer_loan.data },
                ..a.offer_loan
            },
            vault_token_account: Account {
                lamports: minimum_balance_for_rent_exemption,
                ..a.vault_token_account
            },
            vault_asset_account: Account {
                data: Some(TokenAccount { mint: a.asset_mint, owner: authority.address, amount: 1 }),
                ..a.vault_asset_account
            },
            borrower: Signer {
                lamports: (a.borrower.lamports + principal(
                    ctx,
                    minimum_balance_for_rent_exemption,
                )) as u64,
                ..a.borrower
            },
            borrower_asset_account: Account {
                data: TokenAccount {
                    amount: (a.borrower_asset_account.data.amount - 1) as u64,
                    ..a.borrower_asset_account.data
                },
                ..a.borrower_asset_account
            },
            ..a
        },
        ..ctx
    }
}

/// The calls that go with a `borrow` that succeeds. Only the principal's way
/// out of the vault is signed by the derived authority.
pub open spec fn receipt(
    ctx: Context<Borrow>,
    minimum_balance_for_rent_exemption: u64,
    authority: Authority,
) -> BorrowReceipt {
    let a = ctx.accounts;
    BorrowReceipt {
        transfer_to_vault: AssetTransfer { context: a.transfer_to_vault_context(), amount: 1 },
        transfer_to_borrower: LamportTransfer {
            context: CpiContext {
                signer: Some(authority),
                ..a.transfer_to_borrower_context()
            },
            lamports: principal(ctx, minimum_balance_for_rent_exemption) as u64,
        },
        set_authority: AuthorityChange {
            context: a.set_authority_context(),
            authority_type: AuthorityType::AccountOwner,
            new_authority: authority.address,
        },
    }
}

/// How `borrow` ends, given the three authorities derived for it.
pub open spec fn outcome(
    ctx: Context<Borrow>,
    minimum_balance_for_rent_exemption: u64,
    collection_id: Address,
    loan: Option<Authority>,
    collateral: Option<Authority>,
    authority: Option<Authority>,
) -> Result<(Context<Borrow>, BorrowReceipt), ErrorCodes> {
    match failure(
        ctx,
        minimum_balance_for_rent_exemption,
        collection_id,
        loan,
        collateral,
        authority,
    ) {
        Some(e) => Err(e),
        None => Ok(
            (
                post(ctx, minimum_balance_for_rent_exemption, loan->0, authority->0),
                receipt(ctx, minimum_balance_for_rent_exemption, authority->0),
            ),
        ),
    }
}

/// How `borrow` ends.
pub open spec fn handled(
    ctx: Context<Borrow>,
    minimum_balance_for_rent_exemption: u64,
    collection_id: Address,
) -> Result<(Context<Borrow>, BorrowReceipt), ErrorCodes> {
    outcome(
        ctx,
        minimum_balance_for_rent_exemption,
        collection_id,
        derived(ctx.accounts.loan_seeds(), ctx.program_id),
        derived(ctx.accounts.collateral_seeds(), ctx.program_id),
        derived(ctx.accounts.authority_seeds(), ctx.program_id),
    )
}

fn check_accounts(
    ctx: &Context<Borrow>,
    collection_id: &Address,
    loan: &Authority,
    collateral: &Authority,
    authority: &Authority,
) -> (r: bool)
    ensures
        r == accounts_valid(*ctx, *collection_id, *loan, *collateral, *authority),
{
    let a = &ctx.accounts;
    a.collection_pool.data.collection_id.same(collection_id)
        && a.offer_loan.data.collection.same(&a.collection_pool.key)
        && a.vault_token_account.data.offer.same(&a.offer_loan.key)
        && a.active_loan.key.same(&loan.address)
        && a.vault_asset_account.key.same(&collateral.address)
        && a.borrower_asset_account.data.owner.same(&a.borrower.key)
        && a.borrower_asset_account.data.mint.same(&a.asset_mint)
        && authority.controls(&a.vault_token_account.data.authority)
}

/// Matches the borrower with the offer, given the authorities derived for
/// the loan's address, for the address of the collateral's vault, and over
/// the offer's vaults.
pub fn execute(
    ctx: &mut Context<Borrow>,
    minimum_balance_for_rent_exemption: u64,
    collection_id: Address,
    loan: Option<Authority>,
    collateral: Option<Authority>,
    authority: Option<Authority>,
) -> (r: Result<BorrowReceipt, ErrorCodes>)
    ensures
        ends_as(
            *old(ctx),
            *final(ctx),
            r,
            outcome(
                *old(ctx),
                minimum_balance_for_rent_exemption,
                collection_id,
                loan,
                collateral,
                authority,
            ),
        ),
        old(ctx).accounts.offer_loan.data.is_loan_taken <==> r == Err::<BorrowReceipt, ErrorCodes>(
            ErrorCodes::LoanAlreadyTaken,
        ),
        r is Ok ==> final(ctx).accounts.vault_token_account.lamports
            >= minimum_balance_for_rent_exemption,
{
    let a: Borrow = ctx.accounts;
    if a.offer_loan.data.is_loan_taken {
        return Err(ErrorCodes::LoanAlreadyTaken);
    }
    let repay_ts: i64 = match a.clock.unix_timestamp.checked_add(a.collection_pool.data.duration) {
        Some(t) => t,
        None => {
            return Err(ErrorCodes::ArithmeticFailure);
        },
    };
    let transfer_amount: u64 = match a.vault_token_account.lamports.checked_sub(
        minimum_balance_for_rent_exemption,
    ) {
        Some(v) => v,
        None => {
            return Err(ErrorCodes::ArithmeticFailure);
        },
    };
    let borrower_lamports: u64 = match a.borrower.lamports.checked_add(transfer_amount) {
        Some(v) => v,
        None => {
            return Err(ErrorCodes::ArithmeticFailure);
        },
    };
    let borrower_assets: u64 = match a.borrower_asset_account.data.amount.checked_sub(1) {
        Some(v) => v,
        None => {
            return Err(ErrorCodes::ArithmeticFailure);
        },
    };
    let (loan, collateral, authority): (Authority, Authority, Authority) = match (
        loan,
        collateral,
        authority,
    ) {
        (Some(l), Some(c), Some(v)) => (l, c, v),
        _ => {
            return Err(ErrorCodes::AddressNotDerivable);
        },
    };
    if !check_accounts(ctx, &collection_id, &loan, &collateral, &authority) {
        return Err(ErrorCodes::ValidationFailure);
    }
    if a.active_loan.data.is_some() || a.vault_asset_account.data.is_some() {
        return Err(ErrorCodes::AccountAlreadyExists);
    }
    let receipt = BorrowReceipt {
        transfer_to_vault: AssetTransfer { context: a.transfer_to_vault_context(), amount: 1 },
        transfer_to_borrower: LamportTransfer {
            context: a.transfer_to_borrower_context().with_signer(authority),
            lamports: transfer_amount,
        },
        set_authority: AuthorityChange {
            context: a.set_authority_context(),
            authority_type: AuthorityType::AccountOwner,
            new_authority: authority.address,
        },
    };

    ctx.accounts.active_loan.data = Some(
        ActiveLoan {
            collection: a.collection_pool.key,
            offer_account: a.offer_loan.key,
            lender: a.offer_loan.data.lender,
            borrower: a.borrower.key,
            mint: a.asset_mint,
            loan_ts: a.clock.unix_timestamp,
            repay_ts,
            is_repaid: false,
            is_liquidated: false,
            bump: loan.bump,
        },
    );
    ctx.accounts.offer_loan.data.borrower = a.borrower.key;
    ctx.accounts.offer_loan.data.is_loan_taken = true;
    ctx.accounts.vault_token_account.lamports = minimum_balance_for_rent_exemption;
    ctx.accounts.vault_asset_account.data = Some(
        TokenAccount { mint: a.asset_mint, owner: authority.address, amount: 1 },
    );
    ctx.accounts.borrower.lamports = borrower_lamports;
    ctx.accounts.borrower_asset_account.data.amount = borrower_assets;
    Ok(receipt)
}

/// Matches the borrower with the offer.
pub fn handler(
    ctx: &mut Context<Borrow>,
    minimum_balance_for_rent_exemption: u64,
    collection_id: Address,
) -> (r: Result<BorrowReceipt, ErrorCodes>)
    ensures
        ends_as(
            *old(ctx),
            *final(ctx),
            r,
            handled(*old(ctx), minimum_balance_for_rent_exemption, collection_id),
        ),
        // An offer is matched at most once.
        old(ctx).accounts.offer_loan.data.is_loan_taken <==> r == Err::<BorrowReceipt, ErrorCodes>(
            ErrorCodes::LoanAlreadyTaken,
        ),
        // The vault keeps the floor.
        r is Ok ==> final(ctx).accounts.vault_token_account.lamports
            >= minimum_balance_for_rent_exemption,
{
    let offer: Address = ctx.accounts.offer_loan.key;
    let loan: Option<Authority> = derive_authority(Seeds::Loan { offer }, &ctx.program_id);
    let collateral: Option<Authority> = derive_authority(
        Seeds::Collateral { offer },
        &ctx.program_id,
    );
    let authority: Option<Authority> = derive_authority(
        Seeds::VaultAuthority {
            pool: ctx.accounts.collection_pool.key,
            lender: ctx.accounts.offer_loan.data.lender,
            counter: ctx.accounts.collection_pool.data.total_offers,
        },
        &ctx.program_id,
    );
    execute(ctx, minimum_balance_for_rent_exemption, collection_id, loan, collateral, authority)
}

} // verus!
