//! `repay`: the borrower pays what is owed to the lender in full and gets
//! the collateral back. Only a loan that is neither repaid nor liquidated
//! can be repaid.

use vstd::prelude::*;
use crate::authority::derive_authority;
use crate::authority::derived;
use crate::authority::Address;
use crate::authority::Authority;
use crate::authority::Seeds;
use crate::cpi::AssetTransfer;
use crate::cpi::CpiContext;
use crate::cpi::LamportTransfer;
use crate::cpi::SystemTransfer;
use crate::cpi::TokenTransfer;
use crate::errors::ErrorCodes;
use crate::instructions::context::ends_as;
use crate::instructions::context::Context;
use crate::states::account::Account;
use crate::states::account::Signer;
use crate::states::account::TokenAccount;
use crate::states::active_loan::ActiveLoan;
use crate::states::collection_pool::CollectionPool;
use crate::states::offer::Offer;

verus! {

#[derive(Clone, Copy, Debug, PartialEq, Eq)]
pub struct Repay {
    pub active_loan: Account<ActiveLoan>,
    pub offer: Account<Offer>,
    pub collection_pool: Account<CollectionPool>,
    /// Where the lender is paid.
    pub lender_token_account: Account<TokenAccount>,
    /// Where the borrower pays from.
    pub borrower_token_account: Account<TokenAccount>,
    /// The mint of the collateral.
    pub asset_mint: Address,
    /// Where the borrower gets the collateral back.
    pub borrower_asset_account: Account<TokenAccount>,
    /// The vault that holds the collateral.
    pub vault_asset_account: Account<TokenAccount>,
    /// The address named as the authority over the collateral's vault.
    pub asset_account_authority: Address,
    pub borrower: Signer,
}

/// The calls that go with a `repay`, in the order in which they are made.
#[derive(Clone, Copy, Debug, PartialEq, Eq)]
pub struct RepayReceipt {
    /// One unit of the collateral, from custody back to the borrower.
    pub transfer_asset: AssetTransfer,
    /// What is owed, from the borrower straight to the lender.
    pub transfer_to_lender: LamportTransfer,
}

impl Repay {
    /// The seed list of the authority over the offer's vaults, with the
    /// pool's counter as it stands.
    pub open spec fn authority_seeds(&self) -> Seeds {
        Seeds::VaultAuthority {
            pool: self.collection_pool.key,
            lender: self.offer.data.lender,
            counter: self.collection_pool.data.total_offers,
        }
    }

    pub open spec fn spec_transfer_asset_context(&self) -> CpiContext<TokenTransfer> {
        CpiContext {
            accounts: TokenTransfer {
                from: self.vault_asset_account.key,
                to: self.borrower_asset_account.key,
                authority: self.asset_account_authority,
            },
            signer: None,
        }
    }

    /// From the collateral's vault to the borrower's holding.
    #[verifier::when_used_as_spec(spec_transfer_asset_context)]
    pub fn transfer_asset_context(&self) -> (r: CpiContext<TokenTransfer>)
        ensures
            r == self.spec_transfer_asset_context(),
    {
        let cpi_accounts = TokenTransfer {
            from: self.vault_asset_account.key,
            to: self.borrower_asset_account.key,
            authority: self.asset_account_authority,
        };
        CpiContext::new(cpi_accounts)
    }

    pub open spec fn spec_transfer_to_lender_context(&self) -> CpiContext<SystemTransfer> {
        CpiContext {
            accounts: SystemTransfer {
                from: self.borrower_token_account.key,
                to: self.lender_token_account.key,
            },
            signer: None,
        }
    }

    /// From the borrower's account to the lender's.
    #[verifier::when_used_as_spec(spec_transfer_to_lender_context)]
    pub fn transfer_to_lender_context(&self) -> (r: CpiContext<SystemTransfer>)
        ensures
            r == self.spec_transfer_to_lender_context(),
    {
        let cpi_accounts = SystemTransfer {
            from: self.borrower_token_account.key,
            to: self.lender_token_account.key,
        };
        CpiContext::new(cpi_accounts)
    }
}

/// Every amount that `repay` computes stays in its range: the vault holds
/// the collateral, and the borrower can pay what is owed.
pub open spec fn amounts_fit(ctx: Context<Repay>) -> bool {
    let a = ctx.accounts;
    &&& a.vault_asset_account.data.amount >= 1
    &&& a.borrower_asset_account.data.amount + 1 <= u64::MAX
    &&& a.borrower_token_account.lamports >= a.offer.data.repay_amount
    &&& a.lender_token_account.lamports + a.offer.data.repay_amount <= u64::MAX
}

/// Every account is the one meant: the pool is that of `collection_id`, the
/// offer is of that pool, the loan is of that offer, of this borrower and of
/// this mint, each token account has the owner and the mint that its place
/// asks for, and the derived authority is the one that controls the vault.
pub open spec fn accounts_valid(
    ctx: Context<Repay>,
    collection_id: Address,
    authority: Authority,
) -> bool {
    let a = ctx.accounts;
    &&& a.collection_pool.data.collection_id == collection_id
    &&& a.offer.data.collection == a.collection_pool.key
    &&& a.active_loan.data.offer_account == a.offer.key
    &&& a.active_loan.data.borrower == a.borrower.key
    &&& a.active_loan.data.mint == a.asset_mint
    &&& a.lender_token_account.data.owner == a.offer.data.lender
    &&& a.borrower_token_account.data.owner == a.borrower.key
    &&& a.borrower_asset_account.data.mint == a.asset_mint
    &&& a.borrower_asset_account.data.owner == a.borrower.key
    &&& a.vault_asset_account.data.mint == a.asset_mint
    &&& a.vault_asset_account.data.owner == a.asset_account_authority
    &&& authority.address == a.asset_account_authority
}

/// Why `repay` fails, if it does.
pub open spec fn failure(
    ctx: Context<Repay>,
    collection_id: Address,
    authority: Option<Authority>,
) -> Option<ErrorCodes> {
    if ctx.accounts.active_loan.data.is_repaid {
        Some(ErrorCodes::LoanAlreadyRepaid)
    } else if ctx.accounts.active_loan.data.is_liquidated {
        Some(ErrorCodes::LoanAlreadyLiquidated)
    } else if !amounts_fit(ctx) {
        Some(ErrorCodes::ArithmeticFailure)
    } else if authority is None {
        Some(ErrorCodes::AddressNotDerivable)
    } else if !accounts_valid(ctx, collection_id, authority->0) {
        Some(ErrorCodes::ValidationFailure)
    } else {
        None
    }
}

/// The accounts after a `repay` that succeeds. The loan is marked repaid,
/// one unit of collateral is back with the borrower, and what was owed has
/// moved from the borrower to the lender.
pub open spec fn post(ctx: Context<Repay>) -> Context<Repay> {
    let a = ctx.accounts;
    Context {
        accounts: Repay {
            active_loan: Account {
                data: ActiveLoan { is_repaid: true, ..a.active_loan.data },
                ..a.active_loan
            },
            lender_token_account: Account {
                lamports: (a.lender_token_account.lamports + a.offer.data.repay_amount) as u64,
                ..a.lender_token_account
            },
            borrower_token_account: Account {
                lamports: (a.borrower_token_account.lamports - a.offer.data.repay_amount) as u64,
                ..a.borrower_token_account
            },
            borrower_asset_account: Account {
                data: TokenAccount {
                    amount: (a.borrower_asset_account.data.amount + 1) as u64,
                    ..a.borrower_asset_account.data
                },
                ..a.borrower_asset_account
            },
            vault_asset_account: Account {
                data: TokenAccount {
                    amount: (a.vault_asset_account.data.amount - 1) as u64,
                    ..a.vault_asset_account.data
                },
                ..a.vault_asset_account
            },
            ..a
        },
        ..ctx
    }
}

/// The calls that go with a `repay` that succeeds. The collateral's way out
/// of the vault is signed by the derived authority, the payment by the
/// borrower.
pub open spec fn receipt(ctx: Context<Repay>, authority: Authority) -> RepayReceipt {
    let a = ctx.accounts;
    RepayReceipt {
        transfer_asset: AssetTransfer {
            context: CpiContext { signer: Some(authority), ..a.transfer_asset_context() },
            amount: 1,
        },
        transfer_to_lender: LamportTransfer {
            context: a.transfer_to_lender_context(),
            lamports: a.offer.data.repay_amount,
        },
    }
}

/// How `repay` ends, given the authority derived for it.
pub open spec fn outcome(
    ctx: Context<Repay>,
    collection_id: Address,
    authority: Option<Authority>,
) -> Result<(Context<Repay>, RepayReceipt), ErrorCodes> {
    match failure(ctx, collection_id, authority) {
        Some(e) => Err(e),
        None => Ok((post(ctx), receipt(ctx, authority->0))),
    }
}

/// How `repay` ends.
pub open spec fn handled(ctx: Context<Repay>, collection_id: Address) -> Result<
    (Context<Repay>, RepayReceipt),
    ErrorCodes,
> {
    outcome(ctx, collection_id, derived(ctx.accounts.authority_seeds(), ctx.program_id))
}

fn check_accounts(ctx: &Context<Repay>, collection_id: &Address, authority: &Authority) -> (r: bool)
    ensures
        r == accounts_valid(*ctx, *collection_id, *authority),
{
    let a = &ctx.accounts;
    a.collection_pool.data.collection_id.same(collection_id)
        && a.offer.data.collection.same(&a.collection_pool.key)
        && a.active_loan.data.offer_account.same(&a.offer.key)
        && a.active_loan.data.borrower.same(&a.borrower.key)
        && a.active_loan.data.mint.same(&a.asset_mint)
        && a.lender_token_account.data.owner.same(&a.offer.data.lender)
        && a.borrower_token_account.data.owner.same(&a.borrower.key)
        && a.borrower_asset_account.data.mint.same(&a.asset_mint)
        && a.borrower_asset_account.data.owner.same(&a.borrower.key)
        && a.vault_asset_account.data.mint.same(&a.asset_mint)
        && a.vault_asset_account.data.owner.same(&a.asset_account_authority)
        && authority.controls(&a.asset_account_authority)
}

/// Settles the loan by repayment, given the authority derived over the
/// collateral's vault.
pub fn execute(ctx: &mut Context<Repay>, collection_id: Address, authority: Option<Authority>) -> (r:
    Result<RepayReceipt, ErrorCodes>)
    ensures
        ends_as(*old(ctx), *final(ctx), r, outcome(*old(ctx), collection_id, authority)),
        r is Ok ==> old(ctx).accounts.active_loan.data.is_open(),
        r is Ok ==> final(ctx).accounts.active_loan.data.is_repaid
            && !final(ctx).accounts.active_loan.data.is_liquidated,
{
    let a: Repay = ctx.accounts;
    if a.active_loan.data.is_repaid {
        return Err(ErrorCodes::LoanAlreadyRepaid);
    }
    if a.active_loan.data.is_liquidated {
        return Err(ErrorCodes::LoanAlreadyLiquidated);
    }
    let repay_amount: u64 = a.offer.data.repay_amount;
    let vault_assets: u64 = match a.vault_asset_account.data.amount.checked_sub(1) {
        Some(v) => v,
        None => {
            return Err(ErrorCodes::ArithmeticFailure);
        },
    };
    let borrower_assets: u64 = match a.borrower_asset_account.data.amount.checked_add(1) {
        Some(v) => v,
        None => {
            return Err(ErrorCodes::ArithmeticFailure);
        },
    };
    let borrower_lamports: u64 = match a.borrower_token_account.lamports.checked_sub(repay_amount) {
        Some(v) => v,
        None => {
            return Err(ErrorCodes::ArithmeticFailure);
        },
    };
    let lender_lamports: u64 = match a.lender_token_account.lamports.checked_add(repay_amount) {
        Some(v) => v,
        None => {
            return Err(ErrorCodes::ArithmeticFailure);
        },
    };
    let authority: Authority = match authority {
        Some(v) => v,
        None => {
            return Err(ErrorCodes::AddressNotDerivable);
        },
    };
    if !check_accounts(ctx, &collection_id, &authority) {
        return Err(ErrorCodes::ValidationFailure);
    }
    let receipt = RepayReceipt {
        transfer_asset: AssetTransfer {
            context: a.transfer_asset_context().with_signer(authority),
            amount: 1,
        },
        transfer_to_lender: LamportTransfer {
            context: a.transfer_to_lender_context(),
            lamports: repay_amount,
        },
    };

    ctx.accounts.active_loan.data.is_repaid = true;
    ctx.accounts.lender_token_account.lamports = lender_lamports;
    ctx.accounts.borrower_token_account.lamports = borrower_lamports;
    ctx.accounts.borrower_asset_account.data.amount = borrower_assets;
    ctx.accounts.vault_asset_account.data.amount = vault_assets;
    Ok(receipt)
}

/// Settles the loan by repayment.
pub fn handler(ctx: &mut Context<Repay>, collection_id: Address) -> (r: Result<
    RepayReceipt,
    ErrorCodes,
>)
    ensures
        ends_as(*old(ctx), *final(ctx), r, handled(*old(ctx), collection_id)),
        // Only a loan that is neither repaid nor liquidated is settled, and
        // it is left with the one mark.
        r is Ok ==> old(ctx).accounts.active_loan.data.is_open(),
        r is Ok ==> final(ctx).accounts.active_loan.data.is_repaid
            && !final(ctx).accounts.active_loan.data.is_liquidated,
{
    let authority: Option<Authority> = derive_authority(
        Seeds::VaultAuthority {
            pool: ctx.accounts.collection_pool.key,
            lender: ctx.accounts.offer.data.lender,
            counter: ctx.accounts.collection_pool.data.total_offers,
        },
        &ctx.program_id,
    );
    execute(ctx, collection_id, authority)
}

} // verus!
