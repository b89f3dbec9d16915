//! `liquidate`: after the due time the lender takes the collateral of a
//! loan that was not repaid. No funds move. Only a loan that is neither
//! repaid nor liquidated can be liquidated.

use vstd::prelude::*;
use crate::authority::derive_authority;
use crate::authority::derived;
use crate::authority::Address;
use crate::authority::Authority;
use crate::authority::Seeds;
use crate::cpi::AssetTransfer;
use crate::cpi::CpiContext;
use crate::cpi::TokenTransfer;
use crate::errors::ErrorCodes;
use crate::instructions::context::ends_as;
use crate::instructions::context::Context;
use crate::states::account::Account;
use crate::states::account::Clock;
use crate::states::account::Signer;
use crate::states::account::TokenAccount;
use crate::states::active_loan::ActiveLoan;
use crate::states::collection_pool::CollectionPool;
use crate::states::offer::Offer;

verus! {

#[derive(Clone, Copy, Debug, PartialEq, Eq)]
pub struct Liquidate {
    pub active_loan: Account<ActiveLoan>,
    pub offer: Account<Offer>,
    pub collection_pool: Account<CollectionPool>,
    pub lender_token_account: Account<TokenAccount>,
    /// The mint of the collateral.
    pub asset_mint: Address,
    /// The vault that holds the collateral.
    pub vault_asset_account: Account<TokenAccount>,
    /// Where the lender receives the collateral.
    pub lender_asset_account: Account<TokenAccount>,
    pub lender: Signer,
    /// The address named as the authority over the collateral's vault.
    pub asset_account_authority: Address,
    pub clock: Clock,
}

/// The call that goes with a `liquidate`.
#[derive(Clone, Copy, Debug, PartialEq, Eq)]
pub struct LiquidateReceipt {
    /// One unit of the collateral, from custody to the lender.
    pub transfer_asset_to_lender: AssetTransfer,
}

impl Liquidate {
    /// The seed list of the authority over the offer's vaults, with the
    /// pool's counter as it stands.
    pub open spec fn authority_seeds(&self) -> Seeds {
        Seeds::VaultAuthority {
            pool: self.collection_pool.key,
            lender: self.offer.data.lender,
            counter: self.collection_pool.data.total_offers,
        }
    }

    pub open spec fn spec_transfer_asset_to_lender_context(&self) -> CpiContext<TokenTransfer> {
        CpiContext {
            accounts: TokenTransfer {
                from: self.vault_asset_account.key,
                to: self.lender_asset_account.key,
                authority: self.asset_account_authority,
            },
            signer: None,
        }
    }

    /// From the collateral's vault to the lender's holding.
    #[verifier::when_used_as_spec(spec_transfer_asset_to_lender_context)]
    pub fn transfer_asset_to_lender_context(&self) -> (r: CpiContext<TokenTransfer>)
        ensures
            r == self.spec_transfer_asset_to_lender_context(),
    {
        let cpi_accounts = TokenTransfer {
            from: self.vault_asset_account.key,
            to: self.lender_asset_account.key,
            authority: self.asset_account_authority,
        };
        CpiContext::new(cpi_accounts)
    }
}

/// Lets a liquidation through only once the loan's due time has passed.
pub fn repayment_time_over(active_loan: &ActiveLoan, clock: &Clock) -> (r: Result<(), ErrorCodes>)
    ensures
        r is Ok <==> active_loan.is_overdue(clock.unix_timestamp),
        r is Err ==> r == Err::<(), ErrorCodes>(ErrorCodes::CannotLiquidateYet),
{
    if !(active_loan.repay_ts < clock.unix_timestamp) {
        return Err(ErrorCodes::CannotLiquidateYet);
    }
    Ok(())
}

/// Every amount that `liquidate` computes stays in its range: the vault
/// holds the collateral.
pub open spec fn amounts_fit(ctx: Context<Liquidate>) -> bool {
    let a = ctx.accounts;
    &&& a.vault_asset_account.data.amount >= 1
    &&& a.lender_asset_account.data.amount + 1 <= u64::MAX
}

/// Every account is the one meant: the pool is that of `collection_id`, the
/// offer is of that pool, the loan is of that offer, of this lender and of
/// this mint, each token account has the owner and the mint that its place
/// asks for, and the derived authority is the one that controls the vault.
pub open spec fn accounts_valid(
    ctx: Context<Liquidate>,
    collection_id: Address,
    authority: Authority,
) -> bool {
    let a = ctx.accounts;
    &&& a.collection_pool.data.collection_id == collection_id
    &&& a.offer.data.collection == a.collection_pool.key
    &&& a.active_loan.data.offer_account == a.offer.key
    &&& a.active_loan.data.lender == a.lender.key
    &&& a.active_loan.data.mint == a.asset_mint
    &&& a.lender_token_account.data.owner == a.offer.data.lender
    &&& a.vault_asset_account.data.mint == a.asset_mint
    &&& a.vault_asset_account.data.owner == a.asset_account_authority
    &&& a.lender_asset_account.data.mint == a.asset_mint
    &&& a.lender_asset_account.data.owner == a.lender.key
    &&& authority.address == a.asset_account_authority
}

/// Why `liquidate` fails, if it does.
pub open spec fn failure(
    ctx: Context<Liquidate>,
    collection_id: Address,
    authority: Option<Authority>,
) -> Option<ErrorCodes> {
    let a = ctx.accounts;
    if !a.active_loan.data.is_overdue(a.clock.unix_timestamp) {
        Some(ErrorCodes::CannotLiquidateYet)
    } else if a.active_loan.data.is_repaid {
        Some(ErrorCodes::LoanAlreadyRepaid)
    } else if a.active_loan.data.is_liquidated {
        Some(ErrorCodes::LoanAlreadyLiquidated)
    } else if !amounts_fit(ctx) {
        Some(ErrorCodes::ArithmeticFailure)
    } else if authority is None {
        Some(ErrorCodes::AddressNotDerivable)
    } else if !accounts_valid(ctx, collection_id, authority->0) {
        Some(ErrorCodes::ValidationFailure)
    } else {
        None
    }
}

/// The accounts after a `liquidate` that succeeds. The loan is marked
/// liquidated and one unit of collateral has moved from custody to the
/// lender.
pub open spec fn post(ctx: Context<Liquidate>) -> Context<Liquidate> {
    let a = ctx.accounts;
    Context {
        accounts: Liquidate {
            active_loan: Account {
                data: ActiveLoan { is_liquidated: true, ..a.active_loan.data },
                ..a.active_loan
            },
            vault_asset_account: Account {
                data: TokenAccount {
                    amount: (a.vault_asset_account.data.amount - 1) as u64,
                    ..a.vault_asset_account.data
                },
                ..a.vault_asset_account
            },
            lender_asset_account: Account {
                data: TokenAccount {
                    amount: (a.lender_asset_account.data.amount + 1) as u64,
                    ..a.lender_asset_account.data
                },
                ..a.lender_asset_account
            },
            ..a
        },
        ..ctx
    }
}

/// The call that goes with a `liquidate` that succeeds, signed by the
/// derived authority.
pub open spec fn receipt(ctx: Context<Liquidate>, authority: Authority) -> LiquidateReceipt {
    LiquidateReceipt {
        transfer_asset_to_lender: AssetTransfer {
            context: CpiContext {
                signer: Some(authority),
                ..ctx.accounts.transfer_asset_to_lender_context()
            },
            amount: 1,
        },
    }
}

/// How `liquidate` ends, given the authority derived for it.
pub open spec fn outcome(
    ctx: Context<Liquidate>,
    collection_id: Address,
    authority: Option<Authority>,
) -> Result<(Context<Liquidate>, LiquidateReceipt), ErrorCodes> {
    match failure(ctx, collection_id, authority) {
        Some(e) => Err(e),
        None => Ok((post(ctx), receipt(ctx, authority->0))),
    }
}

/// How `liquidate` ends.
pub open spec fn handled(ctx: Context<Liquidate>, collection_id: Address) -> Result<
    (Context<Liquidate>, LiquidateReceipt),
    ErrorCodes,
> {
    outcome(ctx, collection_id, derived(ctx.accounts.authority_seeds(), ctx.program_id))
}

fn check_accounts(ctx: &Context<Liquidate>, collection_id: &Address, authority: &Authority) -> (r:
    bool)
    ensures
        r == accounts_valid(*ctx, *collection_id, *authority),
{
    let a = &ctx.accounts;
    a.collection_pool.data.collection_id.same(collection_id)
        && a.offer.data.collection.same(&a.collection_pool.key)
        && a.active_loan.data.offer_account.same(&a.offer.key)
        && a.active_loan.data.lender.same(&a.lender.key)
        && a.active_loan.data.mint.same(&a.asset_mint)
        && a.lender_token_account.data.owner.same(&a.offer.data.lender)
        && a.vault_asset_account.data.mint.same(&a.asset_mint)
        && a.vault_asset_account.data.owner.same(&a.asset_account_authority)
        && a.lender_asset_account.data.mint.same(&a.asset_mint)
        && a.lender_asset_account.data.owner.same(&a.lender.key)
        && authority.controls(&a.asset_account_authority)
}

/// Settles the loan by liquidation, given the authority derived over the
/// collateral's vault.
pub fn execute(ctx: &mut Context<Liquidate>, collection_id: Address, authority: Option<Authority>) -> (r:
    Result<LiquidateReceipt, ErrorCodes>)
    ensures
        ends_as(*old(ctx), *final(ctx), r, outcome(*old(ctx), collection_id, authority)),
        r is Ok ==> old(ctx).accounts.active_loan.data.is_open(),
        r is Ok ==> final(ctx).accounts.active_loan.data.is_liquidated
            && !final(ctx).accounts.active_loan.data.is_repaid,
        old(ctx).accounts.clock.unix_timestamp <= old(ctx).accounts.active_loan.data.repay_ts
            <==> r == Err::<LiquidateReceipt, ErrorCodes>(ErrorCodes::CannotLiquidateYet),
{
    let a: Liquidate = ctx.accounts;
    match repayment_time_over(&a.active_loan.data, &a.clock) {
        Ok(_) => {},
        Err(e) => {
            return Err(e);
        },
    }
    if a.active_loan.data.is_repaid {
        return Err(ErrorCodes::LoanAlreadyRepaid);
    }
    if a.active_loan.data.is_liquidated {
        return Err(ErrorCodes::LoanAlreadyLiquidated);
    }
    let vault_assets: u64 = match a.vault_asset_account.data.amount.checked_sub(1) {
        Some(v) => v,
        None => {
            return Err(ErrorCodes::ArithmeticFailure);
        },
    };
    let lender_assets: u64 = match a.lender_asset_account.data.amount.checked_add(1) {
        Some(v) => v,
        None => {
            return Err(ErrorCodes::ArithmeticFailure);
        },
    };
    let authority: Authority = match authority {
        Some(v) => v,
        None => {
            return Err(ErrorCodes::AddressNotDerivable);
        },
    };
    if !check_accounts(ctx, &collection_id, &authority) {
        return Err(ErrorCodes::ValidationFailure);
    }
    let receipt = LiquidateReceipt {
        transfer_asset_to_lender: AssetTransfer {
            context: a.transfer_asset_to_lender_context().with_signer(authority),
            amount: 1,
        },
    };

    ctx.accounts.active_loan.data.is_liquidated = true;
    ctx.accounts.vault_asset_account.data.amount = vault_assets;
    ctx.accounts.lender_asset_account.data.amount = lender_assets;
    Ok(receipt)
}

/// Settles the loan by liquidation.
pub fn handler(ctx: &mut Context<Liquidate>, collection_id: Address) -> (r: Result<
    LiquidateReceipt,
    ErrorCodes,
>)
    ensures
        ends_as(*old(ctx), *final(ctx), r, handled(*old(ctx), collection_id)),
        // Only a loan that is neither repaid nor liquidated is settled, and
        // it is left with the one mark.
        r is Ok ==> old(ctx).accounts.active_loan.data.is_open(),
        r is Ok ==> final(ctx).accounts.active_loan.data.is_liquidated
            && !final(ctx).accounts.active_loan.data.is_repaid,
        // Not before the due time has passed, and for that reason never
        // after it.
        old(ctx).accounts.clock.unix_timestamp <= old(ctx).accounts.active_loan.data.repay_ts
            <==> r == Err::<LiquidateReceipt, ErrorCodes>(ErrorCodes::CannotLiquidateYet),
{
    let authority: Option<Authority> = derive_authority(
        Seeds::VaultAuthority {
            pool: ctx.accounts.collection_pool.key,
            lender: ctx.accounts.offer.data.lender,
            counter: ctx.accounts.collection_pool.data.total_offers,
        },
        &ctx.program_id,
    );
    execute(ctx, collection_id, authority)
}

} // verus!
