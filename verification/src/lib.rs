//! Peer-to-peer lending against NFT collateral: the loan lifecycle and its
//! escrow accounts, with every transition stated as a contract.
//!
//! A lender commits principal against a collection (`offer_loan`) and may
//! take it back while nobody has borrowed (`withdraw_offer`). A borrower
//! pledges one NFT of the collection and draws the principal (`borrow`). The
//! loan ends when the borrower repays (`repay`) or, after the due time, when
//! the lender takes the collateral (`liquidate`).

use vstd::prelude::*;

pub mod authority;
pub mod cpi;
pub mod errors;
pub mod instructions;
pub mod lifecycle;
pub mod states;

pub use errors::ErrorCodes;

use authority::Address;
use instructions::borrow::BorrowReceipt;
use instructions::context::ends_as;
use instructions::liquidate::LiquidateReceipt;
use instructions::offer_loan::OfferLoanReceipt;
use instructions::repay::RepayReceipt;
use instructions::withdraw_offer::WithdrawOfferReceipt;
use instructions::Borrow;
use instructions::Context;
use instructions::CreatePool;
use instructions::Liquidate;
use instructions::OfferLoan;
use instructions::Repay;
use instructions::WithdrawOffer;

verus! {

/// Opens the pool of a collection, with the caller as its owner and no
/// offers.
pub fn create_pool(ctx: &mut Context<CreatePool>, collection_id: Address, duration: i64) -> (r:
    Result<(), ErrorCodes>)
    ensures
        ends_as(
            *old(ctx),
            *final(ctx),
            r,
            instructions::create_pool::handled(*old(ctx), collection_id, duration),
        ),
{
    instructions::create_pool::handler(ctx, collection_id, duration)
}

/// Records the lender's offer of `offer_amount` and puts that amount in
/// escrow.
pub fn offer_loan(ctx: &mut Context<OfferLoan>, offer_amount: u64, collection_id: Address) -> (r:
    Result<OfferLoanReceipt, ErrorCodes>)
    ensures
        ends_as(
            *old(ctx),
            *final(ctx),
            r,
            instructions::offer_loan::handled(*old(ctx), offer_amount, collection_id),
        ),
        r is Ok ==> instructions::offer_loan::created(*final(ctx), offer_amount),
{
    instructions::offer_loan::handler(ctx, offer_amount, collection_id)
}

/// Gives an open offer's principal back to its lender and closes the offer.
pub fn withdraw_offer(
    ctx: &mut Context<WithdrawOffer>,
    minimum_balance_for_rent_exemption: u64,
    collection_id: Address,
) -> (r: Result<WithdrawOfferReceipt, ErrorCodes>)
    ensures
        ends_as(
            *old(ctx),
            *final(ctx),
            r,
            instructions::withdraw_offer::handled(
                *old(ctx),
                minimum_balance_for_rent_exemption,
                collection_id,
            ),
        ),
        instructions::withdraw_offer::is_taken(*old(ctx)) <==> r == Err::<
            WithdrawOfferReceipt,
            ErrorCodes,
        >(ErrorCodes::LoanAlreadyTaken),
        r matches Ok(receipt) ==> old(ctx).accounts.vault_account.lamports
            - receipt.transfer_to_lender.lamports >= minimum_balance_for_rent_exemption,
{
    instructions::withdraw_offer::handler(ctx, minimum_balance_for_rent_exemption, collection_id)
}

/// Matches a borrower with an open offer: collateral in, principal out.
pub fn borrow(
    ctx: &mut Context<Borrow>,
    minimum_balance_for_rent_exemption: u64,
    collection_id: Address,
) -> (r: Result<BorrowReceipt, ErrorCodes>)
    ensures
        ends_as(
            *old(ctx),
            *final(ctx),
            r,
            instructions::borrow::handled(
                *old(ctx),
                minimum_balance_for_rent_exemption,
                collection_id,
            ),
        ),
        old(ctx).accounts.offer_loan.data.is_loan_taken <==> r == Err::<BorrowReceipt, ErrorCodes>(
            ErrorCodes::LoanAlreadyTaken,
        ),
        r is Ok ==> final(ctx).accounts.vault_token_account.lamports
            >= minimum_balance_for_rent_exemption,
{
    instructions::borrow::handler(ctx, minimum_balance_for_rent_exemption, collection_id)
}

/// Settles a loan by repayment: what is owed to the lender, the collateral
/// back to the borrower.
pub fn repay(ctx: &mut Context<Repay>, collection_id: Address) -> (r: Result<
    RepayReceipt,
    ErrorCodes,
>)
    ensures
        ends_as(
            *old(ctx),
            *final(ctx),
            r,
            instructions::repay::handled(*old(ctx), collection_id),
        ),
        r is Ok ==> old(ctx).accounts.active_loan.data.is_open(),
        r is Ok ==> final(ctx).accounts.active_loan.data.is_repaid
            && !final(ctx).accounts.active_loan.data.is_liquidated,
{
    instructions::repay::handler(ctx, collection_id)
}

/// Settles an overdue loan by liquidation: the collateral to the lender.
pub fn liquidate(ctx: &mut Context<Liquidate>, collection_id: Address) -> (r: Result<
    LiquidateReceipt,
    ErrorCodes,
>)
    ensures
        ends_as(
            *old(ctx),
            *final(ctx),
            r,
            instructions::liquidate::handled(*old(ctx), collection_id),
        ),
        r is Ok ==> old(ctx).accounts.active_loan.data.is_open(),
        r is Ok ==> final(ctx).accounts.active_loan.data.is_liquidated
            && !final(ctx).accounts.active_loan.data.is_repaid,
        old(ctx).accounts.clock.unix_timestamp <= old(ctx).accounts.active_loan.data.repay_ts
            <==> r == Err::<LiquidateReceipt, ErrorCodes>(ErrorCodes::CannotLiquidateYet),
{
    instructions::liquidate::handler(ctx, collection_id)
}

} // verus!
