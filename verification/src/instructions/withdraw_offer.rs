//! `withdraw_offer`: a lender takes back an offer that nobody has borrowed
//! against. The offer and its vault are closed.

use vstd::prelude::*;
use crate::authority::derive_authority;
use crate::authority::derived;
use crate::authority::Address;
use crate::authority::Authority;
use crate::authority::Seeds;
use crate::cpi::CpiContext;
use crate::cpi::LamportTransfer;
use crate::cpi::SystemTransfer;
use crate::errors::ErrorCodes;
use crate::instructions::context::ends_as;
use crate::instructions::context::Context;
use crate::states::account::Account;
use crate::states::account::Signer;
use crate::states::collection_pool::CollectionPool;
use crate::states::offer::Offer;
use crate::states::vault::Vault;

verus! {

#[derive(Clone, Copy, Debug, PartialEq, Eq)]
pub struct WithdrawOffer {
    /// The offer, which is closed on success.
    pub offer_loan: Account<Option<Offer>>,
    /// The vault with the principal, which is closed on success.
    pub vault_account: Account<Option<Vault>>,
    pub collection_pool: Account<CollectionPool>,
    /// The lender, who gets everything back.
    pub lender: Signer,
}

/// The call that goes with a `withdraw_offer`. What the two closed accounts
/// still hold after it goes to the lender as they close.
#[derive(Clone, Copy, Debug, PartialEq, Eq)]
pub struct WithdrawOfferReceipt {
    /// What the vault holds above the floor, from the vault to the lender.
    pub transfer_to_lender: LamportTransfer,
}

impl WithdrawOffer {
    /// The seed list of the authority over the vault, with the pool's
    /// counter as it stands while the offer is still counted.
    pub open spec fn authority_seeds(&self) -> Seeds {
        Seeds::VaultAuthority {
            pool: self.collection_pool.key,
            lender: self.lender.key,
            counter: self.collection_pool.data.total_offers,
        }
    }

    pub open spec fn spec_transfer_to_lender_context(&self) -> CpiContext<SystemTransfer> {
        CpiContext {
            accounts: SystemTransfer { from: self.vault_account.key, to: self.lender.key },
            signer: None,
        }
    }

    /// From the vault to the lender.
    #[verifier::when_used_as_spec(spec_transfer_to_lender_context)]
    pub fn transfer_to_lender_context(&self) -> (r: CpiContext<SystemTransfer>)
        ensures
            r == self.spec_transfer_to_lender_context(),
    {
        let cpi_accounts = SystemTransfer { from: self.vault_account.key, to: self.lender.key };
        CpiContext::new(cpi_accounts)
    }
}

/// Whether the offer is there and already matched.
pub open spec fn is_taken(ctx: Context<WithdrawOffer>) -> bool {
    ctx.accounts.offer_loan.data matches Some(offer) && offer.is_loan_taken
}

/// What the transfer moves: what the vault holds above the floor.
pub open spec fn transfer_amount(
    ctx: Context<WithdrawOffer>,
    minimum_balance_for_rent_exemption: u64,
) -> int {
    ctx.accounts.vault_account.lamports - minimum_balance_for_rent_exemption
}

/// What the lender gets in all: the whole balance of the vault and of the
/// offer's account.
pub open spec fn refund(ctx: Context<WithdrawOffer>) -> int {
    ctx.accounts.vault_account.lamports + ctx.accounts.offer_loan.lamports
}

/// Every amount and counter that `withdraw_offer` computes stays in its
/// range.
pub open spec fn amounts_fit(
    ctx: Context<WithdrawOffer>,
    minimum_balance_for_rent_exemption: u64,
) -> bool {
    let a = ctx.accounts;
    &&& a.collection_pool.data.total_offers >= 1
    &&& transfer_amount(ctx, minimum_balance_for_rent_exemption) >= 0
    &&& a.lender.lamports + refund(ctx) <= u64::MAX
}

/// Every account is the one meant: the offer and the vault are there, the
/// pool is that of `collection_id`, the offer is of that pool and of this
/// lender, the vault is of that offer, and the derived authority is the one
/// that controls the vault.
pub open spec fn accounts_valid(
    ctx: Context<WithdrawOffer>,
    collection_id: Address,
    authority: Authority,
) -> bool {
    let a = ctx.accounts;
    &&& a.offer_loan.data is Some
    &&& a.vault_account.data is Some
    &&& a.collection_pool.data.collection_id == collection_id
    &&& a.offer_loan.data->0.collection == a.collection_pool.key
    &&& a.offer_loan.data->0.lender == a.lender.key
    &&& a.vault_account.data->0.offer == a.offer_loan.key
    &&& authority.address == a.vault_account.data->0.authority
}

/// Why `withdraw_offer` fails, if it does.
pub open spec fn failure(
    ctx: Context<WithdrawOffer>,
    minimum_balance_for_rent_exemption: u64,
    collection_id: Address,
    authority: Option<Authority>,
) -> Option<ErrorCodes> {
    if is_taken(ctx) {
        Some(ErrorCodes::LoanAlreadyTaken)
    } else if !amounts_fit(ctx, minimum_balance_for_rent_exemption) {
        Some(ErrorCodes::ArithmeticFailure)
    } else if authority is None {
        Some(ErrorCodes::AddressNotDerivable)
    } else if !accounts_valid(ctx, collection_id, authority->0) {
        Some(ErrorCodes::ValidationFailure)
    } else {
        None
    }
}

/// The accounts after a `withdraw_offer` that succeeds. The offer and the
/// vault are gone, the pool counts one offer less, and the lender has what
/// the two accounts held.
pub open spec fn post(ctx: Context<WithdrawOffer>) -> Context<WithdrawOffer> {
    let a = ctx.accounts;
    Context {
        accounts: WithdrawOffer {
            offer_loan: Account { lamports: 0, data: None, ..a.offer_loan },
            vault_account: Account { lamports: 0, data: None, ..a.vault_account },
            collection_pool: Account {
                data: CollectionPool {
                    total_offers: (a.collection_pool.data.total_offers - 1) as u64,
                    ..a.collection_pool.data
                },
                ..a.collection_pool
            },
            lender: Signer { lamports: (a.lender.lamports + refund(ctx)) as u64, ..a.lender },
        },
        ..ctx
    }
}

/// The call that goes with a `withdraw_offer` that succeeds, signed by the
/// derived authority. It leaves the floor in the vault.
pub open spec fn receipt(
    ctx: Context<WithdrawOffer>,
    minimum_balance_for_rent_exemption: u64,
    authority: Authority,
) -> WithdrawOfferReceipt {
    WithdrawOfferReceipt {
        transfer_to_lender: LamportTransfer {
            context: CpiContext {
                signer: Some(authority),
                ..ctx.accounts.transfer_to_lender_context()
            },
            lamports: transfer_amount(ctx, minimum_balance_for_rent_exemption) as u64,
        },
    }
}

/// How `withdraw_offer` ends, given the authority derived for it.
pub open spec fn outcome(
    ctx: Context<WithdrawOffer>,
    minimum_balance_for_rent_exemption: u64,
    collection_id: Address,
    authority: Option<Authority>,
) -> Result<(Context<WithdrawOffer>, WithdrawOfferReceipt), ErrorCodes> {
    match failure(ctx, minimum_balance_for_rent_exemption, collection_id, authority) {
        Some(e) => Err(e),
        None => Ok((post(ctx), receipt(ctx, minimum_balance_for_rent_exemption, authority->0))),
    }
}

/// How `withdraw_offer` ends.
pub open spec fn handled(
    ctx: Context<WithdrawOffer>,
    minimum_balance_for_rent_exemption: u64,
    collection_id: Address,
) -> Result<(Context<WithdrawOffer>, WithdrawOfferReceipt), ErrorCodes> {
    outcome(
        ctx,
        minimum_balance_for_rent_exemption,
        collection_id,
        derived(ctx.accounts.authority_seeds(), ctx.program_id),
    )
}

fn check_accounts(ctx: &Context<WithdrawOffer>, collection_id: &Address, authority: &Authority) -> (r:
    bool)
    ensures
        r == accounts_valid(*ctx, *collection_id, *authority),
{
    let a = &ctx.accounts;
    match (a.offer_loan.data, a.vault_account.data) {
        (Some(offer), Some(vault)) => {
            a.collection_pool.data.collection_id.same(collection_id) && offer.collection.same(
                &a.collection_pool.key,
            ) && offer.lender.same(&a.lender.key) && vault.offer.same(&a.offer_loan.key)
                && authority.controls(&vault.authority)
        },
        _ => false,
    }
}

/// Closes the offer and its vault, given the authority derived over the
/// vault.
pub fn execute(
    ctx: &mut Context<WithdrawOffer>,
    minimum_balance_for_rent_exemption: u64,
    collection_id: Address,
    authority: Option<Authority>,
) -> (r: Result<WithdrawOfferReceipt, ErrorCodes>)
    ensures
        ends_as(
            *old(ctx),
            *final(ctx),
            r,
            outcome(*old(ctx), minimum_balance_for_rent_exemption, collection_id, authority),
        ),
        is_taken(*old(ctx)) <==> r == Err::<WithdrawOfferReceipt, ErrorCodes>(
            ErrorCodes::LoanAlreadyTaken,
        ),
        r matches Ok(receipt) ==> old(ctx).accounts.vault_account.lamports
            - receipt.transfer_to_lender.lamports >= minimum_balance_for_rent_exemption,
{
    let a: WithdrawOffer = ctx.accounts;
    let taken: bool = match a.offer_loan.data {
        Some(offer) => offer.is_loan_taken,
        None => false,
    };
    if taken {
        return Err(ErrorCodes::LoanAlreadyTaken);
    }
    let total_offers: u64 = match a.collection_pool.data.total_offers.checked_sub(1) {
        Some(v) => v,
        None => {
            return Err(ErrorCodes::ArithmeticFailure);
        },
    };
    let vault_lamports_initial: u64 = a.vault_account.lamports;
    let transfer_amount: u64 = match vault_lamports_initial.checked_sub(
        minimum_balance_for_rent_exemption,
    ) {
        Some(v) => v,
        None => {
            return Err(ErrorCodes::ArithmeticFailure);
        },
    };
    let refund: u64 = match vault_lamports_initial.checked_add(a.offer_loan.lamports) {
        Some(v) => v,
        None => {
            return Err(ErrorCodes::ArithmeticFailure);
        },
    };
    let lender_lamports: u64 = match a.lender.lamports.checked_add(refund) {
        Some(v) => v,
        None => {
            return Err(ErrorCodes::ArithmeticFailure);
        },
    };
    let authority: Authority = match authority {
        Some(v) => v,
        None => {
            return Err(ErrorCodes::AddressNotDerivable);
        },
    };
    if !check_accounts(ctx, &collection_id, &authority) {
        return Err(ErrorCodes::ValidationFailure);
    }
    let receipt = WithdrawOfferReceipt {
        transfer_to_lender: LamportTransfer {
            context: a.transfer_to_lender_context().with_signer(authority),
            lamports: transfer_amount,
        },
    };

    ctx.accounts.offer_loan.lamports = 0;
    ctx.accounts.offer_loan.data = None;
    ctx.accounts.vault_account.lamports = 0;
    ctx.accounts.vault_account.data = None;
    ctx.accounts.collection_pool.data.total_offers = total_offers;
    ctx.accounts.lender.lamports = lender_lamports;
    Ok(receipt)
}

/// Gives an open offer's principal back to its lender and closes the offer.
pub fn handler(
    ctx: &mut Context<WithdrawOffer>,
    minimum_balance_for_rent_exemption: u64,
    collection_id: Address,
) -> (r: Result<WithdrawOfferReceipt, ErrorCodes>)
    ensures
        ends_as(
            *old(ctx),
            *final(ctx),
            r,
            handled(*old(ctx), minimum_balance_for_rent_exemption, collection_id),
        ),
        // A matched offer cannot be taken back.
        is_taken(*old(ctx)) <==> r == Err::<WithdrawOfferReceipt, ErrorCodes>(
            ErrorCodes::LoanAlreadyTaken,
        ),
        // The transfer leaves the floor in the vault.
        r matches Ok(receipt) ==> old(ctx).accounts.vault_account.lamports
            - receipt.transfer_to_lender.lamports >= minimum_balance_for_rent_exemption,
{
    let authority: Option<Authority> = derive_authority(
        Seeds::VaultAuthority {
            pool: ctx.accounts.collection_pool.key,
            lender: ctx.accounts.lender.key,
            counter: ctx.accounts.collection_pool.data.total_offers,
        },
        &ctx.program_id,
    );
    execute(ctx, minimum_balance_for_rent_exemption, collection_id, authority)
}

} // verus!
