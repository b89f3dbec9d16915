//! `offer_loan`: a lender commits principal against a pool. The principal
//! goes into a vault that only a derived authority controls.

use vstd::prelude::*;
use crate::authority::derive_authority;
use crate::authority::derived;
use crate::authority::Address;
use crate::authority::Authority;
use crate::authority::Seeds;
use crate::cpi::AuthorityChange;
use crate::cpi::AuthorityType;
use crate::cpi::CpiContext;
use crate::cpi::LamportTransfer;
use crate::cpi::SetAuthority;
use crate::cpi::SystemTransfer;
use crate::errors::ErrorCodes;
use crate::instructions::context::ends_as;
use crate::instructions::context::Context;
use crate::states::account::Account;
use crate::states::account::Signer;
use crate::states::account::TokenAccount;
use crate::states::collection_pool::CollectionPool;
use crate::states::offer::repay_amount_of;
use crate::states::offer::Offer;
use crate::states::vault::Vault;

verus! {

#[derive(Clone, Copy, Debug, PartialEq, Eq)]
pub struct OfferLoan {
    /// The offer's account, with no record in it yet.
    pub offer_loan: Account<Option<Offer>>,
    /// The vault for the principal, with no record in it yet.
    pub offer_token_account: Account<Option<Vault>>,
    pub lender_token_account: Account<TokenAccount>,
    pub collection_pool: Account<CollectionPool>,
    /// The lender, who pays the principal in.
    pub lender: Signer,
}

/// The calls that go with an `offer_loan`, in the order in which they are
/// made.
#[derive(Clone, Copy, Debug, PartialEq, Eq)]
pub struct OfferLoanReceipt {
    /// The principal, from the lender into the vault.
    pub transfer_to_vault: LamportTransfer,
    /// The ownership of the vault, handed from the lender to the derived
    /// authority.
    pub set_authority: AuthorityChange,
}

impl OfferLoan {
    /// The seed list of the offer's address, with the pool's counter as it
    /// stands.
    pub open spec fn offer_seeds(&self) -> Seeds {
        Seeds::Offer {
            pool: self.collection_pool.key,
            lender: self.lender.key,
            counter: self.collection_pool.data.total_offers,
        }
    }

    /// The seed list of the vault's address.
    pub open spec fn vault_seeds(&self) -> Seeds {
        Seeds::Vault { offer: self.offer_loan.key }
    }

    /// The seed list of the authority over the vault, with the pool's
    /// counter as it will stand once this offer is counted.
    pub open spec fn authority_seeds(&self) -> Seeds {
        Seeds::VaultAuthority {
            pool: self.collection_pool.key,
            lender: self.lender.key,
            counter: (self.collection_pool.data.total_offers + 1) as u64,
        }
    }

    pub open spec fn spec_transfer_to_vault_context(&self) -> CpiContext<SystemTransfer> {
        CpiContext {
            accounts: SystemTransfer { from: self.lender.key, to: self.offer_token_account.key },
            signer: None,
        }
    }

    /// From the lender to the vault.
    #[verifier::when_used_as_spec(spec_transfer_to_vault_context)]
    pub fn transfer_to_vault_context(&self) -> (r: CpiContext<SystemTransfer>)
        ensures
            r == self.spec_transfer_to_vault_context(),
    {
        let cpi_accounts = SystemTransfer {
            from: self.lender.key,
            to: self.offer_token_account.key,
        };
        CpiContext::new(cpi_accounts)
    }

    pub open spec fn spec_set_authority_context(&self) -> CpiContext<SetAuthority> {
        CpiContext {
            accounts: SetAuthority {
                account_or_mint: self.offer_token_account.key,
                current_authority: self.lender.key,
            },
            signer: None,
        }
    }

    /// Over the vault, which the lender controls until then.
    #[verifier::when_used_as_spec(spec_set_authority_context)]
    pub fn set_authority_context(&self) -> (r: CpiContext<SetAuthority>)
        ensures
            r == self.spec_set_authority_context(),
    {
        let cpi_accounts = SetAuthority {
            account_or_mint: self.offer_token_account.key,
            current_authority: self.lender.key,
        };
        CpiContext::new(cpi_accounts)
    }
}

/// Every amount and counter that `offer_loan` computes stays in its range.
pub open spec fn amounts_fit(ctx: Context<OfferLoan>, offer_amount: u64) -> bool {
    let a = ctx.accounts;
    &&& offer_amount * 10 <= u64::MAX
    &&& a.collection_pool.data.total_offers + 1 <= u64::MAX
    &&& a.lender.lamports >= offer_amount
    &&& a.offer_token_account.lamports + offer_amount <= u64::MAX
}

/// Every account is the one meant: the pool is that of `collection_id`, the
/// two new accounts are at the addresses derived for them, and the lender
/// owns the token account that is named as the lender's.
pub open spec fn accounts_valid(
    ctx: Context<OfferLoan>,
    collection_id: Address,
    offer: Authority,
    vault: Authority,
) -> bool {
    let a = ctx.accounts;
    &&& a.collection_pool.data.collection_id == collection_id
    &&& a.offer_loan.key == offer.address
    &&& a.offer_token_account.key == vault.address
    &&& a.lender_token_account.data.owner == a.lender.key
}

/// Why `offer_loan` fails, if it does.
pub open spec fn failure(
    ctx: Context<OfferLoan>,
    offer_amount: u64,
    collection_id: Address,
    offer: Option<Authority>,
    vault: Option<Authority>,
    authority: Option<Authority>,
) -> Option<ErrorCodes> {
    let a = ctx.accounts;
    if !amounts_fit(ctx, offer_amount) {
        Some(ErrorCodes::ArithmeticFailure)
    } else if offer is None || vault is None || authority is None {
        Some(ErrorCodes::AddressNotDerivable)
    } else if !accounts_valid(ctx, collection_id, offer->0, vault->0) {
        Some(ErrorCodes::ValidationFailure)
    } else if a.offer_loan.data is Some || a.offer_token_account.data is Some {
        Some(ErrorCodes::AccountAlreadyExists)
    } else {
        None
    }
}

/// The offer that `offer_loan` records: open, with a tenth on top of the
/// principal to repay.
pub open spec fn new_offer(ctx: Context<OfferLoan>, offer_amount: u64, offer: Authority) -> Offer {
    let a = ctx.accounts;
    Offer {
        collection: a.collection_pool.key,
        offer_amount,
        repay_amount: repay_amount_of(offer_amount as int) as u64,
        lender: a.lender.key,
        borrower: Address::spec_unset(),
        is_loan_taken: false,
        bump: offer.bump,
    }
}

/// The accounts after an `offer_loan` that succeeds. The offer is recorded,
/// the pool counts one offer more, and the principal has moved from the
/// lender into the vault, which the derived authority controls.
pub open spec fn post(
    ctx: Context<OfferLoan>,
    offer_amount: u64,
    offer: Authority,
    vault: Authority,
    authority: Authority,
) -> Context<OfferLoan> {
    let a = ctx.accounts;
    Context {
        accounts: OfferLoan {
            offer_loan: Account { data: Some(new_offer(ctx, offer_amount, offer)), ..a.offer_loan },
            offer_token_account: Account {
                lamports: (a.offer_token_account.lamports + offer_amount) as u64,
                data: Some(
                    Vault { offer: a.offer_loan.key, authority: authority.address, bump: vault.bump },
                ),
                ..a.offer_token_account
            },
            collection_pool: Account {
                data: CollectionPool {
                    total_offers: (a.collection_pool.data.total_offers + 1) as u64,
                    ..a.collection_pool.data
                },
                ..a.collection_pool
            },
            lender: Signer { lamports: (a.lender.lamports - offer_amount) as u64, ..a.lender },
            ..a
        },
        ..ctx
    }
}

/// The calls that go with an `offer_loan` that succeeds. The lender signs
/// both.
pub open spec fn receipt(
    ctx: Context<OfferLoan>,
    offer_amount: u64,
    authority: Authority,
) -> OfferLoanReceipt {
    let a = ctx.accounts;
    OfferLoanReceipt {
        transfer_to_vault: LamportTransfer {
            context: a.transfer_to_vault_context(),
            lamports: offer_amount,
        },
        set_authority: AuthorityChange {
            context: a.set_authority_context(),
            authority_type: AuthorityType::AccountOwner,
            new_authority: authority.address,
        },
    }
}

/// The offer is there, open, for `offer_amount`, and what is to be repaid
/// is `offer_amount + offer_amount * 10 / 100`.
pub open spec fn created(ctx: Context<OfferLoan>, offer_amount: u64) -> bool {
    &&& ctx.accounts.offer_loan.data matches Some(offer)
    &&& offer.offer_amount == offer_amount
    &&& offer.repay_amount == offer.offer_amount + offer.offer_amount * 10 / 100
    &&& !offer.is_loan_taken
}

/// How `offer_loan` ends, given the three authorities derived for it.
pub open spec fn outcome(
    ctx: Context<OfferLoan>,
    offer_amount: u64,
    collection_id: Address,
    offer: Option<Authority>,
    vault: Option<Authority>,
    authority: Option<Authority>,
) -> Result<(Context<OfferLoan>, OfferLoanReceipt), ErrorCodes> {
    match failure(ctx, offer_amount, collection_id, offer, vault, authority) {
        Some(e) => Err(e),
        None => Ok(
            (
                post(ctx, offer_amount, offer->0, vault->0, authority->0),
                receipt(ctx, offer_amount, authority->0),
            ),
        ),
    }
}

/// How `offer_loan` ends.
pub open spec fn handled(ctx: Context<OfferLoan>, offer_amount: u64, collection_id: Address) -> Result<
    (Context<OfferLoan>, OfferLoanReceipt),
    ErrorCodes,
> {
    outcome(
        ctx,
        offer_amount,
        collection_id,
        derived(ctx.accounts.offer_seeds(), ctx.program_id),
        derived(ctx.accounts.vault_seeds(), ctx.program_id),
        derived(ctx.accounts.authority_seeds(), ctx.program_id),
    )
}

fn check_accounts(
    ctx: &Context<OfferLoan>,
    collection_id: &Address,
    offer: &Authority,
    vault: &Authority,
) -> (r: bool)
    ensures
        r == accounts_valid(*ctx, *collection_id, *offer, *vault),
{
    let a = &ctx.accounts;
    a.collection_pool.data.collection_id.same(collection_id) && a.offer_loan.key.same(
        &offer.address,
    ) && a.offer_token_account.key.same(&vault.address) && a.lender_token_account.data.owner.same(
        &a.lender.key,
    )
}

/// Records the offer and funds its vault, given the authorities derived for
/// the offer's address, for the vault's address, and over the vault.
pub fn execute(
    ctx: &mut Context<OfferLoan>,
    offer_amount: u64,
    collection_id: Address,
    offer: Option<Authority>,
    vault: Option<Authority>,
    authority: Option<Authority>,
) -> (r: Result<OfferLoanReceipt, ErrorCodes>)
    ensures
        ends_as(
            *old(ctx),
            *final(ctx),
            r,
            outcome(*old(ctx), offer_amount, collection_id, offer, vault, authority),
        ),
        r is Ok ==> created(*final(ctx), offer_amount),
{
    let a: OfferLoan = ctx.accounts;
    let repay_amount: u64 = match Offer::checked_repay_amount(offer_amount) {
        Some(v) => v,
        None => {
            return Err(ErrorCodes::ArithmeticFailure);
        },
    };
    let total_offers: u64 = match a.collection_pool.data.total_offers.checked_add(1) {
        Some(v) => v,
        None => {
            return Err(ErrorCodes::ArithmeticFailure);
        },
    };
    let lender_lamports: u64 = match a.lender.lamports.checked_sub(offer_amount) {
        Some(v) => v,
        None => {
            return Err(ErrorCodes::ArithmeticFailure);
        },
    };
    let vault_lamports: u64 = match a.offer_token_account.lamports.checked_add(offer_amount) {
        Some(v) => v,
        None => {
            return Err(ErrorCodes::ArithmeticFailure);
        },
    };
    let (offer, vault, authority): (Authority, Authority, Authority) = match (
        offer,
        vault,
        authority,
    ) {
        (Some(o), Some(v), Some(w)) => (o, v, w),
        _ => {
            return Err(ErrorCodes::AddressNotDerivable);
        },
    };
    if !check_accounts(ctx, &collection_id, &offer, &vault) {
        return Err(ErrorCodes::ValidationFailure);
    }
    if a.offer_loan.data.is_some() || a.offer_token_account.data.is_some() {
        return Err(ErrorCodes::AccountAlreadyExists);
    }
    let receipt = OfferLoanReceipt {
        transfer_to_vault: LamportTransfer {
            context: a.transfer_to_vault_context(),
            lamports: offer_amount,
        },
        set_authority: AuthorityChange {
            context: a.set_authority_context(),
            authority_type: AuthorityType::AccountOwner,
            new_authority: authority.address,
        },
    };

    ctx.accounts.offer_loan.data = Some(
        Offer {
            collection: a.collection_pool.key,
            offer_amount,
            repay_amount,
            lender: a.lender.key,
            borrower: Address::unset(),
            is_loan_taken: false,
            bump: offer.bump,
        },
    );
    ctx.accounts.offer_token_account.lamports = vault_lamports;
    ctx.accounts.offer_token_account.data = Some(
        Vault { offer: a.offer_loan.key, authority: authority.address, bump: vault.bump },
    );
    ctx.accounts.collection_pool.data.total_offers = total_offers;
    ctx.accounts.lender.lamports = lender_lamports;
    Ok(receipt)
}

/// Records the lender's offer of `offer_amount` against the pool and moves
/// that amount into the offer's vault.
pub fn handler(ctx: &mut Context<OfferLoan>, offer_amount: u64, collection_id: Address) -> (r: Result<
    OfferLoanReceipt,
    ErrorCodes,
>)
    ensures
        ends_as(*old(ctx), *final(ctx), r, handled(*old(ctx), offer_amount, collection_id)),
        // Every offer that is created owes its principal and a tenth of it.
        r is Ok ==> created(*final(ctx), offer_amount),
{
    let pool: Address = ctx.accounts.collection_pool.key;
    let lender: Address = ctx.accounts.lender.key;
    let counter: u64 = ctx.accounts.collection_pool.data.total_offers;
    let offer: Option<Authority> = derive_authority(
        Seeds::Offer { pool, lender, counter },
        &ctx.program_id,
    );
    let vault: Option<Authority> = derive_authority(
        Seeds::Vault { offer: ctx.accounts.offer_loan.key },
        &ctx.program_id,
    );
    let authority: Option<Authority> = match counter.checked_add(1) {
        Some(next) => derive_authority(
            Seeds::VaultAuthority { pool, lender, counter: next },
            &ctx.program_id,
        ),
        None => None,
    };
    execute(ctx, offer_amount, collection_id, offer, vault, authority)
}

} // verus!
