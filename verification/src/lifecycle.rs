//! Laws of the lifecycle, over whole runs of instructions.
//!
//! An offer goes from funded to withdrawn or to matched, and a matched
//! offer's loan goes to repaid or to liquidated. The laws here say that no
//! run of instructions, whatever accounts and arguments each is given, takes
//! one of these steps twice or takes both ways at a fork.

use vstd::prelude::*;
use crate::authority::derived;
use crate::authority::Address;
use crate::authority::Authority;
use crate::instructions::borrow;
use crate::instructions::context::Context;
use crate::instructions::liquidate;
use crate::instructions::offer_loan;
use crate::instructions::repay;
use crate::instructions::withdraw_offer;
use crate::instructions::Borrow;
use crate::instructions::Liquidate;
use crate::instructions::OfferLoan;
use crate::instructions::Repay;
use crate::instructions::WithdrawOffer;
use crate::states::active_loan::ActiveLoan;
use crate::states::collection_pool::CollectionPool;
use crate::states::offer::Offer;

verus! {

/// One instruction that is handed an offer which stays on the ledger, with
/// everything it was called on.
pub enum OfferStep {
    Borrow { ctx: Context<Borrow>, minimum_balance_for_rent_exemption: u64, collection_id: Address },
    Repay { ctx: Context<Repay>, collection_id: Address },
    Liquidate { ctx: Context<Liquidate>, collection_id: Address },
}

impl OfferStep {
    /// The offer as the instruction finds it.
    pub open spec fn before(self) -> Offer {
        match self {
            OfferStep::Borrow { ctx, .. } => ctx.accounts.offer_loan.data,
            OfferStep::Repay { ctx, .. } => ctx.accounts.offer.data,
            OfferStep::Liquidate { ctx, .. } => ctx.accounts.offer.data,
        }
    }

    /// The offer as the instruction leaves it, whether it succeeds or fails.
    pub open spec fn after(self) -> Offer {
        match self {
            OfferStep::Borrow { ctx, minimum_balance_for_rent_exemption, collection_id } => {
                match borrow::handled(ctx, minimum_balance_for_rent_exemption, collection_id) {
                    Ok((post, _)) => post.accounts.offer_loan.data,
                    Err(_) => ctx.accounts.offer_loan.data,
                }
            },
            OfferStep::Repay { ctx, collection_id } => {
                match repay::handled(ctx, collection_id) {
                    Ok((post, _)) => post.accounts.offer.data,
                    Err(_) => ctx.accounts.offer.data,
                }
            },
            OfferStep::Liquidate { ctx, collection_id } => {
                match liquidate::handled(ctx, collection_id) {
                    Ok((post, _)) => post.accounts.offer.data,
                    Err(_) => ctx.accounts.offer.data,
                }
            },
        }
    }

    /// Whether this instruction turns `is_loan_taken` from false to true.
    pub open spec fn takes(self) -> bool {
        !self.before().is_loan_taken && self.after().is_loan_taken
    }
}

/// A run of instructions on one offer: each finds the offer as the one
/// before it left it.
pub open spec fn is_offer_run(steps: Seq<OfferStep>) -> bool {
    forall|i: int|
        #![trigger steps[i]]
        0 <= i < steps.len() - 1 ==> steps[i].after() == steps[i + 1].before()
}

/// How often `is_loan_taken` turns from false to true in a run.
pub open spec fn times_taken(steps: Seq<OfferStep>) -> nat
    decreases steps.len(),
{
    if steps.len() == 0 {
        0
    } else {
        times_taken(steps.drop_last()) + if steps.last().takes() {
            1nat
        } else {
            0nat
        }
    }
}

/// No instruction does more to an offer than match it, and none unmatches
/// it.
pub proof fn lemma_offer_step(step: OfferStep)
    ensures
        step.before().steps_to(step.after()),
        step.before().is_loan_taken ==> step.after() == step.before(),
{
}

proof fn lemma_offer_run(steps: Seq<OfferStep>)
    requires
        is_offer_run(steps),
    ensures
        times_taken(steps) <= 1,
        steps.len() > 0 && times_taken(steps) == 1 ==> steps.last().after().is_loan_taken,
    decreases steps.len(),
{
    if steps.len() > 0 {
        let front = steps.drop_last();
        assert forall|i: int| #![trigger front[i]] 0 <= i < front.len() - 1 implies front[i].after()
            == front[i + 1].before() by {
            assert(front[i] == steps[i]);
            assert(front[i + 1] == steps[i + 1]);
        }
        lemma_offer_run(front);
        lemma_offer_step(steps.last());
        if front.len() > 0 {
            assert(front.last() == steps[steps.len() - 2]);
            assert(steps[steps.len() - 2].after() == steps[steps.len() - 2 + 1].before());
        }
    }
}

/// Across any run of instructions on an offer, `is_loan_taken` turns from
/// false to true at most once.
pub proof fn lemma_offer_taken_at_most_once(steps: Seq<OfferStep>)
    requires
        is_offer_run(steps),
    ensures
        times_taken(steps) <= 1,
{
    lemma_offer_run(steps);
}

/// An offer leaves the ledger only while it is open: `withdraw_offer` closes
/// no matched offer, and what `offer_loan` creates is open.
pub proof fn lemma_offer_opens_and_closes_unmatched(
    opened: Context<OfferLoan>,
    offer_amount: u64,
    closed: Context<WithdrawOffer>,
    minimum_balance_for_rent_exemption: u64,
    collection_id: Address,
)
    ensures
        offer_loan::handled(opened, offer_amount, collection_id) matches Ok((post, _))
            ==> offer_loan::created(post, offer_amount),
        withdraw_offer::handled(closed, minimum_balance_for_rent_exemption, collection_id)
            matches Ok((post, _)) ==> {
            &&& closed.accounts.offer_loan.data matches Some(offer)
            &&& !offer.is_loan_taken
            &&& post.accounts.offer_loan.data is None
        },
{
}

/// An offer is recorded with what is owed on it and with no borrower, and no
/// instruction changes what is owed.
pub proof fn lemma_offer_stays_well_formed(
    opened: Context<OfferLoan>,
    offer_amount: u64,
    collection_id: Address,
    step: OfferStep,
)
    ensures
        offer_loan::handled(opened, offer_amount, collection_id) matches Ok((post, _))
            ==> post.accounts.offer_loan.data matches Some(offer) && offer.wf(),
        step.before().wf() ==> step.after().wf(),
        step.after().repay_amount == step.before().repay_amount,
        step.after().offer_amount == step.before().offer_amount,
        step.after().lender == step.before().lender,
{
}

/// The pool's counter goes up by one with each offer and down by one with
/// each withdrawal. No other instruction touches the pool.
pub proof fn lemma_pool_counts_offers(
    opened: Context<OfferLoan>,
    offer_amount: u64,
    closed: Context<WithdrawOffer>,
    borrowed: Context<Borrow>,
    repaid: Context<Repay>,
    liquidated: Context<Liquidate>,
    minimum_balance_for_rent_exemption: u64,
    collection_id: Address,
)
    ensures
        offer_loan::handled(opened, offer_amount, collection_id) matches Ok((post, _)) ==> {
            &&& post.accounts.collection_pool.data.total_offers
                == opened.accounts.collection_pool.data.total_offers + 1
            &&& post.accounts.collection_pool.data == (CollectionPool {
                total_offers: post.accounts.collection_pool.data.total_offers,
                ..opened.accounts.collection_pool.data
            })
        },
        withdraw_offer::handled(closed, minimum_balance_for_rent_exemption, collection_id)
            matches Ok((post, _)) ==> {
            &&& post.accounts.collection_pool.data.total_offers
                == closed.accounts.collection_pool.data.total_offers - 1
            &&& post.accounts.collection_pool.data == (CollectionPool {
                total_offers: post.accounts.collection_pool.data.total_offers,
                ..closed.accounts.collection_pool.data
            })
        },
        borrow::handled(borrowed, minimum_balance_for_rent_exemption, collection_id) matches Ok(
            (post, _),
        ) ==> post.accounts.collection_pool == borrowed.accounts.collection_pool,
        repay::handled(repaid, collection_id) matches Ok((post, _))
            ==> post.accounts.collection_pool == repaid.accounts.collection_pool,
        liquidate::handled(liquidated, collection_id) matches Ok((post, _))
            ==> post.accounts.collection_pool == liquidated.accounts.collection_pool,
{
}

/// From the moment a vault holds anything, a derived authority controls it:
/// the principal's vault from `offer_loan` on, the collateral's from
/// `borrow` on. And nothing leaves a vault but under the authority that
/// controls it.
pub proof fn lemma_vaults_are_under_derived_authority(
    opened: Context<OfferLoan>,
    offer_amount: u64,
    closed: Context<WithdrawOffer>,
    borrowed: Context<Borrow>,
    repaid: Context<Repay>,
    liquidated: Context<Liquidate>,
    minimum_balance_for_rent_exemption: u64,
    collection_id: Address,
)
    ensures
        offer_loan::handled(opened, offer_amount, collection_id) matches Ok((post, _)) ==> {
            &&& post.accounts.offer_token_account.data matches Some(vault)
            &&& derived(opened.accounts.authority_seeds(), opened.program_id) matches Some(authority)
            &&& vault.authority == authority.address
        },
        withdraw_offer::handled(closed, minimum_balance_for_rent_exemption, collection_id)
            matches Ok((_, receipt)) ==> {
            &&& closed.accounts.vault_account.data matches Some(vault)
            &&& derived(closed.accounts.authority_seeds(), closed.program_id) matches Some(authority)
            &&& vault.authority == authority.address
            &&& receipt.transfer_to_lender.context.signer == Some(authority)
        },
        borrow::handled(borrowed, minimum_balance_for_rent_exemption, collection_id) matches Ok(
            (post, receipt),
        ) ==> {
            &&& post.accounts.vault_asset_account.data matches Some(vault)
            &&& derived(borrowed.accounts.authority_seeds(), borrowed.program_id) matches Some(
                authority,
            )
            &&& vault.owner == authority.address
            &&& borrowed.accounts.vault_token_account.data.authority == authority.address
            &&& post.accounts.vault_token_account.data == borrowed.accounts.vault_token_account.data
            &&& receipt.transfer_to_borrower.context.signer == Some(authority)
        },
        repay::handled(repaid, collection_id) matches Ok((post, receipt)) ==> {
            &&& derived(repaid.accounts.authority_seeds(), repaid.program_id) matches Some(authority)
            &&& repaid.accounts.vault_asset_account.data.owner == authority.address
            &&& post.accounts.vault_asset_account.data.owner == authority.address
            &&& receipt.transfer_asset.context.signer == Some(authority)
        },
        liquidate::handled(liquidated, collection_id) matches Ok((post, receipt)) ==> {
            &&& derived(liquidated.accounts.authority_seeds(), liquidated.program_id) matches Some(
                authority,
            )
            &&& liquidated.accounts.vault_asset_account.data.owner == authority.address
            &&& post.accounts.vault_asset_account.data.owner == authority.address
            &&& receipt.transfer_asset_to_lender.context.signer == Some(authority)
        },
{
}

/// One instruction that settles a loan, with everything it was called on.
pub enum Settlement {
    Repay { ctx: Context<Repay>, collection_id: Address },
    Liquidate { ctx: Context<Liquidate>, collection_id: Address },
}

impl Settlement {
    /// The loan as the instruction finds it.
    pub open spec fn loan_before(self) -> ActiveLoan {
        match self {
            Settlement::Repay { ctx, .. } => ctx.accounts.active_loan.data,
            Settlement::Liquidate { ctx, .. } => ctx.accounts.active_loan.data,
        }
    }

    /// Whether the instruction succeeds.
    pub open spec fn succeeds(self) -> bool {
        match self {
            Settlement::Repay { ctx, collection_id } => repay::handled(ctx, collection_id) is Ok,
            Settlement::Liquidate { ctx, collection_id } => liquidate::handled(
                ctx,
                collection_id,
            ) is Ok,
        }
    }

    /// The loan as the instruction leaves it, whether it succeeds or fails.
    pub open spec fn loan_after(self) -> ActiveLoan {
        match self {
            Settlement::Repay { ctx, collection_id } => {
                match repay::handled(ctx, collection_id) {
                    Ok((post, _)) => post.accounts.active_loan.data,
                    Err(_) => ctx.accounts.active_loan.data,
                }
            },
            Settlement::Liquidate { ctx, collection_id } => {
                match liquidate::handled(ctx, collection_id) {
                    Ok((post, _)) => post.accounts.active_loan.data,
                    Err(_) => ctx.accounts.active_loan.data,
                }
            },
        }
    }
}

/// A run of settling instructions on one loan: each finds the loan as the
/// one before it left it. Nothing is asked of the other accounts that each
/// is handed.
pub open spec fn is_settlement_run(steps: Seq<Settlement>) -> bool {
    forall|i: int|
        #![trigger steps[i]]
        0 <= i < steps.len() - 1 ==> steps[i].loan_after() == steps[i + 1].loan_before()
}

/// `borrow` records the loan as neither repaid nor liquidated and leaves one
/// unit of collateral in its vault.
pub proof fn lemma_borrow_opens_loan(
    ctx: Context<Borrow>,
    minimum_balance_for_rent_exemption: u64,
    collection_id: Address,
)
    ensures
        borrow::handled(ctx, minimum_balance_for_rent_exemption, collection_id) matches Ok(
            (post, _),
        ) ==> {
            &&& post.accounts.active_loan.data matches Some(loan)
            &&& post.accounts.vault_asset_account.data matches Some(vault)
            &&& loan.is_open()
            &&& loan.wf()
            &&& vault.amount == 1
        },
{
}

/// Whatever accounts it is handed, a settlement succeeds only on a loan that
/// is neither repaid nor liquidated, and then leaves exactly the one mark:
/// `is_repaid` after `repay`, `is_liquidated` after `liquidate`. A
/// settlement that fails leaves the loan as it was.
pub proof fn lemma_settlement_marks_one(step: Settlement)
    ensures
        step.succeeds() ==> step.loan_before().is_open(),
        step.succeeds() ==> step.loan_after().is_repaid != step.loan_after().is_liquidated,
        step.succeeds() && step is Repay ==> step.loan_after().is_repaid
            && !step.loan_after().is_liquidated,
        step.succeeds() && step is Liquidate ==> step.loan_after().is_liquidated
            && !step.loan_after().is_repaid,
        !step.succeeds() ==> step.loan_after() == step.loan_before(),
        step.loan_before().wf() ==> step.loan_after().wf(),
{
}

/// A settlement changes nothing of a loan but its two marks, and takes
/// neither back: the parties, the collateral and the due time stay as
/// `borrow` recorded them.
pub proof fn lemma_settlement_keeps_terms(step: Settlement)
    ensures
        step.loan_after() == (ActiveLoan {
            is_repaid: step.loan_after().is_repaid,
            is_liquidated: step.loan_after().is_liquidated,
            ..step.loan_before()
        }),
        step.loan_before().is_repaid ==> step.loan_after().is_repaid,
        step.loan_before().is_liquidated ==> step.loan_after().is_liquidated,
{
}

/// In a run, a loan that is no longer open at step `i` is not open at any
/// later step either.
proof fn lemma_settled_stays_settled(steps: Seq<Settlement>, i: int, j: int)
    requires
        is_settlement_run(steps),
        0 <= i <= j < steps.len(),
        !steps[i].loan_after().is_open(),
    ensures
        !steps[j].loan_after().is_open(),
        i < j ==> !steps[j].loan_before().is_open(),
    decreases j - i,
{
    if i < j {
        lemma_settled_stays_settled(steps, i, j - 1);
        assert(steps[j - 1].loan_after() == steps[j - 1 + 1].loan_before());
        lemma_settlement_keeps_terms(steps[j]);
    }
}

/// In a run on a loan that does not carry both marks, no step leaves both.
proof fn lemma_marks_stay_apart(steps: Seq<Settlement>, k: int)
    requires
        is_settlement_run(steps),
        0 <= k < steps.len(),
        steps[0].loan_before().wf(),
    ensures
        steps[k].loan_before().wf(),
        steps[k].loan_after().wf(),
    decreases k,
{
    if k > 0 {
        lemma_marks_stay_apart(steps, k - 1);
        assert(steps[k - 1].loan_after() == steps[k - 1 + 1].loan_before());
    }
    lemma_settlement_marks_one(steps[k]);
}

/// Across any run of settling instructions on a loan, whatever accounts and
/// arguments each is given: at most one of them succeeds, and after it
/// exactly one of `is_repaid` and `is_liquidated` is set. If the loan does
/// not carry both marks when the run begins, it carries both at no point of
/// the run.
pub proof fn lemma_loan_settles_once(steps: Seq<Settlement>)
    requires
        is_settlement_run(steps),
    ensures
        forall|i: int|
            0 <= i < steps.len() && (#[trigger] steps[i]).succeeds() ==> steps[i].loan_after().is_repaid
                != steps[i].loan_after().is_liquidated,
        forall|i: int, j: int|
            0 <= i < j < steps.len() && (#[trigger] steps[i]).succeeds() ==> !(
            #[trigger] steps[j]).succeeds(),
        steps.len() > 0 && steps[0].loan_before().wf() ==> forall|i: int|
            0 <= i < steps.len() ==> (#[trigger] steps[i]).loan_after().wf(),
{
    assert forall|i: int| 0 <= i < steps.len() && (#[trigger] steps[i]).succeeds() implies steps[i].loan_after().is_repaid
        != steps[i].loan_after().is_liquidated by {
        lemma_settlement_marks_one(steps[i]);
    }
    assert forall|i: int, j: int|
        0 <= i < j < steps.len() && (#[trigger] steps[i]).succeeds() implies !(
    #[trigger] steps[j]).succeeds() by {
        lemma_settlement_marks_one(steps[i]);
        lemma_settled_stays_settled(steps, i, j);
        lemma_settlement_marks_one(steps[j]);
    }
    if steps.len() > 0 && steps[0].loan_before().wf() {
        assert forall|i: int| 0 <= i < steps.len() implies (#[trigger] steps[i]).loan_after().wf() by {
            lemma_marks_stay_apart(steps, i);
        }
    }
}

/// When `borrow` owes success: on an open offer it succeeds once every other
/// test of it passes, and it marks the offer as taken by the caller.
pub proof fn lemma_borrow_succeeds(
    ctx: Context<Borrow>,
    minimum_balance_for_rent_exemption: u64,
    collection_id: Address,
    loan: Authority,
    collateral: Authority,
    authority: Authority,
)
    requires
        !ctx.accounts.offer_loan.data.is_loan_taken,
        borrow::amounts_fit(ctx, minimum_balance_for_rent_exemption),
        borrow::accounts_valid(ctx, collection_id, loan, collateral, authority),
        ctx.accounts.active_loan.data is None,
        ctx.accounts.vault_asset_account.data is None,
    ensures
        borrow::outcome(
            ctx,
            minimum_balance_for_rent_exemption,
            collection_id,
            Some(loan),
            Some(collateral),
            Some(authority),
        ) matches Ok((post, _)) && {
            &&& post.accounts.offer_loan.data.is_loan_taken
            &&& post.accounts.offer_loan.data.borrower == ctx.accounts.borrower.key
        },
{
}

/// When `repay` owes success: on a loan that is neither repaid nor
/// liquidated it succeeds once every other test of it passes, and it leaves
/// the loan repaid and not liquidated.
pub proof fn lemma_repay_succeeds(ctx: Context<Repay>, collection_id: Address, authority: Authority)
    requires
        ctx.accounts.active_loan.data.is_open(),
        repay::amounts_fit(ctx),
        repay::accounts_valid(ctx, collection_id, authority),
    ensures
        repay::outcome(ctx, collection_id, Some(authority)) matches Ok((post, _)) && {
            &&& post.accounts.active_loan.data.is_repaid
            &&& !post.accounts.active_loan.data.is_liquidated
        },
{
}

/// When `liquidate` owes success: on an overdue loan that is neither repaid
/// nor liquidated it succeeds once every other test of it passes, and it
/// leaves the loan liquidated and not repaid.
pub proof fn lemma_liquidate_succeeds(
    ctx: Context<Liquidate>,
    collection_id: Address,
    authority: Authority,
)
    requires
        ctx.accounts.active_loan.data.is_open(),
        ctx.accounts.active_loan.data.is_overdue(ctx.accounts.clock.unix_timestamp),
        liquidate::amounts_fit(ctx),
        liquidate::accounts_valid(ctx, collection_id, authority),
    ensures
        liquidate::outcome(ctx, collection_id, Some(authority)) matches Ok((post, _)) && {
            &&& post.accounts.active_loan.data.is_liquidated
            &&& !post.accounts.active_loan.data.is_repaid
        },
{
}

} // verus!
