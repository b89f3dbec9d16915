//! `create_pool`: opens the pool of a collection.

use vstd::prelude::*;
use crate::authority::derive_authority;
use crate::authority::derived;
use crate::authority::Address;
use crate::authority::Authority;
use crate::authority::Seeds;
use crate::errors::ErrorCodes;
use crate::instructions::context::ends_as;
use crate::instructions::context::Context;
use crate::states::account::Account;
use crate::states::account::Signer;
use crate::states::collection_pool::CollectionPool;

verus! {

#[derive(Clone, Copy, Debug, PartialEq, Eq)]
pub struct CreatePool {
    /// The pool's account, with no record in it yet.
    pub collection_pool: Account<Option<CollectionPool>>,
    /// The caller, who becomes the pool's owner.
    pub authority: Signer,
}

/// Why `create_pool` fails, if it does. `pool` is the address derived for the
/// collection's pool.
pub open spec fn failure(
    ctx: Context<CreatePool>,
    collection_id: Address,
    duration: i64,
    pool: Option<Authority>,
) -> Option<ErrorCodes> {
    if pool is None {
        Some(ErrorCodes::AddressNotDerivable)
    } else if ctx.accounts.collection_pool.key != pool->0.address {
        Some(ErrorCodes::ValidationFailure)
    } else if ctx.accounts.collection_pool.data is Some {
        Some(ErrorCodes::AccountAlreadyExists)
    } else {
        None
    }
}

/// The record that `create_pool` writes.
pub open spec fn new_pool(
    ctx: Context<CreatePool>,
    collection_id: Address,
    duration: i64,
    pool: Option<Authority>,
) -> CollectionPool {
    CollectionPool {
        collection_id,
        owner: ctx.accounts.authority.key,
        duration,
        total_offers: 0,
        bump: pool->0.bump,
    }
}

/// The accounts after a `create_pool` that succeeds: the pool holds its new
/// record, and nothing else has changed.
pub open spec fn post(
    ctx: Context<CreatePool>,
    collection_id: Address,
    duration: i64,
    pool: Option<Authority>,
) -> Context<CreatePool> {
    Context {
        accounts: CreatePool {
            collection_pool: Account {
                data: Some(new_pool(ctx, collection_id, duration, pool)),
                ..ctx.accounts.collection_pool
            },
            ..ctx.accounts
        },
        ..ctx
    }
}

/// How `create_pool` ends, given the address derived for the pool.
pub open spec fn outcome(
    ctx: Context<CreatePool>,
    collection_id: Address,
    duration: i64,
    pool: Option<Authority>,
) -> Result<(Context<CreatePool>, ()), ErrorCodes> {
    match failure(ctx, collection_id, duration, pool) {
        Some(e) => Err(e),
        None => Ok((post(ctx, collection_id, duration, pool), ())),
    }
}

/// How `create_pool` ends.
pub open spec fn handled(ctx: Context<CreatePool>, collection_id: Address, duration: i64) -> Result<
    (Context<CreatePool>, ()),
    ErrorCodes,
> {
    outcome(ctx, collection_id, duration, derived(Seeds::Pool { collection_id }, ctx.program_id))
}

/// Creates the pool, given the address derived for it.
pub fn execute(
    ctx: &mut Context<CreatePool>,
    collection_id: Address,
    duration: i64,
    pool: Option<Authority>,
) -> (r: Result<(), ErrorCodes>)
    ensures
        ends_as(*old(ctx), *final(ctx), r, outcome(*old(ctx), collection_id, duration, pool)),
{
    let pool: Authority = match pool {
        Some(p) => p,
        None => {
            return Err(ErrorCodes::AddressNotDerivable);
        },
    };
    if !ctx.accounts.collection_pool.key.same(&pool.address) {
        return Err(ErrorCodes::ValidationFailure);
    }
    if ctx.accounts.collection_pool.data.is_some() {
        return Err(ErrorCodes::AccountAlreadyExists);
    }
    ctx.accounts.collection_pool.data = Some(
        CollectionPool {
            collection_id,
            owner: ctx.accounts.authority.key,
            duration,
            total_offers: 0,
            bump: pool.bump,
        },
    );
    Ok(())
}

/// Creates the pool of `collection_id` at the address derived from
/// `("collection_pool", collection_id)`, owned by the caller, with no offers.
pub fn handler(ctx: &mut Context<CreatePool>, collection_id: Address, duration: i64) -> (r: Result<
    (),
    ErrorCodes,
>)
    ensures
        ends_as(*old(ctx), *final(ctx), r, handled(*old(ctx), collection_id, duration)),
{
    let pool: Option<Authority> = derive_authority(Seeds::Pool { collection_id }, &ctx.program_id);
    execute(ctx, collection_id, duration, pool)
}

} // verus!
