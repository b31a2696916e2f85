//! Creation: the publisher locks the funds of a task in the vault and the
//! post comes into being.

use vstd::prelude::*;
use crate::custody::{transfer, Transfer, Wallet};
use crate::errors::CoduetError;
use crate::identity::Identity;
use crate::ix_accounts::CreatePost;
use crate::state::{Post, MAX_DESCRIPTION_LEN, MAX_TITLE_LEN, POST_LIFETIME_SECONDS};
use crate::utils::{
    byte_len,
    calculate_platform_fee,
    calculate_total_required_funds,
    overhead,
    platform_fee_of,
    text_len,
    total_fits,
    total_required_of,
};

verus! {

/// Why a creation is refused, if it is. The tests apply in this order: the
/// place of the post is empty; the value is positive; the title and the
/// description are within their bounds; the fee and the deposit fit in 64
/// bits; the publisher has the deposit; the vault is the platform's; the
/// expiry fits in the clock's range; the vault's balance can take the deposit.
pub open spec fn create_refusal(
    ctx: CreatePost,
    title: Seq<char>,
    description: Seq<char>,
    value: u64,
    current_time: i64,
) -> Option<CoduetError> {
    if ctx.post.is_some() {
        Some(CoduetError::InvalidPostId)
    } else if value == 0 {
        Some(CoduetError::InvalidValue)
    } else if text_len(title) > MAX_TITLE_LEN {
        Some(CoduetError::InvalidTitleLength)
    } else if text_len(description) > MAX_DESCRIPTION_LEN {
        Some(CoduetError::InvalidDescriptionLength)
    } else if !total_fits(value) {
        Some(CoduetError::ArithmeticOverflow)
    } else if ctx.publisher.lamports < total_required_of(value as int) {
        Some(CoduetError::InsufficientFunds)
    } else if !ctx.main_vault.key.is_trusted_vault() {
        Some(CoduetError::UnauthorizedPublisher)
    } else if current_time + POST_LIFETIME_SECONDS > i64::MAX {
        Some(CoduetError::ArithmeticOverflow)
    } else if ctx.main_vault.lamports + total_required_of(value as int) > u64::MAX {
        Some(CoduetError::ArithmeticOverflow)
    } else {
        None
    }
}

/// The post that a creation makes: open, without a helper, its fee fixed
/// from its value, expiring thirty days after `current_time`.
pub open spec fn created_post(
    publisher: Identity,
    post_id: u64,
    title: String,
    description: String,
    value: u64,
    current_time: i64,
) -> Post {
    Post {
        id: post_id,
        publisher,
        title,
        description,
        value,
        is_open: true,
        platform_fee: platform_fee_of(value as int) as u64,
        accepted_helper: None,
        is_completed: false,
        created_at: current_time,
        expires_at: (current_time + POST_LIFETIME_SECONDS) as i64,
    }
}

/// Creates the post `post_id`: moves the value, the fee and the overhead
/// from the publisher to the vault and files the post. Returns that deposit.
/// A refused creation changes nothing; a place that holds a post is never
/// written again.
pub fn create_post_handler(
    ctx: &mut CreatePost,
    post_id: u64,
    title: String,
    description: String,
    value: u64,
    current_time: i64,
) -> (result: Result<Transfer, CoduetError>)
    ensures
        match create_refusal(*old(ctx), title@, description@, value, current_time) {
            Some(e) => result == Err::<Transfer, CoduetError>(e) && *final(ctx) == *old(ctx),
            None => {
                &&& result == Ok::<Transfer, CoduetError>(
                    (Transfer {
                        from: old(ctx).publisher.key,
                        to: old(ctx).main_vault.key,
                        lamports: total_required_of(value as int) as u64,
                    }),
                )
                &&& final(ctx).publisher == old(ctx).publisher.debited(
                    total_required_of(value as int) as u64,
                )
                &&& final(ctx).main_vault == old(ctx).main_vault.credited(
                    total_required_of(value as int) as u64,
                )
                &&& final(ctx).post == Some(
                    created_post(
                        old(ctx).publisher.key,
                        post_id,
                        title,
                        description,
                        value,
                        current_time,
                    ),
                )
            },
        },
        result.is_ok() ==> old(ctx).publisher.lamports - final(ctx).publisher.lamports == value
            + platform_fee_of(value as int) + overhead(),
        result.is_ok() ==> final(ctx).main_vault.lamports - old(ctx).main_vault.lamports == value
            + platform_fee_of(value as int) + overhead(),
        result.is_ok() ==> final(ctx).post.unwrap().well_formed(),
        old(ctx).post.is_some() ==> result.is_err() && final(ctx).post == old(ctx).post,
{
    if ctx.post.is_some() {
        return Err(CoduetError::InvalidPostId);
    }
    if value == 0 {
        return Err(CoduetError::InvalidValue);
    }
    if byte_len(title.as_str()) > MAX_TITLE_LEN {
        return Err(CoduetError::InvalidTitleLength);
    }
    if byte_len(description.as_str()) > MAX_DESCRIPTION_LEN {
        return Err(CoduetError::InvalidDescriptionLength);
    }
    let platform_fee: u64 = match calculate_platform_fee(value) {
        Ok(fee) => fee,
        Err(e) => {
            return Err(e);
        },
    };
    let total_required: u64 = match calculate_total_required_funds(value) {
        Ok(total) => total,
        Err(e) => {
            return Err(e);
        },
    };
    if ctx.publisher.lamports < total_required {
        return Err(CoduetError::InsufficientFunds);
    }
    if !ctx.main_vault.key.is_main_vault() {
        return Err(CoduetError::UnauthorizedPublisher);
    }
    let post: Post = match Post::new(
        post_id,
        ctx.publisher.key,
        title,
        description,
        value,
        platform_fee,
        current_time,
    ) {
        Ok(post) => post,
        Err(e) => {
            return Err(e);
        },
    };
    let mut publisher: Wallet = ctx.publisher;
    let mut vault: Wallet = ctx.main_vault;
    let deposit: Transfer = match transfer(&mut publisher, &mut vault, total_required) {
        Ok(t) => t,
        Err(e) => {
            return Err(e);
        },
    };
    ctx.publisher = publisher;
    ctx.main_vault = vault;
    ctx.post = Some(post);
    Ok(deposit)
}

} // verus!
