//! Completion: the vault pays the accepted helper and the platform, and the
//! post is closed.

use vstd::prelude::*;
use crate::custody::{transfer, transfer_refusal, Transfer, Wallet};
use crate::errors::CoduetError;
use crate::ix_accounts::CompleteContract;
use crate::state::Post;

verus! {

/// What the helper of a post is paid: the value less the platform's fee.
pub open spec fn helper_share(post: Post) -> u64
    recommends
        post.value >= post.platform_fee,
{
    (post.value - post.platform_fee) as u64
}

/// Why a completion is refused, if it is. The tests apply in this order: the
/// post is the one asked for; the caller published it; it is not completed;
/// the helper's wallet is that of the accepted helper; the fee does not exceed
/// the value; the vault is the platform's; the vault can pay the helper, and
/// after that the platform.
pub open spec fn complete_refusal(ctx: CompleteContract, post_id: u64) -> Option<CoduetError> {
    if ctx.post.id != post_id {
        Some(CoduetError::PostNotFound)
    } else if ctx.post.publisher != ctx.publisher {
        Some(CoduetError::UnauthorizedPublisher)
    } else if ctx.post.is_completed {
        Some(CoduetError::PostAlreadyCompleted)
    } else if ctx.post.accepted_helper != Some(ctx.helper.key) {
        Some(CoduetError::HelpRequestNotFound)
    } else if ctx.post.value < ctx.post.platform_fee {
        Some(CoduetError::ArithmeticOverflow)
    } else if !ctx.main_vault.key.is_trusted_vault() {
        Some(CoduetError::UnauthorizedPublisher)
    } else {
        match transfer_refusal(ctx.main_vault, ctx.helper, helper_share(ctx.post)) {
            Some(e) => Some(e),
            None => transfer_refusal(
                ctx.main_vault.debited(helper_share(ctx.post)),
                ctx.platform_fee_recipient,
                ctx.post.platform_fee,
            ),
        }
    }
}

/// The accounts after a completion that is not refused.
pub open spec fn completed(ctx: CompleteContract) -> CompleteContract {
    CompleteContract {
        publisher: ctx.publisher,
        main_vault: ctx.main_vault.debited(helper_share(ctx.post)).debited(ctx.post.platform_fee),
        post: Post { is_completed: true, ..ctx.post },
        helper: ctx.helper.credited(helper_share(ctx.post)),
        platform_fee_recipient: ctx.platform_fee_recipient.credited(ctx.post.platform_fee),
    }
}

/// The two payments of a completion, in the order in which they are made.
pub open spec fn completion_payments(ctx: CompleteContract) -> (Transfer, Transfer) {
    (
        Transfer { from: ctx.main_vault.key, to: ctx.helper.key, lamports: helper_share(ctx.post) },
        Transfer {
            from: ctx.main_vault.key,
            to: ctx.platform_fee_recipient.key,
            lamports: ctx.post.platform_fee,
        },
    )
}

/// Completes the post `post_id`: pays the accepted helper the value less the
/// fee, then the platform its fee, both from the vault, and marks the post
/// completed. Returns the two payments. A refused completion changes nothing.
pub fn complete_contract_handler(ctx: &mut CompleteContract, post_id: u64) -> (result: Result<
    (Transfer, Transfer),
    CoduetError,
>)
    ensures
        match complete_refusal(*old(ctx), post_id) {
            Some(e) => result == Err::<(Transfer, Transfer), CoduetError>(e) && *final(ctx)
                == *old(ctx),
            None => result == Ok::<(Transfer, Transfer), CoduetError>(
                completion_payments(*old(ctx)),
            ) && *final(ctx) == completed(*old(ctx)),
        },
        old(ctx).post.is_completed ==> result.is_err(),
        result.is_ok() ==> final(ctx).post.is_completed,
        old(ctx).post.well_formed() ==> final(ctx).post.well_formed(),
{
    if ctx.post.id != post_id {
        return Err(CoduetError::PostNotFound);
    }
    if !ctx.post.publisher.same_as(&ctx.publisher) {
        return Err(CoduetError::UnauthorizedPublisher);
    }
    if ctx.post.is_completed {
        return Err(CoduetError::PostAlreadyCompleted);
    }
    match ctx.post.accepted_helper {
        None => {
            return Err(CoduetError::HelpRequestNotFound);
        },
        Some(helper) => {
            if !helper.same_as(&ctx.helper.key) {
                return Err(CoduetError::HelpRequestNotFound);
            }
        },
    }
    let platform_fee: u64 = ctx.post.platform_fee;
    let helper_amount: u64 = match ctx.post.value.checked_sub(platform_fee) {
        Some(amount) => amount,
        None => {
            return Err(CoduetError::ArithmeticOverflow);
        },
    };
    if !ctx.main_vault.key.is_main_vault() {
        return Err(CoduetError::UnauthorizedPublisher);
    }
    let mut vault: Wallet = ctx.main_vault;
    let mut helper: Wallet = ctx.helper;
    let mut recipient: Wallet = ctx.platform_fee_recipient;
    let to_helper: Transfer = match transfer(&mut vault, &mut helper, helper_amount) {
        Ok(t) => t,
        Err(e) => {
            return Err(e);
        },
    };
    let to_platform: Transfer = match transfer(&mut vault, &mut recipient, platform_fee) {
        Ok(t) => t,
        Err(e) => {
            return Err(e);
        },
    };
    ctx.main_vault = vault;
    ctx.helper = helper;
    ctx.platform_fee_recipient = recipient;
    ctx.post.is_completed = true;
    Ok((to_helper, to_platform))
}

} // verus!
