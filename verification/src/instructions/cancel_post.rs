//! Cancellation: the vault refunds the publisher and the post is closed
//! without a helper.

use vstd::prelude::*;
use crate::custody::{transfer, transfer_refusal, Transfer, Wallet};
use crate::errors::CoduetError;
use crate::ix_accounts::CancelPost;
use crate::state::Post;

verus! {

/// Why a cancellation is refused, if it is. The tests apply in this order:
/// the post is the one asked for; the caller published it; it is open; it is
/// not completed; it has no accepted helper; the vault is the platform's; the
/// vault can refund the value.
pub open spec fn cancel_refusal(ctx: CancelPost, post_id: u64) -> Option<CoduetError> {
    if ctx.post.id != post_id {
        Some(CoduetError::PostNotFound)
    } else if ctx.post.publisher != ctx.publisher.key {
        Some(CoduetError::UnauthorizedPublisher)
    } else if !ctx.post.is_open {
        Some(CoduetError::PostNotOpen)
    } else if ctx.post.is_completed {
        Some(CoduetError::PostAlreadyCompleted)
    } else if ctx.post.accepted_helper.is_some() {
        Some(CoduetError::CannotCancelWithHelper)
    } else if !ctx.main_vault.key.is_trusted_vault() {
        Some(CoduetError::UnauthorizedPublisher)
    } else {
        transfer_refusal(ctx.main_vault, ctx.publisher, ctx.post.value)
    }
}

/// The accounts after a cancellation that is not refused: the publisher has
/// the value back, the fee and the overhead stay in the vault.
pub open spec fn cancelled(ctx: CancelPost) -> CancelPost {
    CancelPost {
        publisher: ctx.publisher.credited(ctx.post.value),
        main_vault: ctx.main_vault.debited(ctx.post.value),
        post: Post { is_open: false, is_completed: true, ..ctx.post },
    }
}

/// Cancels the post `post_id`: refunds its value to the publisher from the
/// vault and closes the post. The platform's fee is not refunded. Returns the
/// refund. A refused cancellation changes nothing.
pub fn cancel_post_handler(ctx: &mut CancelPost, post_id: u64) -> (result: Result<
    Transfer,
    CoduetError,
>)
    ensures
        match cancel_refusal(*old(ctx), post_id) {
            Some(e) => result == Err::<Transfer, CoduetError>(e) && *final(ctx) == *old(ctx),
            None => result == Ok::<Transfer, CoduetError>(
                (Transfer {
                    from: old(ctx).main_vault.key,
                    to: old(ctx).publisher.key,
                    lamports: old(ctx).post.value,
                }),
            ) && *final(ctx) == cancelled(*old(ctx)),
        },
        old(ctx).post.accepted_helper.is_some() ==> result.is_err(),
        result.is_ok() ==> !final(ctx).post.is_open && final(ctx).post.is_completed
            && final(ctx).post.accepted_helper.is_none(),
        old(ctx).post.well_formed() ==> final(ctx).post.well_formed(),
{
    if ctx.post.id != post_id {
        return Err(CoduetError::PostNotFound);
    }
    if !ctx.post.publisher.same_as(&ctx.publisher.key) {
        return Err(CoduetError::UnauthorizedPublisher);
    }
    if !ctx.post.is_open {
        return Err(CoduetError::PostNotOpen);
    }
    if ctx.post.is_completed {
        return Err(CoduetError::PostAlreadyCompleted);
    }
    if ctx.post.accepted_helper.is_some() {
        return Err(CoduetError::CannotCancelWithHelper);
    }
    let refund_amount: u64 = ctx.post.value;
    if !ctx.main_vault.key.is_main_vault() {
        return Err(CoduetError::UnauthorizedPublisher);
    }
    let mut vault: Wallet = ctx.main_vault;
    let mut publisher: Wallet = ctx.publisher;
    let refund: Transfer = match transfer(&mut vault, &mut publisher, refund_amount) {
        Ok(t) => t,
        Err(e) => {
            return Err(e);
        },
    };
    ctx.main_vault = vault;
    ctx.publisher = publisher;
    ctx.post.is_open = false;
    ctx.post.is_completed = true;
    Ok(refund)
}

} // verus!
