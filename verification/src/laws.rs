//! What holds of the operations across calls, stated over their refusal
//! functions and the states they leave behind.

use vstd::prelude::*;
use crate::custody::Transfer;
use crate::errors::CoduetError;
use crate::identity::Identity;
use crate::instructions::accept_helper::{accept_refusal, accepted};
use crate::instructions::apply_help::{applied, apply_refusal};
use crate::instructions::cancel_post::{cancel_refusal, cancelled};
use crate::instructions::complete_contract::{
    complete_refusal,
    completed,
    completion_payments,
    helper_share,
};
use crate::instructions::create_post::{create_refusal, created_post};
use crate::ix_accounts::{AcceptHelper, ApplyHelp, CancelPost, CompleteContract, CreatePost};
use crate::state::{
    HelpRequest,
    HelpRequestStatus,
    Post,
    PostPhase,
    MAX_DESCRIPTION_LEN,
    MAX_TITLE_LEN,
    POST_LIFETIME_SECONDS,
};
use crate::utils::{
    overhead,
    platform_fee_of,
    text_len,
    total_fits,
    total_required_of,
    MIN_PLATFORM_FEE,
};

verus! {

/// Whether two posts agree in everything that a post is created with.
pub open spec fn same_terms(before: Post, after: Post) -> bool {
    &&& after.id == before.id
    &&& after.publisher == before.publisher
    &&& after.title == before.title
    &&& after.description == before.description
    &&& after.value == before.value
    &&& after.platform_fee == before.platform_fee
    &&& after.created_at == before.created_at
    &&& after.expires_at == before.expires_at
}

/// The fee is the larger of five percent of the value, rounded down, and the
/// minimum fee; so it is never under the minimum.
pub proof fn law_fee_is_floored(value: u64)
    ensures
        platform_fee_of(value as int) >= MIN_PLATFORM_FEE,
        platform_fee_of(value as int) >= value * 5 / 100,
        platform_fee_of(value as int) == MIN_PLATFORM_FEE || platform_fee_of(value as int) == value
            * 5 / 100,
        overhead() == 20_000,
{
}

/// Whenever five times the value fits in 64 bits, so does the deposit: the
/// multiplication is the only step of the fee arithmetic that can overflow.
pub proof fn law_deposit_fits_when_product_fits(value: u64)
    requires
        value * 5 <= u64::MAX,
    ensures
        total_fits(value),
        total_required_of(value as int) == value + platform_fee_of(value as int) + overhead(),
{
}

/// A creation that is not refused takes from the publisher exactly the
/// value, the fee and the overhead, and the vault gains exactly as much.
pub proof fn law_creation_moves_the_deposit(
    ctx: CreatePost,
    title: Seq<char>,
    description: Seq<char>,
    value: u64,
    current_time: i64,
)
    requires
        create_refusal(ctx, title, description, value, current_time).is_none(),
    ensures
        ctx.publisher.lamports - ctx.publisher.debited(
            total_required_of(value as int) as u64,
        ).lamports == value + platform_fee_of(value as int) + overhead(),
        ctx.main_vault.credited(total_required_of(value as int) as u64).lamports
            - ctx.main_vault.lamports == value + platform_fee_of(value as int) + overhead(),
{
}

/// Once a place holds a post, every creation there is refused, whatever its
/// arguments: a post is never written over.
pub proof fn law_creation_is_refused_on_a_taken_id(
    ctx: CreatePost,
    title: Seq<char>,
    description: Seq<char>,
    value: u64,
    current_time: i64,
)
    requires
        ctx.post.is_some(),
    ensures
        create_refusal(ctx, title, description, value, current_time) == Some(
            CoduetError::InvalidPostId,
        ),
{
}

/// The publisher of a post cannot apply to it. Where the post is the one
/// asked for, open and not completed, and the applicant has not applied
/// before, the refusal is that of authorization.
pub proof fn law_publisher_cannot_apply(ctx: ApplyHelp, post_id: u64)
    requires
        ctx.post.publisher == ctx.applicant,
    ensures
        apply_refusal(ctx, post_id).is_some(),
        ctx.post.id == post_id && ctx.help_request.is_none() && ctx.post.is_open
            && !ctx.post.is_completed ==> apply_refusal(ctx, post_id) == Some(
            CoduetError::UnauthorizedPublisher,
        ),
{
}

/// After an application that is not refused, the same applicant's next
/// application to the same post is refused as a duplicate.
pub proof fn law_second_application_is_refused(ctx: ApplyHelp, post_id: u64, current_time: i64)
    requires
        apply_refusal(ctx, post_id).is_none(),
    ensures
        apply_refusal(applied(ctx, post_id, current_time), post_id) == Some(
            CoduetError::AlreadyApplied,
        ),
{
}

/// A post that has a helper accepts no other; in particular an acceptance
/// that is not refused is refused when it is asked for again.
pub proof fn law_helper_is_accepted_once(
    ctx: AcceptHelper,
    post_id: u64,
    applicant: Identity,
    next_applicant: Identity,
)
    ensures
        ctx.post.accepted_helper.is_some() ==> accept_refusal(ctx, post_id, applicant).is_some(),
        accept_refusal(ctx, post_id, applicant).is_none() ==> accept_refusal(
            accepted(ctx, applicant),
            post_id,
            next_applicant,
        ).is_some(),
{
}

/// An acceptance that is not refused takes the post from open to open with
/// a helper and the request from pending to accepted, and leaves a
/// well-formed post well-formed.
pub proof fn law_acceptance_advances_both_records(
    ctx: AcceptHelper,
    post_id: u64,
    applicant: Identity,
)
    requires
        accept_refusal(ctx, post_id, applicant).is_none(),
    ensures
        ctx.post.phase() == PostPhase::Open,
        accepted(ctx, applicant).post.phase() == PostPhase::OpenWithHelper,
        accepted(ctx, applicant).post.accepted_helper == Some(applicant),
        !accepted(ctx, applicant).post.is_open,
        ctx.help_request.unwrap().status == HelpRequestStatus::Pending,
        accepted(ctx, applicant).help_request.unwrap().status == HelpRequestStatus::Accepted,
        ctx.post.well_formed() ==> accepted(ctx, applicant).post.well_formed(),
{
}

/// A completion that is not refused pays the helper the value less the fee
/// and the platform the fee, so that the vault loses exactly the value; and
/// the same completion asked for again is refused.
pub proof fn law_completion_pays_once(ctx: CompleteContract, post_id: u64)
    requires
        complete_refusal(ctx, post_id).is_none(),
    ensures
        completion_payments(ctx).0.lamports == ctx.post.value - ctx.post.platform_fee,
        completion_payments(ctx).0.to == ctx.post.accepted_helper.unwrap(),
        completion_payments(ctx).1.lamports == ctx.post.platform_fee,
        completed(ctx).helper.lamports == ctx.helper.lamports + helper_share(ctx.post),
        completed(ctx).platform_fee_recipient.lamports == ctx.platform_fee_recipient.lamports
            + ctx.post.platform_fee,
        completed(ctx).main_vault.lamports == ctx.main_vault.lamports - ctx.post.value,
        completed(ctx).post.phase() == PostPhase::Completed,
        complete_refusal(completed(ctx), post_id) == Some(CoduetError::PostAlreadyCompleted),
{
}

/// A post that is completed is never completed again, whoever asks.
pub proof fn law_completed_post_stays_completed(ctx: CompleteContract, post_id: u64)
    requires
        ctx.post.is_completed,
    ensures
        complete_refusal(ctx, post_id).is_some(),
{
}

/// A post with an accepted helper cannot be cancelled. A cancellation that
/// is not refused closes the post, leaves it without a helper, returns the
/// value to the publisher, and cannot be repeated.
pub proof fn law_cancellation_closes_without_helper(ctx: CancelPost, post_id: u64)
    ensures
        ctx.post.accepted_helper.is_some() ==> cancel_refusal(ctx, post_id).is_some(),
        cancel_refusal(ctx, post_id).is_none() ==> {
            &&& !cancelled(ctx).post.is_open
            &&& cancelled(ctx).post.is_completed
            &&& cancelled(ctx).post.accepted_helper.is_none()
            &&& cancelled(ctx).post.phase() == PostPhase::Cancelled
            &&& cancelled(ctx).publisher.lamports == ctx.publisher.lamports + ctx.post.value
            &&& cancelled(ctx).main_vault.lamports == ctx.main_vault.lamports - ctx.post.value
            &&& cancel_refusal(cancelled(ctx), post_id).is_some()
        },
{
}

/// A creation is owed: on a free place, with a positive value, texts within
/// their bounds, a publisher who has the deposit and the platform's vault,
/// it is refused only where the expiry leaves the clock's range or the
/// vault's balance would leave 64 bits.
pub proof fn law_valid_creation_succeeds(
    ctx: CreatePost,
    title: Seq<char>,
    description: Seq<char>,
    value: u64,
    current_time: i64,
)
    requires
        ctx.post.is_none(),
        value > 0,
        text_len(title) <= MAX_TITLE_LEN,
        text_len(description) <= MAX_DESCRIPTION_LEN,
        total_fits(value),
        ctx.publisher.lamports >= total_required_of(value as int),
        ctx.main_vault.key.is_trusted_vault(),
        current_time + POST_LIFETIME_SECONDS <= i64::MAX,
        ctx.main_vault.lamports + total_required_of(value as int) <= u64::MAX,
    ensures
        create_refusal(ctx, title, description, value, current_time).is_none(),
        ctx.publisher.debited(total_required_of(value as int) as u64).lamports
            == ctx.publisher.lamports - (value + platform_fee_of(value as int) + overhead()),
        ctx.main_vault.credited(total_required_of(value as int) as u64).lamports
            == ctx.main_vault.lamports + (value + platform_fee_of(value as int) + overhead()),
{
}

/// An application is owed: to the post asked for, open and not completed,
/// by someone who did not publish it and has not applied to it.
pub proof fn law_valid_application_succeeds(ctx: ApplyHelp, post_id: u64, current_time: i64)
    requires
        ctx.post.id == post_id,
        ctx.help_request.is_none(),
        ctx.post.is_open,
        !ctx.post.is_completed,
        ctx.post.publisher != ctx.applicant,
    ensures
        apply_refusal(ctx, post_id).is_none(),
        applied(ctx, post_id, current_time).help_request == Some(
            HelpRequest::pending(post_id, ctx.applicant, current_time),
        ),
{
}

/// An acceptance is owed: by the publisher, of a pending request of the
/// applicant to the post asked for, while the post is open, not completed
/// and without a helper.
pub proof fn law_valid_acceptance_succeeds(ctx: AcceptHelper, post_id: u64, applicant: Identity)
    requires
        ctx.post.id == post_id,
        ctx.post.publisher == ctx.publisher,
        ctx.post.is_open,
        !ctx.post.is_completed,
        ctx.post.accepted_helper.is_none(),
        ctx.help_request == Some(
            (HelpRequest {
                post_id,
                applicant,
                status: HelpRequestStatus::Pending,
                applied_at: ctx.help_request.unwrap().applied_at,
            }),
        ),
    ensures
        accept_refusal(ctx, post_id, applicant).is_none(),
{
}

/// A completion is owed: by the publisher, of a post that is not completed,
/// to the wallet of its accepted helper, where the fee does not exceed the
/// value and the platform's vault holds the value. It is refused only where
/// a receiving balance would leave 64 bits. Then there are exactly two
/// payments, both from the vault: the value less the fee to the helper, and
/// the fee as the post stores it to the platform.
pub proof fn law_valid_completion_succeeds(ctx: CompleteContract, post_id: u64)
    requires
        ctx.post.id == post_id,
        ctx.post.publisher == ctx.publisher,
        !ctx.post.is_completed,
        ctx.post.accepted_helper == Some(ctx.helper.key),
        ctx.post.value >= ctx.post.platform_fee,
        ctx.main_vault.key.is_trusted_vault(),
        ctx.main_vault.lamports >= ctx.post.value,
        ctx.helper.lamports + (ctx.post.value - ctx.post.platform_fee) <= u64::MAX,
        ctx.platform_fee_recipient.lamports + ctx.post.platform_fee <= u64::MAX,
    ensures
        complete_refusal(ctx, post_id).is_none(),
        completion_payments(ctx) == (
            Transfer {
                from: ctx.main_vault.key,
                to: ctx.helper.key,
                lamports: (ctx.post.value - ctx.post.platform_fee) as u64,
            },
            Transfer {
                from: ctx.main_vault.key,
                to: ctx.platform_fee_recipient.key,
                lamports: ctx.post.platform_fee,
            },
        ),
        completed(ctx).helper.lamports == ctx.helper.lamports + ctx.post.value
            - ctx.post.platform_fee,
        completed(ctx).platform_fee_recipient.lamports == ctx.platform_fee_recipient.lamports
            + ctx.post.platform_fee,
        completed(ctx).post.is_completed,
{
}

/// A cancellation is owed: by the publisher, of an open post that is not
/// completed and has no helper, where the platform's vault holds the value.
/// It is refused only where the publisher's balance would leave 64 bits.
/// Then the one payment is the value, from the vault to the publisher; the
/// fee and the overhead stay in the vault; and the post is closed.
pub proof fn law_valid_cancellation_succeeds(ctx: CancelPost, post_id: u64)
    requires
        ctx.post.id == post_id,
        ctx.post.publisher == ctx.publisher.key,
        ctx.post.is_open,
        !ctx.post.is_completed,
        ctx.post.accepted_helper.is_none(),
        ctx.main_vault.key.is_trusted_vault(),
        ctx.main_vault.lamports >= ctx.post.value,
        ctx.publisher.lamports + ctx.post.value <= u64::MAX,
    ensures
        cancel_refusal(ctx, post_id).is_none(),
        cancelled(ctx).publisher.lamports == ctx.publisher.lamports + ctx.post.value,
        cancelled(ctx).main_vault.lamports == ctx.main_vault.lamports - ctx.post.value,
        !cancelled(ctx).post.is_open,
        cancelled(ctx).post.is_completed,
        cancelled(ctx).post.accepted_helper.is_none(),
{
}

/// What a post was created with never changes: no operation touches its
/// id, publisher, texts, value, fee or dates. Its helper, once set, stays,
/// and a completed post stays completed.
pub proof fn law_posts_keep_their_terms(
    accept: AcceptHelper,
    complete: CompleteContract,
    cancel: CancelPost,
    apply: ApplyHelp,
    post_id: u64,
    applicant: Identity,
    current_time: i64,
)
    ensures
        accept_refusal(accept, post_id, applicant).is_none() ==> same_terms(
            accept.post,
            accepted(accept, applicant).post,
        ) && accept.post.accepted_helper.is_none() && accepted(accept, applicant).post.is_completed
            == accept.post.is_completed,
        complete_refusal(complete, post_id).is_none() ==> same_terms(
            complete.post,
            completed(complete).post,
        ) && completed(complete).post.accepted_helper == complete.post.accepted_helper && completed(
            complete,
        ).post.is_open == complete.post.is_open,
        cancel_refusal(cancel, post_id).is_none() ==> same_terms(
            cancel.post,
            cancelled(cancel).post,
        ) && cancelled(cancel).post.accepted_helper == cancel.post.accepted_helper,
        applied(apply, post_id, current_time).post == apply.post,
{
}

/// The post that a creation files is well-formed and open.
pub proof fn law_created_post_is_well_formed(
    ctx: CreatePost,
    post_id: u64,
    title: String,
    description: String,
    value: u64,
    current_time: i64,
)
    requires
        create_refusal(ctx, title@, description@, value, current_time).is_none(),
    ensures
        created_post(
            ctx.publisher.key,
            post_id,
            title,
            description,
            value,
            current_time,
        ).well_formed(),
        created_post(ctx.publisher.key, post_id, title, description, value, current_time).phase()
            == PostPhase::Open,
        created_post(
            ctx.publisher.key,
            post_id,
            title,
            description,
            value,
            current_time,
        ).platform_fee >= MIN_PLATFORM_FEE,
{
}

/// A completion makes and loses nothing: the balances of the vault, the
/// helper and the platform add up to the same sum before and after.
pub proof fn law_completion_conserves_funds(ctx: CompleteContract, post_id: u64)
    requires
        complete_refusal(ctx, post_id).is_none(),
    ensures
        completed(ctx).main_vault.lamports + completed(ctx).helper.lamports + completed(
            ctx,
        ).platform_fee_recipient.lamports == ctx.main_vault.lamports + ctx.helper.lamports
            + ctx.platform_fee_recipient.lamports,
{
}

} // verus!
