//! Application: a helper asks to take a post's task.

use vstd::prelude::*;
use crate::errors::CoduetError;
use crate::ix_accounts::ApplyHelp;
use crate::state::HelpRequest;

verus! {

/// Why an application is refused, if it is. The tests apply in this order:
/// the post is the one asked for; the applicant has no request to it yet; it
/// is open; it is not completed; the applicant did not publish it.
pub open spec fn apply_refusal(ctx: ApplyHelp, post_id: u64) -> Option<CoduetError> {
    if ctx.post.id != post_id {
        Some(CoduetError::PostNotFound)
    } else if ctx.help_request.is_some() {
        Some(CoduetError::AlreadyApplied)
    } else if !ctx.post.is_open {
        Some(CoduetError::PostNotOpen)
    } else if ctx.post.is_completed {
        Some(CoduetError::PostAlreadyCompleted)
    } else if ctx.post.publisher == ctx.applicant {
        Some(CoduetError::UnauthorizedPublisher)
    } else {
        None
    }
}

/// The accounts after an application that is not refused.
pub open spec fn applied(ctx: ApplyHelp, post_id: u64, current_time: i64) -> ApplyHelp {
    ApplyHelp {
        applicant: ctx.applicant,
        post: ctx.post,
        help_request: Some(HelpRequest::pending(post_id, ctx.applicant, current_time)),
    }
}

/// Files the applicant's request to the post `post_id`, pending and dated
/// `current_time`, and returns it. A refused application changes nothing.
pub fn apply_help_handler(ctx: &mut ApplyHelp, post_id: u64, current_time: i64) -> (result: Result<
    HelpRequest,
    CoduetError,
>)
    ensures
        match apply_refusal(*old(ctx), post_id) {
            Some(e) => result == Err::<HelpRequest, CoduetError>(e) && *final(ctx) == *old(ctx),
            None => result == Ok::<HelpRequest, CoduetError>(
                HelpRequest::pending(post_id, old(ctx).applicant, current_time),
            ) && *final(ctx) == applied(*old(ctx), post_id, current_time),
        },
        old(ctx).post.publisher == old(ctx).applicant ==> result.is_err(),
        old(ctx).help_request.is_some() ==> result.is_err(),
        final(ctx).post == old(ctx).post,
{
    if ctx.post.id != post_id {
        return Err(CoduetError::PostNotFound);
    }
    if ctx.help_request.is_some() {
        return Err(CoduetError::AlreadyApplied);
    }
    if !ctx.post.is_open {
        return Err(CoduetError::PostNotOpen);
    }
    if ctx.post.is_completed {
        return Err(CoduetError::PostAlreadyCompleted);
    }
    if ctx.post.publisher.same_as(&ctx.applicant) {
        return Err(CoduetError::UnauthorizedPublisher);
    }
    let help_request: HelpRequest = HelpRequest::new(post_id, ctx.applicant, current_time);
    ctx.help_request = Some(help_request);
    Ok(help_request)
}

} // verus!
