//! Acceptance: the publisher chooses one pending applicant.

use vstd::prelude::*;
use crate::errors::CoduetError;
use crate::identity::Identity;
use crate::ix_accounts::AcceptHelper;
use crate::registry::keyed;
use crate::state::{HelpRequest, HelpRequestStatus, Post};

verus! {

/// Why an acceptance is refused, if it is. The tests apply in this order: the
/// post is the one asked for; the caller published it; it is open; it is not
/// completed; it has no helper yet; there is a request, and it is this
/// applicant's request to this post; the request is pending.
pub open spec fn accept_refusal(ctx: AcceptHelper, post_id: u64, applicant: Identity) -> Option<
    CoduetError,
> {
    if ctx.post.id != post_id {
        Some(CoduetError::PostNotFound)
    } else if ctx.post.publisher != ctx.publisher {
        Some(CoduetError::UnauthorizedPublisher)
    } else if !ctx.post.is_open {
        Some(CoduetError::PostNotOpen)
    } else if ctx.post.is_completed {
        Some(CoduetError::PostAlreadyCompleted)
    } else if ctx.post.accepted_helper.is_some() {
        Some(CoduetError::PostAlreadyHasHelper)
    } else if ctx.help_request.is_none() || !keyed(ctx.help_request.unwrap(), post_id, applicant) {
        Some(CoduetError::HelpRequestNotFound)
    } else if ctx.help_request.unwrap().status != HelpRequestStatus::Pending {
        Some(CoduetError::HelpRequestNotPending)
    } else {
        None
    }
}

/// The accounts after an acceptance that is not refused.
pub open spec fn accepted(ctx: AcceptHelper, applicant: Identity) -> AcceptHelper {
    AcceptHelper {
        publisher: ctx.publisher,
        post: Post { accepted_helper: Some(applicant), is_open: false, ..ctx.post },
        help_request: Some(ctx.help_request.unwrap().decided(HelpRequestStatus::Accepted)),
    }
}

/// Accepts `applicant` as the helper of the post `post_id`: records the
/// helper, closes the post to further applications and marks the request
/// accepted. No funds move. A refused acceptance changes nothing.
pub fn accept_helper_handler(ctx: &mut AcceptHelper, post_id: u64, applicant: Identity) -> (result:
    Result<(), CoduetError>)
    ensures
        match accept_refusal(*old(ctx), post_id, applicant) {
            Some(e) => result == Err::<(), CoduetError>(e) && *final(ctx) == *old(ctx),
            None => result.is_ok() && *final(ctx) == accepted(*old(ctx), applicant),
        },
        old(ctx).post.accepted_helper.is_some() ==> result.is_err(),
        old(ctx).post.well_formed() ==> final(ctx).post.well_formed(),
{
    if ctx.post.id != post_id {
        return Err(CoduetError::PostNotFound);
    }
    if !ctx.post.publisher.same_as(&ctx.publisher) {
        return Err(CoduetError::UnauthorizedPublisher);
    }
    if !ctx.post.is_open {
        return Err(CoduetError::PostNotOpen);
    }
    if ctx.post.is_completed {
        return Err(CoduetError::PostAlreadyCompleted);
    }
    if ctx.post.accepted_helper.is_some() {
        return Err(CoduetError::PostAlreadyHasHelper);
    }
    let mut request: HelpRequest = match ctx.help_request {
        Some(request) => request,
        None => {
            return Err(CoduetError::HelpRequestNotFound);
        },
    };
    if request.post_id != post_id || !request.applicant.same_as(&applicant) {
        return Err(CoduetError::HelpRequestNotFound);
    }
    match request.accept() {
        Ok(()) => {},
        Err(e) => {
            return Err(e);
        },
    }
    ctx.post.accepted_helper = Some(applicant);
    ctx.post.is_open = false;
    ctx.help_request = Some(request);
    Ok(())
}

} // verus!
