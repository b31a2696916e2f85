//! Escrowed task marketplace: a publisher locks funds for a task, helpers
//! apply, one helper is accepted, and the custody vault pays the helper and
//! the platform on completion or refunds the publisher on cancellation.
//!
//! The operations at the root work on a registry of posts and help requests
//! and on the wallets of the parties; each finds its records by their keys
//! and leaves the decision to its handler.

use vstd::prelude::*;
use crate::custody::{Transfer, Wallet};
use crate::errors::CoduetError;
use crate::identity::Identity;
use crate::instructions::accept_helper::{accept_helper_handler, accept_refusal, accepted};
use crate::instructions::apply_help::{apply_help_handler, apply_refusal};
use crate::instructions::cancel_post::{cancel_post_handler, cancel_refusal, cancelled};
use crate::instructions::complete_contract::{
    complete_contract_handler,
    complete_refusal,
    completed,
    completion_payments,
};
use crate::instructions::create_post::{create_post_handler, create_refusal, created_post};
use crate::ix_accounts::{AcceptHelper, ApplyHelp, CancelPost, CompleteContract, CreatePost};
use crate::registry::{
    lemma_replaced_post_keeps_ids,
    lemma_replaced_request_keeps_keys,
    Registry,
};
use crate::state::{HelpRequest, Post};
use crate::utils::total_required_of;

pub mod errors;
pub mod utils;
pub mod identity;
pub mod state;
pub mod custody;
pub mod ix_accounts;
pub mod instructions;
pub mod registry;
pub mod laws;

verus! {

/// The accounts of a creation as the registry and the wallets give them.
pub open spec fn creation_accounts(
    registry: Registry,
    publisher: Wallet,
    main_vault: Wallet,
    post_id: u64,
) -> CreatePost {
    CreatePost { publisher, post: registry.post(post_id), main_vault }
}

/// Creates the post `post_id` for the owner of the wallet `publisher`: the
/// deposit moves to the vault and the post enters the registry. An id that
/// the registry holds is refused, and its post is left as it is.
pub fn create_post(
    registry: &mut Registry,
    publisher: &mut Wallet,
    main_vault: &mut Wallet,
    post_id: u64,
    title: String,
    description: String,
    value: u64,
    current_time: i64,
) -> (result: Result<Transfer, CoduetError>)
    requires
        old(registry).well_formed(),
    ensures
        final(registry).well_formed(),
        forall|id: u64| id != post_id ==> #[trigger] final(registry).post(id)
            == old(registry).post(id),
        final(registry).help_requests@ == old(registry).help_requests@,
        match create_refusal(
            creation_accounts(*old(registry), *old(publisher), *old(main_vault), post_id),
            title@,
            description@,
            value,
            current_time,
        ) {
            Some(e) => {
                &&& result == Err::<Transfer, CoduetError>(e)
                &&& final(registry).posts@ == old(registry).posts@
                &&& *final(publisher) == *old(publisher)
                &&& *final(main_vault) == *old(main_vault)
            },
            None => {
                &&& result == Ok::<Transfer, CoduetError>(
                    (Transfer {
                        from: old(publisher).key,
                        to: old(main_vault).key,
                        lamports: total_required_of(value as int) as u64,
                    }),
                )
                &&& final(registry).posts@ == old(registry).posts@.push(
                    created_post(old(publisher).key, post_id, title, description, value, current_time),
                )
                &&& final(registry).post(post_id) == Some(
                    created_post(old(publisher).key, post_id, title, description, value, current_time),
                )
                &&& *final(publisher) == old(publisher).debited(
                    total_required_of(value as int) as u64,
                )
                &&& *final(main_vault) == old(main_vault).credited(
                    total_required_of(value as int) as u64,
                )
            },
        },
        old(registry).post(post_id).is_some() ==> result == Err::<Transfer, CoduetError>(
            CoduetError::InvalidPostId,
        ),
{
    if registry.find_post(post_id).is_some() {
        return Err(CoduetError::InvalidPostId);
    }
    let mut ctx = CreatePost { publisher: *publisher, post: None, main_vault: *main_vault };
    let deposit: Transfer = match create_post_handler(
        &mut ctx,
        post_id,
        title,
        description,
        value,
        current_time,
    ) {
        Ok(t) => t,
        Err(e) => {
            return Err(e);
        },
    };
    let post: Post = ctx.post.unwrap();
    match registry.insert_post(post) {
        Ok(()) => {},
        Err(e) => {
            return Err(e);
        },
    }
    *publisher = ctx.publisher;
    *main_vault = ctx.main_vault;
    Ok(deposit)
}

/// Files the request of `applicant` to the post `post_id`. A second request
/// of the same applicant to the same post is refused.
pub fn apply_help(
    registry: &mut Registry,
    applicant: Identity,
    post_id: u64,
    current_time: i64,
) -> (result: Result<HelpRequest, CoduetError>)
    requires
        old(registry).well_formed(),
    ensures
        final(registry).well_formed(),
        forall|p: u64, a: Identity|
            !(p == post_id && a == applicant) ==> #[trigger] final(registry).help_request(p, a)
                == old(registry).help_request(p, a),
        final(registry).posts@ == old(registry).posts@,
        match old(registry).post(post_id) {
            None => result == Err::<HelpRequest, CoduetError>(CoduetError::PostNotFound)
                && final(registry).help_requests@ == old(registry).help_requests@,
            Some(post) => match apply_refusal(
                (ApplyHelp {
                    applicant,
                    post,
                    help_request: old(registry).help_request(post_id, applicant),
                }),
                post_id,
            ) {
                Some(e) => result == Err::<HelpRequest, CoduetError>(e)
                    && final(registry).help_requests@ == old(registry).help_requests@,
                None => {
                    &&& result == Ok::<HelpRequest, CoduetError>(
                        HelpRequest::pending(post_id, applicant, current_time),
                    )
                    &&& final(registry).help_requests@ == old(registry).help_requests@.push(
                        HelpRequest::pending(post_id, applicant, current_time),
                    )
                    &&& final(registry).help_request(post_id, applicant) == Some(
                        HelpRequest::pending(post_id, applicant, current_time),
                    )
                },
            },
        },
        old(registry).post(post_id).is_some() && old(registry).help_request(
            post_id,
            applicant,
        ).is_some() ==> result == Err::<HelpRequest, CoduetError>(CoduetError::AlreadyApplied),
{
    let i: usize = match registry.find_post(post_id) {
        Some(i) => i,
        None => {
            return Err(CoduetError::PostNotFound);
        },
    };
    let slot: Option<HelpRequest> = registry.get_help_request(post_id, &applicant);
    let post: Post = registry.posts.remove(i);
    let mut ctx = ApplyHelp { applicant, post, help_request: slot };
    let result = apply_help_handler(&mut ctx, post_id, current_time);
    registry.posts.insert(i, ctx.post);
    proof {
        assert(registry.posts@ =~= old(registry).posts@);
    }
    match result {
        Ok(request) => match registry.insert_help_request(request) {
            Ok(()) => Ok(request),
            Err(e) => Err(e),
        },
        Err(e) => Err(e),
    }
}

/// Accepts `applicant` as the helper of the post `post_id` on behalf of the
/// caller `publisher`: the post and the applicant's request change together.
pub fn accept_helper(
    registry: &mut Registry,
    publisher: Identity,
    post_id: u64,
    applicant: Identity,
) -> (result: Result<(), CoduetError>)
    requires
        old(registry).well_formed(),
    ensures
        final(registry).well_formed(),
        forall|id: u64| id != post_id ==> #[trigger] final(registry).post(id)
            == old(registry).post(id),
        forall|p: u64, a: Identity|
            !(p == post_id && a == applicant) ==> #[trigger] final(registry).help_request(p, a)
                == old(registry).help_request(p, a),
        match old(registry).post(post_id) {
            None => {
                &&& result == Err::<(), CoduetError>(CoduetError::PostNotFound)
                &&& final(registry).posts@ == old(registry).posts@
                &&& final(registry).help_requests@ == old(registry).help_requests@
            },
            Some(post) => {
                let ctx = AcceptHelper {
                    publisher,
                    post,
                    help_request: old(registry).help_request(post_id, applicant),
                };
                match accept_refusal(ctx, post_id, applicant) {
                    Some(e) => {
                        &&& result == Err::<(), CoduetError>(e)
                        &&& final(registry).posts@ == old(registry).posts@
                        &&& final(registry).help_requests@ == old(registry).help_requests@
                    },
                    None => {
                        &&& result.is_ok()
                        &&& final(registry).posts@ == old(registry).posts@.update(
                            old(registry).post_index(post_id).unwrap(),
                            accepted(ctx, applicant).post,
                        )
                        &&& final(registry).help_requests@ == old(registry).help_requests@.update(
                            old(registry).help_request_index(post_id, applicant).unwrap(),
                            accepted(ctx, applicant).help_request.unwrap(),
                        )
                        &&& final(registry).post(post_id) == Some(accepted(ctx, applicant).post)
                        &&& final(registry).help_request(post_id, applicant) == accepted(
                            ctx,
                            applicant,
                        ).help_request
                    },
                }
            },
        },
        old(registry).post(post_id).is_some() && old(registry).post(
            post_id,
        ).unwrap().accepted_helper.is_some() ==> result.is_err(),
{
    let i: usize = match registry.find_post(post_id) {
        Some(i) => i,
        None => {
            return Err(CoduetError::PostNotFound);
        },
    };
    let place: Option<usize> = registry.find_help_request(post_id, &applicant);
    let slot: Option<HelpRequest> = match place {
        Some(j) => Some(registry.help_requests[j]),
        None => None,
    };
    let post: Post = registry.posts.remove(i);
    let mut ctx = AcceptHelper { publisher, post, help_request: slot };
    let result = accept_helper_handler(&mut ctx, post_id, applicant);
    registry.posts.insert(i, ctx.post);
    proof {
        assert(registry.posts@ =~= old(registry).posts@.update(i as int, ctx.post));
        lemma_replaced_post_keeps_ids(old(registry).posts@, i as int, ctx.post);
    }
    match result {
        Ok(()) => {
            let j: usize = place.unwrap();
            let decided: HelpRequest = ctx.help_request.unwrap();
            registry.help_requests[j] = decided;
            proof {
                lemma_replaced_request_keeps_keys(old(registry).help_requests@, j as int, decided);
                registry.lemma_post_at(i as int);
                registry.lemma_help_request_at(j as int);
                assert forall|id: u64| id != post_id implies #[trigger] registry.post(id)
                    == old(registry).post(id) by {
                    old(registry).lemma_replaced_post(*registry, i as int, id);
                }
                assert forall|p: u64, a: Identity| !(p == post_id && a == applicant) implies (
                #[trigger] registry.help_request(p, a)) == old(registry).help_request(p, a) by {
                    old(registry).lemma_replaced_help_request(*registry, j as int, p, a);
                }
            }
            Ok(())
        },
        Err(e) => {
            proof {
                assert(registry.posts@ =~= old(registry).posts@);
            }
            Err(e)
        },
    }
}

/// Completes the post `post_id` on behalf of the caller `publisher`: the
/// vault pays the helper and the platform, and the post is marked completed.
pub fn complete_contract(
    registry: &mut Registry,
    publisher: Identity,
    main_vault: &mut Wallet,
    helper: &mut Wallet,
    platform_fee_recipient: &mut Wallet,
    post_id: u64,
) -> (result: Result<(Transfer, Transfer), CoduetError>)
    requires
        old(registry).well_formed(),
    ensures
        final(registry).well_formed(),
        forall|id: u64| id != post_id ==> #[trigger] final(registry).post(id)
            == old(registry).post(id),
        final(registry).help_requests@ == old(registry).help_requests@,
        match old(registry).post(post_id) {
            None => {
                &&& result == Err::<(Transfer, Transfer), CoduetError>(CoduetError::PostNotFound)
                &&& final(registry).posts@ == old(registry).posts@
                &&& *final(main_vault) == *old(main_vault)
                &&& *final(helper) == *old(helper)
                &&& *final(platform_fee_recipient) == *old(platform_fee_recipient)
            },
            Some(post) => {
                let ctx = CompleteContract {
                    publisher,
                    main_vault: *old(main_vault),
                    post,
                    helper: *old(helper),
                    platform_fee_recipient: *old(platform_fee_recipient),
                };
                match complete_refusal(ctx, post_id) {
                    Some(e) => {
                        &&& result == Err::<(Transfer, Transfer), CoduetError>(e)
                        &&& final(registry).posts@ == old(registry).posts@
                        &&& *final(main_vault) == *old(main_vault)
                        &&& *final(helper) == *old(helper)
                        &&& *final(platform_fee_recipient) == *old(platform_fee_recipient)
                    },
                    None => {
                        &&& result == Ok::<(Transfer, Transfer), CoduetError>(
                            completion_payments(ctx),
                        )
                        &&& final(registry).posts@ == old(registry).posts@.update(
                            old(registry).post_index(post_id).unwrap(),
                            completed(ctx).post,
                        )
                        &&& final(registry).post(post_id) == Some(completed(ctx).post)
                        &&& *final(main_vault) == completed(ctx).main_vault
                        &&& *final(helper) == completed(ctx).helper
                        &&& *final(platform_fee_recipient) == completed(ctx).platform_fee_recipient
                    },
                }
            },
        },
{
    let i: usize = match registry.find_post(post_id) {
        Some(i) => i,
        None => {
            return Err(CoduetError::PostNotFound);
        },
    };
    let post: Post = registry.posts.remove(i);
    let mut ctx = CompleteContract {
        publisher,
        main_vault: *main_vault,
        post,
        helper: *helper,
        platform_fee_recipient: *platform_fee_recipient,
    };
    let result = complete_contract_handler(&mut ctx, post_id);
    *main_vault = ctx.main_vault;
    *helper = ctx.helper;
    *platform_fee_recipient = ctx.platform_fee_recipient;
    registry.posts.insert(i, ctx.post);
    proof {
        assert(registry.posts@ =~= old(registry).posts@.update(i as int, ctx.post));
        lemma_replaced_post_keeps_ids(old(registry).posts@, i as int, ctx.post);
        registry.lemma_post_at(i as int);
        assert forall|id: u64| id != post_id implies #[trigger] registry.post(id)
            == old(registry).post(id) by {
            old(registry).lemma_replaced_post(*registry, i as int, id);
        }
        if result.is_err() {
            assert(registry.posts@ =~= old(registry).posts@);
        }
    }
    result
}

/// Cancels the post `post_id` on behalf of the owner of the wallet
/// `publisher`: the vault refunds the value and the post is closed.
pub fn cancel_post(
    registry: &mut Registry,
    publisher: &mut Wallet,
    main_vault: &mut Wallet,
    post_id: u64,
) -> (result: Result<Transfer, CoduetError>)
    requires
        old(registry).well_formed(),
    ensures
        final(registry).well_formed(),
        forall|id: u64| id != post_id ==> #[trigger] final(registry).post(id)
            == old(registry).post(id),
        final(registry).help_requests@ == old(registry).help_requests@,
        match old(registry).post(post_id) {
            None => {
                &&& result == Err::<Transfer, CoduetError>(CoduetError::PostNotFound)
                &&& final(registry).posts@ == old(registry).posts@
                &&& *final(publisher) == *old(publisher)
                &&& *final(main_vault) == *old(main_vault)
            },
            Some(post) => {
                let ctx = CancelPost { publisher: *old(publisher), main_vault: *old(main_vault), post };
                match cancel_refusal(ctx, post_id) {
                    Some(e) => {
                        &&& result == Err::<Transfer, CoduetError>(e)
                        &&& final(registry).posts@ == old(registry).posts@
                        &&& *final(publisher) == *old(publisher)
                        &&& *final(main_vault) == *old(main_vault)
                    },
                    None => {
                        &&& result == Ok::<Transfer, CoduetError>(
                            (Transfer {
                                from: old(main_vault).key,
                                to: old(publisher).key,
                                lamports: post.value,
                            }),
                        )
                        &&& final(registry).posts@ == old(registry).posts@.update(
                            old(registry).post_index(post_id).unwrap(),
                            cancelled(ctx).post,
                        )
                        &&& final(registry).post(post_id) == Some(cancelled(ctx).post)
                        &&& *final(publisher) == cancelled(ctx).publisher
                        &&& *final(main_vault) == cancelled(ctx).main_vault
                    },
                }
            },
        },
{
    let i: usize = match registry.find_post(post_id) {
        Some(i) => i,
        None => {
            return Err(CoduetError::PostNotFound);
        },
    };
    let post: Post = registry.posts.remove(i);
    let mut ctx = CancelPost { publisher: *publisher, main_vault: *main_vault, post };
    let result = cancel_post_handler(&mut ctx, post_id);
    *publisher = ctx.publisher;
    *main_vault = ctx.main_vault;
    registry.posts.insert(i, ctx.post);
    proof {
        assert(registry.posts@ =~= old(registry).posts@.update(i as int, ctx.post));
        lemma_replaced_post_keeps_ids(old(registry).posts@, i as int, ctx.post);
        registry.lemma_post_at(i as int);
        assert forall|id: u64| id != post_id implies #[trigger] registry.post(id)
            == old(registry).post(id) by {
            old(registry).lemma_replaced_post(*registry, i as int, id);
        }
        if result.is_err() {
            assert(registry.posts@ =~= old(registry).posts@);
        }
    }
    result
}

} // verus!
