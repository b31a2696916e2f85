use anchor_lang::prelude::Pubkey;
use coduet::custody::{Transfer, Wallet};
use coduet::errors::CoduetError;
use coduet::identity::Identity;
use coduet::instructions::accept_helper::accept_helper_handler;
use coduet::instructions::apply_help::apply_help_handler;
use coduet::instructions::cancel_post::cancel_post_handler;
use coduet::instructions::complete_contract::complete_contract_handler;
use coduet::instructions::create_post::create_post_handler;
use coduet::ix_accounts::{AcceptHelper, ApplyHelp, CancelPost, CompleteContract, CreatePost};
use coduet::state::{HelpRequest, HelpRequestStatus, Post};
use coduet::utils::MAIN_VAULT_PUBKEY;
use std::str::FromStr;

fn who(tag: u8) -> Identity {
    Identity::new([tag; 32])
}

fn vault_key() -> Identity {
    Identity::new(Pubkey::from_str(MAIN_VAULT_PUBKEY).unwrap().to_bytes())
}

fn open_post(id: u64, publisher: Identity, value: u64, fee: u64) -> Post {
    Post::new(id, publisher, "task".to_string(), "do it".to_string(), value, fee, 1_000).unwrap()
}

fn creation(balance: u64) -> CreatePost {
    CreatePost {
        publisher: Wallet::new(who(1), balance),
        post: None,
        main_vault: Wallet::new(vault_key(), 500),
    }
}

#[test]
fn creation_locks_value_fee_and_overhead() {
    let mut ctx = creation(200_000);
    let moved =
        create_post_handler(&mut ctx, 7, "task".to_string(), "do it".to_string(), 100_000, 1_000);
    assert_eq!(moved, Ok(Transfer { from: who(1), to: vault_key(), lamports: 125_000 }));
    assert_eq!(ctx.publisher.lamports, 75_000);
    assert_eq!(ctx.main_vault.lamports, 125_500);
    let post = ctx.post.unwrap();
    assert_eq!(post, open_post(7, who(1), 100_000, 5000));
    assert_eq!(post.platform_fee, 5000);
    assert!(post.is_open);
    assert!(!post.is_completed);
    assert_eq!(post.expires_at, 1_000 + 2_592_000);
}

#[test]
fn creation_with_the_exact_balance_succeeds() {
    let mut ctx = creation(125_000);
    assert!(create_post_handler(&mut ctx, 7, String::new(), String::new(), 100_000, 0).is_ok());
    assert_eq!(ctx.publisher.lamports, 0);
    let mut short = creation(124_999);
    assert_eq!(
        create_post_handler(&mut short, 7, String::new(), String::new(), 100_000, 0),
        Err(CoduetError::InsufficientFunds)
    );
    assert_eq!(short, creation(124_999));
}

#[test]
fn creation_refusals_in_their_order() {
    let t = || "t".to_string();
    let mut ctx = creation(1_000_000);
    assert_eq!(
        create_post_handler(&mut ctx, 7, "x".repeat(101), "y".repeat(501), 0, 0),
        Err(CoduetError::InvalidValue)
    );
    assert_eq!(
        create_post_handler(&mut ctx, 7, "x".repeat(101), "y".repeat(501), 10, 0),
        Err(CoduetError::InvalidTitleLength)
    );
    assert_eq!(
        create_post_handler(&mut ctx, 7, "x".repeat(100), "y".repeat(501), 10, 0),
        Err(CoduetError::InvalidDescriptionLength)
    );
    assert_eq!(
        create_post_handler(&mut ctx, 7, t(), t(), u64::MAX, 0),
        Err(CoduetError::ArithmeticOverflow)
    );
    assert_eq!(
        create_post_handler(&mut ctx, 7, t(), t(), 10_000_000, 0),
        Err(CoduetError::InsufficientFunds)
    );
    assert_eq!(
        create_post_handler(&mut ctx, 7, t(), t(), 10, i64::MAX),
        Err(CoduetError::ArithmeticOverflow)
    );
    assert_eq!(ctx, creation(1_000_000));

    let mut rogue = creation(1_000_000);
    rogue.main_vault.key = who(9);
    assert_eq!(
        create_post_handler(&mut rogue, 7, t(), t(), 10, 0),
        Err(CoduetError::UnauthorizedPublisher)
    );
    assert_eq!(rogue.publisher.lamports, 1_000_000);
    assert_eq!(rogue.post, None);

    let mut full = creation(1_000_000);
    full.main_vault.lamports = u64::MAX - 21_009;
    assert_eq!(
        create_post_handler(&mut full, 7, t(), t(), 10, 0),
        Err(CoduetError::ArithmeticOverflow)
    );
    assert_eq!(full.publisher.lamports, 1_000_000);
}

#[test]
fn creation_never_overwrites_a_post() {
    let mut ctx = creation(1_000_000);
    assert!(create_post_handler(&mut ctx, 7, "a".to_string(), "b".to_string(), 100_000, 5).is_ok());
    let after_first = ctx.clone();
    assert_eq!(
        create_post_handler(&mut ctx, 7, "c".to_string(), "d".to_string(), 200_000, 6),
        Err(CoduetError::InvalidPostId)
    );
    assert_eq!(ctx, after_first);
}

#[test]
fn application_is_pending_and_dated() {
    let mut ctx = ApplyHelp { applicant: who(2), post: open_post(7, who(1), 100, 1000), help_request: None };
    let made = apply_help_handler(&mut ctx, 7, 42).unwrap();
    assert_eq!(made, HelpRequest::new(7, who(2), 42));
    assert_eq!(made.status, HelpRequestStatus::Pending);
    assert_eq!(ctx.help_request, Some(made));
    assert_eq!(ctx.post, open_post(7, who(1), 100, 1000));
}

#[test]
fn application_by_the_publisher_is_unauthorized() {
    let mut ctx = ApplyHelp { applicant: who(1), post: open_post(7, who(1), 100, 1000), help_request: None };
    assert_eq!(apply_help_handler(&mut ctx, 7, 42), Err(CoduetError::UnauthorizedPublisher));
    assert_eq!(ctx.help_request, None);
}

#[test]
fn second_application_is_a_duplicate() {
    let mut ctx = ApplyHelp { applicant: who(2), post: open_post(7, who(1), 100, 1000), help_request: None };
    assert!(apply_help_handler(&mut ctx, 7, 42).is_ok());
    assert_eq!(apply_help_handler(&mut ctx, 7, 43), Err(CoduetError::AlreadyApplied));
    assert_eq!(ctx.help_request, Some(HelpRequest::new(7, who(2), 42)));
}

#[test]
fn application_refusals_in_their_order() {
    let mut closed = open_post(7, who(1), 100, 1000);
    closed.is_open = false;
    let mut ctx = ApplyHelp { applicant: who(1), post: closed, help_request: None };
    assert_eq!(apply_help_handler(&mut ctx, 8, 0), Err(CoduetError::PostNotFound));
    assert_eq!(apply_help_handler(&mut ctx, 7, 0), Err(CoduetError::PostNotOpen));
    let mut done = open_post(7, who(1), 100, 1000);
    done.is_completed = true;
    let mut ctx = ApplyHelp { applicant: who(1), post: done, help_request: None };
    assert_eq!(apply_help_handler(&mut ctx, 7, 0), Err(CoduetError::PostAlreadyCompleted));
}

fn acceptance(caller: Identity, request: Option<HelpRequest>) -> AcceptHelper {
    AcceptHelper { publisher: caller, post: open_post(7, who(1), 100_000, 5000), help_request: request }
}

#[test]
fn acceptance_changes_post_and_request_together() {
    let mut ctx = acceptance(who(1), Some(HelpRequest::new(7, who(2), 42)));
    assert_eq!(accept_helper_handler(&mut ctx, 7, who(2)), Ok(()));
    assert_eq!(ctx.post.accepted_helper, Some(who(2)));
    assert!(!ctx.post.is_open);
    assert!(!ctx.post.is_completed);
    assert_eq!(ctx.help_request.unwrap().status, HelpRequestStatus::Accepted);
    assert_eq!(ctx.help_request.unwrap().applied_at, 42);
}

#[test]
fn acceptance_refusals_in_their_order() {
    let request = HelpRequest::new(7, who(2), 42);
    let mut ctx = acceptance(who(3), Some(request));
    assert_eq!(accept_helper_handler(&mut ctx, 8, who(2)), Err(CoduetError::PostNotFound));
    assert_eq!(accept_helper_handler(&mut ctx, 7, who(2)), Err(CoduetError::UnauthorizedPublisher));
    assert_eq!(ctx, acceptance(who(3), Some(request)));

    let mut ctx = acceptance(who(1), Some(request));
    ctx.post.is_open = false;
    assert_eq!(accept_helper_handler(&mut ctx, 7, who(2)), Err(CoduetError::PostNotOpen));
    ctx.post.is_open = true;
    ctx.post.is_completed = true;
    assert_eq!(accept_helper_handler(&mut ctx, 7, who(2)), Err(CoduetError::PostAlreadyCompleted));
    ctx.post.is_completed = false;
    ctx.post.accepted_helper = Some(who(4));
    assert_eq!(accept_helper_handler(&mut ctx, 7, who(2)), Err(CoduetError::PostAlreadyHasHelper));

    let mut ctx = acceptance(who(1), None);
    assert_eq!(accept_helper_handler(&mut ctx, 7, who(2)), Err(CoduetError::HelpRequestNotFound));
    let mut ctx = acceptance(who(1), Some(request));
    assert_eq!(accept_helper_handler(&mut ctx, 7, who(3)), Err(CoduetError::HelpRequestNotFound));
    let mut ctx = acceptance(who(1), Some(HelpRequest::new(8, who(2), 42)));
    assert_eq!(accept_helper_handler(&mut ctx, 7, who(2)), Err(CoduetError::HelpRequestNotFound));

    let mut rejected = request;
    assert_eq!(rejected.reject(), Ok(()));
    let mut ctx = acceptance(who(1), Some(rejected));
    assert_eq!(accept_helper_handler(&mut ctx, 7, who(2)), Err(CoduetError::HelpRequestNotPending));
    assert_eq!(ctx, acceptance(who(1), Some(rejected)));
}

#[test]
fn second_acceptance_fails() {
    let mut ctx = acceptance(who(1), Some(HelpRequest::new(7, who(2), 42)));
    assert_eq!(accept_helper_handler(&mut ctx, 7, who(2)), Ok(()));
    let after = ctx.clone();
    assert_eq!(accept_helper_handler(&mut ctx, 7, who(2)), Err(CoduetError::PostNotOpen));
    assert_eq!(ctx, after);
}

fn completion(caller: Identity, vault_balance: u64) -> CompleteContract {
    let mut post = open_post(7, who(1), 100_000, 5000);
    post.is_open = false;
    post.accepted_helper = Some(who(2));
    CompleteContract {
        publisher: caller,
        main_vault: Wallet::new(vault_key(), vault_balance),
        post,
        helper: Wallet::new(who(2), 10),
        platform_fee_recipient: Wallet::new(who(5), 20),
    }
}

#[test]
fn completion_pays_helper_then_platform() {
    let mut ctx = completion(who(1), 125_000);
    let paid = complete_contract_handler(&mut ctx, 7).unwrap();
    assert_eq!(paid.0, Transfer { from: vault_key(), to: who(2), lamports: 95_000 });
    assert_eq!(paid.1, Transfer { from: vault_key(), to: who(5), lamports: 5000 });
    assert_eq!(ctx.helper.lamports, 95_010);
    assert_eq!(ctx.platform_fee_recipient.lamports, 5020);
    assert_eq!(ctx.main_vault.lamports, 25_000);
    assert!(ctx.post.is_completed);
    assert!(!ctx.post.is_open);
    assert_eq!(ctx.post.accepted_helper, Some(who(2)));
}

#[test]
fn completion_fails_when_called_twice() {
    let mut ctx = completion(who(1), 500_000);
    assert!(complete_contract_handler(&mut ctx, 7).is_ok());
    let after = ctx.clone();
    assert_eq!(complete_contract_handler(&mut ctx, 7), Err(CoduetError::PostAlreadyCompleted));
    assert_eq!(ctx, after);
}

#[test]
fn completion_refusals_in_their_order() {
    let mut ctx = completion(who(3), 125_000);
    assert_eq!(complete_contract_handler(&mut ctx, 8), Err(CoduetError::PostNotFound));
    assert_eq!(complete_contract_handler(&mut ctx, 7), Err(CoduetError::UnauthorizedPublisher));

    let mut ctx = completion(who(1), 125_000);
    ctx.post.accepted_helper = None;
    assert_eq!(complete_contract_handler(&mut ctx, 7), Err(CoduetError::HelpRequestNotFound));
    ctx.post.accepted_helper = Some(who(4));
    assert_eq!(complete_contract_handler(&mut ctx, 7), Err(CoduetError::HelpRequestNotFound));

    let mut ctx = completion(who(1), 125_000);
    ctx.post.value = 50;
    ctx.post.platform_fee = 1000;
    assert_eq!(complete_contract_handler(&mut ctx, 7), Err(CoduetError::ArithmeticOverflow));

    let mut ctx = completion(who(1), 125_000);
    ctx.main_vault.key = who(9);
    assert_eq!(complete_contract_handler(&mut ctx, 7), Err(CoduetError::UnauthorizedPublisher));
    assert_eq!(ctx.main_vault.lamports, 125_000);
}

#[test]
fn completion_is_all_or_nothing() {
    let mut ctx = completion(who(1), 94_999);
    assert_eq!(complete_contract_handler(&mut ctx, 7), Err(CoduetError::InsufficientFunds));
    assert_eq!(ctx, completion(who(1), 94_999));

    let mut ctx = completion(who(1), 99_999);
    assert_eq!(complete_contract_handler(&mut ctx, 7), Err(CoduetError::InsufficientFunds));
    assert_eq!(ctx, completion(who(1), 99_999));
    assert_eq!(ctx.helper.lamports, 10);
    assert!(!ctx.post.is_completed);

    let mut ctx = completion(who(1), 100_000);
    ctx.platform_fee_recipient.lamports = u64::MAX - 4999;
    let before = ctx.clone();
    assert_eq!(complete_contract_handler(&mut ctx, 7), Err(CoduetError::ArithmeticOverflow));
    assert_eq!(ctx, before);

    let mut ctx = completion(who(1), 100_000);
    assert!(complete_contract_handler(&mut ctx, 7).is_ok());
    assert_eq!(ctx.main_vault.lamports, 0);
}

fn cancellation(caller: Identity) -> CancelPost {
    CancelPost {
        publisher: Wallet::new(caller, 7),
        main_vault: Wallet::new(vault_key(), 21_050),
        post: open_post(9, who(1), 50, 1000),
    }
}

#[test]
fn cancellation_refunds_the_value_and_keeps_the_fee() {
    let mut ctx = cancellation(who(1));
    assert_eq!(
        cancel_post_handler(&mut ctx, 9),
        Ok(Transfer { from: vault_key(), to: who(1), lamports: 50 })
    );
    assert_eq!(ctx.publisher.lamports, 57);
    assert_eq!(ctx.main_vault.lamports, 21_000);
    assert!(!ctx.post.is_open);
    assert!(ctx.post.is_completed);
    assert_eq!(ctx.post.accepted_helper, None);
}

#[test]
fn cancellation_refusals_in_their_order() {
    let mut ctx = cancellation(who(3));
    assert_eq!(cancel_post_handler(&mut ctx, 8), Err(CoduetError::PostNotFound));
    assert_eq!(cancel_post_handler(&mut ctx, 9), Err(CoduetError::UnauthorizedPublisher));
    assert_eq!(ctx, cancellation(who(3)));

    let mut ctx = cancellation(who(1));
    ctx.post.is_open = false;
    ctx.post.accepted_helper = Some(who(2));
    assert_eq!(cancel_post_handler(&mut ctx, 9), Err(CoduetError::PostNotOpen));
    ctx.post.is_open = true;
    assert_eq!(cancel_post_handler(&mut ctx, 9), Err(CoduetError::CannotCancelWithHelper));
    ctx.post.is_completed = true;
    assert_eq!(cancel_post_handler(&mut ctx, 9), Err(CoduetError::PostAlreadyCompleted));

    let mut ctx = cancellation(who(1));
    ctx.main_vault.key = who(9);
    assert_eq!(cancel_post_handler(&mut ctx, 9), Err(CoduetError::UnauthorizedPublisher));

    let mut ctx = cancellation(who(1));
    ctx.main_vault.lamports = 49;
    assert_eq!(cancel_post_handler(&mut ctx, 9), Err(CoduetError::InsufficientFunds));
    assert_eq!(ctx.publisher.lamports, 7);
    assert!(ctx.post.is_open);
}

#[test]
fn cancellation_fails_when_called_twice() {
    let mut ctx = cancellation(who(1));
    assert!(cancel_post_handler(&mut ctx, 9).is_ok());
    let after = ctx.clone();
    assert_eq!(cancel_post_handler(&mut ctx, 9), Err(CoduetError::PostNotOpen));
    assert_eq!(ctx, after);
}
