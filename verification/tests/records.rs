use anchor_lang::prelude::Pubkey;
use coduet::custody::{transfer, Transfer, Wallet};
use coduet::errors::CoduetError;
use coduet::identity::{names_main_vault, Identity};
use coduet::state::{HelpRequest, HelpRequestStatus, Post};
use coduet::utils::MAIN_VAULT_PUBKEY;
use std::str::FromStr;

fn party(tag: u8) -> Identity {
    Identity::new([tag; 32])
}

fn main_vault() -> Identity {
    Identity::new(Pubkey::from_str(MAIN_VAULT_PUBKEY).unwrap().to_bytes())
}

#[test]
fn identities_compare_by_their_bytes() {
    assert!(party(1).same_as(&party(1)));
    assert!(!party(1).same_as(&party(2)));
    let mut bytes = [7u8; 32];
    bytes[31] = 8;
    assert!(!party(7).same_as(&Identity::new(bytes)));
}

#[test]
fn identity_text_is_base58() {
    assert_eq!(Identity::new([0u8; 32]).to_text(), "11111111111111111111111111111111");
    assert_eq!(main_vault().to_text(), MAIN_VAULT_PUBKEY);
    assert_eq!(party(3).to_text(), Pubkey::new_from_array([3u8; 32]).to_string());
}

#[test]
fn main_vault_is_recognised() {
    assert!(main_vault().is_main_vault());
    assert!(!party(1).is_main_vault());
    assert!(!Identity::new([0u8; 32]).is_main_vault());
    assert!(names_main_vault("4waxnAptoSYbKEeFtx8Qo7tauC9yhfCL6z2eT7MK4Vr2"));
    assert!(!names_main_vault("4waxnAptoSYbKEeFtx8Qo7tauC9yhfCL6z2eT7MK4Vr3"));
    assert!(!names_main_vault(""));
}

#[test]
fn new_post_is_open_and_expires_after_thirty_days() {
    let post =
        Post::new(7, party(1), "title".to_string(), "text".to_string(), 100_000, 5000, 1_000)
            .unwrap();
    assert_eq!(post.id, 7);
    assert_eq!(post.publisher, party(1));
    assert_eq!(post.title, "title");
    assert_eq!(post.description, "text");
    assert_eq!(post.value, 100_000);
    assert_eq!(post.platform_fee, 5000);
    assert!(post.is_open);
    assert!(!post.is_completed);
    assert_eq!(post.accepted_helper, None);
    assert_eq!(post.created_at, 1_000);
    assert_eq!(post.expires_at, 1_000 + 30 * 24 * 60 * 60);
    assert_eq!(post.get_total_payment(), Ok(100_000));
}

#[test]
fn new_post_refuses_bad_contents() {
    let t = || "t".to_string();
    assert_eq!(
        Post::new(1, party(1), t(), t(), 0, 5000, 0),
        Err(CoduetError::InvalidValue)
    );
    assert_eq!(
        Post::new(1, party(1), "x".repeat(101), "y".repeat(501), 0, 0, i64::MAX),
        Err(CoduetError::InvalidValue)
    );
    assert_eq!(
        Post::new(1, party(1), "x".repeat(101), t(), 10, 5000, 0),
        Err(CoduetError::InvalidTitleLength)
    );
    assert_eq!(
        Post::new(1, party(1), t(), "x".repeat(501), 10, 5000, 0),
        Err(CoduetError::InvalidDescriptionLength)
    );
    assert_eq!(
        Post::new(1, party(1), t(), t(), 10, 0, 0),
        Err(CoduetError::InvalidPlatformFee)
    );
    assert_eq!(
        Post::new(1, party(1), t(), t(), 10, 1000, i64::MAX - 2_591_999),
        Err(CoduetError::ArithmeticOverflow)
    );
    assert!(Post::new(1, party(1), "x".repeat(100), "y".repeat(500), 10, 1000, i64::MAX - 2_592_000)
        .is_ok());
}

#[test]
fn expiry_is_strictly_after_the_window() {
    let post = Post::new(1, party(1), "t".to_string(), "d".to_string(), 10, 1000, 100).unwrap();
    assert!(!post.is_expired(100));
    assert!(!post.is_expired(100 + 2_592_000));
    assert!(post.is_expired(100 + 2_592_001));
    assert!(post.can_accept_applications(100 + 2_592_000));
    assert!(!post.can_accept_applications(100 + 2_592_001));
    let mut closed = post.clone();
    closed.is_open = false;
    assert!(!closed.can_accept_applications(100));
    let mut done = post.clone();
    done.is_completed = true;
    assert!(!done.can_accept_applications(100));
}

#[test]
fn help_request_is_decided_once() {
    let mut request = HelpRequest::new(7, party(2), 55);
    assert_eq!(request.post_id, 7);
    assert_eq!(request.applicant, party(2));
    assert_eq!(request.applied_at, 55);
    assert_eq!(request.status, HelpRequestStatus::Pending);
    assert!(request.is_pending());
    assert_eq!(request.accept(), Ok(()));
    assert_eq!(request.status, HelpRequestStatus::Accepted);
    assert!(!request.is_pending());
    assert_eq!(request.reject(), Err(CoduetError::HelpRequestNotPending));
    assert_eq!(request.status, HelpRequestStatus::Accepted);
    assert_eq!(request.accept(), Err(CoduetError::HelpRequestNotPending));

    let mut other = HelpRequest::new(7, party(3), 56);
    assert_eq!(other.reject(), Ok(()));
    assert_eq!(other.status, HelpRequestStatus::Rejected);
    assert_eq!(other.accept(), Err(CoduetError::HelpRequestNotPending));
    assert_eq!(other.status, HelpRequestStatus::Rejected);
}

#[test]
fn transfer_moves_exactly_the_amount() {
    let mut a = Wallet::new(party(1), 100);
    let mut b = Wallet::new(party(2), 5);
    assert_eq!(
        transfer(&mut a, &mut b, 40),
        Ok(Transfer { from: party(1), to: party(2), lamports: 40 })
    );
    assert_eq!(a, Wallet { key: party(1), lamports: 60 });
    assert_eq!(b, Wallet { key: party(2), lamports: 45 });
}

#[test]
fn transfer_refusals_change_nothing() {
    let mut a = Wallet::new(party(1), 100);
    let mut b = Wallet::new(party(2), u64::MAX - 10);
    assert_eq!(transfer(&mut a, &mut b, 101), Err(CoduetError::InsufficientFunds));
    assert_eq!(transfer(&mut a, &mut b, 11), Err(CoduetError::ArithmeticOverflow));
    assert_eq!(a.lamports, 100);
    assert_eq!(b.lamports, u64::MAX - 10);
    assert!(transfer(&mut a, &mut b, 10).is_ok());
    assert_eq!(b.lamports, u64::MAX);
}
