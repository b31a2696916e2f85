//! What each operation is handed: the records and wallets that it reads and
//! changes, as the ledger holds them at the moment of the call.

use vstd::prelude::*;
use crate::custody::Wallet;
use crate::identity::Identity;
use crate::state::{HelpRequest, Post};

verus! {

/// The accounts of a post's creation. `post` is the place that the ledger
/// keeps for the post's id: empty until a post is created there.
#[derive(Clone, Debug, PartialEq, Eq)]
pub struct CreatePost {
    pub publisher: Wallet,
    pub post: Option<Post>,
    pub main_vault: Wallet,
}

/// The accounts of an application. `help_request` is the place that the
/// ledger keeps for this applicant's request to this post.
#[derive(Clone, Debug, PartialEq, Eq)]
pub struct ApplyHelp {
    pub applicant: Identity,
    pub post: Post,
    pub help_request: Option<HelpRequest>,
}

/// The accounts of an acceptance. `publisher` is the caller; `help_request`
/// is what the ledger holds in the place of the applicant's request.
#[derive(Clone, Debug, PartialEq, Eq)]
pub struct AcceptHelper {
    pub publisher: Identity,
    pub post: Post,
    pub help_request: Option<HelpRequest>,
}

/// The accounts of a completion. `publisher` is the caller.
#[derive(Clone, Debug, PartialEq, Eq)]
pub struct CompleteContract {
    pub publisher: Identity,
    pub main_vault: Wallet,
    pub post: Post,
    pub helper: Wallet,
    pub platform_fee_recipient: Wallet,
}

/// The accounts of a cancellation. `publisher` is the caller, who is refunded.
#[derive(Clone, Debug, PartialEq, Eq)]
pub struct CancelPost {
    pub publisher: Wallet,
    pub main_vault: Wallet,
    pub post: Post,
}

} // verus!
