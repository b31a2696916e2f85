//! The records of the marketplace: a task posting, a helper's application,
//! and the custody account's descriptor.

use vstd::prelude::*;
use crate::errors::CoduetError;
use crate::identity::Identity;
use crate::utils::{byte_len, text_len};

verus! {

/// Longest title, in bytes.
pub const MAX_TITLE_LEN: usize = 100;

/// Longest description, in bytes.
pub const MAX_DESCRIPTION_LEN: usize = 500;

/// How long a post stays current after its creation: thirty days, in seconds.
pub const POST_LIFETIME_SECONDS: i64 = 2_592_000;

/// A published task with the funds that stand behind it.
#[derive(Clone, Debug, PartialEq, Eq)]
pub struct Post {
    pub id: u64,
    pub publisher: Identity,
    pub title: String,
    pub description: String,
    pub value: u64,
    pub is_open: bool,
    pub platform_fee: u64,
    pub accepted_helper: Option<Identity>,
    pub is_completed: bool,
    pub created_at: i64,
    pub expires_at: i64,
}

/// Where a post stands in its life.
#[derive(Clone, Copy, Debug, PartialEq, Eq, Structural)]
pub enum PostPhase {
    /// Taking applications; no helper chosen.
    Open,
    /// A helper is chosen and not yet paid.
    OpenWithHelper,
    /// The helper and the platform are paid.
    Completed,
    /// Closed without a helper; the publisher is refunded.
    Cancelled,
}

impl Post {
    /// What holds of every post that the operations create or leave behind.
    pub open spec fn well_formed(self) -> bool {
        &&& self.value > 0
        &&& self.platform_fee > 0
        &&& text_len(self.title@) <= MAX_TITLE_LEN
        &&& text_len(self.description@) <= MAX_DESCRIPTION_LEN
        &&& self.expires_at == self.created_at + POST_LIFETIME_SECONDS
        &&& (self.accepted_helper.is_some() ==> !self.is_open)
        &&& !(self.is_open && self.is_completed)
    }

    /// The phase that the flags of a post stand for.
    pub open spec fn phase(self) -> PostPhase {
        if self.is_completed {
            if self.accepted_helper.is_some() {
                PostPhase::Completed
            } else {
                PostPhase::Cancelled
            }
        } else if self.accepted_helper.is_some() {
            PostPhase::OpenWithHelper
        } else {
            PostPhase::Open
        }
    }

    /// Tells the phase of the post from its flags.
    pub fn lifecycle(&self) -> (phase: PostPhase)
        ensures
            phase == self.phase(),
    {
        if self.is_completed {
            if self.accepted_helper.is_some() {
                PostPhase::Completed
            } else {
                PostPhase::Cancelled
            }
        } else if self.accepted_helper.is_some() {
            PostPhase::OpenWithHelper
        } else {
            PostPhase::Open
        }
    }

    /// Why a post with these contents cannot be made, if it cannot. The
    /// tests apply in this order: the value is positive; the title and the
    /// description are within their bounds; the fee is positive; the expiry
    /// fits in the clock's range.
    pub open spec fn creation_error(
        title: Seq<char>,
        description: Seq<char>,
        value: u64,
        platform_fee: u64,
        created_at: i64,
    ) -> Option<CoduetError> {
        if value == 0 {
            Some(CoduetError::InvalidValue)
        } else if text_len(title) > MAX_TITLE_LEN {
            Some(CoduetError::InvalidTitleLength)
        } else if text_len(description) > MAX_DESCRIPTION_LEN {
            Some(CoduetError::InvalidDescriptionLength)
        } else if platform_fee == 0 {
            Some(CoduetError::InvalidPlatformFee)
        } else if created_at + POST_LIFETIME_SECONDS > i64::MAX {
            Some(CoduetError::ArithmeticOverflow)
        } else {
            None
        }
    }

    /// Makes an open post without a helper that expires thirty days after
    /// `created_at`, or says why the contents are refused.
    pub fn new(
        id: u64,
        publisher: Identity,
        title: String,
        description: String,
        value: u64,
        platform_fee: u64,
        created_at: i64,
    ) -> (result: Result<Post, CoduetError>)
        ensures
            match Post::creation_error(title@, description@, value, platform_fee, created_at) {
                Some(e) => result == Err::<Post, CoduetError>(e),
                None => result == Ok::<Post, CoduetError>(
                    (Post {
                        id,
                        publisher,
                        title,
                        description,
                        value,
                        is_open: true,
                        platform_fee,
                        accepted_helper: None,
                        is_completed: false,
                        created_at,
                        expires_at: (created_at + POST_LIFETIME_SECONDS) as i64,
                    }),
                ),
            },
            result.is_ok() ==> result.unwrap().well_formed(),
            result.is_ok() ==> result.unwrap().phase() == PostPhase::Open,
    {
        if value == 0 {
            return Err(CoduetError::InvalidValue);
        }
        if byte_len(title.as_str()) > MAX_TITLE_LEN {
            return Err(CoduetError::InvalidTitleLength);
        }
        if byte_len(description.as_str()) > MAX_DESCRIPTION_LEN {
            return Err(CoduetError::InvalidDescriptionLength);
        }
        if platform_fee == 0 {
            return Err(CoduetError::InvalidPlatformFee);
        }
        let expires_at: i64 = match created_at.checked_add(POST_LIFETIME_SECONDS) {
            Some(t) => t,
            None => {
                return Err(CoduetError::ArithmeticOverflow);
            },
        };
        Ok(
            Post {
                id,
                publisher,
                title,
                description,
                value,
                is_open: true,
                platform_fee,
                accepted_helper: None,
                is_completed: false,
                created_at,
                expires_at,
            },
        )
    }

    /// The amount owed to the helper before the fee is taken: the value.
    pub fn get_total_payment(&self) -> (result: Result<u64, CoduetError>)
        ensures
            result == Ok::<u64, CoduetError>(self.value),
    {
        Ok(self.value)
    }

    /// Whether `current_time` lies after the post's expiry.
    pub fn is_expired(&self, current_time: i64) -> (expired: bool)
        ensures
            expired == (current_time > self.expires_at),
    {
        current_time > self.expires_at
    }

    /// Whether the post is open, not completed and not expired at
    /// `current_time`. No operation consults this: expiry is not enforced.
    pub fn can_accept_applications(&self, current_time: i64) -> (can: bool)
        ensures
            can == (self.is_open && !self.is_completed && current_time <= self.expires_at),
    {
        self.is_open && !self.is_completed && !self.is_expired(current_time)
    }
}

/// Where an application stands.
#[derive(Clone, Copy, Debug, PartialEq, Eq, Structural)]
pub enum HelpRequestStatus {
    Pending,
    Accepted,
    Rejected,
}

/// One helper's application to one post.
#[derive(Clone, Copy, Debug, PartialEq, Eq)]
pub struct HelpRequest {
    pub post_id: u64,
    pub applicant: Identity,
    pub status: HelpRequestStatus,
    pub applied_at: i64,
}

impl HelpRequest {
    /// The pending application of `applicant` to the post `post_id`.
    pub open spec fn pending(post_id: u64, applicant: Identity, applied_at: i64) -> HelpRequest {
        HelpRequest { post_id, applicant, status: HelpRequestStatus::Pending, applied_at }
    }

    /// Makes a pending application of `applicant` to the post `post_id`.
    pub fn new(post_id: u64, applicant: Identity, applied_at: i64) -> (request: HelpRequest)
        ensures
            request == HelpRequest::pending(post_id, applicant, applied_at),
    {
        HelpRequest { post_id, applicant, status: HelpRequestStatus::Pending, applied_at }
    }

    /// Whether the application still awaits a decision.
    pub fn is_pending(&self) -> (pending: bool)
        ensures
            pending == (self.status == HelpRequestStatus::Pending),
    {
        match self.status {
            HelpRequestStatus::Pending => true,
            _ => false,
        }
    }

    /// The request after a decision `to` on a pending request.
    pub open spec fn decided(self, to: HelpRequestStatus) -> HelpRequest {
        HelpRequest { status: to, ..self }
    }

    /// Accepts a pending application. A decided one is left as it is and
    /// reported as not pending.
    pub fn accept(&mut self) -> (result: Result<(), CoduetError>)
        ensures
            old(self).status == HelpRequestStatus::Pending ==> result.is_ok() && *final(self)
                == old(self).decided(HelpRequestStatus::Accepted),
            old(self).status != HelpRequestStatus::Pending ==> result == Err::<(), CoduetError>(
                CoduetError::HelpRequestNotPending,
            ) && *final(self) == *old(self),
    {
        if self.is_pending() {
            self.status = HelpRequestStatus::Accepted;
            Ok(())
        } else {
            Err(CoduetError::HelpRequestNotPending)
        }
    }

    /// Rejects a pending application. A decided one is left as it is and
    /// reported as not pending. No operation of the marketplace rejects.
    pub fn reject(&mut self) -> (result: Result<(), CoduetError>)
        ensures
            old(self).status == HelpRequestStatus::Pending ==> result.is_ok() && *final(self)
                == old(self).decided(HelpRequestStatus::Rejected),
            old(self).status != HelpRequestStatus::Pending ==> result == Err::<(), CoduetError>(
                CoduetError::HelpRequestNotPending,
            ) && *final(self) == *old(self),
    {
        if self.is_pending() {
            self.status = HelpRequestStatus::Rejected;
            Ok(())
        } else {
            Err(CoduetError::HelpRequestNotPending)
        }
    }
}

/// Descriptor of a custody account: who may move its funds.
#[derive(Clone, Copy, Debug, PartialEq, Eq)]
pub struct Vault {
    pub authority: Identity,
    pub bump: u8,
}

} // verus!
