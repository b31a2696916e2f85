//! The failures that the marketplace operations report.

use vstd::prelude::*;

verus! {

/// Every way in which an operation can be refused.
#[derive(Clone, Copy, Debug, PartialEq, Eq, Structural)]
pub enum CoduetError {
    InvalidHourlyRate,
    InvalidEstimatedHours,
    PostNotOpen,
    PostAlreadyCompleted,
    PostAlreadyHasHelper,
    HelpRequestNotFound,
    HelpRequestNotPending,
    UnauthorizedPublisher,
    CannotCancelWithHelper,
    InsufficientFunds,
    InvalidPlatformFee,
    PostNotFound,
    AlreadyApplied,
    InvalidPostId,
    PostExpired,
    InvalidTitleLength,
    InvalidDescriptionLength,
    ArithmeticOverflow,
    InvalidValue,
}

impl CoduetError {
    /// The text shown to a caller for this failure.
    pub open spec fn message_text(self) -> Seq<char> {
        match self {
            CoduetError::InvalidHourlyRate => "Invalid hourly rate - must be greater than 0"@,
            CoduetError::InvalidEstimatedHours => "Invalid estimated hours - must be between 1 and 255"@,
            CoduetError::PostNotOpen => "Post is not open for applications"@,
            CoduetError::PostAlreadyCompleted => "Post is already completed"@,
            CoduetError::PostAlreadyHasHelper => "Post already has an accepted helper"@,
            CoduetError::HelpRequestNotFound => "Help request not found"@,
            CoduetError::HelpRequestNotPending => "Help request is not pending"@,
            CoduetError::UnauthorizedPublisher => "Only publisher can perform this action"@,
            CoduetError::CannotCancelWithHelper => "Cannot cancel post with accepted helper"@,
            CoduetError::InsufficientFunds => "Insufficient funds for post creation"@,
            CoduetError::InvalidPlatformFee => "Invalid platform fee"@,
            CoduetError::PostNotFound => "Post not found"@,
            CoduetError::AlreadyApplied => "User already applied to this post"@,
            CoduetError::InvalidPostId => "Invalid post ID"@,
            CoduetError::PostExpired => "Post has expired"@,
            CoduetError::InvalidTitleLength => "Invalid title length"@,
            CoduetError::InvalidDescriptionLength => "Invalid description length"@,
            CoduetError::ArithmeticOverflow => "Arithmetic overflow"@,
            CoduetError::InvalidValue => "Invalid value - must be greater than 0"@,
        }
    }

    /// Returns the text shown to a caller for this failure.
    pub fn message(&self) -> (text: &'static str)
        ensures
            text@ == self.message_text(),
    {
        match self {
            CoduetError::InvalidHourlyRate => "Invalid hourly rate - must be greater than 0",
            CoduetError::InvalidEstimatedHours => "Invalid estimated hours - must be between 1 and 255",
            CoduetError::PostNotOpen => "Post is not open for applications",
            CoduetError::PostAlreadyCompleted => "Post is already completed",
            CoduetError::PostAlreadyHasHelper => "Post already has an accepted helper",
            CoduetError::HelpRequestNotFound => "Help request not found",
            CoduetError::HelpRequestNotPending => "Help request is not pending",
            CoduetError::UnauthorizedPublisher => "Only publisher can perform this action",
            CoduetError::CannotCancelWithHelper => "Cannot cancel post with accepted helper",
            CoduetError::InsufficientFunds => "Insufficient funds for post creation",
            CoduetError::InvalidPlatformFee => "Invalid platform fee",
            CoduetError::PostNotFound => "Post not found",
            CoduetError::AlreadyApplied => "User already applied to this post",
            CoduetError::InvalidPostId => "Invalid post ID",
            CoduetError::PostExpired => "Post has expired",
            CoduetError::InvalidTitleLength => "Invalid title length",
            CoduetError::InvalidDescriptionLength => "Invalid description length",
            CoduetError::ArithmeticOverflow => "Arithmetic overflow",
            CoduetError::InvalidValue => "Invalid value - must be greater than 0",
        }
    }
}

} // verus!
