//! Error kinds for the two engines, and the flat error surfaced at the
//! boundary.
//!
//! The task escrow engine and the faucet engine each have their own variant
//! set; `AltruistError` composes both for callers that want one type.

use vstd::prelude::*;

verus! {

/// Failures of the task escrow engine.
#[derive(Clone, Copy, Debug, PartialEq, Eq, Structural)]
pub enum TaskError {
    /// The caller is not the task's creator.
    UnauthorizedTaskCreator,
    /// The task's status forbids the attempted operation.
    InvalidTaskStatus,
    /// A reward amount of zero was supplied.
    InvalidRewardAmount,
    /// The task identifier is longer than 50 bytes.
    TaskIdTooLong,
    /// The task identifier is empty or holds a character outside
    /// `[A-Za-z0-9_-]`.
    InvalidTaskIdFormat,
    /// The creator's balance does not cover the requested deposit.
    InsufficientBalance,
    /// The escrow balance — or, for a reward top-up, the creator's
    /// balance — does not cover the requested transfer.
    InsufficientEscrowBalance,
    /// The creator cannot be an assignee of their own task.
    CannotAssignToCreator,
    /// Assigning would exceed the bound of 10 assignees.
    TooManyAssignees,
    /// An empty assignee list was supplied.
    NoAssignees,
    /// An assignee appears twice, or is already assigned.
    DuplicateAssignee,
    /// The caller is not a listed assignee.
    UnauthorizedAssignee,
    /// The caller already collected their share.
    AlreadyClaimed,
    /// A reward decrease may only be initiated while the task is `Created`.
    CannotDecreaseRewardInvalidStatus,
    /// The mandatory waiting period of a pending decrease has not elapsed.
    DecreaseTimeLockNotMet,
    /// No reward decrease is pending.
    NoPendingDecrease,
    /// An accumulation would exceed the integer range.
    ArithmeticOverflow,
}

/// Failures of the faucet engine.
#[derive(Clone, Copy, Debug, PartialEq, Eq, Structural)]
pub enum FaucetError {
    /// A request amount of zero was supplied.
    InvalidRequestAmount,
    /// The request amount exceeds the faucet's per-request rate limit.
    RequestAmountTooHigh,
    /// The faucet's pool does not cover the request.
    InsufficientFaucetBalance,
    /// The cooldown period since the identity's last request has not elapsed.
    CooldownNotMet,
    /// An accumulation would exceed the integer range.
    ArithmeticOverflow,
    /// The faucet's pool must be empty before deletion.
    FaucetNotEmpty,
    /// A name, symbol, uri or seed string exceeds its fixed maximum length.
    DescriptionTooLong,
}

/// The flat error of the whole engine, composed from the two component sets
/// at the boundary.
#[derive(Clone, Copy, Debug, PartialEq, Eq, Structural)]
pub enum AltruistError {
    InsufficientFaucetBalance,
    RequestAmountTooHigh,
    UnauthorizedTaskCreator,
    InvalidTaskStatus,
    InsufficientEscrowBalance,
    InvalidRewardAmount,
    TaskIdTooLong,
    DescriptionTooLong,
    ArithmeticOverflow,
    CooldownNotMet,
    CannotDecreaseRewardInvalidStatus,
    DecreaseTimeLockNotMet,
    NoPendingDecrease,
    FaucetNotEmpty,
    UnauthorizedAssignee,
    InvalidTaskIdFormat,
    InsufficientBalance,
    CannotAssignToCreator,
    TooManyAssignees,
    NoAssignees,
    DuplicateAssignee,
    AlreadyClaimed,
}

impl vstd::std_specs::convert::FromSpecImpl<TaskError> for AltruistError {
    open spec fn obeys_from_spec() -> bool {
        true
    }

    open spec fn from_spec(e: TaskError) -> Self {
        match e {
            TaskError::UnauthorizedTaskCreator => AltruistError::UnauthorizedTaskCreator,
            TaskError::InvalidTaskStatus => AltruistError::InvalidTaskStatus,
            TaskError::InvalidRewardAmount => AltruistError::InvalidRewardAmount,
            TaskError::TaskIdTooLong => AltruistError::TaskIdTooLong,
            TaskError::InvalidTaskIdFormat => AltruistError::InvalidTaskIdFormat,
            TaskError::InsufficientBalance => AltruistError::InsufficientBalance,
            TaskError::InsufficientEscrowBalance => AltruistError::InsufficientEscrowBalance,
            TaskError::CannotAssignToCreator => AltruistError::CannotAssignToCreator,
            TaskError::TooManyAssignees => AltruistError::TooManyAssignees,
            TaskError::NoAssignees => AltruistError::NoAssignees,
            TaskError::DuplicateAssignee => AltruistError::DuplicateAssignee,
            TaskError::UnauthorizedAssignee => AltruistError::UnauthorizedAssignee,
            TaskError::AlreadyClaimed => AltruistError::AlreadyClaimed,
            TaskError::CannotDecreaseRewardInvalidStatus => AltruistError::CannotDecreaseRewardInvalidStatus,
            TaskError::DecreaseTimeLockNotMet => AltruistError::DecreaseTimeLockNotMet,
            TaskError::NoPendingDecrease => AltruistError::NoPendingDecrease,
            TaskError::ArithmeticOverflow => AltruistError::ArithmeticOverflow,
        }
    }
}

impl From<TaskError> for AltruistError {
    fn from(e: TaskError) -> Self {
        match e {
            TaskError::UnauthorizedTaskCreator => AltruistError::UnauthorizedTaskCreator,
            TaskError::InvalidTaskStatus => AltruistError::InvalidTaskStatus,
            TaskError::InvalidRewardAmount => AltruistError::InvalidRewardAmount,
            TaskError::TaskIdTooLong => AltruistError::TaskIdTooLong,
            TaskError::InvalidTaskIdFormat => AltruistError::InvalidTaskIdFormat,
            TaskError::InsufficientBalance => AltruistError::InsufficientBalance,
            TaskError::InsufficientEscrowBalance => AltruistError::InsufficientEscrowBalance,
            TaskError::CannotAssignToCreator => AltruistError::CannotAssignToCreator,
            TaskError::TooManyAssignees => AltruistError::TooManyAssignees,
            TaskError::NoAssignees => AltruistError::NoAssignees,
            TaskError::DuplicateAssignee => AltruistError::DuplicateAssignee,
            TaskError::UnauthorizedAssignee => AltruistError::UnauthorizedAssignee,
            TaskError::AlreadyClaimed => AltruistError::AlreadyClaimed,
            TaskError::CannotDecreaseRewardInvalidStatus => AltruistError::CannotDecreaseRewardInvalidStatus,
            TaskError::DecreaseTimeLockNotMet => AltruistError::DecreaseTimeLockNotMet,
            TaskError::NoPendingDecrease => AltruistError::NoPendingDecrease,
            TaskError::ArithmeticOverflow => AltruistError::ArithmeticOverflow,
        }
    }
}

impl vstd::std_specs::convert::FromSpecImpl<FaucetError> for AltruistError {
    open spec fn obeys_from_spec() -> bool {
        true
    }

    open spec fn from_spec(e: FaucetError) -> Self {
        match e {
            FaucetError::InvalidRequestAmount => AltruistError::InvalidRewardAmount,
            FaucetError::RequestAmountTooHigh => AltruistError::RequestAmountTooHigh,
            FaucetError::InsufficientFaucetBalance => AltruistError::InsufficientFaucetBalance,
            FaucetError::CooldownNotMet => AltruistError::CooldownNotMet,
            FaucetError::ArithmeticOverflow => AltruistError::ArithmeticOverflow,
            FaucetError::FaucetNotEmpty => AltruistError::FaucetNotEmpty,
            FaucetError::DescriptionTooLong => AltruistError::DescriptionTooLong,
        }
    }
}

impl From<FaucetError> for AltruistError {
    fn from(e: FaucetError) -> Self {
        match e {
            FaucetError::InvalidRequestAmount => AltruistError::InvalidRewardAmount,
            FaucetError::RequestAmountTooHigh => AltruistError::RequestAmountTooHigh,
            FaucetError::InsufficientFaucetBalance => AltruistError::InsufficientFaucetBalance,
            FaucetError::CooldownNotMet => AltruistError::CooldownNotMet,
            FaucetError::ArithmeticOverflow => AltruistError::ArithmeticOverflow,
            FaucetError::FaucetNotEmpty => AltruistError::FaucetNotEmpty,
            FaucetError::DescriptionTooLong => AltruistError::DescriptionTooLong,
        }
    }
}

} // verus!
