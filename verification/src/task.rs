//! Task escrow engine: creation, assignment, completion, claims,
//! cancellation and closing.
//!
//! Every operation takes the balances it touches as `&mut u64` and the
//! current time as a Unix-epoch second.  The host runtime that actually
//! moves tokens applies the balance changes stated in each contract as one
//! atomic set of transfers; the operations therefore run every check before
//! the first mutation, so that a failure leaves every value untouched.
//!
//! Rounding policy: a reward that does not divide evenly among the
//! assignees leaves its remainder in escrow until [`close_task`], which
//! refunds it to the creator together with the account's storage cost.

use vstd::prelude::*;
use vstd::utf8::encode_utf8;
use crate::errors::TaskError;
use crate::state::AccountId;
use crate::state::MAX_ASSIGNEES;
use crate::state::MAX_TASK_ID_LEN;
use crate::state::Task;
use crate::state::TaskStatus;
use crate::state::escrow_consistent;
use crate::state::is_valid_id_chars;
use crate::state::seqs_disjoint;
use crate::state::valid_id_chars;

verus! {

/// Open a task: validate the identifier and the reward, move the reward
/// from the creator into a fresh escrow account, and return the new record
/// with `Created` status.
///
/// The identifier must be at most 50 bytes as stored (50 characters,
/// since valid identifiers are ASCII), non-empty and drawn from
/// `[A-Za-z0-9_-]`; the reward must be positive and covered by the
/// creator's balance.  `escrow_balance` is the freshly opened escrow
/// account, so it starts at zero.
pub fn create_task(
    task_id: String,
    reward_amount: u64,
    creator: AccountId,
    escrow_account: AccountId,
    creator_balance: &mut u64,
    escrow_balance: &mut u64,
    now: i64,
) -> (result: Result<Task, TaskError>)
    requires
        now >= 0,
        *old(escrow_balance) == 0,
    ensures
        ({
            let id = task_id@;
            if encode_utf8(id).len() > MAX_TASK_ID_LEN {
                &&& result == Err::<Task, TaskError>(TaskError::TaskIdTooLong)
                &&& *final(creator_balance) == *old(creator_balance)
                &&& *final(escrow_balance) == *old(escrow_balance)
            } else if reward_amount == 0 {
                &&& result == Err::<Task, TaskError>(TaskError::InvalidRewardAmount)
                &&& *final(creator_balance) == *old(creator_balance)
                &&& *final(escrow_balance) == *old(escrow_balance)
            } else if !valid_id_chars(id) {
                &&& result == Err::<Task, TaskError>(TaskError::InvalidTaskIdFormat)
                &&& *final(creator_balance) == *old(creator_balance)
                &&& *final(escrow_balance) == *old(escrow_balance)
            } else if *old(creator_balance) < reward_amount {
                &&& result == Err::<Task, TaskError>(TaskError::InsufficientBalance)
                &&& *final(creator_balance) == *old(creator_balance)
                &&& *final(escrow_balance) == *old(escrow_balance)
            } else {
                &&& result matches Ok(t)
                &&& (result matches Ok(t) ==> {
                    &&& t.task_id@ == task_id@
                    &&& t.reward_amount == reward_amount
                    &&& t.status == TaskStatus::Created
                    &&& t.creator == creator
                    &&& t.escrow_account == escrow_account
                    &&& t.assignees@.len() == 0
                    &&& t.claimed_assignees@.len() == 0
                    &&& t.created_at == now
                    &&& t.updated_at == now
                    &&& t.pending_decrease_amount is None
                    &&& t.decrease_requested_at is None
                    &&& t.wf()
                    &&& escrow_consistent(t, *final(escrow_balance))
                })
                &&& *final(creator_balance) == *old(creator_balance) - reward_amount
                &&& *final(escrow_balance) == reward_amount
            }
        }),
{
    if task_id.as_str().as_bytes().len() > MAX_TASK_ID_LEN {
        return Err(TaskError::TaskIdTooLong);
    }
    if reward_amount == 0 {
        return Err(TaskError::InvalidRewardAmount);
    }
    if !is_valid_id_chars(task_id.as_str()) {
        return Err(TaskError::InvalidTaskIdFormat);
    }
    if *creator_balance < reward_amount {
        return Err(TaskError::InsufficientBalance);
    }
    *creator_balance = *creator_balance - reward_amount;
    *escrow_balance = reward_amount;
    let task = Task {
        task_id,
        reward_amount,
        status: TaskStatus::Created,
        creator,
        escrow_account,
        assignees: Vec::new(),
        claimed_assignees: Vec::new(),
        created_at: now,
        updated_at: now,
        pending_decrease_amount: None,
        decrease_requested_at: None,
    };
    Ok(task)
}

/// Assign the task to one identity.  Only the creator may assign, and only
/// while the task is still `Created`; the assignee must not be the creator.
/// On success the task moves to `InProgress`.
pub fn assign_task(task: &mut Task, caller: AccountId, assignee: AccountId, now: i64) -> (result:
    Result<(), TaskError>)
    requires
        old(task).wf(),
        now >= 0,
    ensures
        ({
            let t = *old(task);
            if caller != t.creator {
                result == Err::<(), TaskError>(TaskError::UnauthorizedTaskCreator) && *final(task)
                    == t
            } else if t.status != TaskStatus::Created {
                result == Err::<(), TaskError>(TaskError::InvalidTaskStatus) && *final(task) == t
            } else if assignee == t.creator {
                result == Err::<(), TaskError>(TaskError::CannotAssignToCreator) && *final(task)
                    == t
            } else {
                &&& result is Ok
                &&& final(task).assignees@ == t.assignees@.push(assignee)
                &&& final(task).status == TaskStatus::InProgress
                &&& final(task).updated_at == now
                &&& final(task).same_except_assignment(t)
                &&& final(task).wf()
                &&& final(task).escrow_expected() == t.escrow_expected()
            }
        }),
{
    if caller != task.creator {
        return Err(TaskError::UnauthorizedTaskCreator);
    }
    if task.status != TaskStatus::Created {
        return Err(TaskError::InvalidTaskStatus);
    }
    task.assign_to(assignee, now)
}

/// Assign the task to several identities at once.  Only the creator may
/// assign, and only while the task is active.  The new identities are
/// appended; the checks run in phases as documented on
/// [`Task::assign_to_multiple`].
pub fn assign_task_multiple(
    task: &mut Task,
    caller: AccountId,
    assignees: Vec<AccountId>,
    now: i64,
) -> (result: Result<(), TaskError>)
    requires
        old(task).wf(),
        now >= 0,
    ensures
        ({
            let t = *old(task);
            let new = assignees@;
            if caller != t.creator {
                result == Err::<(), TaskError>(TaskError::UnauthorizedTaskCreator) && *final(task)
                    == t
            } else if !t.is_active() {
                result == Err::<(), TaskError>(TaskError::InvalidTaskStatus) && *final(task) == t
            } else if t.assignees@.len() + new.len() > MAX_ASSIGNEES {
                result == Err::<(), TaskError>(TaskError::TooManyAssignees) && *final(task) == t
            } else if new.len() == 0 {
                result == Err::<(), TaskError>(TaskError::NoAssignees) && *final(task) == t
            } else if new.contains(t.creator) {
                result == Err::<(), TaskError>(TaskError::CannotAssignToCreator) && *final(task)
                    == t
            } else if !new.no_duplicates() || !seqs_disjoint(new, t.assignees@) {
                result == Err::<(), TaskError>(TaskError::DuplicateAssignee) && *final(task) == t
            } else {
                &&& result is Ok
                &&& final(task).assignees@ == t.assignees@ + new
                &&& final(task).status == TaskStatus::InProgress
                &&& final(task).updated_at == now
                &&& final(task).same_except_assignment(t)
                &&& final(task).wf()
                &&& final(task).escrow_expected() == t.escrow_expected()
            }
        }),
{
    if caller != task.creator {
        return Err(TaskError::UnauthorizedTaskCreator);
    }
    if !(task.status == TaskStatus::Created || task.status == TaskStatus::InProgress) {
        return Err(TaskError::InvalidTaskStatus);
    }
    let result = task.assign_to_multiple(assignees, now);
    match result {
        Ok(()) => {
            proof {
                lemma_concat_wf(*old(task), *final(task), assignees@);
            }
            Ok(())
        },
        Err(e) => Err(e),
    }
}

/// The concatenation of a valid assignee list with a disjoint,
/// duplicate-free, creator-free list keeps the task valid.
proof fn lemma_concat_wf(t0: Task, t1: Task, new: Seq<AccountId>)
    requires
        t0.wf(),
        t0.is_active(),
        t0.assignees@.len() + new.len() <= MAX_ASSIGNEES,
        new.len() > 0,
        !new.contains(t0.creator),
        new.no_duplicates(),
        seqs_disjoint(new, t0.assignees@),
        t1.assignees@ == t0.assignees@ + new,
        t1.status == TaskStatus::InProgress,
        t1.updated_at >= 0,
        t1.same_except_assignment(t0),
    ensures
        t1.wf(),
{
    let a = t0.assignees@;
    assert(t1.assignees@.no_duplicates()) by {
        assert forall|i: int, j: int|
            0 <= i < j < t1.assignees@.len() implies t1.assignees@[i] != t1.assignees@[j] by {
            if i < a.len() && j >= a.len() {
                assert(t1.assignees@[j] == new[j - a.len()]);
                assert(!a.contains(new[j - a.len()]));
                assert(a.contains(a[i]));
            }
        }
    }
    assert(!t1.assignees@.contains(t1.creator)) by {
        if t1.assignees@.contains(t1.creator) {
            let i = choose|i: int|
                0 <= i < t1.assignees@.len() && t1.assignees@[i] == t1.creator;
            if i < a.len() {
                assert(a.contains(a[i]));
            } else {
                assert(new.contains(new[i - a.len()]));
            }
        }
    }
    assert(t1.claimed_assignees@.len() == 0);
}

/// Move a task forward by hand.  Only the creator may call this, and the
/// only transition open to it is `Created -> InProgress`: completing,
/// cancelling and closing move funds and have operations of their own.
pub fn update_task_status(
    task: &mut Task,
    caller: AccountId,
    new_status: TaskStatus,
    now: i64,
) -> (result: Result<(), TaskError>)
    requires
        old(task).wf(),
        now >= 0,
    ensures
        ({
            let t = *old(task);
            if caller != t.creator {
                result == Err::<(), TaskError>(TaskError::UnauthorizedTaskCreator) && *final(task)
                    == t
            } else if !(t.status == TaskStatus::Created && new_status == TaskStatus::InProgress) {
                result == Err::<(), TaskError>(TaskError::InvalidTaskStatus) && *final(task) == t
            } else {
                &&& result is Ok
                &&& *final(task) == (Task { status: new_status, updated_at: now, ..t })
                &&& final(task).wf()
                &&& final(task).escrow_expected() == t.escrow_expected()
            }
        }),
{
    if caller != task.creator {
        return Err(TaskError::UnauthorizedTaskCreator);
    }
    if !(task.status == TaskStatus::Created && new_status == TaskStatus::InProgress) {
        return Err(TaskError::InvalidTaskStatus);
    }
    task.update_status(new_status, now);
    Ok(())
}

/// Mark the task `Completed`.  The task must admit completion — active,
/// with at least one assignee — the caller must be a listed assignee, and
/// the escrow must still cover the full reward.  Completion does not
/// disburse funds; each assignee collects their share afterwards through
/// [`claim_reward`].
pub fn complete_task(task: &mut Task, caller: AccountId, escrow_balance: u64, now: i64) -> (result:
    Result<(), TaskError>)
    requires
        old(task).wf(),
        now >= 0,
    ensures
        ({
            let t = *old(task);
            if !t.spec_can_complete() {
                result == Err::<(), TaskError>(TaskError::InvalidTaskStatus) && *final(task) == t
            } else if !t.assignees@.contains(caller) {
                result == Err::<(), TaskError>(TaskError::UnauthorizedAssignee) && *final(task)
                    == t
            } else if escrow_balance < t.reward_amount {
                result == Err::<(), TaskError>(TaskError::InsufficientEscrowBalance) && *final(task)
                    == t
            } else {
                &&& result is Ok
                &&& *final(task) == (Task {
                    status: TaskStatus::Completed,
                    updated_at: now,
                    ..t
                })
                &&& final(task).wf()
                &&& (escrow_consistent(t, escrow_balance) ==> escrow_consistent(
                    *final(task),
                    escrow_balance,
                ))
            }
        }),
{
    if !task.can_complete() {
        return Err(TaskError::InvalidTaskStatus);
    }
    if !task.is_assignee(caller) {
        return Err(TaskError::UnauthorizedAssignee);
    }
    if escrow_balance < task.reward_amount {
        return Err(TaskError::InsufficientEscrowBalance);
    }
    task.update_status(TaskStatus::Completed, now);
    Ok(())
}

/// Collect the caller's share of a completed task's reward: the reward
/// divided by the number of assignees, rounded down.  Each assignee may
/// collect exactly once; the rounding remainder stays in escrow until
/// [`close_task`].
pub fn claim_reward(
    task: &mut Task,
    caller: AccountId,
    escrow_balance: &mut u64,
    claimant_balance: &mut u64,
) -> (result: Result<(), TaskError>)
    requires
        old(task).wf(),
    ensures
        ({
            let t = *old(task);
            let payout = t.spec_reward_per_assignee();
            if t.status != TaskStatus::Completed {
                &&& result == Err::<(), TaskError>(TaskError::InvalidTaskStatus)
                &&& *final(task) == t
                &&& *final(escrow_balance) == *old(escrow_balance)
                &&& *final(claimant_balance) == *old(claimant_balance)
            } else if !t.assignees@.contains(caller) {
                &&& result == Err::<(), TaskError>(TaskError::UnauthorizedAssignee)
                &&& *final(task) == t
                &&& *final(escrow_balance) == *old(escrow_balance)
                &&& *final(claimant_balance) == *old(claimant_balance)
            } else if t.claimed_assignees@.contains(caller) {
                &&& result == Err::<(), TaskError>(TaskError::AlreadyClaimed)
                &&& *final(task) == t
                &&& *final(escrow_balance) == *old(escrow_balance)
                &&& *final(claimant_balance) == *old(claimant_balance)
            } else if *old(escrow_balance) < payout {
                &&& result == Err::<(), TaskError>(TaskError::InsufficientEscrowBalance)
                &&& *final(task) == t
                &&& *final(escrow_balance) == *old(escrow_balance)
                &&& *final(claimant_balance) == *old(claimant_balance)
            } else if *old(claimant_balance) + payout > u64::MAX {
                &&& result == Err::<(), TaskError>(TaskError::ArithmeticOverflow)
                &&& *final(task) == t
                &&& *final(escrow_balance) == *old(escrow_balance)
                &&& *final(claimant_balance) == *old(claimant_balance)
            } else {
                &&& result is Ok
                &&& final(task).claimed_assignees@ == t.claimed_assignees@.push(caller)
                &&& final(task).same_except_claims(t)
                &&& final(task).updated_at == t.updated_at
                &&& final(task).wf()
                &&& *final(escrow_balance) == *old(escrow_balance) - payout
                &&& *final(claimant_balance) == *old(claimant_balance) + payout
                &&& (escrow_consistent(t, *old(escrow_balance)) ==> escrow_consistent(
                    *final(task),
                    *final(escrow_balance),
                ))
            }
        }),
{
    if task.status != TaskStatus::Completed {
        return Err(TaskError::InvalidTaskStatus);
    }
    if !task.is_assignee(caller) {
        return Err(TaskError::UnauthorizedAssignee);
    }
    if task.has_claimed(caller) {
        return Err(TaskError::AlreadyClaimed);
    }
    let payout = task.reward_per_assignee();
    if *escrow_balance < payout {
        return Err(TaskError::InsufficientEscrowBalance);
    }
    let claimant_after = match claimant_balance.checked_add(payout) {
        Some(v) => v,
        None => {
            return Err(TaskError::ArithmeticOverflow);
        },
    };
    *escrow_balance = *escrow_balance - payout;
    *claimant_balance = claimant_after;
    task.claimed_assignees.push(caller);
    proof {
        let t = *old(task);
        let k = t.claimed_assignees@.len() as int;
        assert((k + 1) * t.share() == k * t.share() + t.share()) by (nonlinear_arith);
    }
    Ok(())
}

/// Close a completed task whose every share has been collected: the
/// rounding remainder left in escrow is refunded to the creator and the
/// escrow account is drained so the host can reclaim both accounts.  Any
/// identity may trigger the close; the refund always goes to the creator.
pub fn close_task(task: &Task, escrow_balance: &mut u64, creator_balance: &mut u64) -> (result:
    Result<(), TaskError>)
    requires
        task.wf(),
    ensures
        ({
            if !task.spec_can_close() {
                &&& result == Err::<(), TaskError>(TaskError::InvalidTaskStatus)
                &&& *final(escrow_balance) == *old(escrow_balance)
                &&& *final(creator_balance) == *old(creator_balance)
            } else if *old(creator_balance) + *old(escrow_balance) > u64::MAX {
                &&& result == Err::<(), TaskError>(TaskError::ArithmeticOverflow)
                &&& *final(escrow_balance) == *old(escrow_balance)
                &&& *final(creator_balance) == *old(creator_balance)
            } else {
                &&& result is Ok
                &&& *final(escrow_balance) == 0
                &&& *final(creator_balance) == *old(creator_balance) + *old(escrow_balance)
            }
        }),
{
    if !task.can_close_account() {
        return Err(TaskError::InvalidTaskStatus);
    }
    let creator_after = match creator_balance.checked_add(*escrow_balance) {
        Some(v) => v,
        None => {
            return Err(TaskError::ArithmeticOverflow);
        },
    };
    *creator_balance = creator_after;
    *escrow_balance = 0;
    Ok(())
}

/// Cancel a task and refund the whole escrow to the creator.  Only the
/// creator may cancel, and only before the task reaches a terminal state;
/// any other attempt is an authorization failure.  The task ends
/// `Cancelled` with an empty escrow.
pub fn delete_task(
    task: &mut Task,
    caller: AccountId,
    escrow_balance: &mut u64,
    creator_balance: &mut u64,
    now: i64,
) -> (result: Result<(), TaskError>)
    requires
        old(task).wf(),
        now >= 0,
    ensures
        ({
            let t = *old(task);
            if !t.spec_can_cancel(caller) {
                &&& result == Err::<(), TaskError>(TaskError::UnauthorizedTaskCreator)
                &&& *final(task) == t
                &&& *final(escrow_balance) == *old(escrow_balance)
                &&& *final(creator_balance) == *old(creator_balance)
            } else if *old(escrow_balance) < t.reward_amount {
                &&& result == Err::<(), TaskError>(TaskError::InsufficientEscrowBalance)
                &&& *final(task) == t
                &&& *final(escrow_balance) == *old(escrow_balance)
                &&& *final(creator_balance) == *old(creator_balance)
            } else if *old(creator_balance) + *old(escrow_balance) > u64::MAX {
                &&& result == Err::<(), TaskError>(TaskError::ArithmeticOverflow)
                &&& *final(task) == t
                &&& *final(escrow_balance) == *old(escrow_balance)
                &&& *final(creator_balance) == *old(creator_balance)
            } else {
                &&& result is Ok
                &&& *final(task) == (Task { status: TaskStatus::Cancelled, updated_at: now, ..t })
                &&& final(task).wf()
                &&& *final(escrow_balance) == 0
                &&& *final(creator_balance) == *old(creator_balance) + *old(escrow_balance)
                &&& escrow_consistent(*final(task), *final(escrow_balance))
            }
        }),
{
    if !task.can_cancel(caller) {
        return Err(TaskError::UnauthorizedTaskCreator);
    }
    if *escrow_balance < task.reward_amount {
        return Err(TaskError::InsufficientEscrowBalance);
    }
    let creator_after = match creator_balance.checked_add(*escrow_balance) {
        Some(v) => v,
        None => {
            return Err(TaskError::ArithmeticOverflow);
        },
    };
    *creator_balance = creator_after;
    *escrow_balance = 0;
    task.update_status(TaskStatus::Cancelled, now);
    Ok(())
}

} // verus!
