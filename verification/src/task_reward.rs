//! Reward adjustment: immediate top-ups, and the time-locked decrease
//! protocol that keeps a creator from pulling funds out from under an
//! assignee who already started work.
//!
//! An increase moves the difference from the creator into escrow at once
//! and implicitly cancels any pending decrease.  A decrease only records a
//! request; the funds move when [`execute_pending_decrease`] runs, no
//! earlier than six hours after the request.

use vstd::prelude::*;
use crate::errors::TaskError;
use crate::state::AccountId;
use crate::state::Task;
use crate::state::TaskStatus;
use crate::state::escrow_consistent;

verus! {

/// What cancelling a pending decrease does to a task: the creator clears
/// both pending fields of an active task without moving funds; without a
/// pending decrease there is nothing to cancel.
pub open spec fn spec_cancel_pending_decrease(t: Task, caller: AccountId, now: i64) -> Result<
    Task,
    TaskError,
> {
    if !t.spec_can_modify(caller) {
        Err(TaskError::UnauthorizedTaskCreator)
    } else if t.pending_decrease_amount is None {
        Err(TaskError::NoPendingDecrease)
    } else {
        Ok(
            Task {
                pending_decrease_amount: None,
                decrease_requested_at: None,
                updated_at: now,
                ..t
            },
        )
    }
}

/// Cancelling a pending decrease cannot be repeated: after one successful
/// cancellation, a second attempt fails with `NoPendingDecrease` — and by
/// the contract of [`cancel_pending_decrease`], a failed attempt changes
/// nothing.
pub proof fn lemma_cancel_pending_decrease_idempotent(
    t: Task,
    caller: AccountId,
    now1: i64,
    now2: i64,
)
    requires
        spec_cancel_pending_decrease(t, caller, now1) is Ok,
    ensures
        spec_cancel_pending_decrease(
            spec_cancel_pending_decrease(t, caller, now1)->Ok_0,
            caller,
            now2,
        ) == Err::<Task, TaskError>(TaskError::NoPendingDecrease),
{
}

/// Change the reward of an active task, as its creator.
///
/// A larger amount is an immediate top-up: the difference moves from the
/// creator into escrow, any pending decrease is implicitly cancelled, and
/// `reward_amount` changes at once.  A smaller amount only records a
/// pending decrease — allowed while the task is still `Created` — to be
/// executed after the time lock.  The same amount just refreshes the
/// update timestamp.
pub fn update_task_reward(
    task: &mut Task,
    caller: AccountId,
    new_reward_amount: u64,
    creator_balance: &mut u64,
    escrow_balance: &mut u64,
    now: i64,
) -> (result: Result<(), TaskError>)
    requires
        old(task).wf(),
        now >= 0,
    ensures
        ({
            let t = *old(task);
            let delta = new_reward_amount - t.reward_amount;
            if !t.spec_can_modify(caller) {
                &&& result == Err::<(), TaskError>(TaskError::UnauthorizedTaskCreator)
                &&& *final(task) == t
                &&& *final(creator_balance) == *old(creator_balance)
                &&& *final(escrow_balance) == *old(escrow_balance)
            } else if new_reward_amount == 0 {
                &&& result == Err::<(), TaskError>(TaskError::InvalidRewardAmount)
                &&& *final(task) == t
                &&& *final(creator_balance) == *old(creator_balance)
                &&& *final(escrow_balance) == *old(escrow_balance)
            } else if new_reward_amount > t.reward_amount {
                if *old(creator_balance) < delta {
                    &&& result == Err::<(), TaskError>(TaskError::InsufficientEscrowBalance)
                    &&& *final(task) == t
                    &&& *final(creator_balance) == *old(creator_balance)
                    &&& *final(escrow_balance) == *old(escrow_balance)
                } else if *old(escrow_balance) + delta > u64::MAX {
                    &&& result == Err::<(), TaskError>(TaskError::ArithmeticOverflow)
                    &&& *final(task) == t
                    &&& *final(creator_balance) == *old(creator_balance)
                    &&& *final(escrow_balance) == *old(escrow_balance)
                } else {
                    &&& result is Ok
                    &&& *final(task) == (Task {
                        reward_amount: new_reward_amount,
                        pending_decrease_amount: None,
                        decrease_requested_at: None,
                        updated_at: now,
                        ..t
                    })
                    &&& *final(creator_balance) == *old(creator_balance) - delta
                    &&& *final(escrow_balance) == *old(escrow_balance) + delta
                    &&& final(task).wf()
                    &&& (escrow_consistent(t, *old(escrow_balance)) ==> escrow_consistent(
                        *final(task),
                        *final(escrow_balance),
                    ))
                }
            } else if new_reward_amount < t.reward_amount {
                if !t.spec_can_initiate_decrease(caller) {
                    &&& result == Err::<(), TaskError>(
                        TaskError::CannotDecreaseRewardInvalidStatus,
                    )
                    &&& *final(task) == t
                    &&& *final(creator_balance) == *old(creator_balance)
                    &&& *final(escrow_balance) == *old(escrow_balance)
                } else {
                    &&& result is Ok
                    &&& *final(task) == (Task {
                        pending_decrease_amount: Some(new_reward_amount),
                        decrease_requested_at: Some(now),
                        updated_at: now,
                        ..t
                    })
                    &&& *final(creator_balance) == *old(creator_balance)
                    &&& *final(escrow_balance) == *old(escrow_balance)
                    &&& final(task).wf()
                    &&& (escrow_consistent(t, *old(escrow_balance)) ==> escrow_consistent(
                        *final(task),
                        *final(escrow_balance),
                    ))
                }
            } else {
                &&& result is Ok
                &&& *final(task) == (Task { updated_at: now, ..t })
                &&& *final(creator_balance) == *old(creator_balance)
                &&& *final(escrow_balance) == *old(escrow_balance)
                &&& final(task).wf()
            }
        }),
{
    if !task.can_modify(caller) {
        return Err(TaskError::UnauthorizedTaskCreator);
    }
    if new_reward_amount == 0 {
        return Err(TaskError::InvalidRewardAmount);
    }
    if new_reward_amount > task.reward_amount {
        let delta = new_reward_amount - task.reward_amount;
        if *creator_balance < delta {
            return Err(TaskError::InsufficientEscrowBalance);
        }
        let escrow_after = match escrow_balance.checked_add(delta) {
            Some(v) => v,
            None => {
                return Err(TaskError::ArithmeticOverflow);
            },
        };
        *creator_balance = *creator_balance - delta;
        *escrow_balance = escrow_after;
        task.pending_decrease_amount = None;
        task.decrease_requested_at = None;
        task.reward_amount = new_reward_amount;
        task.updated_at = now;
        Ok(())
    } else if new_reward_amount < task.reward_amount {
        if !task.can_initiate_decrease(caller) {
            return Err(TaskError::CannotDecreaseRewardInvalidStatus);
        }
        task.request_decrease(new_reward_amount, now);
        Ok(())
    } else {
        task.updated_at = now;
        Ok(())
    }
}

/// Execute a pending reward decrease once its waiting period has elapsed:
/// the difference between the old and the new reward moves from escrow
/// back to the creator, `reward_amount` drops to the pending value, and
/// both pending fields clear.
pub fn execute_pending_decrease(
    task: &mut Task,
    caller: AccountId,
    escrow_balance: &mut u64,
    creator_balance: &mut u64,
    now: i64,
) -> (result: Result<(), TaskError>)
    requires
        old(task).wf(),
        now >= 0,
    ensures
        ({
            let t = *old(task);
            if caller != t.creator {
                &&& result == Err::<(), TaskError>(TaskError::UnauthorizedTaskCreator)
                &&& *final(task) == t
                &&& *final(escrow_balance) == *old(escrow_balance)
                &&& *final(creator_balance) == *old(creator_balance)
            } else if !t.is_active() {
                &&& result == Err::<(), TaskError>(TaskError::InvalidTaskStatus)
                &&& *final(task) == t
                &&& *final(escrow_balance) == *old(escrow_balance)
                &&& *final(creator_balance) == *old(creator_balance)
            } else if t.pending_decrease_amount is None {
                &&& result == Err::<(), TaskError>(TaskError::NoPendingDecrease)
                &&& *final(task) == t
                &&& *final(escrow_balance) == *old(escrow_balance)
                &&& *final(creator_balance) == *old(creator_balance)
            } else if !t.spec_can_execute_decrease(now) {
                &&& result == Err::<(), TaskError>(TaskError::DecreaseTimeLockNotMet)
                &&& *final(task) == t
                &&& *final(escrow_balance) == *old(escrow_balance)
                &&& *final(creator_balance) == *old(creator_balance)
            } else {
                let new_amount = t.pending_decrease_amount->0;
                let refund = t.reward_amount - new_amount;
                if *old(escrow_balance) < refund {
                    &&& result == Err::<(), TaskError>(TaskError::InsufficientEscrowBalance)
                    &&& *final(task) == t
                    &&& *final(escrow_balance) == *old(escrow_balance)
                    &&& *final(creator_balance) == *old(creator_balance)
                } else if *old(creator_balance) + refund > u64::MAX {
                    &&& result == Err::<(), TaskError>(TaskError::ArithmeticOverflow)
                    &&& *final(task) == t
                    &&& *final(escrow_balance) == *old(escrow_balance)
                    &&& *final(creator_balance) == *old(creator_balance)
                } else {
                    &&& result is Ok
                    &&& *final(task) == (Task {
                        reward_amount: new_amount as u64,
                        pending_decrease_amount: None,
                        decrease_requested_at: None,
                        updated_at: now,
                        ..t
                    })
                    &&& *final(escrow_balance) == *old(escrow_balance) - refund
                    &&& *final(creator_balance) == *old(creator_balance) + refund
                    &&& final(task).wf()
                    &&& (escrow_consistent(t, *old(escrow_balance)) ==> escrow_consistent(
                        *final(task),
                        *final(escrow_balance),
                    ))
                }
            }
        }),
{
    if caller != task.creator {
        return Err(TaskError::UnauthorizedTaskCreator);
    }
    if !(task.status == TaskStatus::Created || task.status == TaskStatus::InProgress) {
        return Err(TaskError::InvalidTaskStatus);
    }
    let new_amount = match task.pending_decrease_amount {
        Some(a) => a,
        None => {
            return Err(TaskError::NoPendingDecrease);
        },
    };
    if !task.can_execute_decrease(now) {
        return Err(TaskError::DecreaseTimeLockNotMet);
    }
    let refund = task.reward_amount - new_amount;
    if *escrow_balance < refund {
        return Err(TaskError::InsufficientEscrowBalance);
    }
    let creator_after = match creator_balance.checked_add(refund) {
        Some(v) => v,
        None => {
            return Err(TaskError::ArithmeticOverflow);
        },
    };
    *escrow_balance = *escrow_balance - refund;
    *creator_balance = creator_after;
    task.execute_decrease(now);
    Ok(())
}

/// Cancel a pending reward decrease, as the creator of an active task:
/// both pending fields clear and no funds move.
pub fn cancel_pending_decrease(task: &mut Task, caller: AccountId, now: i64) -> (result: Result<
    (),
    TaskError,
>)
    requires
        old(task).wf(),
        now >= 0,
    ensures
        ({
            let r = spec_cancel_pending_decrease(*old(task), caller, now);
            match result {
                Ok(()) => r == Ok::<Task, TaskError>(*final(task)) && final(task).wf(),
                Err(e) => r == Err::<Task, TaskError>(e) && *final(task) == *old(task),
            }
        }),
{
    if !task.can_modify(caller) {
        return Err(TaskError::UnauthorizedTaskCreator);
    }
    if task.pending_decrease_amount.is_none() {
        return Err(TaskError::NoPendingDecrease);
    }
    task.cancel_decrease(now);
    Ok(())
}

} // verus!
