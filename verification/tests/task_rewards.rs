//! Reward top-ups and the time-locked decrease protocol.

use altruvist::errors::TaskError;
use altruvist::state::{TaskStatus, DECREASE_TIME_LOCK};
use altruvist::task::{assign_task, create_task};
use altruvist::task_reward::{
    cancel_pending_decrease, execute_pending_decrease, update_task_reward,
};

const CREATOR: u64 = 1;
const ESCROW: u64 = 90;

#[test]
fn decrease_respects_the_time_lock() {
    // Lower 500 to 300 at t0: the pending fields record the request; one
    // second before the six-hour mark execution fails, at the mark it
    // refunds 200 and sets the reward to 300.
    let t0: i64 = 10_000;
    let mut cb: u64 = 1000;
    let mut eb: u64 = 0;
    let mut task = create_task("t".to_string(), 500, CREATOR, ESCROW, &mut cb, &mut eb, t0)
        .expect("creation should succeed");
    update_task_reward(&mut task, CREATOR, 300, &mut cb, &mut eb, t0).expect("decrease recorded");
    assert_eq!(task.pending_decrease_amount, Some(300));
    assert_eq!(task.decrease_requested_at, Some(t0));
    assert_eq!(task.reward_amount, 500);
    assert_eq!(eb, 500);

    let early = t0 + DECREASE_TIME_LOCK - 1;
    let r = execute_pending_decrease(&mut task, CREATOR, &mut eb, &mut cb, early);
    assert_eq!(r.unwrap_err(), TaskError::DecreaseTimeLockNotMet);
    assert_eq!(task.reward_amount, 500);
    assert_eq!(eb, 500);
    assert_eq!(cb, 500);

    let due = t0 + DECREASE_TIME_LOCK;
    execute_pending_decrease(&mut task, CREATOR, &mut eb, &mut cb, due)
        .expect("time lock has elapsed");
    assert_eq!(task.reward_amount, 300);
    assert_eq!(task.pending_decrease_amount, None);
    assert_eq!(task.decrease_requested_at, None);
    assert_eq!(eb, 300);
    assert_eq!(cb, 700);
}

#[test]
fn execute_without_pending_fails() {
    let mut cb: u64 = 1000;
    let mut eb: u64 = 0;
    let mut task = create_task("t".to_string(), 500, CREATOR, ESCROW, &mut cb, &mut eb, 1000)
        .expect("creation should succeed");
    let r = execute_pending_decrease(&mut task, CREATOR, &mut eb, &mut cb, 999_999);
    assert_eq!(r.unwrap_err(), TaskError::NoPendingDecrease);
}

#[test]
fn cancel_pending_decrease_twice_fails_second_time() {
    // Idempotence: the first cancellation clears the pending fields; the
    // second finds nothing to cancel and changes nothing.
    let mut cb: u64 = 1000;
    let mut eb: u64 = 0;
    let mut task = create_task("t".to_string(), 500, CREATOR, ESCROW, &mut cb, &mut eb, 1000)
        .expect("creation should succeed");
    update_task_reward(&mut task, CREATOR, 300, &mut cb, &mut eb, 1001).unwrap();
    assert_eq!(task.pending_decrease_amount, Some(300));

    cancel_pending_decrease(&mut task, CREATOR, 1002).expect("first cancellation succeeds");
    assert_eq!(task.pending_decrease_amount, None);
    assert_eq!(task.decrease_requested_at, None);
    assert_eq!(task.updated_at, 1002);
    let snapshot = task.clone();

    let r = cancel_pending_decrease(&mut task, CREATOR, 1003);
    assert_eq!(r.unwrap_err(), TaskError::NoPendingDecrease);
    assert_eq!(task, snapshot);
    assert_eq!(eb, 500);
    assert_eq!(cb, 500);
}

#[test]
fn increase_tops_up_and_cancels_pending() {
    let mut cb: u64 = 1000;
    let mut eb: u64 = 0;
    let mut task = create_task("t".to_string(), 500, CREATOR, ESCROW, &mut cb, &mut eb, 1000)
        .expect("creation should succeed");
    update_task_reward(&mut task, CREATOR, 300, &mut cb, &mut eb, 1001).unwrap();
    update_task_reward(&mut task, CREATOR, 600, &mut cb, &mut eb, 1002)
        .expect("increase is immediate");
    assert_eq!(task.reward_amount, 600);
    assert_eq!(task.pending_decrease_amount, None);
    assert_eq!(task.decrease_requested_at, None);
    assert_eq!(eb, 600);
    assert_eq!(cb, 400);
}

#[test]
fn increase_rejects_short_creator_balance() {
    let mut cb: u64 = 550;
    let mut eb: u64 = 0;
    let mut task = create_task("t".to_string(), 500, CREATOR, ESCROW, &mut cb, &mut eb, 1000)
        .expect("creation should succeed");
    let r = update_task_reward(&mut task, CREATOR, 600, &mut cb, &mut eb, 1001);
    assert_eq!(r.unwrap_err(), TaskError::InsufficientEscrowBalance);
    assert_eq!(task.reward_amount, 500);
    assert_eq!(cb, 50);
    assert_eq!(eb, 500);
}

#[test]
fn same_amount_only_refreshes_timestamp() {
    let mut cb: u64 = 1000;
    let mut eb: u64 = 0;
    let mut task = create_task("t".to_string(), 500, CREATOR, ESCROW, &mut cb, &mut eb, 1000)
        .expect("creation should succeed");
    update_task_reward(&mut task, CREATOR, 500, &mut cb, &mut eb, 1234).unwrap();
    assert_eq!(task.reward_amount, 500);
    assert_eq!(task.updated_at, 1234);
    assert_eq!(cb, 500);
    assert_eq!(eb, 500);
}

#[test]
fn decrease_rejected_once_in_progress() {
    let mut cb: u64 = 1000;
    let mut eb: u64 = 0;
    let mut task = create_task("t".to_string(), 500, CREATOR, ESCROW, &mut cb, &mut eb, 1000)
        .expect("creation should succeed");
    assign_task(&mut task, CREATOR, 7, 1001).unwrap();
    let r = update_task_reward(&mut task, CREATOR, 300, &mut cb, &mut eb, 1002);
    assert_eq!(r.unwrap_err(), TaskError::CannotDecreaseRewardInvalidStatus);
    assert_eq!(task.pending_decrease_amount, None);
}

#[test]
fn reward_update_rejects_non_creator_and_zero() {
    let mut cb: u64 = 1000;
    let mut eb: u64 = 0;
    let mut task = create_task("t".to_string(), 500, CREATOR, ESCROW, &mut cb, &mut eb, 1000)
        .expect("creation should succeed");
    let r = update_task_reward(&mut task, 99, 300, &mut cb, &mut eb, 1001);
    assert_eq!(r.unwrap_err(), TaskError::UnauthorizedTaskCreator);
    let r = update_task_reward(&mut task, CREATOR, 0, &mut cb, &mut eb, 1001);
    assert_eq!(r.unwrap_err(), TaskError::InvalidRewardAmount);
}

#[test]
fn cancel_pending_decrease_rejects_non_creator() {
    let mut cb: u64 = 1000;
    let mut eb: u64 = 0;
    let mut task = create_task("t".to_string(), 500, CREATOR, ESCROW, &mut cb, &mut eb, 1000)
        .expect("creation should succeed");
    update_task_reward(&mut task, CREATOR, 300, &mut cb, &mut eb, 1001).unwrap();
    let r = cancel_pending_decrease(&mut task, 99, 1002);
    assert_eq!(r.unwrap_err(), TaskError::UnauthorizedTaskCreator);
    assert_eq!(task.pending_decrease_amount, Some(300));
}

#[test]
fn execute_rejects_non_creator() {
    let t0: i64 = 10_000;
    let mut cb: u64 = 1000;
    let mut eb: u64 = 0;
    let mut task = create_task("t".to_string(), 500, CREATOR, ESCROW, &mut cb, &mut eb, t0)
        .expect("creation should succeed");
    update_task_reward(&mut task, CREATOR, 300, &mut cb, &mut eb, t0).unwrap();
    let r = execute_pending_decrease(&mut task, 99, &mut eb, &mut cb, t0 + DECREASE_TIME_LOCK);
    assert_eq!(r.unwrap_err(), TaskError::UnauthorizedTaskCreator);
    assert_eq!(task.reward_amount, 500);
}
