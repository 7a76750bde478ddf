//! Completion, per-assignee claims, and closing.

use altruvist::errors::TaskError;
use altruvist::state::{Task, TaskStatus};
use altruvist::task::{
    assign_task_multiple, claim_reward, close_task, complete_task, create_task,
};

const CREATOR: u64 = 1;
const ESCROW: u64 = 90;

fn completed_task(reward: u64, assignees: Vec<u64>) -> (Task, u64, u64) {
    let mut creator_balance: u64 = 10 * reward;
    let mut escrow_balance: u64 = 0;
    let mut task = create_task(
        "job".to_string(),
        reward,
        CREATOR,
        ESCROW,
        &mut creator_balance,
        &mut escrow_balance,
        1000,
    )
    .expect("creation should succeed");
    let first = assignees[0];
    assign_task_multiple(&mut task, CREATOR, assignees, 1001).expect("assignment should succeed");
    complete_task(&mut task, first, escrow_balance, 1002).expect("completion should succeed");
    (task, creator_balance, escrow_balance)
}

#[test]
fn three_way_split_leaves_remainder_for_creator() {
    // 100 split three ways pays 33 to each assignee; the single leftover
    // token goes back to the creator when the task is closed.
    let (mut task, mut creator_balance, mut escrow_balance) =
        completed_task(100, vec![7, 8, 9]);
    let mut balances: [u64; 3] = [0, 0, 0];
    for (i, who) in [7u64, 8, 9].into_iter().enumerate() {
        claim_reward(&mut task, who, &mut escrow_balance, &mut balances[i])
            .expect("each assignee may claim once");
        assert_eq!(balances[i], 33);
    }
    assert_eq!(escrow_balance, 1);
    assert_eq!(task.claimed_assignees, vec![7, 8, 9]);
    close_task(&task, &mut escrow_balance, &mut creator_balance).expect("all shares collected");
    assert_eq!(escrow_balance, 0);
    assert_eq!(creator_balance, 900 + 1);
}

#[test]
fn exact_split_leaves_empty_escrow() {
    let (mut task, mut creator_balance, mut escrow_balance) = completed_task(100, vec![7, 8]);
    let mut a: u64 = 0;
    let mut b: u64 = 0;
    claim_reward(&mut task, 7, &mut escrow_balance, &mut a).unwrap();
    claim_reward(&mut task, 8, &mut escrow_balance, &mut b).unwrap();
    assert_eq!(a, 50);
    assert_eq!(b, 50);
    assert_eq!(escrow_balance, 0);
    close_task(&task, &mut escrow_balance, &mut creator_balance).unwrap();
    assert_eq!(creator_balance, 900);
}

#[test]
fn claim_twice_is_rejected() {
    let (mut task, _, mut escrow_balance) = completed_task(100, vec![7, 8]);
    let mut wallet: u64 = 0;
    claim_reward(&mut task, 7, &mut escrow_balance, &mut wallet).unwrap();
    let r = claim_reward(&mut task, 7, &mut escrow_balance, &mut wallet);
    assert_eq!(r.unwrap_err(), TaskError::AlreadyClaimed);
    assert_eq!(wallet, 50);
    assert_eq!(escrow_balance, 50);
    assert_eq!(task.claimed_assignees, vec![7]);
}

#[test]
fn outsider_cannot_claim() {
    let (mut task, _, mut escrow_balance) = completed_task(100, vec![7, 8]);
    let mut wallet: u64 = 0;
    let r = claim_reward(&mut task, 99, &mut escrow_balance, &mut wallet);
    assert_eq!(r.unwrap_err(), TaskError::UnauthorizedAssignee);
    assert_eq!(escrow_balance, 100);
}

#[test]
fn claim_requires_completed_status() {
    let mut cb: u64 = 1000;
    let mut eb: u64 = 0;
    let mut task = create_task("job".to_string(), 100, CREATOR, ESCROW, &mut cb, &mut eb, 1000)
        .expect("creation should succeed");
    assign_task_multiple(&mut task, CREATOR, vec![7], 1001).unwrap();
    let mut wallet: u64 = 0;
    let r = claim_reward(&mut task, 7, &mut eb, &mut wallet);
    assert_eq!(r.unwrap_err(), TaskError::InvalidTaskStatus);
}

#[test]
fn complete_requires_listed_assignee() {
    let mut cb: u64 = 1000;
    let mut eb: u64 = 0;
    let mut task = create_task("job".to_string(), 100, CREATOR, ESCROW, &mut cb, &mut eb, 1000)
        .expect("creation should succeed");
    assign_task_multiple(&mut task, CREATOR, vec![7], 1001).unwrap();
    let r = complete_task(&mut task, 99, eb, 1002);
    assert_eq!(r.unwrap_err(), TaskError::UnauthorizedAssignee);
    assert_eq!(task.status, TaskStatus::InProgress);
}

#[test]
fn complete_requires_an_assignee() {
    // A task with nobody assigned does not admit completion: the failed
    // status predicate is an invalid-status error.
    let mut cb: u64 = 1000;
    let mut eb: u64 = 0;
    let mut task = create_task("job".to_string(), 100, CREATOR, ESCROW, &mut cb, &mut eb, 1000)
        .expect("creation should succeed");
    let r = complete_task(&mut task, 7, eb, 1001);
    assert_eq!(r.unwrap_err(), TaskError::InvalidTaskStatus);
    assert_eq!(task.status, TaskStatus::Created);
}

#[test]
fn complete_requires_funded_escrow() {
    let mut cb: u64 = 1000;
    let mut eb: u64 = 0;
    let mut task = create_task("job".to_string(), 100, CREATOR, ESCROW, &mut cb, &mut eb, 1000)
        .expect("creation should succeed");
    assign_task_multiple(&mut task, CREATOR, vec![7], 1001).unwrap();
    let r = complete_task(&mut task, 7, 99, 1002);
    assert_eq!(r.unwrap_err(), TaskError::InsufficientEscrowBalance);
}

#[test]
fn complete_rejects_terminal_status() {
    let (mut task, _, eb) = completed_task(100, vec![7]);
    let r = complete_task(&mut task, 7, eb, 1003);
    assert_eq!(r.unwrap_err(), TaskError::InvalidTaskStatus);
}

#[test]
fn close_requires_all_claims() {
    let (task, mut creator_balance, mut escrow_balance) = completed_task(100, vec![7, 8]);
    let r = close_task(&task, &mut escrow_balance, &mut creator_balance);
    assert_eq!(r.unwrap_err(), TaskError::InvalidTaskStatus);
    assert_eq!(escrow_balance, 100);
}

#[test]
fn single_assignee_collects_everything() {
    let (mut task, mut creator_balance, mut escrow_balance) = completed_task(100, vec![7]);
    let mut wallet: u64 = 0;
    claim_reward(&mut task, 7, &mut escrow_balance, &mut wallet).unwrap();
    assert_eq!(wallet, 100);
    assert_eq!(escrow_balance, 0);
    close_task(&task, &mut escrow_balance, &mut creator_balance).unwrap();
    assert_eq!(creator_balance, 900);
}

#[test]
fn claim_order_does_not_change_shares() {
    let (mut task, _, mut escrow_balance) = completed_task(101, vec![7, 8, 9]);
    let mut wallet: u64 = 0;
    claim_reward(&mut task, 9, &mut escrow_balance, &mut wallet).unwrap();
    assert_eq!(wallet, 33);
    let mut wallet2: u64 = 0;
    claim_reward(&mut task, 7, &mut escrow_balance, &mut wallet2).unwrap();
    assert_eq!(wallet2, 33);
    assert_eq!(escrow_balance, 101 - 66);
}
