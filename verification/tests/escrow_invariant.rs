//! The escrow invariant across a whole lifecycle: while a task is Created
//! or InProgress the escrow holds exactly the reward; once completed it
//! drops by one share per claim; after cancellation it is empty.

use altruvist::state::TaskStatus;
use altruvist::task::{assign_task_multiple, claim_reward, complete_task, create_task, delete_task};
use altruvist::task_reward::update_task_reward;

const CREATOR: u64 = 1;
const ESCROW: u64 = 90;

#[test]
fn escrow_tracks_reward_while_active() {
    let mut cb: u64 = 2000;
    let mut eb: u64 = 0;
    let mut task = create_task("job".to_string(), 300, CREATOR, ESCROW, &mut cb, &mut eb, 1000)
        .expect("creation should succeed");
    assert_eq!(task.status, TaskStatus::Created);
    assert_eq!(eb, task.reward_amount);

    assign_task_multiple(&mut task, CREATOR, vec![7, 8], 1001).unwrap();
    assert_eq!(task.status, TaskStatus::InProgress);
    assert_eq!(eb, task.reward_amount);

    update_task_reward(&mut task, CREATOR, 500, &mut cb, &mut eb, 1002).unwrap();
    assert_eq!(eb, task.reward_amount);
    assert_eq!(eb, 500);

    complete_task(&mut task, 7, eb, 1003).unwrap();
    assert_eq!(task.status, TaskStatus::Completed);
    assert_eq!(eb, 500);

    let mut wallet: u64 = 0;
    claim_reward(&mut task, 7, &mut eb, &mut wallet).unwrap();
    assert_eq!(eb, 250);
    claim_reward(&mut task, 8, &mut eb, &mut wallet).unwrap();
    assert_eq!(eb, 0);
}

#[test]
fn escrow_empties_on_cancellation() {
    let mut cb: u64 = 2000;
    let mut eb: u64 = 0;
    let mut task = create_task("job".to_string(), 300, CREATOR, ESCROW, &mut cb, &mut eb, 1000)
        .expect("creation should succeed");
    assert_eq!(eb, task.reward_amount);
    delete_task(&mut task, CREATOR, &mut eb, &mut cb, 1001).unwrap();
    assert_eq!(task.status, TaskStatus::Cancelled);
    assert_eq!(eb, 0);
    assert_eq!(cb, 2000);
}
