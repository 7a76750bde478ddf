//! The persisted entities and their invariants: `Faucet`,
//! `UserRequestRecord`, `Task` and the task status machine.
//!
//! Identities and account addresses are opaque to the engine: it only ever
//! compares them for equality, so they are modeled as plain 64-bit
//! identifiers.  Timestamps are Unix-epoch seconds supplied by the caller on
//! every operation.

use vstd::prelude::*;
use vstd::string::is_ascii;
use vstd::string::StringSliceAdditionalSpecFns;
use crate::errors::TaskError;

verus! {

/// An opaque account address or identity.  The engine never inspects it,
/// only compares it for equality.
pub type AccountId = u64;

/// Upper bound on the number of assignees of one task.
pub const MAX_ASSIGNEES: usize = 10;

/// Mandatory waiting period between requesting and executing a reward
/// decrease: six hours, in seconds.
pub const DECREASE_TIME_LOCK: i64 = 6 * 60 * 60;

/// Upper bound on the byte length of a task identifier.
pub const MAX_TASK_ID_LEN: usize = 50;

/// Singleton-per-mint faucet configuration.
#[derive(Clone, Copy, Debug, PartialEq, Eq, Structural)]
pub struct Faucet {
    /// The mint this faucet controls.
    pub mint: AccountId,
    /// Authority of the faucet (the faucet itself).
    pub authority: AccountId,
    /// Account that holds the faucet's token pool.
    pub token_account: AccountId,
    /// Largest amount one request may ask for.
    pub rate_limit: u64,
    /// Seconds that must elapse between two requests by one identity.
    pub cooldown_period: i64,
}

impl Faucet {
    /// Validity of a faucet record: the rate limit is positive and the
    /// cooldown is a non-negative span of seconds.
    pub open spec fn wf(self) -> bool {
        &&& self.rate_limit > 0
        &&& self.cooldown_period >= 0
    }
}

/// Per-(faucet, identity) request tracking for rate limiting.
#[derive(Clone, Copy, Debug, PartialEq, Eq, Structural)]
pub struct UserRequestRecord {
    /// The requesting identity.
    pub user: AccountId,
    /// Timestamp of the last granted request; 0 means never.
    pub last_request: i64,
    /// Total tokens ever received by this identity.
    pub total_received: u64,
    /// Number of granted requests.
    pub request_count: u32,
}

impl UserRequestRecord {
    /// Validity of a request record: the last-request timestamp is a
    /// Unix-epoch second (or 0 for "never").
    pub open spec fn wf(self) -> bool {
        self.last_request >= 0
    }
}

/// Lifecycle states of a task.  A task only ever advances
/// `Created -> InProgress -> Completed`, or moves from a non-terminal state
/// to `Cancelled`; `Completed` and `Cancelled` are terminal.
#[derive(Clone, Copy, Debug, PartialEq, Eq, Structural)]
pub enum TaskStatus {
    Created,
    InProgress,
    Completed,
    Cancelled,
}

/// True of the characters a task identifier may hold:
/// ASCII letters, digits, `_` and `-`.
pub open spec fn valid_id_char(c: char) -> bool {
    ||| 'a' <= c && c <= 'z'
    ||| 'A' <= c && c <= 'Z'
    ||| '0' <= c && c <= '9'
    ||| c == '_'
    ||| c == '-'
}

/// A task identifier drawn from the right alphabet: non-empty, every
/// character in `[A-Za-z0-9_-]`.
pub open spec fn valid_id_chars(id: Seq<char>) -> bool {
    &&& id.len() >= 1
    &&& forall|i: int| 0 <= i < id.len() ==> valid_id_char(#[trigger] id[i])
}

/// A valid task identifier: non-empty, at most 50 characters, all drawn
/// from `[A-Za-z0-9_-]`.
pub open spec fn valid_task_id(id: Seq<char>) -> bool {
    valid_id_chars(id) && id.len() <= MAX_TASK_ID_LEN
}

/// True when no element of `a` occurs in `b`.
pub open spec fn seqs_disjoint(a: Seq<AccountId>, b: Seq<AccountId>) -> bool {
    forall|i: int| 0 <= i < a.len() ==> !b.contains(#[trigger] a[i])
}

/// The central entity: a task with an escrowed reward.
#[derive(Clone, Debug, PartialEq, Eq)]
pub struct Task {
    /// Unique identifier, per creator.
    pub task_id: String,
    /// Total reward currently escrowed for the task.
    pub reward_amount: u64,
    /// Current lifecycle state.
    pub status: TaskStatus,
    /// The creator's identity.
    pub creator: AccountId,
    /// The escrow account holding the reward.
    pub escrow_account: AccountId,
    /// Identities designated to perform the work, in assignment order.
    pub assignees: Vec<AccountId>,
    /// The assignees that have already collected their share.
    pub claimed_assignees: Vec<AccountId>,
    /// Creation timestamp.
    pub created_at: i64,
    /// Timestamp of the last mutation.
    pub updated_at: i64,
    /// Amount a pending reward decrease would lower the reward to.
    pub pending_decrease_amount: Option<u64>,
    /// When the pending decrease was requested.
    pub decrease_requested_at: Option<i64>,
}

impl Task {
    /// Validity of a task record.  Every operation of the engine preserves
    /// this predicate:
    /// the identifier is well formed, the reward is positive, the assignee
    /// list is bounded, duplicate-free and never holds the creator, every
    /// claimant is a distinct listed assignee, the two pending-decrease
    /// fields are present or absent together and a pending amount is a
    /// proper decrease, timestamps are Unix-epoch seconds, claims exist
    /// only once the task is `Completed`, a `Completed` task has at least
    /// one assignee, and a task still `Created` has none.
    pub open spec fn wf(self) -> bool {
        &&& valid_task_id(self.task_id@)
        &&& self.reward_amount > 0
        &&& self.assignees@.len() <= MAX_ASSIGNEES
        &&& self.assignees@.no_duplicates()
        &&& !self.assignees@.contains(self.creator)
        &&& self.claimed_assignees@.no_duplicates()
        &&& forall|i: int|
            0 <= i < self.claimed_assignees@.len()
                ==> self.assignees@.contains(#[trigger] self.claimed_assignees@[i])
        &&& self.pending_decrease_amount is Some <==> self.decrease_requested_at is Some
        &&& (self.pending_decrease_amount matches Some(a) ==> 0 < a < self.reward_amount)
        &&& (self.decrease_requested_at matches Some(ts) ==> ts >= 0)
        &&& self.created_at >= 0
        &&& self.updated_at >= 0
        &&& (self.status != TaskStatus::Completed ==> self.claimed_assignees@.len() == 0)
        &&& (self.status == TaskStatus::Completed ==> self.assignees@.len() > 0)
        &&& (self.status == TaskStatus::Created ==> self.assignees@.len() == 0)
    }

    /// An active task: funds are escrowed and work may still happen.
    pub open spec fn is_active(self) -> bool {
        self.status == TaskStatus::Created || self.status == TaskStatus::InProgress
    }

    /// Whether `authority` may modify the task (reward updates and the
    /// like): only the creator, and only while the task is active.
    pub open spec fn spec_can_modify(self, authority: AccountId) -> bool {
        self.creator == authority && self.is_active()
    }

    /// Whether the task can be completed: it is active and has at least one
    /// assignee.
    pub open spec fn spec_can_complete(self) -> bool {
        self.is_active() && self.assignees@.len() > 0
    }

    /// Whether `authority` may cancel the task: only the creator, and only
    /// before the task reaches a terminal state.
    pub open spec fn spec_can_cancel(self, authority: AccountId) -> bool {
        self.creator == authority && self.status != TaskStatus::Completed && self.status
            != TaskStatus::Cancelled
    }

    /// Whether `authority` may initiate a reward decrease: only the
    /// creator, and only while the task is still `Created`.
    pub open spec fn spec_can_initiate_decrease(self, authority: AccountId) -> bool {
        self.creator == authority && self.status == TaskStatus::Created
    }

    /// Whether a pending decrease exists and its waiting period has
    /// elapsed at `current_time`.
    pub open spec fn spec_can_execute_decrease(self, current_time: i64) -> bool {
        match (self.pending_decrease_amount, self.decrease_requested_at) {
            (Some(_), Some(requested_at)) => current_time - requested_at >= DECREASE_TIME_LOCK,
            _ => false,
        }
    }

    /// Whether every listed assignee has collected their share.
    pub open spec fn spec_all_claimed(self) -> bool {
        self.assignees@.len() > 0 && self.claimed_assignees@.len() == self.assignees@.len()
    }

    /// Whether the task account can be closed: completed, and every share
    /// collected.
    pub open spec fn spec_can_close(self) -> bool {
        self.status == TaskStatus::Completed && self.spec_all_claimed()
    }

    /// Each assignee's share of the reward: the reward divided by the
    /// number of assignees, rounded down.  Meaningful only once assignees
    /// exist.
    pub open spec fn share(self) -> int {
        self.reward_amount as int / self.assignees@.len() as int
    }

    /// The reward per assignee as the engine computes it: zero when nobody
    /// is assigned.
    pub open spec fn spec_reward_per_assignee(self) -> int {
        if self.assignees@.len() == 0 {
            0
        } else {
            self.share()
        }
    }

    /// The balance the task's escrow account must hold in each state:
    /// the full reward while the task is active, the reward minus the
    /// shares already paid out once it is completed, and nothing once it is
    /// cancelled.
    pub open spec fn escrow_expected(self) -> int {
        match self.status {
            TaskStatus::Created => self.reward_amount as int,
            TaskStatus::InProgress => self.reward_amount as int,
            TaskStatus::Completed => self.reward_amount - self.claimed_assignees@.len() * self.share(),
            TaskStatus::Cancelled => 0,
        }
    }

    /// Fields no assignment operation may touch: everything but the
    /// status, the assignee list and the update timestamp.
    pub open spec fn same_except_assignment(self, other: Task) -> bool {
        &&& self.task_id == other.task_id
        &&& self.reward_amount == other.reward_amount
        &&& self.creator == other.creator
        &&& self.escrow_account == other.escrow_account
        &&& self.claimed_assignees == other.claimed_assignees
        &&& self.created_at == other.created_at
        &&& self.pending_decrease_amount == other.pending_decrease_amount
        &&& self.decrease_requested_at == other.decrease_requested_at
    }

    /// Fields no claim may touch: everything but the claimant list and the
    /// update timestamp.
    pub open spec fn same_except_claims(self, other: Task) -> bool {
        &&& self.task_id == other.task_id
        &&& self.reward_amount == other.reward_amount
        &&& self.status == other.status
        &&& self.creator == other.creator
        &&& self.escrow_account == other.escrow_account
        &&& self.assignees == other.assignees
        &&& self.created_at == other.created_at
        &&& self.pending_decrease_amount == other.pending_decrease_amount
        &&& self.decrease_requested_at == other.decrease_requested_at
    }
}

/// True when some element of `v[0..n]` equals `x`; what a linear scan of
/// the first `n` elements finds.
pub open spec fn prefix_contains(v: Seq<AccountId>, n: int, x: AccountId) -> bool {
    exists|j: int| 0 <= j < n && v[j] == x
}

/// Linear membership scan over a vector of identities.
fn vec_contains(v: &Vec<AccountId>, x: AccountId) -> (r: bool)
    ensures
        r == v@.contains(x),
{
    let mut i: usize = 0;
    while i < v.len()
        invariant
            i <= v@.len(),
            forall|j: int| 0 <= j < i ==> v@[j] != x,
        decreases v@.len() - i,
    {
        if v[i] == x {
            assert(v@.contains(x)) by {
                assert(v@[i as int] == x);
            }
            return true;
        }
        i = i + 1;
    }
    false
}

/// Linear membership scan over the first `n` elements of a vector.
fn vec_prefix_contains(v: &Vec<AccountId>, n: usize, x: AccountId) -> (r: bool)
    requires
        n <= v@.len(),
    ensures
        r == prefix_contains(v@, n as int, x),
{
    let mut i: usize = 0;
    while i < n
        invariant
            i <= n <= v@.len(),
            forall|j: int| 0 <= j < i ==> v@[j] != x,
        decreases n - i,
    {
        if v[i] == x {
            assert(prefix_contains(v@, n as int, x)) by {
                assert(0 <= i < n && v@[i as int] == x);
            }
            return true;
        }
        i = i + 1;
    }
    false
}

impl Task {
    /// Whether `authority` may modify the task: the creator, while the
    /// task is active.
    pub fn can_modify(&self, authority: AccountId) -> (r: bool)
        ensures
            r == self.spec_can_modify(authority),
    {
        self.creator == authority && (self.status == TaskStatus::Created || self.status
            == TaskStatus::InProgress)
    }

    /// Whether the task can be completed.
    pub fn can_complete(&self) -> (r: bool)
        ensures
            r == self.spec_can_complete(),
    {
        (self.status == TaskStatus::Created || self.status == TaskStatus::InProgress)
            && self.assignees.len() > 0
    }

    /// Whether `authority` may cancel the task.
    pub fn can_cancel(&self, authority: AccountId) -> (r: bool)
        ensures
            r == self.spec_can_cancel(authority),
    {
        self.creator == authority && self.status != TaskStatus::Completed && self.status
            != TaskStatus::Cancelled
    }

    /// Whether `authority` may initiate a reward decrease.
    pub fn can_initiate_decrease(&self, authority: AccountId) -> (r: bool)
        ensures
            r == self.spec_can_initiate_decrease(authority),
    {
        self.creator == authority && self.status == TaskStatus::Created
    }

    /// Whether a pending decrease exists whose waiting period has elapsed.
    pub fn can_execute_decrease(&self, current_time: i64) -> (r: bool)
        requires
            current_time >= 0,
            self.decrease_requested_at matches Some(ts) ==> ts >= 0,
        ensures
            r == self.spec_can_execute_decrease(current_time),
    {
        match (self.pending_decrease_amount, self.decrease_requested_at) {
            (Some(_), Some(requested_at)) => current_time - requested_at >= DECREASE_TIME_LOCK,
            _ => false,
        }
    }

    /// Set the status and refresh the update timestamp.  This is the raw
    /// record mutation; the lifecycle rules live in the operations that
    /// call it.
    pub fn update_status(&mut self, new_status: TaskStatus, now: i64)
        ensures
            *final(self) == (Task { status: new_status, updated_at: now, ..*old(self) }),
    {
        self.status = new_status;
        self.updated_at = now;
    }

    /// Whether `user` is a listed assignee.
    pub fn is_assignee(&self, user: AccountId) -> (r: bool)
        ensures
            r == self.assignees@.contains(user),
    {
        vec_contains(&self.assignees, user)
    }

    /// The number of assignees.
    pub fn assignee_count(&self) -> (r: usize)
        ensures
            r == self.assignees@.len(),
    {
        self.assignees.len()
    }

    /// Each assignee's share of the reward, rounded down; zero while
    /// nobody is assigned.
    pub fn reward_per_assignee(&self) -> (r: u64)
        ensures
            r == self.spec_reward_per_assignee(),
    {
        if self.assignees.len() == 0 {
            0
        } else {
            self.reward_amount / (self.assignees.len() as u64)
        }
    }

    /// Record a pending reward decrease to `new_amount`, requested at
    /// `current_time`.  The eligibility rules live in the operations that
    /// call it.
    pub fn request_decrease(&mut self, new_amount: u64, current_time: i64)
        ensures
            *final(self) == (Task {
                pending_decrease_amount: Some(new_amount),
                decrease_requested_at: Some(current_time),
                updated_at: current_time,
                ..*old(self)
            }),
    {
        self.pending_decrease_amount = Some(new_amount);
        self.decrease_requested_at = Some(current_time);
        self.updated_at = current_time;
    }

    /// Apply a pending decrease to the reward amount and clear it.  The
    /// time-lock and escrow checks live in the operation that calls this.
    pub fn execute_decrease(&mut self, current_time: i64)
        ensures
            *final(self) == (Task {
                reward_amount: (match old(self).pending_decrease_amount {
                    Some(a) => a,
                    None => old(self).reward_amount,
                }),
                pending_decrease_amount: None,
                decrease_requested_at: None,
                updated_at: current_time,
                ..*old(self)
            }),
    {
        if let Some(new_amount) = self.pending_decrease_amount {
            self.reward_amount = new_amount;
        }
        self.pending_decrease_amount = None;
        self.decrease_requested_at = None;
        self.updated_at = current_time;
    }

    /// Clear a pending decrease without touching the reward.
    pub fn cancel_decrease(&mut self, current_time: i64)
        ensures
            *final(self) == (Task {
                pending_decrease_amount: None,
                decrease_requested_at: None,
                updated_at: current_time,
                ..*old(self)
            }),
    {
        self.pending_decrease_amount = None;
        self.decrease_requested_at = None;
        self.updated_at = current_time;
    }

    /// Append a single assignee.  The caller must already have checked the
    /// lifecycle rules; this method enforces the bound, the
    /// creator-exclusion and uniqueness, moves the task to `InProgress` and
    /// refreshes the update timestamp.
    pub fn assign_to(&mut self, assignee: AccountId, now: i64) -> (result: Result<(), TaskError>)
        ensures
            ({
                let t = *old(self);
                if t.assignees@.len() >= MAX_ASSIGNEES {
                    result == Err::<(), TaskError>(TaskError::TooManyAssignees) && *final(self) == t
                } else if assignee == t.creator {
                    result == Err::<(), TaskError>(TaskError::CannotAssignToCreator) && *final(self)
                        == t
                } else if t.assignees@.contains(assignee) {
                    result == Err::<(), TaskError>(TaskError::DuplicateAssignee) && *final(self)
                        == t
                } else {
                    &&& result is Ok
                    &&& final(self).assignees@ == t.assignees@.push(assignee)
                    &&& final(self).status == TaskStatus::InProgress
                    &&& final(self).updated_at == now
                    &&& final(self).same_except_assignment(t)
                }
            }),
    {
        if self.assignees.len() >= MAX_ASSIGNEES {
            return Err(TaskError::TooManyAssignees);
        }
        if assignee == self.creator {
            return Err(TaskError::CannotAssignToCreator);
        }
        if vec_contains(&self.assignees, assignee) {
            return Err(TaskError::DuplicateAssignee);
        }
        self.assignees.push(assignee);
        self.status = TaskStatus::InProgress;
        self.updated_at = now;
        Ok(())
    }

    /// Append a whole list of assignees at once.  The checks run in
    /// phases: the bound on the combined count, then the non-empty rule,
    /// then the creator-exclusion over the list, then uniqueness within the
    /// list and against the assignees already present.  On success every
    /// element is appended in order, the task moves to `InProgress` and the
    /// update timestamp is refreshed.
    #[verifier::loop_isolation(false)]
    pub fn assign_to_multiple(&mut self, assignees: Vec<AccountId>, now: i64) -> (result: Result<
        (),
        TaskError,
    >)
        ensures
            ({
                let t = *old(self);
                let new = assignees@;
                if t.assignees@.len() + new.len() > MAX_ASSIGNEES {
                    result == Err::<(), TaskError>(TaskError::TooManyAssignees) && *final(self) == t
                } else if new.len() == 0 {
                    result == Err::<(), TaskError>(TaskError::NoAssignees) && *final(self) == t
                } else if new.contains(t.creator) {
                    result == Err::<(), TaskError>(TaskError::CannotAssignToCreator) && *final(self)
                        == t
                } else if !new.no_duplicates() || !seqs_disjoint(new, t.assignees@) {
                    result == Err::<(), TaskError>(TaskError::DuplicateAssignee) && *final(self)
                        == t
                } else {
                    &&& result is Ok
                    &&& final(self).assignees@ == t.assignees@ + new
                    &&& final(self).status == TaskStatus::InProgress
                    &&& final(self).updated_at == now
                    &&& final(self).same_except_assignment(t)
                }
            }),
    {
        let mut assignees = assignees;
        if self.assignees.len() > MAX_ASSIGNEES || assignees.len() > MAX_ASSIGNEES
            - self.assignees.len() {
            return Err(TaskError::TooManyAssignees);
        }
        if assignees.len() == 0 {
            return Err(TaskError::NoAssignees);
        }
        let creator = self.creator;
        let mut i: usize = 0;
        while i < assignees.len()
            invariant
                i <= assignees@.len(),
                forall|j: int| 0 <= j < i ==> assignees@[j] != creator,
            decreases assignees@.len() - i,
        {
            if assignees[i] == creator {
                assert(assignees@.contains(creator)) by {
                    assert(assignees@[i as int] == creator);
                }
                return Err(TaskError::CannotAssignToCreator);
            }
            i = i + 1;
        }
        let mut i: usize = 0;
        while i < assignees.len()
            invariant
                i <= assignees@.len(),
                forall|j: int, k: int| 0 <= j < k < i ==> assignees@[j] != assignees@[k],
                forall|j: int|
                    0 <= j < i ==> !old(self).assignees@.contains(#[trigger] assignees@[j]),
            decreases assignees@.len() - i,
        {
            let a = assignees[i];
            if vec_prefix_contains(&assignees, i, a) {
                assert(!assignees@.no_duplicates()) by {
                    let j = choose|j: int| 0 <= j < i && assignees@[j] == a;
                    assert(assignees@[j] == assignees@[i as int]);
                }
                return Err(TaskError::DuplicateAssignee);
            }
            if vec_contains(&self.assignees, a) {
                assert(!seqs_disjoint(assignees@, old(self).assignees@)) by {
                    assert(old(self).assignees@.contains(assignees@[i as int]));
                }
                return Err(TaskError::DuplicateAssignee);
            }
            i = i + 1;
        }
        assert(assignees@.no_duplicates());
        self.assignees.append(&mut assignees);
        self.status = TaskStatus::InProgress;
        self.updated_at = now;
        Ok(())
    }

    /// Record that `assignee` has collected their share.  Rejects callers
    /// that are not listed assignees and repeated claims.
    pub fn mark_claimed(&mut self, assignee: AccountId) -> (result: Result<(), TaskError>)
        ensures
            ({
                let t = *old(self);
                if !t.assignees@.contains(assignee) {
                    result == Err::<(), TaskError>(TaskError::UnauthorizedAssignee) && *final(self)
                        == t
                } else if t.claimed_assignees@.contains(assignee) {
                    result == Err::<(), TaskError>(TaskError::AlreadyClaimed) && *final(self) == t
                } else {
                    &&& result is Ok
                    &&& final(self).claimed_assignees@ == t.claimed_assignees@.push(assignee)
                    &&& final(self).updated_at == t.updated_at
                    &&& final(self).same_except_claims(t)
                }
            }),
    {
        if !self.is_assignee(assignee) {
            return Err(TaskError::UnauthorizedAssignee);
        }
        if self.has_claimed(assignee) {
            return Err(TaskError::AlreadyClaimed);
        }
        self.claimed_assignees.push(assignee);
        Ok(())
    }

    /// Whether `assignee` has already collected their share.
    pub fn has_claimed(&self, assignee: AccountId) -> (r: bool)
        ensures
            r == self.claimed_assignees@.contains(assignee),
    {
        vec_contains(&self.claimed_assignees, assignee)
    }

    /// Whether every listed assignee has collected their share.
    pub fn all_rewards_claimed(&self) -> (r: bool)
        ensures
            r == self.spec_all_claimed(),
    {
        self.assignees.len() > 0 && self.claimed_assignees.len() == self.assignees.len()
    }

    /// Whether the task account can be closed.
    pub fn can_close_account(&self) -> (r: bool)
        ensures
            r == self.spec_can_close(),
    {
        self.status == TaskStatus::Completed && self.all_rewards_claimed()
    }
}

/// The escrow balance of a task's escrow account is exactly what the
/// task's state calls for.
pub open spec fn escrow_consistent(t: Task, escrow_balance: u64) -> bool {
    escrow_balance == t.escrow_expected()
}

/// While a task is `Created` or `InProgress`, its escrow holds exactly the
/// reward amount.
pub proof fn lemma_active_escrow_equals_reward(t: Task, escrow_balance: u64)
    requires
        escrow_consistent(t, escrow_balance),
        t.is_active(),
    ensures
        escrow_balance == t.reward_amount,
{
}

/// Claim tracking of a valid task is sound: the claimants are a subset of
/// the assignees, both lists are duplicate-free, at most ten identities are
/// assigned, the creator is never among them, and no more shares can have
/// been claimed than there are assignees.
pub proof fn lemma_claim_tracking_sound(t: Task)
    requires
        t.wf(),
    ensures
        t.claimed_assignees@.to_set().subset_of(t.assignees@.to_set()),
        t.assignees@.no_duplicates(),
        t.claimed_assignees@.no_duplicates(),
        t.assignees@.len() <= MAX_ASSIGNEES,
        !t.assignees@.contains(t.creator),
        t.claimed_assignees@.len() <= t.assignees@.len(),
{
    broadcast use vstd::set::group_set_axioms;
    broadcast use vstd::seq_lib::seq_to_set_is_finite;

    assert forall|x: AccountId|
        t.claimed_assignees@.to_set().contains(x) implies t.assignees@.to_set().contains(x) by {
        let i = choose|i: int|
            0 <= i < t.claimed_assignees@.len() && t.claimed_assignees@[i] == x;
        assert(t.assignees@.contains(t.claimed_assignees@[i]));
    }
    t.claimed_assignees@.unique_seq_to_set();
    t.assignees@.unique_seq_to_set();
    vstd::set_lib::lemma_len_subset(t.claimed_assignees@.to_set(), t.assignees@.to_set());
}

/// An assignee that has not claimed yet keeps the claimant count strictly
/// below the assignee count.
pub proof fn lemma_unclaimed_assignee_bound(t: Task, who: AccountId)
    requires
        t.wf(),
        t.assignees@.contains(who),
        !t.claimed_assignees@.contains(who),
    ensures
        t.claimed_assignees@.len() < t.assignees@.len(),
{
    broadcast use vstd::set::group_set_axioms;
    broadcast use vstd::seq_lib::seq_to_set_is_finite;

    let claimed = t.claimed_assignees@.to_set();
    let all = t.assignees@.to_set();
    assert forall|x: AccountId| claimed.contains(x) implies all.remove(who).contains(x) by {
        let i = choose|i: int|
            0 <= i < t.claimed_assignees@.len() && t.claimed_assignees@[i] == x;
        assert(t.assignees@.contains(t.claimed_assignees@[i]));
    }
    t.claimed_assignees@.unique_seq_to_set();
    t.assignees@.unique_seq_to_set();
    vstd::set_lib::lemma_len_subset(claimed, all.remove(who));
}

/// Check that `id` is non-empty and drawn from `[A-Za-z0-9_-]`.  All such
/// identifiers are ASCII, so on success the byte length equals the
/// character count.
pub fn is_valid_id_chars(id: &str) -> (r: bool)
    ensures
        r == valid_id_chars(id@),
        r ==> id.spec_bytes().len() == id@.len(),
{
    broadcast use vstd::string::is_ascii_spec_bytes;

    if !id.is_ascii() {
        proof {
            assert(exists|i: int|
                0 <= i < id@.len() && !('\0' <= #[trigger] id@[i] <= '\u{7f}'));
            let i = choose|i: int| 0 <= i < id@.len() && !('\0' <= #[trigger] id@[i] <= '\u{7f}');
            assert(!valid_id_char(id@[i]));
        }
        return false;
    }
    let bytes = id.as_bytes();
    let n = bytes.len();
    proof {
        assert(bytes@.len() == id@.len());
    }
    if n < 1 {
        return false;
    }
    let mut i: usize = 0;
    while i < n
        invariant
            is_ascii(id),
            bytes@ == id.spec_bytes(),
            bytes@.len() == id@.len(),
            n == bytes@.len(),
            1 <= n,
            i <= n,
            forall|j: int| 0 <= j < i ==> valid_id_char(#[trigger] id@[j]),
        decreases n - i,
    {
        let b = bytes[i];
        let ok = (97 <= b && b <= 122)  // 'a' ..= 'z'
            || (65 <= b && b <= 90)  // 'A' ..= 'Z'
            || (48 <= b && b <= 57)  // '0' ..= '9'
            || b == 95  // '_'
            || b == 45;  // '-'
        proof {
            assert(id@[i as int] <= '\u{7f}');
            assert(b == id@[i as int] as u8);
            assert(ok == valid_id_char(id@[i as int]));
        }
        if !ok {
            return false;
        }
        i = i + 1;
    }
    true
}

/// Check that `id` is a well-formed task identifier: non-empty, at most 50
/// characters, all drawn from `[A-Za-z0-9_-]`.
pub fn is_valid_task_id(id: &str) -> (r: bool)
    ensures
        r == valid_task_id(id@),
{
    if !is_valid_id_chars(id) {
        return false;
    }
    id.as_bytes().len() <= MAX_TASK_ID_LEN
}

/// On a completed task with a consistent escrow, the share of an assignee
/// who has not claimed yet is always covered: a legitimate claim never
/// fails for lack of escrow funds.
pub proof fn lemma_escrow_covers_share(t: Task, escrow_balance: u64, who: AccountId)
    requires
        t.wf(),
        t.status == TaskStatus::Completed,
        escrow_consistent(t, escrow_balance),
        t.assignees@.contains(who),
        !t.claimed_assignees@.contains(who),
    ensures
        escrow_balance >= t.spec_reward_per_assignee(),
{
    let reward = t.reward_amount as int;
    let n = t.assignees@.len() as int;
    let share = t.share();
    let k = t.claimed_assignees@.len() as int;
    lemma_unclaimed_assignee_bound(t, who);
    vstd::arithmetic::div_mod::lemma_fundamental_div_mod(reward, n);
    vstd::arithmetic::div_mod::lemma_mod_bound(reward, n);
    vstd::arithmetic::div_mod::lemma_div_pos_is_pos(reward, n);
    vstd::arithmetic::mul::lemma_mul_inequality(k + 1, n, share);
    assert((k + 1) * share == k * share + share) by (nonlinear_arith);
}

/// Once a task is closable — completed, every share collected — a
/// consistent escrow holds exactly the rounding remainder of the division
/// of the reward among the assignees.
pub proof fn lemma_closable_escrow_is_remainder(t: Task, escrow_balance: u64)
    requires
        t.wf(),
        t.spec_can_close(),
        escrow_consistent(t, escrow_balance),
    ensures
        escrow_balance == t.reward_amount as int % t.assignees@.len() as int,
{
    let reward = t.reward_amount as int;
    let n = t.assignees@.len() as int;
    vstd::arithmetic::div_mod::lemma_fundamental_div_mod(reward, n);
}

} // verus!
