//! The synthesizer: it carries out actions that are safe to run unattended,
//! records them, and undoes them in the reverse of the order in which they ran.

use vstd::prelude::*;
use crate::clock::now_timestamp;
use crate::sandbox::{
    lemma_safe_passes_sandbox, safe_to_auto_execute, sandbox_outcome, undo_text, SandboxResult,
    SandboxResultView, SandboxRunner,
};
use crate::strmap::{views_of, StrMap};
use crate::text::{
    clone_option, debug_of, debug_text, join2, lemma_natural_text_len, lemma_natural_texts_differ,
    natural, natural_text, option_text,
};
use crate::types::{Action, Observation, ObservationView};

verus! {

/// Where an action stands in its life. Only `Completed` and `RolledBack` are
/// ever stored.
#[derive(Clone, Copy, Debug, PartialEq, Eq, Structural, Hash)]
pub enum ActionState {
    Pending,
    Executing,
    Completed,
    RolledBack,
    Failed,
}

/// A record of an action that was carried out.
#[derive(Debug)]
pub struct ExecutedAction {
    pub id: String,
    pub action: Action,
    pub state: ActionState,
    pub execution_result: Option<SandboxResult>,
    pub rollback_diff: Option<String>,
    pub executed_at: Option<i64>,
    pub rolled_back_at: Option<i64>,
}

/// What a record holds.
pub struct ExecutedActionView {
    pub id: Seq<char>,
    pub action: Action,
    pub state: ActionState,
    pub execution_result: Option<SandboxResultView>,
    pub rollback_diff: Option<Seq<char>>,
    pub executed_at: Option<i64>,
    pub rolled_back_at: Option<i64>,
}

impl View for ExecutedAction {
    type V = ExecutedActionView;

    open spec fn view(&self) -> ExecutedActionView {
        ExecutedActionView {
            id: self.id@,
            action: self.action,
            state: self.state,
            execution_result: match self.execution_result {
                Some(r) => Some(r@),
                None => None,
            },
            rollback_diff: option_text(self.rollback_diff),
            executed_at: self.executed_at,
            rolled_back_at: self.rolled_back_at,
        }
    }
}

impl Clone for ExecutedAction {
    fn clone(&self) -> (r: Self)
        ensures
            r == *self,
    {
        ExecutedAction {
            id: self.id.clone(),
            action: self.action.clone(),
            state: self.state,
            execution_result: match &self.execution_result {
                Some(r) => Some(r.clone()),
                None => None,
            },
            rollback_diff: clone_option(&self.rollback_diff),
            executed_at: self.executed_at,
            rolled_back_at: self.rolled_back_at,
        }
    }
}

/// The plain id of the action of an observation: the id under which the
/// action is recorded where no record stands under it yet.
pub open spec fn action_id(observation_id: Seq<char>) -> Seq<char> {
    "action_"@ + observation_id
}

/// The ids that may stand for the action of an observation, in the order in
/// which they are tried: the plain id first, then the plain id with a number
/// behind it, from 2 upwards.
pub open spec fn candidate_id(observation_id: Seq<char>, k: nat) -> Seq<char> {
    if k == 0 {
        action_id(observation_id)
    } else {
        action_id(observation_id) + "_"@ + natural_text(k as int + 1)
    }
}

/// Whether the candidate `k` is the first that is not among the ids
/// `taken`.
pub open spec fn is_first_free(taken: Set<Seq<char>>, observation_id: Seq<char>, k: nat) -> bool {
    &&& !taken.contains(candidate_id(observation_id, k))
    &&& forall|j: nat| j < k ==> taken.contains(#[trigger] candidate_id(observation_id, j))
}

/// The id under which the next action of an observation is recorded: the
/// first of its candidates that is not among the ids `taken`. So an action
/// never takes the place of an older record.
pub open spec fn fresh_id(taken: Set<Seq<char>>, observation_id: Seq<char>) -> Seq<char> {
    candidate_id(observation_id, choose|k: nat| is_first_free(taken, observation_id, k))
}

/// The record, under `id`, of an action carried out at `now`.
pub open spec fn completed_record(id: Seq<char>, action: Action, now: i64) -> ExecutedActionView {
    ExecutedActionView {
        id,
        action,
        state: ActionState::Completed,
        execution_result: Some(sandbox_outcome(action)),
        rollback_diff: Some(undo_text(action)),
        executed_at: Some(now),
        rolled_back_at: None,
    }
}

/// A record after its action was undone at `now`.
pub open spec fn rolled_back(record: ExecutedActionView, now: i64) -> ExecutedActionView {
    ExecutedActionView { state: ActionState::RolledBack, rolled_back_at: Some(now), ..record }
}

/// What the synthesizer holds: the records by id, and the ids in the order in
/// which their actions ran, the newest last.
pub struct Ledger {
    pub records: Map<Seq<char>, ExecutedActionView>,
    pub stack: Seq<Seq<char>>,
}

impl Ledger {
    /// The ledger that holds nothing.
    pub open spec fn empty() -> Ledger {
        Ledger { records: Map::empty(), stack: Seq::empty() }
    }

    /// There are finitely many records, every id on the stack has a record
    /// and stands there once, every record stands under its own id, and
    /// every record is of an action whose dry run had passed.
    pub open spec fn wf(self) -> bool {
        &&& self.records.dom().finite()
        &&& self.stack.no_duplicates()
        &&& forall|i: int| 0 <= i < self.stack.len() ==> self.records.contains_key(#[trigger] self.stack[i])
        &&& forall|id: Seq<char>| #[trigger]
            self.records.contains_key(id) ==> {
                &&& self.records[id].id == id
                &&& self.records[id].state == ActionState::Completed || self.records[id].state
                    == ActionState::RolledBack
                &&& self.records[id].execution_result matches Some(r) && r.success
            }
    }

    /// The id under which the next action of an observation is recorded.
    pub open spec fn next_id(self, observation_id: Seq<char>) -> Seq<char> {
        fresh_id(self.records.dom(), observation_id)
    }

    /// The ledger after the action of an observation ran at `now`: its
    /// record stands under an id that held no record before, and that id is
    /// the newest of the stack.
    pub open spec fn executed(self, observation_id: Seq<char>, action: Action, now: i64) -> Ledger {
        Ledger {
            records: self.records.insert(
                self.next_id(observation_id),
                completed_record(self.next_id(observation_id), action, now),
            ),
            stack: self.stack.push(self.next_id(observation_id)),
        }
    }

    /// Whether `post` is this ledger with the one record `made` added under
    /// an id that held no record, and with that id pushed: one record and
    /// one entry of the stack more, and every older record as it was.
    pub open spec fn appended(self, made: ExecutedActionView, post: Ledger) -> bool {
        &&& !self.records.contains_key(made.id)
        &&& !self.stack.contains(made.id)
        &&& post.records == self.records.insert(made.id, made)
        &&& post.records.dom().len() == self.records.dom().len() + 1
        &&& post.stack == self.stack.push(made.id)
        &&& forall|id: Seq<char>| #[trigger]
            self.records.contains_key(id) ==> post.records.contains_key(id) && post.records[id]
                == self.records[id]
    }

    /// The ledger without the newest id of the stack.
    pub open spec fn popped(self) -> Ledger {
        Ledger { records: self.records, stack: self.stack.drop_last() }
    }

    /// The ledger after the record under `id` was marked as undone at `now`.
    pub open spec fn undone(self, id: Seq<char>, now: i64) -> Ledger {
        Ledger { records: self.records.insert(id, rolled_back(self.records[id], now)), stack: self.stack }
    }

    /// The records in the order of the stack.
    pub open spec fn history(self) -> Seq<ExecutedActionView> {
        Seq::new(self.stack.len(), |i: int| self.records[self.stack[i]])
    }

    /// Whether every id on the stack is of an action that has not been undone.
    pub open spec fn stack_is_live(self) -> bool {
        forall|i: int|
            0 <= i < self.stack.len() ==> (#[trigger] self.records[self.stack[i]]).state
                == ActionState::Completed
    }
}

/// What `synthesize_and_execute` does at time `now`: an action that is not
/// safe to run unattended is refused, one whose dry run fails is refused, and
/// any other is recorded as completed under an id that held no record, and
/// that id is pushed. A refusal changes nothing.
pub open spec fn synthesis(
    pre: Ledger,
    obs: ObservationView,
    now: i64,
    post: Ledger,
    result: Result<ExecutedAction, String>,
) -> bool {
    if !safe_to_auto_execute(obs.action) {
        &&& post == pre
        &&& result matches Err(e) && e@ == "Action not safe for auto-execution"@
    } else if !sandbox_outcome(obs.action).success {
        &&& post == pre
        &&& result matches Err(e) && e@ == "Sandbox test failed: "@ + debug_text(
            sandbox_outcome(obs.action).error_message,
        )
    } else {
        &&& post == pre.executed(obs.id, obs.action, now)
        &&& result matches Ok(r) && r@ == completed_record(pre.next_id(obs.id), obs.action, now)
    }
}

/// What `rollback_last` does at time `now`: with an empty stack it fails and
/// changes nothing. Otherwise the newest id leaves the stack, and its record,
/// if it is completed, is marked as undone; if it is not, the call fails.
pub open spec fn rollback_of_last(
    pre: Ledger,
    now: i64,
    post: Ledger,
    result: Result<(), String>,
) -> bool {
    if pre.stack.len() == 0 {
        &&& post == pre
        &&& result matches Err(e) && e@ == "No actions to rollback"@
    } else if !pre.records.contains_key(pre.stack.last()) {
        &&& post == pre.popped()
        &&& result matches Err(e) && e@ == "Action not found"@
    } else if pre.records[pre.stack.last()].state != ActionState::Completed {
        &&& post == pre.popped()
        &&& result matches Err(e) && e@ == "Action not in completed state"@
    } else {
        &&& post == pre.popped().undone(pre.stack.last(), now)
        &&& result is Ok
    }
}

/// What `rollback_action` does at time `now`: the record under `id`, if it is
/// completed, is marked as undone. The stack stays as it is, so it may go on
/// to name an action that has been undone.
pub open spec fn rollback_of(
    pre: Ledger,
    id: Seq<char>,
    now: i64,
    post: Ledger,
    result: Result<(), String>,
) -> bool {
    if !pre.records.contains_key(id) {
        &&& post == pre
        &&& result matches Err(e) && e@ == "Action not found"@
    } else if pre.records[id].state != ActionState::Completed {
        &&& post == pre
        &&& result matches Err(e) && e@ == "Action not in completed state"@
    } else {
        &&& post == pre.undone(id, now)
        &&& result is Ok
    }
}

/// The ledger after the first `n` of the observations given ran, each at its
/// time, starting from `start`.
pub open spec fn executed_all(
    start: Ledger,
    observations: Seq<ObservationView>,
    times: Seq<i64>,
    n: int,
) -> Ledger
    decreases n,
{
    if n <= 0 {
        start
    } else {
        executed_all(start, observations, times, n - 1).executed(
            observations[n - 1].id,
            observations[n - 1].action,
            times[n - 1],
        )
    }
}

/// Two candidates for one observation are the same text only where they are
/// the same candidate.
pub proof fn lemma_candidates_differ(observation_id: Seq<char>, j: nat, k: nat)
    requires
        j != k,
    ensures
        candidate_id(observation_id, j) != candidate_id(observation_id, k),
{
    let stem = action_id(observation_id) + "_"@;
    let a = candidate_id(observation_id, j);
    let b = candidate_id(observation_id, k);
    reveal_strlit("_");
    lemma_natural_text_len(j as int + 1);
    lemma_natural_text_len(k as int + 1);
    if j > 0 && k > 0 {
        if a == b {
            assert(a.subrange(stem.len() as int, a.len() as int) =~= natural_text(j as int + 1));
            assert(b.subrange(stem.len() as int, b.len() as int) =~= natural_text(k as int + 1));
            lemma_natural_texts_differ(j as int + 1, k as int + 1);
        }
    } else {
        assert(a.len() != b.len());
    }
}

/// Where the first `k` candidates are all taken, at least `k` ids are taken.
pub proof fn lemma_taken_candidates(taken: Set<Seq<char>>, observation_id: Seq<char>, k: nat)
    requires
        taken.finite(),
        forall|j: nat| j < k ==> taken.contains(#[trigger] candidate_id(observation_id, j)),
    ensures
        k <= taken.len(),
{
    let tried = Seq::new(k, |j: int| candidate_id(observation_id, j as nat));
    assert forall|i: int, j: int| 0 <= i < tried.len() && 0 <= j < tried.len() && i != j implies tried[i]
        != tried[j] by {
        lemma_candidates_differ(observation_id, i as nat, j as nat);
    }
    tried.unique_seq_to_set();
    assert forall|id: Seq<char>| tried.to_set().contains(id) implies taken.contains(id) by {
        let i = choose|i: int| 0 <= i < tried.len() && tried[i] == id;
        assert(taken.contains(candidate_id(observation_id, i as nat)));
    }
    vstd::set_lib::lemma_len_subset(tried.to_set(), taken);
}

/// Among finitely many ids, some candidate from `k` on is free where all
/// before `k` are taken.
proof fn lemma_free_from(taken: Set<Seq<char>>, observation_id: Seq<char>, k: nat)
    requires
        taken.finite(),
        forall|j: nat| j < k ==> taken.contains(#[trigger] candidate_id(observation_id, j)),
    ensures
        exists|m: nat| is_first_free(taken, observation_id, m),
    decreases taken.len() - k,
{
    if taken.contains(candidate_id(observation_id, k)) {
        lemma_taken_candidates(taken, observation_id, k + 1);
        lemma_free_from(taken, observation_id, k + 1);
    } else {
        assert(is_first_free(taken, observation_id, k));
    }
}

/// The fresh id is the first free candidate, whichever that is.
pub proof fn lemma_fresh_id_is_first_free(taken: Set<Seq<char>>, observation_id: Seq<char>, k: nat)
    requires
        is_first_free(taken, observation_id, k),
    ensures
        fresh_id(taken, observation_id) == candidate_id(observation_id, k),
{
    let chosen = choose|m: nat| is_first_free(taken, observation_id, m);
    assert(is_first_free(taken, observation_id, chosen));
    if chosen < k {
        assert(taken.contains(candidate_id(observation_id, chosen)));
    } else if k < chosen {
        assert(taken.contains(candidate_id(observation_id, k)));
    }
}

/// Among finitely many ids the fresh id is none of them.
pub proof fn lemma_fresh_id_is_new(taken: Set<Seq<char>>, observation_id: Seq<char>)
    requires
        taken.finite(),
    ensures
        !taken.contains(fresh_id(taken, observation_id)),
{
    lemma_free_from(taken, observation_id, 0);
    let chosen = choose|m: nat| is_first_free(taken, observation_id, m);
    assert(is_first_free(taken, observation_id, chosen));
}

/// The first action of an observation is recorded under the plain id.
pub proof fn lemma_first_use_has_plain_id(taken: Set<Seq<char>>, observation_id: Seq<char>)
    requires
        !taken.contains(action_id(observation_id)),
    ensures
        fresh_id(taken, observation_id) == action_id(observation_id),
{
    assert(is_first_free(taken, observation_id, 0));
    lemma_fresh_id_is_first_free(taken, observation_id, 0);
}

/// An execution adds exactly one record and one entry of the stack: the id
/// of the new record held no record before and stood nowhere on the stack,
/// every older record stays as it was, and a well-formed ledger stays well
/// formed. Where every id on the stack was live, every id still is.
pub proof fn lemma_execution_adds_one_record(
    pre: Ledger,
    observation_id: Seq<char>,
    action: Action,
    now: i64,
)
    requires
        pre.wf(),
        sandbox_outcome(action).success,
    ensures
        pre.appended(
            completed_record(pre.next_id(observation_id), action, now),
            pre.executed(observation_id, action, now),
        ),
        pre.executed(observation_id, action, now).wf(),
        pre.stack_is_live() ==> pre.executed(observation_id, action, now).stack_is_live(),
{
    let post = pre.executed(observation_id, action, now);
    let id = pre.next_id(observation_id);
    lemma_fresh_id_is_new(pre.records.dom(), observation_id);
    assert(!pre.records.contains_key(id));
    if pre.stack.contains(id) {
        let i = choose|i: int| 0 <= i < pre.stack.len() && pre.stack[i] == id;
        assert(pre.records.contains_key(pre.stack[i]));
    }
    assert(post.records.dom() =~= pre.records.dom().insert(id));
    assert forall|i: int| 0 <= i < post.stack.len() implies post.records.contains_key(
        #[trigger] post.stack[i],
    ) by {
        if i < pre.stack.len() {
            assert(post.stack[i] == pre.stack[i]);
        }
    }
    assert forall|i: int, j: int| 0 <= i < post.stack.len() && 0 <= j < post.stack.len() && i != j implies post.stack[i]
        != post.stack[j] by {
        if i < pre.stack.len() {
            assert(pre.stack.contains(pre.stack[i]));
        }
        if j < pre.stack.len() {
            assert(pre.stack.contains(pre.stack[j]));
        }
    }
    if pre.stack_is_live() {
        assert forall|i: int| 0 <= i < post.stack.len() implies (#[trigger] post.records[post.stack[i]]).state
            == ActionState::Completed by {
            if i < pre.stack.len() {
                assert(post.stack[i] == pre.stack[i]);
                assert(pre.stack.contains(pre.stack[i]));
                assert(pre.records[pre.stack[i]].state == ActionState::Completed);
            }
        }
    }
}

/// A call of `synthesize_and_execute` succeeds exactly where the action is
/// safe to run unattended. A call that succeeds adds exactly one record and
/// one entry of the stack and changes no older record; a call that fails
/// changes nothing.
pub proof fn lemma_success_is_execution(
    pre: Ledger,
    obs: ObservationView,
    now: i64,
    post: Ledger,
    result: Result<ExecutedAction, String>,
)
    requires
        pre.wf(),
        synthesis(pre, obs, now, post, result),
    ensures
        result is Ok <==> safe_to_auto_execute(obs.action),
        result matches Ok(made) ==> post == pre.executed(obs.id, obs.action, now) && pre.appended(
            made@,
            post,
        ),
        result is Err ==> post == pre,
        post.wf(),
{
    if safe_to_auto_execute(obs.action) {
        lemma_safe_passes_sandbox(obs.action);
        lemma_execution_adds_one_record(pre, obs.id, obs.action, now);
    }
}

/// After any number of successful executions and no rollback, the stack holds
/// exactly one id for each call, in the order of the calls and none of them
/// twice; there is one record for each call; the history lists the records in
/// that same order; and all of them are completed.
pub proof fn lemma_stack_in_call_order(observations: Seq<ObservationView>, times: Seq<i64>, n: int)
    requires
        0 <= n <= observations.len(),
        n <= times.len(),
        forall|i: int| 0 <= i < n ==> safe_to_auto_execute(#[trigger] observations[i].action),
    ensures
        ({
            let ledger = executed_all(Ledger::empty(), observations, times, n);
            &&& ledger.wf()
            &&& ledger.stack.len() == n
            &&& ledger.stack.no_duplicates()
            &&& ledger.records.dom().len() == n
            &&& forall|i: int|
                0 <= i < n ==> #[trigger] ledger.stack[i] == executed_all(
                    Ledger::empty(),
                    observations,
                    times,
                    i,
                ).next_id(observations[i].id)
            &&& ledger.history().len() == n
            &&& forall|i: int|
                0 <= i < n ==> #[trigger] ledger.history()[i] == completed_record(
                    ledger.stack[i],
                    observations[i].action,
                    times[i],
                )
            &&& ledger.stack_is_live()
        }),
    decreases n,
{
    if n > 0 {
        lemma_stack_in_call_order(observations, times, n - 1);
        let earlier = executed_all(Ledger::empty(), observations, times, n - 1);
        let obs = observations[n - 1];
        lemma_safe_passes_sandbox(obs.action);
        lemma_execution_adds_one_record(earlier, obs.id, obs.action, times[n - 1]);
        let ledger = executed_all(Ledger::empty(), observations, times, n);
        assert(ledger == earlier.executed(obs.id, obs.action, times[n - 1]));
        assert forall|i: int| 0 <= i < n implies #[trigger] ledger.stack[i] == executed_all(
            Ledger::empty(),
            observations,
            times,
            i,
        ).next_id(observations[i].id) by {
            if i < n - 1 {
                assert(ledger.stack[i] == earlier.stack[i]);
            }
        }
        assert forall|i: int| 0 <= i < n implies #[trigger] ledger.history()[i] == completed_record(
            ledger.stack[i],
            observations[i].action,
            times[i],
        ) by {
            if i < n - 1 {
                assert(ledger.stack[i] == earlier.stack[i]);
                assert(earlier.records.contains_key(earlier.stack[i]));
                assert(earlier.history()[i] == earlier.records[earlier.stack[i]]);
            }
        }
    } else {
        let ledger = executed_all(Ledger::empty(), observations, times, n);
        assert(ledger.records.dom() =~= Set::<Seq<char>>::empty());
    }
}

/// Where no two of the observations share an id, each action is recorded
/// under its plain id.
pub proof fn lemma_distinct_observations_have_plain_ids(
    observations: Seq<ObservationView>,
    times: Seq<i64>,
    n: int,
)
    requires
        0 <= n <= observations.len(),
        n <= times.len(),
        forall|i: int| 0 <= i < n ==> safe_to_auto_execute(#[trigger] observations[i].action),
        forall|i: int, j: int| 0 <= i < j < n ==> observations[i].id != observations[j].id,
    ensures
        ({
            let ledger = executed_all(Ledger::empty(), observations, times, n);
            &&& ledger.stack.len() == n
            &&& forall|i: int| 0 <= i < n ==> #[trigger] ledger.stack[i] == action_id(observations[i].id)
            &&& forall|id: Seq<char>| #[trigger]
                ledger.records.contains_key(id) <==> exists|i: int|
                    0 <= i < n && id == action_id(#[trigger] observations[i].id)
        }),
    decreases n,
{
    let ledger = executed_all(Ledger::empty(), observations, times, n);
    if n > 0 {
        lemma_distinct_observations_have_plain_ids(observations, times, n - 1);
        lemma_stack_in_call_order(observations, times, n - 1);
        let earlier = executed_all(Ledger::empty(), observations, times, n - 1);
        let obs = observations[n - 1];
        let plain = action_id(obs.id);
        if earlier.records.contains_key(plain) {
            let i = choose|i: int| 0 <= i < n - 1 && plain == action_id(#[trigger] observations[i].id);
            assert(plain.subrange(7, plain.len() as int) =~= obs.id) by {
                reveal_strlit("action_");
            }
            assert(plain.subrange(7, plain.len() as int) =~= observations[i].id) by {
                reveal_strlit("action_");
            }
        }
        lemma_first_use_has_plain_id(earlier.records.dom(), obs.id);
        assert(ledger == earlier.executed(obs.id, obs.action, times[n - 1]));
        assert forall|i: int| 0 <= i < n implies #[trigger] ledger.stack[i] == action_id(
            observations[i].id,
        ) by {
            if i < n - 1 {
                assert(ledger.stack[i] == earlier.stack[i]);
            }
        }
        assert forall|id: Seq<char>| #[trigger]
            ledger.records.contains_key(id) <==> exists|i: int|
                0 <= i < n && id == action_id(#[trigger] observations[i].id) by {
            if id == plain {
                assert(id == action_id(observations[n - 1].id));
            } else if earlier.records.contains_key(id) {
                let i = choose|i: int| 0 <= i < n - 1 && id == action_id(#[trigger] observations[i].id);
                assert(0 <= i < n && id == action_id(observations[i].id));
            }
        }
    }
}

/// Undoing the newest action keeps a ledger well formed and keeps every id on
/// the stack live.
pub proof fn lemma_rollback_keeps_stack_live(pre: Ledger, now: i64)
    requires
        pre.wf(),
        pre.stack.len() > 0,
        pre.stack_is_live(),
    ensures
        ({
            let post = pre.popped().undone(pre.stack.last(), now);
            &&& post.wf()
            &&& post.stack == pre.stack.drop_last()
            &&& post.stack_is_live()
            &&& post.records[pre.stack.last()].state == ActionState::RolledBack
            &&& post.records[pre.stack.last()].rolled_back_at == Some(now)
        }),
{
    let top = pre.stack.last();
    let post = pre.popped().undone(top, now);
    assert(pre.records.contains_key(pre.stack[pre.stack.len() - 1]));
    assert(post.records.dom() =~= pre.records.dom());
    assert forall|i: int| 0 <= i < post.stack.len() implies post.records.contains_key(
        #[trigger] post.stack[i],
    ) by {
        assert(post.stack[i] == pre.stack[i]);
    }
    assert forall|i: int| 0 <= i < post.stack.len() implies (#[trigger] post.records[post.stack[i]]).state
        == ActionState::Completed by {
        assert(post.stack[i] == pre.stack[i]);
        assert(pre.stack[i] != pre.stack[pre.stack.len() - 1]);
        assert(pre.records[pre.stack[i]].state == ActionState::Completed);
    }
}

/// What each record holds, by id.
pub open spec fn record_views(records: Map<Seq<char>, ExecutedAction>) -> Map<
    Seq<char>,
    ExecutedActionView,
> {
    Map::new(|id: Seq<char>| records.contains_key(id), |id: Seq<char>| records[id]@)
}

/// The id for the next action of `observation_id`: the plain id where no
/// record stands under it, and else the plain id with the first number from
/// 2 upwards that gives an id without a record.
pub fn unused_id(records: &StrMap<ExecutedAction>, observation_id: &str) -> (id: String)
    ensures
        id@ == fresh_id(records@.dom(), observation_id@),
        !records@.contains_key(id@),
{
    proof {
        use_type_invariant(records);
        records.lemma_len();
    }
    let ghost taken = records@.dom();
    let plain = join2("action_", observation_id);
    if !records.contains_key(plain.as_str()) {
        proof {
            lemma_first_use_has_plain_id(taken, observation_id@);
        }
        return plain;
    }
    let stem = join2(plain.as_str(), "_");
    let held = records.len();
    let mut k: usize = 1;
    proof {
        lemma_taken_candidates(taken, observation_id@, 1);
    }
    loop
        invariant
            taken == records@.dom(),
            taken.finite(),
            taken.len() == held,
            stem@ == action_id(observation_id@) + "_"@,
            1 <= k <= taken.len(),
            forall|j: nat| j < k ==> taken.contains(#[trigger] candidate_id(observation_id@, j)),
        decreases taken.len() - k,
    {
        let count: u128 = k as u128 + 1;
        let id = join2(stem.as_str(), natural(count).as_str());
        assert(id@ == candidate_id(observation_id@, k as nat));
        if !records.contains_key(id.as_str()) {
            proof {
                lemma_fresh_id_is_first_free(taken, observation_id@, k as nat);
            }
            return id;
        }
        proof {
            lemma_taken_candidates(taken, observation_id@, (k + 1) as nat);
        }
        k += 1;
    }
}

/// Carries out safe actions and undoes them, newest first.
pub struct AutoActionSynthesizer {
    sandbox_runner: SandboxRunner,
    executed_actions: StrMap<ExecutedAction>,
    rollback_stack: Vec<String>,
}

impl View for AutoActionSynthesizer {
    type V = Ledger;

    closed spec fn view(&self) -> Ledger {
        Ledger {
            records: record_views(self.executed_actions@),
            stack: views_of(self.rollback_stack@),
        }
    }
}

impl AutoActionSynthesizer {
    /// What is held is a well-formed ledger.
    #[verifier::type_invariant]
    pub open spec fn wf(self) -> bool {
        self@.wf()
    }

    /// A synthesizer that holds nothing.
    pub fn new() -> (r: Self)
        ensures
            r@ == Ledger::empty(),
    {
        let executed_actions: StrMap<ExecutedAction> = StrMap::new();
        let rollback_stack: Vec<String> = Vec::new();
        assert(record_views(executed_actions@) =~= Map::<Seq<char>, ExecutedActionView>::empty());
        assert(views_of(rollback_stack@) =~= Seq::<Seq<char>>::empty());
        AutoActionSynthesizer { sandbox_runner: SandboxRunner::default(), executed_actions, rollback_stack }
    }

    fn after_synthesis(self, observation: &Observation, now: i64) -> (r: (
        Self,
        Result<ExecutedAction, String>,
    ))
        ensures
            synthesis(self@, observation@, now, r.0@, r.1),
    {
        proof {
            use_type_invariant(&self);
        }
        if !self.sandbox_runner.is_safe_to_auto_execute(&observation.action) {
            return (self, Err("Action not safe for auto-execution".to_string()));
        }
        let sandbox_result = self.sandbox_runner.test_automation(&observation.action);
        if !sandbox_result.success {
            let detail = debug_of(&sandbox_result.error_message);
            return (self, Err(join2("Sandbox test failed: ", detail.as_str())));
        }
        let rollback_diff = self.sandbox_runner.generate_undo(&observation.action);
        assert(self@.records.dom() =~= self.executed_actions@.dom());
        let executed_action = ExecutedAction {
            id: unused_id(&self.executed_actions, observation.id.as_str()),
            action: observation.action.clone(),
            state: ActionState::Completed,
            execution_result: Some(sandbox_result),
            rollback_diff: Some(rollback_diff),
            executed_at: Some(now),
            rolled_back_at: None,
        };
        let ghost before = self@;
        let ghost id = executed_action.id@;
        let AutoActionSynthesizer { sandbox_runner, executed_actions, rollback_stack } = self;
        let mut executed_actions = executed_actions;
        let mut rollback_stack = rollback_stack;
        executed_actions.insert(executed_action.id.clone(), executed_action.clone());
        rollback_stack.push(executed_action.id.clone());
        proof {
            assert(record_views(executed_actions@) =~= before.records.insert(id, executed_action@));
            assert(views_of(rollback_stack@) =~= before.stack.push(id));
            lemma_execution_adds_one_record(before, observation.id@, observation.action, now);
        }
        (AutoActionSynthesizer { sandbox_runner, executed_actions, rollback_stack }, Ok(executed_action))
    }

    /// Carries out the action of `observation` as if the clock read `now`.
    pub fn synthesize_and_execute_at(&mut self, observation: &Observation, now: i64) -> (r: Result<
        ExecutedAction,
        String,
    >)
        ensures
            synthesis(old(self)@, observation@, now, final(self)@, r),
            r is Ok <==> safe_to_auto_execute(observation.action),
            match r {
                Ok(made) => old(self)@.appended(made@, final(self)@),
                Err(_) => final(self)@ == old(self)@,
            },
            final(self).wf(),
    {
        proof {
            use_type_invariant(&*self);
        }
        let mut taken = AutoActionSynthesizer::new();
        core::mem::swap(self, &mut taken);
        let (next, r) = taken.after_synthesis(observation, now);
        *self = next;
        proof {
            use_type_invariant(&*self);
            lemma_success_is_execution(old(self)@, observation@, now, self@, r);
        }
        r
    }

    /// Carries out the action of `observation` if it is safe to run
    /// unattended and its dry run passes: the action is recorded as completed
    /// at the time the clock reads, under an id that held no record, and
    /// that id is pushed onto the stack. So each success adds exactly one
    /// record and one entry of the stack, and leaves every older record as it
    /// was. Otherwise nothing is changed and the reason is returned.
    pub fn synthesize_and_execute(&mut self, observation: &Observation) -> (r: Result<
        ExecutedAction,
        String,
    >)
        ensures
            exists|now: i64| synthesis(old(self)@, observation@, now, final(self)@, r),
            r is Ok <==> safe_to_auto_execute(observation.action),
            match r {
                Ok(made) => old(self)@.appended(made@, final(self)@),
                Err(_) => final(self)@ == old(self)@,
            },
            final(self).wf(),
    {
        let now = now_timestamp();
        self.synthesize_and_execute_at(observation, now)
    }

    fn after_rollback_last(self, now: i64) -> (r: (Self, Result<(), String>))
        ensures
            rollback_of_last(self@, now, r.0@, r.1),
    {
        proof {
            use_type_invariant(&self);
        }
        let ghost before = self@;
        let AutoActionSynthesizer { sandbox_runner, executed_actions, rollback_stack } = self;
        let mut executed_actions = executed_actions;
        let mut rollback_stack = rollback_stack;
        match rollback_stack.pop() {
            Some(action_id) => {
                assert(views_of(rollback_stack@) =~= before.stack.drop_last());
                assert(action_id@ == before.stack.last());
                let result = match executed_actions.position(action_id.as_str()) {
                    Some(at) => {
                        let record = executed_actions.value_at(at);
                        if record.state == ActionState::Completed {
                            let mut undone = record.clone();
                            undone.state = ActionState::RolledBack;
                            undone.rolled_back_at = Some(now);
                            executed_actions.replace_at(at, undone);
                            assert(record_views(executed_actions@) =~= before.records.insert(
                                action_id@,
                                rolled_back(before.records[action_id@], now),
                            ));
                            Ok(())
                        } else {
                            Err("Action not in completed state".to_string())
                        }
                    },
                    None => Err("Action not found".to_string()),
                };
                (AutoActionSynthesizer { sandbox_runner, executed_actions, rollback_stack }, result)
            },
            None => {
                assert(views_of(rollback_stack@) =~= before.stack);
                (
                    AutoActionSynthesizer { sandbox_runner, executed_actions, rollback_stack },
                    Err("No actions to rollback".to_string()),
                )
            },
        }
    }

    /// Undoes the newest action as if the clock read `now`.
    pub fn rollback_last_at(&mut self, now: i64) -> (r: Result<(), String>)
        ensures
            rollback_of_last(old(self)@, now, final(self)@, r),
            final(self).wf(),
    {
        let mut taken = AutoActionSynthesizer::new();
        core::mem::swap(self, &mut taken);
        let (next, r) = taken.after_rollback_last(now);
        *self = next;
        proof {
            use_type_invariant(&*self);
        }
        r
    }

    /// Takes the newest id off the stack and marks its action as undone at the
    /// time the clock reads. Fails where the stack is empty, and where the
    /// action is not in the completed state.
    pub fn rollback_last(&mut self) -> (r: Result<(), String>)
        ensures
            exists|now: i64| rollback_of_last(old(self)@, now, final(self)@, r),
            old(self)@.stack.len() == 0 ==> (r matches Err(e) && e@ == "No actions to rollback"@)
                && final(self)@ == old(self)@,
            final(self).wf(),
    {
        let now = now_timestamp();
        self.rollback_last_at(now)
    }

    fn after_rollback_of(self, action_id: &str, now: i64) -> (r: (Self, Result<(), String>))
        ensures
            rollback_of(self@, action_id@, now, r.0@, r.1),
    {
        proof {
            use_type_invariant(&self);
        }
        let ghost before = self@;
        let AutoActionSynthesizer { sandbox_runner, executed_actions, rollback_stack } = self;
        let mut executed_actions = executed_actions;
        let result = match executed_actions.position(action_id) {
            Some(at) => {
                let record = executed_actions.value_at(at);
                if record.state == ActionState::Completed {
                    let mut undone = record.clone();
                    undone.state = ActionState::RolledBack;
                    undone.rolled_back_at = Some(now);
                    executed_actions.replace_at(at, undone);
                    assert(record_views(executed_actions@) =~= before.records.insert(
                        action_id@,
                        rolled_back(before.records[action_id@], now),
                    ));
                    Ok(())
                } else {
                    Err("Action not in completed state".to_string())
                }
            },
            None => Err("Action not found".to_string()),
        };
        assert forall|i: int| 0 <= i < before.stack.len() implies record_views(
            executed_actions@,
        ).contains_key(#[trigger] before.stack[i]) by {
            assert(before.records.contains_key(before.stack[i]));
        }
        (AutoActionSynthesizer { sandbox_runner, executed_actions, rollback_stack }, result)
    }

    /// Undoes the action under `action_id` as if the clock read `now`.
    pub fn rollback_action_at(&mut self, action_id: &str, now: i64) -> (r: Result<(), String>)
        ensures
            rollback_of(old(self)@, action_id@, now, final(self)@, r),
            final(self).wf(),
    {
        let mut taken = AutoActionSynthesizer::new();
        core::mem::swap(self, &mut taken);
        let (next, r) = taken.after_rollback_of(action_id, now);
        *self = next;
        proof {
            use_type_invariant(&*self);
        }
        r
    }

    /// Marks the action under `action_id` as undone at the time the clock
    /// reads. Fails where there is no such action, and where it is not in the
    /// completed state. The id stays on the stack.
    pub fn rollback_action(&mut self, action_id: &str) -> (r: Result<(), String>)
        ensures
            exists|now: i64| rollback_of(old(self)@, action_id@, now, final(self)@, r),
            final(self).wf(),
    {
        let now = now_timestamp();
        self.rollback_action_at(action_id, now)
    }

    /// The records in the order of the stack, which is the order in which
    /// their actions ran.
    pub fn get_execution_history(&self) -> (r: Vec<&ExecutedAction>)
        ensures
            r@.len() == self@.stack.len(),
            forall|i: int| 0 <= i < r@.len() ==> (#[trigger] r@[i])@ == self@.history()[i],
            forall|i: int| 0 <= i < r@.len() ==> (#[trigger] r@[i])@.id == self@.stack[i],
    {
        proof {
            use_type_invariant(self);
        }
        let mut r: Vec<&ExecutedAction> = Vec::new();
        let mut i: usize = 0;
        while i < self.rollback_stack.len()
            invariant
                i <= self.rollback_stack.len(),
                self@.wf(),
                r@.len() == i,
                forall|j: int| 0 <= j < i ==> (#[trigger] r@[j])@ == self@.history()[j],
                forall|j: int| 0 <= j < i ==> (#[trigger] r@[j])@.id == self@.stack[j],
            decreases self.rollback_stack.len() - i,
        {
            assert(self@.records.contains_key(self@.stack[i as int]));
            match self.executed_actions.get(self.rollback_stack[i].as_str()) {
                Some(record) => {
                    r.push(record);
                },
                None => {},
            }
            i += 1;
        }
        r
    }

    /// The record under `action_id`.
    pub fn get_action(&self, action_id: &str) -> (r: Option<&ExecutedAction>)
        ensures
            match r {
                Some(record) => self@.records.contains_key(action_id@) && record@
                    == self@.records[action_id@],
                None => !self@.records.contains_key(action_id@),
            },
    {
        self.executed_actions.get(action_id)
    }

    /// How many ids the stack holds.
    pub fn stack_len(&self) -> (n: usize)
        ensures
            n == self@.stack.len(),
    {
        self.rollback_stack.len()
    }

    /// How many records are held.
    pub fn record_count(&self) -> (n: usize)
        ensures
            n == self@.records.dom().len(),
    {
        proof {
            use_type_invariant(&self.executed_actions);
            self.executed_actions.lemma_len();
            assert(self@.records.dom() =~= self.executed_actions@.dom());
        }
        self.executed_actions.len()
    }
}

impl Default for AutoActionSynthesizer {
    fn default() -> (r: Self)
        ensures
            r@ == Ledger::empty(),
    {
        AutoActionSynthesizer::new()
    }
}

} // verus!
