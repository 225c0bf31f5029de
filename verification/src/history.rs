//! What holds of every run of calls against a registry.
//!
//! A registry is only ever changed by one caller at a time, so whatever the
//! callers do in parallel, the registry sees their calls one after the other.
//! A run is that sequence, in the order in which the calls held the registry.

use vstd::prelude::*;
use crate::registry::CallView;
use crate::registry::FIRST_ID;
use crate::registry::RegistryView;
use crate::task::TaskView;

verus! {

/// The registry after all of `calls` were served in order, starting from `start`.
pub open spec fn after_calls(start: RegistryView, calls: Seq<CallView>) -> RegistryView
    decreases calls.len(),
{
    if calls.len() == 0 {
        start
    } else {
        after_calls(start, calls.drop_last()).after_call(calls.last())
    }
}

/// The registry as call number `i` of the run finds it.
pub open spec fn state_before(start: RegistryView, calls: Seq<CallView>, i: int) -> RegistryView {
    after_calls(start, calls.take(i))
}

/// What call number `i` of the run returns.
pub open spec fn returned(start: RegistryView, calls: Seq<CallView>, i: int) -> Option<TaskView> {
    state_before(start, calls, i).outcome(calls[i])
}

/// Serving one more call of a run is one `after_call` on the state before it.
proof fn lemma_state_step(start: RegistryView, calls: Seq<CallView>, i: int)
    requires
        0 <= i < calls.len(),
    ensures
        state_before(start, calls, i + 1) == state_before(start, calls, i).after_call(calls[i]),
{
    assert(calls.take(i + 1).drop_last() =~= calls.take(i));
}

/// Between two points of a run the counter never falls and no stored task
/// changes or disappears: the later collection begins with the earlier one.
pub proof fn lemma_run_only_appends(start: RegistryView, calls: Seq<CallView>, i: int, j: int)
    requires
        0 <= i <= j <= calls.len(),
    ensures
        state_before(start, calls, i).next_id <= state_before(start, calls, j).next_id,
        state_before(start, calls, i).tasks.len() <= state_before(start, calls, j).tasks.len(),
        state_before(start, calls, j).tasks.take(state_before(start, calls, i).tasks.len() as int)
            == state_before(start, calls, i).tasks,
    decreases j - i,
{
    if i < j {
        lemma_run_only_appends(start, calls, i, j - 1);
        lemma_state_step(start, calls, j - 1);
    }
}

/// The invariant holds in every state of a run that starts in a valid registry.
pub proof fn lemma_run_preserves_wf(start: RegistryView, calls: Seq<CallView>)
    requires
        start.wf(),
    ensures
        after_calls(start, calls).wf(),
    decreases calls.len(),
{
    if calls.len() > 0 {
        lemma_run_preserves_wf(start, calls.drop_last());
    }
}

/// Every id is at least `FIRST_ID`, and the counter is above every id that the
/// registry holds.
pub proof fn lemma_counter_above_ids(registry: RegistryView, i: int)
    requires
        registry.wf(),
        0 <= i < registry.tasks.len(),
    ensures
        FIRST_ID <= registry.tasks[i].id < registry.next_id,
{
}

/// No two positions of a valid registry hold the same id.
pub proof fn lemma_stored_ids_distinct(registry: RegistryView, i: int, j: int)
    requires
        registry.wf(),
        0 <= i < registry.tasks.len(),
        0 <= j < registry.tasks.len(),
        i != j,
    ensures
        registry.tasks[i].id != registry.tasks[j].id,
{
}

/// Of two calls of a run that both return a task, the earlier one returns the
/// smaller id.
pub proof fn lemma_ids_increase(start: RegistryView, calls: Seq<CallView>, i: int, j: int)
    requires
        0 <= i < j < calls.len(),
        returned(start, calls, i) is Some,
        returned(start, calls, j) is Some,
    ensures
        returned(start, calls, i)->0.id < returned(start, calls, j)->0.id,
{
    lemma_state_step(start, calls, i);
    lemma_run_only_appends(start, calls, i + 1, j);
}

/// No two calls of a run return the same id.
pub proof fn lemma_ids_distinct(start: RegistryView, calls: Seq<CallView>, i: int, j: int)
    requires
        0 <= i < calls.len(),
        0 <= j < calls.len(),
        i != j,
        returned(start, calls, i) is Some,
        returned(start, calls, j) is Some,
    ensures
        returned(start, calls, i)->0.id != returned(start, calls, j)->0.id,
{
    if i < j {
        lemma_ids_increase(start, calls, i, j);
    } else {
        lemma_ids_increase(start, calls, j, i);
    }
}

/// A task that a call of a run returned is in the registry at the end of the run,
/// unchanged, at the position that its id gives.
pub proof fn lemma_returned_task_is_kept(start: RegistryView, calls: Seq<CallView>, i: int)
    requires
        start.wf(),
        0 <= i < calls.len(),
        returned(start, calls, i) is Some,
    ensures
        ({
            let task = returned(start, calls, i)->0;
            let end = after_calls(start, calls);
            &&& 0 <= task.id - FIRST_ID < end.tasks.len()
            &&& end.tasks[task.id - FIRST_ID] == task
        }),
{
    let after = state_before(start, calls, i + 1);
    let end = state_before(start, calls, calls.len() as int);
    let task = returned(start, calls, i)->0;
    lemma_run_preserves_wf(start, calls.take(i));
    lemma_state_step(start, calls, i);
    lemma_run_only_appends(start, calls, i + 1, calls.len() as int);
    assert(calls.take(calls.len() as int) =~= calls);
    assert(end.tasks.take(after.tasks.len() as int)[task.id - FIRST_ID] == task);
}

/// Nothing is deduplicated: two calls of a run with the same title and the same
/// description, where both return a task, return two tasks with different ids,
/// and the registry holds both at the end of the run, at different positions.
pub proof fn lemma_no_deduplication(start: RegistryView, calls: Seq<CallView>, i: int, j: int)
    requires
        start.wf(),
        0 <= i < calls.len(),
        0 <= j < calls.len(),
        i != j,
        calls[i] == calls[j],
        returned(start, calls, i) is Some,
        returned(start, calls, j) is Some,
    ensures
        ({
            let first = returned(start, calls, i)->0;
            let second = returned(start, calls, j)->0;
            let end = after_calls(start, calls);
            &&& first.id != second.id
            &&& first != second
            &&& first.title == second.title
            &&& first.description == second.description
            &&& 0 <= first.id - FIRST_ID < end.tasks.len()
            &&& 0 <= second.id - FIRST_ID < end.tasks.len()
            &&& end.tasks[first.id - FIRST_ID] == first
            &&& end.tasks[second.id - FIRST_ID] == second
        }),
{
    lemma_ids_distinct(start, calls, i, j);
    lemma_returned_task_is_kept(start, calls, i);
    lemma_returned_task_is_kept(start, calls, j);
}

/// A run of fewer than `usize::MAX` calls against an empty registry: every call
/// returns a task, and the registry ends up with one task per call, in call
/// order, numbered from `FIRST_ID` without a gap.
pub proof fn lemma_empty_registry_mirrors_calls(calls: Seq<CallView>)
    requires
        calls.len() < usize::MAX,
    ensures
        ({
            let end = after_calls(RegistryView::empty(), calls);
            &&& end.wf()
            &&& end.tasks.len() == calls.len()
            &&& forall|k: int|
                0 <= k < calls.len() ==> #[trigger] end.tasks[k] == (TaskView {
                    id: (FIRST_ID + k) as nat,
                    title: calls[k].title,
                    description: calls[k].description,
                    completed: false,
                })
            &&& forall|k: int|
                0 <= k < calls.len() ==> #[trigger] returned(RegistryView::empty(), calls, k)
                    == Some(end.tasks[k])
        }),
    decreases calls.len(),
{
    let start = RegistryView::empty();
    let end = after_calls(start, calls);
    if calls.len() > 0 {
        let earlier = calls.drop_last();
        let last = calls.len() - 1;
        lemma_empty_registry_mirrors_calls(earlier);
        assert forall|k: int| 0 <= k < calls.len() implies #[trigger] returned(start, calls, k)
            == Some(end.tasks[k]) by {
            if k < last {
                assert(earlier.take(k) =~= calls.take(k));
                assert(returned(start, earlier, k) == Some(after_calls(start, earlier).tasks[k]));
            }
        }
    }
}

} // verus!
