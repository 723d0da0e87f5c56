//! The ordered list of download tasks of a chat.

use vstd::prelude::*;
use std::collections::VecDeque;
use crate::tasks::{DownloadState, FileTask, StateView, TaskView};

verus! {

/// `i` is the position of the first task with this id.
pub open spec fn is_first(tasks: Seq<TaskView>, id: Seq<char>, i: int) -> bool {
    &&& 0 <= i < tasks.len()
    &&& tasks[i].id == id
    &&& forall|j: int| 0 <= j < i ==> (#[trigger] tasks[j]).id != id
}

/// Some task has this id.
pub open spec fn has_task(tasks: Seq<TaskView>, id: Seq<char>) -> bool {
    exists|i: int| 0 <= i < tasks.len() && (#[trigger] tasks[i]).id == id
}

/// The position of the first task with this id.
pub open spec fn find_task(tasks: Seq<TaskView>, id: Seq<char>) -> Option<int> {
    if has_task(tasks, id) {
        Some(choose|i: int| is_first(tasks, id, i))
    } else {
        None
    }
}

/// The queue with the first task of this id in another state.
pub open spec fn set_state(tasks: Seq<TaskView>, id: Seq<char>, state: StateView) -> Seq<TaskView> {
    match find_task(tasks, id) {
        Some(i) => tasks.update(i, tasks[i].with_state(state)),
        None => tasks,
    }
}

/// A task may leave the list once it is done, or while it waits for a confirmation.
pub open spec fn removable(state: StateView) -> bool {
    state is Done || state is AwaitingConfirmation
}

/// The queue without the first task of this id, if that task may leave.
pub open spec fn remove_task(tasks: Seq<TaskView>, id: Seq<char>) -> Seq<TaskView> {
    match find_task(tasks, id) {
        Some(i) => if removable(tasks[i].state) {
            tasks.remove(i)
        } else {
            tasks
        },
        None => tasks,
    }
}

/// The queue without its failed tasks.
pub open spec fn without_errors(tasks: Seq<TaskView>) -> Seq<TaskView> {
    tasks.filter(|t: TaskView| !(t.state is Error))
}

/// No two tasks have the same id.
pub open spec fn distinct_ids(tasks: Seq<TaskView>) -> bool {
    forall|i: int, j: int|
        0 <= i < j < tasks.len() ==> (#[trigger] tasks[i]).id != (#[trigger] tasks[j]).id
}

/// Where a task of some id exists, `find_task` gives the position of the first.
pub proof fn lemma_find_task(tasks: Seq<TaskView>, id: Seq<char>)
    ensures
        find_task(tasks, id) is Some <==> has_task(tasks, id),
        find_task(tasks, id) matches Some(i) ==> is_first(tasks, id, i),
{
    if has_task(tasks, id) {
        let k = choose|k: int| 0 <= k < tasks.len() && (#[trigger] tasks[k]).id == id;
        lemma_first_exists(tasks, id, k);
    }
}

proof fn lemma_first_exists(tasks: Seq<TaskView>, id: Seq<char>, k: int)
    requires
        0 <= k < tasks.len(),
        tasks[k].id == id,
    ensures
        exists|i: int| is_first(tasks, id, i),
    decreases k,
{
    if exists|j: int| 0 <= j < k && (#[trigger] tasks[j]).id == id {
        let j = choose|j: int| 0 <= j < k && (#[trigger] tasks[j]).id == id;
        lemma_first_exists(tasks, id, j);
    } else {
        assert(is_first(tasks, id, k));
    }
}

/// The first position is the only one that `find_task` can give.
pub proof fn lemma_first_is_found(tasks: Seq<TaskView>, id: Seq<char>, i: int)
    requires
        is_first(tasks, id, i),
    ensures
        find_task(tasks, id) == Some(i),
{
    assert(has_task(tasks, id));
    lemma_find_task(tasks, id);
    let f = find_task(tasks, id)->0;
    if f < i {
        assert(tasks[f].id != id);
    } else if i < f {
        assert(tasks[i].id != id);
    }
}

/// Looks for the first task with this id.
pub fn position(tasks: &VecDeque<FileTask>, id: &String) -> (r: Option<usize>)
    ensures
        match r {
            Some(i) => find_task(tasks.deep_view(), id@) == Some(i as int) && i < tasks.deep_view().len(),
            None => find_task(tasks.deep_view(), id@) is None,
        },
{
    let n: usize = tasks.len();
    let mut i: usize = 0;
    while i < n
        invariant
            i <= n,
            n == tasks.deep_view().len(),
            n == tasks@.len(),
            forall|j: int| 0 <= j < i ==> (#[trigger] tasks.deep_view()[j]).id != id@,
        decreases n - i,
    {
        if tasks[i].id == *id {
            proof {
                assert(tasks.deep_view()[i as int].id == id@);
                assert(is_first(tasks.deep_view(), id@, i as int));
                lemma_first_is_found(tasks.deep_view(), id@, i as int);
            }
            return Some(i);
        }
        i = i + 1;
    }
    None
}

/// Puts the task at position `i` in another state.
pub fn set_state_at(tasks: &mut VecDeque<FileTask>, i: usize, state: DownloadState)
    requires
        i < old(tasks)@.len(),
    ensures
        final(tasks).deep_view() == old(tasks).deep_view().update(
            i as int,
            old(tasks).deep_view()[i as int].with_state(state@),
        ),
{
    match tasks.remove(i) {
        Some(t) => {
            let changed = FileTask { state, ..t };
            tasks.insert(i, changed);
        },
        None => {},
    }
    assert(tasks.deep_view() =~= old(tasks).deep_view().update(
        i as int,
        old(tasks).deep_view()[i as int].with_state(state@),
    ));
}

/// Drops the failed tasks and keeps the others in their order.
pub fn clear_errors(tasks: &mut VecDeque<FileTask>)
    ensures
        final(tasks).deep_view() == without_errors(old(tasks).deep_view()),
{
    let mut kept: VecDeque<FileTask> = VecDeque::new();
    let ghost all = tasks.deep_view();
    let ghost keeps = |t: TaskView| !(t.state is Error);
    assert(kept.deep_view() =~= Seq::<TaskView>::empty());
    assert(all.take(0) =~= Seq::<TaskView>::empty());
    let ghost mut seen: int = 0;
    proof {
        reveal(Seq::filter);
    }
    assert(all.skip(0) =~= all);
    loop
        invariant
            0 <= seen <= all.len(),
            tasks.deep_view() == all.skip(seen),
            kept.deep_view() == all.take(seen).filter(keeps),
            keeps == (|t: TaskView| !(t.state is Error)),
        ensures
            seen == all.len(),
            kept.deep_view() == all.take(seen).filter(keeps),
        decreases all.len() - seen,
    {
        assert(tasks.deep_view().len() == tasks@.len());
        let ghost before = tasks.deep_view();
        match tasks.pop_front() {
            Some(t) => {
                proof {
                    assert(before[0] == t@);
                    assert(all[seen] == t@);
                    assert(tasks.deep_view() =~= before.skip(1));
                    assert(all.skip(seen).skip(1) =~= all.skip(seen + 1));
                    assert(all.take(seen + 1).drop_last() =~= all.take(seen));
                    assert(all.take(seen + 1).last() == all[seen]);
                    reveal(Seq::filter);
                    seen = seen + 1;
                }
                let ghost so_far = kept.deep_view();
                match t.state {
                    DownloadState::Error(_) => {},
                    _ => {
                        kept.push_back(t);
                        assert(kept.deep_view() =~= so_far.push(t@));
                    },
                }
            },
            None => {
                break;
            },
        }
    }
    assert(all.take(seen) =~= all);
    *tasks = kept;
}

/// An id means the first task that has it, and none where no task has it.
pub proof fn law_ids_mean_the_first_task(tasks: Seq<TaskView>, id: Seq<char>)
    ensures
        match find_task(tasks, id) {
            Some(i) => 0 <= i < tasks.len() && tasks[i].id == id && forall|j: int|
                0 <= j < i ==> (#[trigger] tasks[j]).id != id,
            None => forall|j: int| 0 <= j < tasks.len() ==> (#[trigger] tasks[j]).id != id,
        },
{
    lemma_find_task(tasks, id);
}

} // verus!
