//! What holds of the bot as a whole.

use vstd::prelude::*;
use crate::actor::{failure_text, ActorView, EffectView};
use crate::callback::{command_event, command_of, law_buttons_are_understood};
use crate::download::{late_event, outcome_event, transfer_step, StepView};
use crate::intake::{
    cancel_data, confirm_data, new_job, new_task, plan_for, plan_for_existing, task_id, verdict,
    ContentView, Verdict,
};
use crate::queue::{
    distinct_ids, find_task, has_task, is_first, lemma_find_task, lemma_first_is_found, removable,
};
use crate::size::size_text;
use crate::stats::stats_file;
use crate::status::{
    active_count, done_count, error_count, law_errors_can_be_cleared, shown, status_keyboard,
    status_text, task_line, task_lines,
};
use crate::tasks::{ButtonView, EventView, JobView, ReplyView, StateView, TaskView};
use crate::text::{decimal, digit_char, digits};

verus! {

// ---- Numbers as text ----

/// All characters of a number are digits, but for the sign of a negative one.
proof fn lemma_digits_chars(n: nat)
    ensures
        digits(n).len() > 0,
        forall|i: int| 0 <= i < digits(n).len() ==> '0' <= #[trigger] digits(n)[i] <= '9',
    decreases n,
{
    if n >= 10 {
        lemma_digits_chars(n / 10);
    }
}

proof fn lemma_digits_injective(m: nat, n: nat)
    requires
        digits(m) == digits(n),
    ensures
        m == n,
    decreases m,
{
    lemma_digits_chars(m / 10);
    lemma_digits_chars(n / 10);
    if m < 10 && n < 10 {
        assert(digits(m)[0] == digits(n)[0]);
        assert(digits(m)[0] == digit_char(m));
        assert(digits(n)[0] == digit_char(n));
        assert(m == n);
    } else if m >= 10 && n >= 10 {
        assert(digits(m).drop_last() =~= digits(m / 10));
        assert(digits(n).drop_last() =~= digits(n / 10));
        assert(digits(m).last() == digits(n).last());
        assert(digits(m).last() == digit_char(m % 10));
        assert(digits(n).last() == digit_char(n % 10));
        assert(m % 10 == n % 10);
        lemma_digits_injective(m / 10, n / 10);
        assert(m == n);
    } else if m < 10 {
        assert(digits(m).len() == 1);
        assert(digits(n) == digits(n / 10).push(digit_char(n % 10)));
    } else {
        assert(digits(n).len() == 1);
        assert(digits(m) == digits(m / 10).push(digit_char(m % 10)));
    }
}

/// Different numbers have different texts.
pub proof fn law_decimal_is_injective(m: int, n: int)
    requires
        decimal(m) == decimal(n),
    ensures
        m == n,
{
    let a = if m < 0 {
        (-m) as nat
    } else {
        m as nat
    };
    let b = if n < 0 {
        (-n) as nat
    } else {
        n as nat
    };
    lemma_digits_chars(a);
    lemma_digits_chars(b);
    assert(decimal(m)[0] == decimal(n)[0]);
    if m < 0 {
        assert(decimal(m)[0] == '-');
        assert(n < 0) by {
            if n >= 0 {
                assert('0' <= digits(b)[0] <= '9');
            }
        }
        assert(decimal(m).skip(1) =~= digits(a));
        assert(decimal(n).skip(1) =~= digits(b));
    } else {
        assert('0' <= digits(a)[0] <= '9');
        if n < 0 {
            assert(decimal(n)[0] == '-');
        }
    }
    lemma_digits_injective(a, b);
}

/// No two chats share a statistics file.
pub proof fn law_statistics_files_are_separate(chat1: int, chat2: int)
    requires
        stats_file(chat1) == stats_file(chat2),
    ensures
        chat1 == chat2,
{
    let head = "stats_"@;
    let tail = ".json"@;
    let f1 = stats_file(chat1);
    let f2 = stats_file(chat2);
    assert(f1.len() == f2.len());
    assert(f1.subrange(head.len() as int, f1.len() - tail.len()) =~= decimal(chat1));
    assert(f2.subrange(head.len() as int, f2.len() - tail.len()) =~= decimal(chat2));
    law_decimal_is_injective(chat1, chat2);
}

/// A number holds no underscore.
proof fn lemma_decimal_has_no_underscore(n: int)
    ensures
        forall|i: int| 0 <= i < decimal(n).len() ==> #[trigger] decimal(n)[i] != '_',
{
    if n < 0 {
        lemma_digits_chars((-n) as nat);
        assert forall|i: int| 0 <= i < decimal(n).len() implies #[trigger] decimal(n)[i] != '_' by {
            if i > 0 {
                assert(decimal(n)[i] == digits((-n) as nat)[i - 1]);
            }
        }
    } else {
        lemma_digits_chars(n as nat);
    }
}

/// A task id names one message and one file: no two tasks of different messages, or for
/// different files, share an id.
pub proof fn law_task_ids_are_unique(m1: i32, f1: Seq<char>, m2: i32, f2: Seq<char>)
    requires
        task_id(m1, f1) == task_id(m2, f2),
    ensures
        m1 == m2,
        f1 == f2,
{
    reveal_strlit("_");
    let d1 = decimal(m1 as int);
    let d2 = decimal(m2 as int);
    lemma_decimal_has_no_underscore(m1 as int);
    lemma_decimal_has_no_underscore(m2 as int);
    let t1 = task_id(m1, f1);
    let t2 = task_id(m2, f2);
    assert(t1[d1.len() as int] == '_');
    assert(t2[d2.len() as int] == '_');
    if d1.len() < d2.len() {
        assert(t2[d1.len() as int] == d2[d1.len() as int]);
    } else if d2.len() < d1.len() {
        assert(t1[d2.len() as int] == d1[d2.len() as int]);
    }
    assert(t1.take(d1.len() as int) =~= d1);
    assert(t2.take(d2.len() as int) =~= d2);
    law_decimal_is_injective(m1 as int, m2 as int);
    assert(t1.skip(d1.len() as int + 1) =~= f1);
    assert(t2.skip(d2.len() as int + 1) =~= f2);
}

// ---- The queue ----

/// What stands in a filtered sequence stands, in the same order, in the whole one, and passes.
proof fn lemma_filter_positions(s: Seq<TaskView>, keep: spec_fn(TaskView) -> bool)
    ensures
        s.filter(keep).len() <= s.len(),
        forall|i: int|
            0 <= i < s.filter(keep).len() ==> keep(#[trigger] s.filter(keep)[i]) && s.contains(
                s.filter(keep)[i],
            ),
        forall|i: int|
            0 <= i < s.len() && keep(#[trigger] s[i]) ==> s.filter(keep).contains(s[i]),
    decreases s.len(),
{
    reveal(Seq::filter);
    if s.len() > 0 {
        let rest = s.drop_last();
        lemma_filter_positions(rest, keep);
        assert forall|i: int| 0 <= i < s.filter(keep).len() implies keep(
            #[trigger] s.filter(keep)[i],
        ) && s.contains(s.filter(keep)[i]) by {
            if i < rest.filter(keep).len() {
                let x = rest.filter(keep)[i];
                assert(rest.contains(x));
                let k = choose|k: int| 0 <= k < rest.len() && rest[k] == x;
                assert(s[k] == x);
            } else {
                assert(s[s.len() - 1] == s.filter(keep)[i]);
            }
        }
        assert forall|i: int| 0 <= i < s.len() && keep(#[trigger] s[i]) implies s.filter(
            keep,
        ).contains(s[i]) by {
            if i < rest.len() {
                assert(rest[i] == s[i]);
                assert(rest.filter(keep).contains(s[i]));
                let k = choose|k: int|
                    0 <= k < rest.filter(keep).len() && rest.filter(keep)[k] == s[i];
                assert(s.filter(keep)[k] == s[i]);
            } else {
                assert(s.filter(keep)[s.filter(keep).len() - 1] == s[i]);
            }
        }
    }
}

proof fn lemma_filter_keeps_distinct(s: Seq<TaskView>, keep: spec_fn(TaskView) -> bool)
    requires
        distinct_ids(s),
    ensures
        distinct_ids(s.filter(keep)),
    decreases s.len(),
{
    reveal(Seq::filter);
    if s.len() > 0 {
        let rest = s.drop_last();
        assert(distinct_ids(rest)) by {
            assert forall|i: int, j: int| 0 <= i < j < rest.len() implies (#[trigger] rest[i]).id
                != (#[trigger] rest[j]).id by {
                assert(s[i].id != s[j].id);
            }
        }
        lemma_filter_keeps_distinct(rest, keep);
        lemma_filter_positions(rest, keep);
        let kept = s.filter(keep);
        assert forall|i: int, j: int| 0 <= i < j < kept.len() implies (#[trigger] kept[i]).id != (
        #[trigger] kept[j]).id by {
            if j == rest.filter(keep).len() {
                let x = rest.filter(keep)[i];
                assert(rest.contains(x));
                let k = choose|k: int| 0 <= k < rest.len() && rest[k] == x;
                assert(s[k].id != s[s.len() - 1].id);
            }
        }
    }
}

/// Events never make two tasks share an id, as long as no task comes in under an id that is
/// taken.
pub proof fn law_ids_stay_distinct(a: ActorView, event: EventView)
    requires
        distinct_ids(a.tasks),
        event matches EventView::TaskAdded(t) ==> !has_task(a.tasks, t.id),
    ensures
        distinct_ids(a.after(event).tasks),
{
    let after = a.after(event).tasks;
    match event {
        EventView::TaskAdded(t) => {
            assert forall|i: int, j: int| 0 <= i < j < after.len() implies (#[trigger] after[i]).id
                != (#[trigger] after[j]).id by {
                if j == a.tasks.len() {
                    assert(a.tasks[i].id != t.id);
                }
            }
        },
        EventView::TaskStarted(id) => {
            lemma_find_task(a.tasks, id);
        },
        EventView::TaskDone(id) => {
            lemma_find_task(a.tasks, id);
        },
        EventView::TaskError(id, _) => {
            lemma_find_task(a.tasks, id);
        },
        EventView::ConfirmLargeDownload(id, _, _) => {
            lemma_find_task(a.tasks, id);
        },
        EventView::TaskRemove(id) => {
            lemma_find_task(a.tasks, id);
        },
        EventView::ClearErrors => {
            lemma_filter_keeps_distinct(a.tasks, |t: TaskView| !(t.state is Error));
        },
        EventView::UserMessageSent(_) => {},
    }
}

/// An event that neither brings a task nor takes tasks away changes at most the state of the
/// first task that it names; every other task, and all else of that task, stays as it is.
pub proof fn law_events_touch_one_task(a: ActorView, event: EventView, i: int)
    requires
        0 <= i < a.tasks.len(),
        !(event is TaskAdded),
        !(event is TaskRemove),
        !(event is ClearErrors),
    ensures
        a.after(event).tasks.len() == a.tasks.len(),
        a.after(event).tasks[i] == a.tasks[i].with_state(a.after(event).tasks[i].state),
        a.after(event).tasks[i] != a.tasks[i] ==> is_first(a.tasks, a.tasks[i].id, i) && (match event {
            EventView::TaskStarted(id) => a.tasks[i].id == id && a.after(event).tasks[i].state
                is Downloading,
            EventView::TaskDone(id) => a.tasks[i].id == id && a.after(event).tasks[i].state is Done,
            EventView::TaskError(id, e) => a.tasks[i].id == id && a.after(event).tasks[i].state
                == StateView::Error(e),
            EventView::ConfirmLargeDownload(id, _, _) => a.tasks[i].id == id && a.after(
                event,
            ).tasks[i].state is Queued,
            _ => false,
        }),
{
    match event {
        EventView::TaskStarted(id) => {
            lemma_find_task(a.tasks, id);
        },
        EventView::TaskDone(id) => {
            lemma_find_task(a.tasks, id);
        },
        EventView::TaskError(id, _) => {
            lemma_find_task(a.tasks, id);
        },
        EventView::ConfirmLargeDownload(id, _, _) => {
            lemma_find_task(a.tasks, id);
        },
        _ => {},
    }
}

/// A task that is queued or downloading never leaves the queue; only its state may change.
pub proof fn law_running_tasks_stay(a: ActorView, event: EventView, i: int)
    requires
        0 <= i < a.tasks.len(),
        a.tasks[i].state is Queued || a.tasks[i].state is Downloading,
    ensures
        exists|j: int|
            0 <= j < a.after(event).tasks.len() && (#[trigger] a.after(event).tasks[j])
                == a.tasks[i].with_state(a.after(event).tasks[j].state),
{
    let t = a.tasks[i];
    let after = a.after(event).tasks;
    let j: int = match event {
        EventView::TaskRemove(id) => {
            lemma_find_task(a.tasks, id);
            match find_task(a.tasks, id) {
                Some(k) => if removable(a.tasks[k].state) && i > k {
                    i - 1
                } else {
                    i
                },
                None => i,
            }
        },
        EventView::ClearErrors => {
            let keep = |t: TaskView| !(t.state is Error);
            lemma_filter_positions(a.tasks, keep);
            assert(keep(t));
            assert(after.contains(t));
            choose|k: int| 0 <= k < after.len() && after[k] == t
        },
        EventView::TaskAdded(_) => i,
        _ => {
            law_events_touch_one_task(a, event, i);
            i
        },
    };
    assert(0 <= j < after.len());
    assert(after[j] == t.with_state(after[j].state));
}

/// Clearing the errors leaves no failed task, keeps every other one, and has nothing left to do
/// the second time.
pub proof fn law_clear_errors(a: ActorView)
    ensures
        ({
            let cleared = a.after(EventView::ClearErrors);
            &&& forall|i: int|
                0 <= i < cleared.tasks.len() ==> !((#[trigger] cleared.tasks[i]).state is Error)
            &&& forall|i: int|
                0 <= i < a.tasks.len() && !((#[trigger] a.tasks[i]).state is Error)
                    ==> cleared.tasks.contains(a.tasks[i])
            &&& cleared.after(EventView::ClearErrors).tasks == cleared.tasks
            &&& status_keyboard(cleared.tasks) is None
        }),
{
    let keep = |t: TaskView| !(t.state is Error);
    let cleared = a.after(EventView::ClearErrors);
    lemma_filter_positions(a.tasks, keep);
    assert forall|i: int| 0 <= i < cleared.tasks.len() implies !((
    #[trigger] cleared.tasks[i]).state is Error) by {
        assert(keep(cleared.tasks[i]));
    }
    assert forall|i: int| 0 <= i < a.tasks.len() && !((
    #[trigger] a.tasks[i]).state is Error) implies cleared.tasks.contains(a.tasks[i]) by {
        assert(keep(a.tasks[i]));
    }
    lemma_filter_all(cleared.tasks, keep);
    let listed = shown(cleared.tasks);
    assert forall|i: int| 0 <= i < listed.len() implies !((#[trigger] listed[i]).state is Error) by {
        assert(listed[i] == cleared.tasks[i]);
    }
}

proof fn lemma_filter_all(s: Seq<TaskView>, keep: spec_fn(TaskView) -> bool)
    requires
        forall|i: int| 0 <= i < s.len() ==> keep(#[trigger] s[i]),
    ensures
        s.filter(keep) == s,
    decreases s.len(),
{
    reveal(Seq::filter);
    if s.len() > 0 {
        let rest = s.drop_last();
        assert forall|i: int| 0 <= i < rest.len() implies keep(#[trigger] rest[i]) by {
            assert(rest[i] == s[i]);
        }
        lemma_filter_all(rest, keep);
        assert(keep(s[s.len() - 1]));
        assert(s =~= rest.push(s.last()));
    } else {
        assert(s.filter(keep) =~= s);
    }
}

// ---- The life of a task ----

/// A task that comes in under a free id stands last, and is the one that its id finds.
proof fn lemma_added_task_is_found(a: ActorView, t: TaskView)
    requires
        !has_task(a.tasks, t.id),
    ensures
        find_task(a.tasks.push(t), t.id) == Some(a.tasks.len() as int),
{
    let tasks = a.tasks.push(t);
    assert forall|j: int| 0 <= j < a.tasks.len() implies (#[trigger] tasks[j]).id != t.id by {
        assert(a.tasks[j].id != t.id);
    }
    lemma_first_is_found(tasks, t.id, a.tasks.len() as int);
}

/// A download that succeeds: the task comes in, runs, is counted once with its size, and leaves
/// the queue as it was before.
pub proof fn law_successful_download(a: ActorView, t: TaskView)
    requires
        !has_task(a.tasks, t.id),
        a.stats.can_record(t.size_bytes as nat),
    ensures
        ({
            let added = a.after(EventView::TaskAdded(t));
            let started = added.after(EventView::TaskStarted(t.id));
            let event = outcome_event(t.id, Ok(()));
            let done = started.after(event);
            let removed = done.after(late_event(t.id, Ok(()))->0);
            let stats = a.stats.recorded(t.size_bytes as nat);
            &&& added.tasks == a.tasks.push(t)
            &&& started.tasks == a.tasks.push(t.with_state(StateView::Downloading))
            &&& started.accepts(event)
            &&& started.effect(event) == Some(EffectView::SaveStatistics(stats))
            &&& done.tasks == a.tasks.push(t.with_state(StateView::Done))
            &&& removed.tasks == a.tasks
            &&& removed.stats == stats
        }),
{
    let added = a.after(EventView::TaskAdded(t));
    let started = added.after(EventView::TaskStarted(t.id));
    let done = started.after(EventView::TaskDone(t.id));
    let removed = done.after(EventView::TaskRemove(t.id));
    lemma_added_task_is_found(a, t);
    assert(started.tasks =~= a.tasks.push(t.with_state(StateView::Downloading)));
    lemma_added_task_is_found(a, t.with_state(StateView::Downloading));
    assert(done.tasks =~= a.tasks.push(t.with_state(StateView::Done)));
    lemma_added_task_is_found(a, t.with_state(StateView::Done));
    assert(removed.tasks =~= a.tasks);
}

/// A download that fails: the user is told in an answer to the message that brought the file,
/// nothing is counted, the task stays in the queue with its error until the errors are cleared.
pub proof fn law_failed_download(a: ActorView, t: TaskView, error: Seq<char>)
    requires
        !has_task(a.tasks, t.id),
    ensures
        ({
            let started = a.after(EventView::TaskAdded(t)).after(EventView::TaskStarted(t.id));
            let event = outcome_event(t.id, Err(error));
            let failed = started.after(event);
            &&& late_event(t.id, Err(error)) is None
            &&& failed.tasks == a.tasks.push(t.with_state(StateView::Error(error)))
            &&& failed.stats == a.stats
            &&& started.effect(event) == Some(
                EffectView::Send(
                    ReplyView {
                        reply_to: t.msg_id,
                        text: failure_text(t, error),
                        keyboard: None,
                    },
                ),
            )
            &&& failed.after(EventView::TaskRemove(t.id)).tasks == failed.tasks
            &&& failed.after(EventView::ClearErrors).tasks == a.after(EventView::ClearErrors).tasks
        }),
{
    let running = t.with_state(StateView::Downloading);
    let broken = t.with_state(StateView::Error(error));
    let started = a.after(EventView::TaskAdded(t)).after(EventView::TaskStarted(t.id));
    let failed = started.after(EventView::TaskError(t.id, error));
    lemma_added_task_is_found(a, t);
    assert(started.tasks =~= a.tasks.push(running));
    lemma_added_task_is_found(a, running);
    assert(failed.tasks =~= a.tasks.push(broken));
    lemma_added_task_is_found(a, broken);
    reveal(Seq::filter);
    assert(failed.tasks.drop_last() =~= a.tasks);
}

/// A large file that the user cancels leaves the queue as it was, and a confirmation that comes
/// after all starts nothing.
pub proof fn law_cancelled_file_is_not_downloaded(
    a: ActorView,
    msg_id: i32,
    content: ContentView,
    link: Seq<char>,
    dest_dir: Seq<char>,
)
    requires
        verdict(content.size, true) is Ask,
        !has_task(a.tasks, task_id(msg_id, content.file_id)),
    ensures
        ({
            let t = new_task(msg_id, content, link, true);
            let waiting = a.after(EventView::TaskAdded(t));
            let cancel = command_event(command_of(cancel_data(t.id)), dest_dir, true)->0;
            let confirm = command_event(command_of(confirm_data(t.id)), dest_dir, true)->0;
            let cancelled = waiting.after(cancel);
            &&& waiting.effect(cancel) is None
            &&& cancelled.tasks == a.tasks
            &&& cancelled.effect(confirm) is None
            &&& cancelled.after(confirm).tasks == a.tasks
        }),
{
    let t = new_task(msg_id, content, link, true);
    let waiting = a.after(EventView::TaskAdded(t));
    law_buttons_are_understood(t.id);
    lemma_added_task_is_found(a, t);
    assert(waiting.after(EventView::TaskRemove(t.id)).tasks =~= a.tasks);
    lemma_find_task(a.tasks, t.id);
}

/// A large file that the user confirms is downloaded as a small one would have been: by the same
/// job, with its task queued. Before the confirmation, nothing is downloaded.
pub proof fn law_confirmed_file_is_downloaded(
    a: ActorView,
    msg_id: i32,
    content: ContentView,
    link: Seq<char>,
    dest_dir: Seq<char>,
)
    requires
        verdict(content.size, true) is Ask,
        !has_task(a.tasks, task_id(msg_id, content.file_id)),
    ensures
        plan_for(msg_id, content, link, dest_dir, true).start is None,
        ({
            let t = new_task(msg_id, content, link, true);
            let waiting = a.after(EventView::TaskAdded(t));
            let confirm = command_event(command_of(confirm_data(t.id)), dest_dir, true)->0;
            &&& waiting.effect(confirm) == Some(
                EffectView::StartDownload(new_job(msg_id, content, dest_dir, true)),
            )
            &&& waiting.after(confirm).tasks == a.tasks.push(t.with_state(StateView::Queued))
        }),
{
    let t = new_task(msg_id, content, link, true);
    let waiting = a.after(EventView::TaskAdded(t));
    law_buttons_are_understood(t.id);
    lemma_added_task_is_found(a, t);
    let confirm = EventView::ConfirmLargeDownload(t.id, dest_dir, true);
    assert(waiting.after(confirm).tasks =~= a.tasks.push(t.with_state(StateView::Queued)));
}

/// A file that was rejected is never downloaded: neither at once, nor by a confirmation.
pub proof fn law_rejected_file_is_not_downloaded(
    a: ActorView,
    msg_id: i32,
    content: ContentView,
    link: Seq<char>,
    dest_dir: Seq<char>,
    local_mode: bool,
)
    requires
        verdict(content.size, local_mode) is Reject,
        !has_task(a.tasks, task_id(msg_id, content.file_id)),
    ensures
        plan_for(msg_id, content, link, dest_dir, local_mode).start is None,
        ({
            let t = new_task(msg_id, content, link, local_mode);
            let rejected = a.after(EventView::TaskAdded(t));
            let confirm = EventView::ConfirmLargeDownload(t.id, dest_dir, local_mode);
            &&& t.state is Error
            &&& rejected.effect(confirm) is None
            &&& rejected.after(confirm).tasks == rejected.tasks
        }),
{
    let t = new_task(msg_id, content, link, local_mode);
    lemma_added_task_is_found(a, t);
}

/// Every file is downloaded at once or answered, never both, and a file that is on disk already
/// is answered and nothing else.
pub proof fn law_every_file_is_started_or_answered(
    msg_id: i32,
    content: ContentView,
    link: Seq<char>,
    dest_dir: Seq<char>,
    local_mode: bool,
)
    ensures
        ({
            let plan = plan_for(msg_id, content, link, dest_dir, local_mode);
            let existing = plan_for_existing(msg_id);
            &&& plan.start is Some <==> plan.reply is None
            &&& plan.start is Some <==> verdict(content.size, local_mode) is Accept
            &&& plan.reply matches Some(r) ==> r.reply_to == msg_id
            &&& existing.reply is Some
            &&& existing.start is None
            &&& existing.events.len() == 0
        }),
{
}

/// How strictly a file is treated.
pub open spec fn strictness(v: Verdict) -> nat {
    match v {
        Verdict::Accept => 0,
        Verdict::Ask => 1,
        Verdict::Reject => 2,
    }
}

/// A larger file is never treated more leniently, and local mode is never stricter: what is
/// downloaded without it is downloaded with it.
pub proof fn law_larger_files_are_treated_no_better(small: u32, large: u32, local_mode: bool)
    requires
        small <= large,
    ensures
        strictness(verdict(small, local_mode)) <= strictness(verdict(large, local_mode)),
        strictness(verdict(small, true)) <= strictness(verdict(small, false)),
{
}

// ---- Statistics and the status message ----

/// The totals never shrink. They change only when a task of the queue is done: by one file, and
/// by the size of that task.
pub proof fn law_statistics_count_finished_tasks(a: ActorView, event: EventView)
    requires
        a.accepts(event),
    ensures
        a.after(event).stats.total_downloaded_count >= a.stats.total_downloaded_count,
        a.after(event).stats.total_downloaded_bytes >= a.stats.total_downloaded_bytes,
        a.after(event).stats != a.stats ==> event is TaskDone && has_task(
            a.tasks,
            event->TaskDone_0,
        ),
        event matches EventView::TaskDone(id) ==> (find_task(a.tasks, id) matches Some(i) ==> {
            &&& a.after(event).stats.total_downloaded_count == a.stats.total_downloaded_count + 1
            &&& a.after(event).stats.total_downloaded_bytes == a.stats.total_downloaded_bytes
                + a.tasks[i].size_bytes
        }),
        a.effect(event) matches Some(EffectView::SaveStatistics(s)) ==> s == a.after(event).stats,
        a.after(event).stats != a.stats ==> a.effect(event) is Some,
{
    match event {
        EventView::TaskDone(id) => {
            lemma_find_task(a.tasks, id);
        },
        _ => {},
    }
}

/// The latest message of the user is the one with the largest id so far.
pub proof fn law_last_user_message_only_grows(a: ActorView, event: EventView)
    ensures
        a.after(event).last_user_msg_id >= a.last_user_msg_id,
        event matches EventView::UserMessageSent(m) ==> a.after(event).last_user_msg_id >= m,
        a.after(event).last_user_msg_id != a.last_user_msg_id ==> event
            == EventView::UserMessageSent(a.after(event).last_user_msg_id),
{
}

/// The state after a series of events.
pub open spec fn after_all(a: ActorView, events: Seq<EventView>) -> ActorView
    decreases events.len(),
{
    if events.len() == 0 {
        a
    } else {
        after_all(a, events.drop_last()).after(events.last())
    }
}

/// The statistics can count what each event of a series reports.
pub open spec fn accepts_all(a: ActorView, events: Seq<EventView>) -> bool {
    forall|n: int| 0 <= n < events.len() ==> #[trigger] after_all(a, events.take(n)).accepts(events[n])
}

/// The sizes of the tasks that a series of events reports as done, each while it is in the queue.
pub open spec fn finished_sizes(a: ActorView, events: Seq<EventView>) -> Seq<nat>
    decreases events.len(),
{
    if events.len() == 0 {
        Seq::empty()
    } else {
        let rest = events.drop_last();
        let b = after_all(a, rest);
        match events.last() {
            EventView::TaskDone(id) => match find_task(b.tasks, id) {
                Some(i) => finished_sizes(a, rest).push(b.tasks[i].size_bytes as nat),
                None => finished_sizes(a, rest),
            },
            _ => finished_sizes(a, rest),
        }
    }
}

/// The sum of some sizes.
pub open spec fn total(sizes: Seq<nat>) -> nat
    decreases sizes.len(),
{
    if sizes.len() == 0 {
        0
    } else {
        total(sizes.drop_last()) + sizes.last()
    }
}

/// Whatever happens, the totals are those at the start, and one file and its size more for each
/// task that was done while it was in the queue. As long as these numbers fit, every event can be
/// counted.
pub proof fn law_totals_add_up(a: ActorView, events: Seq<EventView>)
    requires
        a.stats.total_downloaded_count + finished_sizes(a, events).len() <= u64::MAX,
        a.stats.total_downloaded_bytes + total(finished_sizes(a, events)) <= u64::MAX,
    ensures
        accepts_all(a, events),
        after_all(a, events).stats.total_downloaded_count == a.stats.total_downloaded_count
            + finished_sizes(a, events).len(),
        after_all(a, events).stats.total_downloaded_bytes == a.stats.total_downloaded_bytes + total(
            finished_sizes(a, events),
        ),
    decreases events.len(),
{
    if events.len() > 0 {
        let rest = events.drop_last();
        let before = finished_sizes(a, rest);
        let sizes = finished_sizes(a, events);
        if sizes != before {
            assert(sizes.drop_last() =~= before);
        }
        law_totals_add_up(a, rest);
        assert forall|n: int| 0 <= n < events.len() implies #[trigger] after_all(
            a,
            events.take(n),
        ).accepts(events[n]) by {
            if n < rest.len() {
                assert(rest.take(n) =~= events.take(n));
                assert(after_all(a, rest.take(n)).accepts(rest[n]));
            } else {
                assert(events.take(n) =~= rest);
            }
        }
    }
}

/// A task as it came in, its state aside.
pub open spec fn stateless(t: TaskView) -> TaskView {
    t.with_state(StateView::Queued)
}

/// The tasks that a series of events brings in, in order.
pub open spec fn added_tasks(events: Seq<EventView>) -> Seq<TaskView>
    decreases events.len(),
{
    if events.len() == 0 {
        Seq::empty()
    } else {
        match events.last() {
            EventView::TaskAdded(t) => added_tasks(events.drop_last()).push(t),
            _ => added_tasks(events.drop_last()),
        }
    }
}

/// Each task of the queue, its state aside, stands in `all` at the position that `at` gives, and
/// these positions ascend.
pub open spec fn stands_at(tasks: Seq<TaskView>, all: Seq<TaskView>, at: Seq<int>) -> bool {
    &&& at.len() == tasks.len()
    &&& forall|i: int|
        0 <= i < tasks.len() ==> 0 <= #[trigger] at[i] < all.len() && stateless(tasks[i])
            == stateless(all[at[i]])
    &&& forall|i: int, j: int| 0 <= i < j < at.len() ==> #[trigger] at[i] < #[trigger] at[j]
}

/// The queue is a subsequence of `all`, states aside.
pub open spec fn is_drawn_from(tasks: Seq<TaskView>, all: Seq<TaskView>) -> bool {
    exists|at: Seq<int>| stands_at(tasks, all, at)
}

/// Leaving tasks out keeps the others in order.
proof fn lemma_filter_is_drawn(
    tasks: Seq<TaskView>,
    all: Seq<TaskView>,
    at: Seq<int>,
    keep: spec_fn(TaskView) -> bool,
) -> (kept: Seq<int>)
    requires
        stands_at(tasks, all, at),
    ensures
        stands_at(tasks.filter(keep), all, kept),
        forall|i: int| 0 <= i < kept.len() ==> at.contains(#[trigger] kept[i]),
    decreases tasks.len(),
{
    reveal(Seq::filter);
    if tasks.len() == 0 {
        at
    } else {
        let rest = tasks.drop_last();
        let before = at.drop_last();
        assert(stands_at(rest, all, before)) by {
            assert forall|i: int| 0 <= i < rest.len() implies 0 <= #[trigger] before[i] < all.len()
                && stateless(rest[i]) == stateless(all[before[i]]) by {
                assert(before[i] == at[i]);
            }
        }
        let kept = lemma_filter_is_drawn(rest, all, before, keep);
        assert forall|i: int| 0 <= i < kept.len() implies at.contains(#[trigger] kept[i]) && kept[i]
            < at.last() by {
            let k = choose|k: int| 0 <= k < before.len() && before[k] == kept[i];
            assert(before.contains(kept[i]));
            assert(at[k] == kept[i]);
        }
        if keep(tasks.last()) {
            let r = kept.push(at.last());
            assert(at[at.len() - 1] == at.last());
            assert forall|i: int| 0 <= i < r.len() implies at.contains(#[trigger] r[i]) by {
                if i < kept.len() {
                    assert(r[i] == kept[i]);
                }
            }
            r
        } else {
            kept
        }
    }
}

/// One event: the queue stays drawn from what it was drawn from, with the task that the event
/// brings in, if it brings one, at the end.
proof fn lemma_event_keeps_order(a: ActorView, event: EventView, all: Seq<TaskView>)
    requires
        is_drawn_from(a.tasks, all),
    ensures
        is_drawn_from(
            a.after(event).tasks,
            match event {
                EventView::TaskAdded(t) => all.push(t),
                _ => all,
            },
        ),
{
    let at = choose|at: Seq<int>| stands_at(a.tasks, all, at);
    match event {
        EventView::TaskAdded(t) => {
            assert(stands_at(a.tasks.push(t), all.push(t), at.push(all.len() as int)));
        },
        EventView::TaskRemove(id) => {
            lemma_find_task(a.tasks, id);
            match find_task(a.tasks, id) {
                Some(k) => if removable(a.tasks[k].state) {
                    assert(stands_at(a.tasks.remove(k), all, at.remove(k)));
                },
                None => {},
            }
        },
        EventView::ClearErrors => {
            let kept = lemma_filter_is_drawn(a.tasks, all, at, |t: TaskView| !(t.state is Error));
        },
        _ => {
            let after = a.after(event).tasks;
            if a.tasks.len() > 0 {
                law_events_touch_one_task(a, event, 0);
            } else {
                assert(after =~= a.tasks);
            }
            assert forall|i: int| 0 <= i < after.len() implies 0 <= #[trigger] at[i] < all.len()
                && stateless(after[i]) == stateless(all[at[i]]) by {
                law_events_touch_one_task(a, event, i);
            }
            assert(stands_at(after, all, at));
        },
    }
}

/// Whatever happens, tasks keep their order: the queue holds tasks that were there at the start
/// or came in since, in the order in which they came, and of each task only the state may have
/// changed.
pub proof fn law_tasks_keep_their_order(a: ActorView, events: Seq<EventView>)
    ensures
        is_drawn_from(after_all(a, events).tasks, a.tasks + added_tasks(events)),
    decreases events.len(),
{
    if events.len() == 0 {
        let at = Seq::new(a.tasks.len(), |i: int| i);
        assert(stands_at(a.tasks, a.tasks + added_tasks(events), at));
    } else {
        let rest = events.drop_last();
        let all = a.tasks + added_tasks(rest);
        law_tasks_keep_their_order(a, rest);
        lemma_event_keeps_order(after_all(a, rest), events.last(), all);
        match events.last() {
            EventView::TaskAdded(t) => {
                assert(a.tasks + added_tasks(events) =~= all.push(t));
            },
            _ => {},
        }
    }
}

/// Whatever happens, the latest message of the user is the one with the largest id of all that
/// were sent; and the status message is the caller's to change, no event does.
pub proof fn law_last_user_message_is_the_largest(a: ActorView, events: Seq<EventView>)
    ensures
        ({
            let b = after_all(a, events);
            &&& b.last_user_msg_id >= a.last_user_msg_id
            &&& forall|i: int|
                0 <= i < events.len() ==> (#[trigger] events[i] matches EventView::UserMessageSent(m)
                    ==> m <= b.last_user_msg_id)
            &&& b.last_user_msg_id == a.last_user_msg_id || events.contains(
                EventView::UserMessageSent(b.last_user_msg_id),
            )
            &&& b.status_msg_id == a.status_msg_id
        }),
    decreases events.len(),
{
    if events.len() > 0 {
        let rest = events.drop_last();
        law_last_user_message_is_the_largest(a, rest);
        let c = after_all(a, rest);
        let b = after_all(a, events);
        law_last_user_message_only_grows(c, events.last());
        assert forall|i: int| 0 <= i < events.len() implies (#[trigger] events[i] matches
            EventView::UserMessageSent(m) ==> m <= b.last_user_msg_id) by {
            if i < rest.len() {
                assert(rest[i] == events[i]);
            }
        }
        if b.last_user_msg_id != c.last_user_msg_id {
            assert(events[events.len() - 1] == EventView::UserMessageSent(b.last_user_msg_id));
        } else if b.last_user_msg_id != a.last_user_msg_id {
            let e = EventView::UserMessageSent(c.last_user_msg_id);
            assert(rest.contains(e));
            let k = choose|k: int| 0 <= k < rest.len() && rest[k] == e;
            assert(events[k] == e);
        }
    }
}

/// The status message stays below the messages of the user: one that stands above the latest of
/// them is deleted and a new one is sent, and only one that stands below is edited.
pub proof fn law_status_stays_at_the_bottom(a: ActorView, m: i32)
    ensures
        a.ui_update().edit matches Some(sid) ==> sid >= a.last_user_msg_id && a.ui_update().delete
            is None,
        a.ui_update().delete is Some ==> a.ui_update().edit is None && a.rendered().status_msg_id
            is None,
        a.status_msg_id matches Some(sid) ==> m > sid ==> {
            let pushed = a.after(EventView::UserMessageSent(m));
            pushed.ui_update().delete == Some(sid) && pushed.ui_update().edit is None
        },
{
}

/// The status message that was sent last is the one that the next update edits, unless the user
/// has written since; after an edit that failed, or a message that could not be sent, the next
/// update sends a new one.
pub proof fn law_next_update_follows_the_last(a: ActorView, id: i32)
    ensures
        id >= a.last_user_msg_id ==> a.rendered().sent(Some(id)).ui_update().edit == Some(id),
        a.rendered().edited(false).ui_update().edit is None,
        a.rendered().edited(false).ui_update().delete is None,
        a.rendered().edited(true).ui_update().edit == a.ui_update().edit,
        a.ui_update().edit is None ==> a.rendered().sent(None).ui_update().edit is None,
{
}

/// Every event makes the next tick render the status; rendering it settles that.
pub proof fn law_events_are_rendered(a: ActorView, event: EventView)
    ensures
        a.after(event).dirty,
        !a.rendered().dirty,
        a.after(event).status_msg_id == a.status_msg_id,
        a.rendered().tasks == a.tasks,
        a.rendered().stats == a.stats,
        a.rendered().last_user_msg_id == a.last_user_msg_id,
{
}

/// Every task is active, done or failed.
pub proof fn law_counts_add_up(tasks: Seq<TaskView>)
    ensures
        active_count(tasks) + done_count(tasks) + error_count(tasks) == tasks.len(),
    decreases tasks.len(),
{
    reveal(Seq::filter);
    if tasks.len() > 0 {
        law_counts_add_up(tasks.drop_last());
    }
}

// ---- What each event does ----

/// An event that names a task means the first of that id, wherever in the queue it stands: only
/// the state of that task changes, to the one that the event tells of.
pub proof fn law_events_reach_the_first_of_their_id(
    a: ActorView,
    i: int,
    id: Seq<char>,
    error: Seq<char>,
)
    requires
        0 <= i < a.tasks.len(),
        a.tasks[i].id == id,
        forall|j: int| 0 <= j < i ==> (#[trigger] a.tasks[j]).id != id,
    ensures
        a.after(EventView::TaskStarted(id)).tasks == a.tasks.update(
            i,
            TaskView { state: StateView::Downloading, ..a.tasks[i] },
        ),
        a.after(EventView::TaskDone(id)).tasks == a.tasks.update(
            i,
            TaskView { state: StateView::Done, ..a.tasks[i] },
        ),
        a.after(EventView::TaskError(id, error)).tasks == a.tasks.update(
            i,
            TaskView { state: StateView::Error(error), ..a.tasks[i] },
        ),
{
    lemma_first_is_found(a.tasks, id, i);
}

/// A finished task counts as one file more and its size in bytes, if both sums fit, and the new
/// totals are saved. A task that starts or fails counts nothing.
pub proof fn law_done_tasks_are_counted_and_saved(
    a: ActorView,
    i: int,
    id: Seq<char>,
    error: Seq<char>,
)
    requires
        0 <= i < a.tasks.len(),
        a.tasks[i].id == id,
        forall|j: int| 0 <= j < i ==> (#[trigger] a.tasks[j]).id != id,
    ensures
        ({
            let done = EventView::TaskDone(id);
            let count = a.stats.total_downloaded_count + 1;
            let bytes = a.stats.total_downloaded_bytes + a.tasks[i].size_bytes;
            &&& a.accepts(done) <==> count <= u64::MAX && bytes <= u64::MAX
            &&& a.accepts(done) ==> {
                &&& a.after(done).stats.total_downloaded_count == count
                &&& a.after(done).stats.total_downloaded_bytes == bytes
                &&& a.effect(done) == Some(EffectView::SaveStatistics(a.after(done).stats))
            }
        }),
        a.after(EventView::TaskStarted(id)).stats == a.stats,
        a.effect(EventView::TaskStarted(id)) is None,
        a.after(EventView::TaskError(id, error)).stats == a.stats,
{
    lemma_first_is_found(a.tasks, id, i);
}

/// A failure is told in an answer to the message that brought the file: with the name of the file,
/// as a link to that message if it has one, and with the error.
pub proof fn law_failures_are_told_under_their_message(
    a: ActorView,
    i: int,
    id: Seq<char>,
    error: Seq<char>,
)
    requires
        0 <= i < a.tasks.len(),
        a.tasks[i].id == id,
        forall|j: int| 0 <= j < i ==> (#[trigger] a.tasks[j]).id != id,
    ensures
        ({
            let t = a.tasks[i];
            let file = if t.link.len() > 0 {
                "<a href=\""@ + t.link + "\">"@ + t.file_name + "</a>"@
            } else {
                t.file_name
            };
            a.effect(EventView::TaskError(id, error)) == Some(
                EffectView::Send(
                    ReplyView {
                        reply_to: t.msg_id,
                        text: "❌ <b>Download Failed:</b> "@ + file + "\n<b>Error:</b> "@ + error,
                        keyboard: None,
                    },
                ),
            )
        }),
{
    lemma_first_is_found(a.tasks, id, i);
}

/// Confirming a task starts the download of the file of that task, under its name, wherever in the
/// queue it stands, to the folder and in the mode of the confirmation; the task is queued, and no
/// other one changes. A task without a file starts nothing.
pub proof fn law_the_confirmed_file_is_downloaded(
    a: ActorView,
    i: int,
    id: Seq<char>,
    dest_dir: Seq<char>,
    local_mode: bool,
)
    requires
        0 <= i < a.tasks.len(),
        a.tasks[i].id == id,
        forall|j: int| 0 <= j < i ==> (#[trigger] a.tasks[j]).id != id,
    ensures
        ({
            let confirm = EventView::ConfirmLargeDownload(id, dest_dir, local_mode);
            &&& a.tasks[i].file_id matches Some(f) ==> {
                &&& a.effect(confirm) == Some(
                    EffectView::StartDownload(
                        JobView {
                            task_id: id,
                            file_id: f,
                            file_name: a.tasks[i].file_name,
                            dest_dir,
                            local_mode,
                        },
                    ),
                )
                &&& a.after(confirm).tasks == a.tasks.update(
                    i,
                    TaskView { state: StateView::Queued, ..a.tasks[i] },
                )
            }
            &&& a.tasks[i].file_id is None ==> a.effect(confirm) is None && a.after(confirm).tasks
                == a.tasks
            &&& a.after(confirm).stats == a.stats
        }),
{
    lemma_first_is_found(a.tasks, id, i);
}

/// A task leaves the queue when it is done or waits for a confirmation, and in no other state; the
/// others stay, in their order.
pub proof fn law_only_idle_tasks_leave(a: ActorView, i: int, id: Seq<char>)
    requires
        0 <= i < a.tasks.len(),
        a.tasks[i].id == id,
        forall|j: int| 0 <= j < i ==> (#[trigger] a.tasks[j]).id != id,
    ensures
        ({
            let state = a.tasks[i].state;
            let after = a.after(EventView::TaskRemove(id)).tasks;
            &&& state is Done || state is AwaitingConfirmation ==> after == a.tasks.take(i)
                + a.tasks.skip(i + 1)
            &&& state is Queued || state is Downloading || state is Error ==> after == a.tasks
        }),
        a.effect(EventView::TaskRemove(id)) is None,
        a.after(EventView::TaskRemove(id)).stats == a.stats,
{
    lemma_first_is_found(a.tasks, id, i);
    assert(a.tasks.remove(i) =~= a.tasks.take(i) + a.tasks.skip(i + 1));
}

/// An event for an id that no task has changes neither the queue nor the totals, and leaves
/// nothing to be done.
pub proof fn law_unknown_ids_change_nothing(
    a: ActorView,
    id: Seq<char>,
    error: Seq<char>,
    dest_dir: Seq<char>,
    local_mode: bool,
    event: EventView,
)
    requires
        forall|j: int| 0 <= j < a.tasks.len() ==> (#[trigger] a.tasks[j]).id != id,
        event == EventView::TaskStarted(id) || event == EventView::TaskDone(id) || event
            == EventView::TaskError(id, error) || event == EventView::TaskRemove(id) || event
            == EventView::ConfirmLargeDownload(id, dest_dir, local_mode),
    ensures
        a.accepts(event),
        a.after(event).tasks == a.tasks,
        a.after(event).stats == a.stats,
        a.effect(event) is None,
{
    lemma_find_task(a.tasks, id);
}

/// A new task comes last. Clearing the errors takes the failed tasks away and no others. A message
/// of the user moves the mark of the latest message, forward only. None of these counts anything
/// or leaves anything to be done.
pub proof fn law_events_without_a_task(a: ActorView, t: TaskView, m: i32)
    ensures
        ({
            let added = EventView::TaskAdded(t);
            &&& a.accepts(added)
            &&& a.after(added).tasks == a.tasks + seq![t]
            &&& a.after(added).stats == a.stats
            &&& a.effect(added) is None
        }),
        ({
            let cleared = EventView::ClearErrors;
            &&& a.accepts(cleared)
            &&& a.after(cleared).tasks == a.tasks.filter(|t: TaskView| !(t.state is Error))
            &&& a.after(cleared).stats == a.stats
            &&& a.effect(cleared) is None
        }),
        ({
            let sent = EventView::UserMessageSent(m);
            &&& a.accepts(sent)
            &&& a.after(sent).tasks == a.tasks
            &&& a.after(sent).stats == a.stats
            &&& a.effect(sent) is None
            &&& a.after(sent).last_user_msg_id == if m > a.last_user_msg_id {
                m
            } else {
                a.last_user_msg_id
            }
        }),
{
    assert(a.tasks.push(t) =~= a.tasks + seq![t]);
}

/// Only a finished task can be refused, for want of room in the totals; and every event but a
/// message of the user leaves the mark of the latest message where it is.
pub proof fn law_events_are_taken_in(a: ActorView, event: EventView)
    ensures
        !(event is TaskDone) ==> a.accepts(event),
        !(event is UserMessageSent) ==> a.after(event).last_user_msg_id == a.last_user_msg_id,
        a.after(event).status_msg_id == a.status_msg_id,
        a.after(event).dirty,
{
}

// ---- What the status shows ----

/// Each of the first eight tasks of the queue has its line in the status, with its state, its size
/// and its name, as a link to its message if it has one; a failed task also its error. The law gives the place.
pub proof fn law_each_task_has_its_line(a: ActorView, i: int) -> (at: int)
    requires
        0 <= i < a.tasks.len(),
        i < 8,
    ensures
        ({
            let t = a.tasks[i];
            let line = (match t.state {
                StateView::Queued => "⏳ <code>["@,
                StateView::Downloading => "⬇️ <code>["@,
                StateView::Done => "✅ <code>["@,
                StateView::AwaitingConfirmation => "⚠️ <code>["@,
                StateView::Error(_) => "❌ <code>["@,
            }) + size_text(t.size_bytes as nat) + "]</code> "@ + (if t.link.len() > 0 {
                "<a href=\""@ + t.link + "\">"@ + t.name_display + "</a>"@
            } else {
                t.name_display
            }) + (match t.state {
                StateView::Queued => " (Queued)\n"@,
                StateView::Downloading => " ...\n"@,
                StateView::Done => " \n"@,
                StateView::AwaitingConfirmation => " (Awaiting confirmation)\n"@,
                StateView::Error(e) => " \n   <i>"@ + e + "</i>\n"@,
            });
            &&& 0 <= at <= at + line.len() <= a.ui_update().text.len()
            &&& a.ui_update().text.subrange(at, at + line.len()) == line
        }),
{
    let t = a.tasks[i];
    let listed = shown(a.tasks);
    assert(listed[i] == t);
    let (before, after) = lemma_line_stands_in_lines(listed, i);
    let head = "<b>📂 Download Queue</b>\n\n"@;
    let text = a.ui_update().text;
    let lines = task_lines(listed);
    let rest = text.skip((head.len() + lines.len()) as int);
    assert(text =~= head + lines + rest);
    let front = head + before;
    let back = after + rest;
    let line = (match t.state {
                StateView::Queued => "⏳ <code>["@,
                StateView::Downloading => "⬇️ <code>["@,
                StateView::Done => "✅ <code>["@,
                StateView::AwaitingConfirmation => "⚠️ <code>["@,
                StateView::Error(_) => "❌ <code>["@,
            }) + size_text(t.size_bytes as nat) + "]</code> "@ + (if t.link.len() > 0 {
                "<a href=\""@ + t.link + "\">"@ + t.name_display + "</a>"@
            } else {
                t.name_display
            }) + (match t.state {
                StateView::Queued => " (Queued)\n"@,
                StateView::Downloading => " ...\n"@,
                StateView::Done => " \n"@,
                StateView::AwaitingConfirmation => " (Awaiting confirmation)\n"@,
                StateView::Error(e) => " \n   <i>"@ + e + "</i>\n"@,
            });
    assert(line =~= task_line(t));
    assert(text =~= front + line + back);
    assert(text.subrange(front.len() as int, front.len() as int + line.len()) =~= line);
    front.len() as int
}

proof fn lemma_line_stands_in_lines(tasks: Seq<TaskView>, i: int) -> (r: (Seq<char>, Seq<char>))
    requires
        0 <= i < tasks.len(),
    ensures
        task_lines(tasks) == r.0 + task_line(tasks[i]) + r.1,
    decreases tasks.len(),
{
    let rest = tasks.drop_last();
    if i == tasks.len() - 1 {
        let r = (task_lines(rest), Seq::empty());
        assert(task_lines(tasks) =~= r.0 + task_line(tasks[i]) + r.1);
        r
    } else {
        let (before, after) = lemma_line_stands_in_lines(rest, i);
        let r = (before, after + task_line(tasks.last()));
        assert(task_lines(tasks) =~= r.0 + task_line(tasks[i]) + r.1);
        r
    }
}

/// The status says that the queue is empty if it is, and only then.
pub proof fn law_only_an_empty_queue_reads_as_empty(a: ActorView)
    ensures
        "<b>📂 Download Queue</b>\n\n<i>Queue is empty. Waiting for files...</i>"@.is_prefix_of(
            a.ui_update().text,
        ) <==> a.tasks.len() == 0,
{
    let empty = "<b>📂 Download Queue</b>\n\n<i>Queue is empty. Waiting for files...</i>"@;
    let head = "<b>📂 Download Queue</b>\n\n"@;
    let text = a.ui_update().text;
    if a.tasks.len() == 0 {
        assert(text.take(empty.len() as int) =~= empty);
    } else {
        reveal_strlit("<b>📂 Download Queue</b>\n\n<i>Queue is empty. Waiting for files...</i>");
        reveal_strlit("<b>📂 Download Queue</b>\n\n");
        reveal_strlit("⏳ <code>[");
        reveal_strlit("⬇️ <code>[");
        reveal_strlit("✅ <code>[");
        reveal_strlit("⚠️ <code>[");
        reveal_strlit("❌ <code>[");
        let listed = shown(a.tasks);
        lemma_first_line_comes_first(listed);
        let k = head.len() as int;
        assert(text[k] == task_line(listed[0])[0]);
        assert(text[k] != '<');
        assert(empty[k] == '<');
    }
}

proof fn lemma_first_line_comes_first(tasks: Seq<TaskView>)
    requires
        tasks.len() > 0,
    ensures
        task_line(tasks[0]).is_prefix_of(task_lines(tasks)),
        task_line(tasks[0]).len() > 0,
    decreases tasks.len(),
{
    reveal_strlit("]</code> ");
    let rest = tasks.drop_last();
    if rest.len() > 0 {
        lemma_first_line_comes_first(rest);
        assert(rest[0] == tasks[0]);
    } else {
        assert(task_lines(rest) =~= Seq::<char>::empty());
        assert(task_lines(tasks) =~= task_line(tasks[0]));
    }
}

/// The status is that of the actor's own queue and totals, and it has a button to clear the errors
/// exactly while one of the first eight tasks has failed.
pub proof fn law_status_shows_the_queue(a: ActorView)
    ensures
        a.ui_update().text == status_text(a.tasks, a.stats),
        (exists|i: int| 0 <= i < a.tasks.len() && i < 8 && (#[trigger] a.tasks[i]).state is Error)
            ==> a.ui_update().keyboard == Some(
            seq![ButtonView { text: "Clear Errors 🗑️"@, data: "clear_errors"@ }],
        ),
        (forall|i: int| 0 <= i < a.tasks.len() && i < 8 ==> !((#[trigger] a.tasks[i]).state is Error))
            ==> a.ui_update().keyboard is None,
{
    law_errors_can_be_cleared(a.tasks);
}

/// The one status message: it is edited where it stands below the latest message of the user, and
/// deleted and forgotten where it stands above; without one, a new one is sent. One that could not
/// be edited is forgotten, one that was sent is kept. Rendering changes nothing else.
pub proof fn law_one_status_message(a: ActorView, sid: i32, sent: i32)
    ensures
        a.status_msg_id is None ==> a.ui_update().delete is None && a.ui_update().edit is None
            && a.rendered().status_msg_id is None,
        a.status_msg_id == Some(sid) && a.last_user_msg_id > sid ==> a.ui_update().delete == Some(
            sid,
        ) && a.ui_update().edit is None && a.rendered().status_msg_id is None,
        a.status_msg_id == Some(sid) && a.last_user_msg_id <= sid ==> a.ui_update().delete is None
            && a.ui_update().edit == Some(sid) && a.rendered().status_msg_id == Some(sid),
        a.edited(true) == a,
        a.edited(false) == (ActorView { status_msg_id: None, ..a }),
        a.sent(Some(sent)) == (ActorView { status_msg_id: Some(sent), ..a }),
        a.sent(None) == a,
        a.rendered() == (ActorView {
            status_msg_id: a.rendered().status_msg_id,
            dirty: false,
            ..a
        }),
{
}

// ---- From a message to a stored file ----

/// Whenever a file is downloaded at once, it is the file of the message, in the mode and to the
/// folder of the configuration: with a local server it is moved from the path that the server
/// told, else fetched from there, to a path that ends in the whole id of the file and its
/// extension. What the queue hears of the download reaches the task that was announced.
pub proof fn law_started_downloads_follow_the_configuration(
    msg_id: i32,
    content: ContentView,
    link: Seq<char>,
    dest_dir: Seq<char>,
    local_mode: bool,
    path: Seq<char>,
    ext: Seq<char>,
)
    ensures
        plan_for(msg_id, content, link, dest_dir, local_mode).start matches Some(j) ==> {
            let to = dest_dir + "/"@ + content.name + "_"@ + content.file_id + "."@ + ext;
            &&& j.local_mode == local_mode
            &&& j.dest_dir == dest_dir
            &&& j.file_id == content.file_id
            &&& j.file_name == content.name
            &&& plan_for(msg_id, content, link, dest_dir, local_mode).events[1] matches
                EventView::TaskAdded(t) && t.id == j.task_id
            &&& local_mode ==> transfer_step(j, path, ext) == (StepView::Rename { from: path, to })
            &&& !local_mode ==> transfer_step(j, path, ext) == (StepView::Create {
                from: path,
                to,
            })
        },
{
}

/// A confirmed file is downloaded as the plan for it would have been: moved by the local server
/// from the told path into the folder, under its own name and id, whatever else waits.
pub proof fn law_confirmed_downloads_follow_the_task(
    a: ActorView,
    i: int,
    dest_dir: Seq<char>,
    path: Seq<char>,
    ext: Seq<char>,
)
    requires
        0 <= i < a.tasks.len(),
        forall|j: int| 0 <= j < i ==> (#[trigger] a.tasks[j]).id != a.tasks[i].id,
        a.tasks[i].file_id is Some,
    ensures
        a.effect(EventView::ConfirmLargeDownload(a.tasks[i].id, dest_dir, true)) matches Some(
            EffectView::StartDownload(j),
        ) && transfer_step(j, path, ext) == (StepView::Rename {
            from: path,
            to: dest_dir + "/"@ + a.tasks[i].file_name + "_"@ + a.tasks[i].file_id->0 + "."@ + ext,
        }),
{
    law_the_confirmed_file_is_downloaded(a, i, a.tasks[i].id, dest_dir, true);
}

} // verus!
