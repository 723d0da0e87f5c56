//! The status message of a chat: its text and its keyboard.

use vstd::prelude::*;
use std::collections::VecDeque;
use crate::size::{format_size, format_size_u64, size_text, total_size_text};
use crate::stats::Statistics;
use crate::tasks::{Button, ButtonView, DownloadState, FileTask, StateView, TaskView};
use crate::text::{append_digits, digits, owned};

verus! {

/// How many tasks the status message lists.
pub const MAX_LINES: usize = 8;

/// A link to `link` with this label.
pub open spec fn html_link(link: Seq<char>, label: Seq<char>) -> Seq<char> {
    "<a href=\""@ + link + "\">"@ + label + "</a>"@
}

/// A link where there is an address, else the plain text.
pub open spec fn reference(link: Seq<char>, label: Seq<char>, plain: Seq<char>) -> Seq<char> {
    if link.len() > 0 {
        html_link(link, label)
    } else {
        plain
    }
}

/// What stands before the size of a task.
pub open spec fn state_mark(state: StateView) -> Seq<char> {
    match state {
        StateView::Queued => "⏳ <code>["@,
        StateView::Downloading => "⬇️ <code>["@,
        StateView::Done => "✅ <code>["@,
        StateView::AwaitingConfirmation => "⚠️ <code>["@,
        StateView::Error(_) => "❌ <code>["@,
    }
}

/// What stands behind the name of a task.
pub open spec fn state_note(state: StateView) -> Seq<char> {
    match state {
        StateView::Queued => " (Queued)\n"@,
        StateView::Downloading => " ...\n"@,
        StateView::Done => " \n"@,
        StateView::AwaitingConfirmation => " (Awaiting confirmation)\n"@,
        StateView::Error(e) => " \n   <i>"@ + e + "</i>\n"@,
    }
}

/// The entry of one task.
pub open spec fn task_line(t: TaskView) -> Seq<char> {
    state_mark(t.state) + size_text(t.size_bytes as nat) + "]</code> "@ + reference(
        t.link,
        t.name_display,
        t.name_display,
    ) + state_note(t.state)
}

/// The entries of all these tasks, one after the other.
pub open spec fn task_lines(tasks: Seq<TaskView>) -> Seq<char>
    decreases tasks.len(),
{
    if tasks.len() == 0 {
        Seq::empty()
    } else {
        task_lines(tasks.drop_last()) + task_line(tasks.last())
    }
}

/// The tasks that the message lists.
pub open spec fn shown(tasks: Seq<TaskView>) -> Seq<TaskView> {
    if tasks.len() > MAX_LINES {
        tasks.take(MAX_LINES as int)
    } else {
        tasks
    }
}

/// What tells that some tasks are not listed.
pub open spec fn overflow_note(count: nat) -> Seq<char> {
    if count > MAX_LINES {
        "\n<i>... and "@ + digits((count - MAX_LINES) as nat) + " more</i>"@
    } else {
        Seq::empty()
    }
}

/// The task still has work ahead of it.
pub open spec fn is_active(t: TaskView) -> bool {
    t.state is Downloading || t.state is Queued || t.state is AwaitingConfirmation
}

/// How many tasks have work ahead of them.
pub open spec fn active_count(tasks: Seq<TaskView>) -> nat {
    tasks.filter(|t: TaskView| is_active(t)).len()
}

/// How many tasks are done.
pub open spec fn done_count(tasks: Seq<TaskView>) -> nat {
    tasks.filter(|t: TaskView| t.state is Done).len()
}

/// How many tasks have failed.
pub open spec fn error_count(tasks: Seq<TaskView>) -> nat {
    tasks.filter(|t: TaskView| t.state is Error).len()
}

/// The totals of the chat.
pub open spec fn totals(stats: Statistics) -> Seq<char> {
    digits(stats.total_downloaded_count as nat) + " files | "@ + total_size_text(
        stats.total_downloaded_bytes as nat,
    )
}

/// The text of the status message.
pub open spec fn status_text(tasks: Seq<TaskView>, stats: Statistics) -> Seq<char> {
    if tasks.len() == 0 {
        "<b>📂 Download Queue</b>\n\n<i>Queue is empty. Waiting for files...</i>"@ + if stats.total_downloaded_count > 0 {
            "\n\n━━━━━━━━━━━━━━━━━━\n📊 <b>Total:</b> "@ + totals(stats)
        } else {
            Seq::empty()
        }
    } else {
        "<b>📂 Download Queue</b>\n\n"@ + task_lines(shown(tasks)) + overflow_note(tasks.len())
            + "\n━━━━━━━━━━━━━━━━━━\n"@ + "📊 Active: "@ + digits(active_count(tasks)) + " | Done: "@
            + digits(done_count(tasks)) + "\n"@ + "📈 <b>Total:</b> "@ + totals(stats)
    }
}

/// The data of the button that clears the errors.
pub open spec fn clear_errors_data() -> Seq<char> {
    "clear_errors"@
}

/// The keyboard of the status message: a button to clear the errors, while one is listed.
pub open spec fn status_keyboard(tasks: Seq<TaskView>) -> Option<Seq<ButtonView>> {
    if exists|i: int| 0 <= i < shown(tasks).len() && (#[trigger] shown(tasks)[i]).state is Error {
        Some(seq![ButtonView { text: "Clear Errors 🗑️"@, data: clear_errors_data() }])
    } else {
        None
    }
}

/// Appends a link where there is an address, else the plain text.
pub fn append_reference(out: &mut String, link: &str, label: &str, plain: &str)
    ensures
        final(out)@ == old(out)@ + reference(link@, label@, plain@),
{
    if !link.is_empty() {
        out.append("<a href=\"");
        out.append(link);
        out.append("\">");
        out.append(label);
        out.append("</a>");
        assert(out@ =~= old(out)@ + html_link(link@, label@));
    } else {
        out.append(plain);
    }
}

fn append_task_line(out: &mut String, task: &FileTask)
    ensures
        final(out)@ == old(out)@ + task_line(task@),
{
    match &task.state {
        DownloadState::Queued => {
            out.append("⏳ <code>[");
        },
        DownloadState::Downloading => {
            out.append("⬇️ <code>[");
        },
        DownloadState::Done => {
            out.append("✅ <code>[");
        },
        DownloadState::AwaitingConfirmation => {
            out.append("⚠️ <code>[");
        },
        DownloadState::Error(_) => {
            out.append("❌ <code>[");
        },
    }
    assert(out@ == old(out)@ + state_mark(task@.state));
    let size_str: String = format_size(task.size_bytes);
    out.append(size_str.as_str());
    out.append("]</code> ");
    append_reference(out, task.link.as_str(), task.name_display.as_str(), task.name_display.as_str());
    let ghost before_note = out@;
    match &task.state {
        DownloadState::Queued => {
            out.append(" (Queued)\n");
        },
        DownloadState::Downloading => {
            out.append(" ...\n");
        },
        DownloadState::Done => {
            out.append(" \n");
        },
        DownloadState::AwaitingConfirmation => {
            out.append(" (Awaiting confirmation)\n");
        },
        DownloadState::Error(err_msg) => {
            out.append(" \n   <i>");
            out.append(err_msg.as_str());
            out.append("</i>\n");
        },
    }
    assert(out@ =~= before_note + state_note(task@.state));
    assert(out@ =~= old(out)@ + task_line(task@));
}

fn append_totals(out: &mut String, stats: &Statistics)
    ensures
        final(out)@ == old(out)@ + totals(*stats),
{
    append_digits(out, stats.total_downloaded_count);
    out.append(" files | ");
    let total: String = format_size_u64(stats.total_downloaded_bytes);
    out.append(total.as_str());
    assert(out@ =~= old(out)@ + totals(*stats));
}

/// Counts the active and the done tasks.
fn count_states(tasks: &VecDeque<FileTask>) -> (r: (usize, usize))
    ensures
        r.0 == active_count(tasks.deep_view()),
        r.1 == done_count(tasks.deep_view()),
{
    let n: usize = tasks.len();
    let mut active: usize = 0;
    let mut done: usize = 0;
    let mut i: usize = 0;
    let ghost all = tasks.deep_view();
    proof {
        reveal(Seq::filter);
        assert(all.take(0) =~= Seq::<TaskView>::empty());
    }
    while i < n
        invariant
            i <= n,
            n == all.len(),
            n == tasks@.len(),
            all == tasks.deep_view(),
            active == active_count(all.take(i as int)),
            done == done_count(all.take(i as int)),
            active <= i,
            done <= i,
        decreases n - i,
    {
        proof {
            reveal(Seq::filter);
            assert(all.take(i + 1).drop_last() =~= all.take(i as int));
            assert(all.take(i + 1).last() == all[i as int]);
        }
        match &tasks[i].state {
            DownloadState::Done => {
                done = done + 1;
            },
            DownloadState::Error(_) => {},
            _ => {
                active = active + 1;
            },
        }
        i = i + 1;
    }
    assert(all.take(n as int) =~= all);
    (active, done)
}

/// The text of the status message, and the buttons below it.
pub fn generate_status_text(tasks: &VecDeque<FileTask>, stats: &Statistics) -> (r: (
    String,
    Option<Vec<Button>>,
))
    ensures
        r.0@ == status_text(tasks.deep_view(), *stats),
        r.1.deep_view() == status_keyboard(tasks.deep_view()),
{
    let n: usize = tasks.len();
    let ghost all = tasks.deep_view();
    assert(all.len() == n);
    if n == 0 {
        let mut text: String = owned(
            "<b>📂 Download Queue</b>\n\n<i>Queue is empty. Waiting for files...</i>",
        );
        if stats.total_downloaded_count > 0 {
            text.append("\n\n━━━━━━━━━━━━━━━━━━\n📊 <b>Total:</b> ");
            append_totals(&mut text, stats);
        }
        assert(text@ =~= status_text(all, *stats));
        return (text, None);
    }
    let mut text: String = owned("<b>📂 Download Queue</b>\n\n");
    let mut has_errors: bool = false;
    let (active, done) = count_states(tasks);
    let limit: usize = if n > MAX_LINES {
        MAX_LINES
    } else {
        n
    };
    let ghost listed = shown(all);
    let mut i: usize = 0;
    assert(listed.take(0) =~= Seq::<TaskView>::empty());
    assert(text@ =~= "<b>📂 Download Queue</b>\n\n"@ + task_lines(listed.take(0)));
    while i < limit
        invariant
            i <= limit,
            limit <= n,
            limit == listed.len(),
            n == tasks@.len(),
            all == tasks.deep_view(),
            listed == shown(all),
            text@ == "<b>📂 Download Queue</b>\n\n"@ + task_lines(listed.take(i as int)),
            has_errors <==> exists|j: int| 0 <= j < i && (#[trigger] listed[j]).state is Error,
        decreases limit - i,
    {
        let ghost before = text@;
        append_task_line(&mut text, &tasks[i]);
        proof {
            assert(listed[i as int] == all[i as int]);
            assert(listed.take(i + 1).drop_last() =~= listed.take(i as int));
            assert(listed.take(i + 1).last() == listed[i as int]);
            assert(text@ =~= "<b>📂 Download Queue</b>\n\n"@ + task_lines(listed.take(i + 1)));
        }
        match &tasks[i].state {
            DownloadState::Error(_) => {
                has_errors = true;
                assert(listed[i as int].state is Error);
            },
            _ => {
                assert(!(listed[i as int].state is Error));
            },
        }
        i = i + 1;
    }
    assert(listed.take(limit as int) =~= listed);
    let ghost so_far = text@;
    if n > MAX_LINES {
        text.append("\n<i>... and ");
        append_digits(&mut text, (n - MAX_LINES) as u64);
        text.append(" more</i>");
    }
    assert(text@ =~= so_far + overflow_note(all.len()));
    text.append("\n━━━━━━━━━━━━━━━━━━\n");
    text.append("📊 Active: ");
    append_digits(&mut text, active as u64);
    text.append(" | Done: ");
    append_digits(&mut text, done as u64);
    text.append("\n");
    text.append("📈 <b>Total:</b> ");
    append_totals(&mut text, stats);
    assert(text@ =~= status_text(all, *stats));
    let keyboard: Option<Vec<Button>> = if has_errors {
        let mut row: Vec<Button> = Vec::new();
        row.push(Button { text: owned("Clear Errors 🗑️"), data: owned("clear_errors") });
        assert(row.deep_view() =~= seq![
            ButtonView { text: "Clear Errors 🗑️"@, data: clear_errors_data() },
        ]);
        Some(row)
    } else {
        None
    };
    (text, keyboard)
}

/// An empty queue reads as one, and shows the totals once something was downloaded. It has no
/// buttons.
pub proof fn law_empty_queue_reads_as_empty(stats: Statistics)
    ensures
        ({
            let text = status_text(Seq::empty(), stats);
            let head = "<b>📂 Download Queue</b>\n\n<i>Queue is empty. Waiting for files...</i>"@;
            &&& stats.total_downloaded_count == 0 ==> text == head
            &&& stats.total_downloaded_count > 0 ==> text == head
                + "\n\n━━━━━━━━━━━━━━━━━━\n📊 <b>Total:</b> "@ + (digits(
                stats.total_downloaded_count as nat,
            ) + " files | "@ + total_size_text(stats.total_downloaded_bytes as nat))
            &&& status_keyboard(Seq::empty()) is None
        }),
{
    let head = "<b>📂 Download Queue</b>\n\n<i>Queue is empty. Waiting for files...</i>"@;
    assert(head + Seq::<char>::empty() =~= head);
    let total = "\n\n━━━━━━━━━━━━━━━━━━\n📊 <b>Total:</b> "@;
    assert(head + (total + totals(stats)) =~= head + total + totals(stats));
    assert(shown(Seq::empty()).len() == 0);
}

proof fn lemma_lines_stand_in_order(tasks: Seq<TaskView>)
    ensures
        task_lines(tasks) == Seq::new(tasks.len(), |i: int| task_line(tasks[i])).flatten(),
    decreases tasks.len(),
{
    let lines = Seq::new(tasks.len(), |i: int| task_line(tasks[i]));
    lines.lemma_flatten_and_flatten_alt_are_equivalent();
    if tasks.len() > 0 {
        let rest = tasks.drop_last();
        let before = Seq::new(rest.len(), |i: int| task_line(rest[i]));
        lemma_lines_stand_in_order(rest);
        before.lemma_flatten_and_flatten_alt_are_equivalent();
        assert(lines.drop_last() =~= before);
    }
}

/// A queue reads as a heading; the lines of its first eight tasks in order, each with the state,
/// the size and the linked name of its task; how many more there are; how many tasks are active
/// and done; and the totals.
pub proof fn law_queue_reads_line_by_line(tasks: Seq<TaskView>, stats: Statistics)
    requires
        tasks.len() > 0,
    ensures
        ({
            let n = if tasks.len() < 8 {
                tasks.len()
            } else {
                8
            };
            let line = |t: TaskView|
                (match t.state {
                    StateView::Queued => "⏳ <code>["@,
                    StateView::Downloading => "⬇️ <code>["@,
                    StateView::Done => "✅ <code>["@,
                    StateView::AwaitingConfirmation => "⚠️ <code>["@,
                    StateView::Error(_) => "❌ <code>["@,
                }) + size_text(t.size_bytes as nat) + "]</code> "@ + (if t.link.len() > 0 {
                    "<a href=\""@ + t.link + "\">"@ + t.name_display + "</a>"@
                } else {
                    t.name_display
                }) + (match t.state {
                    StateView::Queued => " (Queued)\n"@,
                    StateView::Downloading => " ...\n"@,
                    StateView::Done => " \n"@,
                    StateView::AwaitingConfirmation => " (Awaiting confirmation)\n"@,
                    StateView::Error(e) => " \n   <i>"@ + e + "</i>\n"@,
                });
            let lines = Seq::new(n, |i: int| line(tasks[i]));
            let more = if tasks.len() > 8 {
                "\n<i>... and "@ + digits((tasks.len() - 8) as nat) + " more</i>"@
            } else {
                Seq::empty()
            };
            let active = tasks.filter(
                |t: TaskView|
                    t.state is Queued || t.state is Downloading || t.state is AwaitingConfirmation,
            ).len();
            let done = tasks.filter(|t: TaskView| t.state is Done).len();
            status_text(tasks, stats) == "<b>📂 Download Queue</b>\n\n"@ + lines.flatten() + more
                + "\n━━━━━━━━━━━━━━━━━━\n"@ + "📊 Active: "@ + digits(active) + " | Done: "@ + digits(
                done,
            ) + "\n"@ + "📈 <b>Total:</b> "@ + (digits(stats.total_downloaded_count as nat)
                + " files | "@ + total_size_text(stats.total_downloaded_bytes as nat))
        }),
{
    let n = if tasks.len() < 8 {
        tasks.len()
    } else {
        8
    };
    let line = |t: TaskView|
        (match t.state {
                    StateView::Queued => "⏳ <code>["@,
                    StateView::Downloading => "⬇️ <code>["@,
                    StateView::Done => "✅ <code>["@,
                    StateView::AwaitingConfirmation => "⚠️ <code>["@,
                    StateView::Error(_) => "❌ <code>["@,
                }) + size_text(t.size_bytes as nat) + "]</code> "@ + (if t.link.len() > 0 {
                    "<a href=\""@ + t.link + "\">"@ + t.name_display + "</a>"@
                } else {
                    t.name_display
                }) + (match t.state {
                    StateView::Queued => " (Queued)\n"@,
                    StateView::Downloading => " ...\n"@,
                    StateView::Done => " \n"@,
                    StateView::AwaitingConfirmation => " (Awaiting confirmation)\n"@,
                    StateView::Error(e) => " \n   <i>"@ + e + "</i>\n"@,
                });
    let lines = Seq::new(n, |i: int| line(tasks[i]));
    let listed = shown(tasks);
    lemma_lines_stand_in_order(listed);
    let same = Seq::new(listed.len(), |i: int| task_line(listed[i]));
    assert(lines =~= same) by {
        assert forall|i: int| 0 <= i < n implies lines[i] == same[i] by {
            assert(listed[i] == tasks[i]);
            assert(lines[i] =~= task_line(tasks[i]));
        }
    }
    let active = |t: TaskView|
        t.state is Queued || t.state is Downloading || t.state is AwaitingConfirmation;
    assert((|t: TaskView| is_active(t)) =~= active);
}

/// The button that clears the errors stands below the status while one of the first eight tasks
/// has failed, and only then; there is no other button.
pub proof fn law_errors_can_be_cleared(tasks: Seq<TaskView>)
    ensures
        (exists|i: int| 0 <= i < tasks.len() && i < 8 && (#[trigger] tasks[i]).state is Error)
            ==> status_keyboard(tasks) == Some(
            seq![ButtonView { text: "Clear Errors 🗑️"@, data: "clear_errors"@ }],
        ),
        (forall|i: int| 0 <= i < tasks.len() && i < 8 ==> !((#[trigger] tasks[i]).state is Error))
            ==> status_keyboard(tasks) is None,
{
    let listed = shown(tasks);
    assert forall|i: int| 0 <= i < tasks.len() && i < 8 implies 0 <= i < listed.len()
        && #[trigger] tasks[i] == listed[i] by {}
    assert forall|i: int| 0 <= i < listed.len() implies 0 <= i < tasks.len() && i < 8
        && #[trigger] listed[i] == tasks[i] by {}
}

} // verus!
