//! What holds of the converter's state over several operations.

use vstd::prelude::*;
use crate::app;
use crate::job;
use crate::job_laws;
use crate::path;
use crate::queue;
use crate::settings;
use crate::status::{FileStatus, Tone};

verus! {

/// Settings that are kept and read again are those that were in force, the folder too.
pub proof fn settings_survive(state: app::AppView, later: app::AppView)
    ensures
        later.loaded(state.saved()).saved() == state.saved(),
        later.loaded(state.saved()).output_dir == state.output_dir,
        later.loaded(state.saved()).settings == (settings::SettingsView {
            output_dir: state.output_dir,
            ..state.settings
        }),
{
}

/// The newest line ends the log, and before it stand the lines that were there, all of them or
/// all but the oldest.
pub proof fn log_keeps_newest(state: app::AppView, tone: Tone, message: Seq<char>)
    requires
        state.wf(),
    ensures
        state.log(tone, message).logs.len() <= app::LOG_LIMIT,
        state.log(tone, message).logs.last() == (tone, message),
        state.logs.len() < app::LOG_LIMIT ==> state.log(tone, message).logs.drop_last()
            == state.logs,
        state.logs.len() == app::LOG_LIMIT ==> state.log(tone, message).logs.drop_last()
            == state.logs.drop_first(),
{
    let after = state.log(tone, message).logs;
    if state.logs.len() < app::LOG_LIMIT {
        assert(after.drop_last() =~= state.logs);
    } else {
        assert(after.drop_last() =~= state.logs.drop_first());
    }
}

/// Offering a path a second time changes nothing, however it is spelled; what was queued before
/// stays where it was.
pub proof fn offering_again_changes_nothing(
    state: app::AppView,
    path: Seq<u8>,
    again: Seq<u8>,
    kind: app::PathKind,
)
    requires
        path::same(path, again),
    ensures
        state.offered(path, kind).offered(again, kind) == state.offered(path, kind),
        state.files.len() <= state.offered(path, kind).files.len(),
        state.offered(path, kind).files.take(state.files.len() as int) == state.files,
{
    let once = state.offered(path, kind);
    assert(once.files.take(state.files.len() as int) =~= state.files);
    if kind == app::PathKind::File && queue::is_audio_path(path) {
        assert(queue::is_queued(once.files, again)) by {
            if queue::is_queued(state.files, path) {
                let i = choose|i: int|
                    0 <= i < state.files.len() && path::same(
                        (#[trigger] state.files[i]).path,
                        path,
                    );
                assert(path::same(once.files[i].path, again));
            } else {
                assert(path::same(once.files[state.files.len() as int].path, again));
            }
        }
    }
}

/// After a listing was taken in, every audio file of it is queued, what was queued before stays
/// where it was, and nothing is queued that was neither queued before nor listed.
pub proof fn listing_is_queued(files: Seq<queue::FileView>, items: Seq<app::ItemView>)
    ensures
        files.len() <= app::with_items(files, items).len(),
        app::with_items(files, items).take(files.len() as int) == files,
        forall|i: int|
            0 <= i < items.len() && (#[trigger] items[i]).kind == app::PathKind::File
                && queue::is_audio_path(items[i].path) ==> queue::is_queued(
                app::with_items(files, items),
                items[i].path,
            ),
        forall|k: int|
            files.len() <= k < app::with_items(files, items).len() ==> is_listed(
                items,
                #[trigger] app::with_items(files, items)[k],
            ),
    decreases items.len(),
{
    let after = app::with_items(files, items);
    if items.len() > 0 {
        let shorter = items.drop_last();
        let before = app::with_items(files, shorter);
        listing_is_queued(files, shorter);
        assert(after.take(files.len() as int) =~= before.take(files.len() as int));
        assert(after.take(before.len() as int) =~= before);
        assert forall|i: int|
            0 <= i < items.len() && (#[trigger] items[i]).kind == app::PathKind::File
                && queue::is_audio_path(items[i].path) implies queue::is_queued(
            after,
            items[i].path,
        ) by {
            if i < shorter.len() {
                assert(shorter[i] == items[i]);
                let at = choose|at: int|
                    0 <= at < before.len() && path::same(
                        (#[trigger] before[at]).path,
                        items[i].path,
                    );
                assert(after[at] == before[at]);
            } else if !queue::is_queued(before, items[i].path) {
                assert(after[before.len() as int].path == items[i].path);
            }
        }
        assert forall|k: int| files.len() <= k < after.len() implies is_listed(
            items,
            #[trigger] after[k],
        ) by {
            if k < before.len() {
                assert(after[k] == before[k]);
                let i = choose|i: int|
                    0 <= i < shorter.len() && before[k] == queue::waiting(
                        (#[trigger] shorter[i]).path,
                    ) && shorter[i].kind == app::PathKind::File && queue::is_audio_path(
                        shorter[i].path,
                    );
                assert(items[i] == shorter[i]);
            } else {
                assert(after[k] == queue::waiting(items[items.len() - 1].path));
            }
        }
    } else {
        assert(after.take(files.len() as int) =~= files);
    }
}

/// Whether a queued file is one of the audio files of a listing, waiting its turn.
pub open spec fn is_listed(items: Seq<app::ItemView>, file: queue::FileView) -> bool {
    exists|i: int|
        0 <= i < items.len() && file == queue::waiting((#[trigger] items[i]).path)
            && items[i].kind == app::PathKind::File && queue::is_audio_path(items[i].path)
}

/// Taking in messages in two lots is the same as in one, and taking in none changes nothing. The
/// count of completed files goes up by as much, so that it holds the two lots where it holds the
/// one.
pub proof fn received_in_lots(
    state: app::AppView,
    first: Seq<job::MessageView>,
    second: Seq<job::MessageView>,
)
    ensures
        state.received_all(first + second) == state.received_all(first).received_all(second),
        state.received_all(Seq::empty()) == state,
        state.completed + app::files_ended(first + second) == state.received_all(first).completed
            + app::files_ended(second),
    decreases second.len(),
{
    messages_are_counted(state, first);
    if second.len() == 0 {
        assert(first + second =~= first);
    } else {
        assert((first + second).drop_last() =~= first + second.drop_last());
        assert((first + second).last() == second.last());
        received_in_lots(state, first, second.drop_last());
    }
}

proof fn received_one(state: app::AppView, message: job::MessageView)
    ensures
        state.received_all(seq![message]) == state.received(message),
{
    assert(seq![message].drop_last() =~= Seq::empty());
    assert(state.received_all(Seq::<job::MessageView>::empty()) == state);
}

/// No message changes which files are queued, their order, the settings, the folder or FFmpeg.
pub proof fn messages_keep_the_queue(state: app::AppView, messages: Seq<job::MessageView>)
    ensures
        queue::file_paths(state.received_all(messages).files) == queue::file_paths(state.files),
        state.received_all(messages).settings == state.settings,
        state.received_all(messages).output_dir == state.output_dir,
        state.received_all(messages).ffmpeg_path == state.ffmpeg_path,
    decreases messages.len(),
{
    if messages.len() > 0 {
        messages_keep_the_queue(state, messages.drop_last());
        let before = state.received_all(messages.drop_last());
        match messages.last() {
            job::MessageView::FileStarted { path } => {
                queue::change_keeps_paths(before.files, path, queue::running());
            },
            job::MessageView::FileFinished { path, status, message } => {
                queue::change_keeps_paths(before.files, path, queue::ended(status, message));
            },
            _ => {},
        }
    }
}

/// How many of these messages tell that a file ended with a status.
pub open spec fn ended_with(messages: Seq<job::MessageView>, status: FileStatus) -> nat
    decreases messages.len(),
{
    if messages.len() == 0 {
        0
    } else {
        ended_with(messages.drop_last(), status) + if messages.last() is FileFinished
            && messages.last()->FileFinished_status == status {
            1nat
        } else {
            0nat
        }
    }
}

/// Whether every end of a file that these messages tell is a success, a failure or a skip.
pub open spec fn ends_are_final(messages: Seq<job::MessageView>) -> bool {
    forall|i: int|
        0 <= i < messages.len() && (#[trigger] messages[i]) is FileFinished
            ==> messages[i]->FileFinished_status.is_final()
}

/// The counts grow by the number of files whose end was told: the count of completed files by
/// all of them, each of the three others by those that ended with its status, whether or not the
/// files are queued. So the three go on adding up to the completed files, if they did and every
/// end is a success, a failure or a skip.
pub proof fn messages_are_counted(state: app::AppView, messages: Seq<job::MessageView>)
    ensures
        state.received_all(messages).completed == state.completed + app::files_ended(messages),
        state.received_all(messages).success_count == state.success_count + ended_with(
            messages,
            FileStatus::Success,
        ),
        state.received_all(messages).fail_count == state.fail_count + ended_with(
            messages,
            FileStatus::Failed,
        ),
        state.received_all(messages).skip_count == state.skip_count + ended_with(
            messages,
            FileStatus::Skipped,
        ),
        ends_are_final(messages) ==> app::files_ended(messages) == ended_with(
            messages,
            FileStatus::Success,
        ) + ended_with(messages, FileStatus::Failed) + ended_with(messages, FileStatus::Skipped),
        ends_are_final(messages) && state.completed == state.success_count + state.fail_count
            + state.skip_count ==> {
            let after = state.received_all(messages);
            after.completed == after.success_count + after.fail_count + after.skip_count
        },
    decreases messages.len(),
{
    if messages.len() > 0 {
        let shorter = messages.drop_last();
        messages_are_counted(state, shorter);
        if ends_are_final(messages) {
            assert forall|i: int|
                0 <= i < shorter.len() && (#[trigger] shorter[i]) is FileFinished implies
                shorter[i]->FileFinished_status.is_final() by {
                assert(messages[i] == shorter[i]);
            }
            assert(messages[messages.len() - 1] == messages.last());
        }
    }
}

/// How many of the first `n` files of a batch end with a status.
pub open spec fn tally(
    batch: job::JobView,
    answers: Seq<job_laws::FileAnswers>,
    n: int,
    status: FileStatus,
) -> nat
    decreases n,
{
    if n <= 0 {
        0
    } else {
        tally(batch, answers, n - 1, status) + if job_laws::file_end(
            batch,
            n - 1,
            answers[n - 1],
        )->FileFinished_status == status {
            1nat
        } else {
            0nat
        }
    }
}

/// Whether the first `n` files of a batch are accounted for in a state.
pub open spec fn accounted(
    state: app::AppView,
    batch: job::JobView,
    answers: Seq<job_laws::FileAnswers>,
    n: int,
) -> bool {
    &&& state.files.len() == batch.files.len()
    &&& state.total == batch.files.len()
    &&& state.completed == n
    &&& state.success_count == tally(batch, answers, n, FileStatus::Success)
    &&& state.fail_count == tally(batch, answers, n, FileStatus::Failed)
    &&& state.skip_count == tally(batch, answers, n, FileStatus::Skipped)
    &&& state.success_count + state.fail_count + state.skip_count == n
    &&& queue::all_different(state.files)
    &&& forall|i: int|
        0 <= i < batch.files.len() ==> (#[trigger] state.files[i]).path == batch.files[i].input
    &&& forall|i: int|
        0 <= i < n ==> job_laws::file_end(batch, i, answers[i]) == (
        job::MessageView::FileFinished {
            path: batch.files[i].input,
            status: (#[trigger] state.files[i]).status,
            message: state.files[i].message,
        })
}

/// A path of a queue without doubles is changed at its own place.
proof fn change_at(
    files: Seq<queue::FileView>,
    at: int,
    change: spec_fn(queue::FileView) -> queue::FileView,
)
    requires
        0 <= at < files.len(),
        queue::all_different(files),
    ensures
        queue::with_change(files, files[at].path, change) == files.update(at, change(files[at])),
{
    assert(queue::is_first(files, files[at].path, at));
    queue::first_is_unique(files, files[at].path, at);
}

proof fn end_is_final(batch: job::JobView, i: int, answer: job_laws::FileAnswers)
    ensures
        job_laws::file_end(batch, i, answer) is FileFinished,
        job_laws::file_end(batch, i, answer)->FileFinished_status.is_final(),
        job_laws::file_end(batch, i, answer)->FileFinished_path == batch.files[i].input,
{
}

proof fn one_file(
    state: app::AppView,
    batch: job::JobView,
    answers: Seq<job_laws::FileAnswers>,
    n: int,
)
    requires
        0 <= n < batch.files.len(),
        accounted(state, batch, answers, n),
    ensures
        accounted(
            state.received_all(job_laws::file_messages(batch, n, answers[n])),
            batch,
            answers,
            n + 1,
        ),
{
    let answer = answers[n];
    let end = job_laws::file_end(batch, n, answer);
    let status = end->FileFinished_status;
    let message = end->FileFinished_message;
    let input = batch.files[n].input;
    end_is_final(batch, n, answer);
    let started = if answer.cancelled {
        state
    } else {
        state.received(job::MessageView::FileStarted { path: input })
    };
    if !answer.cancelled {
        let start = job::MessageView::FileStarted { path: input };
        assert(job_laws::file_messages(batch, n, answer) =~= seq![start] + seq![end]);
        received_in_lots(state, seq![start], seq![end]);
        received_one(state, start);
        received_one(started, end);
        assert(state.files[n].path == input);
        change_at(state.files, n, queue::running());
        queue::change_keeps_paths(state.files, input, queue::running());
    } else {
        received_one(state, end);
    }
    let after = state.received_all(job_laws::file_messages(batch, n, answer));
    assert(after == started.received(end));
    assert(started.files[n].path == input);
    change_at(started.files, n, queue::ended(status, message));
    queue::change_keeps_paths(started.files, input, queue::ended(status, message));
    assert(after.files == started.files.update(
        n,
        queue::ended(status, message)(started.files[n]),
    ));
    assert forall|i: int| 0 <= i < batch.files.len() implies (#[trigger] after.files[i]).path
        == batch.files[i].input by {
        assert(state.files[i].path == batch.files[i].input);
    }
    assert forall|i: int| 0 <= i < n + 1 implies job_laws::file_end(batch, i, answers[i]) == (
    job::MessageView::FileFinished {
        path: batch.files[i].input,
        status: (#[trigger] after.files[i]).status,
        message: after.files[i].message,
    }) by {
        if i < n {
            assert(after.files[i] == state.files[i]);
        }
    }
}

proof fn all_files(
    state: app::AppView,
    batch: job::JobView,
    answers: Seq<job_laws::FileAnswers>,
    n: int,
)
    requires
        0 <= n <= batch.files.len(),
        accounted(state, batch, answers, n),
    ensures
        ({
            let end = state.received_all(job_laws::rest_messages(batch, answers, n));
            &&& accounted(end, batch, answers, batch.files.len() as int)
            &&& !end.converting
            &&& !end.can_cancel
            &&& end.current_file is None
            &&& end.status == app::summary(end.success_count, end.fail_count, end.skip_count)
        }),
    decreases batch.files.len() - n,
{
    if n == batch.files.len() {
        received_one(state, job::MessageView::Finished);
    } else {
        let messages = job_laws::file_messages(batch, n, answers[n]);
        one_file(state, batch, answers, n);
        received_in_lots(state, messages, job_laws::rest_messages(batch, answers, n + 1));
        all_files(state.received_all(messages), batch, answers, n + 1);
    }
}

/// When a batch that was started has sent all its messages and they have been taken in, every
/// file of it is accounted for: each queued file shows how it ended, as many are completed as
/// there are, each is counted as a success, a failure or a skip, and nothing is being converted
/// any more. This holds whatever the batch met with.
pub proof fn batch_is_accounted_for(
    state: app::AppView,
    batch: job::JobView,
    answers: Seq<job_laws::FileAnswers>,
)
    requires
        state.wf(),
        state.can_start(),
        state.calls_for(batch),
    ensures
        ({
            let end = state.started().received_all(job_laws::batch_messages(batch, answers));
            &&& accounted(end, batch, answers, batch.files.len() as int)
            &&& end.completed == state.files.len()
            &&& queue::file_paths(end.files) == queue::file_paths(state.files)
            &&& !end.converting
            &&& !end.can_cancel
            &&& end.current_file is None
            &&& end.status == app::summary(end.success_count, end.fail_count, end.skip_count)
        }),
{
    let begun = state.started();
    let first = job::MessageView::Started { total: batch.files.len() };
    received_in_lots(begun, seq![first], job_laws::rest_messages(batch, answers, 0));
    received_one(begun, first);
    let opened = begun.received(first);
    let inputs = queue::file_paths(state.files);
    assert(queue::file_paths(begun.files) =~= inputs);
    queue::same_paths_different(state.files, begun.files);
    assert(batch.files.len() == inputs.len());
    assert forall|i: int| 0 <= i < batch.files.len() implies (#[trigger] opened.files[i]).path
        == batch.files[i].input by {
        assert(batch.files[i] == app::batch_files(inputs, app::batch_outputs(batch.files))[i]);
        assert(inputs[i] == state.files[i].path);
    }
    assert(accounted(opened, batch, answers, 0));
    all_files(opened, batch, answers, 0);
    messages_keep_the_queue(begun, job_laws::batch_messages(batch, answers));
}

/// A batch that a state calls for writes no two files to the same path.
pub proof fn batch_outputs_differ(state: app::AppView, batch: job::JobView)
    requires
        state.calls_for(batch),
    ensures
        forall|i: int, j: int|
            0 <= i < j < batch.files.len() ==> !path::same(
                (#[trigger] batch.files[i]).output,
                (#[trigger] batch.files[j]).output,
            ),
{
    let outputs = app::batch_outputs(batch.files);
    crate::output::outputs_are_distinct(
        state.output_dir,
        queue::file_paths(state.files),
        outputs,
    );
    assert forall|i: int, j: int| 0 <= i < j < batch.files.len() implies !path::same(
        (#[trigger] batch.files[i]).output,
        (#[trigger] batch.files[j]).output,
    ) by {
        assert(outputs[i] == batch.files[i].output);
        assert(outputs[j] == batch.files[j].output);
    }
}

} // verus!
