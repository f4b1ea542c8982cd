//! What each operation makes of the converter's state.

use vstd::prelude::*;
use vstd::string::*;
use vstd::utf8::*;
use crate::app;
use crate::app_laws;
use crate::job;
use crate::output;
use crate::path;
use crate::queue;
use crate::settings;
use crate::settings::{Channels, SampleRate};
use crate::status::{FileStatus, Tone};
use crate::text;

verus! {

/// Whether a line was put at the end of the log, which then holds the newest lines, at most four
/// hundred of them.
pub open spec fn logged(
    before: Seq<(Tone, Seq<char>)>,
    after: Seq<(Tone, Seq<char>)>,
    tone: Tone,
    line: Seq<char>,
) -> bool {
    &&& after.len() > 0
    &&& after.last() == (tone, line)
    &&& before.len() < 400 ==> after.drop_last() == before
    &&& before.len() == 400 ==> after.drop_last() == before.drop_first()
}

/// Logging puts one line at the end of the log and changes nothing else.
pub proof fn logging_adds_a_line(state: app::AppView, tone: Tone, line: Seq<char>)
    requires
        state.logs.len() <= 400,
    ensures
        logged(state.logs, state.log(tone, line).logs, tone, line),
        state.log(tone, line).logs.len() <= 400,
        (app::AppView { logs: state.logs, ..state.log(tone, line) }) == state,
{
    let after = state.log(tone, line).logs;
    if state.logs.len() < 400 {
        assert(after.drop_last() =~= state.logs);
    } else {
        assert(after.drop_last() =~= state.logs.drop_first());
    }
}

/// The limits that hold: four hundred lines of the log, and counts that fit together.
pub proof fn limits_are_kept(state: app::AppView)
    ensures
        state.wf() <==> {
            &&& state.logs.len() <= 400
            &&& state.success_count + state.fail_count + state.skip_count <= state.completed
            &&& forall|i: int, j: int|
                0 <= i < j < state.files.len() ==> !path::same(
                    (#[trigger] state.files[i]).path,
                    (#[trigger] state.files[j]).path,
                )
        },
{
}

/// The first state: nothing is queued, chosen, found, counted or logged, nothing is going on, and
/// the settings are stereo, of quality five, at the source's rate, with nested folders and with
/// outputs replaced.
pub proof fn first_state_is_idle()
    ensures
        ({
            let first = app::initial();
            &&& first.files.len() == 0
            &&& first.output_dir is None
            &&& !first.converting
            &&& first.current_file is None
            &&& first.completed == 0 && first.total == 0
            &&& first.success_count == 0 && first.fail_count == 0 && first.skip_count == 0
            &&& first.logs.len() == 0
            &&& !first.can_cancel
            &&& first.ffmpeg_path is None
            &&& !first.preparing
            &&& first.status == "Готов к работе"@
            &&& !first.dragging
            &&& first.settings.channels == Channels::Stereo
            &&& first.settings.quality == 5
            &&& first.settings.recursive
            &&& first.settings.overwrite
            &&& first.settings.sample_rate == SampleRate::Source
            &&& first.settings.output_dir is None
            &&& settings::default_settings() == first.settings
        }),
{
}

/// The start of the search for FFmpeg shows in the status and the log, and in nothing else.
pub proof fn search_begins(state: app::AppView)
    requires
        state.logs.len() <= 400,
    ensures
        ({
            let after = state.search_begun();
            &&& after.preparing
            &&& after.status == "Подготовка FFmpeg…"@
            &&& logged(
                state.logs,
                after.logs,
                Tone::Muted,
                "Готовлю FFmpeg для конвертации…"@,
            )
            &&& (app::AppView {
                preparing: state.preparing,
                status: state.status,
                logs: state.logs,
                ..after
            }) == state
        }),
{
    logging_adds_a_line(
        app::AppView { status: "Подготовка FFmpeg…"@, preparing: true, ..state },
        Tone::Muted,
        "Готовлю FFmpeg для конвертации…"@,
    );
}

/// The end of the search for FFmpeg: what was found is kept, and the status says that all is
/// ready unless a batch runs; where nothing was found, the status and the log say so, and an
/// FFmpeg known before is kept. Nothing else changes.
pub proof fn search_ends(state: app::AppView, found: Seq<u8>, error: Seq<char>)
    requires
        state.logs.len() <= 400,
    ensures
        ({
            let good = state.search_ended(Ok(found));
            let bad = state.search_ended(Err(error));
            &&& !good.preparing && !bad.preparing
            &&& good.ffmpeg_path == Some(found)
            &&& bad.ffmpeg_path == state.ffmpeg_path
            &&& !state.converting ==> good.status == "Готов к работе"@
            &&& state.converting ==> good.status == state.status
            &&& bad.status == "Нет FFmpeg"@
            &&& logged(
                state.logs,
                good.logs,
                Tone::Muted,
                "FFmpeg готов. Можно конвертировать в OGG Vorbis."@,
            )
            &&& logged(state.logs, bad.logs, Tone::Bad, "FFmpeg: "@ + error)
            &&& (app::AppView {
                preparing: state.preparing,
                ffmpeg_path: state.ffmpeg_path,
                status: state.status,
                logs: state.logs,
                ..good
            }) == state
            &&& (app::AppView {
                preparing: state.preparing,
                status: state.status,
                logs: state.logs,
                ..bad
            }) == state
        }),
{
    let quiet = app::AppView { preparing: false, ..state };
    logging_adds_a_line(
        app::AppView {
            ffmpeg_path: Some(found),
            status: if state.converting {
                state.status
            } else {
                "Готов к работе"@
            },
            ..quiet
        },
        Tone::Muted,
        "FFmpeg готов. Можно конвертировать в OGG Vorbis."@,
    );
    logging_adds_a_line(
        app::AppView { status: "Нет FFmpeg"@, ..quiet },
        Tone::Bad,
        "FFmpeg: "@ + error,
    );
}

/// Settings that are read are taken over as they are, with their folder; nothing else changes.
/// What is kept of a state are its settings, field by field, and its folder.
pub proof fn settings_are_taken_over(state: app::AppView, read: settings::SettingsView)
    ensures
        state.loaded(read).settings == read,
        state.loaded(read).output_dir == read.output_dir,
        (app::AppView {
            settings: state.settings,
            output_dir: state.output_dir,
            ..state.loaded(read)
        }) == state,
        state.saved().channels == state.settings.channels,
        state.saved().quality == state.settings.quality,
        state.saved().recursive == state.settings.recursive,
        state.saved().overwrite == state.settings.overwrite,
        state.saved().sample_rate == state.settings.sample_rate,
        state.saved().output_dir == state.output_dir,
{
}

/// The settings lie in `settings.json` beside the program; where its place is not known, or has
/// no folder, in the current directory.
pub proof fn settings_lie_beside_the_program(exe: Seq<u8>)
    ensures
        path::parent_of(exe) matches Some(dir) ==> app::settings_file(Some(exe)) == path::joined(
            dir,
            encode_utf8("settings.json"@),
        ),
        path::parent_of(exe) is None ==> app::settings_file(Some(exe)) == path::joined(
            encode_utf8("."@),
            encode_utf8("settings.json"@),
        ),
        app::settings_file(None) == app::settings_file(Some(encode_utf8("."@))),
{
}

/// Offering a path queues it if it is that of an audio file and leads to a file; nothing else
/// changes then, and nothing at all otherwise.
pub proof fn audio_files_are_queued(state: app::AppView, path: Seq<u8>, kind: app::PathKind)
    ensures
        kind == app::PathKind::File && queue::is_audio_path(path) ==> queue::is_queued(
            state.offered(path, kind).files,
            path,
        ) && state.offered(path, kind).files == queue::with_path(state.files, path) && (
        app::AppView { files: state.files, ..state.offered(path, kind) }) == state,
        kind != app::PathKind::File || !queue::is_audio_path(path) ==> state.offered(path, kind)
            == state,
{
    if kind == app::PathKind::File && queue::is_audio_path(path) {
        let after = queue::with_path(state.files, path);
        if !queue::is_queued(state.files, path) {
            assert(path::same(after[after.len() - 1].path, path));
        }
    }
}

/// The folders of a listing are those of its entries that lead to one, in their order: those of
/// two listings, one behind the other, are those of the one and those of the other; an entry
/// counts if it leads to a folder.
pub proof fn folders_keep_their_order(
    a: Seq<app::ItemView>,
    b: Seq<app::ItemView>,
    item: app::ItemView,
)
    ensures
        app::directories(a + b) == app::directories(a) + app::directories(b),
        app::directories(seq![item]) == if item.kind == app::PathKind::Directory {
            seq![item.path]
        } else {
            Seq::<Seq<u8>>::empty()
        },
    decreases b.len(),
{
    assert(seq![item].drop_last() =~= Seq::empty());
    assert(app::directories(Seq::<app::ItemView>::empty()) =~= Seq::empty());
    assert(app::directories(seq![item]) =~= if item.kind == app::PathKind::Directory {
        seq![item.path]
    } else {
        Seq::<Seq<u8>>::empty()
    });
    if b.len() == 0 {
        assert(a + b =~= a);
        assert(app::directories(a + b) =~= app::directories(a) + app::directories(b));
    } else {
        folders_keep_their_order(a, b.drop_last(), item);
        assert((a + b).drop_last() =~= a + b.drop_last());
        assert((a + b).last() == b.last());
        assert(app::directories(a + b) =~= app::directories(a) + app::directories(b));
    }
}

/// A listing puts its audio files into the queue one after another and, where nested folders
/// count, its folders behind those still to be listed. A folder that cannot be read is logged,
/// and leaves what is still to be listed as it is.
pub proof fn listings_are_taken_in(
    state: app::AppView,
    folder: Seq<u8>,
    rest: Seq<Seq<u8>>,
    items: Seq<app::ItemView>,
    error: Seq<char>,
)
    requires
        state.logs.len() <= 400,
    ensures
        ({
            let after = state.listed(folder, Ok(items));
            &&& items.len() == 0 ==> after == state
            &&& items.len() > 0 ==> after == state.listed(folder, Ok(items.drop_last())).offered(
                items.last().path,
                items.last().kind,
            )
            &&& state.settings.recursive ==> state.still_to_list(rest, Ok(items)) == rest
                + app::directories(items)
            &&& !state.settings.recursive ==> state.still_to_list(rest, Ok(items)) == rest
            &&& state.still_to_list(rest, Err(error)) == rest
            &&& logged(
                state.logs,
                state.listed(folder, Err(error)).logs,
                Tone::Bad,
                "Не удалось прочитать "@ + path::displayed(folder) + ": "@ + error,
            )
            &&& (app::AppView { logs: state.logs, ..state.listed(folder, Err(error)) }) == state
        }),
{
    logging_adds_a_line(
        state,
        Tone::Bad,
        "Не удалось прочитать "@ + path::displayed(folder) + ": "@ + error,
    );
}

/// A batch can start if and only if none runs, something is queued and FFmpeg is there. A start
/// that is refused because nothing is queued or FFmpeg is missing is logged, and that is all; while
/// a batch runs, nothing happens.
pub proof fn starts_are_granted_or_refused(state: app::AppView)
    requires
        state.logs.len() <= 400,
    ensures
        state.can_start() <==> !state.converting && state.files.len() > 0 && state.ffmpeg_path
            is Some,
        state.can_start() ==> state.start_asked() == state.started(),
        state.converting ==> state.start_asked() == state,
        !state.can_start() ==> (app::AppView { logs: state.logs, ..state.start_asked() }) == state,
        !state.converting && state.files.len() == 0 ==> logged(
            state.logs,
            state.start_asked().logs,
            Tone::Warning,
            "Нет файлов для конвертации."@,
        ),
        !state.converting && state.files.len() > 0 && state.ffmpeg_path is None ==> logged(
            state.logs,
            state.start_asked().logs,
            Tone::Bad,
            "FFmpeg недоступен."@,
        ),
{
    logging_adds_a_line(state, Tone::Warning, "Нет файлов для конвертации."@);
    logging_adds_a_line(state, Tone::Bad, "FFmpeg недоступен."@);
}

/// A batch that has started: it runs and can be stopped, nothing of it is completed, all that is
/// queued is to be done and waits, and the log tells how many files there are and the quality.
/// What was chosen and found stays.
pub proof fn starts_begin_at_nothing(state: app::AppView)
    requires
        state.logs.len() <= 400,
    ensures
        ({
            let after = state.started();
            &&& after.converting && after.can_cancel
            &&& after.completed == 0 && after.total == state.files.len()
            &&& after.success_count == 0 && after.fail_count == 0 && after.skip_count == 0
            &&& after.current_file is None
            &&& after.status == "Конвертация…"@
            &&& after.files.len() == state.files.len()
            &&& forall|i: int|
                0 <= i < state.files.len() ==> (#[trigger] after.files[i]).path
                    == state.files[i].path && after.files[i].status == FileStatus::Queued
                    && after.files[i].message.len() == 0
            &&& logged(
                state.logs,
                after.logs,
                Tone::Accent,
                "Старт: "@ + text::decimal(state.files.len()) + " файл(ов) → OGG Vorbis Q"@
                    + text::signed_decimal(state.settings.quality),
            )
            &&& after.settings == state.settings
            &&& after.output_dir == state.output_dir
            &&& after.ffmpeg_path == state.ffmpeg_path
            &&& after.preparing == state.preparing
            &&& after.dragging == state.dragging
        }),
{
    logging_adds_a_line(
        app::AppView {
            files: queue::all_waiting(state.files),
            can_cancel: true,
            converting: true,
            completed: 0,
            total: state.files.len(),
            success_count: 0,
            fail_count: 0,
            skip_count: 0,
            current_file: None,
            status: "Конвертация…"@,
            ..state
        },
        Tone::Accent,
        app::start_line(state.files.len(), state.settings.quality),
    );
}

/// A batch does what the settings in force say: their channels, quality and sample rate, and
/// whether outputs are replaced. It runs the FFmpeg that was found on the files of the queue, all
/// of them and in their order, and has not begun.
pub proof fn batches_follow_the_settings(state: app::AppView, batch: job::JobView)
    requires
        state.can_start(),
        state.calls_for(batch),
    ensures
        batch.channels == state.settings.channels,
        batch.quality == state.settings.quality,
        batch.sample_rate == state.settings.sample_rate,
        batch.overwrite == state.settings.overwrite,
        state.ffmpeg_path == Some(batch.ffmpeg),
        batch.files.len() == state.files.len(),
        forall|i: int|
            0 <= i < state.files.len() ==> (#[trigger] batch.files[i]).input
                == state.files[i].path,
        batch.index == 0,
        batch.stage == job::JobStage::Begin,
        output::outputs_for(
            state.output_dir,
            Seq::new(state.files.len(), |i: int| state.files[i].path),
            Seq::new(batch.files.len(), |i: int| batch.files[i].output),
        ),
{
    let inputs = queue::file_paths(state.files);
    let outputs = app::batch_outputs(batch.files);
    assert(inputs =~= Seq::new(state.files.len(), |i: int| state.files[i].path));
    assert(outputs =~= Seq::new(batch.files.len(), |i: int| batch.files[i].output));
    assert forall|i: int| 0 <= i < state.files.len() implies (#[trigger] batch.files[i]).input
        == state.files[i].path by {
        assert(batch.files[i] == app::batch_files(inputs, outputs)[i]);
    }
}

/// States that differ in a choice have batches that differ in it; and a state has one batch.
pub proof fn batches_differ_with_the_settings(
    a: app::AppView,
    b: app::AppView,
    first: job::JobView,
    second: job::JobView,
)
    requires
        a.can_start(),
        b.can_start(),
        a.calls_for(first),
        b.calls_for(second),
    ensures
        first.channels == second.channels <==> a.settings.channels == b.settings.channels,
        first.quality == second.quality <==> a.settings.quality == b.settings.quality,
        first.sample_rate == second.sample_rate <==> a.settings.sample_rate
            == b.settings.sample_rate,
        first.overwrite == second.overwrite <==> a.settings.overwrite == b.settings.overwrite,
        first.ffmpeg == second.ffmpeg <==> a.ffmpeg_path == b.ffmpeg_path,
        a == b ==> first == second,
{
    if a == b {
        output::outputs_are_determined(
            a.output_dir,
            queue::file_paths(a.files),
            app::batch_outputs(first.files),
            app::batch_outputs(second.files),
        );
    }
}

/// A stop that is asked for shows in the status and the log, if there is a batch to stop; if there
/// is none, nothing happens.
pub proof fn stops_are_noted(state: app::AppView)
    requires
        state.logs.len() <= 400,
    ensures
        !state.can_cancel ==> state.stop_asked() == state,
        state.can_cancel ==> state.stop_asked().status == "Остановка…"@ && logged(
            state.logs,
            state.stop_asked().logs,
            Tone::Warning,
            "Остановка после текущего файла."@,
        ) && (app::AppView { status: state.status, logs: state.logs, ..state.stop_asked() })
            == state,
{
    logging_adds_a_line(
        app::AppView { status: "Остановка…"@, ..state },
        Tone::Warning,
        "Остановка после текущего файла."@,
    );
}

/// What the news of a batch change. Its start sets how many files there are. The start of a file
/// makes it the current one, running, and names it in the status. The end of a file counts it,
/// gives it its status and message in the queue, and logs both with its name. The end of the batch
/// sets all at rest and sums up.
pub proof fn news_are_shown(
    state: app::AppView,
    total: nat,
    path: Seq<u8>,
    status: FileStatus,
    message: Seq<char>,
)
    requires
        state.logs.len() <= 400,
    ensures
        ({
            let begun = state.received(job::MessageView::Started { total });
            &&& begun.total == total
            &&& (app::AppView { total: state.total, ..begun }) == state
        }),
        ({
            let run = state.received(job::MessageView::FileStarted { path });
            &&& run.current_file == Some(path)
            &&& run.status == "Конвертация: "@ + path::name_or(path, "файл"@)
            &&& run.files == queue::with_change(state.files, path, queue::running())
            &&& (app::AppView {
                current_file: state.current_file,
                status: state.status,
                files: state.files,
                ..run
            }) == state
        }),
        ({
            let end = state.received(job::MessageView::FileFinished { path, status, message });
            &&& end.completed == state.completed + 1
            &&& status == FileStatus::Success ==> end.success_count == state.success_count + 1
            &&& status != FileStatus::Success ==> end.success_count == state.success_count
            &&& status == FileStatus::Failed ==> end.fail_count == state.fail_count + 1
            &&& status != FileStatus::Failed ==> end.fail_count == state.fail_count
            &&& status == FileStatus::Skipped ==> end.skip_count == state.skip_count + 1
            &&& status != FileStatus::Skipped ==> end.skip_count == state.skip_count
            &&& end.files == queue::with_change(state.files, path, queue::ended(status, message))
            &&& logged(
                state.logs,
                end.logs,
                status.tone(),
                status.word() + " · "@ + path::name_or(path, "файл"@) + " · "@ + message,
            )
            &&& (app::AppView {
                completed: state.completed,
                success_count: state.success_count,
                fail_count: state.fail_count,
                skip_count: state.skip_count,
                files: state.files,
                logs: state.logs,
                ..end
            }) == state
        }),
        ({
            let rest = state.received(job::MessageView::Finished);
            &&& !rest.converting && !rest.can_cancel
            &&& rest.current_file is None
            &&& rest.status == "Готово · ок "@ + text::decimal(state.success_count)
                + ", ошибок "@ + text::decimal(state.fail_count) + ", пропуск "@ + text::decimal(
                state.skip_count,
            )
            &&& logged(state.logs, rest.logs, Tone::Text, "Конвертация завершена."@)
            &&& (app::AppView {
                converting: state.converting,
                can_cancel: state.can_cancel,
                current_file: state.current_file,
                status: state.status,
                logs: state.logs,
                ..rest
            }) == state
        }),
{
    logging_adds_a_line(
        app::AppView {
            completed: state.completed + 1,
            success_count: if status == FileStatus::Success {
                state.success_count + 1
            } else {
                state.success_count
            },
            fail_count: if status == FileStatus::Failed {
                state.fail_count + 1
            } else {
                state.fail_count
            },
            skip_count: if status == FileStatus::Skipped {
                state.skip_count + 1
            } else {
                state.skip_count
            },
            files: queue::with_change(state.files, path, queue::ended(status, message)),
            ..state
        },
        status.tone(),
        app::end_line(path, status, message),
    );
    logging_adds_a_line(
        app::AppView {
            converting: false,
            current_file: None,
            can_cancel: false,
            status: app::summary(state.success_count, state.fail_count, state.skip_count),
            ..state
        },
        Tone::Text,
        "Конвертация завершена."@,
    );
}

/// Messages are taken in one after another, from the first to the last.
pub proof fn messages_are_taken_in_order(
    state: app::AppView,
    first: job::MessageView,
    rest: Seq<job::MessageView>,
)
    ensures
        state.received_all(seq![first] + rest) == state.received(first).received_all(rest),
{
    app_laws::received_in_lots(state, seq![first], rest);
    assert(seq![first].drop_last() =~= Seq::empty());
    assert(state.received_all(Seq::<job::MessageView>::empty()) == state);
}

/// Emptying the queue takes out all files and sets the counts to nothing; the rest stays.
pub proof fn clearing_empties_the_queue(state: app::AppView)
    ensures
        state.cleared().files.len() == 0,
        state.cleared().total == 0,
        state.cleared().completed == 0,
        state.cleared().success_count == 0,
        state.cleared().fail_count == 0,
        state.cleared().skip_count == 0,
        (app::AppView {
            files: state.files,
            total: state.total,
            completed: state.completed,
            success_count: state.success_count,
            fail_count: state.fail_count,
            skip_count: state.skip_count,
            ..state.cleared()
        }) == state,
{
}

/// The folder to be shown is the chosen one. Where none is chosen it is that of the first file
/// that was converted, and where none was, or it has no folder, that of the first file.
pub proof fn the_folder_shown(state: app::AppView, at: int)
    ensures
        state.output_dir is Some ==> state.folder() == state.output_dir,
        state.output_dir is None && state.files.len() == 0 ==> state.folder() is None,
        state.output_dir is None && 0 <= at < state.files.len() && state.files[at].status
            == FileStatus::Success && (forall|j: int|
            0 <= j < at ==> (#[trigger] state.files[j]).status != FileStatus::Success) ==> {
            &&& path::parent_of(state.files[at].path) is Some ==> state.folder()
                == path::parent_of(state.files[at].path)
            &&& path::parent_of(state.files[at].path) is None ==> state.folder()
                == path::parent_of(state.files[0].path)
        },
        state.output_dir is None && state.files.len() > 0 && (forall|j: int|
            0 <= j < state.files.len() ==> (#[trigger] state.files[j]).status
                != FileStatus::Success) ==> state.folder() == path::parent_of(
            state.files[0].path,
        ),
{
    first_success(state.files, at);
}

proof fn first_success(files: Seq<queue::FileView>, at: int)
    ensures
        0 <= at < files.len() && files[at].status == FileStatus::Success && (forall|j: int|
            0 <= j < at ==> (#[trigger] files[j]).status != FileStatus::Success)
            ==> app::success_folder(files) == path::parent_of(files[at].path),
        (forall|j: int|
            0 <= j < files.len() ==> (#[trigger] files[j]).status != FileStatus::Success)
            ==> app::success_folder(files) is None,
    decreases files.len(),
{
    if files.len() > 0 && files[0].status != FileStatus::Success {
        let rest = files.drop_first();
        first_success(rest, at - 1);
        assert(forall|j: int| 0 <= j < rest.len() ==> #[trigger] rest[j] == files[j + 1]);
    }
}

} // verus!
