//! What the operations change, stated of the values before and after a call.

use std::path::PathBuf;
use vstd::prelude::*;
use vstd::string::*;
use crate::app::{next_folder, App, PathKind};
use crate::command;
use crate::job::{ConvertJob, JobReply, JobRequest, JobStage, WorkerMessage};
use crate::path;
use crate::queue;
use crate::queue::{drop_failed, QueueFile};
use crate::queue_laws;
use crate::settings::Settings;
use crate::state_laws;
use crate::status::{FileStatus, Tone};
use crate::view_laws;

verus! {

/// Starting hands out a batch if and only if none runs, something is queued and FFmpeg is there.
/// The batch has the channels, the quality, the sample rate and the word on replacing outputs that
/// are set, the FFmpeg that was found, and the files of the queue. The settings stay, and the batch
/// runs.
pub proof fn starting_follows_the_settings()
    ensures
        forall|app: &mut App, batch: Option<ConvertJob>| #[trigger]
            call_ensures(App::start_conversion, (app,), batch) ==> {
                &&& batch is Some <==> !app.converting && app.files.len() > 0 && app.ffmpeg_path
                    is Some
                &&& batch matches Some(b) ==> {
                    &&& b.channels == app.settings.channels
                    &&& b.quality == app.settings.quality
                    &&& b.sample_rate == app.settings.sample_rate
                    &&& b.overwrite == app.settings.overwrite
                    &&& path::path_bytes(b.ffmpeg) == path::path_bytes(app.ffmpeg_path->0)
                    &&& b.files.len() == app.files.len()
                    &&& b.index == 0
                    &&& b.stage == JobStage::Begin
                    &&& final(app).converting
                    &&& final(app).can_cancel
                    &&& final(app).total == app.files.len()
                    &&& final(app).completed == 0
                    &&& final(app).success_count == 0
                    &&& final(app).fail_count == 0
                    &&& final(app).skip_count == 0
                }
                &&& final(app).settings@ == app.settings@
                &&& final(app).files.len() == app.files.len()
            },
{
    assert forall|app: &mut App, batch: Option<ConvertJob>| #[trigger]
        call_ensures(App::start_conversion, (app,), batch) implies {
        &&& batch is Some <==> !app.converting && app.files.len() > 0 && app.ffmpeg_path is Some
        &&& batch matches Some(b) ==> {
            &&& b.channels == app.settings.channels
            &&& b.quality == app.settings.quality
            &&& b.sample_rate == app.settings.sample_rate
            &&& b.overwrite == app.settings.overwrite
            &&& path::path_bytes(b.ffmpeg) == path::path_bytes(app.ffmpeg_path->0)
            &&& b.files.len() == app.files.len()
            &&& b.index == 0
            &&& b.stage == JobStage::Begin
            &&& final(app).converting
            &&& final(app).can_cancel
            &&& final(app).total == app.files.len()
            &&& final(app).completed == 0
            &&& final(app).success_count == 0
            &&& final(app).fail_count == 0
            &&& final(app).skip_count == 0
        }
        &&& final(app).settings@ == app.settings@
        &&& final(app).files.len() == app.files.len()
    } by {
        view_laws::app_is_seen(*app);
        view_laws::app_is_seen(*final(app));
        if let Some(b) = batch {
            view_laws::batch_is_seen(b);
        }
    }
}

/// The command that a batch asks to be run is that of the file it has come to, with the channels,
/// the quality and the sample rate of the batch.
pub proof fn batches_run_their_own_choices()
    ensures
        forall|batch: &mut ConvertJob, reply: JobReply, request: JobRequest| #[trigger]
            call_ensures(ConvertJob::step, (batch, reply), request) && request is Run && batch.index
                < batch.files.len() ==> request->Run_0@ == command::conversion_command(
                path::path_bytes(batch.ffmpeg),
                path::path_bytes(batch.files[batch.index as int].input),
                path::path_bytes(batch.files[batch.index as int].output),
                batch.channels,
                batch.quality as int,
                batch.sample_rate,
            ),
{
    assert forall|batch: &mut ConvertJob, reply: JobReply, request: JobRequest| #[trigger]
        call_ensures(ConvertJob::step, (batch, reply), request) && request is Run && batch.index
            < batch.files.len() implies request->Run_0@ == command::conversion_command(
        path::path_bytes(batch.ffmpeg),
        path::path_bytes(batch.files[batch.index as int].input),
        path::path_bytes(batch.files[batch.index as int].output),
        batch.channels,
        batch.quality as int,
        batch.sample_rate,
    ) by {
        view_laws::batch_is_seen(*batch);
        view_laws::audio_file_is_seen(batch.files[batch.index as int]);
        view_laws::batch_talk_is_seen(request, reply);
    }
}

/// Taking out the failed files leaves every file that has not failed, as it was and in its order,
/// and takes out every file that has; nothing else of the state changes.
pub proof fn failed_files_go_and_no_others()
    ensures
        forall|app: &mut App, done: ()| #[trigger]
            call_ensures(App::remove_failed, (app,), done) ==> {
                &&& forall|file: queue::FileView| #[trigger]
                    final(app)@.files.contains(file) <==> app@.files.contains(file) && file.status
                        != FileStatus::Failed
                &&& final(app)@.files.len() + queue_laws::count(app@.files, FileStatus::Failed)
                    == app@.files.len()
                &&& (crate::app::AppView { files: app@.files, ..final(app)@ }) == app@
            },
        forall|files: &mut Vec<QueueFile>, done: ()| #[trigger]
            call_ensures(drop_failed, (files,), done) ==> {
                let before = queue::file_views(files@);
                let after = queue::file_views(final(files)@);
                &&& forall|file: queue::FileView| #[trigger]
                    after.contains(file) <==> before.contains(file) && file.status
                        != FileStatus::Failed
                &&& after.len() + queue_laws::count(before, FileStatus::Failed) == before.len()
            },
{
    assert forall|app: &mut App, done: ()| #[trigger]
        call_ensures(App::remove_failed, (app,), done) implies {
        &&& forall|file: queue::FileView| #[trigger]
            final(app)@.files.contains(file) <==> app@.files.contains(file) && file.status
                != FileStatus::Failed
        &&& final(app)@.files.len() + queue_laws::count(app@.files, FileStatus::Failed)
            == app@.files.len()
        &&& (crate::app::AppView { files: app@.files, ..final(app)@ }) == app@
    } by {
        queue_laws::only_failed_files_go(app@.files);
    }
    assert forall|files: &mut Vec<QueueFile>, done: ()| #[trigger]
        call_ensures(drop_failed, (files,), done) implies ({
        let before = queue::file_views(files@);
        let after = queue::file_views(final(files)@);
        &&& forall|file: queue::FileView| #[trigger]
            after.contains(file) <==> before.contains(file) && file.status != FileStatus::Failed
        &&& after.len() + queue_laws::count(before, FileStatus::Failed) == before.len()
    }) by {
        queue_laws::only_failed_files_go(queue::file_views(files@));
    }
}

/// Taking out one file takes out that one: those before it keep their places, and those behind it
/// move up. Emptying takes out all, and sets the counts to nothing.
pub proof fn files_are_taken_out()
    ensures
        forall|app: &mut App, index: usize, done: ()| #[trigger]
            call_ensures(App::remove_file, (app, index), done) && index < app.files.len() ==> {
                &&& final(app)@.files.len() == app@.files.len() - 1
                &&& forall|i: int| 0 <= i < index ==> #[trigger] final(app)@.files[i]
                    == app@.files[i]
                &&& forall|i: int|
                    index <= i < app@.files.len() - 1 ==> #[trigger] final(app)@.files[i]
                        == app@.files[i + 1]
                &&& (crate::app::AppView { files: app@.files, ..final(app)@ }) == app@
            },
        forall|app: &mut App, done: ()| #[trigger]
            call_ensures(App::clear_files, (app,), done) ==> {
                &&& final(app).files.len() == 0
                &&& final(app).total == 0 && final(app).completed == 0
                &&& final(app).success_count == 0 && final(app).fail_count == 0
                    && final(app).skip_count == 0
                &&& final(app)@.settings == app@.settings
                &&& final(app)@.logs == app@.logs
            },
        forall|app: &mut App, done: ()| #[trigger]
            call_ensures(App::clear_logs, (app,), done) ==> final(app).logs.len() == 0 && (
            crate::app::AppView { logs: app@.logs, ..final(app)@ }) == app@,
{
    assert forall|app: &mut App, done: ()| #[trigger]
        call_ensures(App::clear_files, (app,), done) implies final(app).files.len() == 0 && final(app).total == 0 && final(app).completed == 0 && final(app).success_count == 0 && final(app).fail_count == 0 && final(app).skip_count == 0 && final(app)@.settings == app@.settings
        && final(app)@.logs == app@.logs by {
        view_laws::app_is_seen(*final(app));
    }
    assert forall|app: &mut App, done: ()| #[trigger]
        call_ensures(App::clear_logs, (app,), done) implies final(app).logs.len() == 0 && (
    crate::app::AppView { logs: app@.logs, ..final(app)@ }) == app@ by {
        view_laws::app_is_seen(*final(app));
    }
    assert forall|app: &mut App, index: usize, done: ()| #[trigger]
        call_ensures(App::remove_file, (app, index), done) && index < app.files.len() implies {
        &&& final(app)@.files.len() == app@.files.len() - 1
        &&& forall|i: int| 0 <= i < index ==> #[trigger] final(app)@.files[i] == app@.files[i]
        &&& forall|i: int|
            index <= i < app@.files.len() - 1 ==> #[trigger] final(app)@.files[i] == app@.files[i
                + 1]
        &&& (crate::app::AppView { files: app@.files, ..final(app)@ }) == app@
    } by {
        view_laws::app_is_seen(*app);
    }
}

/// Offering a path queues it if it is that of an audio file and leads to a file, and hands it back
/// to be listed if it leads to a folder.
pub proof fn offered_paths_are_queued_or_listed()
    ensures
        forall|app: &mut App, path: PathBuf, kind: PathKind, to_list: Option<PathBuf>| #[trigger]
            call_ensures(App::add_file, (app, path, kind), to_list) ==> {
                &&& to_list is Some <==> kind == PathKind::Directory
                &&& to_list matches Some(folder) ==> path::path_bytes(folder) == path::path_bytes(
                    path,
                )
                &&& kind == PathKind::File && queue::is_audio_path(path::path_bytes(path))
                    ==> queue::is_queued(final(app)@.files, path::path_bytes(path))
                &&& kind != PathKind::File || !queue::is_audio_path(path::path_bytes(path))
                    ==> final(app)@ == app@
            },
{
    assert forall|app: &mut App, path: PathBuf, kind: PathKind, to_list: Option<PathBuf>| #[trigger]
        call_ensures(App::add_file, (app, path, kind), to_list) implies {
        &&& to_list is Some <==> kind == PathKind::Directory
        &&& to_list matches Some(folder) ==> path::path_bytes(folder) == path::path_bytes(path)
        &&& kind == PathKind::File && queue::is_audio_path(path::path_bytes(path))
            ==> queue::is_queued(final(app)@.files, path::path_bytes(path))
        &&& kind != PathKind::File || !queue::is_audio_path(path::path_bytes(path)) ==> final(app)@
            == app@
    } by {
        state_laws::audio_files_are_queued(app@, path::path_bytes(path), kind);
    }
}

/// A choice of folder is kept, and nothing else changes; settings that were read are in force.
pub proof fn choices_are_kept()
    ensures
        forall|app: &mut App, dir: Option<PathBuf>, done: ()| #[trigger]
            call_ensures(App::set_output_dir, (app, dir), done) ==> {
                &&& dir is None <==> final(app).output_dir is None
                &&& dir is Some ==> path::path_bytes(final(app).output_dir->0)
                    == path::path_bytes(dir->0)
                &&& (crate::app::AppView { output_dir: app@.output_dir, ..final(app)@ }) == app@
            },
        forall|app: &mut App, read: Option<Settings>, done: ()| #[trigger]
            call_ensures(App::load_settings, (app, read), done) ==> {
                &&& read is None ==> final(app)@ == app@
                &&& read matches Some(settings) ==> {
                    &&& final(app).settings.channels == settings.channels
                    &&& final(app).settings.quality == settings.quality
                    &&& final(app).settings.recursive == settings.recursive
                    &&& final(app).settings.overwrite == settings.overwrite
                    &&& final(app).settings.sample_rate == settings.sample_rate
                    &&& path::option_bytes(final(app).output_dir) == path::option_bytes(
                        settings.output_dir,
                    )
                    &&& final(app)@.files == app@.files
                }
            },
{
    assert forall|app: &mut App, dir: Option<PathBuf>, done: ()| #[trigger]
        call_ensures(App::set_output_dir, (app, dir), done) implies {
        &&& dir is None <==> final(app).output_dir is None
        &&& dir is Some ==> path::path_bytes(final(app).output_dir->0) == path::path_bytes(dir->0)
        &&& (crate::app::AppView { output_dir: app@.output_dir, ..final(app)@ }) == app@
    } by {
        view_laws::app_is_seen(*final(app));
    }
    assert forall|app: &mut App, read: Option<Settings>, done: ()| #[trigger]
        call_ensures(App::load_settings, (app, read), done) implies {
        &&& read is None ==> final(app)@ == app@
        &&& read matches Some(settings) ==> {
            &&& final(app).settings.channels == settings.channels
            &&& final(app).settings.quality == settings.quality
            &&& final(app).settings.recursive == settings.recursive
            &&& final(app).settings.overwrite == settings.overwrite
            &&& final(app).settings.sample_rate == settings.sample_rate
            &&& path::option_bytes(final(app).output_dir) == path::option_bytes(
                settings.output_dir,
            )
            &&& final(app)@.files == app@.files
        }
    } by {
        if let Some(settings) = read {
            view_laws::settings_are_seen(settings);
            view_laws::settings_are_seen(final(app).settings);
            view_laws::app_is_seen(*final(app));
        }
    }
}

/// A stop is asked for where there is a batch to stop. Files that are dropped are taken unless a
/// batch runs, and whether any are dragged over the window is noted.
pub proof fn requests_are_answered()
    ensures
        forall|app: &mut App, asked: bool| #[trigger]
            call_ensures(App::request_cancel, (app,), asked) ==> {
                &&& asked <==> app.can_cancel
                &&& asked ==> final(app).status@ == "Остановка…"@
                &&& !asked ==> final(app)@ == app@
                &&& final(app).converting == app.converting
            },
        forall|app: &mut App, hovering: bool, taken: bool| #[trigger]
            call_ensures(App::handle_dropped_files, (app, hovering), taken) ==> {
                &&& taken <==> !app.converting
                &&& final(app).dragging == hovering
                &&& (crate::app::AppView { dragging: app@.dragging, ..final(app)@ }) == app@
            },
{
}

/// A line that is logged stands at the end of the log.
pub proof fn lines_are_logged()
    ensures
        forall|app: &mut App, tone: Tone, line: String, done: ()| #[trigger]
            call_ensures(App::log, (app, tone, line), done) && app.logs.len() <= 400 ==> {
                &&& 0 < final(app).logs.len() <= 400
                &&& final(app)@.logs.last() == (tone, line@)
                &&& app.logs.len() < 400 ==> final(app).logs.len() == app.logs.len() + 1
                &&& (crate::app::AppView { logs: app@.logs, ..final(app)@ }) == app@
            },
{
    assert forall|app: &mut App, tone: Tone, line: String, done: ()| #[trigger]
        call_ensures(App::log, (app, tone, line), done) && app.logs.len() <= 400 implies {
        &&& 0 < final(app).logs.len() <= 400
        &&& final(app)@.logs.last() == (tone, line@)
        &&& app.logs.len() < 400 ==> final(app).logs.len() == app.logs.len() + 1
        &&& (crate::app::AppView { logs: app@.logs, ..final(app)@ }) == app@
    } by {
        view_laws::app_is_seen(*app);
        view_laws::app_is_seen(*final(app));
        state_laws::logging_adds_a_line(app@, tone, line@);
    }
}

/// The end of a file that is told is counted, and the end of a batch sets all at rest.
pub proof fn news_are_taken_in()
    ensures
        forall|app: &mut App, news: &WorkerMessage, done: ()| #[trigger]
            call_ensures(App::receive, (app, news), done) ==> {
                &&& news is FileFinished ==> final(app).completed == app.completed + 1
                &&& !(news is FileFinished) ==> final(app).completed == app.completed
                &&& news matches WorkerMessage::FileFinished { path, status, message } ==> {
                    &&& status == FileStatus::Success ==> final(app).success_count
                        == app.success_count + 1
                    &&& status == FileStatus::Failed ==> final(app).fail_count == app.fail_count
                        + 1
                    &&& status == FileStatus::Skipped ==> final(app).skip_count == app.skip_count
                        + 1
                    &&& final(app).converting == app.converting
                }
                &&& news matches WorkerMessage::Started { total } ==> final(app).total == *total
                &&& news matches WorkerMessage::FileStarted { path } ==> final(app).current_file
                    is Some && path::path_bytes(final(app).current_file->0) == path::path_bytes(
                    *path,
                )
                &&& news is Finished ==> !final(app).converting && !final(app).can_cancel && final(app).current_file is None
                &&& final(app).files.len() == app.files.len()
                &&& final(app)@.settings == app@.settings
            },
{
    assert forall|app: &mut App, news: &WorkerMessage, done: ()| #[trigger]
        call_ensures(App::receive, (app, news), done) implies {
        &&& news is FileFinished ==> final(app).completed == app.completed + 1
        &&& !(news is FileFinished) ==> final(app).completed == app.completed
        &&& news matches WorkerMessage::FileFinished { path, status, message } ==> {
            &&& status == FileStatus::Success ==> final(app).success_count == app.success_count
                + 1
            &&& status == FileStatus::Failed ==> final(app).fail_count == app.fail_count + 1
            &&& status == FileStatus::Skipped ==> final(app).skip_count == app.skip_count + 1
            &&& final(app).converting == app.converting
        }
        &&& news matches WorkerMessage::Started { total } ==> final(app).total == *total
        &&& news matches WorkerMessage::FileStarted { path } ==> final(app).current_file is Some
            && path::path_bytes(final(app).current_file->0) == path::path_bytes(*path)
        &&& news is Finished ==> !final(app).converting && !final(app).can_cancel && final(app).current_file is None
        &&& final(app).files.len() == app.files.len()
        &&& final(app)@.settings == app@.settings
    } by {
        view_laws::app_is_seen(*app);
        view_laws::app_is_seen(*final(app));
        view_laws::message_is_seen(*news);
        match news@ {
            crate::job::MessageView::FileStarted { path } => {
                queue::change_keeps_paths(app@.files, path, queue::running());
                assert(queue::file_paths(final(app)@.files).len() == final(app)@.files.len());
                assert(queue::file_paths(app@.files).len() == app@.files.len());
            },
            crate::job::MessageView::FileFinished { path, status, message } => {
                queue::change_keeps_paths(app@.files, path, queue::ended(status, message));
                assert(queue::file_paths(final(app)@.files).len() == final(app)@.files.len());
                assert(queue::file_paths(app@.files).len() == app@.files.len());
            },
            _ => {},
        }
    }
}

/// The folder that is listed next is the last of those that wait.
pub proof fn last_folder_is_next()
    ensures
        forall|rest: &mut Vec<PathBuf>, folder: Option<PathBuf>| #[trigger]
            call_ensures(next_folder, (rest,), folder) ==> {
                &&& folder is Some <==> rest.len() > 0
                &&& folder is Some ==> path::path_bytes(folder->0) == path::path_bytes(
                    rest[rest.len() - 1],
                )
                &&& path::list_bytes(final(rest)@) == if rest.len() > 0 {
                    path::list_bytes(rest@).drop_last()
                } else {
                    path::list_bytes(rest@)
                }
            },
{
}

} // verus!
