//! What contracts see of a value is all that the value holds.

use std::path::PathBuf;
use vstd::prelude::*;
use crate::app::{App, DirItem};
use crate::command;
use crate::command::{Arg, FfmpegCommand, ProcessOutput};
use crate::copying::{CopyJob, CopyReply, CopyRequest};
use crate::copying;
use crate::job;
use crate::job::{AudioFile, ConvertJob, JobReply, JobRequest, WorkerMessage};
use crate::path;
use crate::queue::QueueFile;
use crate::screen::Row;
use crate::settings::Settings;
use crate::setup;
use crate::setup::{Setup, SetupReply, SetupRequest};

verus! {

/// The settings are seen as they are.
pub proof fn settings_are_seen(settings: Settings)
    ensures
        settings@.channels == settings.channels,
        settings@.quality == settings.quality,
        settings@.recursive == settings.recursive,
        settings@.overwrite == settings.overwrite,
        settings@.sample_rate == settings.sample_rate,
        settings.output_dir is None ==> settings@.output_dir is None,
        settings.output_dir matches Some(dir) ==> settings@.output_dir == Some(
            path::path_bytes(dir),
        ),
{
}

/// A queued file is seen as it is.
pub proof fn queued_file_is_seen(file: QueueFile)
    ensures
        file@.path == path::path_bytes(file.path),
        file@.status == file.status,
        file@.message == file.message@,
{
}

/// The state of the converter is seen as it is.
pub proof fn app_is_seen(app: App)
    ensures
        app@.files.len() == app.files@.len(),
        forall|i: int| 0 <= i < app.files@.len() ==> #[trigger] app@.files[i] == app.files@[i]@,
        app.output_dir is None ==> app@.output_dir is None,
        app.output_dir matches Some(dir) ==> app@.output_dir == Some(path::path_bytes(dir)),
        app@.settings == app.settings@,
        app@.converting == app.converting,
        app.current_file is None ==> app@.current_file is None,
        app.current_file matches Some(file) ==> app@.current_file == Some(path::path_bytes(file)),
        app@.completed == app.completed,
        app@.total == app.total,
        app@.success_count == app.success_count,
        app@.fail_count == app.fail_count,
        app@.skip_count == app.skip_count,
        app@.logs.len() == app.logs@.len(),
        forall|i: int|
            0 <= i < app.logs@.len() ==> (#[trigger] app@.logs[i]).0 == app.logs@[i].0
                && app@.logs[i].1 == app.logs@[i].1@,
        app@.can_cancel == app.can_cancel,
        app.ffmpeg_path is None ==> app@.ffmpeg_path is None,
        app.ffmpeg_path matches Some(found) ==> app@.ffmpeg_path == Some(path::path_bytes(found)),
        app@.preparing == app.preparing,
        app@.status == app.status@,
        app@.dragging == app.dragging,
{
}

/// An entry of a directory is seen as it is.
pub proof fn item_is_seen(item: DirItem)
    ensures
        item@.path == path::path_bytes(item.path),
        item@.kind == item.kind,
{
}

/// A list of paths is seen path by path.
pub proof fn paths_are_seen(paths: Seq<PathBuf>, i: int)
    ensures
        path::list_bytes(paths).len() == paths.len(),
        0 <= i < paths.len() ==> path::list_bytes(paths)[i] == path::path_bytes(paths[i]),
{
}

/// A batch is seen as it is.
pub proof fn batch_is_seen(batch: ConvertJob)
    ensures
        batch@.ffmpeg == path::path_bytes(batch.ffmpeg),
        batch@.files.len() == batch.files@.len(),
        forall|i: int|
            0 <= i < batch.files@.len() ==> #[trigger] batch@.files[i] == batch.files@[i]@,
        batch@.channels == batch.channels,
        batch@.quality == batch.quality,
        batch@.overwrite == batch.overwrite,
        batch@.sample_rate == batch.sample_rate,
        batch@.index == batch.index,
        batch@.stage == batch.stage,
{
}

/// A file of a batch is seen as it is.
pub proof fn audio_file_is_seen(file: AudioFile)
    ensures
        file@.input == path::path_bytes(file.input),
        file@.output == path::path_bytes(file.output),
{
}

/// A message is seen as it is.
pub proof fn message_is_seen(message: WorkerMessage)
    ensures
        message matches WorkerMessage::Started { total } ==> message@ == (
        job::MessageView::Started { total: total as nat }),
        message matches WorkerMessage::FileStarted { path } ==> message@ == (
        job::MessageView::FileStarted { path: path::path_bytes(path) }),
        message matches WorkerMessage::FileFinished { path, status, message: told } ==> message@
            == (job::MessageView::FileFinished {
            path: path::path_bytes(path),
            status,
            message: told@,
        }),
        message is Finished ==> message@ is Finished,
{
}

/// An argument and a command are seen as they are.
pub proof fn command_is_seen(command: FfmpegCommand, i: int)
    ensures
        command@.program == path::path_bytes(command.program),
        command.current_dir is None ==> command@.current_dir is None,
        command.current_dir matches Some(dir) ==> command@.current_dir == Some(
            path::path_bytes(dir),
        ),
        command@.args.len() == command.args@.len(),
        0 <= i < command.args@.len() ==> match command.args@[i] {
            Arg::Text(text) => command@.args[i] == command::ArgView::Text(text@),
            Arg::Path(path) => command@.args[i] == command::ArgView::Path(path::path_bytes(path)),
        },
{
}

/// The end of a process is seen as it is.
pub proof fn output_is_seen(output: ProcessOutput, run: Result<ProcessOutput, String>)
    ensures
        output@.success == output.success,
        output@.code == output.code,
        output@.stdout == output.stdout@,
        output@.stderr == output.stderr@,
        run matches Ok(ended) ==> command::run_view(run) == Ok::<command::OutputView, Seq<char>>(
            ended@,
        ),
        run matches Err(error) ==> command::run_view(run) == Err::<command::OutputView, Seq<char>>(
            error@,
        ),
{
}

/// A request of a batch, and the reply to it, are seen as they are.
pub proof fn batch_talk_is_seen(request: JobRequest, reply: JobReply)
    ensures
        match request {
            JobRequest::Send(message) => request@ == job::RequestView::Send(message@),
            JobRequest::PrependPath(dir) => request@ == job::RequestView::PrependPath(
                path::path_bytes(dir),
            ),
            JobRequest::ReadCancel => request@ is ReadCancel,
            JobRequest::CreateDir(dir) => request@ == job::RequestView::CreateDir(
                path::path_bytes(dir),
            ),
            JobRequest::CheckExists(file) => request@ == job::RequestView::CheckExists(
                path::path_bytes(file),
            ),
            JobRequest::Run(command) => request@ == job::RequestView::Run(command@),
            JobRequest::Stop => request@ is Stop,
        },
        match reply {
            JobReply::Done => reply@ is Done,
            JobReply::Answer(answer) => reply@ == job::ReplyView::Answer(answer),
            JobReply::Outcome(Ok(_)) => reply@ == job::ReplyView::Outcome(Ok(())),
            JobReply::Outcome(Err(error)) => reply@ == job::ReplyView::Outcome(Err(error@)),
            JobReply::Exit(Ok(output)) => reply@ == job::ReplyView::Exit(Ok(output@)),
            JobReply::Exit(Err(error)) => reply@ == job::ReplyView::Exit(Err(error@)),
        },
{
}

/// A setup, its requests and the replies to them are seen as they are.
pub proof fn setup_is_seen(setup: Setup, request: SetupRequest, reply: SetupReply)
    ensures
        setup@.cache == path::path_bytes(setup.cache),
        setup@.dest == path::path_bytes(setup.dest),
        setup@.embedded_len == setup.embedded_len,
        setup.local is None ==> setup@.local is None,
        setup.local matches Some(local) ==> setup@.local == Some(path::path_bytes(local)),
        setup@.stage == setup.stage,
        match request {
            SetupRequest::CreateDir(dir) => request@ == setup::SetupRequestView::CreateDir(
                path::path_bytes(dir),
            ),
            SetupRequest::Probe(file) => request@ == setup::SetupRequestView::Probe(
                path::path_bytes(file),
            ),
            SetupRequest::WriteEmbedded(file) => request@
                == setup::SetupRequestView::WriteEmbedded(path::path_bytes(file)),
            SetupRequest::MakeExecutable(file) => request@
                == setup::SetupRequestView::MakeExecutable(path::path_bytes(file)),
            SetupRequest::FindLocal => request@ is FindLocal,
            SetupRequest::CopyFiles { from, to } => request@ == (
            setup::SetupRequestView::CopyFiles {
                from: path::path_bytes(from),
                to: path::path_bytes(to),
            }),
            SetupRequest::Download(file) => request@ == setup::SetupRequestView::Download(
                path::path_bytes(file),
            ),
            SetupRequest::Finish(Ok(found)) => request@ == setup::SetupRequestView::Finish(
                Ok(path::path_bytes(found)),
            ),
            SetupRequest::Finish(Err(error)) => request@ == setup::SetupRequestView::Finish(
                Err(error@),
            ),
        },
        match reply {
            SetupReply::Nothing => reply@ is Nothing,
            SetupReply::Outcome(Ok(_)) => reply@ == setup::SetupReplyView::Outcome(Ok(())),
            SetupReply::Outcome(Err(error)) => reply@ == setup::SetupReplyView::Outcome(
                Err(error@),
            ),
            SetupReply::Works(works) => reply@ == setup::SetupReplyView::Works(works),
            SetupReply::Found(None) => reply@ == setup::SetupReplyView::Found(None),
            SetupReply::Found(Some(local)) => reply@ == setup::SetupReplyView::Found(
                Some(path::path_bytes(local)),
            ),
        },
{
}

/// A copying, its requests and the replies to them are seen as they are.
pub proof fn copying_is_seen(job: CopyJob, request: CopyRequest, reply: CopyReply)
    ensures
        job@.to == path::path_bytes(job.to),
        job@.items.len() == job.items@.len(),
        forall|i: int| 0 <= i < job.items@.len() ==> #[trigger] job@.items[i] == job.items@[i]@,
        job@.index == job.index,
        job@.stage == job.stage,
        match request {
            CopyRequest::ReadSizes { from, to } => request@ == (
            copying::CopyRequestView::ReadSizes {
                from: path::path_bytes(from),
                to: path::path_bytes(to),
            }),
            CopyRequest::Copy { from, to } => request@ == (copying::CopyRequestView::Copy {
                from: path::path_bytes(from),
                to: path::path_bytes(to),
            }),
            CopyRequest::Finish(Ok(_)) => request@ == copying::CopyRequestView::Finish(Ok(())),
            CopyRequest::Finish(Err(error)) => request@ == copying::CopyRequestView::Finish(
                Err(error@),
            ),
        },
        match reply {
            CopyReply::Nothing => reply@ is Nothing,
            CopyReply::Sizes { from, to } => reply@ == (copying::CopyReplyView::Sizes {
                from,
                to,
            }),
            CopyReply::Outcome(Ok(_)) => reply@ == copying::CopyReplyView::Outcome(Ok(())),
            CopyReply::Outcome(Err(error)) => reply@ == copying::CopyReplyView::Outcome(
                Err(error@),
            ),
        },
{
}

/// A line of the queue is seen as it is.
pub proof fn row_is_seen(row: Row)
    ensures
        row@.number == row.number@,
        row@.name == row.name@,
        row@.folder == row.folder@,
        row@.status == row.status,
        row@.hover == row.hover@,
        row@.removable == row.removable,
{
}

} // verus!
