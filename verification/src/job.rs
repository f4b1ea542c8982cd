//! A batch of conversions, one file after another.
//!
//! [`ConvertJob`] decides what is to be done next. Its caller does it and hands back how it went:
//! it sends messages, asks whether the batch was cancelled, makes directories, looks for files
//! and runs FFmpeg.

use std::path::PathBuf;
use vstd::prelude::*;
use vstd::string::*;
use crate::command;
use crate::command::{conversion_result, ffmpeg_command, FfmpegCommand, ProcessOutput};
use crate::path;
use crate::path::{copy_path, display, name_text_or, parent};
use crate::settings::{Channels, SampleRate};
use crate::status::FileStatus;

verus! {

/// A file to be converted, and where it is converted to.
#[derive(Debug)]
pub struct AudioFile {
    pub input: PathBuf,
    pub output: PathBuf,
}

/// A file to be converted as contracts see it.
pub struct AudioView {
    pub input: Seq<u8>,
    pub output: Seq<u8>,
}

impl View for AudioFile {
    type V = AudioView;

    open spec fn view(&self) -> AudioView {
        AudioView { input: path::path_bytes(self.input), output: path::path_bytes(self.output) }
    }
}

/// The views of a list of files.
pub open spec fn audio_views(files: Seq<AudioFile>) -> Seq<AudioView> {
    Seq::new(files.len(), |i: int| files[i]@)
}

/// What a batch tells about its progress.
#[derive(Debug)]
pub enum WorkerMessage {
    Started { total: usize },
    FileStarted { path: PathBuf },
    FileFinished { path: PathBuf, status: FileStatus, message: String },
    Finished,
}

/// A message as contracts see it.
pub enum MessageView {
    Started { total: nat },
    FileStarted { path: Seq<u8> },
    FileFinished { path: Seq<u8>, status: FileStatus, message: Seq<char> },
    Finished,
}

impl View for WorkerMessage {
    type V = MessageView;

    open spec fn view(&self) -> MessageView {
        match self {
            WorkerMessage::Started { total } => MessageView::Started { total: *total as nat },
            WorkerMessage::FileStarted { path } => MessageView::FileStarted {
                path: path::path_bytes(*path),
            },
            WorkerMessage::FileFinished { path, status, message } => MessageView::FileFinished {
                path: path::path_bytes(*path),
                status: *status,
                message: message@,
            },
            WorkerMessage::Finished => MessageView::Finished,
        }
    }
}

/// What a batch waits for.
#[derive(Debug, Clone, Copy, PartialEq, Eq, Structural)]
pub enum JobStage {
    /// Nothing has been done yet.
    Begin,
    /// The start has been told.
    Opened,
    /// No file is being worked on.
    Idle,
    /// The caller looks whether the batch was cancelled.
    AskedCancel,
    /// The start of the current file has been told.
    Announced,
    /// The caller makes the output's directory.
    AskedDir,
    /// The caller looks whether the output exists.
    AskedExists,
    /// The caller runs FFmpeg.
    AskedRun,
    /// The end has been told.
    Closed,
}

/// What the caller of a batch is to do.
#[derive(Debug)]
pub enum JobRequest {
    /// Send a message.
    Send(WorkerMessage),
    /// Put a directory in front of the program search path.
    PrependPath(PathBuf),
    /// Look whether the batch was cancelled.
    ReadCancel,
    /// Make a directory and all above it.
    CreateDir(PathBuf),
    /// Look whether a path exists.
    CheckExists(PathBuf),
    /// Run a command to its end.
    Run(FfmpegCommand),
    /// Nothing more is to be done.
    Stop,
}

/// A request as contracts see it.
pub enum RequestView {
    Send(MessageView),
    PrependPath(Seq<u8>),
    ReadCancel,
    CreateDir(Seq<u8>),
    CheckExists(Seq<u8>),
    Run(command::CommandView),
    Stop,
}

impl View for JobRequest {
    type V = RequestView;

    open spec fn view(&self) -> RequestView {
        match self {
            JobRequest::Send(message) => RequestView::Send(message@),
            JobRequest::PrependPath(dir) => RequestView::PrependPath(path::path_bytes(*dir)),
            JobRequest::ReadCancel => RequestView::ReadCancel,
            JobRequest::CreateDir(dir) => RequestView::CreateDir(path::path_bytes(*dir)),
            JobRequest::CheckExists(file) => RequestView::CheckExists(path::path_bytes(*file)),
            JobRequest::Run(command) => RequestView::Run(command@),
            JobRequest::Stop => RequestView::Stop,
        }
    }
}

/// How what was requested went.
#[derive(Debug)]
pub enum JobReply {
    /// It is done.
    Done,
    /// The answer to a question.
    Answer(bool),
    /// It succeeded, or failed for a reason.
    Outcome(Result<(), String>),
    /// The process ended, or did not start for a reason.
    Exit(Result<ProcessOutput, String>),
}

/// A reply as contracts see it.
pub enum ReplyView {
    Done,
    Answer(bool),
    Outcome(Result<(), Seq<char>>),
    Exit(Result<command::OutputView, Seq<char>>),
}

impl View for JobReply {
    type V = ReplyView;

    open spec fn view(&self) -> ReplyView {
        match self {
            JobReply::Done => ReplyView::Done,
            JobReply::Answer(answer) => ReplyView::Answer(*answer),
            JobReply::Outcome(outcome) => ReplyView::Outcome(command::unit_view(*outcome)),
            JobReply::Exit(run) => ReplyView::Exit(command::run_view(*run)),
        }
    }
}

/// A batch of conversions under way.
#[derive(Debug)]
pub struct ConvertJob {
    pub ffmpeg: PathBuf,
    pub files: Vec<AudioFile>,
    pub channels: Channels,
    pub quality: i32,
    pub overwrite: bool,
    pub sample_rate: SampleRate,
    /// The file that is worked on, or the next one.
    pub index: usize,
    pub stage: JobStage,
}

/// A batch as contracts see it.
#[verifier::ext_equal]
pub struct JobView {
    pub ffmpeg: Seq<u8>,
    pub files: Seq<AudioView>,
    pub channels: Channels,
    pub quality: int,
    pub overwrite: bool,
    pub sample_rate: SampleRate,
    pub index: nat,
    pub stage: JobStage,
}

impl View for ConvertJob {
    type V = JobView;

    open spec fn view(&self) -> JobView {
        JobView {
            ffmpeg: path::path_bytes(self.ffmpeg),
            files: audio_views(self.files@),
            channels: self.channels,
            quality: self.quality as int,
            overwrite: self.overwrite,
            sample_rate: self.sample_rate,
            index: self.index as nat,
            stage: self.stage,
        }
    }
}

impl JobView {
    /// Whether a file is being worked on.
    pub open spec fn in_file(self) -> bool {
        match self.stage {
            JobStage::AskedCancel | JobStage::Announced | JobStage::AskedDir
            | JobStage::AskedExists | JobStage::AskedRun => true,
            _ => false,
        }
    }

    /// Whether the place in the batch is one that exists.
    pub open spec fn wf(self) -> bool {
        &&& self.index <= self.files.len()
        &&& self.in_file() ==> self.index < self.files.len()
    }

    /// Whether a reply is of the kind that the batch waits for.
    pub open spec fn accepts(self, reply: ReplyView) -> bool {
        match self.stage {
            JobStage::AskedCancel | JobStage::AskedExists => reply is Answer,
            JobStage::AskedDir => reply is Outcome,
            JobStage::AskedRun => reply is Exit,
            _ => true,
        }
    }

    /// The current file.
    pub open spec fn current(self) -> AudioView {
        self.files[self.index as int]
    }

    /// The batch waiting for something else.
    pub open spec fn at(self, stage: JobStage) -> JobView {
        JobView { stage, ..self }
    }

    /// The end of the current file: it is told, and the next file comes up.
    pub open spec fn finish_file(self, status: FileStatus, message: Seq<char>) -> (
        JobView,
        RequestView,
    ) {
        (
            JobView { index: self.index + 1, stage: JobStage::Idle, ..self },
            RequestView::Send(
                MessageView::FileFinished { path: self.current().input, status, message },
            ),
        )
    }

    /// Between files: the next one, or the end.
    pub open spec fn next_file(self) -> (JobView, RequestView) {
        if self.index < self.files.len() {
            (self.at(JobStage::AskedCancel), RequestView::ReadCancel)
        } else {
            (self.at(JobStage::Closed), RequestView::Send(MessageView::Finished))
        }
    }

    /// The question whether the output exists.
    pub open spec fn ask_exists(self) -> (JobView, RequestView) {
        (self.at(JobStage::AskedExists), RequestView::CheckExists(self.current().output))
    }

    /// The command that converts the current file.
    pub open spec fn command(self) -> command::CommandView {
        command::conversion_command(
            self.ffmpeg,
            self.current().input,
            self.current().output,
            self.channels,
            self.quality,
            self.sample_rate,
        )
    }

    /// What happens on a reply.
    pub open spec fn step(self, reply: ReplyView) -> (JobView, RequestView) {
        match self.stage {
            JobStage::Begin => (
                self.at(JobStage::Opened),
                RequestView::Send(MessageView::Started { total: self.files.len() }),
            ),
            JobStage::Opened => match path::parent_of(self.ffmpeg) {
                Some(dir) => (self.at(JobStage::Idle), RequestView::PrependPath(dir)),
                None => self.next_file(),
            },
            JobStage::Idle => self.next_file(),
            JobStage::AskedCancel => if reply == ReplyView::Answer(true) {
                self.finish_file(FileStatus::Skipped, "Отменено"@)
            } else {
                (
                    self.at(JobStage::Announced),
                    RequestView::Send(MessageView::FileStarted { path: self.current().input }),
                )
            },
            JobStage::Announced => match path::parent_of(self.current().output) {
                Some(dir) => (self.at(JobStage::AskedDir), RequestView::CreateDir(dir)),
                None => self.ask_exists(),
            },
            JobStage::AskedDir => match reply {
                ReplyView::Outcome(Err(error)) => self.finish_file(
                    FileStatus::Failed,
                    missing_dir_text(self.current().output, error),
                ),
                _ => self.ask_exists(),
            },
            JobStage::AskedExists => if reply == ReplyView::Answer(true) && !self.overwrite {
                self.finish_file(
                    FileStatus::Skipped,
                    "уже есть "@ + path::displayed(self.current().output),
                )
            } else {
                (self.at(JobStage::AskedRun), RequestView::Run(self.command()))
            },
            JobStage::AskedRun => {
                let (status, message) = run_report(self.current().output, reply->Exit_0);
                self.finish_file(status, message)
            },
            JobStage::Closed => (self, RequestView::Stop),
        }
    }
}

/// What is said of an output whose directory could not be made.
pub open spec fn missing_dir_text(output: Seq<u8>, error: Seq<char>) -> Seq<char> {
    match path::parent_of(output) {
        Some(dir) => "Нет папки "@ + path::displayed(dir) + ": "@ + error,
        None => error,
    }
}

/// What is said of a file that FFmpeg was run on.
pub open spec fn run_report(
    output: Seq<u8>,
    run: Result<command::OutputView, Seq<char>>,
) -> (FileStatus, Seq<char>) {
    match command::verdict(run) {
        Ok(_) => (FileStatus::Success, path::name_or(output, "ogg"@)),
        Err(message) => (FileStatus::Failed, message),
    }
}

impl ConvertJob {
    /// Whether the place in the batch is one that exists.
    pub open spec fn wf(&self) -> bool {
        self@.wf()
    }

    /// A batch that has not begun.
    pub fn new(
        ffmpeg: PathBuf,
        files: Vec<AudioFile>,
        channels: Channels,
        quality: i32,
        overwrite: bool,
        sample_rate: SampleRate,
    ) -> (job: ConvertJob)
        ensures
            job.wf(),
            job@ == (JobView {
                ffmpeg: path::path_bytes(ffmpeg),
                files: audio_views(files@),
                channels,
                quality: quality as int,
                overwrite,
                sample_rate,
                index: 0,
                stage: JobStage::Begin,
            }),
            job.ffmpeg == ffmpeg,
            job.files == files,
            job.channels == channels,
            job.quality == quality,
            job.overwrite == overwrite,
            job.sample_rate == sample_rate,
    {
        ConvertJob {
            ffmpeg,
            files,
            channels,
            quality,
            overwrite,
            sample_rate,
            index: 0,
            stage: JobStage::Begin,
        }
    }

    fn finish_file(&mut self, status: FileStatus, message: String) -> (request: JobRequest)
        requires
            old(self).wf(),
            old(self)@.in_file(),
        ensures
            final(self).wf(),
            (final(self)@, request@) == old(self)@.finish_file(status, message@),
    {
        let path = copy_path(&self.files[self.index].input);
        assert(self.index < self.files.len());
        self.index = self.index + 1;
        self.stage = JobStage::Idle;
        JobRequest::Send(WorkerMessage::FileFinished { path, status, message })
    }

    fn next_file(&mut self) -> (request: JobRequest)
        requires
            old(self).wf(),
            !old(self)@.in_file(),
        ensures
            final(self).wf(),
            (final(self)@, request@) == old(self)@.next_file(),
    {
        if self.index < self.files.len() {
            self.stage = JobStage::AskedCancel;
            JobRequest::ReadCancel
        } else {
            self.stage = JobStage::Closed;
            JobRequest::Send(WorkerMessage::Finished)
        }
    }

    fn ask_exists(&mut self) -> (request: JobRequest)
        requires
            old(self).wf(),
            old(self)@.in_file(),
        ensures
            final(self).wf(),
            (final(self)@, request@) == old(self)@.ask_exists(),
    {
        let output = copy_path(&self.files[self.index].output);
        self.stage = JobStage::AskedExists;
        JobRequest::CheckExists(output)
    }

    /// Takes in how the last request went, and decides what is to be done next.
    pub fn step(&mut self, reply: JobReply) -> (request: JobRequest)
        requires
            old(self).wf(),
            old(self)@.accepts(reply@),
        ensures
            final(self).wf(),
            (final(self)@, request@) == old(self)@.step(reply@),
    {
        match self.stage {
            JobStage::Begin => {
                self.stage = JobStage::Opened;
                JobRequest::Send(WorkerMessage::Started { total: self.files.len() })
            },
            JobStage::Opened => match parent(&self.ffmpeg) {
                Some(dir) => {
                    self.stage = JobStage::Idle;
                    JobRequest::PrependPath(dir)
                },
                None => self.next_file(),
            },
            JobStage::Idle => self.next_file(),
            JobStage::AskedCancel => match reply {
                JobReply::Answer(true) => self.finish_file(
                    FileStatus::Skipped,
                    "Отменено".to_owned(),
                ),
                _ => {
                    let path = copy_path(&self.files[self.index].input);
                    self.stage = JobStage::Announced;
                    JobRequest::Send(WorkerMessage::FileStarted { path })
                },
            },
            JobStage::Announced => match parent(&self.files[self.index].output) {
                Some(dir) => {
                    self.stage = JobStage::AskedDir;
                    JobRequest::CreateDir(dir)
                },
                None => self.ask_exists(),
            },
            JobStage::AskedDir => match reply {
                JobReply::Outcome(Err(error)) => {
                    let message = missing_dir_message(&self.files[self.index].output, error);
                    self.finish_file(FileStatus::Failed, message)
                },
                _ => self.ask_exists(),
            },
            JobStage::AskedExists => {
                let exists = match reply {
                    JobReply::Answer(answer) => answer,
                    _ => false,
                };
                if exists && !self.overwrite {
                    let mut message = "уже есть ".to_owned();
                    message.append(display(&self.files[self.index].output).as_str());
                    self.finish_file(FileStatus::Skipped, message)
                } else {
                    let command = ffmpeg_command(
                        &self.ffmpeg,
                        &self.files[self.index].input,
                        &self.files[self.index].output,
                        self.channels,
                        self.quality,
                        self.sample_rate,
                    );
                    self.stage = JobStage::AskedRun;
                    JobRequest::Run(command)
                }
            },
            JobStage::AskedRun => match reply {
                JobReply::Exit(run) => match conversion_result(run) {
                    Ok(_) => {
                        let message = name_text_or(&self.files[self.index].output, "ogg");
                        self.finish_file(FileStatus::Success, message)
                    },
                    Err(message) => self.finish_file(FileStatus::Failed, message),
                },
                _ => JobRequest::Stop,
            },
            JobStage::Closed => JobRequest::Stop,
        }
    }
}

fn missing_dir_message(output: &PathBuf, error: String) -> (message: String)
    ensures
        message@ == missing_dir_text(path::path_bytes(*output), error@),
{
    match parent(output) {
        Some(dir) => {
            let mut message = "Нет папки ".to_owned();
            message.append(display(&dir).as_str());
            message.append(": ");
            message.append(error.as_str());
            message
        },
        None => error,
    }
}

} // verus!
