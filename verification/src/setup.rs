//! Getting hold of a working FFmpeg.
//!
//! [`Setup`] decides what is tried next. Its caller touches the file system, runs programs and
//! downloads, and hands back how it went.

use std::path::PathBuf;
use vstd::prelude::*;
use vstd::string::*;
use vstd::utf8::*;
use crate::command;
use crate::ffmpeg;
use crate::ffmpeg::{bin_name, Platform, EMBEDDED_MINIMUM};
use crate::path;
use crate::path::{copy_path, join_text, parent};

verus! {

/// What the setup waits for.
#[derive(Debug, Clone, Copy, PartialEq, Eq, Structural)]
pub enum SetupStage {
    /// Nothing has been done yet.
    Begin,
    /// The cache directory is being made.
    MakingCache,
    /// The FFmpeg in the cache is being tried.
    ProbingCache,
    /// The embedded FFmpeg is being written into the cache.
    Writing,
    /// The written FFmpeg is being made executable.
    MarkingWritten,
    /// The written FFmpeg is being tried.
    ProbingWritten,
    /// An installed FFmpeg is being looked for.
    Searching,
    /// The installed FFmpeg is being tried.
    ProbingLocal,
    /// The installed FFmpeg is being copied into the cache with its libraries.
    Copying,
    /// The copied FFmpeg is being tried.
    ProbingCopy,
    /// FFmpeg is being downloaded into the cache.
    Downloading,
    /// The downloaded FFmpeg is being made executable.
    MarkingDownload,
    /// The downloaded FFmpeg is being tried.
    ProbingDownload,
    /// The setup has ended.
    Ended,
}

/// What the caller of a setup is to do.
#[derive(Debug)]
pub enum SetupRequest {
    /// Make a directory and all above it.
    CreateDir(PathBuf),
    /// Try whether the FFmpeg at a path works.
    Probe(PathBuf),
    /// Write the embedded FFmpeg to a path.
    WriteEmbedded(PathBuf),
    /// Make a file executable.
    MakeExecutable(PathBuf),
    /// Look for an installed FFmpeg.
    FindLocal,
    /// Copy the files of a directory into another.
    CopyFiles { from: PathBuf, to: PathBuf },
    /// Download FFmpeg to a path.
    Download(PathBuf),
    /// Nothing more is to be done: this is the FFmpeg, or why there is none.
    Finish(Result<PathBuf, String>),
}

/// A request as contracts see it.
pub enum SetupRequestView {
    CreateDir(Seq<u8>),
    Probe(Seq<u8>),
    WriteEmbedded(Seq<u8>),
    MakeExecutable(Seq<u8>),
    FindLocal,
    CopyFiles { from: Seq<u8>, to: Seq<u8> },
    Download(Seq<u8>),
    Finish(Result<Seq<u8>, Seq<char>>),
}

/// The end of a setup as contracts see it.
pub open spec fn end_view(result: Result<PathBuf, String>) -> Result<Seq<u8>, Seq<char>> {
    match result {
        Ok(found) => Ok(path::path_bytes(found)),
        Err(error) => Err(error@),
    }
}

impl View for SetupRequest {
    type V = SetupRequestView;

    open spec fn view(&self) -> SetupRequestView {
        match self {
            SetupRequest::CreateDir(dir) => SetupRequestView::CreateDir(path::path_bytes(*dir)),
            SetupRequest::Probe(file) => SetupRequestView::Probe(path::path_bytes(*file)),
            SetupRequest::WriteEmbedded(file) => SetupRequestView::WriteEmbedded(
                path::path_bytes(*file),
            ),
            SetupRequest::MakeExecutable(file) => SetupRequestView::MakeExecutable(
                path::path_bytes(*file),
            ),
            SetupRequest::FindLocal => SetupRequestView::FindLocal,
            SetupRequest::CopyFiles { from, to } => SetupRequestView::CopyFiles {
                from: path::path_bytes(*from),
                to: path::path_bytes(*to),
            },
            SetupRequest::Download(file) => SetupRequestView::Download(path::path_bytes(*file)),
            SetupRequest::Finish(result) => SetupRequestView::Finish(end_view(*result)),
        }
    }
}

/// How what was requested went.
#[derive(Debug)]
pub enum SetupReply {
    /// Nothing is told.
    Nothing,
    /// It succeeded, or failed for a reason.
    Outcome(Result<(), String>),
    /// Whether the FFmpeg that was tried works.
    Works(bool),
    /// The installed FFmpeg, if there is one.
    Found(Option<PathBuf>),
}

/// A reply as contracts see it.
pub enum SetupReplyView {
    Nothing,
    Outcome(Result<(), Seq<char>>),
    Works(bool),
    Found(Option<Seq<u8>>),
}

impl View for SetupReply {
    type V = SetupReplyView;

    open spec fn view(&self) -> SetupReplyView {
        match self {
            SetupReply::Nothing => SetupReplyView::Nothing,
            SetupReply::Outcome(outcome) => SetupReplyView::Outcome(command::unit_view(*outcome)),
            SetupReply::Works(works) => SetupReplyView::Works(*works),
            SetupReply::Found(found) => SetupReplyView::Found(path::option_bytes(*found)),
        }
    }
}

/// A setup under way.
#[derive(Debug)]
pub struct Setup {
    /// The directory that FFmpeg is kept in.
    pub cache: PathBuf,
    /// Where FFmpeg lies in that directory.
    pub dest: PathBuf,
    /// The number of bytes of the embedded FFmpeg.
    pub embedded_len: usize,
    /// The installed FFmpeg, once it has been found.
    pub local: Option<PathBuf>,
    pub stage: SetupStage,
}

/// A setup as contracts see it.
pub struct SetupView {
    pub cache: Seq<u8>,
    pub dest: Seq<u8>,
    pub embedded_len: nat,
    pub local: Option<Seq<u8>>,
    pub stage: SetupStage,
}

impl View for Setup {
    type V = SetupView;

    open spec fn view(&self) -> SetupView {
        SetupView {
            cache: path::path_bytes(self.cache),
            dest: path::path_bytes(self.dest),
            embedded_len: self.embedded_len as nat,
            local: path::option_bytes(self.local),
            stage: self.stage,
        }
    }
}

impl SetupView {
    /// Whether there is an installed FFmpeg where one is being worked with.
    pub open spec fn wf(self) -> bool {
        self.stage is ProbingLocal ==> self.local is Some
    }

    /// Whether a reply is of the kind that the setup waits for.
    pub open spec fn accepts(self, reply: SetupReplyView) -> bool {
        match self.stage {
            SetupStage::Begin => true,
            SetupStage::MakingCache
            | SetupStage::Writing
            | SetupStage::MarkingWritten
            | SetupStage::Copying
            | SetupStage::Downloading
            | SetupStage::MarkingDownload => reply is Outcome,
            SetupStage::ProbingCache
            | SetupStage::ProbingWritten
            | SetupStage::ProbingLocal
            | SetupStage::ProbingCopy
            | SetupStage::ProbingDownload => reply is Works,
            SetupStage::Searching => reply is Found,
            SetupStage::Ended => false,
        }
    }

    /// The setup waiting for something else.
    pub open spec fn at(self, stage: SetupStage) -> SetupView {
        SetupView { stage, ..self }
    }

    /// The end.
    pub open spec fn end(self, result: Result<Seq<u8>, Seq<char>>) -> (
        SetupView,
        SetupRequestView,
    ) {
        (self.at(SetupStage::Ended), SetupRequestView::Finish(result))
    }

    /// The try of the FFmpeg in the cache.
    pub open spec fn probe_dest(self, stage: SetupStage) -> (SetupView, SetupRequestView) {
        (self.at(stage), SetupRequestView::Probe(self.dest))
    }

    /// The download.
    pub open spec fn download(self) -> (SetupView, SetupRequestView) {
        (self.at(SetupStage::Downloading), SetupRequestView::Download(self.dest))
    }

    /// What happens on a reply.
    pub open spec fn step(self, reply: SetupReplyView) -> (SetupView, SetupRequestView) {
        let outcome = reply->Outcome_0;
        let works = reply == SetupReplyView::Works(true);
        match self.stage {
            SetupStage::Begin => (
                self.at(SetupStage::MakingCache),
                SetupRequestView::CreateDir(self.cache),
            ),
            SetupStage::MakingCache => match outcome {
                Err(error) => self.end(Err("Не удалось создать кэш FFmpeg: "@ + error)),
                Ok(_) => self.probe_dest(SetupStage::ProbingCache),
            },
            SetupStage::ProbingCache => if works {
                self.end(Ok(self.dest))
            } else if self.embedded_len > EMBEDDED_MINIMUM {
                (self.at(SetupStage::Writing), SetupRequestView::WriteEmbedded(self.dest))
            } else {
                (self.at(SetupStage::Searching), SetupRequestView::FindLocal)
            },
            SetupStage::Writing => match outcome {
                Err(error) => self.end(Err(error)),
                Ok(_) => (
                    self.at(SetupStage::MarkingWritten),
                    SetupRequestView::MakeExecutable(self.dest),
                ),
            },
            SetupStage::MarkingWritten => match outcome {
                Err(error) => self.end(Err(error)),
                Ok(_) => self.probe_dest(SetupStage::ProbingWritten),
            },
            SetupStage::ProbingWritten => if works {
                self.end(Ok(self.dest))
            } else {
                self.end(
                    Err(
                        "Встроенный FFmpeg не запустился. Антивирус мог заблокировать файл."@,
                    ),
                )
            },
            SetupStage::Searching => match reply->Found_0 {
                Some(local) => (
                    SetupView { local: Some(local), stage: SetupStage::ProbingLocal, ..self },
                    SetupRequestView::Probe(local),
                ),
                None => self.download(),
            },
            SetupStage::ProbingLocal => if works {
                self.end(Ok(self.local->0))
            } else {
                match path::parent_of(self.local->0) {
                    Some(dir) => (
                        self.at(SetupStage::Copying),
                        SetupRequestView::CopyFiles { from: dir, to: self.cache },
                    ),
                    None => self.download(),
                }
            },
            SetupStage::Copying => match outcome {
                Err(error) => self.end(Err(error)),
                Ok(_) => self.probe_dest(SetupStage::ProbingCopy),
            },
            SetupStage::ProbingCopy => if works {
                self.end(Ok(self.dest))
            } else {
                self.download()
            },
            SetupStage::Downloading => match outcome {
                Err(error) => self.end(Err(error)),
                Ok(_) => (
                    self.at(SetupStage::MarkingDownload),
                    SetupRequestView::MakeExecutable(self.dest),
                ),
            },
            SetupStage::MarkingDownload => match outcome {
                Err(error) => self.end(Err(error)),
                Ok(_) => self.probe_dest(SetupStage::ProbingDownload),
            },
            SetupStage::ProbingDownload => if works {
                self.end(Ok(self.dest))
            } else {
                self.end(Err("FFmpeg скачан, но не запускается."@))
            },
            SetupStage::Ended => self.end(Err(Seq::empty())),
        }
    }
}

/// A setup that has not begun, for the cache directory `cache`.
pub fn prepare(platform: Platform, cache: PathBuf, embedded_len: usize) -> (setup: Setup)
    ensures
        setup.wf(),
        setup@ == (SetupView {
            cache: path::path_bytes(cache),
            dest: path::joined(
                path::path_bytes(cache),
                encode_utf8(ffmpeg::program_name(platform)),
            ),
            embedded_len: embedded_len as nat,
            local: None,
            stage: SetupStage::Begin,
        }),
{
    let dest = join_text(&cache, bin_name(platform));
    Setup { cache, dest, embedded_len, local: None, stage: SetupStage::Begin }
}

impl Setup {
    /// Whether there is an installed FFmpeg where one is being worked with.
    pub open spec fn wf(&self) -> bool {
        self@.wf()
    }

    fn end(&mut self, result: Result<PathBuf, String>) -> (request: SetupRequest)
        ensures
            final(self).wf(),
            (final(self)@, request@) == old(self)@.end(end_view(result)),
    {
        self.stage = SetupStage::Ended;
        SetupRequest::Finish(result)
    }

    fn end_at_dest(&mut self) -> (request: SetupRequest)
        ensures
            final(self).wf(),
            (final(self)@, request@) == old(self)@.end(Ok(old(self)@.dest)),
    {
        let dest = copy_path(&self.dest);
        self.end(Ok(dest))
    }

    fn probe_dest(&mut self, stage: SetupStage) -> (request: SetupRequest)
        requires
            !(stage is ProbingLocal),
        ensures
            final(self).wf(),
            (final(self)@, request@) == old(self)@.probe_dest(stage),
    {
        self.stage = stage;
        SetupRequest::Probe(copy_path(&self.dest))
    }

    fn download(&mut self) -> (request: SetupRequest)
        ensures
            final(self).wf(),
            (final(self)@, request@) == old(self)@.download(),
    {
        self.stage = SetupStage::Downloading;
        SetupRequest::Download(copy_path(&self.dest))
    }

    fn make_executable(&mut self, stage: SetupStage) -> (request: SetupRequest)
        requires
            !(stage is ProbingLocal),
        ensures
            final(self).wf(),
            (final(self)@, request@) == (
                old(self)@.at(stage),
                SetupRequestView::MakeExecutable(old(self)@.dest),
            ),
    {
        self.stage = stage;
        SetupRequest::MakeExecutable(copy_path(&self.dest))
    }

    /// What follows on a step that could fail: the end, if it did fail.
    fn failed(&mut self, reply: SetupReply) -> (request: Option<SetupRequest>)
        requires
            old(self).wf(),
            reply@ is Outcome,
        ensures
            final(self).wf(),
            match reply@->Outcome_0 {
                Err(error) => request is Some && (final(self)@, request->0@) == old(self)@.end(
                    Err(error),
                ),
                Ok(_) => request is None && final(self)@ == old(self)@,
            },
    {
        match reply {
            SetupReply::Outcome(Err(error)) => Some(self.end(Err(error))),
            _ => None,
        }
    }

    /// Takes in how the last request went, and decides what is to be done next.
    pub fn step(&mut self, reply: SetupReply) -> (request: SetupRequest)
        requires
            old(self).wf(),
            old(self)@.accepts(reply@),
        ensures
            final(self).wf(),
            (final(self)@, request@) == old(self)@.step(reply@),
    {
        let works = match &reply {
            SetupReply::Works(answer) => *answer,
            _ => false,
        };
        match self.stage {
            SetupStage::Begin => {
                self.stage = SetupStage::MakingCache;
                SetupRequest::CreateDir(copy_path(&self.cache))
            },
            SetupStage::MakingCache => match reply {
                SetupReply::Outcome(Err(error)) => {
                    let mut message = "Не удалось создать кэш FFmpeg: ".to_owned();
                    message.append(error.as_str());
                    self.end(Err(message))
                },
                _ => self.probe_dest(SetupStage::ProbingCache),
            },
            SetupStage::ProbingCache => {
                if works {
                    self.end_at_dest()
                } else if self.embedded_len > EMBEDDED_MINIMUM {
                    self.stage = SetupStage::Writing;
                    SetupRequest::WriteEmbedded(copy_path(&self.dest))
                } else {
                    self.stage = SetupStage::Searching;
                    SetupRequest::FindLocal
                }
            },
            SetupStage::Writing => match self.failed(reply) {
                Some(request) => request,
                None => self.make_executable(SetupStage::MarkingWritten),
            },
            SetupStage::MarkingWritten => match self.failed(reply) {
                Some(request) => request,
                None => self.probe_dest(SetupStage::ProbingWritten),
            },
            SetupStage::ProbingWritten => {
                if works {
                    self.end_at_dest()
                } else {
                    self.end(
                        Err(
                            "Встроенный FFmpeg не запустился. Антивирус мог заблокировать файл.".to_owned(),
                        ),
                    )
                }
            },
            SetupStage::Searching => match reply {
                SetupReply::Found(Some(local)) => {
                    let probed = copy_path(&local);
                    self.local = Some(local);
                    self.stage = SetupStage::ProbingLocal;
                    SetupRequest::Probe(probed)
                },
                _ => self.download(),
            },
            SetupStage::ProbingLocal => match &self.local {
                Some(local) => {
                    if works {
                        let found = copy_path(local);
                        self.end(Ok(found))
                    } else {
                        match parent(local) {
                            Some(from) => {
                                self.stage = SetupStage::Copying;
                                SetupRequest::CopyFiles { from, to: copy_path(&self.cache) }
                            },
                            None => self.download(),
                        }
                    }
                },
                None => self.download(),
            },
            SetupStage::Copying => match self.failed(reply) {
                Some(request) => request,
                None => self.probe_dest(SetupStage::ProbingCopy),
            },
            SetupStage::ProbingCopy => {
                if works {
                    self.end_at_dest()
                } else {
                    self.download()
                }
            },
            SetupStage::Downloading => match self.failed(reply) {
                Some(request) => request,
                None => self.make_executable(SetupStage::MarkingDownload),
            },
            SetupStage::MarkingDownload => match self.failed(reply) {
                Some(request) => request,
                None => self.probe_dest(SetupStage::ProbingDownload),
            },
            SetupStage::ProbingDownload => {
                if works {
                    self.end_at_dest()
                } else {
                    self.end(Err("FFmpeg скачан, но не запускается.".to_owned()))
                }
            },
            SetupStage::Ended => self.end(Err(String::new())),
        }
    }
}

} // verus!
