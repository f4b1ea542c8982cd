//! The state of the converter: its queue, its settings, and how far a batch has come.

use std::path::PathBuf;
use vstd::prelude::*;
use vstd::string::*;
use vstd::utf8::*;
use crate::job;
use crate::job::{AudioFile, ConvertJob, WorkerMessage};
use crate::output;
use crate::path;
use crate::path::{copy_option, copy_path, display, join_text, name_text_or, parent, path_from};
use crate::queue;
use crate::queue::{
    drop_failed, enqueue, mark_ended, mark_running, queue_paths, reset, QueueFile,
};
use crate::settings;
use crate::settings::Settings;
use crate::setup;
use crate::status::{FileStatus, Tone};
use crate::text;
use crate::text::{decimal_text, signed_decimal_text};

verus! {

/// The number of lines that the log keeps.
pub const LOG_LIMIT: usize = 400;

/// What a path leads to.
#[derive(Debug, Clone, Copy, PartialEq, Eq, Structural)]
pub enum PathKind {
    File,
    Directory,
    Other,
}

/// An entry of a directory.
#[derive(Debug)]
pub struct DirItem {
    pub path: PathBuf,
    pub kind: PathKind,
}

/// An entry of a directory as contracts see it.
pub struct ItemView {
    pub path: Seq<u8>,
    pub kind: PathKind,
}

impl View for DirItem {
    type V = ItemView;

    open spec fn view(&self) -> ItemView {
        ItemView { path: path::path_bytes(self.path), kind: self.kind }
    }
}

/// The views of the entries of a directory.
pub open spec fn item_views(items: Seq<DirItem>) -> Seq<ItemView> {
    Seq::new(items.len(), |i: int| items[i]@)
}

/// The listing of a directory as contracts see it: its entries, or why it could not be read.
pub open spec fn listing_view(listing: Result<Vec<DirItem>, String>) -> Result<
    Seq<ItemView>,
    Seq<char>,
> {
    match listing {
        Ok(items) => Ok(item_views(items@)),
        Err(error) => Err(error@),
    }
}

/// The state of the converter.
#[derive(Debug)]
pub struct App {
    pub files: Vec<QueueFile>,
    pub output_dir: Option<PathBuf>,
    pub settings: Settings,
    pub converting: bool,
    pub current_file: Option<PathBuf>,
    pub completed: usize,
    pub total: usize,
    pub success_count: usize,
    pub fail_count: usize,
    pub skip_count: usize,
    pub logs: Vec<(Tone, String)>,
    /// Whether there is a batch that can be asked to stop.
    pub can_cancel: bool,
    pub ffmpeg_path: Option<PathBuf>,
    /// Whether FFmpeg is being looked for.
    pub preparing: bool,
    pub status: String,
    pub dragging: bool,
}

/// The state of the converter as contracts see it.
#[verifier::ext_equal]
pub struct AppView {
    pub files: Seq<queue::FileView>,
    pub output_dir: Option<Seq<u8>>,
    pub settings: settings::SettingsView,
    pub converting: bool,
    pub current_file: Option<Seq<u8>>,
    pub completed: nat,
    pub total: nat,
    pub success_count: nat,
    pub fail_count: nat,
    pub skip_count: nat,
    pub logs: Seq<(Tone, Seq<char>)>,
    pub can_cancel: bool,
    pub ffmpeg_path: Option<Seq<u8>>,
    pub preparing: bool,
    pub status: Seq<char>,
    pub dragging: bool,
}

/// The views of the lines of a log.
pub open spec fn log_views(logs: Seq<(Tone, String)>) -> Seq<(Tone, Seq<char>)> {
    Seq::new(logs.len(), |i: int| (logs[i].0, logs[i].1@))
}

impl View for App {
    type V = AppView;

    open spec fn view(&self) -> AppView {
        AppView {
            files: queue::file_views(self.files@),
            output_dir: path::option_bytes(self.output_dir),
            settings: self.settings@,
            converting: self.converting,
            current_file: path::option_bytes(self.current_file),
            completed: self.completed as nat,
            total: self.total as nat,
            success_count: self.success_count as nat,
            fail_count: self.fail_count as nat,
            skip_count: self.skip_count as nat,
            logs: log_views(self.logs@),
            can_cancel: self.can_cancel,
            ffmpeg_path: path::option_bytes(self.ffmpeg_path),
            preparing: self.preparing,
            status: self.status@,
            dragging: self.dragging,
        }
    }
}

/// The state before anything has happened.
pub open spec fn initial() -> AppView {
    AppView {
        files: Seq::empty(),
        output_dir: None,
        settings: settings::default_settings(),
        converting: false,
        current_file: None,
        completed: 0,
        total: 0,
        success_count: 0,
        fail_count: 0,
        skip_count: 0,
        logs: Seq::empty(),
        can_cancel: false,
        ffmpeg_path: None,
        preparing: false,
        status: "Готов к работе"@,
        dragging: false,
    }
}

/// What is shown of the three counts when a batch has ended.
pub open spec fn summary(success: nat, fail: nat, skip: nat) -> Seq<char> {
    "Готово · ок "@ + text::decimal(success) + ", ошибок "@ + text::decimal(fail) + ", пропуск "@
        + text::decimal(skip)
}

/// What is logged of a file that has been dealt with.
pub open spec fn end_line(path: Seq<u8>, status: FileStatus, message: Seq<char>) -> Seq<char> {
    status.word() + " · "@ + path::name_or(path, "файл"@) + " · "@ + message
}

/// What is logged when a batch starts.
pub open spec fn start_line(count: nat, quality: int) -> Seq<char> {
    "Старт: "@ + text::decimal(count) + " файл(ов) → OGG Vorbis Q"@ + text::signed_decimal(quality)
}

/// A queue with the audio files among directory entries put in, in their order.
pub open spec fn with_items(files: Seq<queue::FileView>, items: Seq<ItemView>) -> Seq<
    queue::FileView,
>
    decreases items.len(),
{
    if items.len() == 0 {
        files
    } else {
        let before = with_items(files, items.drop_last());
        let item = items.last();
        if item.kind == PathKind::File && queue::is_audio_path(item.path) {
            queue::with_path(before, item.path)
        } else {
            before
        }
    }
}

/// The directories among directory entries, in their order.
pub open spec fn directories(items: Seq<ItemView>) -> Seq<Seq<u8>>
    decreases items.len(),
{
    if items.len() == 0 {
        Seq::empty()
    } else {
        let before = directories(items.drop_last());
        if items.last().kind == PathKind::Directory {
            before.push(items.last().path)
        } else {
            before
        }
    }
}

/// The batch of a queue: its files in its order, each with its output.
pub open spec fn batch_files(inputs: Seq<Seq<u8>>, outputs: Seq<Seq<u8>>) -> Seq<job::AudioView> {
    Seq::new(inputs.len(), |i: int| job::AudioView { input: inputs[i], output: outputs[i] })
}

/// The outputs of a batch.
pub open spec fn batch_outputs(files: Seq<job::AudioView>) -> Seq<Seq<u8>> {
    Seq::new(files.len(), |i: int| files[i].output)
}

/// Whether a queued file was converted.
pub open spec fn is_success(file: queue::FileView) -> bool {
    file.status == FileStatus::Success
}

/// The directory of the first file that was converted, if there is one.
pub open spec fn success_folder(files: Seq<queue::FileView>) -> Option<Seq<u8>>
    decreases files.len(),
{
    if files.len() == 0 {
        None
    } else if is_success(files[0]) {
        path::parent_of(files[0].path)
    } else {
        success_folder(files.drop_first())
    }
}

/// How many of these messages tell the end of a file.
pub open spec fn files_ended(messages: Seq<job::MessageView>) -> nat
    decreases messages.len(),
{
    if messages.len() == 0 {
        0
    } else {
        files_ended(messages.drop_last()) + if messages.last() is FileFinished {
            1nat
        } else {
            0nat
        }
    }
}

impl AppView {
    /// Whether the log is within its limit, the counts fit together, and no path is queued twice.
    pub open spec fn wf(self) -> bool {
        &&& self.logs.len() <= LOG_LIMIT
        &&& self.success_count + self.fail_count + self.skip_count <= self.completed
        &&& queue::all_different(self.files)
    }

    /// With a line put at the end of the log. Beyond the limit the oldest line goes.
    pub open spec fn log(self, tone: Tone, message: Seq<char>) -> AppView {
        let all = self.logs.push((tone, message));
        AppView {
            logs: if all.len() > LOG_LIMIT {
                all.drop_first()
            } else {
                all
            },
            ..self
        }
    }

    /// With the search for FFmpeg begun.
    pub open spec fn search_begun(self) -> AppView {
        (AppView { status: "Подготовка FFmpeg…"@, preparing: true, ..self }).log(
            Tone::Muted,
            "Готовлю FFmpeg для конвертации…"@,
        )
    }

    /// With the search for FFmpeg ended.
    pub open spec fn search_ended(self, result: Result<Seq<u8>, Seq<char>>) -> AppView {
        match result {
            Ok(found) => (AppView {
                preparing: false,
                ffmpeg_path: Some(found),
                status: if self.converting {
                    self.status
                } else {
                    "Готов к работе"@
                },
                ..self
            }).log(Tone::Muted, "FFmpeg готов. Можно конвертировать в OGG Vorbis."@),
            Err(error) => (AppView { preparing: false, status: "Нет FFmpeg"@, ..self }).log(
                Tone::Bad,
                "FFmpeg: "@ + error,
            ),
        }
    }

    /// With settings that were read taken over.
    pub open spec fn loaded(self, read: settings::SettingsView) -> AppView {
        AppView { output_dir: read.output_dir, settings: read, ..self }
    }

    /// The settings that are to be kept.
    pub open spec fn saved(self) -> settings::SettingsView {
        settings::SettingsView { output_dir: self.output_dir, ..self.settings }
    }

    /// With a path offered to the queue: an audio file goes in.
    pub open spec fn offered(self, path: Seq<u8>, kind: PathKind) -> AppView {
        if kind == PathKind::File && queue::is_audio_path(path) {
            AppView { files: queue::with_path(self.files, path), ..self }
        } else {
            self
        }
    }

    /// With the listing of a directory taken in.
    pub open spec fn listed(
        self,
        dir: Seq<u8>,
        listing: Result<Seq<ItemView>, Seq<char>>,
    ) -> AppView {
        match listing {
            Ok(items) => AppView { files: with_items(self.files, items), ..self },
            Err(error) => self.log(
                Tone::Bad,
                "Не удалось прочитать "@ + path::displayed(dir) + ": "@ + error,
            ),
        }
    }

    /// The directories that are still to be listed after a listing was taken in.
    pub open spec fn still_to_list(
        self,
        rest: Seq<Seq<u8>>,
        listing: Result<Seq<ItemView>, Seq<char>>,
    ) -> Seq<Seq<u8>> {
        match listing {
            Ok(items) => if self.settings.recursive {
                rest + directories(items)
            } else {
                rest
            },
            Err(_) => rest,
        }
    }

    /// Whether a batch can start.
    pub open spec fn can_start(self) -> bool {
        !self.converting && self.files.len() > 0 && self.ffmpeg_path is Some
    }

    /// With a batch started.
    pub open spec fn started(self) -> AppView {
        (AppView {
            files: queue::all_waiting(self.files),
            can_cancel: true,
            converting: true,
            completed: 0,
            total: self.files.len(),
            success_count: 0,
            fail_count: 0,
            skip_count: 0,
            current_file: None,
            status: "Конвертация…"@,
            ..self
        }).log(Tone::Accent, start_line(self.files.len(), self.settings.quality))
    }

    /// With the start of a batch asked for: it starts if it can, else why not is logged.
    pub open spec fn start_asked(self) -> AppView {
        if self.converting {
            self
        } else if self.files.len() == 0 {
            self.log(Tone::Warning, "Нет файлов для конвертации."@)
        } else if self.ffmpeg_path is None {
            self.log(Tone::Bad, "FFmpeg недоступен."@)
        } else {
            self.started()
        }
    }

    /// Whether `batch` is the batch that this state's queue and settings call for.
    pub open spec fn calls_for(self, batch: job::JobView) -> bool {
        let inputs = queue::file_paths(self.files);
        let outputs = batch_outputs(batch.files);
        &&& output::outputs_for(self.output_dir, inputs, outputs)
        &&& batch == (job::JobView {
            ffmpeg: self.ffmpeg_path->0,
            files: batch_files(inputs, outputs),
            channels: self.settings.channels,
            quality: self.settings.quality,
            overwrite: self.settings.overwrite,
            sample_rate: self.settings.sample_rate,
            index: 0,
            stage: job::JobStage::Begin,
        })
    }

    /// With a stop asked for, if there is a batch to stop.
    pub open spec fn stop_asked(self) -> AppView {
        if self.can_cancel {
            (AppView { status: "Остановка…"@, ..self }).log(
                Tone::Warning,
                "Остановка после текущего файла."@,
            )
        } else {
            self
        }
    }

    /// With a message of a batch taken in.
    pub open spec fn received(self, message: job::MessageView) -> AppView {
        match message {
            job::MessageView::Started { total } => AppView { total, ..self },
            job::MessageView::FileStarted { path } => AppView {
                current_file: Some(path),
                files: queue::with_change(self.files, path, queue::running()),
                status: "Конвертация: "@ + path::name_or(path, "файл"@),
                ..self
            },
            job::MessageView::FileFinished { path, status, message } => (AppView {
                completed: self.completed + 1,
                success_count: if status == FileStatus::Success {
                    self.success_count + 1
                } else {
                    self.success_count
                },
                fail_count: if status == FileStatus::Failed {
                    self.fail_count + 1
                } else {
                    self.fail_count
                },
                skip_count: if status == FileStatus::Skipped {
                    self.skip_count + 1
                } else {
                    self.skip_count
                },
                files: queue::with_change(self.files, path, queue::ended(status, message)),
                ..self
            }).log(status.tone(), end_line(path, status, message)),
            job::MessageView::Finished => (AppView {
                converting: false,
                current_file: None,
                can_cancel: false,
                status: summary(self.success_count, self.fail_count, self.skip_count),
                ..self
            }).log(Tone::Text, "Конвертация завершена."@),
        }
    }

    /// With messages taken in, one after another.
    pub open spec fn received_all(self, messages: Seq<job::MessageView>) -> AppView
        decreases messages.len(),
    {
        if messages.len() == 0 {
            self
        } else {
            self.received_all(messages.drop_last()).received(messages.last())
        }
    }

    /// With the queue emptied and the counts back at zero.
    pub open spec fn cleared(self) -> AppView {
        AppView {
            files: Seq::empty(),
            total: 0,
            completed: 0,
            success_count: 0,
            fail_count: 0,
            skip_count: 0,
            ..self
        }
    }

    /// The folder to be shown to the user: the chosen one, or that of the first file that was
    /// converted, or that of the first file.
    pub open spec fn folder(self) -> Option<Seq<u8>> {
        if self.output_dir is Some {
            self.output_dir
        } else if success_folder(self.files) is Some {
            success_folder(self.files)
        } else if self.files.len() > 0 {
            path::parent_of(self.files[0].path)
        } else {
            None
        }
    }
}

/// The views of a list of messages.
pub open spec fn message_views(messages: Seq<WorkerMessage>) -> Seq<job::MessageView> {
    Seq::new(messages.len(), |i: int| messages[i]@)
}

/// The settings file, beside the program where that is known.
pub open spec fn settings_file(exe: Option<Seq<u8>>) -> Seq<u8> {
    let program = match exe {
        Some(e) => e,
        None => encode_utf8("."@),
    };
    let dir = match path::parent_of(program) {
        Some(d) => d,
        None => encode_utf8("."@),
    };
    path::joined(dir, encode_utf8("settings.json"@))
}

impl Default for App {
    /// The state before anything has happened.
    fn default() -> (app: Self)
        ensures
            app@ == initial(),
            app.wf(),
    {
        let app = App {
            files: Vec::new(),
            output_dir: None,
            settings: Settings::default(),
            converting: false,
            current_file: None,
            completed: 0,
            total: 0,
            success_count: 0,
            fail_count: 0,
            skip_count: 0,
            logs: Vec::new(),
            can_cancel: false,
            ffmpeg_path: None,
            preparing: false,
            status: "Готов к работе".to_owned(),
            dragging: false,
        };
        assert(app@ =~= initial());
        app
    }
}

impl App {
    /// Whether the log is within its limit, the counts fit together, and no path is queued twice.
    pub open spec fn wf(&self) -> bool {
        self@.wf()
    }

    /// The state at the start of the program: settings are taken over where they could be read,
    /// and the search for FFmpeg begins.
    pub fn new(read: Option<Settings>) -> (app: App)
        ensures
            app.wf(),
            app@ == (match read {
                Some(settings) => initial().loaded(settings@),
                None => initial(),
            }).search_begun(),
    {
        let mut app = App::default();
        app.load_settings(read);
        app.start_ffmpeg_setup();
        app
    }

    /// Puts a line at the end of the log. Beyond the limit the oldest line goes.
    pub fn log(&mut self, tone: Tone, message: String)
        requires
            old(self).wf(),
        ensures
            final(self).wf(),
            final(self)@ == old(self)@.log(tone, message@),
    {
        let ghost before = log_views(self.logs@);
        let ghost line = (tone, message@);
        self.logs.push((tone, message));
        assert(log_views(self.logs@) =~= before.push(line));
        if self.logs.len() > LOG_LIMIT {
            self.logs.remove(0);
            assert(log_views(self.logs@) =~= before.push(line).drop_first());
        }
    }

    /// Begins the search for FFmpeg.
    pub fn start_ffmpeg_setup(&mut self)
        requires
            old(self).wf(),
        ensures
            final(self).wf(),
            final(self)@ == old(self)@.search_begun(),
    {
        self.status = "Подготовка FFmpeg…".to_owned();
        self.preparing = true;
        self.log(Tone::Muted, "Готовлю FFmpeg для конвертации…".to_owned());
    }

    /// Takes in the end of the search for FFmpeg, if it has come.
    pub fn poll_ffmpeg(&mut self, received: Option<Result<PathBuf, String>>)
        requires
            old(self).wf(),
        ensures
            final(self).wf(),
            final(self)@ == match received {
                Some(result) => if old(self)@.preparing {
                    old(self)@.search_ended(setup::end_view(result))
                } else {
                    old(self)@
                },
                None => old(self)@,
            },
    {
        if !self.preparing {
            return;
        }
        match received {
            None => {},
            Some(Ok(found)) => {
                self.preparing = false;
                self.ffmpeg_path = Some(found);
                if !self.converting {
                    self.status = "Готов к работе".to_owned();
                }
                self.log(
                    Tone::Muted,
                    "FFmpeg готов. Можно конвертировать в OGG Vorbis.".to_owned(),
                );
            },
            Some(Err(error)) => {
                self.preparing = false;
                self.status = "Нет FFmpeg".to_owned();
                let mut message = "FFmpeg: ".to_owned();
                message.append(error.as_str());
                self.log(Tone::Bad, message);
            },
        }
    }

    /// The settings file: beside the program, or in the current directory where the program's
    /// place is not known.
    pub fn settings_path(exe: Option<PathBuf>) -> (file: PathBuf)
        ensures
            path::path_bytes(file) == settings_file(path::option_bytes(exe)),
    {
        let program = match exe {
            Some(e) => e,
            None => path_from("."),
        };
        let dir = match parent(&program) {
            Some(d) => d,
            None => path_from("."),
        };
        join_text(&dir, "settings.json")
    }

    /// Takes over settings, if they could be read.
    pub fn load_settings(&mut self, read: Option<Settings>)
        requires
            old(self).wf(),
        ensures
            final(self).wf(),
            final(self)@ == match read {
                Some(settings) => old(self)@.loaded(settings@),
                None => old(self)@,
            },
    {
        if let Some(settings) = read {
            self.output_dir = copy_option(&settings.output_dir);
            self.settings = settings;
        }
    }

    /// The settings that are to be kept: those in force, with the chosen folder.
    pub fn save_settings(&self) -> (kept: Settings)
        ensures
            kept@ == self@.saved(),
    {
        let mut kept = self.settings.clone();
        kept.output_dir = copy_option(&self.output_dir);
        kept
    }

    /// Whether `path` has the extension of an audio file.
    pub fn is_audio(path: &PathBuf) -> (audio: bool)
        ensures
            audio == queue::is_audio_path(path::path_bytes(*path)),
    {
        crate::queue::is_audio(path)
    }

    /// Offers a path to the queue. An audio file that is not queued yet goes to its end. A
    /// directory is handed back: it is to be listed.
    pub fn add_file(&mut self, path: PathBuf, kind: PathKind) -> (to_list: Option<PathBuf>)
        requires
            old(self).wf(),
        ensures
            final(self).wf(),
            final(self)@ == old(self)@.offered(path::path_bytes(path), kind),
            to_list == (if kind == PathKind::Directory {
                Some(path)
            } else {
                None
            }),
    {
        match kind {
            PathKind::File => {
                if App::is_audio(&path) {
                    enqueue(&mut self.files, path);
                }
                None
            },
            PathKind::Directory => Some(path),
            PathKind::Other => None,
        }
    }

    /// Takes in the listing of the directory `current`. Audio files go into the queue; where
    /// nested directories count, they are put on top of `rest`, the directories that are still
    /// to be listed.
    pub fn add_directory(
        &mut self,
        rest: &mut Vec<PathBuf>,
        current: &PathBuf,
        listing: Result<Vec<DirItem>, String>,
    )
        requires
            old(self).wf(),
        ensures
            final(self).wf(),
            final(self)@ == old(self)@.listed(path::path_bytes(*current), listing_view(listing)),
            path::list_bytes(final(rest)@) == old(self)@.still_to_list(
                path::list_bytes(old(rest)@),
                listing_view(listing),
            ),
    {
        match listing {
            Err(error) => {
                let mut message = "Не удалось прочитать ".to_owned();
                message.append(display(current).as_str());
                message.append(": ");
                message.append(error.as_str());
                self.log(Tone::Bad, message);
            },
            Ok(items) => {
                let ghost before = self@;
                let ghost views = item_views(items@);
                let ghost waiting = path::list_bytes(rest@);
                let mut i: usize = 0;
                assert(views.take(0) =~= Seq::empty());
                assert(path::list_bytes(rest@) =~= waiting + directories(views.take(0)));
                while i < items.len()
                    invariant
                        i <= items.len(),
                        views == item_views(items@),
                        self.wf(),
                        self@ == (AppView {
                            files: with_items(before.files, views.take(i as int)),
                            ..before
                        }),
                        path::list_bytes(rest@) == (if before.settings.recursive {
                            waiting + directories(views.take(i as int))
                        } else {
                            waiting
                        }),
                    decreases items.len() - i,
                {
                    let ghost held = path::list_bytes(rest@);
                    proof {
                        assert(views.take(i + 1).drop_last() =~= views.take(i as int));
                        assert(views.take(i + 1).last() == items[i as int]@);
                    }
                    match items[i].kind {
                        PathKind::Directory => {
                            if self.settings.recursive {
                                rest.push(copy_path(&items[i].path));
                                assert(path::list_bytes(rest@) =~= held.push(
                                    path::path_bytes(items[i as int].path),
                                ));
                                assert(path::list_bytes(rest@) =~= waiting + directories(
                                    views.take(i + 1),
                                ));
                            }
                        },
                        PathKind::File => {
                            if App::is_audio(&items[i].path) {
                                enqueue(&mut self.files, copy_path(&items[i].path));
                            }
                        },
                        PathKind::Other => {},
                    }
                    i += 1;
                }
                assert(views.take(views.len() as int) =~= views);
            },
        }
    }

    /// The output paths of `inputs` under the chosen folder: see
    /// [`crate::output::build_output_paths`].
    pub fn build_output_paths(&self, inputs: &Vec<PathBuf>) -> (outputs: Vec<PathBuf>)
        ensures
            output::outputs_for(
                self@.output_dir,
                path::list_bytes(inputs@),
                path::list_bytes(outputs@),
            ),
            forall|i: int|
                0 <= i < inputs.len() ==> output::lies_in_target(
                    self@.output_dir,
                    path::path_bytes(inputs[i]),
                    path::path_bytes(#[trigger] outputs[i]),
                ),
            forall|i: int|
                0 <= i < inputs.len() ==> output::keeps_source_name(
                    path::option_bytes(self.output_dir),
                    path::path_bytes(inputs[i]),
                    path::list_bytes(outputs@).take(i),
                    path::path_bytes(#[trigger] outputs[i]),
                ),
    {
        crate::output::build_output_paths(&self.output_dir, inputs)
    }

    /// Starts the conversion of the whole queue, if nothing is being converted, there are files,
    /// and FFmpeg is there. The batch that comes back is then to be run.
    pub fn start_conversion(&mut self) -> (batch: Option<ConvertJob>)
        requires
            old(self).wf(),
        ensures
            final(self).wf(),
            final(self)@ == old(self)@.start_asked(),
            batch is Some == old(self)@.can_start(),
            batch matches Some(b) ==> b.wf() && old(self)@.calls_for(b@),
            batch matches Some(b) ==> b.channels == old(self).settings.channels && b.quality
                == old(self).settings.quality && b.overwrite == old(self).settings.overwrite
                && b.sample_rate == old(self).settings.sample_rate,
            batch matches Some(b) ==> old(self).ffmpeg_path is Some && path::path_bytes(b.ffmpeg)
                == path::path_bytes(old(self).ffmpeg_path->0),
            batch matches Some(b) ==> b.files.len() == old(self).files.len() && forall|i: int|
                0 <= i < b.files.len() ==> path::path_bytes((#[trigger] b.files[i]).input)
                    == path::path_bytes(old(self).files[i].path) && output::keeps_source_name(
                    path::option_bytes(old(self).output_dir),
                    path::path_bytes(old(self).files[i].path),
                    batch_outputs(b@.files).take(i),
                    path::path_bytes(b.files[i].output),
                ),
    {
        if self.converting {
            return None;
        }
        if self.files.is_empty() {
            self.log(Tone::Warning, "Нет файлов для конвертации.".to_owned());
            return None;
        }
        let ffmpeg = match &self.ffmpeg_path {
            Some(found) => copy_path(found),
            None => {
                self.log(Tone::Bad, "FFmpeg недоступен.".to_owned());
                return None;
            },
        };
        let ghost before = self@;
        reset(&mut self.files);
        let inputs = queue_paths(&self.files);
        proof {
            assert(queue::file_paths(self@.files) =~= queue::file_paths(before.files));
            queue::same_paths_different(before.files, self@.files);
        }
        let outputs = self.build_output_paths(&inputs);
        let files = pair_up(&inputs, &outputs);
        proof {
            assert(batch_outputs(job::audio_views(files@)) =~= path::list_bytes(outputs@));
            assert forall|i: int| 0 <= i < files.len() implies path::path_bytes(
                (#[trigger] files[i]).input,
            ) == path::path_bytes(old(self).files[i].path) && output::keeps_source_name(
                path::option_bytes(old(self).output_dir),
                path::path_bytes(old(self).files[i].path),
                path::list_bytes(outputs@).take(i),
                path::path_bytes(files[i].output),
            ) by {
                assert(job::audio_views(files@)[i] == files[i]@);
                assert(path::list_bytes(inputs@)[i] == before.files[i].path);
                assert(before.files[i] == old(self).files[i]@);
                assert(path::list_bytes(outputs@)[i] == path::path_bytes(outputs[i]));
            }
        }
        let count: usize = files.len();
        let batch = ConvertJob::new(
            ffmpeg,
            files,
            self.settings.channels,
            self.settings.quality,
            self.settings.overwrite,
            self.settings.sample_rate,
        );
        self.can_cancel = true;
        self.converting = true;
        self.completed = 0;
        self.total = count;
        self.success_count = 0;
        self.fail_count = 0;
        self.skip_count = 0;
        self.current_file = None;
        self.status = "Конвертация…".to_owned();
        let mut message = "Старт: ".to_owned();
        message.append(decimal_text(count as u64).as_str());
        message.append(" файл(ов) → OGG Vorbis Q");
        message.append(signed_decimal_text(self.settings.quality).as_str());
        self.log(Tone::Accent, message);
        Some(batch)
    }

    /// Asks the batch to stop, if there is one. Whether there is, comes back.
    pub fn request_cancel(&mut self) -> (asked: bool)
        requires
            old(self).wf(),
        ensures
            final(self).wf(),
            final(self)@ == old(self)@.stop_asked(),
            asked == old(self)@.can_cancel,
    {
        if self.can_cancel {
            self.status = "Остановка…".to_owned();
            self.log(Tone::Warning, "Остановка после текущего файла.".to_owned());
            true
        } else {
            false
        }
    }

    /// Takes in one message of a batch.
    pub fn receive(&mut self, message: &WorkerMessage)
        requires
            old(self).wf(),
            message@ is FileFinished ==> old(self)@.completed < usize::MAX,
        ensures
            final(self).wf(),
            final(self)@ == old(self)@.received(message@),
    {
        let ghost before = self@;
        match message {
            WorkerMessage::Started { total } => {
                self.total = *total;
            },
            WorkerMessage::FileStarted { path } => {
                self.current_file = Some(copy_path(path));
                mark_running(&mut self.files, path);
                let mut status = "Конвертация: ".to_owned();
                status.append(name_text_or(path, "файл").as_str());
                self.status = status;
                proof {
                    queue::change_keeps_paths(
                        before.files,
                        path::path_bytes(*path),
                        queue::running(),
                    );
                }
            },
            WorkerMessage::FileFinished { path, status, message } => {
                let status = *status;
                self.completed += 1;
                match status {
                    FileStatus::Success => {
                        self.success_count += 1;
                    },
                    FileStatus::Failed => {
                        self.fail_count += 1;
                    },
                    FileStatus::Skipped => {
                        self.skip_count += 1;
                    },
                    _ => {},
                }
                mark_ended(&mut self.files, path, status, message);
                proof {
                    queue::change_keeps_paths(
                        before.files,
                        path::path_bytes(*path),
                        queue::ended(status, message@),
                    );
                }
                let mut line = status.label().to_owned();
                line.append(" · ");
                line.append(name_text_or(path, "файл").as_str());
                line.append(" · ");
                line.append(message.as_str());
                self.log(status.color(), line);
            },
            WorkerMessage::Finished => {
                self.converting = false;
                self.current_file = None;
                self.can_cancel = false;
                let mut status = "Готово · ок ".to_owned();
                status.append(decimal_text(self.success_count as u64).as_str());
                status.append(", ошибок ");
                status.append(decimal_text(self.fail_count as u64).as_str());
                status.append(", пропуск ");
                status.append(decimal_text(self.skip_count as u64).as_str());
                self.status = status;
                self.log(Tone::Text, "Конвертация завершена.".to_owned());
            },
        }
    }

    /// Whether the count of completed files can go up by the files whose end `messages` tell.
    pub fn count_fits(&self, messages: &Vec<WorkerMessage>) -> (fits: bool)
        ensures
            fits == (self@.completed + files_ended(message_views(messages@)) <= usize::MAX),
    {
        let ghost views = message_views(messages@);
        let mut count: usize = self.completed;
        let mut i: usize = 0;
        assert(views.take(0) =~= Seq::empty());
        while i < messages.len()
            invariant
                i <= messages.len(),
                views == message_views(messages@),
                count == self.completed + files_ended(views.take(i as int)),
            decreases messages.len() - i,
        {
            proof {
                assert(views.take(i + 1).drop_last() =~= views.take(i as int));
                assert(views.take(i + 1).last() == messages[i as int]@);
                files_ended_grows(views, i + 1);
            }
            if let WorkerMessage::FileFinished { .. } = &messages[i] {
                if count == usize::MAX {
                    return false;
                }
                count += 1;
            }
            i += 1;
        }
        assert(views.take(views.len() as int) =~= views);
        true
    }

    /// Takes in the messages that a batch has sent, in their order.
    pub fn poll_conversion(&mut self, messages: Vec<WorkerMessage>)
        requires
            old(self).wf(),
            old(self)@.completed + files_ended(message_views(messages@)) <= usize::MAX,
        ensures
            final(self).wf(),
            final(self)@ == old(self)@.received_all(message_views(messages@)),
    {
        let ghost before = self@;
        let ghost views = message_views(messages@);
        let mut i: usize = 0;
        assert(views.take(0) =~= Seq::empty());
        while i < messages.len()
            invariant
                i <= messages.len(),
                views == message_views(messages@),
                before.completed + files_ended(views) <= usize::MAX,
                self.wf(),
                self@ == before.received_all(views.take(i as int)),
                self@.completed == before.completed + files_ended(views.take(i as int)),
            decreases messages.len() - i,
        {
            proof {
                assert(views.take(i + 1).drop_last() =~= views.take(i as int));
                assert(views.take(i + 1).last() == messages[i as int]@);
                files_ended_grows(views, i + 1);
            }
            self.receive(&messages[i]);
            i += 1;
        }
        assert(views.take(views.len() as int) =~= views);
    }

    /// The folder to be shown to the user: the chosen one, or that of the first file that was
    /// converted, or that of the first file.
    pub fn output_folder_to_open(&self) -> (folder: Option<PathBuf>)
        ensures
            path::option_bytes(folder) == self@.folder(),
    {
        if let Some(dir) = &self.output_dir {
            return Some(copy_path(dir));
        }
        let ghost views = self@.files;
        let mut i: usize = 0;
        assert(views.skip(0) =~= views);
        while i < self.files.len() && self.files[i].status != FileStatus::Success
            invariant
                i <= self.files.len(),
                views == queue::file_views(self.files@),
                success_folder(views) == success_folder(views.skip(i as int)),
            decreases self.files.len() - i,
        {
            assert(views.skip(i as int).drop_first() =~= views.skip(i + 1));
            i += 1;
        }
        if i < self.files.len() {
            assert(views.skip(i as int)[0] == views[i as int]);
            let above = parent(&self.files[i].path);
            if above.is_some() {
                return above;
            }
        }
        if self.files.len() > 0 {
            parent(&self.files[0].path)
        } else {
            None
        }
    }

    /// Takes the files that failed out of the queue.
    pub fn remove_failed(&mut self)
        requires
            old(self).wf(),
        ensures
            final(self).wf(),
            final(self)@ == (AppView {
                files: queue::without_failed(old(self)@.files),
                ..old(self)@
            }),
    {
        drop_failed(&mut self.files);
    }

    /// Empties the queue and sets the counts back.
    pub fn clear_files(&mut self)
        requires
            old(self).wf(),
        ensures
            final(self).wf(),
            final(self)@ == old(self)@.cleared(),
    {
        self.files.clear();
        self.total = 0;
        self.completed = 0;
        self.success_count = 0;
        self.fail_count = 0;
        self.skip_count = 0;
        assert(self@.files =~= Seq::empty());
    }

    /// Takes the file at a place out of the queue.
    pub fn remove_file(&mut self, index: usize)
        requires
            old(self).wf(),
            index < old(self)@.files.len(),
        ensures
            final(self).wf(),
            final(self)@ == (AppView {
                files: old(self)@.files.remove(index as int),
                ..old(self)@
            }),
    {
        let ghost before = self@.files;
        self.files.remove(index);
        proof {
            assert(self@.files =~= before.remove(index as int));
            queue::removal_keeps_different(before, index as int);
        }
    }

    /// Empties the log.
    pub fn clear_logs(&mut self)
        requires
            old(self).wf(),
        ensures
            final(self).wf(),
            final(self)@ == (AppView { logs: Seq::empty(), ..old(self)@ }),
    {
        self.logs.clear();
        assert(self@.logs =~= Seq::empty());
    }
}

/// Among the first messages no more files end than among all.
proof fn files_ended_grows(messages: Seq<job::MessageView>, n: int)
    requires
        0 <= n <= messages.len(),
    ensures
        files_ended(messages.take(n)) <= files_ended(messages),
    decreases messages.len(),
{
    if n < messages.len() {
        assert(messages.drop_last().take(n) =~= messages.take(n));
        files_ended_grows(messages.drop_last(), n);
    } else {
        assert(messages.take(n) =~= messages);
    }
}

/// The folder to be listed next: the last of those still to be listed, which it is taken out of.
pub fn next_folder(rest: &mut Vec<PathBuf>) -> (folder: Option<PathBuf>)
    ensures
        old(rest).len() == 0 ==> folder is None && final(rest)@ == old(rest)@,
        old(rest).len() > 0 ==> folder is Some && path::path_bytes(folder->0) == path::list_bytes(
            old(rest)@,
        ).last() && path::list_bytes(final(rest)@) == path::list_bytes(old(rest)@).drop_last(),
{
    let folder = rest.pop();
    proof {
        if old(rest).len() > 0 {
            assert(path::list_bytes(rest@) =~= path::list_bytes(old(rest)@).drop_last());
        }
    }
    folder
}

/// The files of a batch: each input with its output.
fn pair_up(inputs: &Vec<PathBuf>, outputs: &Vec<PathBuf>) -> (files: Vec<AudioFile>)
    requires
        inputs.len() == outputs.len(),
    ensures
        job::audio_views(files@) == batch_files(
            path::list_bytes(inputs@),
            path::list_bytes(outputs@),
        ),
{
    let mut files: Vec<AudioFile> = Vec::new();
    let mut i: usize = 0;
    while i < inputs.len()
        invariant
            i <= inputs.len(),
            inputs.len() == outputs.len(),
            files.len() == i,
            forall|k: int|
                0 <= k < i ==> (#[trigger] files[k])@ == (job::AudioView {
                    input: path::path_bytes(inputs[k]),
                    output: path::path_bytes(outputs[k]),
                }),
        decreases inputs.len() - i,
    {
        files.push(
            AudioFile { input: copy_path(&inputs[i]), output: copy_path(&outputs[i]) },
        );
        i += 1;
    }
    assert(job::audio_views(files@) =~= batch_files(
        path::list_bytes(inputs@),
        path::list_bytes(outputs@),
    ));
    files
}

} // verus!
