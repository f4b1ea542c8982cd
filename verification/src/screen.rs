//! What the window shows of the converter's state, and what can be done in it.

use std::path::PathBuf;
use vstd::prelude::*;
use vstd::string::*;
use crate::app;
use crate::app::App;
use crate::path;
use crate::path::{display, name_text_or, parent};
use crate::queue;
use crate::queue::has_failed;
use crate::status::{FileStatus, Tone};
use crate::text;
use crate::text::{decimal_text, ellipsize};

verus! {

/// The number of characters that the folder for the outputs is shown with at most.
pub const FOLDER_WIDTH: usize = 72;

/// A place in the queue, counted from one, with at least two digits.
pub open spec fn place_number(n: nat) -> Seq<char> {
    if n < 10 {
        "0"@ + text::decimal(n)
    } else {
        text::decimal(n)
    }
}

/// The folder of a path as text, or nothing.
pub open spec fn folder_text(path: Seq<u8>) -> Seq<char> {
    match path::parent_of(path) {
        Some(dir) => path::displayed(dir),
        None => Seq::empty(),
    }
}

/// What is shown when the pointer rests on a queued file: its folder, and below it how it ended.
pub open spec fn hover_text(file: queue::FileView) -> Seq<char> {
    if file.message.len() == 0 {
        folder_text(file.path)
    } else {
        folder_text(file.path) + "\n"@ + file.message
    }
}

/// A line of the queue.
#[derive(Debug)]
pub struct Row {
    pub number: String,
    pub name: String,
    pub folder: String,
    pub status: FileStatus,
    pub hover: String,
    /// Whether the file can be taken out of the queue.
    pub removable: bool,
}

/// A line of the queue as contracts see it.
pub struct RowView {
    pub number: Seq<char>,
    pub name: Seq<char>,
    pub folder: Seq<char>,
    pub status: FileStatus,
    pub hover: Seq<char>,
    pub removable: bool,
}

impl View for Row {
    type V = RowView;

    open spec fn view(&self) -> RowView {
        RowView {
            number: self.number@,
            name: self.name@,
            folder: self.folder@,
            status: self.status,
            hover: self.hover@,
            removable: self.removable,
        }
    }
}

/// The line of the file at `index` of the queue.
pub open spec fn row_of(state: app::AppView, index: int) -> RowView {
    let file = state.files[index];
    RowView {
        number: place_number((index + 1) as nat),
        name: path::name_or(file.path, "unknown"@),
        folder: folder_text(file.path),
        status: file.status,
        hover: hover_text(file),
        removable: editable(state),
    }
}

/// The text for the folder that outputs go to.
pub open spec fn destination(state: app::AppView) -> Seq<char> {
    match state.output_dir {
        Some(dir) => path::displayed(dir),
        None => "Рядом с каждым исходным файлом"@,
    }
}

/// The tone of the status line.
pub open spec fn status_tone(state: app::AppView) -> Tone {
    if state.ffmpeg_path is None {
        Tone::Bad
    } else if state.converting {
        Tone::Accent
    } else if state.fail_count > 0 {
        Tone::Bad
    } else {
        Tone::Muted
    }
}

/// Whether the queue, the settings and the folder can be changed: nothing is being converted.
pub open spec fn editable(state: app::AppView) -> bool {
    !state.converting
}

/// Whether the files that failed can be taken out.
pub open spec fn failed_removable(state: app::AppView) -> bool {
    editable(state) && queue::any_failed(state.files)
}

/// Whether the queue can be emptied.
pub open spec fn clearable(state: app::AppView) -> bool {
    editable(state) && state.files.len() > 0
}

/// Whether the chosen folder can be given up.
pub open spec fn folder_resettable(state: app::AppView) -> bool {
    editable(state) && state.output_dir is Some
}

fn folder_of(path: &PathBuf) -> (text: String)
    ensures
        text@ == folder_text(path::path_bytes(*path)),
{
    match parent(path) {
        Some(dir) => display(&dir),
        None => String::new(),
    }
}

impl App {
    /// The tone of the status line.
    pub fn header_tone(&self) -> (tone: Tone)
        ensures
            tone == status_tone(self@),
    {
        if self.ffmpeg_path.is_none() {
            Tone::Bad
        } else if self.converting {
            Tone::Accent
        } else if self.fail_count > 0 {
            Tone::Bad
        } else {
            Tone::Muted
        }
    }

    /// Whether the queue, the settings and the folder can be changed: nothing is being converted.
    pub fn can_edit(&self) -> (can: bool)
        ensures
            can == editable(self@),
    {
        !self.converting
    }

    /// The heading of the queue.
    pub fn files_heading(&self) -> (text: String)
        ensures
            text@ == "Файлы ("@ + text::decimal(self@.files.len()) + ")"@,
    {
        let mut text = "Файлы (".to_owned();
        text.append(decimal_text(self.files.len() as u64).as_str());
        text.append(")");
        text
    }

    /// Whether the files that failed can be taken out: nothing is being converted, and some did.
    pub fn can_remove_failed(&self) -> (can: bool)
        ensures
            can == failed_removable(self@),
    {
        !self.converting && has_failed(&self.files)
    }

    /// Whether the queue can be emptied: nothing is being converted, and it is not empty.
    pub fn can_clear(&self) -> (can: bool)
        ensures
            can == clearable(self@),
    {
        !self.converting && self.files.len() > 0
    }

    /// The line with the three counts, once there has been a batch.
    pub fn counts_line(&self) -> (text: Option<String>)
        ensures
            text is Some == (self@.total > 0),
            text matches Some(t) ==> t@ == "готово "@ + text::decimal(self@.success_count)
                + " · ошибок "@ + text::decimal(self@.fail_count) + " · пропуск "@
                + text::decimal(self@.skip_count),
    {
        if self.total > 0 {
            let mut text = "готово ".to_owned();
            text.append(decimal_text(self.success_count as u64).as_str());
            text.append(" · ошибок ");
            text.append(decimal_text(self.fail_count as u64).as_str());
            text.append(" · пропуск ");
            text.append(decimal_text(self.skip_count as u64).as_str());
            Some(text)
        } else {
            None
        }
    }

    /// The line of the file at `index` of the queue.
    pub fn row(&self, index: usize) -> (row: Row)
        requires
            index < self@.files.len(),
        ensures
            row@ == row_of(self@, index as int),
    {
        let file = &self.files[index];
        assert(index < self.files.len());
        let place: u64 = index as u64 + 1;
        let number = if place < 10 {
            let mut number = "0".to_owned();
            number.append(decimal_text(place).as_str());
            number
        } else {
            decimal_text(place)
        };
        let folder = folder_of(&file.path);
        let mut hover = folder.clone();
        if !file.message.as_str().is_empty() {
            hover.append("\n");
            hover.append(file.message.as_str());
        }
        Row {
            number,
            name: name_text_or(&file.path, "unknown"),
            folder,
            status: file.status,
            hover,
            removable: !self.converting,
        }
    }

    /// Whether there is a folder to be shown to the user.
    pub fn can_open_folder(&self) -> (can: bool)
        ensures
            can == self@.folder() is Some,
    {
        self.output_folder_to_open().is_some()
    }

    /// Whether the chosen folder can be given up: nothing is being converted, and there is one.
    pub fn can_reset_folder(&self) -> (can: bool)
        ensures
            can == folder_resettable(self@),
    {
        !self.converting && self.output_dir.is_some()
    }

    /// Chooses the folder that all outputs go to, or that each goes beside its source.
    pub fn set_output_dir(&mut self, dir: Option<PathBuf>)
        requires
            old(self).wf(),
        ensures
            final(self).wf(),
            final(self)@ == (app::AppView { output_dir: path::option_bytes(dir), ..old(self)@ }),
    {
        self.output_dir = dir;
    }

    /// The text for the folder that outputs go to.
    pub fn destination_text(&self) -> (text: String)
        ensures
            text@ == destination(self@),
    {
        match &self.output_dir {
            Some(dir) => display(dir),
            None => "Рядом с каждым исходным файлом".to_owned(),
        }
    }

    /// The text for the folder that outputs go to, cut to fit.
    pub fn destination_label(&self) -> (text: String)
        ensures
            text@ == text::ellipsized(destination(self@), FOLDER_WIDTH as nat),
    {
        ellipsize(self.destination_text().as_str(), FOLDER_WIDTH)
    }

    /// Whether a batch can start: nothing is being converted, there are files, and FFmpeg is
    /// there.
    pub fn can_convert(&self) -> (can: bool)
        ensures
            can == self@.can_start(),
    {
        !self.converting && self.files.len() > 0 && self.ffmpeg_path.is_some()
    }

    /// The text in the progress bar.
    pub fn progress_text(&self) -> (text: String)
        ensures
            text@ == if self@.total == 0 {
                "Добавьте файлы"@
            } else {
                text::decimal(self@.completed) + " / "@ + text::decimal(self@.total)
            },
    {
        if self.total == 0 {
            "Добавьте файлы".to_owned()
        } else {
            let mut text = decimal_text(self.completed as u64);
            text.append(" / ");
            text.append(decimal_text(self.total as u64).as_str());
            text
        }
    }

    /// Notes whether files are being dragged over the window. Whether files that were dropped
    /// are taken, comes back: not while a batch runs.
    pub fn handle_dropped_files(&mut self, hovering: bool) -> (taken: bool)
        requires
            old(self).wf(),
        ensures
            final(self).wf(),
            final(self)@ == (app::AppView { dragging: hovering, ..old(self)@ }),
            taken == editable(old(self)@),
    {
        self.dragging = hovering;
        !self.converting
    }

    /// Whether the window is to be drawn again without waiting for input.
    pub fn needs_repaint(&self) -> (needs: bool)
        ensures
            needs == (self@.converting || self@.dragging || self@.preparing),
    {
        self.converting || self.dragging || self.preparing
    }
}

/// While a batch runs, nothing can be done to its files from the window: no batch can start, no
/// file can be added, dropped or taken out, the queue cannot be emptied, and neither the settings
/// nor the folder can be changed.
pub proof fn running_batch_is_left_alone(state: app::AppView)
    requires
        state.converting,
    ensures
        !state.can_start(),
        state.start_asked() == state,
        !editable(state),
        !failed_removable(state),
        !clearable(state),
        !folder_resettable(state),
        forall|index: int| !(#[trigger] row_of(state, index)).removable,
{
}

} // verus!
