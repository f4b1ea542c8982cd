//! The state of a queued file, and the tones in which messages are shown.

use vstd::prelude::*;

verus! {

/// The tone of a message on the screen.
#[derive(Debug, Clone, Copy, PartialEq, Eq, Structural)]
pub enum Tone {
    Accent,
    Text,
    Muted,
    Good,
    Bad,
    Warning,
}

impl Tone {
    /// The red, green and blue of a tone.
    pub open spec fn channels(self) -> (u8, u8, u8) {
        match self {
            Tone::Accent => (98, 168, 255),
            Tone::Text => (230, 235, 245),
            Tone::Muted => (140, 150, 168),
            Tone::Good => (92, 214, 148),
            Tone::Bad => (255, 110, 118),
            Tone::Warning => (255, 196, 92),
        }
    }

    /// The red, green and blue of a tone.
    pub fn rgb(self) -> (color: (u8, u8, u8))
        ensures
            color == self.channels(),
    {
        match self {
            Tone::Accent => (98, 168, 255),
            Tone::Text => (230, 235, 245),
            Tone::Muted => (140, 150, 168),
            Tone::Good => (92, 214, 148),
            Tone::Bad => (255, 110, 118),
            Tone::Warning => (255, 196, 92),
        }
    }
}

/// How far a queued file has come.
#[derive(Debug, Clone, Copy, PartialEq, Eq, Structural)]
pub enum FileStatus {
    Queued,
    Running,
    Success,
    Skipped,
    Failed,
}

impl FileStatus {
    /// The word for a status.
    pub open spec fn word(self) -> Seq<char> {
        match self {
            FileStatus::Queued => "в очереди"@,
            FileStatus::Running => "идёт"@,
            FileStatus::Success => "готово"@,
            FileStatus::Skipped => "пропуск"@,
            FileStatus::Failed => "ошибка"@,
        }
    }

    /// The tone of a status.
    pub open spec fn tone(self) -> Tone {
        match self {
            FileStatus::Queued => Tone::Muted,
            FileStatus::Running => Tone::Accent,
            FileStatus::Success => Tone::Good,
            FileStatus::Skipped => Tone::Warning,
            FileStatus::Failed => Tone::Bad,
        }
    }

    /// Whether a file of this status has been dealt with.
    pub open spec fn is_final(self) -> bool {
        self is Success || self is Skipped || self is Failed
    }

    /// The word for a status.
    pub fn label(self) -> (text: &'static str)
        ensures
            text@ == self.word(),
    {
        match self {
            FileStatus::Queued => "в очереди",
            FileStatus::Running => "идёт",
            FileStatus::Success => "готово",
            FileStatus::Skipped => "пропуск",
            FileStatus::Failed => "ошибка",
        }
    }

    /// The tone of a status.
    pub fn color(self) -> (tone: Tone)
        ensures
            tone == self.tone(),
    {
        match self {
            FileStatus::Queued => Tone::Muted,
            FileStatus::Running => Tone::Accent,
            FileStatus::Success => Tone::Good,
            FileStatus::Skipped => Tone::Warning,
            FileStatus::Failed => Tone::Bad,
        }
    }
}

} // verus!
