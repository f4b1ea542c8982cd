//! What the user can set: channels, quality, sample rate, and how files are taken and written.

use std::path::PathBuf;
use vstd::prelude::*;
use vstd::string::*;
use crate::path;
use crate::path::copy_option;
use crate::text;
use crate::text::signed_decimal_text;

verus! {

/// The number of channels of an output.
#[derive(Debug, Clone, Copy, PartialEq, Eq, Structural)]
pub enum Channels {
    Mono,
    Stereo,
}

impl Channels {
    /// The value that FFmpeg takes for `-ac`.
    pub open spec fn argument(self) -> Seq<char> {
        match self {
            Channels::Mono => "1"@,
            Channels::Stereo => "2"@,
        }
    }

    /// The value that FFmpeg takes for `-ac`.
    pub fn ffmpeg_value(self) -> (text: &'static str)
        ensures
            text@ == self.argument(),
    {
        match self {
            Channels::Mono => "1",
            Channels::Stereo => "2",
        }
    }

    /// The word for a choice of channels.
    pub fn label(self) -> (text: &'static str)
        ensures
            text@ == match self {
                Channels::Mono => "Моно"@,
                Channels::Stereo => "Стерео"@,
            },
    {
        match self {
            Channels::Mono => "Моно",
            Channels::Stereo => "Стерео",
        }
    }
}

/// The sample rate of an output.
#[derive(Debug, Clone, Copy, PartialEq, Eq, Structural)]
pub enum SampleRate {
    Source,
    Hz44100,
    Hz48000,
}

impl Default for SampleRate {
    /// The rate of the source.
    fn default() -> (rate: Self)
        ensures
            rate == SampleRate::Source,
    {
        SampleRate::Source
    }
}

impl SampleRate {
    /// The value that FFmpeg takes for `-ar`, if the rate is to be changed.
    pub open spec fn argument(self) -> Option<Seq<char>> {
        match self {
            SampleRate::Source => None,
            SampleRate::Hz44100 => Some("44100"@),
            SampleRate::Hz48000 => Some("48000"@),
        }
    }

    /// The word for a sample rate.
    pub fn label(self) -> (text: &'static str)
        ensures
            text@ == match self {
                SampleRate::Source => "Как в исходнике"@,
                SampleRate::Hz44100 => "44.1 кГц"@,
                SampleRate::Hz48000 => "48 кГц"@,
            },
    {
        match self {
            SampleRate::Source => "Как в исходнике",
            SampleRate::Hz44100 => "44.1 кГц",
            SampleRate::Hz48000 => "48 кГц",
        }
    }

    /// The value that FFmpeg takes for `-ar`, if the rate is to be changed.
    pub fn ffmpeg_value(self) -> (text: Option<&'static str>)
        ensures
            text is Some == self.argument() is Some,
            text matches Some(t) ==> self.argument() == Some(t@),
    {
        match self {
            SampleRate::Source => None,
            SampleRate::Hz44100 => Some("44100"),
            SampleRate::Hz48000 => Some("48000"),
        }
    }
}

/// The settings of the converter.
#[derive(Debug)]
pub struct Settings {
    pub channels: Channels,
    pub quality: i32,
    pub recursive: bool,
    pub overwrite: bool,
    pub sample_rate: SampleRate,
    pub output_dir: Option<PathBuf>,
}

/// Settings as contracts see them.
pub struct SettingsView {
    pub channels: Channels,
    pub quality: int,
    pub recursive: bool,
    pub overwrite: bool,
    pub sample_rate: SampleRate,
    pub output_dir: Option<Seq<u8>>,
}

impl View for Settings {
    type V = SettingsView;

    open spec fn view(&self) -> SettingsView {
        SettingsView {
            channels: self.channels,
            quality: self.quality as int,
            recursive: self.recursive,
            overwrite: self.overwrite,
            sample_rate: self.sample_rate,
            output_dir: path::option_bytes(self.output_dir),
        }
    }
}

/// The settings of a first start.
pub open spec fn default_settings() -> SettingsView {
    SettingsView {
        channels: Channels::Stereo,
        quality: 5,
        recursive: true,
        overwrite: true,
        sample_rate: SampleRate::Source,
        output_dir: None,
    }
}

impl Default for Settings {
    /// The settings of a first start.
    fn default() -> (settings: Self)
        ensures
            settings@ == default_settings(),
    {
        Settings {
            channels: Channels::Stereo,
            quality: 5,
            recursive: true,
            overwrite: true,
            sample_rate: SampleRate::Source,
            output_dir: None,
        }
    }
}

impl Clone for Settings {
    fn clone(&self) -> (copy: Self)
        ensures
            copy@ == self@,
    {
        Settings {
            channels: self.channels,
            quality: self.quality,
            recursive: self.recursive,
            overwrite: self.overwrite,
            sample_rate: self.sample_rate,
            output_dir: copy_option(&self.output_dir),
        }
    }
}

/// What a quality stands for.
pub open spec fn hint(quality: int) -> Seq<char> {
    if 0 <= quality <= 2 {
        "~64–96 кбит/с · компактно"@
    } else if 3 <= quality <= 4 {
        "~112–128 кбит/с · речь / подкаст"@
    } else if 5 <= quality <= 6 {
        "~160–192 кбит/с · музыка"@
    } else if 7 <= quality <= 8 {
        "~224–256 кбит/с · высокое"@
    } else {
        "~320 кбит/с · почти без потерь"@
    }
}

impl Settings {
    /// What a quality stands for: a bit rate and a use.
    pub fn quality_hint(quality: i32) -> (text: &'static str)
        ensures
            text@ == hint(quality as int),
    {
        if 0 <= quality && quality <= 2 {
            "~64–96 кбит/с · компактно"
        } else if 3 <= quality && quality <= 4 {
            "~112–128 кбит/с · речь / подкаст"
        } else if 5 <= quality && quality <= 6 {
            "~160–192 кбит/с · музыка"
        } else if 7 <= quality && quality <= 8 {
            "~224–256 кбит/с · высокое"
        } else {
            "~320 кбит/с · почти без потерь"
        }
    }

    /// The line below the quality slider.
    pub fn quality_line(&self) -> (text: String)
        ensures
            text@ == "Q"@ + text::signed_decimal(self@.quality) + " · "@ + hint(self@.quality),
    {
        let mut text = "Q".to_owned();
        text.append(signed_decimal_text(self.quality).as_str());
        text.append(" · ");
        text.append(Settings::quality_hint(self.quality));
        text
    }
}

} // verus!
