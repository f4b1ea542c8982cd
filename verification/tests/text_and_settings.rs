use schrodinger_audio_converter::path::{copy_option, join_text, name_text_or};
use schrodinger_audio_converter::settings::{Channels, SampleRate, Settings};
use schrodinger_audio_converter::status::{FileStatus, Tone};
use schrodinger_audio_converter::text::{
    chars_of, decimal_text, ellipsize, eq_ignore_ascii_case, signed_decimal_text, trim,
};
use std::path::PathBuf;

#[test]
fn short_text_is_kept() {
    assert_eq!(ellipsize("abc", 3), "abc");
    assert_eq!(ellipsize("", 0), "");
    assert_eq!(ellipsize("привет", 6), "привет");
}

#[test]
fn long_text_keeps_its_end() {
    assert_eq!(ellipsize("abcdef", 4), "…def");
    assert_eq!(ellipsize("папка/музыка", 7), "…музыка");
    assert_eq!(ellipsize("abcdef", 1), "…");
    assert_eq!(ellipsize("abcdef", 0), "…");
}

#[test]
fn shortened_text_fits() {
    for max in 1..10 {
        let short = ellipsize("длинный путь", max);
        assert!(short.chars().count() <= max);
        assert!(short.starts_with('…'));
        assert!("длинный путь".ends_with(&short['…'.len_utf8()..]));
    }
}

#[test]
fn numbers_in_decimal() {
    for n in [0u64, 7, 9, 10, 19, 100, 1234567890, u64::MAX] {
        assert_eq!(decimal_text(n), n.to_string());
    }
    for n in [0i32, 5, -1, -10, i32::MAX, i32::MIN] {
        assert_eq!(signed_decimal_text(n), n.to_string());
    }
}

#[test]
fn case_is_ignored_for_ascii_only() {
    assert!(eq_ignore_ascii_case("MP3", "mp3"));
    assert!(eq_ignore_ascii_case("", ""));
    assert!(!eq_ignore_ascii_case("mp3", "mp"));
    assert!(!eq_ignore_ascii_case("Ж", "ж"));
    assert!(!eq_ignore_ascii_case("@", "`"));
    assert!(!eq_ignore_ascii_case("[", "{"));
}

#[test]
fn characters_of_a_text() {
    assert_eq!(chars_of("aж…"), vec!['a', 'ж', '…']);
}

#[test]
fn channel_values() {
    assert_eq!(Channels::Mono.ffmpeg_value(), "1");
    assert_eq!(Channels::Stereo.ffmpeg_value(), "2");
    assert_eq!(Channels::Mono.label(), "Моно");
    assert_eq!(Channels::Stereo.label(), "Стерео");
}

#[test]
fn sample_rate_values() {
    assert_eq!(SampleRate::Source.ffmpeg_value(), None);
    assert_eq!(SampleRate::Hz44100.ffmpeg_value(), Some("44100"));
    assert_eq!(SampleRate::Hz48000.ffmpeg_value(), Some("48000"));
    assert_eq!(SampleRate::Source.label(), "Как в исходнике");
    assert_eq!(SampleRate::Hz44100.label(), "44.1 кГц");
    assert_eq!(SampleRate::Hz48000.label(), "48 кГц");
    assert_eq!(SampleRate::default(), SampleRate::Source);
}

#[test]
fn first_start_settings() {
    let settings = Settings::default();
    assert_eq!(settings.channels, Channels::Stereo);
    assert_eq!(settings.quality, 5);
    assert!(settings.recursive);
    assert!(settings.overwrite);
    assert_eq!(settings.sample_rate, SampleRate::Source);
    assert_eq!(settings.output_dir, None);
}

#[test]
fn settings_are_copied_whole() {
    let settings = Settings {
        channels: Channels::Mono,
        quality: -3,
        recursive: false,
        overwrite: false,
        sample_rate: SampleRate::Hz48000,
        output_dir: Some(PathBuf::from("/music")),
    };
    let copy = settings.clone();
    assert_eq!(copy.channels, Channels::Mono);
    assert_eq!(copy.quality, -3);
    assert!(!copy.recursive);
    assert!(!copy.overwrite);
    assert_eq!(copy.sample_rate, SampleRate::Hz48000);
    assert_eq!(copy.output_dir, Some(PathBuf::from("/music")));
}

#[test]
fn quality_hints() {
    let compact = "~64–96 кбит/с · компактно";
    let speech = "~112–128 кбит/с · речь / подкаст";
    let music = "~160–192 кбит/с · музыка";
    let high = "~224–256 кбит/с · высокое";
    let best = "~320 кбит/с · почти без потерь";
    let expected = [
        compact, compact, compact, speech, speech, music, music, high, high, best, best,
    ];
    for quality in 0..=10 {
        assert_eq!(Settings::quality_hint(quality), expected[quality as usize]);
    }
    assert_eq!(Settings::quality_hint(-1), best);
    assert_eq!(Settings::quality_hint(11), best);
}

#[test]
fn quality_line_names_the_quality() {
    assert_eq!(Settings::default().quality_line(), "Q5 · ~160–192 кбит/с · музыка");
}

#[test]
fn status_words_and_tones() {
    assert_eq!(FileStatus::Queued.label(), "в очереди");
    assert_eq!(FileStatus::Running.label(), "идёт");
    assert_eq!(FileStatus::Success.label(), "готово");
    assert_eq!(FileStatus::Skipped.label(), "пропуск");
    assert_eq!(FileStatus::Failed.label(), "ошибка");
    assert_eq!(FileStatus::Queued.color(), Tone::Muted);
    assert_eq!(FileStatus::Running.color(), Tone::Accent);
    assert_eq!(FileStatus::Success.color(), Tone::Good);
    assert_eq!(FileStatus::Skipped.color(), Tone::Warning);
    assert_eq!(FileStatus::Failed.color(), Tone::Bad);
}

#[test]
fn tones_in_red_green_blue() {
    assert_eq!(Tone::Accent.rgb(), (98, 168, 255));
    assert_eq!(Tone::Text.rgb(), (230, 235, 245));
    assert_eq!(Tone::Muted.rgb(), (140, 150, 168));
    assert_eq!(Tone::Good.rgb(), (92, 214, 148));
    assert_eq!(Tone::Bad.rgb(), (255, 110, 118));
    assert_eq!(Tone::Warning.rgb(), (255, 196, 92));
}

#[test]
fn file_names_as_text() {
    assert_eq!(name_text_or(&PathBuf::from("/a/песня.mp3"), "файл"), "песня.mp3");
    assert_eq!(name_text_or(&PathBuf::from("/a/b/"), "файл"), "b");
    assert_eq!(name_text_or(&PathBuf::from("/"), "файл"), "файл");
    assert_eq!(name_text_or(&PathBuf::from("a/.."), "файл"), "файл");
    assert_eq!(name_text_or(&PathBuf::from(""), "файл"), "файл");
}

#[test]
fn joining_and_copying_paths() {
    assert_eq!(join_text(&PathBuf::from("/a"), "b.ogg"), PathBuf::from("/a/b.ogg"));
    assert_eq!(join_text(&PathBuf::from(""), "b.ogg"), PathBuf::from("b.ogg"));
    assert_eq!(copy_option(&Some(PathBuf::from("/a"))), Some(PathBuf::from("/a")));
    assert_eq!(copy_option(&None), None);
}

#[test]
fn white_space_at_both_ends_goes() {
    for text in ["", " ", "a", "  a b\t\n", "\u{a0}\u{2003}é\u{3000}\u{85}", "\u{200b}a\u{feff}"] {
        assert_eq!(trim(text), text.trim());
    }
    for code in 0..0x11_0000u32 {
        if let Some(c) = char::from_u32(code) {
            if c.is_whitespace() {
                assert_eq!(trim(&format!("{c}x{c}")), "x");
            }
        }
    }
}
