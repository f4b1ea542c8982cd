//! What the window shows.

use vstd::prelude::*;
use vstd::string::*;
use crate::app;
use crate::path;
use crate::queue;
use crate::screen;
use crate::status::Tone;
use crate::text;
use crate::text_laws;

verus! {

/// The status line is bad without FFmpeg, accented while a batch runs, bad again where a file
/// failed, and muted otherwise.
pub proof fn status_line_has_its_tone(state: app::AppView)
    ensures
        state.ffmpeg_path is None ==> screen::status_tone(state) == Tone::Bad,
        state.ffmpeg_path is Some && state.converting ==> screen::status_tone(state)
            == Tone::Accent,
        state.ffmpeg_path is Some && !state.converting && state.fail_count > 0
            ==> screen::status_tone(state) == Tone::Bad,
        state.ffmpeg_path is Some && !state.converting && state.fail_count == 0
            ==> screen::status_tone(state) == Tone::Muted,
{
}

/// A line of the queue shows the place from one on, with at least two digits, the name of the
/// file, its folder and its status; under the pointer its folder shows, and below it what was said
/// of the file, if anything was. The file can be taken out unless a batch runs.
pub proof fn lines_show_their_file(state: app::AppView, index: int)
    requires
        0 <= index < state.files.len(),
    ensures
        ({
            let row = screen::row_of(state, index);
            let file = state.files[index];
            &&& row.number.len() >= 2
            &&& text_laws::value(row.number) == index + 1
            &&& index + 1 >= 10 ==> row.number == text::decimal((index + 1) as nat)
            &&& index + 1 < 10 ==> row.number.len() == 2 && row.number[0] == '0'
            &&& row.name == path::name_or(file.path, "unknown"@)
            &&& path::parent_of(file.path) matches Some(dir) ==> row.folder == path::displayed(dir)
            &&& path::parent_of(file.path) is None ==> row.folder.len() == 0
            &&& row.status == file.status
            &&& file.message.len() == 0 ==> row.hover == row.folder
            &&& file.message.len() > 0 ==> row.hover == row.folder + "\n"@ + file.message
            &&& row.removable <==> !state.converting
        }),
{
    let n = (index + 1) as nat;
    let number = screen::row_of(state, index).number;
    text_laws::decimal_reads_back(n);
    if n < 10 {
        reveal_strlit("0");
        assert(text::decimal(n).len() == 1);
        assert(number[0] == '0' && number[1] == text::decimal(n)[0]);
        reveal_with_fuel(text_laws::value, 3);
        assert(number.drop_last().drop_last() =~= Seq::empty());
        assert(text::decimal(n).drop_last() =~= Seq::empty());
    } else {
        assert(text::decimal(n).len() >= 2) by {
            text::decimal_nonempty(n / 10);
        }
    }
}

/// Each switch is on in just the states in which what it does makes sense.
pub proof fn switches_are_on_when_of_use(state: app::AppView)
    ensures
        screen::editable(state) <==> !state.converting,
        screen::failed_removable(state) <==> !state.converting && queue::any_failed(state.files),
        screen::clearable(state) <==> !state.converting && state.files.len() > 0,
        screen::folder_resettable(state) <==> !state.converting && state.output_dir is Some,
{
}

/// The folder for the outputs is shown, or that each goes beside its source.
pub proof fn destination_is_shown(state: app::AppView)
    ensures
        state.output_dir matches Some(dir) ==> screen::destination(state) == path::displayed(dir),
        state.output_dir is None ==> screen::destination(state)
            == "Рядом с каждым исходным файлом"@,
        screen::FOLDER_WIDTH == 72,
{
}

/// Each tone has its color.
pub proof fn tones_have_their_colors(tone: Tone)
    ensures
        tone == Tone::Accent ==> tone.channels() == (98u8, 168u8, 255u8),
        tone == Tone::Text ==> tone.channels() == (230u8, 235u8, 245u8),
        tone == Tone::Muted ==> tone.channels() == (140u8, 150u8, 168u8),
        tone == Tone::Good ==> tone.channels() == (92u8, 214u8, 148u8),
        tone == Tone::Bad ==> tone.channels() == (255u8, 110u8, 118u8),
        tone == Tone::Warning ==> tone.channels() == (255u8, 196u8, 92u8),
{
}

} // verus!
