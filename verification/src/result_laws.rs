//! What the functions hand back, stated of their results.

use std::path::PathBuf;
use vstd::prelude::*;
use vstd::string::*;
use vstd::utf8::*;
use crate::app::App;
use crate::archive;
use crate::archive::{find_ffmpeg_in_zip, is_ffmpeg_entry, FfmpegArchive};
use crate::archive_laws;
use crate::command;
use crate::command::{conversion_result, failure_message, ffmpeg_command, FfmpegCommand, ProcessOutput};
use crate::command_laws;
use crate::ffmpeg::{
    asset_folder, bin_name, cache_dir, cache_variable, copy_error, copy_needed, copy_target,
    download_static, find_local_install, prepend_path, probe_if_file, should_write,
    works, write_error, Platform,
};
use crate::ffmpeg_laws;
use crate::output::build_output_paths;
use crate::output_laws;
use crate::path;
use crate::path::{join_text, name_text_or};
use crate::queue;
use crate::queue::{audio_extensions, is_audio};
use crate::screen::Row;
use crate::screen_laws;
use crate::settings::{Channels, SampleRate, Settings};
use crate::status::{FileStatus, Tone};
use crate::text;
use crate::text::{decimal_text, ellipsize, eq_ignore_ascii_case, signed_decimal_text, trim};
use crate::text_laws;

verus! {

/// An FFmpeg works only if there is a file, it started, and it ended well; and then it does.
pub proof fn works_when_all_went_well(is_file: bool, ended_well: Option<bool>, verdict: bool)
    requires
        call_ensures(works, (is_file, ended_well), verdict),
    ensures
        !is_file ==> !verdict,
        ended_well is None ==> !verdict,
        ended_well == Some(false) ==> !verdict,
        is_file && ended_well == Some(true) ==> verdict,
{
}

/// Bytes are written unless a file of just as many is there; and a copy is made unless both sizes
/// are known and equal.
pub proof fn sizes_decide(
    present: Option<u64>,
    len: u64,
    write: bool,
    from: Option<u64>,
    to: Option<u64>,
    copy: bool,
)
    requires
        call_ensures(should_write, (present, len), write),
        call_ensures(copy_needed, (from, to), copy),
    ensures
        present is None ==> write,
        present is Some ==> (write <==> present->0 != len),
        from is None || to is None ==> copy,
        from is Some && to is Some ==> (copy <==> from->0 != to->0),
{
}

/// Something is run to try an FFmpeg only where there is a file: that program, asked for its
/// version.
pub proof fn only_files_are_tried(
    platform: Platform,
    program: PathBuf,
    is_file: bool,
    tried: Option<FfmpegCommand>,
)
    requires
        call_ensures(probe_if_file, (platform, &program, is_file), tried),
    ensures
        !is_file ==> tried is None,
        is_file ==> tried is Some,
        tried matches Some(run) ==> run@.program == path::path_bytes(program) && run@.args.len()
            == 2 && run@.args[0] == command::ArgView::Text("-hide_banner"@) && run@.args[1]
            == command::ArgView::Text("-version"@),
{
    ffmpeg_laws::tries_ask_for_the_version(platform, path::path_bytes(program));
}

/// What is said of a file that could not be written or copied names it, and the reason.
pub proof fn file_errors_are_told(
    file: PathBuf,
    to: PathBuf,
    error: &str,
    written: String,
    copied: String,
)
    requires
        call_ensures(write_error, (&file, error), written),
        call_ensures(copy_error, (&file, &to, error), copied),
    ensures
        written@ == "Не удалось записать "@ + path::displayed(path::path_bytes(file)) + ": "@
            + error@,
        copied@ == "Не удалось скопировать "@ + path::displayed(path::path_bytes(file)) + " → "@
            + path::displayed(path::path_bytes(to)) + ": "@ + error@,
{
}

/// The names that depend on the platform.
pub proof fn platform_names(
    platform: Platform,
    program: &'static str,
    folder: &'static str,
    variable: &'static str,
)
    requires
        call_ensures(bin_name, (platform,), program),
        call_ensures(asset_folder, (platform,), folder),
        call_ensures(cache_variable, (platform,), variable),
    ensures
        platform == Platform::Windows ==> program@ == "ffmpeg.exe"@ && folder@ == "windows"@
            && variable@ == "LOCALAPPDATA"@,
        platform == Platform::Linux ==> program@ == "ffmpeg"@ && folder@ == "linux"@ && variable@
            == "HOME"@,
        platform == Platform::Other ==> program@ == "ffmpeg"@ && folder@ == "macos"@ && variable@
            == "HOME"@,
{
}

/// The cache lies below the folder that is named, and below the one for temporary files only where
/// none is.
pub proof fn cache_prefers_the_named_folder(
    platform: Platform,
    named: Option<PathBuf>,
    temporary: PathBuf,
    dir: PathBuf,
)
    requires
        call_ensures(cache_dir, (platform, named, temporary), dir),
    ensures
        ({
            let base = if named is Some {
                path::path_bytes(named->0)
            } else {
                path::path_bytes(temporary)
            };
            let own = if platform == Platform::Windows {
                "schrodinger-audio-converter"@
            } else {
                ".local/share/schrodinger-audio-converter"@
            };
            path::path_bytes(dir) == path::joined(
                path::joined(base, encode_utf8(own)),
                encode_utf8("ffmpeg"@),
            )
        }),
{
}

/// The first of the places with a file is found.
pub proof fn first_file_comes_back(
    places: Vec<PathBuf>,
    is_file: Vec<bool>,
    found: Option<PathBuf>,
    at: int,
)
    requires
        places.len() == is_file.len(),
        call_ensures(find_local_install, (&places, &is_file), found),
    ensures
        0 <= at < places.len() && is_file[at] && (forall|j: int|
            0 <= j < at ==> !#[trigger] is_file@[j]) ==> found is Some && path::path_bytes(
            found->0,
        ) == path::path_bytes(places[at]),
        (forall|j: int| 0 <= j < places.len() ==> !#[trigger] is_file@[j]) ==> found is None,
{
    ffmpeg_laws::first_file_is_found(path::list_bytes(places@), is_file@, at);
}

/// A path put in front of others comes first, and the others follow as they were.
pub proof fn paths_are_put_in_front(
    dir: PathBuf,
    paths: Vec<PathBuf>,
    list: Vec<PathBuf>,
    i: int,
)
    requires
        call_ensures(prepend_path, (&dir, paths), list),
        0 <= i < paths.len(),
    ensures
        list.len() == paths.len() + 1,
        path::path_bytes(list[0]) == path::path_bytes(dir),
        path::path_bytes(list[i + 1]) == path::path_bytes(paths[i]),
{
    let all = path::list_bytes(list@);
    assert(all.len() == list.len());
    assert(all[0] == path::path_bytes(list[0]));
    assert(all[i + 1] == path::path_bytes(list[i + 1]));
    assert(path::list_bytes(paths@)[i] == path::path_bytes(paths[i]));
}

/// Files are copied under their own names, but for the note.
pub proof fn copies_keep_their_names(
    to: PathBuf,
    entry: PathBuf,
    is_file: bool,
    target: Option<PathBuf>,
    name: Seq<u8>,
)
    requires
        call_ensures(copy_target, (&to, &entry, is_file), target),
        path::file_name_of(path::path_bytes(entry)) == Some(name),
    ensures
        ({
            let note = valid_utf8(name) && text::same_ignoring_case(
                decode_utf8(name),
                "ffmpeg.txt"@,
            );
            &&& !is_file || note ==> target is None
            &&& is_file && !note ==> target is Some && path::path_bytes(target->0)
                == path::joined(path::path_bytes(to), name)
        }),
{
    ffmpeg_laws::files_are_copied_but_for_the_note(
        path::path_bytes(to),
        path::path_bytes(entry),
        name,
    );
}

/// A download is granted on Windows only.
pub proof fn downloads_are_granted_on_windows(
    platform: Platform,
    dest: PathBuf,
    archive: Result<PathBuf, String>,
)
    requires
        call_ensures(download_static, (platform, &dest), archive),
    ensures
        archive is Ok <==> platform == Platform::Windows,
        archive is Ok && path::parent_of(path::path_bytes(dest)) is Some ==> path::path_bytes(
            archive->Ok_0,
        ) == path::joined(
            path::parent_of(path::path_bytes(dest))->0,
            encode_utf8("ffmpeg-download.zip"@),
        ),
{
    ffmpeg_laws::downloads_are_for_windows(platform, path::path_bytes(dest));
}

/// The words and values of the choices.
pub proof fn choices_have_words(
    channels: Channels,
    rate: SampleRate,
    word: &'static str,
    count: &'static str,
    rate_word: &'static str,
    hertz: Option<&'static str>,
)
    requires
        call_ensures(Channels::label, (channels,), word),
        call_ensures(Channels::ffmpeg_value, (channels,), count),
        call_ensures(SampleRate::label, (rate,), rate_word),
        call_ensures(SampleRate::ffmpeg_value, (rate,), hertz),
    ensures
        channels == Channels::Mono ==> word@ == "Моно"@ && count@ == text::decimal(1),
        channels == Channels::Stereo ==> word@ == "Стерео"@ && count@ == text::decimal(2),
        rate == SampleRate::Source ==> rate_word@ == "Как в исходнике"@ && hertz is None,
        rate == SampleRate::Hz44100 ==> rate_word@ == "44.1 кГц"@ && hertz is Some && hertz->0@
            == text::decimal(44100),
        rate == SampleRate::Hz48000 ==> rate_word@ == "48 кГц"@ && hertz is Some && hertz->0@
            == text::decimal(48000),
{
    command_laws::choices_are_numbers(channels, rate);
}

/// What is said of a quality: its number and what it stands for.
pub proof fn quality_is_told(settings: Settings, line: String, hint: &'static str)
    requires
        call_ensures(Settings::quality_line, (&settings,), line),
        call_ensures(Settings::quality_hint, (settings.quality,), hint),
    ensures
        line@ == "Q"@ + text::signed_decimal(settings.quality as int) + " · "@ + hint@,
        0 <= settings.quality <= 2 ==> hint@ == "~64–96 кбит/с · компактно"@,
        3 <= settings.quality <= 4 ==> hint@ == "~112–128 кбит/с · речь / подкаст"@,
        5 <= settings.quality <= 6 ==> hint@ == "~160–192 кбит/с · музыка"@,
        7 <= settings.quality <= 8 ==> hint@ == "~224–256 кбит/с · высокое"@,
        settings.quality < 0 || settings.quality > 8 ==> hint@
            == "~320 кбит/с · почти без потерь"@,
{
}

/// The word and the tone of a status, and the color of a tone.
pub proof fn statuses_have_words(
    status: FileStatus,
    word: &'static str,
    tone: Tone,
    color: (u8, u8, u8),
)
    requires
        call_ensures(FileStatus::label, (status,), word),
        call_ensures(FileStatus::color, (status,), tone),
        call_ensures(Tone::rgb, (tone,), color),
    ensures
        status == FileStatus::Queued ==> word@ == "в очереди"@ && color == (140u8, 150u8, 168u8),
        status == FileStatus::Running ==> word@ == "идёт"@ && color == (98u8, 168u8, 255u8),
        status == FileStatus::Success ==> word@ == "готово"@ && color == (92u8, 214u8, 148u8),
        status == FileStatus::Skipped ==> word@ == "пропуск"@ && color == (255u8, 196u8, 92u8),
        status == FileStatus::Failed ==> word@ == "ошибка"@ && color == (255u8, 110u8, 118u8),
{
}

/// Numbers come back as texts that read as they are.
pub proof fn numbers_read_back(n: u64, z: i32, plain: String, signed: String)
    requires
        call_ensures(decimal_text, (n,), plain),
        call_ensures(signed_decimal_text, (z,), signed),
    ensures
        text_laws::is_number(plain@),
        text_laws::value(plain@) == n,
        z >= 0 ==> text_laws::is_number(signed@) && text_laws::value(signed@) == z,
        z < 0 ==> signed@[0] == '-' && text_laws::is_number(signed@.skip(1)) && text_laws::value(
            signed@.skip(1),
        ) == -z,
{
    text_laws::decimal_reads_back(n as nat);
    text_laws::signed_decimal_reads_back(z as int);
}

/// A text that is shortened, trimmed or compared.
pub proof fn texts_are_cut_and_compared(
    text: &str,
    max: usize,
    short: String,
    inner: String,
    other: &str,
    equal: bool,
)
    requires
        call_ensures(ellipsize, (text, max), short),
        call_ensures(trim, (text,), inner),
        call_ensures(eq_ignore_ascii_case, (text, other), equal),
    ensures
        text@.len() <= max ==> short@ == text@,
        text@.len() > max && max > 0 ==> short@.len() == max && short@[0] == '…' && forall|i: int|
            1 <= i < max ==> #[trigger] short@[i] == text@[text@.len() - max + i],
        text@.len() > max && max == 0 ==> short@ == seq!['…'],
        exists|i: int, j: int| #[trigger] text_laws::is_inner(text@, inner@, i, j),
        equal <==> text@.len() == other@.len() && forall|i: int|
            0 <= i < text@.len() ==> #[trigger] text@[i] == other@[i] || text_laws::is_capital_of(
                text@[i],
                other@[i],
            ) || text_laws::is_capital_of(other@[i], text@[i]),
{
    text_laws::shortened_fills_its_room(text@, max as nat);
    text_laws::trimmed_is_the_middle(text@);
    text_laws::case_is_that_of_ascii(text@, other@);
}

/// A name is shown as it is, or another word where it is not text.
pub proof fn names_come_back(path: PathBuf, other: &str, name: String, whole: PathBuf)
    requires
        call_ensures(name_text_or, (&path, other), name),
        call_ensures(join_text, (&path, other), whole),
    ensures
        path::file_name_of(path::path_bytes(path)) matches Some(bytes) && valid_utf8(bytes)
            ==> encode_utf8(name@) == path::file_name_of(path::path_bytes(path))->0,
        path::file_name_of(path::path_bytes(path)) is None ==> name@ == other@,
        path::path_bytes(whole) == path::joined(path::path_bytes(path), encode_utf8(other@)),
{
    text_laws::name_is_shown_as_it_is(path::path_bytes(path), other@);
}

/// The fourteen extensions, in their order; and the two functions that tell audio files agree with
/// them.
pub proof fn extensions_come_back(
    list: Vec<&'static str>,
    path: PathBuf,
    audio: bool,
    audio_too: bool,
)
    requires
        call_ensures(audio_extensions, (), list),
        call_ensures(is_audio, (&path,), audio),
        call_ensures(App::is_audio, (&path,), audio_too),
    ensures
        list.len() == 14,
        list[0]@ == "mp3"@ && list[1]@ == "m4a"@ && list[2]@ == "wav"@ && list[3]@ == "flac"@,
        list[4]@ == "aac"@ && list[5]@ == "ogg"@ && list[6]@ == "opus"@ && list[7]@ == "wma"@,
        list[8]@ == "aiff"@ && list[9]@ == "aif"@ && list[10]@ == "alac"@ && list[11]@ == "ape"@,
        list[12]@ == "ac3"@ && list[13]@ == "amr"@,
        audio == queue::is_audio_path(path::path_bytes(path)),
        audio_too == audio,
{
}

/// The command that comes back asks for the chosen channels, quality and rate, reads the input and
/// writes the output, and runs the program.
pub proof fn commands_come_back(
    program: PathBuf,
    input: PathBuf,
    output: PathBuf,
    channels: Channels,
    quality: i32,
    rate: SampleRate,
    made: FfmpegCommand,
)
    requires
        call_ensures(ffmpeg_command, (&program, &input, &output, channels, quality, rate), made),
    ensures
        made@.program == path::path_bytes(program),
        made@.current_dir == path::parent_of(path::path_bytes(program)),
        made@.args[9] == command::ArgView::Text("-i"@),
        made@.args[10] == command::ArgView::Path(path::path_bytes(input)),
        made@.args.last() == command::ArgView::Path(path::path_bytes(output)),
        channels == Channels::Mono ==> command_laws::gives(made@.args, "-ac"@, text::decimal(1)),
        channels == Channels::Stereo ==> command_laws::gives(made@.args, "-ac"@, text::decimal(2)),
        command_laws::gives(made@.args, "-q:a"@, text::signed_decimal(quality as int)),
        rate == SampleRate::Hz44100 ==> command_laws::gives(made@.args, "-ar"@, "44100"@),
        rate == SampleRate::Hz48000 ==> command_laws::gives(made@.args, "-ar"@, "48000"@),
        rate == SampleRate::Source ==> !command_laws::mentions(made@.args, "-ar"@),
{
    command_laws::command_carries_the_choices(
        path::path_bytes(program),
        path::path_bytes(input),
        path::path_bytes(output),
        channels,
        quality as int,
        rate,
    );
    command_laws::command_converts_to_vorbis(
        path::path_bytes(program),
        path::path_bytes(input),
        path::path_bytes(output),
        channels,
        quality as int,
        rate,
    );
}

/// A run comes back as a success if and only if the process ended well.
pub proof fn runs_come_back(run: Result<ProcessOutput, String>, result: Result<(), String>)
    requires
        call_ensures(conversion_result, (run,), result),
    ensures
        result is Ok <==> (run is Ok && run->Ok_0.success),
        run matches Err(error) ==> result matches Err(told) && told@
            == "Не удалось запустить FFmpeg: "@ + error@,
{
    command_laws::runs_are_judged(command::run_view(run));
}

/// A failure is told by its code and by what was written, errors first.
pub proof fn failures_come_back(code: Option<i32>, stderr: &str, stdout: &str, message: String)
    requires
        call_ensures(failure_message, (code, stderr, stdout), message),
    ensures
        ({
            let shown = match code {
                Some(c) => text::signed_decimal(c as int),
                None => "сигнал"@,
            };
            &&& stderr@.len() > 0 && stdout@.len() > 0 ==> message@ == "код "@ + shown + " · "@
                + stderr@ + " · "@ + stdout@
            &&& stderr@.len() > 0 && stdout@.len() == 0 ==> message@ == "код "@ + shown + " · "@
                + stderr@
            &&& stderr@.len() == 0 && stdout@.len() > 0 ==> message@ == "код "@ + shown + " · "@
                + stdout@
            &&& stderr@.len() == 0 && stdout@.len() == 0 ==> message@ == "код "@ + shown
                + " · FFmpeg ничего не вывел (файл занят, нет прав или антивирус перехватил процесс)"@
        }),
{
    let shown = match code {
        Some(c) => text::signed_decimal(c as int),
        None => "сигнал"@,
    };
    if stderr@.len() > 0 && stdout@.len() > 0 {
        assert(message@ =~= "код "@ + shown + " · "@ + stderr@ + " · "@ + stdout@);
    } else if stderr@.len() > 0 {
        assert(message@ =~= "код "@ + shown + " · "@ + stderr@);
    } else if stdout@.len() > 0 {
        assert(message@ =~= "код "@ + shown + " · "@ + stdout@);
    } else {
        assert(message@ =~= "код "@ + shown
            + " · FFmpeg ничего не вывел (файл занят, нет прав или антивирус перехватил процесс)"@);
    }
}

/// An entry of an archive is told to be the program by its name.
pub proof fn program_entries_come_back(name: &str, found: bool)
    requires
        call_ensures(is_ffmpeg_entry, (name,), found),
    ensures
        found <==> {
            &&& name@.len() > 10
            &&& text::same_ignoring_case(name@.skip(name@.len() - 10), "ffmpeg.exe"@)
            &&& archive_laws::separates(name@[name@.len() - 11])
            &&& exists|i: int| #[trigger] archive_laws::bin_at(name@, i)
        },
{
    archive_laws::program_is_told_by_its_name(name@);
}

/// The texts above and below the queue.
pub proof fn counts_are_shown(
    app: App,
    heading: String,
    counts: Option<String>,
    progress: String,
)
    requires
        call_ensures(App::files_heading, (&app,), heading),
        call_ensures(App::counts_line, (&app,), counts),
        call_ensures(App::progress_text, (&app,), progress),
    ensures
        heading@ == "Файлы ("@ + text::decimal(app.files.len() as nat) + ")"@,
        counts is Some <==> app.total > 0,
        counts matches Some(line) ==> line@ == "готово "@ + text::decimal(
            app.success_count as nat,
        ) + " · ошибок "@ + text::decimal(app.fail_count as nat) + " · пропуск "@ + text::decimal(
            app.skip_count as nat,
        ),
        app.total == 0 ==> progress@ == "Добавьте файлы"@,
        app.total > 0 ==> progress@ == text::decimal(app.completed as nat) + " / "@ + text::decimal(
            app.total as nat,
        ),
{
}

/// The switches of the window.
pub proof fn switches_come_back(
    app: App,
    edit: bool,
    clear: bool,
    convert: bool,
    reset: bool,
    repaint: bool,
    tone: Tone,
)
    requires
        call_ensures(App::can_edit, (&app,), edit),
        call_ensures(App::can_clear, (&app,), clear),
        call_ensures(App::can_convert, (&app,), convert),
        call_ensures(App::can_reset_folder, (&app,), reset),
        call_ensures(App::needs_repaint, (&app,), repaint),
        call_ensures(App::header_tone, (&app,), tone),
    ensures
        edit <==> !app.converting,
        clear <==> !app.converting && app.files.len() > 0,
        convert <==> !app.converting && app.files.len() > 0 && app.ffmpeg_path is Some,
        reset <==> !app.converting && app.output_dir is Some,
        repaint <==> app.converting || app.dragging || app.preparing,
        app.ffmpeg_path is None ==> tone == Tone::Bad,
        app.ffmpeg_path is Some && app.converting ==> tone == Tone::Accent,
        app.ffmpeg_path is Some && !app.converting && app.fail_count > 0 ==> tone == Tone::Bad,
        app.ffmpeg_path is Some && !app.converting && app.fail_count == 0 ==> tone == Tone::Muted,
{
}

/// Failed files can be taken out where there are some and no batch runs.
pub proof fn failed_files_can_go(app: App, can: bool)
    requires
        call_ensures(App::can_remove_failed, (&app,), can),
    ensures
        can <==> !app.converting && exists|i: int|
            0 <= i < app.files.len() && (#[trigger] app.files[i]).status == FileStatus::Failed,
{
    let views = queue::file_views(app.files@);
    if can {
        let i = choose|i: int|
            0 <= i < views.len() && (#[trigger] views[i]).status == FileStatus::Failed;
        assert(app.files[i].status == FileStatus::Failed);
    }
    if exists|i: int|
        0 <= i < app.files.len() && (#[trigger] app.files[i]).status == FileStatus::Failed {
        let i = choose|i: int|
            0 <= i < app.files.len() && (#[trigger] app.files[i]).status == FileStatus::Failed;
        assert(views[i].status == FileStatus::Failed);
    }
}

/// A line of the queue shows its file.
pub proof fn lines_come_back(app: App, index: usize, row: Row)
    requires
        index < app.files.len(),
        call_ensures(App::row, (&app, index), row),
    ensures
        ({
            let file = app.files[index as int];
            let bytes = path::path_bytes(file.path);
            &&& text_laws::value(row.number@) == index + 1
            &&& row.number@.len() >= 2
            &&& row.name@ == path::name_or(bytes, "unknown"@)
            &&& path::parent_of(bytes) matches Some(dir) ==> row.folder@ == path::displayed(dir)
            &&& row.status == file.status
            &&& file.message@.len() == 0 ==> row.hover@ == row.folder@
            &&& file.message@.len() > 0 ==> row.hover@ == row.folder@ + "\n"@ + file.message@
            &&& row.removable <==> !app.converting
        }),
{
    screen_laws::lines_show_their_file(app@, index as int);
    assert(app@.files[index as int] == app.files[index as int]@);
}

/// The folder for the outputs as it is shown, whole and cut to seventy-two characters.
pub proof fn destination_comes_back(app: App, whole: String, label: String)
    requires
        call_ensures(App::destination_text, (&app,), whole),
        call_ensures(App::destination_label, (&app,), label),
    ensures
        app.output_dir is None ==> whole@ == "Рядом с каждым исходным файлом"@,
        app.output_dir matches Some(dir) ==> whole@ == path::displayed(path::path_bytes(dir)),
        whole@.len() <= 72 ==> label@ == whole@,
        whole@.len() > 72 ==> label@.len() == 72 && label@[0] == '…' && label@.skip(1)
            == whole@.skip(whole@.len() - 71),
{
    text_laws::shortened_fills_its_room(whole@, 72);
    if whole@.len() > 72 {
        assert(label@.skip(1) =~= whole@.skip(whole@.len() - 71));
    }
}

/// What is kept of the settings is what is in force, with the chosen folder.
pub proof fn settings_come_back(app: App, kept: Settings, first: Settings)
    requires
        call_ensures(App::save_settings, (&app,), kept),
        call_ensures(Settings::default, (), first),
    ensures
        kept.channels == app.settings.channels,
        kept.quality == app.settings.quality,
        kept.recursive == app.settings.recursive,
        kept.overwrite == app.settings.overwrite,
        kept.sample_rate == app.settings.sample_rate,
        app.output_dir is None <==> kept.output_dir is None,
        app.output_dir is Some ==> path::path_bytes(kept.output_dir->0) == path::path_bytes(
            app.output_dir->0,
        ),
        first.channels == Channels::Stereo,
        first.quality == 5,
        first.recursive && first.overwrite,
        first.sample_rate == SampleRate::Source,
        first.output_dir is None,
{
}

/// The program at its start: with the settings that were read, or the first ones, and with the
/// search for FFmpeg begun.
pub proof fn programs_start_with_the_search(read: Option<Settings>, app: App)
    requires
        call_ensures(App::new, (read,), app),
    ensures
        read matches Some(settings) ==> app.settings@ == settings@ && path::option_bytes(
            app.output_dir,
        ) == path::option_bytes(settings.output_dir),
        read is None ==> app.settings.channels == Channels::Stereo && app.settings.quality == 5
            && app.settings.recursive && app.settings.overwrite && app.settings.sample_rate
            == SampleRate::Source && app.output_dir is None,
        app.preparing && !app.converting && !app.can_cancel && !app.dragging,
        app.files.len() == 0,
        app.ffmpeg_path is None,
        app.logs.len() == 1,
        app.total == 0 && app.completed == 0,
{
    assert(app@.logs.len() == app.logs.len());
    assert(app@.files.len() == app.files.len());
}

/// The folder that is shown to the user.
pub proof fn folders_come_back(app: App, folder: Option<PathBuf>, can: bool)
    requires
        call_ensures(App::output_folder_to_open, (&app,), folder),
        call_ensures(App::can_open_folder, (&app,), can),
    ensures
        can <==> folder is Some,
        app.output_dir matches Some(dir) ==> folder is Some && path::path_bytes(folder->0)
            == path::path_bytes(dir),
        app.output_dir is None && app.files.len() == 0 ==> folder is None,
{
    assert(app@.files.len() == app.files.len());
}

/// The outputs that come back: one for each input, no two of them the same path, each made of the
/// bytes of its source's name before the last dot, with `.ogg` behind it wherever that is free, in
/// the chosen folder or beside the source.
pub proof fn outputs_come_back(
    output_dir: Option<PathBuf>,
    inputs: Vec<PathBuf>,
    outputs: Vec<PathBuf>,
    i: int,
    name: Seq<u8>,
    dir: Seq<u8>,
)
    requires
        call_ensures(build_output_paths, (&output_dir, &inputs), outputs),
        0 <= i < inputs.len(),
        path::file_name_of(path::path_bytes(inputs[i])) == Some(name),
        valid_utf8(name),
        output_dir is Some ==> dir == path::path_bytes(output_dir->0),
        output_dir is None && path::parent_of(path::path_bytes(inputs[i])) is Some ==> dir
            == path::parent_of(path::path_bytes(inputs[i]))->0,
        output_dir is None && path::parent_of(path::path_bytes(inputs[i])) is None ==> dir
            == encode_utf8("."@),
    ensures
        outputs.len() == inputs.len(),
        forall|j: int|
            0 <= j < i ==> !path::same(
                path::path_bytes(#[trigger] outputs[j]),
                path::path_bytes(outputs[i]),
            ),
        (forall|j: int|
            0 <= j < i ==> !path::same(
                path::path_bytes(#[trigger] outputs[j]),
                path::joined(dir, path::stem_of(name) + encode_utf8(".ogg"@)),
            )) ==> path::path_bytes(outputs[i]) == path::joined(
            dir,
            path::stem_of(name) + encode_utf8(".ogg"@),
        ),
{
    let all = path::list_bytes(outputs@);
    let given = path::option_bytes(output_dir);
    let ins = path::list_bytes(inputs@);
    let first = path::joined(dir, path::stem_of(name) + encode_utf8(".ogg"@));
    text_laws::stem_of_text_is_text(name);
    assert(ins[i] == path::path_bytes(inputs[i]));
    output_laws::outputs_carry_source_names(given, ins, all, i, dir, name);
    assert(all[i] == path::path_bytes(outputs[i]));
    assert forall|j: int| 0 <= j < i implies !path::same(
        path::path_bytes(#[trigger] outputs[j]),
        path::path_bytes(outputs[i]),
    ) by {
        assert(all[j] == path::path_bytes(outputs[j]));
    }
    if output_laws::given_before(all, i, first) {
        let j = choose|j: int| 0 <= j < i && path::same(#[trigger] all[j], first);
        assert(all[j] == path::path_bytes(outputs[j]));
    }
}

/// What is found in an archive is the first entry that is the program, with every entry before it
/// opened; bytes that are no archive are told as damaged.
pub proof fn found_programs_come_back(bytes: Vec<u8>, found: Result<FfmpegArchive, String>, k: int)
    requires
        call_ensures(find_ffmpeg_in_zip, (bytes,), found),
    ensures
        archive::opened(bytes@) matches Err(error) ==> found matches Err(told) && told@
            == "Повреждён архив FFmpeg: "@ + error,
        found matches Ok(f) ==> {
            let all = archive::entries(f.archive);
            &&& archive::opened(bytes@) == Ok::<
                Seq<Result<(Seq<char>, Result<Seq<u8>, Seq<char>>), Seq<char>>>,
                Seq<char>,
            >(all)
            &&& f.index < all.len()
            &&& all[f.index as int] is Ok && archive::is_program(all[f.index as int]->Ok_0.0)
            &&& 0 <= k < f.index ==> all[k] is Ok && !archive::is_program(all[k]->Ok_0.0)
        },
{
    if let Ok(f) = found {
        archive::search_ends_at_first(archive::entries(f.archive), 0, f.index as int);
    }
}

/// The settings lie beside the program.
pub proof fn settings_paths_come_back(exe: Option<PathBuf>, file_path: PathBuf)
    requires
        call_ensures(App::settings_path, (exe,), file_path),
    ensures
        exe is Some && path::parent_of(path::path_bytes(exe->0)) is Some ==> path::path_bytes(
            file_path,
        ) == path::joined(
            path::parent_of(path::path_bytes(exe->0))->0,
            encode_utf8("settings.json"@),
        ),
{
}

} // verus!
