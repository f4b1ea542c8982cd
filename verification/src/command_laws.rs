//! What the FFmpeg command asks for, and what is made of the way it ends.

use vstd::prelude::*;
use vstd::string::*;
use crate::command;
use crate::path;
use crate::settings;
use crate::settings::{Channels, SampleRate};
use crate::text;
use crate::text_laws;

verus! {

/// Whether a word is among the arguments, with another right behind it.
pub open spec fn gives(args: Seq<command::ArgView>, flag: Seq<char>, word: Seq<char>) -> bool {
    exists|k: int|
        0 <= k < args.len() - 1 && #[trigger] args[k] == command::ArgView::Text(flag) && args[k + 1]
            == command::ArgView::Text(word)
}

/// Whether a word is among the arguments.
pub open spec fn mentions(args: Seq<command::ArgView>, flag: Seq<char>) -> bool {
    exists|k: int| 0 <= k < args.len() && #[trigger] args[k] == command::ArgView::Text(flag)
}

/// The number of channels.
pub open spec fn channel_count(channels: Channels) -> nat {
    if channels == Channels::Mono {
        1
    } else {
        2
    }
}

/// The sample rate in hertz, where it is to be changed.
pub open spec fn hertz(rate: SampleRate) -> nat {
    if rate == SampleRate::Hz44100 {
        44100
    } else if rate == SampleRate::Hz48000 {
        48000
    } else {
        0
    }
}

proof fn small_numbers()
    ensures
        text::decimal(1) == "1"@,
        text::decimal(2) == "2"@,
        text::decimal(44100) == "44100"@,
        text::decimal(48000) == "48000"@,
{
    reveal_strlit("1");
    reveal_strlit("2");
    reveal_strlit("44100");
    reveal_strlit("48000");
    reveal_with_fuel(text::decimal, 6);
    assert(text::decimal(1) =~= "1"@);
    assert(text::decimal(2) =~= "2"@);
    assert(text::decimal(44100) =~= "44100"@);
    assert(text::decimal(48000) =~= "48000"@);
}

/// What is handed to FFmpeg for the channels is their number, and for the sample rate its hertz,
/// or nothing where the source's rate is kept.
pub proof fn choices_are_numbers(channels: Channels, rate: SampleRate)
    ensures
        channels == Channels::Mono ==> channels.argument() == text::decimal(1),
        channels == Channels::Stereo ==> channels.argument() == text::decimal(2),
        rate == SampleRate::Hz44100 ==> rate.argument() == Some(text::decimal(44100)),
        rate == SampleRate::Hz48000 ==> rate.argument() == Some(text::decimal(48000)),
        rate == SampleRate::Source ==> rate.argument() is None,
{
    small_numbers();
}

/// The words of the arguments that have to be told apart from `-ar`.
proof fn words_are_not_rate()
    ensures
        "-hide_banner"@ != "-ar"@,
        "-nostdin"@ != "-ar"@,
        "-loglevel"@ != "-ar"@,
        "error"@ != "-ar"@,
        "-y"@ != "-ar"@,
        "-fflags"@ != "-ar"@,
        "+genpts+discardcorrupt"@ != "-ar"@,
        "-err_detect"@ != "-ar"@,
        "ignore_err"@ != "-ar"@,
        "-i"@ != "-ar"@,
        "-map"@ != "-ar"@,
        "0:a:0"@ != "-ar"@,
        "-vn"@ != "-ar"@,
        "-sn"@ != "-ar"@,
        "-dn"@ != "-ar"@,
        "-c:a"@ != "-ar"@,
        "libvorbis"@ != "-ar"@,
        "-q:a"@ != "-ar"@,
        "-ac"@ != "-ar"@,
        "1"@ != "-ar"@,
        "2"@ != "-ar"@,
        "-map_metadata"@ != "-ar"@,
        "0"@ != "-ar"@,
        "-f"@ != "-ar"@,
        "ogg"@ != "-ar"@,
        "44100"@ != "-ar"@,
        "48000"@ != "-ar"@,
{
    reveal_strlit("-ar");
    reveal_strlit("-hide_banner");
    reveal_strlit("-nostdin");
    reveal_strlit("-loglevel");
    reveal_strlit("error");
    reveal_strlit("-y");
    reveal_strlit("-fflags");
    reveal_strlit("+genpts+discardcorrupt");
    reveal_strlit("-err_detect");
    reveal_strlit("ignore_err");
    reveal_strlit("-i");
    reveal_strlit("-map");
    reveal_strlit("0:a:0");
    reveal_strlit("-vn");
    reveal_strlit("-sn");
    reveal_strlit("-dn");
    reveal_strlit("-c:a");
    reveal_strlit("libvorbis");
    reveal_strlit("-q:a");
    reveal_strlit("-ac");
    reveal_strlit("1");
    reveal_strlit("2");
    reveal_strlit("-map_metadata");
    reveal_strlit("0");
    reveal_strlit("-f");
    reveal_strlit("ogg");
    reveal_strlit("44100");
    reveal_strlit("48000");
    assert("-vn"@[1] == 'v' && "-sn"@[1] == 's' && "-dn"@[1] == 'd' && "-ar"@[1] == 'a');
    assert("-ac"@[2] == 'c' && "-ar"@[2] == 'r');
    assert("ogg"@[0] == 'o' && "-ar"@[0] == '-');
}

proof fn quality_is_not_rate(quality: int)
    ensures
        text::signed_decimal(quality) != "-ar"@,
{
    reveal_strlit("-ar");
    text_laws::signed_decimal_reads_back(quality);
    let shown = text::signed_decimal(quality);
    if shown == "-ar"@ {
        assert(shown[1] == 'a');
        if quality < 0 {
            assert(shown.skip(1)[0] == 'a');
        }
    }
}

/// The command asks for the chosen channels, quality and sample rate, each by its number right
/// behind its flag; where the source's rate is kept, no rate is asked for.
pub proof fn command_carries_the_choices(
    ffmpeg: Seq<u8>,
    input: Seq<u8>,
    output: Seq<u8>,
    channels: Channels,
    quality: int,
    rate: SampleRate,
)
    ensures
        ({
            let args = command::conversion_command(
                ffmpeg,
                input,
                output,
                channels,
                quality,
                rate,
            ).args;
            &&& gives(args, "-ac"@, text::decimal(channel_count(channels)))
            &&& gives(args, "-q:a"@, text::signed_decimal(quality))
            &&& rate == SampleRate::Hz44100 ==> gives(args, "-ar"@, "44100"@)
            &&& rate == SampleRate::Hz48000 ==> gives(args, "-ar"@, "48000"@)
            &&& rate != SampleRate::Source ==> gives(args, "-ar"@, text::decimal(hertz(rate)))
            &&& rate == SampleRate::Source ==> !mentions(args, "-ar"@)
            &&& forall|k: int|
                0 <= k < args.len() && #[trigger] args[k] == command::ArgView::Text("-ar"@) ==> k
                    + 1 < args.len() && args[k + 1] == command::ArgView::Text(
                    text::decimal(hertz(rate)),
                )
        }),
{
    let args = command::conversion_command(ffmpeg, input, output, channels, quality, rate).args;
    small_numbers();
    words_are_not_rate();
    quality_is_not_rate(quality);
    assert(args[18] == command::ArgView::Text("-q:a"@));
    assert(args[20] == command::ArgView::Text("-ac"@));
    assert(args[21] == command::ArgView::Text(text::decimal(channel_count(channels))));
    if rate != SampleRate::Source {
        assert(args[24] == command::ArgView::Text("-ar"@));
        assert(args[25] == command::ArgView::Text(text::decimal(hertz(rate))));
    }
    assert forall|k: int|
        0 <= k < args.len() && #[trigger] args[k] == command::ArgView::Text("-ar"@) implies k == 24
        && rate != SampleRate::Source by {}
}

/// The command is that of the FFmpeg given, run in its own directory. It reads the input given,
/// leniently and without asking, and writes the output given, as OGG Vorbis, replacing what is
/// there. Of the input it takes the first audio stream and nothing else, with what is told about
/// the whole. There is nothing more in it than this and the choices.
pub proof fn command_converts_to_vorbis(
    ffmpeg: Seq<u8>,
    input: Seq<u8>,
    output: Seq<u8>,
    channels: Channels,
    quality: int,
    rate: SampleRate,
)
    ensures
        ({
            let made = command::conversion_command(
                ffmpeg,
                input,
                output,
                channels,
                quality,
                rate,
            );
            let args = made.args;
            &&& made.program == ffmpeg
            &&& made.current_dir == path::parent_of(ffmpeg)
            &&& args.len() == if rate == SampleRate::Source {
                27int
            } else {
                29int
            }
            &&& args[9] == command::ArgView::Text("-i"@)
            &&& args[10] == command::ArgView::Path(input)
            &&& args.last() == command::ArgView::Path(output)
            &&& gives(args.take(9), "-loglevel"@, "error"@)
            &&& gives(args.take(9), "-fflags"@, "+genpts+discardcorrupt"@)
            &&& gives(args.take(9), "-err_detect"@, "ignore_err"@)
            &&& mentions(args.take(9), "-hide_banner"@)
            &&& mentions(args.take(9), "-nostdin"@)
            &&& mentions(args.take(9), "-y"@)
            &&& gives(args.skip(11), "-map"@, "0:a:0"@)
            &&& mentions(args.skip(11), "-vn"@)
            &&& mentions(args.skip(11), "-sn"@)
            &&& mentions(args.skip(11), "-dn"@)
            &&& gives(args.skip(11), "-c:a"@, "libvorbis"@)
            &&& gives(args.skip(11), "-q:a"@, text::signed_decimal(quality))
            &&& gives(args.skip(11), "-ac"@, text::decimal(channel_count(channels)))
            &&& gives(args.skip(11), "-map_metadata"@, "0"@)
            &&& gives(args.skip(11), "-f"@, "ogg"@)
            &&& forall|k: int|
                0 <= k < args.len() && (#[trigger] args[k]) is Path ==> k == 10 || k == args.len()
                    - 1
        }),
{
    let args = command::conversion_command(ffmpeg, input, output, channels, quality, rate).args;
    small_numbers();
    let front = args.take(9);
    let back = args.skip(11);
    assert(front[0] == command::ArgView::Text("-hide_banner"@));
    assert(front[1] == command::ArgView::Text("-nostdin"@));
    assert(front[2] == command::ArgView::Text("-loglevel"@));
    assert(front[3] == command::ArgView::Text("error"@));
    assert(front[4] == command::ArgView::Text("-y"@));
    assert(front[5] == command::ArgView::Text("-fflags"@));
    assert(front[6] == command::ArgView::Text("+genpts+discardcorrupt"@));
    assert(front[7] == command::ArgView::Text("-err_detect"@));
    assert(front[8] == command::ArgView::Text("ignore_err"@));
    assert(back[0] == command::ArgView::Text("-map"@));
    assert(back[1] == command::ArgView::Text("0:a:0"@));
    assert(back[2] == command::ArgView::Text("-vn"@));
    assert(back[3] == command::ArgView::Text("-sn"@));
    assert(back[4] == command::ArgView::Text("-dn"@));
    assert(back[5] == command::ArgView::Text("-c:a"@));
    assert(back[6] == command::ArgView::Text("libvorbis"@));
    assert(back[7] == command::ArgView::Text("-q:a"@));
    assert(back[8] == command::ArgView::Text(text::signed_decimal(quality)));
    assert(back[9] == command::ArgView::Text("-ac"@));
    assert(back[10] == command::ArgView::Text(text::decimal(channel_count(channels))));
    assert(back[11] == command::ArgView::Text("-map_metadata"@));
    assert(back[12] == command::ArgView::Text("0"@));
    let n: int = if rate == SampleRate::Source {
        13
    } else {
        15
    };
    assert(back[n] == command::ArgView::Text("-f"@));
    assert(back[n + 1] == command::ArgView::Text("ogg"@));
}

/// Different conversions have different commands: the arguments tell the input, the output, the
/// channels, the quality and the sample rate.
pub proof fn commands_differ(
    input: Seq<u8>,
    output: Seq<u8>,
    channels: Channels,
    quality: int,
    rate: SampleRate,
    input2: Seq<u8>,
    output2: Seq<u8>,
    channels2: Channels,
    quality2: int,
    rate2: SampleRate,
)
    requires
        command::conversion_args(input, output, channels, quality, rate)
            == command::conversion_args(input2, output2, channels2, quality2, rate2),
    ensures
        input == input2,
        output == output2,
        channels == channels2,
        quality == quality2,
        rate == rate2,
{
    let a = command::conversion_args(input, output, channels, quality, rate);
    let b = command::conversion_args(input2, output2, channels2, quality2, rate2);
    small_numbers();
    assert(a[10] == command::ArgView::Path(input));
    assert(b[10] == command::ArgView::Path(input2));
    assert(a.last() == command::ArgView::Path(output));
    assert(b.last() == command::ArgView::Path(output2));
    assert(a[19] == command::ArgView::Text(text::signed_decimal(quality)));
    assert(b[19] == command::ArgView::Text(text::signed_decimal(quality2)));
    text_laws::signed_decimal_injective(quality, quality2);
    assert(a[21] == command::ArgView::Text(text::decimal(channel_count(channels))));
    assert(b[21] == command::ArgView::Text(text::decimal(channel_count(channels2))));
    text::decimal_injective(channel_count(channels), channel_count(channels2));
    if rate != SampleRate::Source && rate2 != SampleRate::Source {
        assert(a[25] == command::ArgView::Text(text::decimal(hertz(rate))));
        assert(b[25] == command::ArgView::Text(text::decimal(hertz(rate2))));
        text::decimal_injective(hertz(rate), hertz(rate2));
    }
}

/// A run is a success if and only if the process started and ended well. A process that did not
/// start is told with the reason. One that ended badly is told with its code, or that a signal
/// ended it, and with what it wrote, trimmed and errors first; if it wrote nothing, that is told.
pub proof fn runs_are_judged(run: Result<command::OutputView, Seq<char>>)
    ensures
        command::verdict(run) is Ok <==> (run is Ok && run->Ok_0.success),
        run matches Err(error) ==> command::verdict(run) == Err::<(), Seq<char>>(
            "Не удалось запустить FFmpeg: "@ + error,
        ),
        run matches Ok(output) && !output.success ==> ({
            let errors = text::trimmed(text::lossy_text(run->Ok_0.stderr));
            let words = text::trimmed(text::lossy_text(run->Ok_0.stdout));
            let code = match run->Ok_0.code {
                Some(c) => text::signed_decimal(c as int),
                None => "сигнал"@,
            };
            let told = command::verdict(run)->Err_0;
            &&& errors.len() > 0 && words.len() > 0 ==> told == "код "@ + code + " · "@ + errors
                + " · "@ + words
            &&& errors.len() > 0 && words.len() == 0 ==> told == "код "@ + code + " · "@ + errors
            &&& errors.len() == 0 && words.len() > 0 ==> told == "код "@ + code + " · "@ + words
            &&& errors.len() == 0 && words.len() == 0 ==> told == "код "@ + code
                + " · FFmpeg ничего не вывел (файл занят, нет прав или антивирус перехватил процесс)"@
        }),
{
    if let Ok(output) = run {
        if !output.success {
            let errors = text::trimmed(text::lossy_text(output.stderr));
            let words = text::trimmed(text::lossy_text(output.stdout));
            let code = match output.code {
                Some(c) => text::signed_decimal(c as int),
                None => "сигнал"@,
            };
            let told = command::verdict(run)->Err_0;
            if errors.len() > 0 && words.len() > 0 {
                assert(told =~= "код "@ + code + " · "@ + errors + " · "@ + words);
            } else if errors.len() > 0 {
                assert(told =~= "код "@ + code + " · "@ + errors);
            } else if words.len() > 0 {
                assert(told =~= "код "@ + code + " · "@ + words);
            } else {
                assert(told =~= "код "@ + code
                    + " · FFmpeg ничего не вывел (файл занят, нет прав или антивирус перехватил процесс)"@);
            }
        }
    }
}

/// What is said of a quality depends on it alone: on the five bands from nought to two, to four,
/// to six, to eight, and all others, each of which has its own words.
pub proof fn hints_follow_the_bands(quality: int)
    ensures
        quality == 0 || quality == 1 || quality == 2 ==> settings::hint(quality)
            == "~64–96 кбит/с · компактно"@,
        quality == 3 || quality == 4 ==> settings::hint(quality)
            == "~112–128 кбит/с · речь / подкаст"@,
        quality == 5 || quality == 6 ==> settings::hint(quality)
            == "~160–192 кбит/с · музыка"@,
        quality == 7 || quality == 8 ==> settings::hint(quality)
            == "~224–256 кбит/с · высокое"@,
        quality < 0 || quality > 8 ==> settings::hint(quality)
            == "~320 кбит/с · почти без потерь"@,
{
}

} // verus!
