//! Where FFmpeg is looked for and what is made of what is found.

use vstd::prelude::*;
use vstd::string::*;
use vstd::utf8::*;
use crate::command;
use crate::ffmpeg;
use crate::ffmpeg::Platform;
use crate::path;
use crate::text;

verus! {

/// The program is `ffmpeg`, with `.exe` behind it on Windows and nowhere else; its folder among
/// the assets is named after the platform.
pub proof fn programs_are_named_by_platform(platform: Platform)
    ensures
        platform == Platform::Windows ==> ffmpeg::program_name(platform) == "ffmpeg"@ + ".exe"@,
        platform != Platform::Windows ==> ffmpeg::program_name(platform) == "ffmpeg"@,
        platform == Platform::Windows ==> ffmpeg::asset_folder_name(platform) == "windows"@,
        platform == Platform::Linux ==> ffmpeg::asset_folder_name(platform) == "linux"@,
        platform == Platform::Other ==> ffmpeg::asset_folder_name(platform) == "macos"@,
{
    reveal_strlit("ffmpeg");
    reveal_strlit(".exe");
    reveal_strlit("ffmpeg.exe");
    assert("ffmpeg.exe"@ =~= "ffmpeg"@ + ".exe"@);
}

/// The cache lies below the base in a folder of the converter's own, which is under `.local/share`
/// except on Windows, and in there in `ffmpeg`.
pub proof fn cache_lies_below_the_base(base: Seq<u8>)
    ensures
        ffmpeg::cache_below(Platform::Windows, base) == path::joined(
            path::joined(base, encode_utf8("schrodinger-audio-converter"@)),
            encode_utf8("ffmpeg"@),
        ),
        ffmpeg::cache_below(Platform::Linux, base) == path::joined(
            path::joined(base, encode_utf8(".local/share/schrodinger-audio-converter"@)),
            encode_utf8("ffmpeg"@),
        ),
        ffmpeg::cache_below(Platform::Other, base) == ffmpeg::cache_below(Platform::Linux, base),
{
}

/// The program among the assets below a folder.
pub open spec fn asset(root: Seq<u8>, folder: Seq<char>, program: Seq<char>) -> Seq<u8> {
    path::joined(
        path::joined(path::joined(root, encode_utf8("assets/ffmpeg"@)), encode_utf8(folder)),
        encode_utf8(program),
    )
}

/// An installed FFmpeg is looked for in this order: among the project's assets; where the
/// converter's folder is known, in it, in its folder `ffmpeg`, among its assets, and among the
/// assets two folders further up where there are two; and where the current folder is known,
/// among its assets and in its folder `ffmpeg`.
pub proof fn places_come_in_order(
    platform: Platform,
    project: Seq<u8>,
    exe: Seq<u8>,
    here: Seq<u8>,
)
    ensures
        ({
            let program = ffmpeg::program_name(platform);
            let folder = ffmpeg::asset_folder_name(platform);
            let name = encode_utf8(program);
            let sub = encode_utf8("ffmpeg"@);
            let all = ffmpeg::local_places(platform, project, Some(exe), Some(here));
            let few = ffmpeg::local_places(platform, project, Some(exe), None);
            let lost = ffmpeg::local_places(platform, project, None, Some(here));
            let above = path::parent_of(path::parent_of(exe)->0);
            &&& ffmpeg::local_places(platform, project, None, None) == seq![
                asset(project, folder, program),
            ]
            &&& lost == seq![
                asset(project, folder, program),
                asset(here, folder, program),
                path::joined(path::joined(here, sub), name),
            ]
            &&& path::parent_of(exe) is None ==> all == lost
            &&& path::parent_of(exe) matches Some(dir) ==> all == few + seq![
                asset(here, folder, program),
                path::joined(path::joined(here, sub), name),
            ] && few.take(4) == seq![
                asset(project, folder, program),
                path::joined(dir, name),
                path::joined(path::joined(dir, sub), name),
                asset(dir, folder, program),
            ]
            &&& path::parent_of(exe) is Some && above is Some && path::parent_of(above->0) is Some
                ==> few.len() == 5 && few[4] == asset(
                path::parent_of(above->0)->0,
                folder,
                program,
            )
            &&& path::parent_of(exe) is Some && (above is None || path::parent_of(above->0)
                is None) ==> few.len() == 4
        }),
{
    let program = ffmpeg::program_name(platform);
    let folder = ffmpeg::asset_folder_name(platform);
    let name = encode_utf8(program);
    let sub = encode_utf8("ffmpeg"@);
    let all = ffmpeg::local_places(platform, project, Some(exe), Some(here));
    let few = ffmpeg::local_places(platform, project, Some(exe), None);
    let lost = ffmpeg::local_places(platform, project, None, Some(here));
    assert(ffmpeg::local_places(platform, project, None, None) =~= seq![
        asset(project, folder, program),
    ]);
    assert(lost =~= seq![
        asset(project, folder, program),
        asset(here, folder, program),
        path::joined(path::joined(here, sub), name),
    ]);
    if let Some(dir) = path::parent_of(exe) {
        assert(all =~= few + seq![
            asset(here, folder, program),
            path::joined(path::joined(here, sub), name),
        ]);
        assert(few.take(4) =~= seq![
            asset(project, folder, program),
            path::joined(dir, name),
            path::joined(path::joined(dir, sub), name),
            asset(dir, folder, program),
        ]);
    } else {
        assert(all =~= lost);
    }
}

/// What is found is the first of the places at which there is a file, and nothing where there is
/// none.
pub proof fn first_file_is_found(places: Seq<Seq<u8>>, is_file: Seq<bool>, at: int)
    requires
        places.len() == is_file.len(),
    ensures
        0 <= at < places.len() && is_file[at] && (forall|j: int|
            0 <= j < at ==> !#[trigger] is_file[j]) ==> ffmpeg::first_place(places, is_file)
            == Some(places[at]),
        (forall|j: int| 0 <= j < places.len() ==> !#[trigger] is_file[j]) ==> ffmpeg::first_place(
            places,
            is_file,
        ) is None,
    decreases places.len(),
{
    if places.len() > 0 && !is_file[0] {
        let rest = is_file.drop_first();
        first_file_is_found(places.drop_first(), rest, at - 1);
        assert(forall|j: int| 0 <= j < rest.len() ==> #[trigger] rest[j] == is_file[j + 1]);
    }
}

/// An FFmpeg is tried by asking for its version, and nothing else; on Windows in its own folder.
pub proof fn tries_ask_for_the_version(platform: Platform, program: Seq<u8>)
    ensures
        ffmpeg::probe_view(platform, program).program == program,
        ffmpeg::probe_view(platform, program).args.len() == 2,
        ffmpeg::probe_view(platform, program).args[0] == command::ArgView::Text("-hide_banner"@),
        ffmpeg::probe_view(platform, program).args[1] == command::ArgView::Text("-version"@),
        platform == Platform::Windows ==> ffmpeg::probe_view(platform, program).current_dir
            == path::parent_of(program),
        platform != Platform::Windows ==> ffmpeg::probe_view(platform, program).current_dir
            is None,
{
}

/// A file of an FFmpeg folder is copied under its own name, whatever it is, but for a note named
/// `ffmpeg.txt` in whatever case; what is no file or has no name is not copied.
pub proof fn files_are_copied_but_for_the_note(to: Seq<u8>, entry: Seq<u8>, name: Seq<u8>)
    ensures
        ffmpeg::copy_place(to, entry, false) is None,
        path::file_name_of(entry) is None ==> ffmpeg::copy_place(to, entry, true) is None,
        path::file_name_of(entry) == Some(name) && !(valid_utf8(name) && text::same_ignoring_case(
            decode_utf8(name),
            "ffmpeg.txt"@,
        )) ==> ffmpeg::copy_place(to, entry, true) == Some(path::joined(to, name)),
        path::file_name_of(entry) == Some(name) && valid_utf8(name) && text::same_ignoring_case(
            decode_utf8(name),
            "ffmpeg.txt"@,
        ) ==> ffmpeg::copy_place(to, entry, true) is None,
{
}

/// A copy is left out only where both sizes are known and equal.
pub proof fn copies_depend_on_sizes(from: Option<u64>, to: Option<u64>)
    ensures
        from is None || to is None ==> ffmpeg::copy_is_needed(from, to),
        from is Some && to is Some ==> (ffmpeg::copy_is_needed(from, to) <==> from->0 != to->0),
{
}

/// What is said of a copy that failed names both files and the reason.
pub proof fn failed_copies_are_told(from: Seq<u8>, to: Seq<u8>, error: Seq<char>)
    ensures
        ffmpeg::copy_error_text(from, to, error) == "Не удалось скопировать "@ + path::displayed(
            from,
        ) + " → "@ + path::displayed(to) + ": "@ + error,
{
}

/// There is a download for Windows only. It goes beside the place where FFmpeg is to lie, or into
/// the current folder where that has none.
pub proof fn downloads_are_for_windows(platform: Platform, dest: Seq<u8>)
    ensures
        platform != Platform::Windows ==> ffmpeg::download_place(platform, dest) == Err::<
            Seq<u8>,
            Seq<char>,
        >(
            "Автоскачивание FFmpeg есть только для Windows. Положите бинарник ffmpeg в assets/ffmpeg/linux/."@,
        ),
        platform == Platform::Windows && path::parent_of(dest) is Some ==> ffmpeg::download_place(
            platform,
            dest,
        ) == Ok::<Seq<u8>, Seq<char>>(
            path::joined(path::parent_of(dest)->0, encode_utf8("ffmpeg-download.zip"@)),
        ),
        platform == Platform::Windows && path::parent_of(dest) is None ==> ffmpeg::download_place(
            platform,
            dest,
        ) == Ok::<Seq<u8>, Seq<char>>(
            path::joined(encode_utf8("."@), encode_utf8("ffmpeg-download.zip"@)),
        ),
{
}

} // verus!
