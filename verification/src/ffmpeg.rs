//! Where FFmpeg is looked for, how it is tried out, and what is copied and downloaded.

use std::path::PathBuf;
use vstd::prelude::*;
use vstd::string::*;
use vstd::utf8::*;
use crate::command;
use crate::command::{Arg, FfmpegCommand};
use crate::path;
use crate::path::{
    copy_path, display, file_name, join, join_text, parent, path_from, path_text,
};
use crate::text;
use crate::text::eq_ignore_ascii_case;

verus! {

/// The platform that the program runs on.
#[derive(Debug, Clone, Copy, PartialEq, Eq, Structural)]
pub enum Platform {
    Windows,
    Linux,
    Other,
}

/// An embedded FFmpeg is taken for one if it has more bytes than this.
pub const EMBEDDED_MINIMUM: usize = 1_000_000;

/// The file name of the FFmpeg program.
pub open spec fn program_name(platform: Platform) -> Seq<char> {
    match platform {
        Platform::Windows => "ffmpeg.exe"@,
        _ => "ffmpeg"@,
    }
}

/// The file name of the FFmpeg program.
pub fn bin_name(platform: Platform) -> (name: &'static str)
    ensures
        name@ == program_name(platform),
{
    match platform {
        Platform::Windows => "ffmpeg.exe",
        _ => "ffmpeg",
    }
}

/// The folder of a platform's program among the assets.
pub open spec fn asset_folder_name(platform: Platform) -> Seq<char> {
    match platform {
        Platform::Windows => "windows"@,
        Platform::Linux => "linux"@,
        Platform::Other => "macos"@,
    }
}

/// The folder of a platform's program among the assets.
pub fn asset_folder(platform: Platform) -> (name: &'static str)
    ensures
        name@ == asset_folder_name(platform),
{
    match platform {
        Platform::Windows => "windows",
        Platform::Linux => "linux",
        Platform::Other => "macos",
    }
}

/// The environment variable that names the directory above the cache.
pub fn cache_variable(platform: Platform) -> (name: &'static str)
    ensures
        name@ == match platform {
            Platform::Windows => "LOCALAPPDATA"@,
            _ => "HOME"@,
        },
{
    match platform {
        Platform::Windows => "LOCALAPPDATA",
        _ => "HOME",
    }
}

/// The directory that FFmpeg is kept in, below a base directory.
pub open spec fn cache_below(platform: Platform, base: Seq<u8>) -> Seq<u8> {
    let own = match platform {
        Platform::Windows => "schrodinger-audio-converter"@,
        _ => ".local/share/schrodinger-audio-converter"@,
    };
    path::joined(path::joined(base, encode_utf8(own)), encode_utf8("ffmpeg"@))
}

/// The directory that FFmpeg is kept in: below the directory that the environment names, or
/// below the one for temporary files where it names none.
pub fn cache_dir(platform: Platform, named: Option<PathBuf>, temporary: PathBuf) -> (dir: PathBuf)
    ensures
        path::path_bytes(dir) == cache_below(
            platform,
            match named {
                Some(base) => path::path_bytes(base),
                None => path::path_bytes(temporary),
            },
        ),
{
    let base = match named {
        Some(base) => base,
        None => temporary,
    };
    let own = match platform {
        Platform::Windows => "schrodinger-audio-converter",
        _ => ".local/share/schrodinger-audio-converter",
    };
    join_text(&join_text(&base, own), "ffmpeg")
}

/// The program among the assets below a directory.
pub open spec fn asset_below(platform: Platform, root: Seq<u8>) -> Seq<u8> {
    path::joined(
        path::joined(
            path::joined(root, encode_utf8("assets/ffmpeg"@)),
            encode_utf8(asset_folder_name(platform)),
        ),
        encode_utf8(program_name(platform)),
    )
}

/// The program in the folder `ffmpeg` of a directory.
pub open spec fn program_below(platform: Platform, dir: Seq<u8>) -> Seq<u8> {
    path::joined(
        path::joined(dir, encode_utf8("ffmpeg"@)),
        encode_utf8(program_name(platform)),
    )
}

/// The places around this program where FFmpeg may lie.
pub open spec fn places_around_program(platform: Platform, exe: Option<Seq<u8>>) -> Seq<Seq<u8>> {
    match exe {
        None => Seq::empty(),
        Some(program) => match path::parent_of(program) {
            None => Seq::empty(),
            Some(dir) => seq![
                path::joined(dir, encode_utf8(program_name(platform))),
                program_below(platform, dir),
                asset_below(platform, dir),
            ] + match path::parent_of(dir) {
                None => Seq::empty(),
                Some(above) => match path::parent_of(above) {
                    None => Seq::empty(),
                    Some(root) => seq![asset_below(platform, root)],
                },
            },
        },
    }
}

/// The places in the current directory where FFmpeg may lie.
pub open spec fn places_in_current(platform: Platform, current: Option<Seq<u8>>) -> Seq<Seq<u8>> {
    match current {
        None => Seq::empty(),
        Some(dir) => seq![asset_below(platform, dir), program_below(platform, dir)],
    }
}

/// All places where an installed FFmpeg is looked for, in the order in which they are.
pub open spec fn local_places(
    platform: Platform,
    project: Seq<u8>,
    exe: Option<Seq<u8>>,
    current: Option<Seq<u8>>,
) -> Seq<Seq<u8>> {
    seq![asset_below(platform, project)] + places_around_program(platform, exe)
        + places_in_current(platform, current)
}

fn asset_path(platform: Platform, root: &PathBuf) -> (file: PathBuf)
    ensures
        path::path_bytes(file) == asset_below(platform, path::path_bytes(*root)),
{
    let assets = join_text(root, "assets/ffmpeg");
    let folder = join_text(&assets, asset_folder(platform));
    join_text(&folder, bin_name(platform))
}

fn program_path(platform: Platform, dir: &PathBuf) -> (file: PathBuf)
    ensures
        path::path_bytes(file) == program_below(platform, path::path_bytes(*dir)),
{
    join_text(&join_text(dir, "ffmpeg"), bin_name(platform))
}

fn push_place(places: &mut Vec<PathBuf>, place: PathBuf)
    ensures
        path::list_bytes(final(places)@) == path::list_bytes(old(places)@).push(
            path::path_bytes(place),
        ),
{
    places.push(place);
    assert(path::list_bytes(places@) =~= path::list_bytes(old(places)@).push(
        path::path_bytes(place),
    ));
}

/// All places where an installed FFmpeg is looked for, in the order in which they are: among the
/// project's assets, around this program, and in the current directory.
pub fn local_candidates(
    platform: Platform,
    project: &PathBuf,
    exe: &Option<PathBuf>,
    current: &Option<PathBuf>,
) -> (places: Vec<PathBuf>)
    ensures
        path::list_bytes(places@) == local_places(
            platform,
            path::path_bytes(*project),
            path::option_bytes(*exe),
            path::option_bytes(*current),
        ),
{
    let mut places: Vec<PathBuf> = Vec::new();
    push_place(&mut places, asset_path(platform, project));
    if let Some(program) = exe {
        if let Some(dir) = parent(program) {
            push_place(&mut places, join_text(&dir, bin_name(platform)));
            push_place(&mut places, program_path(platform, &dir));
            push_place(&mut places, asset_path(platform, &dir));
            if let Some(above) = parent(&dir) {
                if let Some(root) = parent(&above) {
                    push_place(&mut places, asset_path(platform, &root));
                }
            }
        }
    }
    assert(path::list_bytes(places@) =~= seq![asset_below(platform, path::path_bytes(*project))]
        + places_around_program(platform, path::option_bytes(*exe)));
    if let Some(dir) = current {
        push_place(&mut places, asset_path(platform, dir));
        push_place(&mut places, program_path(platform, dir));
    }
    assert(path::list_bytes(places@) =~= local_places(
        platform,
        path::path_bytes(*project),
        path::option_bytes(*exe),
        path::option_bytes(*current),
    ));
    places
}

/// The first of the places at which a file was found.
pub open spec fn first_place(places: Seq<Seq<u8>>, is_file: Seq<bool>) -> Option<Seq<u8>>
    decreases places.len(),
{
    if places.len() == 0 {
        None
    } else if is_file[0] {
        Some(places[0])
    } else {
        first_place(places.drop_first(), is_file.drop_first())
    }
}

/// The first of `places` at which a file was found.
pub fn find_local_install(places: &Vec<PathBuf>, is_file: &Vec<bool>) -> (found: Option<PathBuf>)
    requires
        places.len() == is_file.len(),
    ensures
        path::option_bytes(found) == first_place(path::list_bytes(places@), is_file@),
{
    let ghost all = path::list_bytes(places@);
    let mut i: usize = 0;
    assert(all.skip(0) =~= all);
    assert(is_file@.skip(0) =~= is_file@);
    while i < places.len()
        invariant
            i <= places.len(),
            places.len() == is_file.len(),
            all == path::list_bytes(places@),
            first_place(all, is_file@) == first_place(all.skip(i as int), is_file@.skip(i as int)),
        decreases places.len() - i,
    {
        assert(all.skip(i as int)[0] == path::path_bytes(places[i as int]));
        assert(is_file@.skip(i as int)[0] == is_file@[i as int]);
        if is_file[i] {
            return Some(copy_path(&places[i]));
        }
        assert(all.skip(i as int).drop_first() =~= all.skip(i + 1));
        assert(is_file@.skip(i as int).drop_first() =~= is_file@.skip(i + 1));
        i += 1;
    }
    None
}

/// The command that tries whether an FFmpeg runs.
pub open spec fn probe_view(platform: Platform, program: Seq<u8>) -> command::CommandView {
    command::CommandView {
        program,
        current_dir: match platform {
            Platform::Windows => path::parent_of(program),
            _ => None,
        },
        args: seq![
            command::ArgView::Text("-hide_banner"@),
            command::ArgView::Text("-version"@),
        ],
    }
}

/// The command that tries whether the FFmpeg at `program` runs.
pub fn probe_command(platform: Platform, program: &PathBuf) -> (command: FfmpegCommand)
    ensures
        command@ == probe_view(platform, path::path_bytes(*program)),
{
    let mut args: Vec<Arg> = Vec::new();
    args.push(Arg::Text("-hide_banner".to_owned()));
    args.push(Arg::Text("-version".to_owned()));
    assert(command::args_view(args@) =~= seq![
        command::ArgView::Text("-hide_banner"@),
        command::ArgView::Text("-version"@),
    ]);
    let current_dir = match platform {
        Platform::Windows => parent(program),
        _ => None,
    };
    FfmpegCommand { program: copy_path(program), current_dir, args }
}

/// The command that tries whether the FFmpeg at `program` runs, if there is a file. Where there
/// is none, nothing is run.
pub fn probe_if_file(platform: Platform, program: &PathBuf, is_file: bool) -> (command: Option<
    FfmpegCommand,
>)
    ensures
        command is Some == is_file,
        command matches Some(c) ==> c@ == probe_view(platform, path::path_bytes(*program)),
{
    if is_file {
        Some(probe_command(platform, program))
    } else {
        None
    }
}

/// Whether an FFmpeg works: there is a file, it could be started, and it ended well.
pub fn works(is_file: bool, ended_well: Option<bool>) -> (verdict: bool)
    ensures
        verdict == (is_file && ended_well == Some(true)),
{
    match ended_well {
        Some(well) => is_file && well,
        None => false,
    }
}

/// Whether bytes are to be written to a file: unless a file of just their number is there.
pub fn should_write(present: Option<u64>, len: u64) -> (write: bool)
    ensures
        write == (present != Some(len)),
{
    match present {
        Some(there) => there != len,
        None => true,
    }
}

/// What is said when a file could not be written.
pub fn write_error(file: &PathBuf, error: &str) -> (message: String)
    ensures
        message@ == "Не удалось записать "@ + path::displayed(path::path_bytes(*file)) + ": "@
            + error@,
{
    let mut message = "Не удалось записать ".to_owned();
    message.append(display(file).as_str());
    message.append(": ");
    message.append(error);
    message
}

/// Where an entry of an FFmpeg directory is copied to: files go under their own name, except
/// for a note named `ffmpeg.txt`.
pub open spec fn copy_place(to: Seq<u8>, entry: Seq<u8>, is_file: bool) -> Option<Seq<u8>> {
    match path::file_name_of(entry) {
        Some(name) => {
            let is_note = match text::utf8_text(name) {
                Some(t) => text::same_ignoring_case(t, "ffmpeg.txt"@),
                None => false,
            };
            if is_file && !is_note {
                Some(path::joined(to, name))
            } else {
                None
            }
        },
        None => None,
    }
}

/// Where the entry `entry` of an FFmpeg directory is copied to in the directory `to`, if at all.
pub fn copy_target(to: &PathBuf, entry: &PathBuf, is_file: bool) -> (target: Option<PathBuf>)
    ensures
        path::option_bytes(target) == copy_place(
            path::path_bytes(*to),
            path::path_bytes(*entry),
            is_file,
        ),
{
    if !is_file {
        return None;
    }
    match file_name(entry) {
        Some(name) => {
            let is_note = match path_text(&name) {
                Some(t) => eq_ignore_ascii_case(t.as_str(), "ffmpeg.txt"),
                None => false,
            };
            if is_note {
                None
            } else {
                Some(join(to, &name))
            }
        },
        None => None,
    }
}

/// Whether a file is to be copied: unless both sizes are known and equal.
pub open spec fn copy_is_needed(from: Option<u64>, to: Option<u64>) -> bool {
    !(from is Some && from == to)
}

/// Whether a file is to be copied: unless both sizes are known and equal.
pub fn copy_needed(from: Option<u64>, to: Option<u64>) -> (needed: bool)
    ensures
        needed == copy_is_needed(from, to),
{
    match (from, to) {
        (Some(a), Some(b)) => a != b,
        _ => true,
    }
}

/// What is said when a file could not be copied.
pub open spec fn copy_error_text(from: Seq<u8>, to: Seq<u8>, error: Seq<char>) -> Seq<char> {
    "Не удалось скопировать "@ + path::displayed(from) + " → "@ + path::displayed(to) + ": "@
        + error
}

/// What is said when a file could not be copied.
pub fn copy_error(from: &PathBuf, to: &PathBuf, error: &str) -> (message: String)
    ensures
        message@ == copy_error_text(path::path_bytes(*from), path::path_bytes(*to), error@),
{
    let mut message = "Не удалось скопировать ".to_owned();
    message.append(display(from).as_str());
    message.append(" → ");
    message.append(display(to).as_str());
    message.append(": ");
    message.append(error);
    message
}

/// Where the archive with FFmpeg is downloaded to, or that there is none for the platform.
pub open spec fn download_place(platform: Platform, dest: Seq<u8>) -> Result<Seq<u8>, Seq<char>> {
    match platform {
        Platform::Windows => Ok(
            path::joined(
                match path::parent_of(dest) {
                    Some(dir) => dir,
                    None => encode_utf8("."@),
                },
                encode_utf8("ffmpeg-download.zip"@),
            ),
        ),
        _ => Err(
            "Автоскачивание FFmpeg есть только для Windows. Положите бинарник ffmpeg в assets/ffmpeg/linux/."@,
        ),
    }
}

/// Where the archive with the FFmpeg for `dest` is downloaded to: beside it. There is an archive
/// for Windows only.
pub fn download_static(platform: Platform, dest: &PathBuf) -> (archive: Result<PathBuf, String>)
    ensures
        match archive {
            Ok(file) => download_place(platform, path::path_bytes(*dest)) == Ok::<
                Seq<u8>,
                Seq<char>,
            >(path::path_bytes(file)),
            Err(message) => download_place(platform, path::path_bytes(*dest)) == Err::<
                Seq<u8>,
                Seq<char>,
            >(message@),
        },
{
    match platform {
        Platform::Windows => {
            let dir = match parent(dest) {
                Some(dir) => dir,
                None => path_from("."),
            };
            Ok(join_text(&dir, "ffmpeg-download.zip"))
        },
        _ => Err(
            "Автоскачивание FFmpeg есть только для Windows. Положите бинарник ffmpeg в assets/ffmpeg/linux/.".to_owned(),
        ),
    }
}

/// A list of paths with one put in front.
pub fn prepend_path(dir: &PathBuf, paths: Vec<PathBuf>) -> (list: Vec<PathBuf>)
    ensures
        path::list_bytes(list@) == seq![path::path_bytes(*dir)] + path::list_bytes(paths@),
{
    let mut list = paths;
    list.insert(0, copy_path(dir));
    assert(path::list_bytes(list@) =~= seq![path::path_bytes(*dir)] + path::list_bytes(paths@));
    list
}

} // verus!
