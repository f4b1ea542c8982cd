use schrodinger_audio_converter::app::{DirItem, PathKind};
use schrodinger_audio_converter::command::Arg;
use schrodinger_audio_converter::copying::{copy_dir_files, CopyReply, CopyRequest};
use schrodinger_audio_converter::ffmpeg::{
    asset_folder, bin_name, cache_dir, cache_variable, copy_error, copy_needed, copy_target,
    download_static, find_local_install, local_candidates, prepend_path, probe_command,
    probe_if_file, should_write, works, write_error, Platform, EMBEDDED_MINIMUM,
};
use schrodinger_audio_converter::setup::{prepare, SetupReply, SetupRequest, SetupStage};
use std::path::PathBuf;

fn paths(list: &[&str]) -> Vec<PathBuf> {
    list.iter().map(PathBuf::from).collect()
}

#[test]
fn names_by_platform() {
    assert_eq!(bin_name(Platform::Windows), "ffmpeg.exe");
    assert_eq!(bin_name(Platform::Linux), "ffmpeg");
    assert_eq!(bin_name(Platform::Other), "ffmpeg");
    assert_eq!(asset_folder(Platform::Windows), "windows");
    assert_eq!(asset_folder(Platform::Linux), "linux");
    assert_eq!(asset_folder(Platform::Other), "macos");
    assert_eq!(cache_variable(Platform::Windows), "LOCALAPPDATA");
    assert_eq!(cache_variable(Platform::Linux), "HOME");
}

#[test]
fn the_cache() {
    assert_eq!(
        cache_dir(Platform::Linux, Some(PathBuf::from("/home/u")), PathBuf::from("/tmp")),
        PathBuf::from("/home/u/.local/share/schrodinger-audio-converter/ffmpeg")
    );
    assert_eq!(
        cache_dir(Platform::Other, None, PathBuf::from("/tmp")),
        PathBuf::from("/tmp/.local/share/schrodinger-audio-converter/ffmpeg")
    );
    assert_eq!(
        cache_dir(Platform::Windows, Some(PathBuf::from("/l")), PathBuf::from("/tmp")),
        PathBuf::from("/l/schrodinger-audio-converter/ffmpeg")
    );
}

#[test]
fn places_of_an_installed_ffmpeg() {
    let places = local_candidates(
        Platform::Linux,
        &PathBuf::from("/src"),
        &Some(PathBuf::from("/src/target/debug/conv")),
        &Some(PathBuf::from("/cwd")),
    );
    assert_eq!(
        places,
        paths(&[
            "/src/assets/ffmpeg/linux/ffmpeg",
            "/src/target/debug/ffmpeg",
            "/src/target/debug/ffmpeg/ffmpeg",
            "/src/target/debug/assets/ffmpeg/linux/ffmpeg",
            "/src/assets/ffmpeg/linux/ffmpeg",
            "/cwd/assets/ffmpeg/linux/ffmpeg",
            "/cwd/ffmpeg/ffmpeg",
        ])
    );
}

#[test]
fn fewer_places_where_less_is_known() {
    let project = PathBuf::from("/src");
    assert_eq!(
        local_candidates(Platform::Windows, &project, &None, &None),
        paths(&["/src/assets/ffmpeg/windows/ffmpeg.exe"])
    );
    assert_eq!(
        local_candidates(Platform::Other, &project, &Some(PathBuf::from("/conv")), &None),
        paths(&[
            "/src/assets/ffmpeg/macos/ffmpeg",
            "/ffmpeg",
            "/ffmpeg/ffmpeg",
            "/assets/ffmpeg/macos/ffmpeg",
        ])
    );
    assert_eq!(
        local_candidates(Platform::Other, &project, &Some(PathBuf::from("/")), &None).len(),
        1
    );
}

#[test]
fn the_first_place_with_a_file() {
    let places = paths(&["/a", "/b", "/c"]);
    assert_eq!(
        find_local_install(&places, &vec![false, true, true]),
        Some(PathBuf::from("/b"))
    );
    assert_eq!(find_local_install(&places, &vec![false, false, false]), None);
    assert_eq!(find_local_install(&Vec::new(), &Vec::new()), None);
}

#[test]
fn trying_an_ffmpeg() {
    let command = probe_command(Platform::Linux, &PathBuf::from("/f/ffmpeg"));
    assert_eq!(command.program, PathBuf::from("/f/ffmpeg"));
    assert_eq!(command.current_dir, None);
    assert_eq!(command.args.len(), 2);
    assert!(matches!(&command.args[0], Arg::Text(text) if text == "-hide_banner"));
    assert!(matches!(&command.args[1], Arg::Text(text) if text == "-version"));
    let command = probe_command(Platform::Windows, &PathBuf::from("/f/ffmpeg.exe"));
    assert_eq!(command.current_dir, Some(PathBuf::from("/f")));

    let command = probe_if_file(Platform::Linux, &PathBuf::from("/f/ffmpeg"), true).unwrap();
    assert_eq!(command.program, PathBuf::from("/f/ffmpeg"));
    assert_eq!(command.args.len(), 2);
    assert!(probe_if_file(Platform::Linux, &PathBuf::from("/f/ffmpeg"), false).is_none());

    assert!(works(true, Some(true)));
    assert!(!works(true, Some(false)));
    assert!(!works(true, None));
    assert!(!works(false, Some(true)));
}

#[test]
fn what_is_written_and_copied() {
    assert!(should_write(None, 5));
    assert!(should_write(Some(4), 5));
    assert!(!should_write(Some(5), 5));
    assert!(copy_needed(None, None));
    assert!(copy_needed(Some(1), None));
    assert!(copy_needed(None, Some(1)));
    assert!(copy_needed(Some(1), Some(2)));
    assert!(!copy_needed(Some(2), Some(2)));
}

#[test]
fn where_files_are_copied_to() {
    let to = PathBuf::from("/cache");
    assert_eq!(
        copy_target(&to, &PathBuf::from("/f/avcodec.dll"), true),
        Some(PathBuf::from("/cache/avcodec.dll"))
    );
    assert_eq!(copy_target(&to, &PathBuf::from("/f/sub"), false), None);
    assert_eq!(copy_target(&to, &PathBuf::from("/f/FFmpeg.TXT"), true), None);
    assert_eq!(copy_target(&to, &PathBuf::from("/f/.."), true), None);
    assert_eq!(
        copy_target(&to, &PathBuf::from("/f/ffmpeg.txt2"), true),
        Some(PathBuf::from("/cache/ffmpeg.txt2"))
    );
}

#[test]
fn what_is_said_of_errors() {
    assert_eq!(
        write_error(&PathBuf::from("/c/ffmpeg"), "нет места"),
        "Не удалось записать /c/ffmpeg: нет места"
    );
    assert_eq!(
        copy_error(&PathBuf::from("/a"), &PathBuf::from("/b"), "нет места"),
        "Не удалось скопировать /a → /b: нет места"
    );
}

#[test]
fn where_the_download_goes() {
    assert_eq!(
        download_static(Platform::Windows, &PathBuf::from("/c/ffmpeg.exe")),
        Ok(PathBuf::from("/c/ffmpeg-download.zip"))
    );
    assert_eq!(
        download_static(Platform::Windows, &PathBuf::from("/")),
        Ok(PathBuf::from("./ffmpeg-download.zip"))
    );
    let message = "Автоскачивание FFmpeg есть только для Windows. \
                   Положите бинарник ffmpeg в assets/ffmpeg/linux/.";
    assert_eq!(
        download_static(Platform::Linux, &PathBuf::from("/c/ffmpeg")),
        Err(message.to_string())
    );
    assert_eq!(
        download_static(Platform::Other, &PathBuf::from("/c/ffmpeg")),
        Err(message.to_string())
    );
}

#[test]
fn a_directory_is_put_in_front() {
    assert_eq!(
        prepend_path(&PathBuf::from("/ff"), paths(&["/usr/bin", "/bin"])),
        paths(&["/ff", "/usr/bin", "/bin"])
    );
}

struct Machine {
    cache: Result<(), String>,
    working: Vec<&'static str>,
    write: Result<(), String>,
    mark: Result<(), String>,
    local: Option<&'static str>,
    copy: Result<(), String>,
    download: Result<(), String>,
    done: Vec<String>,
    /// Starts to work once a request with this word has been met.
    repaired_by: &'static str,
}

fn machine() -> Machine {
    Machine {
        cache: Ok(()),
        working: Vec::new(),
        write: Ok(()),
        mark: Ok(()),
        local: None,
        copy: Ok(()),
        download: Ok(()),
        done: Vec::new(),
        repaired_by: "",
    }
}

fn set_up(machine: &mut Machine, embedded_len: usize) -> Result<PathBuf, String> {
    let mut setup = prepare(Platform::Linux, PathBuf::from("/c"), embedded_len);
    let mut reply = SetupReply::Nothing;
    loop {
        let request = setup.step(reply);
        let word = match &request {
            SetupRequest::CreateDir(_) => "mkdir",
            SetupRequest::Probe(_) => "probe",
            SetupRequest::WriteEmbedded(_) => "write",
            SetupRequest::MakeExecutable(_) => "mark",
            SetupRequest::FindLocal => "find",
            SetupRequest::CopyFiles { .. } => "copy",
            SetupRequest::Download(_) => "download",
            SetupRequest::Finish(_) => "finish",
        };
        if word == machine.repaired_by {
            machine.working.push("/c/ffmpeg");
        }
        reply = match request {
            SetupRequest::CreateDir(dir) => {
                machine.done.push(format!("mkdir {}", dir.display()));
                SetupReply::Outcome(machine.cache.clone())
            }
            SetupRequest::Probe(file) => {
                machine.done.push(format!("probe {}", file.display()));
                SetupReply::Works(machine.working.iter().any(|good| PathBuf::from(good) == file))
            }
            SetupRequest::WriteEmbedded(file) => {
                machine.done.push(format!("write {}", file.display()));
                SetupReply::Outcome(machine.write.clone())
            }
            SetupRequest::MakeExecutable(file) => {
                machine.done.push(format!("mark {}", file.display()));
                SetupReply::Outcome(machine.mark.clone())
            }
            SetupRequest::FindLocal => {
                machine.done.push("find".to_string());
                SetupReply::Found(machine.local.map(PathBuf::from))
            }
            SetupRequest::CopyFiles { from, to } => {
                machine.done.push(format!("copy {} {}", from.display(), to.display()));
                SetupReply::Outcome(machine.copy.clone())
            }
            SetupRequest::Download(file) => {
                machine.done.push(format!("download {}", file.display()));
                SetupReply::Outcome(machine.download.clone())
            }
            SetupRequest::Finish(result) => {
                assert_eq!(setup.stage, SetupStage::Ended);
                return result;
            }
        };
    }
}

#[test]
fn an_ffmpeg_in_the_cache_is_taken() {
    let mut m = Machine { working: vec!["/c/ffmpeg"], ..machine() };
    assert_eq!(set_up(&mut m, 0), Ok(PathBuf::from("/c/ffmpeg")));
    assert_eq!(m.done, vec!["mkdir /c", "probe /c/ffmpeg"]);
}

#[test]
fn no_cache_no_ffmpeg() {
    let mut m = Machine { cache: Err("нет прав".to_string()), ..machine() };
    assert_eq!(set_up(&mut m, 0), Err("Не удалось создать кэш FFmpeg: нет прав".to_string()));
}

#[test]
fn an_embedded_ffmpeg_is_written() {
    let mut m = Machine { repaired_by: "mark", ..machine() };
    assert_eq!(set_up(&mut m, EMBEDDED_MINIMUM + 1), Ok(PathBuf::from("/c/ffmpeg")));
    assert_eq!(
        m.done,
        vec!["mkdir /c", "probe /c/ffmpeg", "write /c/ffmpeg", "mark /c/ffmpeg", "probe /c/ffmpeg"]
    );
}

#[test]
fn an_embedded_ffmpeg_fails() {
    let len = EMBEDDED_MINIMUM + 1;
    assert_eq!(
        set_up(&mut machine(), len),
        Err("Встроенный FFmpeg не запустился. Антивирус мог заблокировать файл.".to_string())
    );
    let mut m = Machine { write: Err("w".to_string()), ..machine() };
    assert_eq!(set_up(&mut m, len), Err("w".to_string()));
    let mut m = Machine { mark: Err("m".to_string()), ..machine() };
    assert_eq!(set_up(&mut m, len), Err("m".to_string()));
}

#[test]
fn an_embedded_ffmpeg_that_is_too_small_is_left() {
    let mut m = Machine { working: vec!["/l/ffmpeg"], local: Some("/l/ffmpeg"), ..machine() };
    assert_eq!(set_up(&mut m, EMBEDDED_MINIMUM), Ok(PathBuf::from("/l/ffmpeg")));
    assert_eq!(m.done, vec!["mkdir /c", "probe /c/ffmpeg", "find", "probe /l/ffmpeg"]);
}

#[test]
fn an_installed_ffmpeg_is_copied() {
    let mut m = Machine { local: Some("/l/ffmpeg"), repaired_by: "copy", ..machine() };
    assert_eq!(set_up(&mut m, 0), Ok(PathBuf::from("/c/ffmpeg")));
    assert_eq!(m.done[3..], ["probe /l/ffmpeg", "copy /l /c", "probe /c/ffmpeg"]);
    let mut m = Machine { local: Some("/l/ffmpeg"), copy: Err("c".to_string()), ..machine() };
    assert_eq!(set_up(&mut m, 0), Err("c".to_string()));
}

#[test]
fn an_installed_ffmpeg_at_the_root() {
    let mut m = Machine { local: Some("/"), repaired_by: "download", ..machine() };
    assert_eq!(set_up(&mut m, 0), Ok(PathBuf::from("/c/ffmpeg")));
    assert_eq!(m.done[3..], ["probe /", "download /c/ffmpeg", "mark /c/ffmpeg", "probe /c/ffmpeg"]);
}

#[test]
fn a_download_is_the_last_resort() {
    let mut m = Machine { local: Some("/l/ffmpeg"), repaired_by: "download", ..machine() };
    assert_eq!(set_up(&mut m, 0), Ok(PathBuf::from("/c/ffmpeg")));
    assert_eq!(
        m.done[4..],
        [
            "copy /l /c",
            "probe /c/ffmpeg",
            "download /c/ffmpeg",
            "mark /c/ffmpeg",
            "probe /c/ffmpeg",
        ]
    );
    assert_eq!(
        set_up(&mut machine(), 0),
        Err("FFmpeg скачан, но не запускается.".to_string())
    );
    let mut m = Machine { download: Err("d".to_string()), ..machine() };
    assert_eq!(set_up(&mut m, 0), Err("d".to_string()));
    let mut m = Machine { mark: Err("m".to_string()), ..machine() };
    assert_eq!(set_up(&mut m, 0), Err("m".to_string()));
}

fn copy_all(failing: &str, same_size: &str) -> (Vec<String>, Result<(), String>) {
    let item = |path: &str, kind: PathKind| DirItem { path: PathBuf::from(path), kind };
    let items = vec![
        item("/f/sub", PathKind::Directory),
        item("/f/a.dll", PathKind::File),
        item("/f/FFMPEG.txt", PathKind::File),
        item("/f/b.dll", PathKind::File),
        item("/f/pipe", PathKind::Other),
        item("/f/c.dll", PathKind::File),
    ];
    let mut job = copy_dir_files(items, PathBuf::from("/c"));
    let mut done = Vec::new();
    let mut reply = CopyReply::Nothing;
    loop {
        reply = match job.step(reply) {
            CopyRequest::ReadSizes { from, to } => {
                done.push(format!("sizes {} {}", from.display(), to.display()));
                let there = if from == PathBuf::from(same_size) { Some(7) } else { None };
                CopyReply::Sizes { from: Some(7), to: there }
            }
            CopyRequest::Copy { from, to } => {
                done.push(format!("copy {} {}", from.display(), to.display()));
                CopyReply::Outcome(if from == PathBuf::from(failing) {
                    Err("нет места".to_string())
                } else {
                    Ok(())
                })
            }
            CopyRequest::Finish(result) => return (done, result),
        };
    }
}

#[test]
fn files_are_copied_in_turn() {
    let (done, result) = copy_all("", "/f/b.dll");
    assert_eq!(
        done,
        vec![
            "sizes /f/a.dll /c/a.dll",
            "copy /f/a.dll /c/a.dll",
            "sizes /f/b.dll /c/b.dll",
            "sizes /f/c.dll /c/c.dll",
            "copy /f/c.dll /c/c.dll",
        ]
    );
    assert_eq!(result, Ok(()));
}

#[test]
fn the_first_copy_that_fails_ends_the_copying() {
    let (done, result) = copy_all("/f/b.dll", "");
    assert_eq!(done.len(), 4);
    assert_eq!(done[3], "copy /f/b.dll /c/b.dll");
    assert_eq!(
        result,
        Err("Не удалось скопировать /f/b.dll → /c/b.dll: нет места".to_string())
    );
}

#[test]
fn nothing_to_copy() {
    let mut job = copy_dir_files(Vec::new(), PathBuf::from("/c"));
    assert!(matches!(job.step(CopyReply::Nothing), CopyRequest::Finish(Ok(()))));
}
