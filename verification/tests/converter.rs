use schrodinger_audio_converter::app::{next_folder, App, DirItem, PathKind, LOG_LIMIT};
use schrodinger_audio_converter::job::{JobReply, JobRequest, WorkerMessage};
use schrodinger_audio_converter::queue::{audio_extensions, is_audio};
use schrodinger_audio_converter::settings::{Channels, SampleRate, Settings};
use schrodinger_audio_converter::status::{FileStatus, Tone};
use std::path::PathBuf;

fn ready(files: &[&str]) -> App {
    let mut app = App::new(None);
    app.poll_ffmpeg(Some(Ok(PathBuf::from("/ff/ffmpeg"))));
    for file in files {
        app.add_file(PathBuf::from(file), PathKind::File);
    }
    app
}

fn item(path: &str, kind: PathKind) -> DirItem {
    DirItem { path: PathBuf::from(path), kind }
}

fn ended(path: &str, status: FileStatus, message: &str) -> WorkerMessage {
    WorkerMessage::FileFinished {
        path: PathBuf::from(path),
        status,
        message: message.to_string(),
    }
}

fn queued(app: &App) -> Vec<PathBuf> {
    app.files.iter().map(|file| file.path.clone()).collect()
}

fn paths(list: &[&str]) -> Vec<PathBuf> {
    list.iter().map(PathBuf::from).collect()
}

#[test]
fn state_at_rest() {
    let app = App::default();
    assert!(app.files.is_empty() && app.logs.is_empty());
    assert_eq!(app.output_dir, None);
    assert!(!app.converting && !app.can_cancel && !app.preparing && !app.dragging);
    assert_eq!((app.completed, app.total), (0, 0));
    assert_eq!((app.success_count, app.fail_count, app.skip_count), (0, 0, 0));
    assert_eq!(app.ffmpeg_path, None);
    assert_eq!(app.current_file, None);
    assert_eq!(app.status, "Готов к работе");
}

#[test]
fn the_search_for_ffmpeg() {
    let mut app = App::new(None);
    assert!(app.preparing);
    assert_eq!(app.status, "Подготовка FFmpeg…");
    assert_eq!(app.logs, vec![(Tone::Muted, "Готовлю FFmpeg для конвертации…".to_string())]);

    app.poll_ffmpeg(None);
    assert!(app.preparing);

    app.poll_ffmpeg(Some(Ok(PathBuf::from("/ff/ffmpeg"))));
    assert!(!app.preparing);
    assert_eq!(app.ffmpeg_path, Some(PathBuf::from("/ff/ffmpeg")));
    assert_eq!(app.status, "Готов к работе");
    assert_eq!(app.logs[1].1, "FFmpeg готов. Можно конвертировать в OGG Vorbis.");

    app.poll_ffmpeg(Some(Err("поздно".to_string())));
    assert_eq!(app.logs.len(), 2);
}

#[test]
fn the_search_for_ffmpeg_fails() {
    let mut app = App::new(None);
    app.poll_ffmpeg(Some(Err("нет сети".to_string())));
    assert_eq!(app.status, "Нет FFmpeg");
    assert_eq!(app.ffmpeg_path, None);
    assert_eq!(app.logs[1], (Tone::Bad, "FFmpeg: нет сети".to_string()));
}

#[test]
fn settings_lie_beside_the_program() {
    assert_eq!(
        App::settings_path(Some(PathBuf::from("/opt/conv/conv"))),
        PathBuf::from("/opt/conv/settings.json")
    );
    assert_eq!(App::settings_path(None), PathBuf::from("settings.json"));
    assert_eq!(App::settings_path(Some(PathBuf::from("/"))), PathBuf::from("./settings.json"));
}

#[test]
fn settings_come_back_as_they_were_kept() {
    let mut app = App::default();
    app.settings.channels = Channels::Mono;
    app.settings.quality = 9;
    app.settings.recursive = false;
    app.settings.overwrite = false;
    app.settings.sample_rate = SampleRate::Hz44100;
    app.set_output_dir(Some(PathBuf::from("/out")));
    assert_eq!(app.settings.output_dir, None);

    let mut next = App::default();
    next.load_settings(Some(app.save_settings()));
    assert_eq!(next.output_dir, Some(PathBuf::from("/out")));
    assert_eq!(next.settings.channels, Channels::Mono);
    assert_eq!(next.settings.quality, 9);
    assert!(!next.settings.recursive && !next.settings.overwrite);
    assert_eq!(next.settings.sample_rate, SampleRate::Hz44100);

    next.load_settings(None);
    assert_eq!(next.output_dir, Some(PathBuf::from("/out")));
    assert_eq!(next.settings.quality, 9);

    let settings = Settings { output_dir: Some(PathBuf::from("/in")), ..Settings::default() };
    let started = App::new(Some(settings));
    assert_eq!(started.output_dir, Some(PathBuf::from("/in")));
}

#[test]
fn the_log_keeps_the_newest_lines() {
    let mut app = App::default();
    for i in 0..LOG_LIMIT + 5 {
        app.log(Tone::Text, format!("{i}"));
    }
    assert_eq!(app.logs.len(), 400);
    assert_eq!(app.logs[0].1, "5");
    assert_eq!(app.logs[399].1, "404");
    app.clear_logs();
    assert!(app.logs.is_empty());
}

#[test]
fn extensions_of_audio_files() {
    assert_eq!(
        audio_extensions(),
        vec![
            "mp3", "m4a", "wav", "flac", "aac", "ogg", "opus", "wma", "aiff", "aif", "alac", "ape",
            "ac3", "amr",
        ]
    );
    for yes in ["a.mp3", "/x/A.FLAC", "b.tar.Ogg", "..mp3", "x/.a.amr"] {
        assert!(is_audio(&PathBuf::from(yes)), "{yes}");
        assert!(App::is_audio(&PathBuf::from(yes)), "{yes}");
    }
    for no in ["a", "mp3", ".mp3", "a.mp4", "a.mp3/..", "a.mp3x", "a.", "", "/"] {
        assert!(!is_audio(&PathBuf::from(no)), "{no}");
    }
}

#[test]
fn files_are_queued_once() {
    let mut app = App::default();
    assert_eq!(app.add_file(PathBuf::from("/a/x.mp3"), PathKind::File), None);
    assert_eq!(app.add_file(PathBuf::from("/a//x.mp3"), PathKind::File), None);
    assert_eq!(app.add_file(PathBuf::from("/a/./x.mp3"), PathKind::File), None);
    assert_eq!(app.add_file(PathBuf::from("/a/y.txt"), PathKind::File), None);
    assert_eq!(app.add_file(PathBuf::from("/a/z.wav"), PathKind::Other), None);
    assert_eq!(app.add_file(PathBuf::from("/a/y.wav"), PathKind::File), None);
    assert_eq!(queued(&app), paths(&["/a/x.mp3", "/a/y.wav"]));
    assert_eq!(app.files[0].status, FileStatus::Queued);
    assert_eq!(app.files[0].message, "");
    assert_eq!(
        app.add_file(PathBuf::from("/a/dir.mp3"), PathKind::Directory),
        Some(PathBuf::from("/a/dir.mp3"))
    );
    assert_eq!(app.files.len(), 2);
}

#[test]
fn directories_are_listed_from_the_top() {
    let mut app = App::default();
    let mut rest = paths(&["/q"]);
    app.add_directory(
        &mut rest,
        &PathBuf::from("/d"),
        Ok(vec![
            item("/d/1", PathKind::Directory),
            item("/d/b.mp3", PathKind::File),
            item("/d/b.txt", PathKind::File),
            item("/d/c.wav", PathKind::Other),
            item("/d/2.mp3", PathKind::Directory),
            item("/d/a.ogg", PathKind::File),
        ]),
    );
    assert_eq!(queued(&app), paths(&["/d/b.mp3", "/d/a.ogg"]));
    assert_eq!(rest, paths(&["/q", "/d/1", "/d/2.mp3"]));
    assert!(app.logs.is_empty());
}

#[test]
fn nested_directories_can_be_left_out() {
    let mut app = App::default();
    app.settings.recursive = false;
    let mut rest = Vec::new();
    app.add_directory(
        &mut rest,
        &PathBuf::from("/d"),
        Ok(vec![item("/d/1", PathKind::Directory), item("/d/b.mp3", PathKind::File)]),
    );
    assert!(rest.is_empty());
    assert_eq!(app.files.len(), 1);
}

#[test]
fn a_directory_that_cannot_be_read() {
    let mut app = App::default();
    let mut rest = paths(&["/q"]);
    app.add_directory(&mut rest, &PathBuf::from("/d"), Err("нет прав".to_string()));
    assert_eq!(rest, paths(&["/q"]));
    assert_eq!(
        app.logs,
        vec![(Tone::Bad, "Не удалось прочитать /d: нет прав".to_string())]
    );
}

#[test]
fn a_batch_does_not_start_without_what_it_needs() {
    let mut app = ready(&[]);
    assert!(app.start_conversion().is_none());
    assert_eq!(app.logs[2], (Tone::Warning, "Нет файлов для конвертации.".to_string()));

    let mut app = App::default();
    app.add_file(PathBuf::from("/a/x.mp3"), PathKind::File);
    assert!(app.start_conversion().is_none());
    assert_eq!(app.logs[0], (Tone::Bad, "FFmpeg недоступен.".to_string()));
    assert!(!app.converting);

    let mut app = ready(&["/a/x.mp3"]);
    assert!(app.start_conversion().is_some());
    let lines = app.logs.len();
    assert!(app.start_conversion().is_none());
    assert_eq!(app.logs.len(), lines);
}

#[test]
fn a_batch_starts() {
    let mut app = ready(&["/a/x.mp3", "/b/x.wav"]);
    app.set_output_dir(Some(PathBuf::from("/out")));
    app.settings.channels = Channels::Mono;
    app.settings.quality = -1;
    app.settings.overwrite = false;
    app.settings.sample_rate = SampleRate::Hz48000;
    app.receive(&ended("/a/x.mp3", FileStatus::Failed, "старое"));
    assert_eq!(app.files[0].status, FileStatus::Failed);

    let batch = app.start_conversion().unwrap();
    assert_eq!(batch.ffmpeg, PathBuf::from("/ff/ffmpeg"));
    assert_eq!(batch.files.len(), 2);
    assert_eq!(batch.files[0].input, PathBuf::from("/a/x.mp3"));
    assert_eq!(batch.files[0].output, PathBuf::from("/out/x.ogg"));
    assert_eq!(batch.files[1].input, PathBuf::from("/b/x.wav"));
    assert_eq!(batch.files[1].output, PathBuf::from("/out/x (1).ogg"));
    assert_eq!(batch.channels, Channels::Mono);
    assert_eq!(batch.quality, -1);
    assert!(!batch.overwrite);
    assert_eq!(batch.sample_rate, SampleRate::Hz48000);

    assert!(app.converting && app.can_cancel);
    assert_eq!((app.completed, app.total, app.fail_count), (0, 2, 0));
    assert_eq!(app.files[0].status, FileStatus::Queued);
    assert_eq!(app.files[0].message, "");
    assert_eq!(app.status, "Конвертация…");
    assert_eq!(
        app.logs.last(),
        Some(&(Tone::Accent, "Старт: 2 файл(ов) → OGG Vorbis Q-1".to_string()))
    );
}

#[test]
fn a_stop_is_asked_for() {
    let mut app = ready(&["/a/x.mp3"]);
    let lines = app.logs.len();
    assert!(!app.request_cancel());
    assert_eq!(app.logs.len(), lines);
    app.start_conversion();
    assert!(app.request_cancel());
    assert_eq!(app.status, "Остановка…");
    assert_eq!(
        app.logs.last(),
        Some(&(Tone::Warning, "Остановка после текущего файла.".to_string()))
    );
}

#[test]
fn messages_of_a_batch() {
    let mut app = ready(&["/a/x.mp3", "/a/y.mp3", "/a/z.mp3"]);
    app.start_conversion();

    app.poll_conversion(vec![
        WorkerMessage::Started { total: 3 },
        WorkerMessage::FileStarted { path: PathBuf::from("/a/x.mp3") },
    ]);
    assert_eq!(app.files[0].status, FileStatus::Running);
    assert_eq!(app.current_file, Some(PathBuf::from("/a/x.mp3")));
    assert_eq!(app.status, "Конвертация: x.mp3");

    app.poll_conversion(vec![
        ended("/a/x.mp3", FileStatus::Success, "x.ogg"),
        ended("/a/y.mp3", FileStatus::Failed, "код 1"),
        ended("/a/z.mp3", FileStatus::Skipped, "Отменено"),
    ]);
    assert_eq!((app.completed, app.total), (3, 3));
    assert_eq!((app.success_count, app.fail_count, app.skip_count), (1, 1, 1));
    assert_eq!(app.files[1].status, FileStatus::Failed);
    assert_eq!(app.files[1].message, "код 1");
    let lines: Vec<(Tone, String)> = app.logs[3..].to_vec();
    assert_eq!(
        lines,
        vec![
            (Tone::Good, "готово · x.mp3 · x.ogg".to_string()),
            (Tone::Bad, "ошибка · y.mp3 · код 1".to_string()),
            (Tone::Warning, "пропуск · z.mp3 · Отменено".to_string()),
        ]
    );

    app.poll_conversion(vec![WorkerMessage::Finished]);
    assert!(!app.converting && !app.can_cancel);
    assert_eq!(app.current_file, None);
    assert_eq!(app.status, "Готово · ок 1, ошибок 1, пропуск 1");
    assert_eq!(app.logs.last(), Some(&(Tone::Text, "Конвертация завершена.".to_string())));
}

#[test]
fn a_message_about_a_file_that_is_not_queued() {
    let mut app = ready(&["/a/x.mp3"]);
    app.poll_conversion(vec![
        WorkerMessage::FileStarted { path: PathBuf::from("/b/..") },
        ended("/b/..", FileStatus::Queued, "?"),
    ]);
    assert_eq!(app.status, "Конвертация: файл");
    assert_eq!(app.files[0].status, FileStatus::Queued);
    assert_eq!(app.completed, 1);
    assert_eq!((app.success_count, app.fail_count, app.skip_count), (0, 0, 0));
    assert_eq!(app.logs[2], (Tone::Muted, "в очереди · файл · ?".to_string()));
}

#[test]
fn messages_in_lots() {
    let messages = || {
        vec![
            WorkerMessage::Started { total: 2 },
            WorkerMessage::FileStarted { path: PathBuf::from("/a/x.mp3") },
            ended("/a/x.mp3", FileStatus::Success, "x.ogg"),
            ended("/a/y.mp3", FileStatus::Skipped, "Отменено"),
            WorkerMessage::Finished,
        ]
    };
    let mut whole = ready(&["/a/x.mp3", "/a/y.mp3"]);
    whole.poll_conversion(messages());
    let mut lots = ready(&["/a/x.mp3", "/a/y.mp3"]);
    for message in messages() {
        lots.poll_conversion(vec![message]);
    }
    assert_eq!(format!("{whole:?}"), format!("{lots:?}"));
}

#[test]
fn a_whole_batch_is_accounted_for() {
    let mut app = ready(&["/a/x.mp3", "/b/x.mp3", "/c/x.mp3"]);
    let before = queued(&app);
    let mut batch = app.start_conversion().unwrap();
    let mut reply = JobReply::Done;
    let mut asked = 0;
    loop {
        let request = batch.step(reply);
        reply = JobReply::Done;
        match request {
            JobRequest::Send(message) => app.receive(&message),
            JobRequest::PrependPath(_) => {}
            JobRequest::ReadCancel => {
                asked += 1;
                reply = JobReply::Answer(asked > 2);
            }
            JobRequest::CreateDir(_) => reply = JobReply::Outcome(Ok(())),
            JobRequest::CheckExists(_) => reply = JobReply::Answer(false),
            JobRequest::Run(_) => reply = JobReply::Exit(Err("нет".to_string())),
            JobRequest::Stop => break,
        }
    }
    assert!(!app.converting);
    assert_eq!((app.completed, app.total), (3, 3));
    assert_eq!((app.success_count, app.fail_count, app.skip_count), (0, 2, 1));
    assert_eq!(queued(&app), before);
    assert_eq!(app.status, "Готово · ок 0, ошибок 2, пропуск 1");
}

#[test]
fn files_leave_the_queue() {
    let mut app = ready(&["/a/1.mp3", "/a/2.mp3", "/a/3.mp3", "/a/4.mp3"]);
    app.poll_conversion(vec![
        WorkerMessage::Started { total: 4 },
        ended("/a/1.mp3", FileStatus::Failed, ""),
        ended("/a/3.mp3", FileStatus::Failed, ""),
        ended("/a/4.mp3", FileStatus::Success, ""),
    ]);
    app.remove_failed();
    assert_eq!(queued(&app), paths(&["/a/2.mp3", "/a/4.mp3"]));
    assert_eq!((app.completed, app.fail_count), (3, 2));
    app.remove_file(0);
    assert_eq!(queued(&app), paths(&["/a/4.mp3"]));
    app.clear_files();
    assert!(app.files.is_empty());
    assert_eq!((app.completed, app.total), (0, 0));
    assert_eq!((app.success_count, app.fail_count, app.skip_count), (0, 0, 0));
}

#[test]
fn the_folder_that_is_opened() {
    let mut app = ready(&[]);
    assert_eq!(app.output_folder_to_open(), None);
    let mut app2 = ready(&["/a/1.mp3", "/b/2.mp3", "/c/3.mp3"]);
    assert_eq!(app2.output_folder_to_open(), Some(PathBuf::from("/a")));
    app2.receive(&ended("/b/2.mp3", FileStatus::Success, ""));
    app2.receive(&ended("/c/3.mp3", FileStatus::Success, ""));
    assert_eq!(app2.output_folder_to_open(), Some(PathBuf::from("/b")));
    app.set_output_dir(Some(PathBuf::from("/out")));
    assert_eq!(app.output_folder_to_open(), Some(PathBuf::from("/out")));
    let bare = ready(&["1.mp3"]);
    assert_eq!(bare.output_folder_to_open(), Some(PathBuf::from("")));
}

#[test]
fn counts_grow_with_the_files_that_ended() {
    let mut app = ready(&["/a/1.mp3", "/a/2.mp3"]);
    app.poll_conversion(vec![ended("/a/1.mp3", FileStatus::Failed, "")]);
    app.poll_conversion(vec![
        WorkerMessage::Started { total: 9 },
        ended("/a/1.mp3", FileStatus::Success, ""),
        ended("/elsewhere.mp3", FileStatus::Success, ""),
        WorkerMessage::FileStarted { path: PathBuf::from("/a/2.mp3") },
        ended("/a/2.mp3", FileStatus::Skipped, ""),
        ended("/a/2.mp3", FileStatus::Failed, ""),
        WorkerMessage::Finished,
    ]);
    assert_eq!(app.completed, 5);
    assert_eq!((app.success_count, app.fail_count, app.skip_count), (2, 2, 1));
    assert_eq!(queued(&app), paths(&["/a/1.mp3", "/a/2.mp3"]));
}

#[test]
fn no_messages_change_nothing() {
    let mut app = ready(&["/a/1.mp3"]);
    let before = format!("{app:?}");
    app.poll_conversion(Vec::new());
    assert_eq!(format!("{app:?}"), before);
}

#[test]
fn messages_are_taken_at_the_end_of_the_count() {
    let mut app = ready(&["/a/1.mp3"]);
    app.completed = usize::MAX;
    app.poll_conversion(vec![WorkerMessage::Started { total: 1 }, WorkerMessage::Finished]);
    assert_eq!(app.completed, usize::MAX);
    assert_eq!(app.total, 1);
    assert!(app.count_fits(&vec![WorkerMessage::Finished]));
    assert!(!app.count_fits(&vec![ended("/a/1.mp3", FileStatus::Failed, "")]));
    app.completed = usize::MAX - 1;
    assert!(app.count_fits(&vec![ended("/a/1.mp3", FileStatus::Failed, "")]));
}

#[test]
fn folders_are_handed_out_from_the_end() {
    let mut rest = paths(&["/a", "/b"]);
    assert_eq!(next_folder(&mut rest), Some(PathBuf::from("/b")));
    assert_eq!(rest, paths(&["/a"]));
    assert_eq!(next_folder(&mut rest), Some(PathBuf::from("/a")));
    assert_eq!(next_folder(&mut rest), None);
    assert!(rest.is_empty());
}

fn scan(app: &mut App, folder: &str) {
    let mut rest = paths(&[folder]);
    while let Some(current) = next_folder(&mut rest) {
        let listing = match current.to_str().unwrap() {
            "/d" => Ok(vec![
                item("/d/x.mp3", PathKind::File),
                item("/d/in", PathKind::Directory),
                item("/d/no", PathKind::Directory),
                item("/d/x.txt", PathKind::File),
            ]),
            "/d/in" => Ok(vec![
                item("/d/in/y.wav", PathKind::File),
                item("/d/in/deep", PathKind::Directory),
            ]),
            "/d/in/deep" => Ok(vec![
                item("/d/in/deep/z.ogg", PathKind::File),
                item("/d/./x.mp3", PathKind::File),
            ]),
            _ => Err("нет прав".to_string()),
        };
        app.add_directory(&mut rest, &current, listing);
    }
}

#[test]
fn a_whole_folder_is_scanned() {
    let mut app = App::default();
    app.add_file(PathBuf::from("/d/in/y.wav"), PathKind::File);
    scan(&mut app, "/d");
    assert_eq!(
        queued(&app),
        paths(&["/d/in/y.wav", "/d/x.mp3", "/d/in/deep/z.ogg"])
    );
    assert_eq!(
        app.logs,
        vec![(Tone::Bad, "Не удалось прочитать /d/no: нет прав".to_string())]
    );
}

#[test]
fn a_folder_is_scanned_without_what_is_nested() {
    let mut app = App::default();
    app.settings.recursive = false;
    scan(&mut app, "/d");
    assert_eq!(queued(&app), paths(&["/d/x.mp3"]));
    assert!(app.logs.is_empty());
}
