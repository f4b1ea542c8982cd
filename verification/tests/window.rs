use schrodinger_audio_converter::app::{App, PathKind};
use schrodinger_audio_converter::job::WorkerMessage;
use schrodinger_audio_converter::status::{FileStatus, Tone};
use std::path::PathBuf;

fn ready(files: &[&str]) -> App {
    let mut app = App::new(None);
    app.poll_ffmpeg(Some(Ok(PathBuf::from("/ff/ffmpeg"))));
    for file in files {
        app.add_file(PathBuf::from(file), PathKind::File);
    }
    app
}

fn fail(app: &mut App, path: &str, message: &str) {
    app.receive(&WorkerMessage::FileFinished {
        path: PathBuf::from(path),
        status: FileStatus::Failed,
        message: message.to_string(),
    });
}

#[test]
fn tone_of_the_status_line() {
    assert_eq!(App::default().header_tone(), Tone::Bad);
    let mut app = ready(&["/a/x.mp3"]);
    assert_eq!(app.header_tone(), Tone::Muted);
    app.start_conversion();
    fail(&mut app, "/a/x.mp3", "");
    assert_eq!(app.header_tone(), Tone::Accent);
    app.receive(&WorkerMessage::Finished);
    assert_eq!(app.header_tone(), Tone::Bad);
}

#[test]
fn headings_and_counts() {
    let mut app = ready(&["/a/x.mp3", "/a/y.mp3"]);
    assert_eq!(app.files_heading(), "Файлы (2)");
    assert_eq!(app.counts_line(), None);
    assert_eq!(app.progress_text(), "Добавьте файлы");
    app.start_conversion();
    fail(&mut app, "/a/x.mp3", "");
    assert_eq!(app.counts_line(), Some("готово 0 · ошибок 1 · пропуск 0".to_string()));
    assert_eq!(app.progress_text(), "1 / 2");
}

#[test]
fn rows_of_the_queue() {
    let names: Vec<String> = (1..=12).map(|i| format!("/m/{i}.mp3")).collect();
    let mut app = ready(&names.iter().map(|name| name.as_str()).collect::<Vec<_>>());
    fail(&mut app, "/m/10.mp3", "код 1");

    let row = app.row(0);
    assert_eq!((row.number.as_str(), row.name.as_str()), ("01", "1.mp3"));
    assert_eq!((row.folder.as_str(), row.hover.as_str()), ("/m", "/m"));
    assert_eq!(row.status, FileStatus::Queued);
    assert!(row.removable);

    assert_eq!(app.row(8).number, "09");
    let row = app.row(9);
    assert_eq!(row.number, "10");
    assert_eq!(row.hover, "/m\nкод 1");
    assert_eq!(row.status, FileStatus::Failed);
}

#[test]
fn a_running_batch_cannot_be_touched() {
    let mut app = ready(&["/a/x.mp3"]);
    app.set_output_dir(Some(PathBuf::from("/out")));
    fail(&mut app, "/a/x.mp3", "");
    assert!(app.can_convert() && app.can_clear() && app.can_remove_failed());
    assert!(app.can_reset_folder() && app.can_edit());
    assert!(app.handle_dropped_files(true));
    app.start_conversion();
    fail(&mut app, "/a/x.mp3", "");
    assert!(!app.can_convert() && !app.can_clear() && !app.can_remove_failed());
    assert!(!app.can_reset_folder() && !app.can_edit());
    assert!(!app.row(0).removable);
    assert!(!app.handle_dropped_files(false));
    assert!(app.start_conversion().is_none());
}

#[test]
fn what_needs_files_needs_files() {
    let app = ready(&[]);
    assert!(!app.can_convert() && !app.can_clear() && !app.can_remove_failed());
    assert!(!app.can_open_folder());
    let app = ready(&["/a/x.mp3"]);
    assert!(!app.can_remove_failed());
    assert!(app.can_open_folder());
    assert!(!app.can_reset_folder());
    let mut app = App::new(None);
    app.add_file(PathBuf::from("/a/x.mp3"), PathKind::File);
    assert!(!app.can_convert());
}

#[test]
fn the_folder_for_outputs_is_shown() {
    let mut app = ready(&[]);
    assert_eq!(app.destination_text(), "Рядом с каждым исходным файлом");
    assert_eq!(app.destination_label(), "Рядом с каждым исходным файлом");
    let long = format!("/{}", "м".repeat(100));
    app.set_output_dir(Some(PathBuf::from(&long)));
    assert_eq!(app.destination_text(), long);
    assert_eq!(app.destination_label(), format!("…{}", "м".repeat(71)));
}

#[test]
fn when_the_window_is_drawn_again() {
    let mut app = App::default();
    assert!(!app.needs_repaint());
    app.handle_dropped_files(true);
    assert!(app.dragging && app.needs_repaint());
    app.handle_dropped_files(false);
    assert!(!app.dragging && !app.needs_repaint());
    app.start_ffmpeg_setup();
    assert!(app.needs_repaint());
    let mut app = ready(&["/a/x.mp3"]);
    assert!(!app.needs_repaint());
    app.start_conversion();
    assert!(app.needs_repaint());
}
