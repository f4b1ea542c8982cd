use schrodinger_audio_converter::command::ProcessOutput;
use schrodinger_audio_converter::job::{
    AudioFile, ConvertJob, JobReply, JobRequest, JobStage, WorkerMessage,
};
use schrodinger_audio_converter::settings::{Channels, SampleRate};
use std::path::PathBuf;

struct World {
    cancelled_from: usize,
    dir: Result<(), String>,
    exists: bool,
    run: Result<(bool, &'static str), String>,
}

fn world() -> World {
    World { cancelled_from: usize::MAX, dir: Ok(()), exists: false, run: Ok((true, "")) }
}

fn job(files: &[(&str, &str)], overwrite: bool) -> ConvertJob {
    ConvertJob::new(
        PathBuf::from("/opt/ff/ffmpeg"),
        files
            .iter()
            .map(|(input, output)| AudioFile {
                input: PathBuf::from(input),
                output: PathBuf::from(output),
            })
            .collect(),
        Channels::Stereo,
        5,
        overwrite,
        SampleRate::Source,
    )
}

fn message_text(message: &WorkerMessage) -> String {
    match message {
        WorkerMessage::Started { total } => format!("started {total}"),
        WorkerMessage::FileStarted { path } => format!("start {}", path.display()),
        WorkerMessage::FileFinished { path, status, message } => {
            format!("end {} {:?} {message}", path.display(), status)
        }
        WorkerMessage::Finished => "finished".to_string(),
    }
}

fn run(mut job: ConvertJob, world: &World) -> Vec<String> {
    let mut seen = Vec::new();
    let mut asked = 0;
    let mut reply = JobReply::Done;
    loop {
        let request = job.step(reply);
        reply = JobReply::Done;
        match request {
            JobRequest::Send(message) => seen.push(message_text(&message)),
            JobRequest::PrependPath(dir) => seen.push(format!("PATH {}", dir.display())),
            JobRequest::ReadCancel => {
                reply = JobReply::Answer(asked >= world.cancelled_from);
                asked += 1;
            }
            JobRequest::CreateDir(dir) => {
                seen.push(format!("mkdir {}", dir.display()));
                reply = JobReply::Outcome(world.dir.clone());
            }
            JobRequest::CheckExists(file) => {
                seen.push(format!("exists {}", file.display()));
                reply = JobReply::Answer(world.exists);
            }
            JobRequest::Run(command) => {
                seen.push(format!("run {}", command.program.display()));
                reply = JobReply::Exit(world.run.clone().map(|(success, stderr)| ProcessOutput {
                    success,
                    code: Some(1),
                    stdout: Vec::new(),
                    stderr: stderr.as_bytes().to_vec(),
                }));
            }
            JobRequest::Stop => return seen,
        }
    }
}

#[test]
fn a_batch_from_start_to_end() {
    let job = job(&[("/a/x.mp3", "/o/x.ogg"), ("/a/y.mp3", "/p/y.ogg")], true);
    assert_eq!(
        run(job, &world()),
        vec![
            "started 2",
            "PATH /opt/ff",
            "start /a/x.mp3",
            "mkdir /o",
            "exists /o/x.ogg",
            "run /opt/ff/ffmpeg",
            "end /a/x.mp3 Success x.ogg",
            "start /a/y.mp3",
            "mkdir /p",
            "exists /p/y.ogg",
            "run /opt/ff/ffmpeg",
            "end /a/y.mp3 Success y.ogg",
            "finished",
        ]
    );
}

#[test]
fn an_empty_batch() {
    assert_eq!(run(job(&[], true), &world()), vec!["started 0", "PATH /opt/ff", "finished"]);
}

#[test]
fn an_existing_output_is_kept() {
    let world = World { exists: true, ..world() };
    let seen = run(job(&[("/a/x.mp3", "/o/x.ogg")], false), &world);
    assert_eq!(
        seen[2..],
        [
            "start /a/x.mp3",
            "mkdir /o",
            "exists /o/x.ogg",
            "end /a/x.mp3 Skipped уже есть /o/x.ogg",
            "finished",
        ]
    );
}

#[test]
fn an_existing_output_is_replaced() {
    let world = World { exists: true, ..world() };
    let seen = run(job(&[("/a/x.mp3", "/o/x.ogg")], true), &world);
    assert!(seen.contains(&"run /opt/ff/ffmpeg".to_string()));
    assert!(seen.contains(&"end /a/x.mp3 Success x.ogg".to_string()));
}

#[test]
fn a_cancelled_batch_skips_the_rest() {
    let world = World { cancelled_from: 1, ..world() };
    let files = [("/a/x.mp3", "/o/x.ogg"), ("/a/y.mp3", "/o/y.ogg"), ("/a/z.mp3", "/o/z.ogg")];
    let seen = run(job(&files, true), &world);
    assert_eq!(
        seen[6..],
        [
            "end /a/x.mp3 Success x.ogg",
            "end /a/y.mp3 Skipped Отменено",
            "end /a/z.mp3 Skipped Отменено",
            "finished",
        ]
    );
}

#[test]
fn a_folder_that_cannot_be_made() {
    let world = World { dir: Err("нет прав".to_string()), ..world() };
    let seen = run(job(&[("/a/x.mp3", "/o/x.ogg")], true), &world);
    assert_eq!(
        seen[2..],
        ["start /a/x.mp3", "mkdir /o", "end /a/x.mp3 Failed Нет папки /o: нет прав", "finished"]
    );
}

#[test]
fn an_output_without_a_folder() {
    let seen = run(job(&[("/a/x.mp3", "/")], true), &world());
    assert_eq!(
        seen[2..],
        [
            "start /a/x.mp3",
            "exists /",
            "run /opt/ff/ffmpeg",
            "end /a/x.mp3 Success ogg",
            "finished",
        ]
    );
}

#[test]
fn ffmpeg_fails_or_does_not_start() {
    let failing = World { run: Ok((false, "bad")), ..world() };
    let seen = run(job(&[("/a/x.mp3", "/o/x.ogg")], true), &failing);
    assert!(seen.contains(&"end /a/x.mp3 Failed код 1 · bad".to_string()));
    let missing = World { run: Err("нет файла".to_string()), ..world() };
    let seen = run(job(&[("/a/x.mp3", "/o/x.ogg")], true), &missing);
    assert!(seen
        .contains(&"end /a/x.mp3 Failed Не удалось запустить FFmpeg: нет файла".to_string()));
}

#[test]
fn every_file_ends_once_and_in_order() {
    let files = [("/a", "/o/a.ogg"), ("/b", "/o/b.ogg"), ("/c", "/o/c.ogg")];
    for cancelled_from in 0..4 {
        for exists in [false, true] {
            let world = World { cancelled_from, exists, ..world() };
            let seen = run(job(&files, false), &world);
            let ends: Vec<String> = seen
                .iter()
                .filter(|line| line.starts_with("end "))
                .map(|line| line.split(' ').nth(1).unwrap().to_string())
                .collect();
            assert_eq!(ends, vec!["/a", "/b", "/c"]);
            assert_eq!(seen.first().unwrap(), "started 3");
            assert_eq!(seen.last().unwrap(), "finished");
        }
    }
}

#[test]
fn a_closed_batch_stays_closed() {
    let mut job = job(&[], true);
    while !matches!(job.step(JobReply::Done), JobRequest::Stop) {}
    assert_eq!(job.stage, JobStage::Closed);
    assert!(matches!(job.step(JobReply::Done), JobRequest::Stop));
}
