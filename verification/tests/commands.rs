use schrodinger_audio_converter::command::{
    conversion_result, failure_message, ffmpeg_command, Arg, ProcessOutput,
};
use schrodinger_audio_converter::settings::{Channels, SampleRate};
use std::path::PathBuf;

fn words(args: &[Arg]) -> Vec<String> {
    args.iter()
        .map(|arg| match arg {
            Arg::Text(text) => text.clone(),
            Arg::Path(path) => format!("<{}>", path.display()),
        })
        .collect()
}

fn ended(success: bool, code: Option<i32>, stderr: &str, stdout: &str) -> ProcessOutput {
    ProcessOutput {
        success,
        code,
        stdout: stdout.as_bytes().to_vec(),
        stderr: stderr.as_bytes().to_vec(),
    }
}

#[test]
fn command_with_a_sample_rate() {
    let command = ffmpeg_command(
        &PathBuf::from("/opt/ffmpeg/ffmpeg"),
        &PathBuf::from("/in/a.mp3"),
        &PathBuf::from("/out/a.ogg"),
        Channels::Mono,
        7,
        SampleRate::Hz48000,
    );
    assert_eq!(command.program, PathBuf::from("/opt/ffmpeg/ffmpeg"));
    assert_eq!(command.current_dir, Some(PathBuf::from("/opt/ffmpeg")));
    assert_eq!(
        words(&command.args).join(" "),
        "-hide_banner -nostdin -loglevel error -y -fflags +genpts+discardcorrupt \
         -err_detect ignore_err -i </in/a.mp3> -map 0:a:0 -vn -sn -dn -c:a libvorbis -q:a 7 \
         -ac 1 -map_metadata 0 -ar 48000 -f ogg </out/a.ogg>"
    );
}

#[test]
fn command_with_the_source_rate() {
    let command = ffmpeg_command(
        &PathBuf::from("ffmpeg"),
        &PathBuf::from("a.mp3"),
        &PathBuf::from("a.ogg"),
        Channels::Stereo,
        -1,
        SampleRate::Source,
    );
    assert_eq!(command.current_dir, Some(PathBuf::from("")));
    let words = words(&command.args);
    assert!(!words.contains(&"-ar".to_string()));
    assert_eq!(
        words[16..].join(" "),
        "-c:a libvorbis -q:a -1 -ac 2 -map_metadata 0 -f ogg <a.ogg>"
    );
}

#[test]
fn success_is_success() {
    assert_eq!(conversion_result(Ok(ended(true, Some(0), "warning", ""))), Ok(()));
}

#[test]
fn a_program_that_does_not_start() {
    assert_eq!(
        conversion_result(Err("нет доступа".to_string())),
        Err("Не удалось запустить FFmpeg: нет доступа".to_string())
    );
}

#[test]
fn a_failure_tells_code_and_output() {
    assert_eq!(
        conversion_result(Ok(ended(false, Some(1), " \n bad data\r\n\u{a0}", "\tmore\n"))),
        Err("код 1 · bad data · more".to_string())
    );
    assert_eq!(
        conversion_result(Ok(ended(false, Some(-22), "bad", ""))),
        Err("код -22 · bad".to_string())
    );
    assert_eq!(
        conversion_result(Ok(ended(false, None, "", "only out"))),
        Err("код сигнал · only out".to_string())
    );
}

#[test]
fn a_silent_failure() {
    let expected =
        "код 234 · FFmpeg ничего не вывел (файл занят, нет прав или антивирус перехватил процесс)";
    assert_eq!(
        conversion_result(Ok(ended(false, Some(234), "  ", "\n"))),
        Err(expected.to_string())
    );
    assert_eq!(failure_message(Some(234), "", ""), expected);
}

#[test]
fn output_that_is_not_utf8_is_replaced() {
    let output = ProcessOutput {
        success: false,
        code: Some(1),
        stdout: Vec::new(),
        stderr: vec![b'a', 0xff, b'b'],
    };
    assert_eq!(conversion_result(Ok(output)), Err("код 1 · a\u{fffd}b".to_string()));
}
