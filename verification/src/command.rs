//! The FFmpeg command that converts one file, and what its outcome means.

use std::path::PathBuf;
use vstd::prelude::*;
use vstd::string::*;
use crate::path;
use crate::path::{copy_path, parent};
use crate::settings::{Channels, SampleRate};
use crate::text;
use crate::text::{signed_decimal_text, text_from_lossy, trim};

verus! {

/// One argument of a command.
#[derive(Debug)]
pub enum Arg {
    Text(String),
    Path(PathBuf),
}

/// An argument as contracts see it.
pub enum ArgView {
    Text(Seq<char>),
    Path(Seq<u8>),
}

impl View for Arg {
    type V = ArgView;

    open spec fn view(&self) -> ArgView {
        match self {
            Arg::Text(text) => ArgView::Text(text@),
            Arg::Path(path) => ArgView::Path(path::path_bytes(*path)),
        }
    }
}

/// The views of a list of arguments.
pub open spec fn args_view(args: Seq<Arg>) -> Seq<ArgView> {
    Seq::new(args.len(), |i: int| args[i]@)
}

/// A command to be run: the program, the directory it runs in, and its arguments.
#[derive(Debug)]
pub struct FfmpegCommand {
    pub program: PathBuf,
    pub current_dir: Option<PathBuf>,
    pub args: Vec<Arg>,
}

/// A command as contracts see it.
#[verifier::ext_equal]
pub struct CommandView {
    pub program: Seq<u8>,
    pub current_dir: Option<Seq<u8>>,
    pub args: Seq<ArgView>,
}

impl View for FfmpegCommand {
    type V = CommandView;

    open spec fn view(&self) -> CommandView {
        CommandView {
            program: path::path_bytes(self.program),
            current_dir: path::option_bytes(self.current_dir),
            args: args_view(self.args@),
        }
    }
}

/// What comes before the input: no banner, no questions, errors only, and leniency towards
/// damaged input.
pub open spec fn leading_args() -> Seq<ArgView> {
    seq![
        ArgView::Text("-hide_banner"@),
        ArgView::Text("-nostdin"@),
        ArgView::Text("-loglevel"@),
        ArgView::Text("error"@),
        ArgView::Text("-y"@),
        ArgView::Text("-fflags"@),
        ArgView::Text("+genpts+discardcorrupt"@),
        ArgView::Text("-err_detect"@),
        ArgView::Text("ignore_err"@),
    ]
}

/// What is taken from the input: its first audio stream and nothing else. A cover picture would
/// break the OGG container.
pub open spec fn stream_args() -> Seq<ArgView> {
    seq![
        ArgView::Text("-map"@),
        ArgView::Text("0:a:0"@),
        ArgView::Text("-vn"@),
        ArgView::Text("-sn"@),
        ArgView::Text("-dn"@),
    ]
}

/// How the stream is encoded.
pub open spec fn encoding_args(
    channels: Channels,
    quality: int,
    sample_rate: SampleRate,
) -> Seq<ArgView> {
    seq![
        ArgView::Text("-c:a"@),
        ArgView::Text("libvorbis"@),
        ArgView::Text("-q:a"@),
        ArgView::Text(text::signed_decimal(quality)),
        ArgView::Text("-ac"@),
        ArgView::Text(channels.argument()),
        ArgView::Text("-map_metadata"@),
        ArgView::Text("0"@),
    ] + match sample_rate.argument() {
        Some(rate) => seq![ArgView::Text("-ar"@), ArgView::Text(rate)],
        None => Seq::empty(),
    }
}

/// The arguments that convert `input` into `output`.
pub open spec fn conversion_args(
    input: Seq<u8>,
    output: Seq<u8>,
    channels: Channels,
    quality: int,
    sample_rate: SampleRate,
) -> Seq<ArgView> {
    leading_args() + seq![ArgView::Text("-i"@), ArgView::Path(input)] + stream_args()
        + encoding_args(channels, quality, sample_rate) + seq![
        ArgView::Text("-f"@),
        ArgView::Text("ogg"@),
        ArgView::Path(output),
    ]
}

/// The command that converts `input` into `output`. FFmpeg runs in its own directory.
pub open spec fn conversion_command(
    ffmpeg: Seq<u8>,
    input: Seq<u8>,
    output: Seq<u8>,
    channels: Channels,
    quality: int,
    sample_rate: SampleRate,
) -> CommandView {
    CommandView {
        program: ffmpeg,
        current_dir: path::parent_of(ffmpeg),
        args: conversion_args(input, output, channels, quality, sample_rate),
    }
}

fn push_text(args: &mut Vec<Arg>, text: &str)
    ensures
        args_view(final(args)@) == args_view(old(args)@).push(ArgView::Text(text@)),
{
    args.push(Arg::Text(text.to_owned()));
    assert(args_view(args@) =~= args_view(old(args)@).push(ArgView::Text(text@)));
}

fn push_path(args: &mut Vec<Arg>, path: &PathBuf)
    ensures
        args_view(final(args)@) == args_view(old(args)@).push(
            ArgView::Path(path::path_bytes(*path)),
        ),
{
    args.push(Arg::Path(copy_path(path)));
    assert(args_view(args@) =~= args_view(old(args)@).push(
        ArgView::Path(path::path_bytes(*path)),
    ));
}

/// The command that converts `input` into `output`.
pub fn ffmpeg_command(
    ffmpeg: &PathBuf,
    input: &PathBuf,
    output: &PathBuf,
    channels: Channels,
    quality: i32,
    sample_rate: SampleRate,
) -> (command: FfmpegCommand)
    ensures
        command@ == conversion_command(
            path::path_bytes(*ffmpeg),
            path::path_bytes(*input),
            path::path_bytes(*output),
            channels,
            quality as int,
            sample_rate,
        ),
{
    let mut args: Vec<Arg> = Vec::new();
    push_text(&mut args, "-hide_banner");
    push_text(&mut args, "-nostdin");
    push_text(&mut args, "-loglevel");
    push_text(&mut args, "error");
    push_text(&mut args, "-y");
    push_text(&mut args, "-fflags");
    push_text(&mut args, "+genpts+discardcorrupt");
    push_text(&mut args, "-err_detect");
    push_text(&mut args, "ignore_err");
    assert(args_view(args@) =~= leading_args());
    push_text(&mut args, "-i");
    push_path(&mut args, input);
    push_text(&mut args, "-map");
    push_text(&mut args, "0:a:0");
    push_text(&mut args, "-vn");
    push_text(&mut args, "-sn");
    push_text(&mut args, "-dn");
    let ghost opening = leading_args() + seq![
        ArgView::Text("-i"@),
        ArgView::Path(path::path_bytes(*input)),
    ] + stream_args();
    assert(args_view(args@) =~= opening);
    push_text(&mut args, "-c:a");
    push_text(&mut args, "libvorbis");
    push_text(&mut args, "-q:a");
    push_text(&mut args, signed_decimal_text(quality).as_str());
    push_text(&mut args, "-ac");
    push_text(&mut args, channels.ffmpeg_value());
    push_text(&mut args, "-map_metadata");
    push_text(&mut args, "0");
    if let Some(rate) = sample_rate.ffmpeg_value() {
        push_text(&mut args, "-ar");
        push_text(&mut args, rate);
    }
    assert(args_view(args@) =~= opening + encoding_args(channels, quality as int, sample_rate));
    push_text(&mut args, "-f");
    push_text(&mut args, "ogg");
    push_path(&mut args, output);
    assert(args_view(args@) =~= conversion_args(
        path::path_bytes(*input),
        path::path_bytes(*output),
        channels,
        quality as int,
        sample_rate,
    ));
    FfmpegCommand { program: copy_path(ffmpeg), current_dir: parent(ffmpeg), args }
}

/// How a finished process ended, and what it wrote.
#[derive(Debug)]
pub struct ProcessOutput {
    pub success: bool,
    pub code: Option<i32>,
    pub stdout: Vec<u8>,
    pub stderr: Vec<u8>,
}

/// A process's end as contracts see it.
pub struct OutputView {
    pub success: bool,
    pub code: Option<i32>,
    pub stdout: Seq<u8>,
    pub stderr: Seq<u8>,
}

impl View for ProcessOutput {
    type V = OutputView;

    open spec fn view(&self) -> OutputView {
        OutputView {
            success: self.success,
            code: self.code,
            stdout: self.stdout@,
            stderr: self.stderr@,
        }
    }
}

/// A run as contracts see it: how the process ended, or why it did not start.
pub open spec fn run_view(run: Result<ProcessOutput, String>) -> Result<OutputView, Seq<char>> {
    match run {
        Ok(output) => Ok(output@),
        Err(error) => Err(error@),
    }
}

/// A result without a value as contracts see it.
pub open spec fn unit_view(result: Result<(), String>) -> Result<(), Seq<char>> {
    match result {
        Ok(_) => Ok(()),
        Err(error) => Err(error@),
    }
}

/// A piece of a message, behind a dot where there is anything to say.
pub open spec fn piece(text: Seq<char>) -> Seq<char> {
    if text.len() == 0 {
        Seq::empty()
    } else {
        " · "@ + text
    }
}

/// The exit code, or a word where a signal ended the process.
pub open spec fn code_text(code: Option<i32>) -> Seq<char> {
    match code {
        Some(c) => text::signed_decimal(c as int),
        None => "сигнал"@,
    }
}

/// What is said of a process that failed: its code and what it wrote, errors first.
pub open spec fn failure_text(
    code: Option<i32>,
    stderr: Seq<char>,
    stdout: Seq<char>,
) -> Seq<char> {
    "код "@ + code_text(code) + piece(stderr) + piece(stdout) + if stderr.len() == 0
        && stdout.len() == 0 {
        " · FFmpeg ничего не вывел (файл занят, нет прав или антивирус перехватил процесс)"@
    } else {
        Seq::empty()
    }
}

/// What a run of FFmpeg means: success, or why not.
pub open spec fn verdict(run: Result<OutputView, Seq<char>>) -> Result<(), Seq<char>> {
    match run {
        Err(error) => Err("Не удалось запустить FFmpeg: "@ + error),
        Ok(output) => if output.success {
            Ok(())
        } else {
            Err(
                failure_text(
                    output.code,
                    text::trimmed(text::lossy_text(output.stderr)),
                    text::trimmed(text::lossy_text(output.stdout)),
                ),
            )
        },
    }
}

/// What is said of a process that failed with `code`, having written these texts.
pub fn failure_message(code: Option<i32>, stderr: &str, stdout: &str) -> (message: String)
    ensures
        message@ == failure_text(code, stderr@, stdout@),
{
    let mut message = "код ".to_owned();
    match code {
        Some(c) => {
            message.append(signed_decimal_text(c).as_str());
        },
        None => {
            message.append("сигнал");
        },
    }
    if !stderr.is_empty() {
        message.append(" · ");
        message.append(stderr);
    }
    if !stdout.is_empty() {
        message.append(" · ");
        message.append(stdout);
    }
    if stderr.is_empty() && stdout.is_empty() {
        message.append(
            " · FFmpeg ничего не вывел (файл занят, нет прав или антивирус перехватил процесс)",
        );
    }
    assert(message@ =~= failure_text(code, stderr@, stdout@));
    message
}

/// What a run of FFmpeg means: success, or why not.
pub fn conversion_result(run: Result<ProcessOutput, String>) -> (result: Result<(), String>)
    ensures
        unit_view(result) == verdict(run_view(run)),
{
    match run {
        Err(error) => {
            let mut message = "Не удалось запустить FFmpeg: ".to_owned();
            message.append(error.as_str());
            Err(message)
        },
        Ok(output) => {
            if output.success {
                return Ok(());
            }
            let stderr = trim(text_from_lossy(&output.stderr).as_str());
            let stdout = trim(text_from_lossy(&output.stdout).as_str());
            Err(failure_message(output.code, stderr.as_str(), stdout.as_str()))
        },
    }
}

} // verus!
