//! Logic of an audio converter that turns a queue of files into OGG Vorbis with FFmpeg.

pub mod app;
pub mod app_laws;
pub mod archive;
pub mod archive_laws;
pub mod call_laws;
pub mod command;
pub mod command_laws;
pub mod copying;
pub mod ffmpeg;
pub mod ffmpeg_laws;
pub mod job;
pub mod job_laws;
pub mod output;
pub mod output_laws;
pub mod path;
pub mod queue;
pub mod queue_laws;
pub mod result_laws;
pub mod scan_laws;
pub mod screen;
pub mod screen_laws;
pub mod settings;
pub mod setup;
pub mod setup_laws;
pub mod state_laws;
pub mod status;
pub mod text;
pub mod text_laws;
pub mod view_laws;
