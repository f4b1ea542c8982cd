# Schrodinger Audio Converter

A desktop program that converts a queue of audio files to OGG Vorbis with FFmpeg.

The library in `src/` holds the logic and its proofs:

- `text`, `path`: text and path building on `String` and `PathBuf`.
- `settings`, `status`: what the user can set, and how files and log lines are marked.
- `queue`, `output`: the queue of files, and where each of them is written.
- `command`, `job`: the FFmpeg command line, how its end is read, and a batch of conversions as a
  machine that hands out requests and takes in replies.
- `ffmpeg`, `setup`, `copying`, `archive`: where FFmpeg is looked for, the search and the copying
  of an installed one as machines of the same kind, and the program inside the downloaded archive.
- `app`, `screen`: the state behind the window, and what the window shows of it.
- `job_laws`, `setup_laws`, `scan_laws`, `app_laws`: what holds of whole batches, whole searches,
  whole scans of folders and several operations on the state.

`app/` is the program: the window, the threads, files, processes and the download. `tests/` runs
the library on concrete values.

A build with `--cfg bundle_ffmpeg` among the compiler's flags ships the FFmpeg program that the
variable `BUNDLED_FFMPEG` names.
