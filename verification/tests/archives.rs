use schrodinger_audio_converter::archive::{
    extract_ffmpeg_from_zip, find_ffmpeg_in_zip, is_ffmpeg_entry,
};
use std::io::{Cursor, Write};
use zip::write::SimpleFileOptions;
use zip::{CompressionMethod, ZipWriter};

fn archive(entries: &[(&str, &[u8])], method: CompressionMethod) -> Vec<u8> {
    let mut writer = ZipWriter::new(Cursor::new(Vec::new()));
    let options = SimpleFileOptions::default().compression_method(method);
    for (name, data) in entries {
        writer.start_file(*name, options).unwrap();
        writer.write_all(data).unwrap();
    }
    writer.finish().unwrap().into_inner()
}

#[test]
fn names_of_the_program() {
    assert!(is_ffmpeg_entry("ffmpeg-master/bin/ffmpeg.exe"));
    assert!(is_ffmpeg_entry("x\\bin\\FFMPEG.EXE"));
    assert!(is_ffmpeg_entry("a/bin/b/ffmpeg.exe"));
    assert!(!is_ffmpeg_entry("bin/ffmpeg.exe"));
    assert!(!is_ffmpeg_entry("x/bin/ffprobe.exe"));
    assert!(!is_ffmpeg_entry("x/lib/ffmpeg.exe"));
    assert!(!is_ffmpeg_entry("x/bin/ffmpeg.exe/"));
    assert!(!is_ffmpeg_entry("x/Bin/ffmpeg.exe"));
    assert!(!is_ffmpeg_entry("ffmpeg.exe"));
    assert!(!is_ffmpeg_entry(""));
}

#[test]
fn the_program_is_unpacked() {
    let program: Vec<u8> = (0..5000u32).map(|i| (i % 7) as u8).collect();
    for method in [CompressionMethod::Stored, CompressionMethod::Deflated] {
        let bytes = archive(
            &[
                ("f/LICENSE.txt", b"text"),
                ("f/bin/ffprobe.exe", b"probe"),
                ("f/bin/ffmpeg.exe", &program),
                ("g/bin/ffmpeg.exe", b"second"),
            ],
            method,
        );
        let found = find_ffmpeg_in_zip(bytes).ok().unwrap();
        assert_eq!(found.index, 2);
        assert_eq!(extract_ffmpeg_from_zip(found), Ok(program.clone()));
    }
}

#[test]
fn an_archive_without_the_program() {
    let bytes = archive(&[("f/readme", b"text")], CompressionMethod::Stored);
    assert_eq!(
        find_ffmpeg_in_zip(bytes).err(),
        Some("В архиве нет bin/ffmpeg.exe".to_string())
    );
    let empty = archive(&[], CompressionMethod::Stored);
    assert_eq!(
        find_ffmpeg_in_zip(empty).err(),
        Some("В архиве нет bin/ffmpeg.exe".to_string())
    );
}

#[test]
fn bytes_that_are_no_archive() {
    let error = find_ffmpeg_in_zip(b"not an archive at all".to_vec()).err().unwrap();
    assert!(error.starts_with("Повреждён архив FFmpeg: invalid Zip archive"));
}

#[test]
fn an_entry_that_does_not_open_ends_the_search() {
    let mut bytes = archive(
        &[("f/a", b"text"), ("f/bin/ffmpeg.exe", b"program")],
        CompressionMethod::Stored,
    );
    bytes[0] = b'?';
    let error = find_ffmpeg_in_zip(bytes).err().unwrap();
    assert_eq!(error, "invalid Zip archive: Invalid local file header");
}

#[test]
fn damaged_contents() {
    let mut bytes = archive(&[("f/bin/ffmpeg.exe", b"program")], CompressionMethod::Stored);
    let at = bytes.windows(7).position(|w| w == b"program").unwrap();
    bytes[at] = b'P';
    let found = find_ffmpeg_in_zip(bytes).ok().unwrap();
    assert_eq!(
        extract_ffmpeg_from_zip(found),
        Err("Не извлечь ffmpeg.exe: Invalid checksum".to_string())
    );
}
