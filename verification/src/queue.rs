//! The queue of files to be converted.

use std::path::PathBuf;
use vstd::prelude::*;
use vstd::string::*;
use crate::path;
use crate::path::{copy_path, extension, path_text, same_path};
use crate::status::FileStatus;
use crate::text;
use crate::text::eq_ignore_ascii_case;

verus! {

/// The extensions of audio files, in small letters.
pub open spec fn audio_extension_list() -> Seq<Seq<char>> {
    seq![
        "mp3"@,
        "m4a"@,
        "wav"@,
        "flac"@,
        "aac"@,
        "ogg"@,
        "opus"@,
        "wma"@,
        "aiff"@,
        "aif"@,
        "alac"@,
        "ape"@,
        "ac3"@,
        "amr"@,
    ]
}

/// The extensions of audio files, in small letters.
pub fn audio_extensions() -> (list: Vec<&'static str>)
    ensures
        list.len() == audio_extension_list().len(),
        forall|i: int| 0 <= i < list.len() ==> (#[trigger] list[i])@ == audio_extension_list()[i],
{
    let list: Vec<&'static str> = vec![
        "mp3", "m4a", "wav", "flac", "aac", "ogg", "opus", "wma", "aiff", "aif", "alac", "ape",
        "ac3", "amr",
    ];
    list
}

/// Whether an extension is one of an audio file, in whatever case it is written.
pub open spec fn is_audio_extension(extension: Seq<char>) -> bool {
    exists|i: int|
        0 <= i < audio_extension_list().len() && text::same_ignoring_case(
            #[trigger] audio_extension_list()[i],
            extension,
        )
}

/// Whether a path has the extension of an audio file.
pub open spec fn is_audio_path(path: Seq<u8>) -> bool {
    match path::file_name_of(path) {
        Some(name) => match path::extension_of(name) {
            Some(ending) => match text::utf8_text(ending) {
                Some(extension) => is_audio_extension(extension),
                None => false,
            },
            None => false,
        },
        None => false,
    }
}

fn is_audio_text(extension: &str) -> (audio: bool)
    ensures
        audio == is_audio_extension(extension@),
{
    let list = audio_extensions();
    let mut i: usize = 0;
    while i < list.len()
        invariant
            i <= list.len(),
            list.len() == audio_extension_list().len(),
            forall|k: int|
                0 <= k < list.len() ==> (#[trigger] list[k])@ == audio_extension_list()[k],
            forall|k: int|
                0 <= k < i ==> !text::same_ignoring_case(
                    #[trigger] audio_extension_list()[k],
                    extension@,
                ),
        decreases list.len() - i,
    {
        if eq_ignore_ascii_case(list[i], extension) {
            assert(text::same_ignoring_case(audio_extension_list()[i as int], extension@));
            return true;
        }
        assert(list[i as int]@ == audio_extension_list()[i as int]);
        i += 1;
    }
    false
}

/// Whether `path` has the extension of an audio file.
pub fn is_audio(path: &PathBuf) -> (audio: bool)
    ensures
        audio == is_audio_path(path::path_bytes(*path)),
{
    match extension(path) {
        Some(ending) => match path_text(&ending) {
            Some(text) => is_audio_text(text.as_str()),
            None => false,
        },
        None => false,
    }
}

/// A file of the queue.
#[derive(Debug)]
pub struct QueueFile {
    pub path: PathBuf,
    pub status: FileStatus,
    pub message: String,
}

/// A file of the queue as contracts see it.
pub struct FileView {
    pub path: Seq<u8>,
    pub status: FileStatus,
    pub message: Seq<char>,
}

impl View for QueueFile {
    type V = FileView;

    open spec fn view(&self) -> FileView {
        FileView {
            path: path::path_bytes(self.path),
            status: self.status,
            message: self.message@,
        }
    }
}

/// The views of a list of files.
pub open spec fn file_views(files: Seq<QueueFile>) -> Seq<FileView> {
    Seq::new(files.len(), |i: int| files[i]@)
}

/// The paths of a list of files.
pub open spec fn file_paths(files: Seq<FileView>) -> Seq<Seq<u8>> {
    Seq::new(files.len(), |i: int| files[i].path)
}

/// Whether no path stands in the queue twice.
pub open spec fn all_different(files: Seq<FileView>) -> bool {
    forall|i: int, j: int|
        0 <= i < j < files.len() ==> !path::same(
            (#[trigger] files[i]).path,
            (#[trigger] files[j]).path,
        )
}

/// Whether a path stands in the queue.
pub open spec fn is_queued(files: Seq<FileView>, path: Seq<u8>) -> bool {
    exists|i: int| 0 <= i < files.len() && path::same((#[trigger] files[i]).path, path)
}

/// Whether `i` is the first place of a path in the queue.
pub open spec fn is_first(files: Seq<FileView>, path: Seq<u8>, i: int) -> bool {
    &&& 0 <= i < files.len()
    &&& path::same(files[i].path, path)
    &&& forall|j: int| 0 <= j < i ==> !path::same((#[trigger] files[j]).path, path)
}

/// A file that waits its turn.
pub open spec fn waiting(path: Seq<u8>) -> FileView {
    FileView { path, status: FileStatus::Queued, message: Seq::empty() }
}

/// The queue after a path was put in: at its end, unless it stands there already.
pub open spec fn with_path(files: Seq<FileView>, path: Seq<u8>) -> Seq<FileView> {
    if is_queued(files, path) {
        files
    } else {
        files.push(waiting(path))
    }
}

/// The queue after `change` was made to the first file of a path, if there is one.
pub open spec fn with_change(
    files: Seq<FileView>,
    path: Seq<u8>,
    change: spec_fn(FileView) -> FileView,
) -> Seq<FileView> {
    if is_queued(files, path) {
        let i = choose|i: int| is_first(files, path, i);
        files.update(i, change(files[i]))
    } else {
        files
    }
}

/// The queue without the files that failed.
pub open spec fn without_failed(files: Seq<FileView>) -> Seq<FileView> {
    files.filter(|file: FileView| file.status != FileStatus::Failed)
}

/// The queue with every file waiting again.
pub open spec fn all_waiting(files: Seq<FileView>) -> Seq<FileView> {
    Seq::new(files.len(), |i: int| waiting(files[i].path))
}

/// A path's first place is its only one, and exists if the path is queued at all.
pub proof fn first_is_unique(files: Seq<FileView>, path: Seq<u8>, i: int)
    requires
        is_first(files, path, i),
    ensures
        is_queued(files, path),
        forall|j: int| is_first(files, path, j) ==> j == i,
{
}

/// A path that is queued has a first place.
pub proof fn queued_has_first(files: Seq<FileView>, path: Seq<u8>, i: int)
    requires
        0 <= i < files.len(),
        path::same(files[i].path, path),
    ensures
        exists|k: int| is_first(files, path, k),
    decreases i,
{
    if !is_first(files, path, i) {
        let j = choose|j: int| 0 <= j < i && path::same((#[trigger] files[j]).path, path);
        queued_has_first(files, path, j);
    }
}

/// The first place of `path` in the queue.
pub fn find_file(files: &Vec<QueueFile>, path: &PathBuf) -> (place: Option<usize>)
    ensures
        place is Some == is_queued(file_views(files@), path::path_bytes(*path)),
        place matches Some(i) ==> is_first(file_views(files@), path::path_bytes(*path), i as int),
{
    let ghost views = file_views(files@);
    let mut i: usize = 0;
    while i < files.len()
        invariant
            i <= files.len(),
            views == file_views(files@),
            forall|j: int|
                0 <= j < i ==> !path::same((#[trigger] views[j]).path, path::path_bytes(*path)),
        decreases files.len() - i,
    {
        if same_path(&files[i].path, path) {
            assert(path::same(views[i as int].path, path::path_bytes(*path)));
            return Some(i);
        }
        assert(views[i as int].path == path::path_bytes(files[i as int].path));
        i += 1;
    }
    None
}

/// Putting a path into the queue keeps it free of doubles.
pub proof fn path_keeps_different(files: Seq<FileView>, path: Seq<u8>)
    requires
        all_different(files),
    ensures
        all_different(with_path(files, path)),
{
    let after = with_path(files, path);
    assert forall|i: int, j: int| 0 <= i < j < after.len() implies !path::same(
        (#[trigger] after[i]).path,
        (#[trigger] after[j]).path,
    ) by {
        assert(after[i] == files[i]);
        if j < files.len() {
            assert(after[j] == files[j]);
        }
    }
}

/// Puts `path` at the end of the queue, unless it stands there already.
pub fn enqueue(files: &mut Vec<QueueFile>, path: PathBuf)
    ensures
        file_views(final(files)@) == with_path(file_views(old(files)@), path::path_bytes(path)),
        all_different(file_views(old(files)@)) ==> all_different(file_views(final(files)@)),
{
    let ghost before = file_views(files@);
    if find_file(files, &path).is_some() {
        return;
    }
    let ghost bytes = path::path_bytes(path);
    files.push(QueueFile { path, status: FileStatus::Queued, message: String::new() });
    proof {
        assert(file_views(files@) =~= before.push(waiting(bytes)));
        if all_different(before) {
            path_keeps_different(before, bytes);
        }
    }
}

/// A change that keeps a file's path keeps the paths of the queue.
pub proof fn change_keeps_paths(
    files: Seq<FileView>,
    path: Seq<u8>,
    change: spec_fn(FileView) -> FileView,
)
    requires
        forall|file: FileView| (#[trigger] change(file)).path == file.path,
    ensures
        file_paths(with_change(files, path, change)) == file_paths(files),
        all_different(files) ==> all_different(with_change(files, path, change)),
{
    let after = with_change(files, path, change);
    if is_queued(files, path) {
        let i = choose|i: int| 0 <= i < files.len() && path::same((#[trigger] files[i]).path, path);
        queued_has_first(files, path, i);
    }
    assert(file_paths(after) =~= file_paths(files));
    same_paths_different(files, after);
}

/// Queues of the same paths are both free of doubles or both not.
pub proof fn same_paths_different(a: Seq<FileView>, b: Seq<FileView>)
    requires
        file_paths(a) == file_paths(b),
    ensures
        all_different(a) ==> all_different(b),
{
    if all_different(a) {
        assert forall|i: int, j: int| 0 <= i < j < b.len() implies !path::same(
            (#[trigger] b[i]).path,
            (#[trigger] b[j]).path,
        ) by {
            assert(file_paths(a).len() == a.len() && file_paths(b).len() == b.len());
            assert(file_paths(a)[i] == a[i].path);
            assert(file_paths(a)[j] == a[j].path);
            assert(file_paths(b)[i] == b[i].path);
            assert(file_paths(b)[j] == b[j].path);
            assert(!path::same(a[i].path, a[j].path));
        }
    }
}

/// A file that is being converted.
pub open spec fn running() -> spec_fn(FileView) -> FileView {
    |file: FileView| FileView { status: FileStatus::Running, ..file }
}

/// A file that has been dealt with.
pub open spec fn ended(status: FileStatus, message: Seq<char>) -> spec_fn(FileView) -> FileView {
    |file: FileView| FileView { status, message, ..file }
}

/// Marks the first file of `path` as being converted.
pub fn mark_running(files: &mut Vec<QueueFile>, path: &PathBuf)
    ensures
        file_views(final(files)@) == with_change(
            file_views(old(files)@),
            path::path_bytes(*path),
            running(),
        ),
{
    let ghost before = file_views(files@);
    if let Some(i) = find_file(files, path) {
        files[i].status = FileStatus::Running;
        proof {
            first_is_unique(before, path::path_bytes(*path), i as int);
            assert(file_views(files@) =~= before.update(i as int, running()(before[i as int])));
        }
    }
}

/// Marks the first file of `path` as dealt with.
pub fn mark_ended(files: &mut Vec<QueueFile>, path: &PathBuf, status: FileStatus, message: &String)
    ensures
        file_views(final(files)@) == with_change(
            file_views(old(files)@),
            path::path_bytes(*path),
            ended(status, message@),
        ),
{
    let ghost before = file_views(files@);
    if let Some(i) = find_file(files, path) {
        files[i].status = status;
        files[i].message = message.clone();
        proof {
            first_is_unique(before, path::path_bytes(*path), i as int);
            assert(file_views(files@) =~= before.update(
                i as int,
                ended(status, message@)(before[i as int]),
            ));
        }
    }
}

/// Makes every file wait again.
pub fn reset(files: &mut Vec<QueueFile>)
    ensures
        file_views(final(files)@) == all_waiting(file_views(old(files)@)),
{
    let ghost before = file_views(files@);
    let mut i: usize = 0;
    while i < files.len()
        invariant
            i <= files.len(),
            before.len() == files.len(),
            forall|k: int| 0 <= k < i ==> (#[trigger] files[k])@ == waiting(before[k].path),
            forall|k: int| i <= k < files.len() ==> (#[trigger] files[k])@ == before[k],
        decreases files.len() - i,
    {
        files[i].status = FileStatus::Queued;
        files[i].message = String::new();
        assert(files[i as int]@ == waiting(before[i as int].path));
        i += 1;
    }
    assert(file_views(files@) =~= all_waiting(before));
}

/// The paths of the queue, in its order.
pub fn queue_paths(files: &Vec<QueueFile>) -> (paths: Vec<PathBuf>)
    ensures
        path::list_bytes(paths@) == file_paths(file_views(files@)),
{
    let mut paths: Vec<PathBuf> = Vec::new();
    let mut i: usize = 0;
    while i < files.len()
        invariant
            i <= files.len(),
            paths.len() == i,
            forall|k: int|
                0 <= k < i ==> path::path_bytes(#[trigger] paths[k]) == path::path_bytes(
                    files[k].path,
                ),
        decreases files.len() - i,
    {
        paths.push(copy_path(&files[i].path));
        i += 1;
    }
    assert(path::list_bytes(paths@) =~= file_paths(file_views(files@)));
    paths
}

/// Whether some file failed.
pub open spec fn any_failed(files: Seq<FileView>) -> bool {
    exists|i: int| 0 <= i < files.len() && (#[trigger] files[i]).status == FileStatus::Failed
}

/// Whether some file failed.
pub fn has_failed(files: &Vec<QueueFile>) -> (found: bool)
    ensures
        found == any_failed(file_views(files@)),
{
    let ghost views = file_views(files@);
    let mut i: usize = 0;
    while i < files.len()
        invariant
            i <= files.len(),
            views == file_views(files@),
            forall|k: int| 0 <= k < i ==> (#[trigger] views[k]).status != FileStatus::Failed,
        decreases files.len() - i,
    {
        if files[i].status == FileStatus::Failed {
            assert(views[i as int].status == FileStatus::Failed);
            return true;
        }
        i += 1;
    }
    false
}

/// Removing a file keeps the queue free of doubles.
pub proof fn removal_keeps_different(files: Seq<FileView>, at: int)
    requires
        0 <= at < files.len(),
        all_different(files),
    ensures
        all_different(files.remove(at)),
{
    let after = files.remove(at);
    assert forall|i: int, j: int| 0 <= i < j < after.len() implies !path::same(
        (#[trigger] after[i]).path,
        (#[trigger] after[j]).path,
    ) by {
        let x = if i < at {
            i
        } else {
            i + 1
        };
        let y = if j < at {
            j
        } else {
            j + 1
        };
        assert(after[i] == files[x]);
        assert(after[j] == files[y]);
    }
}

/// Takes the files that failed out of the queue.
pub fn drop_failed(files: &mut Vec<QueueFile>)
    ensures
        file_views(final(files)@) == without_failed(file_views(old(files)@)),
        all_different(file_views(old(files)@)) ==> all_different(file_views(final(files)@)),
{
    let ghost before = file_views(files@);
    let ghost kept = |file: FileView| file.status != FileStatus::Failed;
    let ghost mut seen: int = 0;
    let mut i: usize = 0;
    proof {
        assert(before.take(0) =~= Seq::empty());
        assert(before.skip(0) =~= before);
        reveal(Seq::filter);
        assert(file_views(files@) =~= before.take(0).filter(kept) + before.skip(0));
    }
    while i < files.len()
        invariant
            i <= files.len(),
            0 <= seen <= before.len(),
            kept == (|file: FileView| file.status != FileStatus::Failed),
            i == before.take(seen).filter(kept).len(),
            file_views(files@) == before.take(seen).filter(kept) + before.skip(seen),
            all_different(before) ==> all_different(file_views(files@)),
        decreases files.len() - i,
    {
        let ghost head = before.take(seen);
        let ghost now = file_views(files@);
        proof {
            assert(now[i as int] == before.skip(seen)[0]);
            assert(before.take(seen + 1).drop_last() =~= head);
            assert(before.take(seen + 1).last() == before[seen]);
            reveal(Seq::filter);
        }
        if files[i].status == FileStatus::Failed {
            files.remove(i);
            proof {
                assert(file_views(files@) =~= now.remove(i as int));
                assert(file_views(files@) =~= before.take(seen + 1).filter(kept) + before.skip(
                    seen + 1,
                ));
                if all_different(before) {
                    removal_keeps_different(now, i as int);
                }
            }
        } else {
            i += 1;
            proof {
                assert(file_views(files@) =~= before.take(seen + 1).filter(kept) + before.skip(
                    seen + 1,
                ));
            }
        }
        proof {
            seen = seen + 1;
        }
    }
    proof {
        assert(before.skip(seen).len() == 0);
        assert(before.take(seen) =~= before);
        assert(file_views(files@) =~= without_failed(before));
    }
}

} // verus!
