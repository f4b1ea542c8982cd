//! What goes into the queue, what happens to it there, and what is taken out.

use vstd::prelude::*;
use vstd::string::*;
use vstd::utf8::*;
use crate::path;
use crate::queue;
use crate::status::FileStatus;
use crate::text;
use crate::text_laws;

verus! {

/// An extension is one of an audio file if and only if it is one of fourteen words, in whatever
/// case it is written.
pub proof fn audio_extensions_are_these(extension: Seq<char>)
    ensures
        queue::is_audio_extension(extension) <==> {
            ||| text::same_ignoring_case(extension, "mp3"@)
            ||| text::same_ignoring_case(extension, "m4a"@)
            ||| text::same_ignoring_case(extension, "wav"@)
            ||| text::same_ignoring_case(extension, "flac"@)
            ||| text::same_ignoring_case(extension, "aac"@)
            ||| text::same_ignoring_case(extension, "ogg"@)
            ||| text::same_ignoring_case(extension, "opus"@)
            ||| text::same_ignoring_case(extension, "wma"@)
            ||| text::same_ignoring_case(extension, "aiff"@)
            ||| text::same_ignoring_case(extension, "aif"@)
            ||| text::same_ignoring_case(extension, "alac"@)
            ||| text::same_ignoring_case(extension, "ape"@)
            ||| text::same_ignoring_case(extension, "ac3"@)
            ||| text::same_ignoring_case(extension, "amr"@)
        },
{
    let list = queue::audio_extension_list();
    assert(list.len() == 14);
    assert(list[0] == "mp3"@ && list[1] == "m4a"@ && list[2] == "wav"@ && list[3] == "flac"@);
    assert(list[4] == "aac"@ && list[5] == "ogg"@ && list[6] == "opus"@ && list[7] == "wma"@);
    assert(list[8] == "aiff"@ && list[9] == "aif"@ && list[10] == "alac"@ && list[11] == "ape"@);
    assert(list[12] == "ac3"@ && list[13] == "amr"@);
    assert forall|i: int| 0 <= i < list.len() implies text::same_ignoring_case(
        #[trigger] list[i],
        extension,
    ) == text::same_ignoring_case(extension, list[i]) by {
        text_laws::case_relates_both_ways(list[i], extension);
    }
}

/// Each word of the list of audio extensions counts as one, and so does what differs from it in
/// case only.
pub proof fn listed_extensions_count(i: int, extension: Seq<char>)
    requires
        0 <= i < queue::audio_extension_list().len(),
        text::same_ignoring_case(extension, queue::audio_extension_list()[i]),
    ensures
        queue::is_audio_extension(extension),
{
    text_laws::case_relates_both_ways(queue::audio_extension_list()[i], extension);
}

/// A path is that of an audio file by what stands behind the last dot of its file name, however
/// the rest is named. A dot at the very front of the name does not count.
pub proof fn audio_is_told_by_the_extension(
    path: Seq<u8>,
    front: Seq<u8>,
    ending: Seq<u8>,
    extension: Seq<char>,
)
    requires
        path::file_name_of(path) == Some(front + seq![0x2eu8] + ending),
        forall|k: int| 0 <= k < ending.len() ==> #[trigger] ending[k] != 0x2e,
        ending == encode_utf8(extension),
    ensures
        front.len() > 0 ==> queue::is_audio_path(path) == queue::is_audio_extension(extension),
        front.len() == 0 ==> !queue::is_audio_path(path),
{
    let name = front + seq![0x2eu8] + ending;
    let dot = front.len() as int;
    text_laws::text_is_its_utf8(ending, extension);
    text_laws::name_is_stem_and_extension(name, dot);
    assert forall|k: int| dot < k < name.len() implies #[trigger] name[k] != 0x2e by {
        assert(name[k] == ending[k - dot - 1]);
    }
    assert(name[dot] == 0x2e);
    assert(name.skip(dot + 1) =~= ending);
}

/// A path without a file name, whose name has no dot behind its first byte, or whose extension is
/// not text, is not that of an audio file.
pub proof fn what_is_not_audio(path: Seq<u8>, name: Seq<u8>)
    ensures
        path::file_name_of(path) is None ==> !queue::is_audio_path(path),
        path::file_name_of(path) == Some(name) && (forall|k: int|
            1 <= k < name.len() ==> #[trigger] name[k] != 0x2e) ==> !queue::is_audio_path(path),
        path::file_name_of(path) == Some(name) && path::extension_of(name) is Some && !valid_utf8(
            path::extension_of(name)->0,
        ) ==> !queue::is_audio_path(path),
{
    text_laws::name_is_stem_and_extension(name, 0);
}

/// How many files have a status.
pub open spec fn count(files: Seq<queue::FileView>, status: FileStatus) -> nat
    decreases files.len(),
{
    if files.len() == 0 {
        0
    } else {
        count(files.drop_last(), status) + if files.last().status == status {
            1nat
        } else {
            0nat
        }
    }
}

/// Taking out the files that failed takes out those and no others, whatever the others' status
/// is: each file that has not failed is still there, and as many are gone as failed.
pub proof fn only_failed_files_go(files: Seq<queue::FileView>)
    ensures
        forall|file: queue::FileView| #[trigger]
            queue::without_failed(files).contains(file) <==> files.contains(file) && file.status
                != FileStatus::Failed,
        queue::without_failed(files).len() + count(files, FileStatus::Failed) == files.len(),
        count(queue::without_failed(files), FileStatus::Failed) == 0,
        count(queue::without_failed(files), FileStatus::Queued) == count(
            files,
            FileStatus::Queued,
        ),
        count(queue::without_failed(files), FileStatus::Running) == count(
            files,
            FileStatus::Running,
        ),
        count(queue::without_failed(files), FileStatus::Success) == count(
            files,
            FileStatus::Success,
        ),
        count(queue::without_failed(files), FileStatus::Skipped) == count(
            files,
            FileStatus::Skipped,
        ),
    decreases files.len(),
{
    reveal(Seq::filter);
    let after = queue::without_failed(files);
    if files.len() > 0 {
        let rest = files.drop_last();
        let last = files.last();
        let before = queue::without_failed(rest);
        only_failed_files_go(rest);
        if last.status != FileStatus::Failed {
            assert(after == before.push(last));
            assert(after.drop_last() =~= before);
        } else {
            assert(after == before);
        }
        assert forall|file: queue::FileView| #[trigger] after.contains(file) <==> files.contains(
            file,
        ) && file.status != FileStatus::Failed by {
            if after.contains(file) {
                let k = choose|k: int| 0 <= k < after.len() && after[k] == file;
                if k < before.len() {
                    assert(before[k] == file);
                    assert(before.contains(file));
                    let j = choose|j: int| 0 <= j < rest.len() && rest[j] == file;
                    assert(files[j] == file);
                } else {
                    assert(files[files.len() - 1] == file);
                }
            }
            if files.contains(file) && file.status != FileStatus::Failed {
                let j = choose|j: int| 0 <= j < files.len() && files[j] == file;
                if j < rest.len() {
                    assert(rest[j] == file);
                    assert(before.contains(file));
                    let k = choose|k: int| 0 <= k < before.len() && before[k] == file;
                    assert(after[k] == file);
                } else {
                    assert(after[after.len() - 1] == file);
                }
            }
        }
    }
}

/// The files that stay keep their order: what stays of two queues, one behind the other, is what
/// stays of the one with what stays of the other behind it; and of a single file nothing stays if
/// it failed, and otherwise the file as it was.
pub proof fn files_that_stay_keep_their_order(
    a: Seq<queue::FileView>,
    b: Seq<queue::FileView>,
    file: queue::FileView,
)
    ensures
        queue::without_failed(a + b) == queue::without_failed(a) + queue::without_failed(b),
        queue::without_failed(seq![file]) == if file.status == FileStatus::Failed {
            Seq::<queue::FileView>::empty()
        } else {
            seq![file]
        },
    decreases b.len(),
{
    reveal(Seq::filter);
    assert(seq![file].drop_last() =~= Seq::empty());
    assert(queue::without_failed(Seq::<queue::FileView>::empty()) =~= Seq::empty());
    assert(queue::without_failed(seq![file]) =~= if file.status == FileStatus::Failed {
        Seq::<queue::FileView>::empty()
    } else {
        seq![file]
    });
    if b.len() == 0 {
        assert(a + b =~= a);
        assert(queue::without_failed(a + b) =~= queue::without_failed(a) + queue::without_failed(
            b,
        ));
    } else {
        files_that_stay_keep_their_order(a, b.drop_last(), file);
        assert((a + b).drop_last() =~= a + b.drop_last());
        assert((a + b).last() == b.last());
        assert(queue::without_failed(a + b) =~= queue::without_failed(a) + queue::without_failed(
            b,
        ));
    }
}

/// Some file failed if and only if taking out those that failed leaves fewer.
pub proof fn failed_files_are_seen(files: Seq<queue::FileView>)
    ensures
        queue::any_failed(files) <==> count(files, FileStatus::Failed) > 0,
        queue::any_failed(files) <==> queue::without_failed(files).len() < files.len(),
    decreases files.len(),
{
    only_failed_files_go(files);
    if files.len() > 0 {
        let rest = files.drop_last();
        failed_files_are_seen(rest);
        if queue::any_failed(rest) {
            let i = choose|i: int|
                0 <= i < rest.len() && (#[trigger] rest[i]).status == FileStatus::Failed;
            assert(files[i] == rest[i]);
        }
        if queue::any_failed(files) {
            let i = choose|i: int|
                0 <= i < files.len() && (#[trigger] files[i]).status == FileStatus::Failed;
            if i < rest.len() {
                assert(rest[i] == files[i]);
            }
        }
        if files.last().status == FileStatus::Failed {
            assert(files[files.len() - 1].status == FileStatus::Failed);
        }
    }
}

/// A path that no queued file has goes to the end of the queue and waits there, with nothing said
/// of it; where a queued file has it, nothing changes.
pub proof fn new_paths_go_to_the_end(files: Seq<queue::FileView>, path: Seq<u8>)
    ensures
        (forall|i: int| 0 <= i < files.len() ==> !path::same((#[trigger] files[i]).path, path)) ==> {
            let after = queue::with_path(files, path);
            &&& after.len() == files.len() + 1
            &&& after.drop_last() == files
            &&& after.last().path == path
            &&& after.last().status == FileStatus::Queued
            &&& after.last().message.len() == 0
        },
        (exists|i: int| 0 <= i < files.len() && path::same((#[trigger] files[i]).path, path))
            ==> queue::with_path(files, path) == files,
{
    if !queue::is_queued(files, path) {
        assert(queue::with_path(files, path).drop_last() =~= files);
    }
}

/// The news of a file change the first queued file of its path, and no other: its start makes it
/// run, and its end gives it the status and the message that were told.
pub proof fn news_change_their_file(
    files: Seq<queue::FileView>,
    path: Seq<u8>,
    at: int,
    status: FileStatus,
    message: Seq<char>,
)
    requires
        0 <= at < files.len(),
        path::same(files[at].path, path),
        forall|j: int| 0 <= j < at ==> !path::same((#[trigger] files[j]).path, path),
    ensures
        ({
            let run = queue::with_change(files, path, queue::running());
            let end = queue::with_change(files, path, queue::ended(status, message));
            &&& run.len() == files.len() && end.len() == files.len()
            &&& forall|i: int|
                0 <= i < files.len() && i != at ==> #[trigger] run[i] == files[i] && end[i]
                    == files[i]
            &&& run[at].path == files[at].path && end[at].path == files[at].path
            &&& run[at].status == FileStatus::Running && run[at].message == files[at].message
            &&& end[at].status == status && end[at].message == message
        }),
{
    assert(queue::is_first(files, path, at));
    queue::first_is_unique(files, path, at);
    let i = choose|i: int| queue::is_first(files, path, i);
    assert(i == at);
}

/// News of a file that is not queued change nothing.
pub proof fn news_of_others_change_nothing(
    files: Seq<queue::FileView>,
    path: Seq<u8>,
    status: FileStatus,
    message: Seq<char>,
)
    requires
        forall|j: int| 0 <= j < files.len() ==> !path::same((#[trigger] files[j]).path, path),
    ensures
        queue::with_change(files, path, queue::running()) == files,
        queue::with_change(files, path, queue::ended(status, message)) == files,
{
}

/// Before a batch every file waits again, with nothing said of it, at its place.
pub proof fn all_files_wait_again(files: Seq<queue::FileView>, i: int)
    requires
        0 <= i < files.len(),
    ensures
        queue::all_waiting(files).len() == files.len(),
        queue::all_waiting(files)[i].path == files[i].path,
        queue::all_waiting(files)[i].status == FileStatus::Queued,
        queue::all_waiting(files)[i].message.len() == 0,
{
}

/// Each status has its own word and tone.
pub proof fn statuses_are_told_apart(status: FileStatus)
    ensures
        status == FileStatus::Queued ==> status.word() == "в очереди"@ && status.tone()
            == crate::status::Tone::Muted,
        status == FileStatus::Running ==> status.word() == "идёт"@ && status.tone()
            == crate::status::Tone::Accent,
        status == FileStatus::Success ==> status.word() == "готово"@ && status.tone()
            == crate::status::Tone::Good,
        status == FileStatus::Skipped ==> status.word() == "пропуск"@ && status.tone()
            == crate::status::Tone::Warning,
        status == FileStatus::Failed ==> status.word() == "ошибка"@ && status.tone()
            == crate::status::Tone::Bad,
        status.is_final() <==> status != FileStatus::Queued && status != FileStatus::Running,
{
}

} // verus!
