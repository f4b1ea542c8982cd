//! FFmpeg in a downloaded archive.

use std::io::Cursor;
use vstd::prelude::*;
use vstd::string::*;
use zip::ZipArchive;
use crate::text;
use crate::text::{chars_of, eq_ignore_ascii_case};

verus! {

/// `std::io::Cursor`, bytes in memory with a reading position.
#[verifier::external_type_specification]
#[verifier::external_body]
#[verifier::reject_recursive_types(T)]
pub struct ExCursor<T>(Cursor<T>);

/// `zip::ZipArchive`, an archive that has been opened.
#[verifier::external_type_specification]
#[verifier::external_body]
#[verifier::reject_recursive_types(R)]
pub struct ExZipArchive<R>(ZipArchive<R>);

/// What an archive holds, entry by entry: the name of the entry and what its contents unpack to,
/// or why they do not; or why the entry cannot be opened.
pub uninterp spec fn entries(archive: ZipArchive<Cursor<Vec<u8>>>) -> Seq<
    Result<(Seq<char>, Result<Seq<u8>, Seq<char>>), Seq<char>>,
>;

/// What `ZipArchive::new` finds in the bytes of an archive: its entries, or why it is none.
pub uninterp spec fn opened(bytes: Seq<u8>) -> Result<
    Seq<Result<(Seq<char>, Result<Seq<u8>, Seq<char>>), Seq<char>>>,
    Seq<char>,
>;

/// `ZipArchive::new` on bytes in memory. What it finds is a matter of the bytes alone; an error
/// comes as its text.
#[verifier::external_body]
pub(crate) fn open_zip(bytes: Vec<u8>) -> (archive: Result<ZipArchive<Cursor<Vec<u8>>>, String>)
    ensures
        match archive {
            Ok(a) => opened(bytes@) == Ok::<
                Seq<Result<(Seq<char>, Result<Seq<u8>, Seq<char>>), Seq<char>>>,
                Seq<char>,
            >(entries(a)),
            Err(error) => opened(bytes@) == Err::<
                Seq<Result<(Seq<char>, Result<Seq<u8>, Seq<char>>), Seq<char>>>,
                Seq<char>,
            >(error@),
        },
{
    ZipArchive::new(Cursor::new(bytes)).map_err(|e| e.to_string())
}

/// `ZipArchive::len`: the number of entries.
#[verifier::external_body]
pub(crate) fn entry_count(archive: &ZipArchive<Cursor<Vec<u8>>>) -> (count: usize)
    ensures
        count == entries(*archive).len(),
{
    archive.len()
}

/// `ZipArchive::by_index` and the `name` of the entry: an error comes as its text. What the
/// archive holds stays as it is.
#[verifier::external_body]
pub(crate) fn entry_name(archive: &mut ZipArchive<Cursor<Vec<u8>>>, index: usize) -> (name: Result<
    String,
    String,
>)
    requires
        index < entries(*old(archive)).len(),
    ensures
        entries(*final(archive)) == entries(*old(archive)),
        match entries(*old(archive))[index as int] {
            Ok(entry) => name matches Ok(n) && n@ == entry.0,
            Err(error) => name matches Err(e) && e@ == error,
        },
{
    archive.by_index(index).map(|entry| entry.name().to_owned()).map_err(|e| e.to_string())
}

/// `std::io::copy` from the entry that `ZipArchive::by_index` opens: the unpacked contents, or
/// the text of the error. What the archive holds stays as it is.
#[verifier::external_body]
pub(crate) fn entry_contents(archive: &mut ZipArchive<Cursor<Vec<u8>>>, index: usize) -> (
    contents: Result<Vec<u8>, String>)
    requires
        index < entries(*old(archive)).len(),
        entries(*old(archive))[index as int] is Ok,
    ensures
        entries(*final(archive)) == entries(*old(archive)),
        match entries(*old(archive))[index as int]->Ok_0.1 {
            Ok(data) => contents matches Ok(c) && c@ == data,
            Err(error) => contents matches Err(e) && e@ == error,
        },
{
    let mut entry = archive.by_index(index).map_err(|e| e.to_string())?;
    let mut data: Vec<u8> = Vec::new();
    std::io::copy(&mut entry, &mut data).map_err(|e| e.to_string())?;
    Ok(data)
}

/// An entry's name with every backslash turned into a slash.
pub open spec fn slashed(name: Seq<char>) -> Seq<char> {
    Seq::new(
        name.len(),
        |i: int|
            if name[i] == '\\' {
                '/'
            } else {
                name[i]
            },
    )
}

/// What follows the last slash.
pub open spec fn last_segment(name: Seq<char>) -> Seq<char>
    decreases name.len(),
{
    if name.len() == 0 {
        Seq::empty()
    } else if name.last() == '/' {
        Seq::empty()
    } else {
        last_segment(name.drop_last()).push(name.last())
    }
}

/// Whether `part` stands somewhere in `whole`.
pub open spec fn holds(whole: Seq<char>, part: Seq<char>) -> bool {
    exists|i: int| stands_at(whole, part, i)
}

/// Whether `part` stands in `whole` at `i`.
pub open spec fn stands_at(whole: Seq<char>, part: Seq<char>, i: int) -> bool {
    0 <= i && i + part.len() <= whole.len() && whole.subrange(i, i + part.len()) == part
}

/// Whether an entry is the FFmpeg program: `ffmpeg.exe`, in whatever case, below a folder `bin`.
pub open spec fn is_program(name: Seq<char>) -> bool {
    &&& text::same_ignoring_case(last_segment(slashed(name)), "ffmpeg.exe"@)
    &&& holds(slashed(name), "/bin/"@)
}

fn slashed_chars(name: &str) -> (chars: Vec<char>)
    ensures
        chars@ == slashed(name@),
{
    let mut chars = chars_of(name);
    let mut i: usize = 0;
    while i < chars.len()
        invariant
            i <= chars.len(),
            chars.len() == name@.len(),
            forall|k: int| 0 <= k < i ==> #[trigger] chars@[k] == slashed(name@)[k],
            forall|k: int| i <= k < chars.len() ==> #[trigger] chars@[k] == name@[k],
        decreases chars.len() - i,
    {
        if chars[i] == '\\' {
            chars.set(i, '/');
        }
        i += 1;
    }
    assert(chars@ =~= slashed(name@));
    chars
}

/// Where the last segment begins.
fn segment_start(chars: &Vec<char>) -> (start: usize)
    ensures
        start <= chars.len(),
        last_segment(chars@) == chars@.skip(start as int),
{
    let mut start: usize = chars.len();
    assert(chars@.take(start as int) =~= chars@);
    assert(chars@.skip(start as int) =~= Seq::empty());
    while start > 0 && chars[start - 1] != '/'
        invariant
            start <= chars.len(),
            last_segment(chars@) =~= last_segment(chars@.take(start as int)) + chars@.skip(
                start as int,
            ),
        decreases start,
    {
        assert(chars@.take(start as int).drop_last() =~= chars@.take(start - 1));
        assert(chars@.skip(start - 1) =~= seq![chars@[start - 1]] + chars@.skip(start as int));
        start -= 1;
    }
    assert(last_segment(chars@.take(start as int)) =~= Seq::empty());
    start
}

fn holds_at(chars: &Vec<char>, part: &Vec<char>, at: usize) -> (found: bool)
    requires
        at + part.len() <= chars.len(),
    ensures
        found == stands_at(chars@, part@, at as int),
{
    let ghost window = chars@.subrange(at as int, at + part.len());
    let mut k: usize = 0;
    while k < part.len()
        invariant
            k <= part.len(),
            at + part.len() <= chars.len(),
            window == chars@.subrange(at as int, at + part.len()),
            forall|m: int| 0 <= m < k ==> #[trigger] window[m] == part@[m],
        decreases part.len() - k,
    {
        if chars[at + k] != part[k] {
            assert(window[k as int] != part@[k as int]);
            return false;
        }
        k += 1;
    }
    assert(window =~= part@);
    true
}

fn holds_part(chars: &Vec<char>, part: &Vec<char>) -> (found: bool)
    ensures
        found == holds(chars@, part@),
{
    if part.len() > chars.len() {
        return false;
    }
    let mut i: usize = 0;
    while i <= chars.len() - part.len()
        invariant
            part.len() <= chars.len(),
            i <= chars.len() - part.len() + 1,
            forall|m: int| 0 <= m < i ==> !#[trigger] stands_at(chars@, part@, m),
        decreases chars.len() - part.len() + 1 - i,
    {
        if holds_at(chars, part, i) {
            return true;
        }
        if i == chars.len() - part.len() {
            return false;
        }
        i += 1;
    }
    false
}

/// Whether the last segment of `name`, which begins at `start`, is the program's, in whatever case.
fn is_program_file(name: &str, chars: &Vec<char>, start: usize) -> (equal: bool)
    requires
        start <= chars.len(),
        chars@ == slashed(name@),
        chars@.skip(start as int) == last_segment(chars@),
    ensures
        equal == text::same_ignoring_case(last_segment(slashed(name@)), "ffmpeg.exe"@),
{
    proof {
        reveal_strlit("ffmpeg.exe");
        assert forall|k: int| start <= k < chars.len() implies (chars@[k] == name@[k] || chars@[k]
            == '/') by {}
    }
    let tail = name.substring_char(start, chars.len());
    let equal = eq_ignore_ascii_case(tail, "ffmpeg.exe");
    proof {
        let segment = last_segment(chars@);
        let raw = name@.subrange(start as int, chars@.len() as int);
        last_segment_has_no_slash(chars@);
        assert forall|k: int| 0 <= k < segment.len() implies segment[k] == raw[k] by {
            assert(segment[k] == chars@[start + k]);
            assert(segment[k] != '/');
        }
        assert(segment =~= raw);
    }
    equal
}

proof fn last_segment_has_no_slash(name: Seq<char>)
    ensures
        forall|k: int| 0 <= k < last_segment(name).len() ==> #[trigger] last_segment(name)[k]
            != '/',
    decreases name.len(),
{
    if name.len() > 0 && name.last() != '/' {
        let shorter = last_segment(name.drop_last());
        last_segment_has_no_slash(name.drop_last());
        assert forall|k: int| 0 <= k < last_segment(name).len() implies #[trigger] last_segment(
            name,
        )[k] != '/' by {
            if k < shorter.len() {
                assert(last_segment(name)[k] == shorter[k]);
            }
        }
    }
}

/// Whether the entry of this name is the FFmpeg program: `ffmpeg.exe`, in whatever case, below a
/// folder `bin`.
pub fn is_ffmpeg_entry(name: &str) -> (found: bool)
    ensures
        found == is_program(name@),
{
    let chars = slashed_chars(name);
    let start: usize = segment_start(&chars);
    let folder = chars_of("/bin/");
    is_program_file(name, &chars, start) && holds_part(&chars, &folder)
}

/// The place of the first entry from `from` on that is the FFmpeg program. An entry before it
/// that cannot be opened ends the search.
pub open spec fn search(
    all: Seq<Result<(Seq<char>, Result<Seq<u8>, Seq<char>>), Seq<char>>>,
    from: int,
) -> Result<int, Seq<char>>
    decreases all.len() - from,
{
    if from >= all.len() {
        Err("В архиве нет bin/ffmpeg.exe"@)
    } else {
        match all[from] {
            Err(error) => Err(error),
            Ok(entry) => if is_program(entry.0) {
                Ok(from)
            } else {
                search(all, from + 1)
            },
        }
    }
}

/// A search that succeeds ends at the first entry that is the program, and every entry before it
/// opens.
pub proof fn search_ends_at_first(
    all: Seq<Result<(Seq<char>, Result<Seq<u8>, Seq<char>>), Seq<char>>>,
    from: int,
    place: int,
)
    requires
        0 <= from,
        search(all, from) == Ok::<int, Seq<char>>(place),
    ensures
        from <= place < all.len(),
        all[place] is Ok && is_program(all[place]->Ok_0.0),
        forall|k: int|
            from <= k < place ==> (#[trigger] all[k]) is Ok && !is_program(all[k]->Ok_0.0),
    decreases all.len() - from,
{
    if !(all[from] is Ok && is_program(all[from]->Ok_0.0)) {
        search_ends_at_first(all, from + 1, place);
    }
}

/// An archive in which the FFmpeg program has been found.
pub struct FfmpegArchive {
    pub archive: ZipArchive<Cursor<Vec<u8>>>,
    /// The place of the program among the entries.
    pub index: usize,
}

impl FfmpegArchive {
    /// Whether there is an entry at that place, and it opens.
    pub open spec fn wf(&self) -> bool {
        &&& self.index < entries(self.archive).len()
        &&& entries(self.archive)[self.index as int] is Ok
    }
}

/// Opens an archive and finds the FFmpeg program in it.
pub fn find_ffmpeg_in_zip(bytes: Vec<u8>) -> (found: Result<FfmpegArchive, String>)
    ensures
        match opened(bytes@) {
            Err(error) => found matches Err(e) && e@ == "Повреждён архив FFmpeg: "@ + error,
            Ok(all) => match search(all, 0) {
                Ok(place) => found matches Ok(f) && f.wf() && entries(f.archive) == all && f.index
                    == place,
                Err(error) => found matches Err(e) && e@ == error,
            },
        },
{
    let mut archive = match open_zip(bytes) {
        Ok(archive) => archive,
        Err(error) => {
            let mut message = "Повреждён архив FFmpeg: ".to_owned();
            message.append(error.as_str());
            return Err(message);
        },
    };
    let ghost all = entries(archive);
    let count: usize = entry_count(&archive);
    let mut index: usize = 0;
    while index < count
        invariant
            index <= count,
            count == all.len(),
            entries(archive) == all,
            opened(bytes@) == Ok::<
                Seq<Result<(Seq<char>, Result<Seq<u8>, Seq<char>>), Seq<char>>>,
                Seq<char>,
            >(all),
            search(all, 0) == search(all, index as int),
        decreases count - index,
    {
        match entry_name(&mut archive, index) {
            Err(error) => {
                return Err(error);
            },
            Ok(name) => {
                if is_ffmpeg_entry(name.as_str()) {
                    return Ok(FfmpegArchive { archive, index });
                }
            },
        }
        index += 1;
    }
    Err("В архиве нет bin/ffmpeg.exe".to_owned())
}

/// Unpacks the FFmpeg program from an archive in which it has been found.
pub fn extract_ffmpeg_from_zip(found: FfmpegArchive) -> (program: Result<Vec<u8>, String>)
    requires
        found.wf(),
    ensures
        match entries(found.archive)[found.index as int]->Ok_0.1 {
            Ok(data) => program matches Ok(p) && p@ == data,
            Err(error) => program matches Err(e) && e@ == "Не извлечь ffmpeg.exe: "@ + error,
        },
{
    let mut archive = found.archive;
    match entry_contents(&mut archive, found.index) {
        Ok(data) => Ok(data),
        Err(error) => {
            let mut message = "Не извлечь ffmpeg.exe: ".to_owned();
            message.append(error.as_str());
            Err(message)
        },
    }
}

} // verus!
