//! Which entry of an archive is the FFmpeg program.

use vstd::prelude::*;
use vstd::string::*;
use crate::archive;
use crate::text;

verus! {

/// Whether a character separates the folders in the name of an entry.
pub open spec fn separates(c: char) -> bool {
    c == '/' || c == '\\'
}

/// Whether a folder `bin` stands in the name of an entry, from the separator at `i` on.
pub open spec fn bin_at(name: Seq<char>, i: int) -> bool {
    &&& 0 <= i && i + 5 <= name.len()
    &&& separates(name[i])
    &&& name[i + 1] == 'b'
    &&& name[i + 2] == 'i'
    &&& name[i + 3] == 'n'
    &&& separates(name[i + 4])
}

proof fn segment_begins(name: Seq<char>) -> (start: int)
    ensures
        0 <= start <= name.len(),
        archive::last_segment(name) == name.skip(start),
        start > 0 ==> name[start - 1] == '/',
        forall|k: int| start <= k < name.len() ==> #[trigger] name[k] != '/',
    decreases name.len(),
{
    if name.len() == 0 || name.last() == '/' {
        assert(name.skip(name.len() as int) =~= Seq::empty());
        name.len() as int
    } else {
        let rest = name.drop_last();
        let start = segment_begins(rest);
        assert(rest.skip(start).push(name.last()) =~= name.skip(start));
        if start > 0 {
            assert(rest[start - 1] == name[start - 1]);
        }
        assert forall|k: int| start <= k < name.len() implies #[trigger] name[k] != '/' by {
            if k < rest.len() {
                assert(rest[k] == name[k]);
            }
        }
        start
    }
}

proof fn bin_is_held(name: Seq<char>)
    ensures
        archive::holds(archive::slashed(name), "/bin/"@) <==> exists|i: int| #[trigger]
            bin_at(name, i),
{
    reveal_strlit("/bin/");
    let flat = archive::slashed(name);
    let part = "/bin/"@;
    assert forall|i: int| #[trigger] archive::stands_at(flat, part, i) == bin_at(name, i) by {
        if 0 <= i && i + 5 <= name.len() {
            let window = flat.subrange(i, i + 5);
            assert(window[0] == flat[i] && window[1] == flat[i + 1] && window[2] == flat[i + 2]
                && window[3] == flat[i + 3] && window[4] == flat[i + 4]);
            assert(part[0] == '/' && part[1] == 'b' && part[2] == 'i' && part[3] == 'n' && part[4]
                == '/');
            if bin_at(name, i) {
                assert(window =~= part);
            }
        }
    }
    if exists|i: int| #[trigger] bin_at(name, i) {
        let i = choose|i: int| #[trigger] bin_at(name, i);
        assert(archive::stands_at(flat, part, i));
    }
}

/// An entry is the FFmpeg program if and only if its name ends in `ffmpeg.exe`, in whatever case,
/// right behind a separator, and a folder `bin` stands in it, spelled in small letters. A slash
/// and a backslash separate alike.
pub proof fn program_is_told_by_its_name(name: Seq<char>)
    ensures
        archive::is_program(name) <==> {
            &&& name.len() > 10
            &&& text::same_ignoring_case(name.skip(name.len() - 10), "ffmpeg.exe"@)
            &&& separates(name[name.len() - 11])
            &&& exists|i: int| #[trigger] bin_at(name, i)
        },
{
    reveal_strlit("ffmpeg.exe");
    let flat = archive::slashed(name);
    let wanted = "ffmpeg.exe"@;
    let start = segment_begins(flat);
    let segment = flat.skip(start);
    bin_is_held(name);
    if archive::is_program(name) {
        let i = choose|i: int| #[trigger] bin_at(name, i);
        assert(flat[i + 4] == '/');
        assert(start > i + 4);
        assert(segment.len() == 10);
        assert(flat[start - 1] == '/');
        let end = name.skip(name.len() - 10);
        assert forall|k: int| 0 <= k < end.len() implies text::lower(#[trigger] end[k])
            == text::lower(wanted[k]) by {
            assert(end[k] == name[start + k]);
            assert(segment[k] == flat[start + k]);
            assert(flat[start + k] != '/');
            assert(text::lower(segment[k]) == text::lower(wanted[k]));
        }
    }
    if name.len() > 10 && text::same_ignoring_case(name.skip(name.len() - 10), wanted)
        && separates(name[name.len() - 11]) && exists|i: int| #[trigger] bin_at(name, i) {
        let at = name.len() - 10;
        let end = name.skip(at);
        assert forall|k: int| at <= k < name.len() implies #[trigger] flat[k] == name[k]
            && flat[k] != '/' by {
            assert(end[k - at] == name[k]);
            assert(text::lower(end[k - at]) == text::lower(wanted[k - at]));
            assert(wanted[k - at] == 'f' || wanted[k - at] == 'm' || wanted[k - at] == 'p'
                || wanted[k - at] == 'e' || wanted[k - at] == 'g' || wanted[k - at] == '.'
                || wanted[k - at] == 'x');
        }
        assert(flat[at - 1] == '/');
        assert(start == at);
        assert(segment =~= end);
    }
}

/// The program lies in a folder `bin` or below one, whatever stands around it.
pub proof fn programs_in_bin_are_found(
    front: Seq<char>,
    between: Seq<char>,
    file: Seq<char>,
)
    requires
        text::same_ignoring_case(file, "ffmpeg.exe"@),
    ensures
        archive::is_program(front + "/bin/"@ + file),
        archive::is_program(front + "\\bin\\"@ + file),
        archive::is_program(front + "/bin/"@ + between + "/"@ + file),
{
    reveal_strlit("/bin/");
    reveal_strlit("\\bin\\");
    reveal_strlit("/");
    reveal_strlit("ffmpeg.exe");
    let a = front + "/bin/"@ + file;
    let b = front + "\\bin\\"@ + file;
    let c = front + "/bin/"@ + between + "/"@ + file;
    let i = front.len() as int;
    program_is_told_by_its_name(a);
    program_is_told_by_its_name(b);
    program_is_told_by_its_name(c);
    assert(file.len() == 10);
    assert(a.skip(a.len() - 10) =~= file);
    assert(b.skip(b.len() - 10) =~= file);
    assert(c.skip(c.len() - 10) =~= file);
    assert(a[a.len() - 11] == '/');
    assert(b[b.len() - 11] == '\\');
    assert(c[c.len() - 11] == '/');
    assert(bin_at(a, i));
    assert(bin_at(b, i));
    assert(bin_at(c, i));
}

/// A search goes through the entries from the first. It ends at the first that is the program or
/// that cannot be opened, with that entry or with the reason; past the last it ends with word that
/// the program is not there.
pub proof fn search_ends_at_what_decides(
    all: Seq<Result<(Seq<char>, Result<Seq<u8>, Seq<char>>), Seq<char>>>,
    from: int,
    at: int,
)
    requires
        0 <= from <= at <= all.len(),
        forall|k: int|
            from <= k < at ==> (#[trigger] all[k]) is Ok && !archive::is_program(all[k]->Ok_0.0),
    ensures
        at == all.len() ==> archive::search(all, from) == Err::<int, Seq<char>>(
            "В архиве нет bin/ffmpeg.exe"@,
        ),
        at < all.len() && all[at] is Err ==> archive::search(all, from) == Err::<int, Seq<char>>(
            all[at]->Err_0,
        ),
        at < all.len() && all[at] is Ok && archive::is_program(all[at]->Ok_0.0)
            ==> archive::search(all, from) == Ok::<int, Seq<char>>(at),
    decreases at - from,
{
    if from < at {
        assert(all[from] is Ok && !archive::is_program(all[from]->Ok_0.0));
        search_ends_at_what_decides(all, from + 1, at);
    }
}

} // verus!
