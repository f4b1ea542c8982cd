//! What a whole scan of folders comes to.
//!
//! A scan lists the folder that [`crate::app::next_folder`] hands out, takes the listing in by
//! [`crate::app::App::add_directory`], and goes on until none is left.

use vstd::prelude::*;
use crate::app;
use crate::app_laws;
use crate::path;
use crate::queue;
use crate::status::Tone;

verus! {

/// The state and the folders still to be listed after at most `n` listings, when `listings` says
/// what each folder holds, or why it cannot be read.
pub open spec fn scanned(
    state: app::AppView,
    waiting: Seq<Seq<u8>>,
    listings: spec_fn(Seq<u8>) -> Result<Seq<app::ItemView>, Seq<char>>,
    n: nat,
) -> (app::AppView, Seq<Seq<u8>>)
    decreases n,
{
    if n == 0 || waiting.len() == 0 {
        (state, waiting)
    } else {
        let folder = waiting.last();
        scanned(
            state.listed(folder, listings(folder)),
            state.still_to_list(waiting.drop_last(), listings(folder)),
            listings,
            (n - 1) as nat,
        )
    }
}

/// The folders that are listed meanwhile, in their order.
pub open spec fn visited(
    state: app::AppView,
    waiting: Seq<Seq<u8>>,
    listings: spec_fn(Seq<u8>) -> Result<Seq<app::ItemView>, Seq<char>>,
    n: nat,
) -> Seq<Seq<u8>>
    decreases n,
{
    if n == 0 || waiting.len() == 0 {
        Seq::empty()
    } else {
        let folder = waiting.last();
        seq![folder] + visited(
            state.listed(folder, listings(folder)),
            state.still_to_list(waiting.drop_last(), listings(folder)),
            listings,
            (n - 1) as nat,
        )
    }
}

/// One line for each folder that cannot be read.
pub open spec fn error_lines(
    folders: Seq<Seq<u8>>,
    listings: spec_fn(Seq<u8>) -> Result<Seq<app::ItemView>, Seq<char>>,
) -> Seq<(Tone, Seq<char>)>
    decreases folders.len(),
{
    if folders.len() == 0 {
        Seq::empty()
    } else {
        let rest = error_lines(folders.drop_first(), listings);
        match listings(folders[0]) {
            Ok(_) => rest,
            Err(error) => seq![
                (
                    Tone::Bad,
                    "Не удалось прочитать "@ + path::displayed(folders[0]) + ": "@ + error,
                ),
            ] + rest,
        }
    }
}

/// The newest lines of a log, as many as it keeps.
pub open spec fn newest(lines: Seq<(Tone, Seq<char>)>) -> Seq<(Tone, Seq<char>)> {
    if lines.len() > app::LOG_LIMIT {
        lines.skip(lines.len() - app::LOG_LIMIT)
    } else {
        lines
    }
}

/// Whether every audio file of a listing is queued.
pub open spec fn takes_in(
    files: Seq<queue::FileView>,
    listing: Result<Seq<app::ItemView>, Seq<char>>,
) -> bool {
    listing matches Ok(items) ==> forall|i: int|
        0 <= i < items.len() && (#[trigger] items[i]).kind == app::PathKind::File
            && queue::is_audio_path(items[i].path) ==> queue::is_queued(files, items[i].path)
}

/// Whether a queued file is one of the audio files of a listing.
pub open spec fn comes_from(
    listing: Result<Seq<app::ItemView>, Seq<char>>,
    file: queue::FileView,
) -> bool {
    listing matches Ok(items) && app_laws::is_listed(items, file)
}

/// Whether a listing names a folder.
pub open spec fn names_folder(
    listing: Result<Seq<app::ItemView>, Seq<char>>,
    folder: Seq<u8>,
) -> bool {
    listing matches Ok(items) && exists|i: int|
        0 <= i < items.len() && (#[trigger] items[i]).kind == app::PathKind::Directory
            && items[i].path == folder
}

proof fn items_keep_different(files: Seq<queue::FileView>, items: Seq<app::ItemView>)
    requires
        queue::all_different(files),
    ensures
        queue::all_different(app::with_items(files, items)),
    decreases items.len(),
{
    if items.len() > 0 {
        items_keep_different(files, items.drop_last());
        queue::path_keeps_different(app::with_items(files, items.drop_last()), items.last().path);
    }
}

proof fn queued_stays(files: Seq<queue::FileView>, more: Seq<queue::FileView>, path: Seq<u8>)
    requires
        files.len() <= more.len(),
        more.take(files.len() as int) == files,
        queue::is_queued(files, path),
    ensures
        queue::is_queued(more, path),
{
    let i = choose|i: int| 0 <= i < files.len() && path::same((#[trigger] files[i]).path, path);
    assert(more.take(files.len() as int)[i] == more[i]);
}

proof fn newest_of_newest(a: Seq<(Tone, Seq<char>)>, b: Seq<(Tone, Seq<char>)>)
    ensures
        newest(newest(a) + b) == newest(a + b),
{
    assert(newest(newest(a) + b) =~= newest(a + b));
}

/// What a scan does, however far it has come: every audio file of every readable folder that was
/// listed is queued; what was queued before stays where it was, and no path is queued twice;
/// nothing else is new in the queue; each folder that could not be read is logged by one line,
/// in the order in which they came up; and the rest of the state is as it was.
pub proof fn scan_takes_everything(
    state: app::AppView,
    waiting: Seq<Seq<u8>>,
    listings: spec_fn(Seq<u8>) -> Result<Seq<app::ItemView>, Seq<char>>,
    n: nat,
)
    requires
        state.wf(),
    ensures
        ({
            let end = scanned(state, waiting, listings, n).0;
            let folders = visited(state, waiting, listings, n);
            &&& end.wf()
            &&& end == (app::AppView { files: end.files, logs: end.logs, ..state })
            &&& state.files.len() <= end.files.len()
            &&& end.files.take(state.files.len() as int) == state.files
            &&& forall|v: int|
                0 <= v < folders.len() ==> takes_in(end.files, listings(#[trigger] folders[v]))
            &&& forall|k: int|
                state.files.len() <= k < end.files.len() ==> exists|v: int|
                    0 <= v < folders.len() && comes_from(
                        listings(#[trigger] folders[v]),
                        #[trigger] end.files[k],
                    )
            &&& end.logs == newest(state.logs + error_lines(folders, listings))
        }),
    decreases n,
{
    let end = scanned(state, waiting, listings, n).0;
    let folders = visited(state, waiting, listings, n);
    if n == 0 || waiting.len() == 0 {
        assert(end.files.take(state.files.len() as int) =~= state.files);
        assert(state.logs + error_lines(folders, listings) =~= state.logs);
    } else {
        let folder = waiting.last();
        let listing = listings(folder);
        let next = state.listed(folder, listing);
        let rest = state.still_to_list(waiting.drop_last(), listing);
        let later = visited(next, rest, listings, (n - 1) as nat);
        match listing {
            Ok(items) => {
                app_laws::listing_is_queued(state.files, items);
                items_keep_different(state.files, items);
            },
            Err(_) => {
                assert(next.files.take(state.files.len() as int) =~= state.files);
            },
        }
        scan_takes_everything(next, rest, listings, (n - 1) as nat);
        assert(folders == seq![folder] + later);
        assert(folders.drop_first() =~= later);
        assert(folders[0] == folder);
        assert(end.files.take(state.files.len() as int) =~= next.files.take(
            state.files.len() as int,
        )) by {
            assert forall|i: int| 0 <= i < state.files.len() implies end.files[i]
                == next.files[i] by {
                assert(end.files.take(next.files.len() as int)[i] == end.files[i]);
            }
        }
        assert forall|v: int| 0 <= v < folders.len() implies takes_in(
            end.files,
            listings(#[trigger] folders[v]),
        ) by {
            if v == 0 {
                if let Ok(items) = listing {
                    assert forall|i: int|
                        0 <= i < items.len() && (#[trigger] items[i]).kind == app::PathKind::File
                            && queue::is_audio_path(items[i].path) implies queue::is_queued(
                        end.files,
                        items[i].path,
                    ) by {
                        queued_stays(next.files, end.files, items[i].path);
                    }
                }
            } else {
                assert(folders[v] == later[v - 1]);
            }
        }
        assert forall|k: int| state.files.len() <= k < end.files.len() implies exists|v: int|
            0 <= v < folders.len() && comes_from(
                listings(#[trigger] folders[v]),
                #[trigger] end.files[k],
            ) by {
            if k < next.files.len() {
                assert(end.files.take(next.files.len() as int)[k] == end.files[k]);
                assert(comes_from(listings(folders[0]), end.files[k]));
            } else {
                let u = choose|u: int|
                    0 <= u < later.len() && comes_from(
                        listings(#[trigger] later[u]),
                        end.files[k],
                    );
                assert(folders[u + 1] == later[u]);
                assert(comes_from(listings(folders[u + 1]), end.files[k]));
            }
        }
        let lines = error_lines(later, listings);
        match listing {
            Ok(_) => {},
            Err(error) => {
                let line = (
                    Tone::Bad,
                    "Не удалось прочитать "@ + path::displayed(folder) + ": "@ + error,
                );
                assert(next.logs =~= newest(state.logs.push(line)));
                newest_of_newest(state.logs.push(line), lines);
                assert(state.logs.push(line) + lines =~= state.logs + (seq![line] + lines));
            },
        }
    }
}

proof fn directories_are_named(items: Seq<app::ItemView>, folder: Seq<u8>)
    ensures
        app::directories(items).contains(folder) == names_folder(
            Ok::<Seq<app::ItemView>, Seq<char>>(items),
            folder,
        ),
    decreases items.len(),
{
    if items.len() > 0 {
        let shorter = items.drop_last();
        let before = app::directories(shorter);
        let all = app::directories(items);
        directories_are_named(shorter, folder);
        if all.contains(folder) {
            let k = choose|k: int| 0 <= k < all.len() && all[k] == folder;
            if k < before.len() {
                assert(before[k] == folder);
                let i = choose|i: int|
                    0 <= i < shorter.len() && (#[trigger] shorter[i]).kind
                        == app::PathKind::Directory && shorter[i].path == folder;
                assert(items[i] == shorter[i]);
            } else {
                assert(items[items.len() - 1].path == folder);
            }
        }
        if names_folder(Ok::<Seq<app::ItemView>, Seq<char>>(items), folder) {
            let i = choose|i: int|
                0 <= i < items.len() && (#[trigger] items[i]).kind == app::PathKind::Directory
                    && items[i].path == folder;
            if i < shorter.len() {
                assert(shorter[i] == items[i]);
                let k = choose|k: int| 0 <= k < before.len() && before[k] == folder;
                assert(all[k] == folder);
            } else {
                assert(all[before.len() as int] == folder);
            }
        }
    }
}

/// Which folders a scan lists. Each of them was offered or, where nested folders count, is named
/// by a folder that was listed before it. Once no folder is left, all that were offered have been
/// listed, and where nested folders count, all that are named by a folder that was listed.
pub proof fn scan_reaches(
    state: app::AppView,
    waiting: Seq<Seq<u8>>,
    listings: spec_fn(Seq<u8>) -> Result<Seq<app::ItemView>, Seq<char>>,
    n: nat,
)
    ensures
        ({
            let folders = visited(state, waiting, listings, n);
            let nested = state.settings.recursive;
            &&& forall|v: int|
                0 <= v < folders.len() ==> waiting.contains(#[trigger] folders[v]) || (nested
                    && exists|u: int|
                    0 <= u < v && names_folder(listings(#[trigger] folders[u]), folders[v]))
            &&& scanned(state, waiting, listings, n).1.len() == 0 ==> {
                &&& forall|folder: Seq<u8>| #[trigger]
                    waiting.contains(folder) ==> folders.contains(folder)
                &&& forall|v: int, folder: Seq<u8>|
                    nested && 0 <= v < folders.len() && #[trigger] names_folder(
                        listings(folders[v]),
                        folder,
                    ) ==> folders.contains(folder)
            }
        }),
    decreases n,
{
    let folders = visited(state, waiting, listings, n);
    let nested = state.settings.recursive;
    if n > 0 && waiting.len() > 0 {
        let folder = waiting.last();
        let listing = listings(folder);
        let next = state.listed(folder, listing);
        let before = waiting.drop_last();
        let rest = state.still_to_list(before, listing);
        let later = visited(next, rest, listings, (n - 1) as nat);
        scan_reaches(next, rest, listings, (n - 1) as nat);
        assert(folders == seq![folder] + later);
        assert(folders[0] == folder);
        assert forall|f: Seq<u8>| #[trigger] rest.contains(f) implies before.contains(f) || (nested
            && names_folder(listing, f)) by {
            let k = choose|k: int| 0 <= k < rest.len() && rest[k] == f;
            if k < before.len() {
                assert(before[k] == f);
            } else if let Ok(items) = listing {
                assert(app::directories(items)[k - before.len()] == f);
                directories_are_named(items, f);
            }
        }
        assert forall|f: Seq<u8>| (nested && #[trigger] names_folder(listing, f)) implies
            rest.contains(f) by {
            if let Ok(items) = listing {
                directories_are_named(items, f);
                let k = choose|k: int|
                    0 <= k < app::directories(items).len() && app::directories(items)[k] == f;
                assert(rest[before.len() + k] == f);
            }
        }
        assert forall|v: int| 0 <= v < folders.len() implies waiting.contains(
            #[trigger] folders[v],
        ) || (nested && exists|u: int|
            0 <= u < v && names_folder(listings(#[trigger] folders[u]), folders[v])) by {
            if v == 0 {
                assert(waiting[waiting.len() - 1] == folder);
            } else {
                let f = later[v - 1];
                assert(folders[v] == f);
                if rest.contains(f) {
                    if before.contains(f) {
                        let k = choose|k: int| 0 <= k < before.len() && before[k] == f;
                        assert(waiting[k] == f);
                    } else {
                        assert(names_folder(listings(folders[0]), folders[v]));
                    }
                } else {
                    let u = choose|u: int|
                        0 <= u < v - 1 && names_folder(listings(#[trigger] later[u]), f);
                    assert(folders[u + 1] == later[u]);
                    assert(names_folder(listings(folders[u + 1]), folders[v]));
                }
            }
        }
        if scanned(state, waiting, listings, n).1.len() == 0 {
            assert forall|f: Seq<u8>| later.contains(f) implies folders.contains(f) by {
                let k = choose|k: int| 0 <= k < later.len() && later[k] == f;
                assert(folders[k + 1] == f);
            }
            assert forall|f: Seq<u8>| #[trigger] waiting.contains(f) implies folders.contains(
                f,
            ) by {
                let k = choose|k: int| 0 <= k < waiting.len() && waiting[k] == f;
                if k < before.len() {
                    assert(rest[k] == before[k]);
                    assert(rest.contains(f));
                } else {
                    assert(folders[0] == f);
                }
            }
            assert forall|v: int, f: Seq<u8>|
                nested && 0 <= v < folders.len() && #[trigger] names_folder(
                    listings(folders[v]),
                    f,
                ) implies folders.contains(f) by {
                if v == 0 {
                    assert(rest.contains(f));
                } else {
                    assert(folders[v] == later[v - 1]);
                    assert(names_folder(listings(later[v - 1]), f));
                }
            }
        }
    } else if scanned(state, waiting, listings, n).1.len() == 0 {
        assert forall|f: Seq<u8>| #[trigger] waiting.contains(f) implies folders.contains(f) by {
            assert(waiting.len() == 0);
        }
    }
}

} // verus!
