//! What a whole setup comes to.

use vstd::prelude::*;
use crate::ffmpeg::EMBEDDED_MINIMUM;
use crate::path;
use crate::setup;

verus! {

/// What the caller of a setup would find.
pub struct SetupAnswers {
    pub cache_made: Result<(), Seq<char>>,
    pub cached_works: bool,
    pub written: Result<(), Seq<char>>,
    pub written_marked: Result<(), Seq<char>>,
    pub written_works: bool,
    pub local: Option<Seq<u8>>,
    pub local_works: bool,
    pub copied: Result<(), Seq<char>>,
    pub copy_works: bool,
    pub downloaded: Result<(), Seq<char>>,
    pub download_marked: Result<(), Seq<char>>,
    pub download_works: bool,
}

/// The reply to what a setup waits for, when these are the answers.
pub open spec fn reply_to(state: setup::SetupView, answers: SetupAnswers) -> setup::SetupReplyView {
    match state.stage {
        setup::SetupStage::MakingCache => setup::SetupReplyView::Outcome(answers.cache_made),
        setup::SetupStage::ProbingCache => setup::SetupReplyView::Works(answers.cached_works),
        setup::SetupStage::Writing => setup::SetupReplyView::Outcome(answers.written),
        setup::SetupStage::MarkingWritten => setup::SetupReplyView::Outcome(
            answers.written_marked,
        ),
        setup::SetupStage::ProbingWritten => setup::SetupReplyView::Works(answers.written_works),
        setup::SetupStage::Searching => setup::SetupReplyView::Found(answers.local),
        setup::SetupStage::ProbingLocal => setup::SetupReplyView::Works(answers.local_works),
        setup::SetupStage::Copying => setup::SetupReplyView::Outcome(answers.copied),
        setup::SetupStage::ProbingCopy => setup::SetupReplyView::Works(answers.copy_works),
        setup::SetupStage::Downloading => setup::SetupReplyView::Outcome(answers.downloaded),
        setup::SetupStage::MarkingDownload => setup::SetupReplyView::Outcome(
            answers.download_marked,
        ),
        setup::SetupStage::ProbingDownload => setup::SetupReplyView::Works(answers.download_works),
        _ => setup::SetupReplyView::Nothing,
    }
}

/// How far a stage is from the end.
pub open spec fn stage_rank(stage: setup::SetupStage) -> int {
    match stage {
        setup::SetupStage::Begin => 13,
        setup::SetupStage::MakingCache => 12,
        setup::SetupStage::ProbingCache => 11,
        setup::SetupStage::Writing => 10,
        setup::SetupStage::MarkingWritten => 9,
        setup::SetupStage::ProbingWritten => 8,
        setup::SetupStage::Searching => 7,
        setup::SetupStage::ProbingLocal => 6,
        setup::SetupStage::Copying => 5,
        setup::SetupStage::ProbingCopy => 4,
        setup::SetupStage::Downloading => 3,
        setup::SetupStage::MarkingDownload => 2,
        setup::SetupStage::ProbingDownload => 1,
        setup::SetupStage::Ended => 0,
    }
}

/// All that a setup requests, when these are the answers.
pub open spec fn requests(state: setup::SetupView, answers: SetupAnswers) -> Seq<
    setup::SetupRequestView,
>
    decreases stage_rank(state.stage),
{
    if state.stage is Ended {
        Seq::empty()
    } else {
        let (next, request) = state.step(reply_to(state, answers));
        seq![request] + requests(next, answers)
    }
}

/// What a download comes to.
pub open spec fn download_result(dest: Seq<u8>, answers: SetupAnswers) -> Result<
    Seq<u8>,
    Seq<char>,
> {
    if answers.downloaded is Err {
        Err(answers.downloaded->Err_0)
    } else if answers.download_marked is Err {
        Err(answers.download_marked->Err_0)
    } else if answers.download_works {
        Ok(dest)
    } else {
        Err("FFmpeg скачан, но не запускается."@)
    }
}

/// What the embedded FFmpeg comes to.
pub open spec fn embedded_result(dest: Seq<u8>, answers: SetupAnswers) -> Result<
    Seq<u8>,
    Seq<char>,
> {
    if answers.written is Err {
        Err(answers.written->Err_0)
    } else if answers.written_marked is Err {
        Err(answers.written_marked->Err_0)
    } else if answers.written_works {
        Ok(dest)
    } else {
        Err("Встроенный FFmpeg не запустился. Антивирус мог заблокировать файл."@)
    }
}

/// What an installed FFmpeg comes to: it is taken as it is, or copied with its libraries, or a
/// download has to do.
pub open spec fn local_result(dest: Seq<u8>, local: Seq<u8>, answers: SetupAnswers) -> Result<
    Seq<u8>,
    Seq<char>,
> {
    if answers.local_works {
        Ok(local)
    } else if path::parent_of(local) is None {
        download_result(dest, answers)
    } else if answers.copied is Err {
        Err(answers.copied->Err_0)
    } else if answers.copy_works {
        Ok(dest)
    } else {
        download_result(dest, answers)
    }
}

/// What a setup comes to: the FFmpeg in the cache if it works; else the embedded one, if there
/// is one; else an installed one, if there is one; else a downloaded one.
pub open spec fn setup_result(state: setup::SetupView, answers: SetupAnswers) -> Result<
    Seq<u8>,
    Seq<char>,
> {
    if answers.cache_made is Err {
        Err("Не удалось создать кэш FFmpeg: "@ + answers.cache_made->Err_0)
    } else if answers.cached_works {
        Ok(state.dest)
    } else if state.embedded_len > EMBEDDED_MINIMUM {
        embedded_result(state.dest, answers)
    } else if answers.local is Some {
        local_result(state.dest, answers.local->0, answers)
    } else {
        download_result(state.dest, answers)
    }
}

/// A setup ends, and ends with what [`setup_result`] says. If the FFmpeg in the cache works,
/// nothing is written, searched for, copied or downloaded.
pub proof fn setup_comes_to(state: setup::SetupView, answers: SetupAnswers)
    requires
        state.stage is Begin,
    ensures
        requests(state, answers).len() > 0,
        requests(state, answers).last() == setup::SetupRequestView::Finish(
            setup_result(state, answers),
        ),
        answers.cache_made is Ok && answers.cached_works ==> requests(state, answers) == seq![
            setup::SetupRequestView::CreateDir(state.cache),
            setup::SetupRequestView::Probe(state.dest),
            setup::SetupRequestView::Finish(Ok(state.dest)),
        ],
{
    reveal_with_fuel(requests, 13);
    if answers.cache_made is Ok && answers.cached_works {
        assert(requests(state, answers) =~= seq![
            setup::SetupRequestView::CreateDir(state.cache),
            setup::SetupRequestView::Probe(state.dest),
            setup::SetupRequestView::Finish(Ok(state.dest)),
        ]);
    }
}

/// The path whose FFmpeg is being tried, if one is.
pub open spec fn being_tried(state: setup::SetupView) -> Option<Seq<u8>> {
    match state.stage {
        setup::SetupStage::ProbingLocal => state.local,
        setup::SetupStage::ProbingCache
        | setup::SetupStage::ProbingWritten
        | setup::SetupStage::ProbingCopy
        | setup::SetupStage::ProbingDownload => Some(state.dest),
        _ => None,
    }
}

/// A setup hands out an FFmpeg only if the step before tried just that one, and it works.
pub proof fn result_was_tried(
    state: setup::SetupView,
    reply: setup::SetupReplyView,
    found: Seq<u8>,
)
    requires
        state.wf(),
        state.accepts(reply),
        state.step(reply).1 == setup::SetupRequestView::Finish(Ok(found)),
    ensures
        being_tried(state) == Some(found),
        reply == setup::SetupReplyView::Works(true),
{
}

/// Whenever a setup comes to wait for a try, it has requested the try of just that path.
pub proof fn tries_are_requested(state: setup::SetupView, reply: setup::SetupReplyView)
    requires
        state.wf(),
        state.accepts(reply),
        being_tried(state.step(reply).0) is Some,
    ensures
        state.step(reply).1 == setup::SetupRequestView::Probe(
            being_tried(state.step(reply).0)->0,
        ),
{
}

/// What a setup ends with, case by case. Without a cache there is nothing. An FFmpeg in the cache
/// that works is taken. Otherwise an embedded one of more than a million bytes is written, and it
/// is that or nothing. Otherwise an installed one that works is taken where it lies; one that does
/// not is copied into the cache, and taken if it works there. What is left is the download.
pub proof fn setup_ends_case_by_case(state: setup::SetupView, answers: SetupAnswers)
    requires
        state.stage is Begin,
    ensures
        ({
            let end = requests(state, answers).last();
            let good = |found: Seq<u8>| end == setup::SetupRequestView::Finish(Ok(found));
            let bad = |error: Seq<char>| end == setup::SetupRequestView::Finish(Err(error));
            let searched = answers.cache_made is Ok && !answers.cached_works && state.embedded_len
                <= 1_000_000;
            let written = answers.cache_made is Ok && !answers.cached_works && state.embedded_len
                > 1_000_000;
            let copied = searched && answers.local is Some && !answers.local_works
                && path::parent_of(answers.local->0) is Some;
            let downloaded = searched && (answers.local is None || (!answers.local_works && (
            path::parent_of(answers.local->0) is None || (answers.copied is Ok
                && !answers.copy_works))));
            &&& answers.cache_made matches Err(error) ==> bad(
                "Не удалось создать кэш FFmpeg: "@ + error,
            )
            &&& answers.cache_made is Ok && answers.cached_works ==> good(state.dest)
            &&& written && answers.written is Err ==> bad(answers.written->Err_0)
            &&& written && answers.written is Ok && answers.written_marked is Err ==> bad(
                answers.written_marked->Err_0,
            )
            &&& written && answers.written is Ok && answers.written_marked is Ok
                && answers.written_works ==> good(state.dest)
            &&& written && answers.written is Ok && answers.written_marked is Ok
                && !answers.written_works ==> bad(
                "Встроенный FFmpeg не запустился. Антивирус мог заблокировать файл."@,
            )
            &&& searched && answers.local is Some && answers.local_works ==> good(
                answers.local->0,
            )
            &&& copied && answers.copied is Err ==> bad(answers.copied->Err_0)
            &&& copied && answers.copied is Ok && answers.copy_works ==> good(state.dest)
            &&& downloaded && answers.downloaded is Err ==> bad(answers.downloaded->Err_0)
            &&& downloaded && answers.downloaded is Ok && answers.download_marked is Err ==> bad(
                answers.download_marked->Err_0,
            )
            &&& downloaded && answers.downloaded is Ok && answers.download_marked is Ok
                && answers.download_works ==> good(state.dest)
            &&& downloaded && answers.downloaded is Ok && answers.download_marked is Ok
                && !answers.download_works ==> bad("FFmpeg скачан, но не запускается."@)
        }),
{
    setup_comes_to(state, answers);
}

/// What a setup asks for: it makes its cache, writes, marks and downloads where FFmpeg lies in it,
/// tries that place or the installed FFmpeg, and copies from that one's folder into the cache. It
/// writes only an embedded FFmpeg of more than a million bytes, and looks for an installed one
/// only where there is none such.
pub proof fn setup_asks_for_what_it_needs(state: setup::SetupView, reply: setup::SetupReplyView)
    requires
        state.wf(),
        state.accepts(reply),
    ensures
        ({
            let next = state.step(reply).0;
            let asked = state.step(reply).1;
            &&& next.cache == state.cache && next.dest == state.dest && next.embedded_len
                == state.embedded_len
            &&& state.stage is Begin ==> asked is CreateDir
            &&& asked matches setup::SetupRequestView::CreateDir(dir) ==> dir == state.cache
            &&& asked matches setup::SetupRequestView::WriteEmbedded(file) ==> file == state.dest
                && state.embedded_len > 1_000_000
            &&& asked is FindLocal ==> state.embedded_len <= 1_000_000
            &&& asked matches setup::SetupRequestView::MakeExecutable(file) ==> file == state.dest
            &&& asked matches setup::SetupRequestView::Download(file) ==> file == state.dest
            &&& asked matches setup::SetupRequestView::Probe(file) ==> file == state.dest
                || reply == setup::SetupReplyView::Found(Some(file))
            &&& asked matches setup::SetupRequestView::CopyFiles { from, to } ==> to == state.cache
                && state.local is Some && path::parent_of(state.local->0) == Some(from)
        }),
{
}

/// An embedded FFmpeg is taken for one if it has more than a million bytes.
pub proof fn embedded_has_a_million_bytes()
    ensures
        EMBEDDED_MINIMUM == 1_000_000,
{
}

} // verus!
