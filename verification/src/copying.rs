//! Copying the files of an FFmpeg directory, one after another.
//!
//! [`CopyJob`] decides what is to be done next. Its caller reads sizes and copies files, and
//! hands back how it went.

use std::path::PathBuf;
use vstd::prelude::*;
use vstd::string::*;
use vstd::utf8::*;
use crate::app;
use crate::app::{DirItem, PathKind};
use crate::command;
use crate::ffmpeg;
use crate::ffmpeg::{copy_error, copy_needed, copy_target};
use crate::path;
use crate::path::copy_path;
use crate::text;

verus! {

/// What the copying waits for.
#[derive(Debug, Clone, Copy, PartialEq, Eq, Structural)]
pub enum CopyStage {
    /// Nothing has been done yet.
    Begin,
    /// The sizes of a file and of what stands in its place are being read.
    AskedSizes,
    /// A file is being copied.
    AskedCopy,
    /// The copying has ended.
    Ended,
}

/// What the caller is to do.
#[derive(Debug)]
pub enum CopyRequest {
    /// Read the sizes of two files.
    ReadSizes { from: PathBuf, to: PathBuf },
    /// Copy a file.
    Copy { from: PathBuf, to: PathBuf },
    /// Nothing more is to be done: all went well, or this is why not.
    Finish(Result<(), String>),
}

/// A request as contracts see it.
pub enum CopyRequestView {
    ReadSizes { from: Seq<u8>, to: Seq<u8> },
    Copy { from: Seq<u8>, to: Seq<u8> },
    Finish(Result<(), Seq<char>>),
}

impl View for CopyRequest {
    type V = CopyRequestView;

    open spec fn view(&self) -> CopyRequestView {
        match self {
            CopyRequest::ReadSizes { from, to } => CopyRequestView::ReadSizes {
                from: path::path_bytes(*from),
                to: path::path_bytes(*to),
            },
            CopyRequest::Copy { from, to } => CopyRequestView::Copy {
                from: path::path_bytes(*from),
                to: path::path_bytes(*to),
            },
            CopyRequest::Finish(result) => CopyRequestView::Finish(command::unit_view(*result)),
        }
    }
}

/// How what was requested went.
#[derive(Debug)]
pub enum CopyReply {
    /// Nothing is told.
    Nothing,
    /// The sizes, as far as they could be read.
    Sizes { from: Option<u64>, to: Option<u64> },
    /// It succeeded, or failed for a reason.
    Outcome(Result<(), String>),
}

/// A reply as contracts see it.
pub enum CopyReplyView {
    Nothing,
    Sizes { from: Option<u64>, to: Option<u64> },
    Outcome(Result<(), Seq<char>>),
}

impl View for CopyReply {
    type V = CopyReplyView;

    open spec fn view(&self) -> CopyReplyView {
        match self {
            CopyReply::Nothing => CopyReplyView::Nothing,
            CopyReply::Sizes { from, to } => CopyReplyView::Sizes { from: *from, to: *to },
            CopyReply::Outcome(outcome) => CopyReplyView::Outcome(command::unit_view(*outcome)),
        }
    }
}

/// A copying under way.
#[derive(Debug)]
pub struct CopyJob {
    /// The directory that is copied into.
    pub to: PathBuf,
    /// The entries of the directory that is copied.
    pub items: Vec<DirItem>,
    /// The entry that is worked on, or the next one.
    pub index: usize,
    pub stage: CopyStage,
}

/// A copying as contracts see it.
#[verifier::ext_equal]
pub struct CopyView {
    pub to: Seq<u8>,
    pub items: Seq<app::ItemView>,
    pub index: nat,
    pub stage: CopyStage,
}

impl View for CopyJob {
    type V = CopyView;

    open spec fn view(&self) -> CopyView {
        CopyView {
            to: path::path_bytes(self.to),
            items: app::item_views(self.items@),
            index: self.index as nat,
            stage: self.stage,
        }
    }
}

impl CopyView {
    /// Where an entry is copied to, if it is one to be copied.
    pub open spec fn place(self, i: int) -> Option<Seq<u8>> {
        ffmpeg::copy_place(self.to, self.items[i].path, self.items[i].kind == PathKind::File)
    }

    /// Whether the entry that is worked on exists, and is one to be copied.
    pub open spec fn wf(self) -> bool {
        &&& self.index <= self.items.len()
        &&& self.stage is AskedSizes || self.stage is AskedCopy ==> self.index < self.items.len()
            && self.place(self.index as int) is Some
    }

    /// Whether a reply is of the kind that the copying waits for.
    pub open spec fn accepts(self, reply: CopyReplyView) -> bool {
        match self.stage {
            CopyStage::Begin => true,
            CopyStage::AskedSizes => reply is Sizes,
            CopyStage::AskedCopy => reply is Outcome,
            CopyStage::Ended => false,
        }
    }

    /// The end.
    pub open spec fn end(self, result: Result<(), Seq<char>>) -> (CopyView, CopyRequestView) {
        (CopyView { stage: CopyStage::Ended, ..self }, CopyRequestView::Finish(result))
    }

    /// From entry `i` on: the next one to be copied, or the end.
    pub open spec fn next_from(self, i: int) -> (CopyView, CopyRequestView)
        decreases self.items.len() - i,
    {
        if i >= self.items.len() {
            (CopyView { index: self.items.len(), ..self }).end(Ok(()))
        } else {
            match self.place(i) {
                Some(to) => (
                    CopyView { index: i as nat, stage: CopyStage::AskedSizes, ..self },
                    CopyRequestView::ReadSizes { from: self.items[i].path, to },
                ),
                None => self.next_from(i + 1),
            }
        }
    }

    /// What happens on a reply.
    pub open spec fn step(self, reply: CopyReplyView) -> (CopyView, CopyRequestView) {
        let i = self.index as int;
        let from = self.items[i].path;
        let to = self.place(i)->0;
        match self.stage {
            CopyStage::Begin => self.next_from(i),
            CopyStage::AskedSizes => if ffmpeg::copy_is_needed(
                reply->Sizes_from,
                reply->Sizes_to,
            ) {
                (
                    CopyView { stage: CopyStage::AskedCopy, ..self },
                    CopyRequestView::Copy { from, to },
                )
            } else {
                self.next_from(i + 1)
            },
            CopyStage::AskedCopy => match reply->Outcome_0 {
                Err(error) => self.end(Err(ffmpeg::copy_error_text(from, to, error))),
                Ok(_) => self.next_from(i + 1),
            },
            CopyStage::Ended => self.end(Ok(())),
        }
    }
}

/// A copying of the entries `items` into `to` that has not begun.
pub fn copy_dir_files(items: Vec<DirItem>, to: PathBuf) -> (job: CopyJob)
    ensures
        job.wf(),
        job@ == (CopyView {
            to: path::path_bytes(to),
            items: app::item_views(items@),
            index: 0,
            stage: CopyStage::Begin,
        }),
{
    CopyJob { to, items, index: 0, stage: CopyStage::Begin }
}

impl CopyJob {
    /// Whether the entry that is worked on exists, and is one to be copied.
    pub open spec fn wf(&self) -> bool {
        self@.wf()
    }

    fn target(&self, i: usize) -> (to: Option<PathBuf>)
        requires
            i < self.items.len(),
        ensures
            path::option_bytes(to) == self@.place(i as int),
    {
        let is_file = match self.items[i].kind {
            PathKind::File => true,
            _ => false,
        };
        copy_target(&self.to, &self.items[i].path, is_file)
    }

    fn next_from(&mut self, start: usize) -> (request: CopyRequest)
        requires
            start <= old(self).items.len(),
        ensures
            final(self).wf(),
            (final(self)@, request@) == old(self)@.next_from(start as int),
    {
        let mut i: usize = start;
        while i < self.items.len()
            invariant
                i <= self.items.len(),
                *self == *old(self),
                old(self)@.next_from(start as int) == self@.next_from(i as int),
            decreases self.items.len() - i,
        {
            if let Some(to) = self.target(i) {
                self.index = i;
                self.stage = CopyStage::AskedSizes;
                return CopyRequest::ReadSizes { from: copy_path(&self.items[i].path), to };
            }
            i += 1;
        }
        self.index = self.items.len();
        self.stage = CopyStage::Ended;
        CopyRequest::Finish(Ok(()))
    }

    /// Takes in how the last request went, and decides what is to be done next.
    pub fn step(&mut self, reply: CopyReply) -> (request: CopyRequest)
        requires
            old(self).wf(),
            old(self)@.accepts(reply@),
        ensures
            final(self).wf(),
            (final(self)@, request@) == old(self)@.step(reply@),
    {
        let i: usize = self.index;
        match self.stage {
            CopyStage::Begin => self.next_from(i),
            CopyStage::AskedSizes => {
                let needed = match reply {
                    CopyReply::Sizes { from, to } => copy_needed(from, to),
                    _ => false,
                };
                match self.target(i) {
                    Some(to) => {
                        if needed {
                            self.stage = CopyStage::AskedCopy;
                            CopyRequest::Copy { from: copy_path(&self.items[i].path), to }
                        } else {
                            self.next_from(i + 1)
                        }
                    },
                    None => self.next_from(i + 1),
                }
            },
            CopyStage::AskedCopy => match reply {
                CopyReply::Outcome(Err(error)) => {
                    let message = match self.target(i) {
                        Some(to) => copy_error(&self.items[i].path, &to, error.as_str()),
                        None => error,
                    };
                    self.stage = CopyStage::Ended;
                    CopyRequest::Finish(Err(message))
                },
                _ => {
                    assert(i < self.items.len());
                    self.next_from(i + 1)
                },
            },
            CopyStage::Ended => CopyRequest::Finish(Ok(())),
        }
    }
}

/// What the caller of a copying would find for one entry.
pub struct CopyAnswers {
    pub from_size: Option<u64>,
    pub to_size: Option<u64>,
    pub copied: Result<(), Seq<char>>,
}

/// The reply to what a copying waits for, when these are the answers.
pub open spec fn reply_to(job: CopyView, answers: Seq<CopyAnswers>) -> CopyReplyView {
    let answer = answers[job.index as int];
    match job.stage {
        CopyStage::AskedSizes => CopyReplyView::Sizes {
            from: answer.from_size,
            to: answer.to_size,
        },
        CopyStage::AskedCopy => CopyReplyView::Outcome(answer.copied),
        _ => CopyReplyView::Nothing,
    }
}

/// How far a stage is from the end of an entry.
pub open spec fn stage_rank(stage: CopyStage) -> int {
    match stage {
        CopyStage::Begin => 3,
        CopyStage::AskedSizes => 2,
        CopyStage::AskedCopy => 1,
        CopyStage::Ended => 0,
    }
}

/// From entry `i` on, what is waited for next is an entry from `i` on, or nothing.
pub proof fn next_is_later(job: CopyView, i: int)
    requires
        0 <= i,
    ensures
        ({
            let next = job.next_from(i).0;
            &&& next.to == job.to && next.items == job.items
            &&& next.wf()
            &&& next.stage is AskedSizes ==> i <= next.index < job.items.len()
            &&& next.stage is AskedSizes || next.stage is Ended
        }),
    decreases job.items.len() - i,
{
    if i < job.items.len() && job.place(i) is None {
        next_is_later(job, i + 1);
    }
}

/// All that a copying requests, when these are the answers.
pub open spec fn requests(job: CopyView, answers: Seq<CopyAnswers>) -> Seq<CopyRequestView>
    decreases
            if job.stage is Ended {
                0
            } else {
                job.items.len() - job.index + 1
            },
            stage_rank(job.stage),
{
    if !job.wf() || job.stage is Ended {
        Seq::empty()
    } else {
        proof {
            next_is_later(job, job.index as int);
            next_is_later(job, (job.index + 1) as int);
        }
        let (next, request) = job.step(reply_to(job, answers));
        seq![request] + requests(next, answers)
    }
}

/// Whether an entry is copied: it is one to be copied, and the sizes ask for it.
pub open spec fn is_copied(job: CopyView, i: int, answer: CopyAnswers) -> bool {
    job.place(i) is Some && ffmpeg::copy_is_needed(answer.from_size, answer.to_size)
}

/// All that is requested for one entry.
pub open spec fn item_requests(job: CopyView, i: int, answer: CopyAnswers) -> Seq<
    CopyRequestView,
> {
    let from = job.items[i].path;
    match job.place(i) {
        None => Seq::empty(),
        Some(to) => if is_copied(job, i, answer) {
            seq![CopyRequestView::ReadSizes { from, to }, CopyRequestView::Copy { from, to }]
        } else {
            seq![CopyRequestView::ReadSizes { from, to }]
        },
    }
}

/// All that is requested from entry `from` on: the first copy that fails ends it.
pub open spec fn rest_requests(job: CopyView, answers: Seq<CopyAnswers>, from: int) -> Seq<
    CopyRequestView,
>
    decreases job.items.len() - from,
{
    if from >= job.items.len() {
        seq![CopyRequestView::Finish(Ok(()))]
    } else if is_copied(job, from, answers[from]) && answers[from].copied is Err {
        item_requests(job, from, answers[from]) + seq![
            CopyRequestView::Finish(
                Err(
                    ffmpeg::copy_error_text(
                        job.items[from].path,
                        job.place(from)->0,
                        answers[from].copied->Err_0,
                    ),
                ),
            ),
        ]
    } else {
        item_requests(job, from, answers[from]) + rest_requests(job, answers, from + 1)
    }
}

proof fn rest_ignores_place(a: CopyView, b: CopyView, answers: Seq<CopyAnswers>, from: int)
    requires
        a.to == b.to,
        a.items == b.items,
    ensures
        rest_requests(a, answers, from) == rest_requests(b, answers, from),
    decreases a.items.len() - from,
{
    if from < a.items.len() {
        rest_ignores_place(a, b, answers, from + 1);
    }
}

/// What follows once the entries before `i` have been dealt with.
proof fn requests_of_rest(job: CopyView, answers: Seq<CopyAnswers>, i: int)
    requires
        0 <= i <= job.items.len(),
    ensures
        ({
            let (next, request) = job.next_from(i);
            seq![request] + requests(next, answers) == rest_requests(job, answers, i)
        }),
    decreases job.items.len() - i,
{
    let (next, request) = job.next_from(i);
    if i == job.items.len() {
        assert(requests(next, answers) =~= Seq::empty());
        assert(seq![request] + requests(next, answers) =~= rest_requests(job, answers, i));
    } else if job.place(i) is None {
        requests_of_rest(job, answers, i + 1);
        assert(rest_requests(job, answers, i) =~= rest_requests(job, answers, i + 1));
    } else {
        let answer = answers[i];
        requests_of_rest(next, answers, i + 1);
        rest_ignores_place(job, next, answers, i + 1);
        let copying = CopyView { stage: CopyStage::AskedCopy, ..next };
        if is_copied(job, i, answer) {
            let copy = CopyRequestView::Copy { from: job.items[i].path, to: job.place(i)->0 };
            assert(requests(next, answers) == seq![copy] + requests(copying, answers));
            if answer.copied is Err {
                let (ended, last) = copying.step(reply_to(copying, answers));
                assert(requests(ended, answers) =~= Seq::empty());
                assert(requests(copying, answers) == seq![last] + requests(ended, answers));
            } else {
                requests_of_rest(copying, answers, i + 1);
                rest_ignores_place(job, copying, answers, i + 1);
            }
        }
        assert(seq![request] + requests(next, answers) =~= rest_requests(job, answers, i));
    }
}

/// A copying deals with the entries one after another and in their order, each by
/// [`item_requests`], and ends with success after the last. The first copy that fails ends it
/// with an error, and nothing after it is touched.
pub proof fn copying_requests(job: CopyView, answers: Seq<CopyAnswers>)
    requires
        job.stage is Begin,
        job.index == 0,
    ensures
        requests(job, answers) == rest_requests(job, answers, 0),
{
    requests_of_rest(job, answers, 0);
}

/// An entry is copied if and only if it is a file, has a name that is not that of the note, and
/// its size and that of what stands in its place are not known to be equal. It is copied under
/// its own name.
pub proof fn files_are_copied_by_name(job: CopyView, i: int, answer: CopyAnswers, name: Seq<u8>)
    requires
        path::file_name_of(job.items[i].path) == Some(name),
    ensures
        ({
            let all = item_requests(job, i, answer);
            let from = job.items[i].path;
            let to = path::joined(job.to, name);
            let note = valid_utf8(name) && text::same_ignoring_case(
                decode_utf8(name),
                "ffmpeg.txt"@,
            );
            let equal = answer.from_size is Some && answer.from_size == answer.to_size;
            &&& job.items[i].kind != PathKind::File || note ==> all.len() == 0
            &&& job.items[i].kind == PathKind::File && !note ==> all.len() > 0 && all[0] == (
            CopyRequestView::ReadSizes { from, to })
            &&& job.items[i].kind == PathKind::File && !note && equal ==> all.len() == 1
            &&& job.items[i].kind == PathKind::File && !note && !equal ==> all.len() == 2 && all[1]
                == (CopyRequestView::Copy { from, to })
        }),
{
}

proof fn rest_ends(job: CopyView, answers: Seq<CopyAnswers>, from: int, i: int)
    requires
        0 <= from,
    ensures
        ({
            let all = rest_requests(job, answers, from);
            &&& all.len() > 0
            &&& all.last() is Finish
            &&& all.last() == CopyRequestView::Finish(Ok(())) <==> forall|k: int|
                from <= k < job.items.len() ==> !is_copied(job, k, answers[k])
                    || (#[trigger] answers[k]).copied is Ok
            &&& all.last() == CopyRequestView::Finish(Ok(())) && from <= i < job.items.len()
                && is_copied(job, i, answers[i]) ==> all.contains(
                CopyRequestView::Copy { from: job.items[i].path, to: job.place(i)->0 },
            )
        }),
    decreases job.items.len() - from,
{
    let all = rest_requests(job, answers, from);
    if from < job.items.len() {
        let now = item_requests(job, from, answers[from]);
        rest_ends(job, answers, from + 1, i);
        if is_copied(job, from, answers[from]) && answers[from].copied is Err {
            assert(!(answers[from].copied is Ok));
        } else {
            let rest = rest_requests(job, answers, from + 1);
            if i == from && is_copied(job, i, answers[i]) {
                assert(all[1] == now[1]);
            } else if rest.contains(
                CopyRequestView::Copy { from: job.items[i].path, to: job.place(i)->0 },
            ) {
                let k = choose|k: int|
                    0 <= k < rest.len() && rest[k] == (CopyRequestView::Copy {
                        from: job.items[i].path,
                        to: job.place(i)->0,
                    });
                assert(all[now.len() + k] == rest[k]);
            }
        }
    }
}

/// A copying ends well if and only if every copy that was needed went well, and then every entry
/// that needed to be copied was.
pub proof fn copying_ends_well_if_all_does(job: CopyView, answers: Seq<CopyAnswers>, i: int)
    requires
        job.stage is Begin,
        job.index == 0,
    ensures
        ({
            let all = requests(job, answers);
            &&& all.len() > 0
            &&& all.last() is Finish
            &&& all.last() == CopyRequestView::Finish(Ok(())) <==> forall|k: int|
                0 <= k < job.items.len() ==> !is_copied(job, k, answers[k])
                    || (#[trigger] answers[k]).copied is Ok
            &&& all.last() == CopyRequestView::Finish(Ok(())) && 0 <= i < job.items.len()
                && is_copied(job, i, answers[i]) ==> all.contains(
                CopyRequestView::Copy { from: job.items[i].path, to: job.place(i)->0 },
            )
        }),
{
    copying_requests(job, answers);
    rest_ends(job, answers, 0, i);
}

} // verus!
