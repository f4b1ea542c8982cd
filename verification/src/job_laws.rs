//! What a whole batch does, from its start to its end.

use vstd::prelude::*;
use crate::command;
use crate::job;
use crate::path;
use crate::status::FileStatus;

verus! {

/// What the caller of a batch would find for one file.
pub struct FileAnswers {
    /// Whether the batch is cancelled by the time that the file comes up.
    pub cancelled: bool,
    /// How the making of the output's directory goes.
    pub dir: Result<(), Seq<char>>,
    /// Whether the output exists.
    pub exists: bool,
    /// How FFmpeg runs.
    pub run: Result<command::OutputView, Seq<char>>,
}

/// The reply to what a batch waits for, when these are the answers.
pub open spec fn reply_to(batch: job::JobView, answers: Seq<FileAnswers>) -> job::ReplyView {
    let answer = answers[batch.index as int];
    match batch.stage {
        job::JobStage::AskedCancel => job::ReplyView::Answer(answer.cancelled),
        job::JobStage::AskedDir => job::ReplyView::Outcome(answer.dir),
        job::JobStage::AskedExists => job::ReplyView::Answer(answer.exists),
        job::JobStage::AskedRun => job::ReplyView::Exit(answer.run),
        _ => job::ReplyView::Done,
    }
}

/// How far a stage is from the end of a file.
pub open spec fn stage_rank(stage: job::JobStage) -> int {
    match stage {
        job::JobStage::Begin => 8,
        job::JobStage::Opened => 7,
        job::JobStage::Idle => 6,
        job::JobStage::AskedCancel => 5,
        job::JobStage::Announced => 4,
        job::JobStage::AskedDir => 3,
        job::JobStage::AskedExists => 2,
        job::JobStage::AskedRun => 1,
        job::JobStage::Closed => 0,
    }
}

/// All that a batch requests until it is closed, when these are the answers.
pub open spec fn requests(batch: job::JobView, answers: Seq<FileAnswers>) -> Seq<job::RequestView>
    decreases batch.files.len() - batch.index, stage_rank(batch.stage),
{
    if !batch.wf() || batch.stage is Closed {
        Seq::empty()
    } else {
        let (next, request) = batch.step(reply_to(batch, answers));
        seq![request] + requests(next, answers)
    }
}

/// The status and the message that a file ends with, once its start has been told.
pub open spec fn file_result(batch: job::JobView, i: int, answer: FileAnswers) -> (
    FileStatus,
    Seq<char>,
) {
    let output = batch.files[i].output;
    if path::parent_of(output) is Some && answer.dir is Err {
        (FileStatus::Failed, job::missing_dir_text(output, answer.dir->Err_0))
    } else if answer.exists && !batch.overwrite {
        (FileStatus::Skipped, "уже есть "@ + path::displayed(output))
    } else {
        job::run_report(output, answer.run)
    }
}

/// The message that ends a file.
pub open spec fn file_end(batch: job::JobView, i: int, answer: FileAnswers) -> job::MessageView {
    let (status, message) = if answer.cancelled {
        (FileStatus::Skipped, "Отменено"@)
    } else {
        file_result(batch, i, answer)
    };
    job::MessageView::FileFinished { path: batch.files[i].input, status, message }
}

/// All that is requested for one file: nothing but a note where the batch is cancelled;
/// otherwise its start, its directory, the look whether the output exists, the run of FFmpeg
/// unless that would replace what is to be kept, and its end.
pub open spec fn file_requests(batch: job::JobView, i: int, answer: FileAnswers) -> Seq<
    job::RequestView,
> {
    let file = batch.files[i];
    let end = seq![job::RequestView::Send(file_end(batch, i, answer))];
    if answer.cancelled {
        seq![job::RequestView::ReadCancel] + end
    } else {
        let start = seq![
            job::RequestView::ReadCancel,
            job::RequestView::Send(job::MessageView::FileStarted { path: file.input }),
        ];
        let dir = match path::parent_of(file.output) {
            Some(dir) => seq![job::RequestView::CreateDir(dir)],
            None => Seq::empty(),
        };
        let conversion = if path::parent_of(file.output) is Some && answer.dir is Err {
            Seq::empty()
        } else if answer.exists && !batch.overwrite {
            seq![job::RequestView::CheckExists(file.output)]
        } else {
            seq![
                job::RequestView::CheckExists(file.output),
                job::RequestView::Run(
                    command::conversion_command(
                        batch.ffmpeg,
                        file.input,
                        file.output,
                        batch.channels,
                        batch.quality,
                        batch.sample_rate,
                    ),
                ),
            ]
        };
        start + dir + conversion + end
    }
}

/// All that is requested from file `from` on.
pub open spec fn rest_requests(batch: job::JobView, answers: Seq<FileAnswers>, from: int) -> Seq<
    job::RequestView,
>
    decreases batch.files.len() - from,
{
    if from >= batch.files.len() {
        seq![job::RequestView::Send(job::MessageView::Finished)]
    } else {
        file_requests(batch, from, answers[from]) + rest_requests(batch, answers, from + 1)
    }
}

/// All that is requested before the first file.
pub open spec fn opening_requests(batch: job::JobView) -> Seq<job::RequestView> {
    seq![
        job::RequestView::Send(job::MessageView::Started { total: batch.files.len() }),
    ] + match path::parent_of(batch.ffmpeg) {
        Some(dir) => seq![job::RequestView::PrependPath(dir)],
        None => Seq::empty(),
    }
}

proof fn requests_of_file(batch: job::JobView, answers: Seq<FileAnswers>)
    requires
        batch.stage is Idle,
        batch.index < batch.files.len(),
    ensures
        requests(batch, answers) == file_requests(
            batch,
            batch.index as int,
            answers[batch.index as int],
        ) + requests(job::JobView { index: batch.index + 1, ..batch }, answers),
{
    let i = batch.index as int;
    let answer = answers[i];
    let after = job::JobView { index: batch.index + 1, ..batch };
    let rest = requests(after, answers);
    let end = seq![job::RequestView::Send(file_end(batch, i, answer))];
    let output = batch.files[i].output;
    let asked = batch.at(job::JobStage::AskedCancel);
    assert(requests(batch, answers) == seq![job::RequestView::ReadCancel] + requests(
        asked,
        answers,
    ));
    if answer.cancelled {
        assert(requests(asked, answers) == end + rest);
    } else {
        let announced = batch.at(job::JobStage::Announced);
        let asked_dir = batch.at(job::JobStage::AskedDir);
        let asked_exists = batch.at(job::JobStage::AskedExists);
        let asked_run = batch.at(job::JobStage::AskedRun);
        let started = job::RequestView::Send(
            job::MessageView::FileStarted { path: batch.files[i].input },
        );
        assert(requests(asked, answers) == seq![started] + requests(announced, answers));
        if !(path::parent_of(output) is Some && answer.dir is Err) {
            let check = job::RequestView::CheckExists(output);
            if answer.exists && !batch.overwrite {
                assert(requests(asked_exists, answers) == end + rest);
            } else {
                let run = job::RequestView::Run(batch.command());
                assert(requests(asked_run, answers) == end + rest);
                assert(requests(asked_exists, answers) == seq![run] + (end + rest));
            }
            match path::parent_of(output) {
                Some(dir) => {
                    assert(requests(asked_dir, answers) == seq![check] + requests(
                        asked_exists,
                        answers,
                    ));
                    assert(requests(announced, answers) == seq![job::RequestView::CreateDir(dir)]
                        + requests(asked_dir, answers));
                },
                None => {
                    assert(requests(announced, answers) == seq![check] + requests(
                        asked_exists,
                        answers,
                    ));
                },
            }
        } else {
            let dir = path::parent_of(output)->0;
            assert(requests(asked_dir, answers) == end + rest);
            assert(requests(announced, answers) == seq![job::RequestView::CreateDir(dir)]
                + requests(asked_dir, answers));
        }
    }
    assert(requests(batch, answers) =~= file_requests(batch, i, answer) + rest);
}

proof fn requests_of_rest(batch: job::JobView, answers: Seq<FileAnswers>)
    requires
        batch.stage is Idle,
        batch.index <= batch.files.len(),
    ensures
        requests(batch, answers) == rest_requests(batch, answers, batch.index as int),
    decreases batch.files.len() - batch.index,
{
    if batch.index < batch.files.len() {
        let after = job::JobView { index: batch.index + 1, ..batch };
        requests_of_file(batch, answers);
        requests_of_rest(after, answers);
        rest_ignores_place(batch, after, answers, (batch.index + 1) as int);
    } else {
        let closed = batch.at(job::JobStage::Closed);
        assert(requests(closed, answers) =~= Seq::empty());
        assert(requests(batch, answers) == seq![
            job::RequestView::Send(job::MessageView::Finished),
        ] + requests(closed, answers));
        assert(requests(batch, answers) =~= rest_requests(batch, answers, batch.index as int));
    }
}

/// The batch's own place does not matter to what comes from a given file on.
proof fn rest_ignores_place(
    a: job::JobView,
    b: job::JobView,
    answers: Seq<FileAnswers>,
    from: int,
)
    requires
        b == (job::JobView { index: b.index, stage: b.stage, ..a }),
    ensures
        rest_requests(a, answers, from) == rest_requests(b, answers, from),
    decreases a.files.len() - from,
{
    if from < a.files.len() {
        rest_ignores_place(a, b, answers, from + 1);
    }
}

/// A batch tells its start, then deals with its files one after another and in their order, each
/// by [`file_requests`], and then tells its end.
pub proof fn batch_requests(batch: job::JobView, answers: Seq<FileAnswers>)
    requires
        batch.stage is Begin,
        batch.index == 0,
    ensures
        requests(batch, answers) == opening_requests(batch) + rest_requests(batch, answers, 0),
{
    let opened = batch.at(job::JobStage::Opened);
    let idle = batch.at(job::JobStage::Idle);
    let started = job::RequestView::Send(
        job::MessageView::Started { total: batch.files.len() },
    );
    requests_of_rest(idle, answers);
    rest_ignores_place(batch, idle, answers, 0);
    assert(requests(batch, answers) == seq![started] + requests(opened, answers));
    match path::parent_of(batch.ffmpeg) {
        Some(dir) => {
            assert(requests(opened, answers) == seq![job::RequestView::PrependPath(dir)]
                + requests(idle, answers));
        },
        None => {
            assert(opened.next_file() == idle.next_file());
            assert(reply_to(opened, answers) == reply_to(idle, answers));
            assert(requests(opened, answers) == requests(idle, answers));
        },
    }
    assert(requests(batch, answers) =~= opening_requests(batch) + rest_requests(
        batch,
        answers,
        0,
    ));
}

/// The messages among requests.
pub open spec fn sent(list: Seq<job::RequestView>) -> Seq<job::MessageView>
    decreases list.len(),
{
    if list.len() == 0 {
        Seq::empty()
    } else {
        sent(list.drop_last()) + match list.last() {
            job::RequestView::Send(message) => seq![message],
            _ => Seq::empty(),
        }
    }
}

/// The messages about one file.
pub open spec fn file_messages(batch: job::JobView, i: int, answer: FileAnswers) -> Seq<
    job::MessageView,
> {
    if answer.cancelled {
        seq![file_end(batch, i, answer)]
    } else {
        seq![
            job::MessageView::FileStarted { path: batch.files[i].input },
            file_end(batch, i, answer),
        ]
    }
}

/// The messages of a batch from file `from` on.
pub open spec fn rest_messages(batch: job::JobView, answers: Seq<FileAnswers>, from: int) -> Seq<
    job::MessageView,
>
    decreases batch.files.len() - from,
{
    if from >= batch.files.len() {
        seq![job::MessageView::Finished]
    } else {
        file_messages(batch, from, answers[from]) + rest_messages(batch, answers, from + 1)
    }
}

/// All messages of a batch.
pub open spec fn batch_messages(batch: job::JobView, answers: Seq<FileAnswers>) -> Seq<
    job::MessageView,
> {
    seq![job::MessageView::Started { total: batch.files.len() }] + rest_messages(batch, answers, 0)
}

proof fn sent_concat(a: Seq<job::RequestView>, b: Seq<job::RequestView>)
    ensures
        sent(a + b) == sent(a) + sent(b),
    decreases b.len(),
{
    if b.len() == 0 {
        assert(a + b =~= a);
        assert(sent(a + b) =~= sent(a) + sent(b));
    } else {
        assert((a + b).drop_last() =~= a + b.drop_last());
        sent_concat(a, b.drop_last());
        assert(sent(a + b) =~= sent(a) + sent(b));
    }
}

proof fn sent_one(request: job::RequestView)
    ensures
        sent(seq![request]) == match request {
            job::RequestView::Send(message) => seq![message],
            _ => Seq::empty(),
        },
{
    assert(seq![request].drop_last() =~= Seq::empty());
    assert(sent(Seq::<job::RequestView>::empty()) =~= Seq::empty());
    assert(sent(seq![request]) =~= match request {
        job::RequestView::Send(message) => seq![message],
        _ => Seq::empty(),
    });
}

proof fn sent_of_file(batch: job::JobView, i: int, answer: FileAnswers)
    ensures
        sent(file_requests(batch, i, answer)) == file_messages(batch, i, answer),
{
    let all = file_requests(batch, i, answer);
    let end = job::RequestView::Send(file_end(batch, i, answer));
    assert(all.last() == end);
    let front = all.drop_last();
    assert(all =~= front + seq![end]);
    sent_concat(front, seq![end]);
    sent_one(end);
    sent_one(job::RequestView::ReadCancel);
    if answer.cancelled {
        assert(front =~= seq![job::RequestView::ReadCancel]);
        assert(sent(all) =~= file_messages(batch, i, answer));
    } else {
        let start = job::RequestView::Send(
            job::MessageView::FileStarted { path: batch.files[i].input },
        );
        let tail = front.skip(2);
        assert(front =~= seq![job::RequestView::ReadCancel] + (seq![start] + tail));
        sent_concat(seq![job::RequestView::ReadCancel], seq![start] + tail);
        sent_concat(seq![start], tail);
        sent_one(start);
        assert forall|k: int| 0 <= k < tail.len() implies !((#[trigger] tail[k]) is Send) by {
            assert(tail[k] == all[k + 2]);
        }
        nothing_sent(tail);
        assert(sent(all) =~= file_messages(batch, i, answer));
    }
}

proof fn nothing_sent(list: Seq<job::RequestView>)
    requires
        forall|k: int| 0 <= k < list.len() ==> !((#[trigger] list[k]) is Send),
    ensures
        sent(list) == Seq::<job::MessageView>::empty(),
    decreases list.len(),
{
    if list.len() > 0 {
        assert forall|k: int| 0 <= k < list.drop_last().len() implies !((
        #[trigger] list.drop_last()[k]) is Send) by {
            assert(list.drop_last()[k] == list[k]);
        }
        nothing_sent(list.drop_last());
        assert(!(list[list.len() - 1] is Send));
        assert(sent(list) =~= Seq::<job::MessageView>::empty());
    }
}

proof fn sent_of_rest(batch: job::JobView, answers: Seq<FileAnswers>, from: int)
    ensures
        sent(rest_requests(batch, answers, from)) == rest_messages(batch, answers, from),
    decreases batch.files.len() - from,
{
    if from >= batch.files.len() {
        sent_one(job::RequestView::Send(job::MessageView::Finished));
    } else {
        sent_of_file(batch, from, answers[from]);
        sent_of_rest(batch, answers, from + 1);
        sent_concat(
            file_requests(batch, from, answers[from]),
            rest_requests(batch, answers, from + 1),
        );
    }
}

/// Whatever the caller finds, a batch sends its start first and its end last, and in between, in
/// the order of the files, exactly one end for each file, with its start just before unless the
/// batch was cancelled.
pub proof fn batch_sends(batch: job::JobView, answers: Seq<FileAnswers>)
    requires
        batch.stage is Begin,
        batch.index == 0,
    ensures
        sent(requests(batch, answers)) == batch_messages(batch, answers),
{
    batch_requests(batch, answers);
    sent_of_rest(batch, answers, 0);
    let opening = opening_requests(batch);
    sent_concat(opening, rest_requests(batch, answers, 0));
    let started = job::RequestView::Send(
        job::MessageView::Started { total: batch.files.len() },
    );
    sent_one(started);
    match path::parent_of(batch.ffmpeg) {
        Some(dir) => {
            assert(opening =~= seq![started] + seq![job::RequestView::PrependPath(dir)]);
            sent_concat(seq![started], seq![job::RequestView::PrependPath(dir)]);
            sent_one(job::RequestView::PrependPath(dir));
        },
        None => {
            assert(opening =~= seq![started]);
        },
    }
    assert(sent(requests(batch, answers)) =~= batch_messages(batch, answers));
}

/// FFmpeg is run on a file only if the batch was not cancelled before it, and only if its output
/// does not exist or may be replaced; and then it is run once, with this file's command.
pub proof fn runs_are_allowed(batch: job::JobView, i: int, answer: FileAnswers, k: int)
    requires
        0 <= k < file_requests(batch, i, answer).len(),
        file_requests(batch, i, answer)[k] is Run,
    ensures
        !answer.cancelled,
        !answer.exists || batch.overwrite,
        path::parent_of(batch.files[i].output) is Some ==> answer.dir is Ok,
        k == file_requests(batch, i, answer).len() - 2,
        file_requests(batch, i, answer)[k] == job::RequestView::Run(
            command::conversion_command(
                batch.ffmpeg,
                batch.files[i].input,
                batch.files[i].output,
                batch.channels,
                batch.quality,
                batch.sample_rate,
            ),
        ),
{
}

/// Of a file that comes up after the batch was cancelled nothing is touched: it is noted as
/// skipped, and that is all.
pub proof fn cancelled_files_are_left_alone(batch: job::JobView, i: int, answer: FileAnswers)
    requires
        answer.cancelled,
    ensures
        file_requests(batch, i, answer) == seq![
            job::RequestView::ReadCancel,
            job::RequestView::Send(
                job::MessageView::FileFinished {
                    path: batch.files[i].input,
                    status: FileStatus::Skipped,
                    message: "Отменено"@,
                },
            ),
        ],
{
    assert(file_requests(batch, i, answer) =~= seq![
        job::RequestView::ReadCancel,
        job::RequestView::Send(file_end(batch, i, answer)),
    ]);
}

/// Once a batch is cancelled, nothing more is touched: from the next file on, the caller is only
/// asked whether the batch was cancelled, and every file is noted as skipped.
pub proof fn a_cancelled_batch_only_tells(batch: job::JobView, answers: Seq<FileAnswers>, from: int)
    requires
        0 <= from,
        forall|i: int| from <= i < batch.files.len() ==> (#[trigger] answers[i]).cancelled,
    ensures
        forall|k: int|
            0 <= k < rest_requests(batch, answers, from).len() ==> {
                ||| (#[trigger] rest_requests(batch, answers, from)[k]) is ReadCancel
                ||| rest_requests(batch, answers, from)[k] is Send
            },
        forall|i: int|
            from <= i < batch.files.len() ==> (#[trigger] file_end(
                batch,
                i,
                answers[i],
            ))->FileFinished_status == FileStatus::Skipped,
    decreases batch.files.len() - from,
{
    if from < batch.files.len() {
        a_cancelled_batch_only_tells(batch, answers, from + 1);
        let now = file_requests(batch, from, answers[from]);
        let rest = rest_requests(batch, answers, from + 1);
        cancelled_files_are_left_alone(batch, from, answers[from]);
        assert forall|k: int| 0 <= k < rest_requests(batch, answers, from).len() implies {
            ||| (#[trigger] rest_requests(batch, answers, from)[k]) is ReadCancel
            ||| rest_requests(batch, answers, from)[k] is Send
        } by {
            if k < now.len() {
                assert(rest_requests(batch, answers, from)[k] == now[k]);
            } else {
                assert(rest_requests(batch, answers, from)[k] == rest[k - now.len()]);
            }
        }
    }
}

/// An output that exists and is to be kept is not written: its file ends as skipped, without a
/// run of FFmpeg.
pub proof fn kept_outputs_are_not_written(batch: job::JobView, i: int, answer: FileAnswers)
    requires
        answer.exists,
        !batch.overwrite,
    ensures
        forall|k: int|
            0 <= k < file_requests(batch, i, answer).len() ==> !((
            #[trigger] file_requests(batch, i, answer)[k]) is Run),
        !answer.cancelled && answer.dir is Ok ==> file_end(batch, i, answer) == (
        job::MessageView::FileFinished {
            path: batch.files[i].input,
            status: FileStatus::Skipped,
            message: "уже есть "@ + path::displayed(batch.files[i].output),
        }),
{
}

/// How each file ends. A file that comes up after a cancel is skipped as cancelled. One whose
/// folder cannot be made fails, with the folder and the reason. One whose output is there and is
/// to be kept is skipped, with the output. On any other FFmpeg is run: the file succeeds if and
/// only if the run did, with the name of the output, and else fails with what the run tells.
pub proof fn files_end_as_they_should(batch: job::JobView, i: int, answer: FileAnswers)
    ensures
        ({
            let end = file_end(batch, i, answer);
            let output = batch.files[i].output;
            let no_folder = path::parent_of(output) is Some && answer.dir is Err;
            let kept = answer.exists && !batch.overwrite;
            &&& end is FileFinished
            &&& end->FileFinished_path == batch.files[i].input
            &&& answer.cancelled ==> end->FileFinished_status == FileStatus::Skipped
                && end->FileFinished_message == "Отменено"@
            &&& !answer.cancelled && no_folder ==> end->FileFinished_status == FileStatus::Failed
                && end->FileFinished_message == "Нет папки "@ + path::displayed(
                path::parent_of(output)->0,
            ) + ": "@ + answer.dir->Err_0
            &&& !answer.cancelled && !no_folder && kept ==> end->FileFinished_status
                == FileStatus::Skipped && end->FileFinished_message == "уже есть "@
                + path::displayed(output)
            &&& !answer.cancelled && !no_folder && !kept && command::verdict(answer.run) is Ok
                ==> end->FileFinished_status == FileStatus::Success && end->FileFinished_message
                == path::name_or(output, "ogg"@)
            &&& !answer.cancelled && !no_folder && !kept && command::verdict(answer.run) is Err
                ==> end->FileFinished_status == FileStatus::Failed && end->FileFinished_message
                == command::verdict(answer.run)->Err_0
        }),
{
}

/// What is done for a file that nothing stands in the way of: its start is told, its folder is
/// made where it has one, its output is looked for, and FFmpeg is run on it with the batch's
/// choices, in this order; then its end is told.
pub proof fn files_are_converted(batch: job::JobView, i: int, answer: FileAnswers)
    requires
        !answer.cancelled,
        path::parent_of(batch.files[i].output) is Some ==> answer.dir is Ok,
        !answer.exists || batch.overwrite,
    ensures
        ({
            let file = batch.files[i];
            let all = file_requests(batch, i, answer);
            let n = all.len();
            &&& n == if path::parent_of(file.output) is Some {
                6int
            } else {
                5int
            }
            &&& all[0] is ReadCancel
            &&& all[1] == job::RequestView::Send(
                job::MessageView::FileStarted { path: file.input },
            )
            &&& path::parent_of(file.output) matches Some(dir) ==> all[2]
                == job::RequestView::CreateDir(dir)
            &&& all[n - 3] == job::RequestView::CheckExists(file.output)
            &&& all[n - 2] == job::RequestView::Run(
                command::conversion_command(
                    batch.ffmpeg,
                    file.input,
                    file.output,
                    batch.channels,
                    batch.quality,
                    batch.sample_rate,
                ),
            )
            &&& all[n - 1] is Send
        }),
{
}

/// A file that something stands in the way of is not converted: where its folder cannot be made,
/// nothing is looked for or run; where its output is to be kept, nothing is run.
pub proof fn files_are_left_as_they_are(batch: job::JobView, i: int, answer: FileAnswers)
    requires
        !answer.cancelled,
    ensures
        path::parent_of(batch.files[i].output) is Some && answer.dir is Err ==> file_requests(
            batch,
            i,
            answer,
        ) == seq![
            job::RequestView::ReadCancel,
            job::RequestView::Send(job::MessageView::FileStarted { path: batch.files[i].input }),
            job::RequestView::CreateDir(path::parent_of(batch.files[i].output)->0),
            job::RequestView::Send(file_end(batch, i, answer)),
        ],
        answer.exists && !batch.overwrite ==> forall|k: int|
            0 <= k < file_requests(batch, i, answer).len() ==> !((
            #[trigger] file_requests(batch, i, answer)[k]) is Run),
{
    let all = file_requests(batch, i, answer);
    if path::parent_of(batch.files[i].output) is Some && answer.dir is Err {
        assert(all =~= seq![
            job::RequestView::ReadCancel,
            job::RequestView::Send(job::MessageView::FileStarted { path: batch.files[i].input }),
            job::RequestView::CreateDir(path::parent_of(batch.files[i].output)->0),
            job::RequestView::Send(file_end(batch, i, answer)),
        ]);
    }
}

proof fn rest_ends_with_the_end(batch: job::JobView, answers: Seq<FileAnswers>, from: int)
    ensures
        rest_requests(batch, answers, from).len() > 0,
        rest_requests(batch, answers, from).last() == job::RequestView::Send(
            job::MessageView::Finished,
        ),
    decreases batch.files.len() - from,
{
    if from < batch.files.len() {
        rest_ends_with_the_end(batch, answers, from + 1);
    }
}

/// A batch first tells how many files it has, then has FFmpeg's folder put in front of the search
/// path where it has one, and last tells its end.
pub proof fn batch_opens_and_closes(batch: job::JobView, answers: Seq<FileAnswers>)
    requires
        batch.stage is Begin,
        batch.index == 0,
    ensures
        requests(batch, answers).len() >= 2,
        requests(batch, answers)[0] == job::RequestView::Send(
            job::MessageView::Started { total: batch.files.len() },
        ),
        path::parent_of(batch.ffmpeg) matches Some(dir) ==> requests(batch, answers)[1]
            == job::RequestView::PrependPath(dir),
        requests(batch, answers).last() == job::RequestView::Send(job::MessageView::Finished),
{
    batch_requests(batch, answers);
    rest_ends_with_the_end(batch, answers, 0);
}

/// Whether requests stand one behind another among others.
pub open spec fn stand_together(
    all: Seq<job::RequestView>,
    part: Seq<job::RequestView>,
    at: int,
) -> bool {
    0 <= at && at + part.len() <= all.len() && all.subrange(at, at + part.len()) == part
}

proof fn file_in_rest(batch: job::JobView, answers: Seq<FileAnswers>, from: int, i: int) -> (at:
    int)
    requires
        from <= i < batch.files.len(),
    ensures
        stand_together(
            rest_requests(batch, answers, from),
            file_requests(batch, i, answers[i]),
            at,
        ),
    decreases batch.files.len() - from,
{
    let now = file_requests(batch, from, answers[from]);
    let all = rest_requests(batch, answers, from);
    if from == i {
        assert(all.subrange(0, now.len() as int) =~= now);
        0
    } else {
        let at = file_in_rest(batch, answers, from + 1, i);
        let part = file_requests(batch, i, answers[i]);
        let rest = rest_requests(batch, answers, from + 1);
        assert(all.subrange(now.len() + at, now.len() + at + part.len()) =~= rest.subrange(
            at,
            at + part.len(),
        ));
        now.len() + at
    }
}

/// No file of a batch is left out: what is requested for each stands among what is requested.
pub proof fn no_file_is_left_out(batch: job::JobView, answers: Seq<FileAnswers>, i: int)
    requires
        batch.stage is Begin,
        batch.index == 0,
        0 <= i < batch.files.len(),
    ensures
        exists|at: int| #[trigger]
            stand_together(requests(batch, answers), file_requests(batch, i, answers[i]), at),
{
    batch_requests(batch, answers);
    let at = file_in_rest(batch, answers, 0, i);
    let opening = opening_requests(batch);
    let rest = rest_requests(batch, answers, 0);
    let part = file_requests(batch, i, answers[i]);
    let all = requests(batch, answers);
    assert(all.subrange(opening.len() + at, opening.len() + at + part.len()) =~= rest.subrange(
        at,
        at + part.len(),
    ));
    assert(stand_together(all, part, opening.len() + at));
}

} // verus!
