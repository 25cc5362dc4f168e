//! The upload batch: every selected file is attempted once, in order, the
//! outcomes are counted, and a pause follows each success that is not the
//! last attempt.
//!
//! Uploading and waiting happen outside this library. The caller asks for
//! the next action, carries it out, and reports back.

use vstd::prelude::*;
use crate::types::texts;
use crate::upload::{
    attempt_model, failure_reason, failure_reason_text, Attempt, AttemptModel, OutcomeModel,
    UploadErrorModel, UPLOAD_TIMEOUT_SECS,
};

verus! {

/// How long the pause after a successful upload lasts, in seconds.
pub const COOLDOWN_SECS: u64 = 3;

/// A file whose upload failed, and why.
#[derive(Clone, Debug, PartialEq, Eq)]
pub struct FailedFile {
    pub path: String,
    pub reason: String,
}

/// The result of a batch: how many uploads succeeded, how many failed, and
/// the failed files in the order in which they were attempted.
#[derive(Clone, Debug, PartialEq, Eq)]
pub struct BatchReport {
    pub success_count: usize,
    pub fail_count: usize,
    pub failed_files: Vec<FailedFile>,
}

/// The mathematical value of a [`BatchReport`]. A failed file is the pair
/// of its path and the reason.
pub struct ReportModel {
    pub success_count: nat,
    pub fail_count: nat,
    pub failed_files: Seq<(Seq<char>, Seq<char>)>,
}

/// The failed files as pairs of path and reason.
pub open spec fn failures(failed: Seq<FailedFile>) -> Seq<(Seq<char>, Seq<char>)> {
    failed.map_values(|f: FailedFile| (f.path@, f.reason@))
}

impl View for BatchReport {
    type V = ReportModel;

    open spec fn view(&self) -> ReportModel {
        ReportModel {
            success_count: self.success_count as nat,
            fail_count: self.fail_count as nat,
            failed_files: failures(self.failed_files@),
        }
    }
}

/// The report of a batch of which nothing is attempted yet.
pub open spec fn empty_report() -> ReportModel {
    ReportModel { success_count: 0, fail_count: 0, failed_files: Seq::empty() }
}

/// Whether an attempt counts as a success: it has no reason to count as a
/// failure. Only the outcome `Success` is one.
pub open spec fn is_success(attempt: AttemptModel) -> bool {
    failure_reason_text(attempt) is None
}

/// The report with one more attempt counted: a success adds to the
/// successes; anything else adds to the failures and is listed with the
/// file's path and the reason.
pub open spec fn tallied(report: ReportModel, path: Seq<char>, attempt: AttemptModel) -> ReportModel {
    match failure_reason_text(attempt) {
        None => ReportModel { success_count: report.success_count + 1, ..report },
        Some(reason) => ReportModel {
            fail_count: report.fail_count + 1,
            failed_files: report.failed_files.push((path, reason)),
            ..report
        },
    }
}

/// The report of a batch after `attempts`, the first of them made on the
/// first file, the second on the second, and so on.
pub open spec fn report_of(files: Seq<Seq<char>>, attempts: Seq<AttemptModel>) -> ReportModel
    decreases attempts.len(),
{
    if attempts.len() == 0 {
        empty_report()
    } else {
        tallied(
            report_of(files, attempts.drop_last()),
            files[attempts.len() - 1],
            attempts.last(),
        )
    }
}

/// What the caller does next.
#[derive(Clone, Debug, PartialEq, Eq)]
pub enum BatchAction {
    /// Upload the file at `path`, the one at `index` of the batch, and give
    /// the attempt up after `timeout_secs` seconds.
    Upload { index: usize, path: String, timeout_secs: u64 },
    /// Wait for `seconds` seconds.
    CoolDown { seconds: u64 },
    /// Nothing is left to do; `report` is the result of the batch.
    Finish { report: BatchReport },
}

/// The mathematical value of a [`BatchAction`].
pub enum ActionModel {
    Upload { index: nat, path: Seq<char>, timeout_secs: u64 },
    CoolDown { seconds: u64 },
    Finish { report: ReportModel },
}

impl View for BatchAction {
    type V = ActionModel;

    open spec fn view(&self) -> ActionModel {
        match *self {
            BatchAction::Upload { index, path, timeout_secs } => ActionModel::Upload {
                index: index as nat,
                path: path@,
                timeout_secs,
            },
            BatchAction::CoolDown { seconds } => ActionModel::CoolDown { seconds },
            BatchAction::Finish { report } => ActionModel::Finish { report: report@ },
        }
    }
}

/// The state of a batch: its files, the report so far, and whether the
/// pause after a success is still to be waited out.
pub struct BatchModel {
    pub files: Seq<Seq<char>>,
    pub report: ReportModel,
    pub cooling: bool,
}

impl BatchModel {
    /// How many files are attempted.
    pub open spec fn attempted(self) -> nat {
        self.report.success_count + self.report.fail_count
    }

    /// Whether the state is in order: no more files are attempted than
    /// there are, every failure is listed, and a pause is only owed between
    /// two attempts.
    pub open spec fn in_order(self) -> bool {
        &&& self.attempted() <= self.files.len()
        &&& self.report.failed_files.len() == self.report.fail_count
        &&& self.cooling ==> 0 < self.attempted() < self.files.len()
    }
}

/// The batch at its start.
pub open spec fn initial_batch(files: Seq<Seq<char>>) -> BatchModel {
    BatchModel { files, report: empty_report(), cooling: false }
}

/// What is done next in a given state: the pause where one is owed, else
/// the upload of the next file in order, under the fixed time limit, else,
/// where every file is attempted, nothing more.
pub open spec fn action_model(s: BatchModel) -> ActionModel {
    if s.cooling {
        ActionModel::CoolDown { seconds: COOLDOWN_SECS }
    } else if s.attempted() < s.files.len() {
        ActionModel::Upload {
            index: s.attempted(),
            path: s.files[s.attempted() as int],
            timeout_secs: UPLOAD_TIMEOUT_SECS,
        }
    } else {
        ActionModel::Finish { report: s.report }
    }
}

/// The state after an attempt on the next file is reported. The attempt is
/// counted, and a pause is owed where it succeeded and files remain. A
/// batch that is pausing or finished takes no report: it stays as it is.
pub open spec fn recorded(s: BatchModel, attempt: AttemptModel) -> BatchModel {
    if !s.cooling && s.attempted() < s.files.len() {
        BatchModel {
            report: tallied(s.report, s.files[s.attempted() as int], attempt),
            cooling: is_success(attempt) && s.attempted() + 1 < s.files.len(),
            ..s
        }
    } else {
        s
    }
}

/// The state after the pause is waited out.
pub open spec fn cooled(s: BatchModel) -> BatchModel {
    BatchModel { cooling: false, ..s }
}

/// The state of a batch after `attempts` were reported in turn and every
/// pause was waited out.
pub open spec fn batch_after(files: Seq<Seq<char>>, attempts: Seq<AttemptModel>) -> BatchModel
    decreases attempts.len(),
{
    if attempts.len() == 0 {
        initial_batch(files)
    } else {
        cooled(recorded(batch_after(files, attempts.drop_last()), attempts.last()))
    }
}

/// A batch of uploads.
pub struct UploadBatch {
    files: Vec<String>,
    report: BatchReport,
    cooling: bool,
}

impl View for UploadBatch {
    type V = BatchModel;

    closed spec fn view(&self) -> BatchModel {
        BatchModel { files: texts(self.files@), report: self.report@, cooling: self.cooling }
    }
}

fn copy_report(report: &BatchReport) -> (copy: BatchReport)
    ensures
        copy@ == report@,
{
    let mut failed_files: Vec<FailedFile> = Vec::new();
    let mut i: usize = 0;
    while i < report.failed_files.len()
        invariant
            i <= report.failed_files.len(),
            failures(failed_files@) == failures(report.failed_files@).take(i as int),
        decreases report.failed_files.len() - i,
    {
        let ghost before = failures(failed_files@);
        let entry = FailedFile {
            path: report.failed_files[i].path.clone(),
            reason: report.failed_files[i].reason.clone(),
        };
        failed_files.push(entry);
        assert(failures(failed_files@) =~= before.push(failures(report.failed_files@)[i as int]));
        i += 1;
    }
    assert(failures(report.failed_files@).take(i as int) == failures(report.failed_files@));
    BatchReport {
        success_count: report.success_count,
        fail_count: report.fail_count,
        failed_files,
    }
}

impl UploadBatch {
    /// Whether the batch is in order.
    pub closed spec fn wf(&self) -> bool {
        self@.in_order()
    }

    /// A batch that is in order has a state that is in order.
    pub proof fn lemma_wf_in_order(&self)
        requires
            self.wf(),
        ensures
            self@.in_order(),
    {
    }

    /// A batch of `files`, none of them attempted yet.
    pub fn new(files: Vec<String>) -> (batch: Self)
        ensures
            batch.wf(),
            batch@ == initial_batch(texts(files@)),
    {
        let batch = UploadBatch {
            files,
            report: BatchReport { success_count: 0, fail_count: 0, failed_files: Vec::new() },
            cooling: false,
        };
        assert(failures(batch.report.failed_files@) =~= Seq::empty());
        batch
    }

    /// What the caller does next.
    pub fn next_action(&self) -> (action: BatchAction)
        requires
            self.wf(),
        ensures
            action@ == action_model(self@),
    {
        if self.cooling {
            return BatchAction::CoolDown { seconds: COOLDOWN_SECS };
        }
        let count = self.files.len();
        assert(self@.attempted() <= count);
        let index = self.report.success_count + self.report.fail_count;
        if index < count {
            BatchAction::Upload {
                index,
                path: self.files[index].clone(),
                timeout_secs: UPLOAD_TIMEOUT_SECS,
            }
        } else {
            BatchAction::Finish { report: copy_report(&self.report) }
        }
    }

    /// Takes the report of the attempt that `next_action` asked for.
    pub fn record(&mut self, attempt: &Attempt)
        requires
            old(self).wf(),
        ensures
            final(self).wf(),
            final(self)@ == recorded(old(self)@, attempt_model(*attempt)),
    {
        if self.cooling {
            return ;
        }
        let count = self.files.len();
        assert(self@.attempted() <= count);
        let index = self.report.success_count + self.report.fail_count;
        if index >= count {
            return ;
        }
        match failure_reason(attempt) {
            None => {
                self.report.success_count = self.report.success_count + 1;
                self.cooling = index + 1 < count;
            },
            Some(reason) => {
                let ghost before = failures(self.report.failed_files@);
                let entry = FailedFile { path: self.files[index].clone(), reason };
                self.report.fail_count = self.report.fail_count + 1;
                self.report.failed_files.push(entry);
                assert(failures(self.report.failed_files@) =~= before.push(
                    (self.files@[index as int]@, reason@),
                ));
            },
        }
    }

    /// Takes the report that the pause is waited out.
    pub fn cooled_down(&mut self)
        requires
            old(self).wf(),
        ensures
            final(self).wf(),
            final(self)@ == cooled(old(self)@),
    {
        self.cooling = false;
    }

    /// The report so far.
    pub fn report(&self) -> (report: BatchReport)
        ensures
            report@ == self@.report,
    {
        copy_report(&self.report)
    }
}

/// Counts a list of attempts, the first made on the first file, the second
/// on the second, and so on.
pub fn tally(files: &Vec<String>, attempts: &Vec<Attempt>) -> (report: BatchReport)
    requires
        attempts.len() <= files.len(),
    ensures
        report@ == report_of(texts(files@), attempts@.map_values(|a: Attempt| attempt_model(a))),
{
    let ghost models = attempts@.map_values(|a: Attempt| attempt_model(a));
    let mut batch = UploadBatch::new(files.clone());
    let mut i: usize = 0;
    assert(models.take(0) =~= Seq::empty());
    while i < attempts.len()
        invariant
            i <= attempts.len() <= files.len(),
            models == attempts@.map_values(|a: Attempt| attempt_model(a)),
            batch.wf(),
            batch@.files == texts(files@),
            !batch@.cooling,
            batch@.attempted() == i,
            batch@.report == report_of(texts(files@), models.take(i as int)),
        decreases attempts.len() - i,
    {
        proof {
            let next = models.take(i + 1);
            assert(next.drop_last() == models.take(i as int));
            assert(next.last() == attempt_model(attempts@[i as int]));
        }
        batch.record(&attempts[i]);
        batch.cooled_down();
        i += 1;
    }
    assert(models.take(i as int) == models);
    batch.report()
}

/// Every attempt is counted once: the successes and the failures of a
/// report add up to the number of attempts, and every failure is listed.
pub proof fn lemma_counts_add_up(files: Seq<Seq<char>>, attempts: Seq<AttemptModel>)
    ensures
        report_of(files, attempts).success_count + report_of(files, attempts).fail_count
            == attempts.len(),
        report_of(files, attempts).failed_files.len() == report_of(files, attempts).fail_count,
    decreases attempts.len(),
{
    if attempts.len() > 0 {
        lemma_counts_add_up(files, attempts.drop_last());
    }
}

/// Reporting the attempts one by one, with every pause waited out, leaves
/// the batch with the report of those attempts, and in order.
pub proof fn lemma_batch_after(files: Seq<Seq<char>>, attempts: Seq<AttemptModel>)
    requires
        attempts.len() <= files.len(),
    ensures
        batch_after(files, attempts).files == files,
        batch_after(files, attempts).report == report_of(files, attempts),
        !batch_after(files, attempts).cooling,
        batch_after(files, attempts).in_order(),
        batch_after(files, attempts).attempted() == attempts.len(),
    decreases attempts.len(),
{
    if attempts.len() > 0 {
        lemma_batch_after(files, attempts.drop_last());
        lemma_counts_add_up(files, attempts);
        lemma_counts_add_up(files, attempts.drop_last());
    }
}

/// When nothing is left to do, every file of the batch is counted: the
/// successes and the failures add up to the number of files.
pub proof fn lemma_finished_batch_counts_all(s: BatchModel)
    requires
        s.in_order(),
        action_model(s) is Finish,
    ensures
        action_model(s)->report == s.report,
        s.report.success_count + s.report.fail_count == s.files.len(),
{
}

/// After a success, the next file is not uploaded before the pause: the
/// next action is the pause of the fixed length, and only when it is waited
/// out is the next file uploaded. After the last file there is no pause.
pub proof fn lemma_success_is_followed_by_pause(s: BatchModel, attempt: AttemptModel)
    requires
        s.in_order(),
        action_model(s) is Upload,
        is_success(attempt),
    ensures
        recorded(s, attempt).in_order(),
        s.attempted() + 1 < s.files.len() ==> {
            &&& action_model(recorded(s, attempt)) == (ActionModel::CoolDown {
                seconds: COOLDOWN_SECS,
            })
            &&& action_model(cooled(recorded(s, attempt))) == (ActionModel::Upload {
                index: s.attempted() + 1 as nat,
                path: s.files[s.attempted() + 1 as int],
                timeout_secs: UPLOAD_TIMEOUT_SECS,
            })
        },
        s.attempted() + 1 == s.files.len() ==> action_model(recorded(s, attempt)) is Finish,
{
}

/// After a failure of any kind there is no pause and no second attempt:
/// the failure is listed with its file, and the next action is the upload
/// of the next file or, after the last file, the end of the batch.
pub proof fn lemma_failure_is_followed_at_once(s: BatchModel, attempt: AttemptModel)
    requires
        s.in_order(),
        action_model(s) is Upload,
        !is_success(attempt),
    ensures
        recorded(s, attempt).in_order(),
        recorded(s, attempt).report.fail_count == s.report.fail_count + 1,
        recorded(s, attempt).report.success_count == s.report.success_count,
        recorded(s, attempt).report.failed_files.last() == (
            s.files[s.attempted() as int],
            failure_reason_text(attempt).unwrap(),
        ),
        s.attempted() + 1 < s.files.len() ==> action_model(recorded(s, attempt)) == (
        ActionModel::Upload {
            index: s.attempted() + 1 as nat,
            path: s.files[s.attempted() + 1 as int],
            timeout_secs: UPLOAD_TIMEOUT_SECS,
        }),
        s.attempted() + 1 == s.files.len() ==> action_model(recorded(s, attempt)) is Finish,
{
}

/// Where the attempts on the files at even indices succeed and those on
/// the files at odd indices are refused with one and the same message, half
/// of the files, rounded up, are counted as successes, the other half as
/// failures, and the failures list exactly the files at odd indices, in
/// order, each with that message.
pub proof fn lemma_alternating_batch(
    files: Seq<Seq<char>>,
    attempts: Seq<AttemptModel>,
    message: Seq<char>,
)
    requires
        attempts.len() <= files.len(),
        forall|i: int|
            0 <= i < attempts.len() && i % 2 == 0 ==> is_success(#[trigger] attempts[i]),
        forall|i: int|
            0 <= i < attempts.len() && i % 2 == 1 ==> #[trigger] attempts[i] == Ok::<
                OutcomeModel,
                UploadErrorModel,
            >(OutcomeModel::ApplicationFailure { message }),
    ensures
        report_of(files, attempts).success_count == (attempts.len() + 1) / 2,
        report_of(files, attempts).fail_count == attempts.len() / 2,
        report_of(files, attempts).failed_files == Seq::new(
            attempts.len() / 2,
            |j: int| (files[2 * j + 1], message),
        ),
    decreases attempts.len(),
{
    if attempts.len() > 0 {
        let front = attempts.drop_last();
        assert forall|i: int| 0 <= i < front.len() && i % 2 == 0 implies is_success(
            #[trigger] front[i],
        ) by {
            assert(front[i] == attempts[i]);
        }
        assert forall|i: int| 0 <= i < front.len() && i % 2 == 1 implies #[trigger] front[i]
            == Ok::<OutcomeModel, UploadErrorModel>(
            OutcomeModel::ApplicationFailure { message },
        ) by {
            assert(front[i] == attempts[i]);
        }
        lemma_alternating_batch(files, front, message);
        let last = attempts.len() - 1;
        assert(attempts.last() == attempts[last]);
        if last % 2 == 0 {
            assert(is_success(attempts[last]));
        } else {
            assert(failure_reason_text(attempts[last]) == Some(message));
            assert(report_of(files, attempts).failed_files =~= Seq::new(
                attempts.len() / 2,
                |j: int| (files[2 * j + 1], message),
            ));
        }
    } else {
        assert(report_of(files, attempts).failed_files =~= Seq::new(
            attempts.len() / 2,
            |j: int| (files[2 * j + 1], message),
        ));
    }
}

} // verus!
