//! Running downloads: the life of one file fetch as a state machine, the
//! permit pool that bounds how many fetches run at once, and the slots that
//! keep one outcome per resource in the order of the resources.
//!
//! The caller performs the I/O (directories, HTTP, files) and feeds what
//! happened back in; these types decide what follows and what is reported.
use crate::client::{DownloadJob, PlannedDownload, NO_URL_MESSAGE};
use crate::error::DataGovError;
use crate::model::{copy_opt, opt_view};
use crate::text::{decimal, decimal_string, join2, join3};
use crate::ui::{DownloadFailed, DownloadFinished, DownloadProgress, DownloadStarted};
use vstd::prelude::*;

verus! {

broadcast use vstd::string::group_string_axioms;

/// The outcome of one download: the path of the saved file, or the failure.
pub type DownloadOutcome = Result<String, DataGovError>;

/// Where a file fetch stands.
#[derive(Debug, Clone, Copy, PartialEq, Eq, Structural)]
pub enum TransferPhase {
    /// Creating the file's parent directories.
    CreatingDir,
    /// Waiting for the response to the GET request.
    Requesting,
    /// Creating the output file.
    CreatingFile,
    /// Writing the body, chunk by chunk.
    Streaming,
    /// The whole body is written.
    Finished,
    /// The fetch failed; nothing more happens.
    Failed,
}

/// What the caller saw happen.
#[derive(Debug, Clone)]
pub enum TransferInput {
    DirCreated,
    DirFailed(String),
    /// The request got no response.
    RequestFailed(String),
    /// The response's status code, its reason phrase, and its declared length.
    Response { status: u16, reason: String, content_length: Option<u64> },
    FileCreated,
    FileFailed(String),
    /// One more chunk of the body, of this many bytes, was written to the file.
    ChunkWritten(u64),
    /// Reading the next chunk of the body failed.
    ChunkFailed(String),
    /// Writing a chunk to the file failed.
    WriteFailed(String),
    /// The body has no more chunks.
    BodyEnded,
}

/// The event a step reports, if any.
#[derive(Debug, Clone)]
pub enum Notice {
    Nothing,
    Started(DownloadStarted),
    Progress(DownloadProgress),
    Finished(DownloadFinished),
    Failed(DownloadFailed),
}

/// One file fetch in progress.
#[derive(Debug, Clone)]
pub struct Transfer {
    pub job: DownloadJob,
    pub phase: TransferPhase,
    /// Bytes written so far.
    pub downloaded: u64,
    /// The length the response declared, once known.
    pub total: Option<u64>,
    /// The failure, once failed.
    pub error: Option<DataGovError>,
}

/// A status code of success (2xx).
pub open spec fn is_success_status(status: u16) -> bool {
    200 <= status <= 299
}

/// The message of a fetch that got a status other than success.
pub open spec fn http_failure_message(status: u16, reason: Seq<char>, url: Seq<char>) -> Seq<char> {
    "HTTP "@ + decimal(status as nat) + " "@ + reason + " while downloading "@ + url
}

/// Bytes counted so far plus `n`, held at the largest count.
pub open spec fn add_bytes(a: u64, n: u64) -> u64 {
    if a + n > u64::MAX { u64::MAX } else { (a + n) as u64 }
}

/// `t` has failed with `e`, and `notice` reports it with the text `text`;
/// nothing else of `old` changed.
pub open spec fn fails_with(old: Transfer, t: Transfer, notice: Notice, e: DataGovError, text: Seq<char>) -> bool {
    &&& t.phase == TransferPhase::Failed
    &&& t.error == Some(e)
    &&& t.downloaded == old.downloaded
    &&& t.total == old.total
    &&& notice matches Notice::Failed(f) && f.error@ == text && opt_view(f.output_path) == Some(
        old.job.output_path@,
    ) && opt_view(f.resource_name) == opt_view(old.job.resource_name) && opt_view(f.dataset_name)
        == opt_view(old.job.dataset_name)
}

/// Only the phase moved, to `phase`, and nothing is reported.
pub open spec fn moves_to(old: Transfer, t: Transfer, notice: Notice, phase: TransferPhase) -> bool {
    &&& t.phase == phase
    &&& t.error == old.error
    &&& t.downloaded == old.downloaded
    &&& t.total == old.total
    &&& notice is Nothing
}

/// What one step of a fetch does, given what happened. Inputs that do not
/// belong to the current phase change nothing and report nothing; a finished
/// or failed fetch stays as it is.
pub open spec fn stepped(old: Transfer, input: TransferInput, t: Transfer, notice: Notice) -> bool {
    &&& t.job == old.job
    &&& match (old.phase, input) {
        (TransferPhase::CreatingDir, TransferInput::DirCreated) => moves_to(
            old,
            t,
            notice,
            TransferPhase::Requesting,
        ),
        (TransferPhase::CreatingDir, TransferInput::DirFailed(m)) => fails_with(
            old,
            t,
            notice,
            DataGovError::IoError(m),
            m@,
        ),
        (TransferPhase::Requesting, TransferInput::RequestFailed(m)) => fails_with(
            old,
            t,
            notice,
            DataGovError::HttpError(m),
            m@,
        ),
        (TransferPhase::Requesting, TransferInput::Response { status, reason, content_length }) =>
            if is_success_status(status) {
            &&& t.phase == TransferPhase::CreatingFile
            &&& t.error is None
            &&& t.downloaded == old.downloaded
            &&& t.total == content_length
            &&& notice matches Notice::Started(s) && s.url@ == old.job.url@ && s.output_path@
                == old.job.output_path@ && s.total_bytes == content_length && opt_view(
                s.resource_name,
            ) == opt_view(old.job.resource_name) && opt_view(s.dataset_name) == opt_view(
                old.job.dataset_name,
            )
        } else {
            t.error matches Some(DataGovError::DownloadError { message }) && message@
                == http_failure_message(status, reason@, old.job.url@) && fails_with(
                old,
                t,
                notice,
                t.error.unwrap(),
                http_failure_message(status, reason@, old.job.url@),
            )
        },
        (TransferPhase::CreatingFile, TransferInput::FileCreated) => moves_to(
            old,
            t,
            notice,
            TransferPhase::Streaming,
        ),
        (TransferPhase::CreatingFile, TransferInput::FileFailed(m)) => fails_with(
            old,
            t,
            notice,
            DataGovError::IoError(m),
            m@,
        ),
        (TransferPhase::Streaming, TransferInput::ChunkWritten(n)) => {
            &&& t.phase == TransferPhase::Streaming
            &&& t.error == old.error
            &&& t.downloaded == add_bytes(old.downloaded, n)
            &&& t.total == old.total
            &&& notice matches Notice::Progress(p) && p.downloaded_bytes == t.downloaded
                && p.total_bytes == old.total && p.output_path@ == old.job.output_path@
                && opt_view(p.resource_name) == opt_view(old.job.resource_name) && opt_view(
                p.dataset_name,
            ) == opt_view(old.job.dataset_name)
        },
        (TransferPhase::Streaming, TransferInput::ChunkFailed(m)) => fails_with(
            old,
            t,
            notice,
            DataGovError::HttpError(m),
            m@,
        ),
        (TransferPhase::Streaming, TransferInput::WriteFailed(m)) => fails_with(
            old,
            t,
            notice,
            DataGovError::IoError(m),
            m@,
        ),
        (TransferPhase::Streaming, TransferInput::BodyEnded) => {
            &&& t.phase == TransferPhase::Finished
            &&& t.error == old.error
            &&& t.downloaded == old.downloaded
            &&& t.total == old.total
            &&& notice matches Notice::Finished(f) && f.output_path@ == old.job.output_path@
                && opt_view(f.resource_name) == opt_view(old.job.resource_name) && opt_view(
                f.dataset_name,
            ) == opt_view(old.job.dataset_name)
        },
        _ => t == old && notice is Nothing,
    }
}

/// The outcome a fetch has come to, once finished or failed.
pub open spec fn transfer_outcome(t: Transfer) -> Option<DownloadOutcome> {
    match t.phase {
        TransferPhase::Finished => Some(Ok(t.job.output_path)),
        TransferPhase::Failed => match t.error {
            Some(e) => Some(Err(e)),
            None => None,
        },
        _ => None,
    }
}

impl Transfer {
    /// A fetch that has not started: its directories come first.
    pub fn new(job: DownloadJob) -> (r: Transfer)
        ensures
            r.job == job,
            r.phase == TransferPhase::CreatingDir,
            r.downloaded == 0,
            r.total is None,
            r.error is None,
            r.wf(),
    {
        Transfer { job, phase: TransferPhase::CreatingDir, downloaded: 0, total: None, error: None }
    }

    /// A failure is recorded exactly when the fetch has failed.
    pub open spec fn wf(&self) -> bool {
        self.phase == TransferPhase::Failed <==> self.error is Some
    }

    /// The fetch has come to its end, finished or failed.
    pub open spec fn is_done_spec(&self) -> bool {
        self.phase == TransferPhase::Finished || self.phase == TransferPhase::Failed
    }

    /// Whether the fetch has come to its end.
    pub fn is_done(&self) -> (r: bool)
        ensures
            r == self.is_done_spec(),
    {
        self.phase == TransferPhase::Finished || self.phase == TransferPhase::Failed
    }

    fn fail(&mut self, e: DataGovError, text: String) -> (r: Notice)
        ensures
            fails_with(*old(self), *final(self), r, e, text@),
            final(self).job == old(self).job,
    {
        let f = DownloadFailed {
            resource_name: copy_opt(&self.job.resource_name),
            dataset_name: copy_opt(&self.job.dataset_name),
            output_path: Some(self.job.output_path.clone()),
            error: text,
        };
        self.phase = TransferPhase::Failed;
        self.error = Some(e);
        Notice::Failed(f)
    }

    /// Takes in what happened and says what to report.
    pub fn step(&mut self, input: TransferInput) -> (r: Notice)
        requires
            old(self).wf(),
        ensures
            stepped(*old(self), input, *final(self), r),
            final(self).wf(),
    {
        match (self.phase, input) {
            (TransferPhase::CreatingDir, TransferInput::DirCreated) => {
                self.phase = TransferPhase::Requesting;
                Notice::Nothing
            },
            (TransferPhase::CreatingDir, TransferInput::DirFailed(m)) => {
                let text = m.clone();
                self.fail(DataGovError::IoError(m), text)
            },
            (TransferPhase::Requesting, TransferInput::RequestFailed(m)) => {
                let text = m.clone();
                self.fail(DataGovError::HttpError(m), text)
            },
            (TransferPhase::Requesting, TransferInput::Response { status, reason, content_length }) => {
                if 200 <= status && status <= 299 {
                    let s = DownloadStarted {
                        resource_name: copy_opt(&self.job.resource_name),
                        dataset_name: copy_opt(&self.job.dataset_name),
                        url: self.job.url.clone(),
                        output_path: self.job.output_path.clone(),
                        total_bytes: content_length,
                    };
                    self.phase = TransferPhase::CreatingFile;
                    self.total = content_length;
                    Notice::Started(s)
                } else {
                    let message = failure_message(status, reason.as_str(), self.job.url.as_str());
                    let text = message.clone();
                    self.fail(DataGovError::DownloadError { message }, text)
                }
            },
            (TransferPhase::CreatingFile, TransferInput::FileCreated) => {
                self.phase = TransferPhase::Streaming;
                Notice::Nothing
            },
            (TransferPhase::CreatingFile, TransferInput::FileFailed(m)) => {
                let text = m.clone();
                self.fail(DataGovError::IoError(m), text)
            },
            (TransferPhase::Streaming, TransferInput::ChunkWritten(n)) => {
                self.downloaded = if self.downloaded > u64::MAX - n {
                    u64::MAX
                } else {
                    self.downloaded + n
                };
                Notice::Progress(
                    DownloadProgress {
                        resource_name: copy_opt(&self.job.resource_name),
                        dataset_name: copy_opt(&self.job.dataset_name),
                        output_path: self.job.output_path.clone(),
                        downloaded_bytes: self.downloaded,
                        total_bytes: self.total,
                    },
                )
            },
            (TransferPhase::Streaming, TransferInput::ChunkFailed(m)) => {
                let text = m.clone();
                self.fail(DataGovError::HttpError(m), text)
            },
            (TransferPhase::Streaming, TransferInput::WriteFailed(m)) => {
                let text = m.clone();
                self.fail(DataGovError::IoError(m), text)
            },
            (TransferPhase::Streaming, TransferInput::BodyEnded) => {
                self.phase = TransferPhase::Finished;
                Notice::Finished(
                    DownloadFinished {
                        resource_name: copy_opt(&self.job.resource_name),
                        dataset_name: copy_opt(&self.job.dataset_name),
                        output_path: self.job.output_path.clone(),
                    },
                )
            },
            _ => Notice::Nothing,
        }
    }

    /// The outcome of a fetch that has come to its end: the saved path, or the failure.
    pub fn into_outcome(self) -> (r: Option<DownloadOutcome>)
        requires
            self.wf(),
        ensures
            r == transfer_outcome(self),
            r is Some <==> self.is_done_spec(),
    {
        match self.phase {
            TransferPhase::Finished => Some(Ok(self.job.output_path)),
            TransferPhase::Failed => match self.error {
                Some(e) => Some(Err(e)),
                None => None,
            },
            _ => None,
        }
    }
}

/// The message of a fetch that got a status other than success.
pub fn failure_message(status: u16, reason: &str, url: &str) -> (r: String)
    ensures
        r@ == http_failure_message(status, reason@, url@),
{
    let code = decimal_string(status as u64);
    let head = join3("HTTP ", code.as_str(), " ");
    let mid = join3(head.as_str(), reason, " while downloading ");
    join2(mid.as_str(), url)
}

/// The immediate outcome of a planned download that makes no request: a
/// resource without URL fails as not found. `None` for one that must be fetched.
pub fn immediate_outcome(p: &PlannedDownload) -> (r: Option<DownloadOutcome>)
    ensures
        p is NoUrl <==> r is Some,
        r matches Some(o) ==> o matches Err(DataGovError::ResourceNotFound { message })
            && message@ == NO_URL_MESSAGE@,
{
    match p {
        PlannedDownload::NoUrl { .. } => Some(Err(DataGovError::resource_not_found(NO_URL_MESSAGE))),
        PlannedDownload::Fetch(_) => None,
    }
}

/// A counting pool of permits: a fetch of a batch holds one from before its
/// request until its outcome is known, so no more than `capacity` fetches run
/// at once.
#[derive(Debug, Clone, Copy, PartialEq, Eq, Structural)]
pub struct PermitPool {
    pub capacity: usize,
    pub in_use: usize,
}

/// One operation on a permit pool: take a permit (`true`) or give one back (`false`).
pub open spec fn pool_step(p: PermitPool, acquire: bool) -> PermitPool {
    if acquire {
        if p.in_use < p.capacity {
            PermitPool { capacity: p.capacity, in_use: (p.in_use + 1) as usize }
        } else {
            p
        }
    } else {
        if p.in_use > 0 {
            PermitPool { capacity: p.capacity, in_use: (p.in_use - 1) as usize }
        } else {
            p
        }
    }
}

/// A pool after a run of operations.
pub open spec fn pool_run(p: PermitPool, ops: Seq<bool>) -> PermitPool
    decreases ops.len(),
{
    if ops.len() == 0 {
        p
    } else {
        pool_step(pool_run(p, ops.drop_last()), ops.last())
    }
}

impl PermitPool {
    /// No more permits are out than the pool has.
    pub open spec fn wf(&self) -> bool {
        self.in_use <= self.capacity
    }

    /// A pool of `capacity` permits, none taken.
    pub fn new(capacity: usize) -> (r: PermitPool)
        ensures
            r.capacity == capacity,
            r.in_use == 0,
            r.wf(),
    {
        PermitPool { capacity, in_use: 0 }
    }

    /// Takes a permit if one is free; says whether it did.
    pub fn try_acquire(&mut self) -> (r: bool)
        ensures
            r == (old(self).in_use < old(self).capacity),
            *final(self) == pool_step(*old(self), true),
    {
        if self.in_use < self.capacity {
            self.in_use = self.in_use + 1;
            true
        } else {
            false
        }
    }

    /// Gives a permit back.
    pub fn release(&mut self)
        ensures
            *final(self) == pool_step(*old(self), false),
    {
        if self.in_use > 0 {
            self.in_use = self.in_use - 1;
        }
    }
}

/// Whatever takes and gives back permits, in any order, a pool never has
/// more permits out than its capacity.
pub proof fn lemma_permits_never_exceed_capacity(p: PermitPool, ops: Seq<bool>)
    requires
        p.wf(),
    ensures
        forall|i: int| 0 <= i <= ops.len() ==> #[trigger] pool_run(p, ops.take(i)).in_use <= p.capacity,
        pool_run(p, ops).capacity == p.capacity,
    decreases ops.len(),
{
    if ops.len() > 0 {
        lemma_permits_never_exceed_capacity(p, ops.drop_last());
        assert forall|i: int| 0 <= i <= ops.len() implies #[trigger] pool_run(p, ops.take(i)).in_use
            <= p.capacity by {
            if i < ops.len() {
                assert(ops.take(i) =~= ops.drop_last().take(i));
            } else {
                assert(ops.take(i) =~= ops);
                assert(ops.drop_last().take(ops.len() - 1) =~= ops.drop_last());
            }
        }
    } else {
        assert forall|i: int| 0 <= i <= ops.len() implies #[trigger] pool_run(p, ops.take(i)).in_use
            <= p.capacity by {
            assert(ops.take(i) =~= ops);
        }
    }
}

/// One outcome per resource of a batch, in the order of the resources,
/// filled in whatever order the fetches end.
#[derive(Debug, Clone)]
pub struct BatchOutcomes {
    pub slots: Vec<Option<DownloadOutcome>>,
}

/// Slots after recording outcomes at their indexes, one after another.
pub open spec fn record_all(slots: Seq<Option<DownloadOutcome>>, recs: Seq<(int, DownloadOutcome)>) -> Seq<Option<DownloadOutcome>>
    decreases recs.len(),
{
    if recs.len() == 0 {
        slots
    } else {
        let last = recs.last();
        record_all(slots, recs.drop_last()).update(last.0, Some(last.1))
    }
}

impl BatchOutcomes {
    /// `n` empty slots.
    pub fn new(n: usize) -> (r: BatchOutcomes)
        ensures
            r.slots@ == Seq::new(n as nat, |i: int| None::<DownloadOutcome>),
    {
        let mut slots: Vec<Option<DownloadOutcome>> = Vec::new();
        let mut i: usize = 0;
        while i < n
            invariant
                i <= n,
                slots@ == Seq::new(i as nat, |k: int| None::<DownloadOutcome>),
            decreases n - i,
        {
            slots.push(None);
            i = i + 1;
            assert(slots@ =~= Seq::new(i as nat, |k: int| None::<DownloadOutcome>));
        }
        BatchOutcomes { slots }
    }

    /// Records the outcome of the resource at `index`.
    pub fn record(&mut self, index: usize, outcome: DownloadOutcome)
        requires
            index < old(self).slots@.len(),
        ensures
            final(self).slots@ == old(self).slots@.update(index as int, Some(outcome)),
    {
        self.slots.set(index, Some(outcome));
    }

    /// Whether every slot has its outcome.
    pub fn is_complete(&self) -> (r: bool)
        ensures
            r == (forall|i: int| 0 <= i < self.slots@.len() ==> #[trigger] self.slots@[i] is Some),
    {
        let mut i: usize = 0;
        while i < self.slots.len()
            invariant
                i <= self.slots@.len(),
                forall|k: int| 0 <= k < i ==> #[trigger] self.slots@[k] is Some,
            decreases self.slots@.len() - i,
        {
            if self.slots[i].is_none() {
                return false;
            }
            i = i + 1;
        }
        true
    }

    /// The outcomes, in the order of the resources.
    pub fn into_results(self) -> (r: Vec<DownloadOutcome>)
        requires
            forall|i: int| 0 <= i < self.slots@.len() ==> #[trigger] self.slots@[i] is Some,
        ensures
            r@.len() == self.slots@.len(),
            forall|i: int| 0 <= i < r@.len() ==> self.slots@[i] == Some(#[trigger] r@[i]),
    {
        let ghost all = self.slots@;
        let mut slots = self.slots;
        let mut out: Vec<DownloadOutcome> = Vec::new();
        let n = slots.len();
        while slots.len() > 0
            invariant
                n == all.len(),
                out@.len() + slots@.len() == n,
                slots@ == all.subrange(out@.len() as int, n as int),
                forall|k: int| 0 <= k < n ==> #[trigger] all[k] is Some,
                forall|k: int| 0 <= k < out@.len() ==> all[k] == Some(#[trigger] out@[k]),
            decreases slots@.len(),
        {
            let ghost i = out@.len() as int;
            let slot = slots.remove(0);
            assert(slot == all[i]);
            assert(slots@ =~= all.subrange(i + 1, n as int));
            match slot {
                Some(o) => out.push(o),
                None => {
                    assert(all[i] is Some);
                },
            }
        }
        out
    }
}

/// However the fetches of a batch interleave, each resource's outcome lands
/// in its own slot: recording outcomes at distinct indexes, in any order,
/// leaves as many slots as resources, each holding the outcome recorded for
/// its index.
pub proof fn lemma_outcomes_keep_resource_order(n: nat, recs: Seq<(int, DownloadOutcome)>)
    requires
        forall|j: int| 0 <= j < recs.len() ==> 0 <= #[trigger] recs[j].0 < n,
        forall|j: int, k: int| 0 <= j < k < recs.len() ==> #[trigger] recs[j].0 != #[trigger] recs[k].0,
    ensures
        record_all(Seq::new(n, |i: int| None::<DownloadOutcome>), recs).len() == n,
        forall|j: int| 0 <= j < recs.len() ==> record_all(Seq::new(n, |i: int| None::<DownloadOutcome>), recs)[#[trigger] recs[j].0]
            == Some(recs[j].1),
    decreases recs.len(),
{
    if recs.len() > 0 {
        let init = recs.drop_last();
        assert forall|j: int, k: int| 0 <= j < k < init.len() implies #[trigger] init[j].0 != #[trigger] init[k].0 by {
            assert(init[j] == recs[j] && init[k] == recs[k]);
        }
        assert forall|j: int| 0 <= j < init.len() implies 0 <= #[trigger] init[j].0 < n by {
            assert(init[j] == recs[j]);
        }
        lemma_outcomes_keep_resource_order(n, init);
        let last = recs.last();
        assert forall|j: int| 0 <= j < recs.len() implies record_all(Seq::new(n, |i: int| None::<DownloadOutcome>), recs)[#[trigger] recs[j].0]
            == Some(recs[j].1) by {
            if j < recs.len() - 1 {
                assert(init[j] == recs[j]);
                assert(recs[j].0 != recs[recs.len() - 1].0);
            }
        }
    }
}

} // verus!
