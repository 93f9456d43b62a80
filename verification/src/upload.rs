//! The upload coordinator: a state machine driving one multipart upload.
//!
//! The coordinator decides; the surrounding program performs. It is fed the
//! store's answers as plain values (status codes, body bytes) and hands back
//! what to do next: which part to send, with which byte range and part
//! number, and when to issue the completion call. Part uploads run with a
//! fixed bound on how many are in flight at once; on a part failure the
//! remaining launched parts are still awaited (never cancelled) and no
//! completion call is issued. An empty file yields zero parts and the
//! completion call is then made with an empty part list.

use vstd::prelude::*;
use vstd::pervasive::unreached;
use vstd::pervasive::VecAdditionalExecFns;
use crate::errors::{is_success_status, PartFailureCause, TransferError};
use crate::json::{opt_string_view, parsed_part_etag, parsed_upload_id, is_json_document};
use crate::json::{read_json_ack, read_part_etag, read_upload_id};
use crate::progress::ProgressTracker;
use crate::ranges::{is_range_split, lemma_split_covers, split_ranges, sum_of_lengths, ByteRange};

verus! {

/// The chunk size one part covers: 10 MiB.
pub const DEFAULT_CHUNK_SIZE: u64 = 10 * 1024 * 1024;

/// The fixed bound on part uploads in flight at once.
pub const DEFAULT_CONCURRENCY: usize = 5;

/// Where the coordinator stands in one upload attempt.
#[derive(Clone, Copy, Debug, PartialEq, Eq, Structural)]
pub enum UploadPhase {
    /// Asking the store whether the name is already taken.
    CheckingExisting,
    /// Asking the store to open a multipart session.
    StartingUpload,
    /// Fanning part uploads out and collecting their outcomes.
    UploadingParts,
    /// Waiting for the store to acknowledge the completion call.
    Completing,
    /// The upload went through.
    Done,
    /// The upload was abandoned; `error` says why.
    Aborted,
}

/// One part upload for the surrounding program to perform: send the bytes of
/// `range` as part `part_number` of session `upload_id`.
pub struct PartJob {
    pub index: usize,
    pub part_number: u64,
    pub range: ByteRange,
    pub upload_id: String,
}

/// What one part upload came back with.
pub enum PartOutcome {
    /// The store answered, with a status and a body.
    Response { status: u16, body: Vec<u8> },
    /// The request never got an answer.
    ConnectionFailed,
}

/// One successfully uploaded part, as the completion call wants it: its
/// 1-based number and the integrity token the store returned for it.
#[derive(Clone, Debug)]
pub struct PartResult {
    pub part_number: u64,
    pub etag: String,
}

/// How many of the first `k` slots hold a collected etag.
pub open spec fn filled_prefix(res: Seq<Option<String>>, k: int) -> int
    decreases k,
{
    if k <= 0 {
        0
    } else {
        filled_prefix(res, k - 1) + if res[k - 1] is Some {
            1int
        } else {
            0int
        }
    }
}

/// The bytes of the first `k` ranges whose parts have been collected.
pub open spec fn recorded_prefix(rs: Seq<ByteRange>, res: Seq<Option<String>>, k: int) -> int
    decreases k,
{
    if k <= 0 {
        0
    } else {
        recorded_prefix(rs, res, k - 1) + if res[k - 1] is Some {
            rs[k - 1].end - rs[k - 1].start
        } else {
            0int
        }
    }
}

/// The bytes of the first `k` ranges, collected or not.
pub open spec fn sum_prefix(rs: Seq<ByteRange>, k: int) -> int
    decreases k,
{
    if k <= 0 {
        0
    } else {
        sum_prefix(rs, k - 1) + (rs[k - 1].end - rs[k - 1].start)
    }
}

proof fn lemma_filled_update(res: Seq<Option<String>>, j: int, v: String, k: int)
    requires
        0 <= j < res.len(),
        res[j] is None,
        0 <= k <= res.len(),
    ensures
        filled_prefix(res.update(j, Some(v)), k) == filled_prefix(res, k) + if k > j {
            1int
        } else {
            0int
        },
    decreases k,
{
    if k > 0 {
        lemma_filled_update(res, j, v, k - 1);
    }
}

proof fn lemma_recorded_update(
    rs: Seq<ByteRange>,
    res: Seq<Option<String>>,
    j: int,
    v: String,
    k: int,
)
    requires
        0 <= j < res.len(),
        res[j] is None,
        0 <= k <= res.len(),
    ensures
        recorded_prefix(rs, res.update(j, Some(v)), k) == recorded_prefix(rs, res, k) + if k > j {
            rs[j].end - rs[j].start
        } else {
            0int
        },
    decreases k,
{
    if k > 0 {
        lemma_recorded_update(rs, res, j, v, k - 1);
    }
}

proof fn lemma_all_empty(rs: Seq<ByteRange>, res: Seq<Option<String>>, k: int)
    requires
        0 <= k <= res.len(),
        forall|i: int| 0 <= i < res.len() ==> res[i] is None,
    ensures
        filled_prefix(res, k) == 0,
        recorded_prefix(rs, res, k) == 0,
    decreases k,
{
    if k > 0 {
        lemma_all_empty(rs, res, k - 1);
    }
}

proof fn lemma_filled_full(res: Seq<Option<String>>, k: int)
    requires
        0 <= k <= res.len(),
    ensures
        filled_prefix(res, k) <= k,
        filled_prefix(res, k) == k ==> forall|i: int| 0 <= i < k ==> (#[trigger] res[i]) is Some,
    decreases k,
{
    if k > 0 {
        lemma_filled_full(res, k - 1);
    }
}

proof fn lemma_recorded_le_sum(rs: Seq<ByteRange>, res: Seq<Option<String>>, k: int)
    requires
        0 <= k <= res.len(),
        k <= rs.len(),
        forall|i: int| 0 <= i < rs.len() ==> (#[trigger] rs[i]).start <= rs[i].end,
    ensures
        0 <= recorded_prefix(rs, res, k) <= sum_prefix(rs, k),
    decreases k,
{
    if k > 0 {
        lemma_recorded_le_sum(rs, res, k - 1);
    }
}

proof fn lemma_sum_prefix_stable(a: Seq<ByteRange>, b: Seq<ByteRange>, k: int)
    requires
        0 <= k <= a.len(),
        k <= b.len(),
        forall|i: int| 0 <= i < k ==> a[i] == b[i],
    ensures
        sum_prefix(a, k) == sum_prefix(b, k),
    decreases k,
{
    if k > 0 {
        lemma_sum_prefix_stable(a, b, k - 1);
    }
}

proof fn lemma_sum_prefix_is_sum(rs: Seq<ByteRange>)
    ensures
        sum_prefix(rs, rs.len() as int) == sum_of_lengths(rs),
    decreases rs.len(),
{
    if rs.len() > 0 {
        lemma_sum_prefix_is_sum(rs.drop_last());
        lemma_sum_prefix_stable(rs.drop_last(), rs, rs.len() - 1);
    }
}

/// Drives one upload of `total_len` bytes under the name `name`:
/// existence check, session start, bounded fan-out of the parts, and the
/// completion call.
pub struct UploadCoordinator {
    pub name: String,
    pub overwrite: bool,
    pub total_len: u64,
    pub chunk_size: u64,
    pub concurrency_bound: usize,
    pub phase: UploadPhase,
    pub upload_id: Option<String>,
    pub ranges: Vec<ByteRange>,
    /// The collected etag of each part, by part index.
    pub results: Vec<Option<String>>,
    pub launched: usize,
    pub in_flight: usize,
    pub reported: usize,
    pub succeeded: usize,
    pub failed: usize,
    pub error: Option<TransferError>,
    pub progress: ProgressTracker,
}

impl UploadCoordinator {
    /// The accounting that holds while parts are being uploaded.
    pub open spec fn parts_wf(&self) -> bool {
        &&& self.upload_id is Some
        &&& is_range_split(self.ranges@, self.total_len, self.chunk_size)
        &&& self.results@.len() == self.ranges@.len()
        &&& self.launched <= self.ranges@.len()
        &&& self.reported + self.in_flight == self.launched
        &&& self.succeeded + self.failed == self.reported
        &&& self.succeeded == filled_prefix(self.results@, self.results@.len() as int)
        &&& (self.error is Some <==> self.failed > 0)
        &&& (self.error is Some ==> self.error->0 is PartTransfer)
        &&& self.progress.transferred == recorded_prefix(
            self.ranges@,
            self.results@,
            self.results@.len() as int,
        )
    }

    /// The coordinator's invariant. In particular, never more than
    /// `concurrency_bound` parts are in flight at once.
    pub open spec fn wf(&self) -> bool {
        &&& self.chunk_size > 0
        &&& self.concurrency_bound >= 1
        &&& self.in_flight <= self.concurrency_bound
        &&& match self.phase {
            UploadPhase::CheckingExisting | UploadPhase::StartingUpload => {
                &&& self.launched == 0
                &&& self.in_flight == 0
                &&& self.reported == 0
                &&& self.succeeded == 0
                &&& self.failed == 0
                &&& self.error is None
                &&& self.progress.transferred == 0
            },
            UploadPhase::UploadingParts => self.parts_wf(),
            UploadPhase::Completing => {
                &&& self.parts_wf()
                &&& self.launched == self.ranges@.len()
                &&& self.in_flight == 0
                &&& self.error is None
            },
            UploadPhase::Done => true,
            UploadPhase::Aborted => self.error is Some,
        }
    }

    /// A coordinator about to check whether `name` is taken. The concurrency
    /// bound and the chunk size are fixed here for the whole upload.
    pub fn new(
        name: String,
        overwrite: bool,
        total_len: u64,
        chunk_size: u64,
        concurrency_bound: usize,
    ) -> (r: UploadCoordinator)
        requires
            chunk_size > 0,
            concurrency_bound >= 1,
        ensures
            r.wf(),
            r.phase is CheckingExisting,
            r.name == name,
            r.overwrite == overwrite,
            r.total_len == total_len,
            r.chunk_size == chunk_size,
            r.concurrency_bound == concurrency_bound,
            r.progress.transferred == 0,
            r.error is None,
    {
        UploadCoordinator {
            name,
            overwrite,
            total_len,
            chunk_size,
            concurrency_bound,
            phase: UploadPhase::CheckingExisting,
            upload_id: None,
            ranges: Vec::new(),
            results: Vec::new(),
            launched: 0,
            in_flight: 0,
            reported: 0,
            succeeded: 0,
            failed: 0,
            error: None,
            progress: ProgressTracker::new(),
        }
    }

    /// Decides from the existence check's status whether the upload may
    /// proceed. With overwriting requested it always proceeds; without it,
    /// only a not-found answer lets it proceed: a success answer means the
    /// name is taken, and any other answer is itself an error.
    pub fn on_stat_response(&mut self, status: u16) -> (r: Result<(), TransferError>)
        requires
            old(self).wf(),
            old(self).phase is CheckingExisting,
        ensures
            final(self).wf(),
            final(self).overwrite == old(self).overwrite,
            final(self).total_len == old(self).total_len,
            final(self).chunk_size == old(self).chunk_size,
            final(self).concurrency_bound == old(self).concurrency_bound,
            final(self).name == old(self).name,
            final(self).progress.transferred == 0,
            old(self).overwrite || status == 404 ==> r is Ok,
            !old(self).overwrite && is_success_status(status) ==> r == Err::<(), TransferError>(
                TransferError::AlreadyExists,
            ),
            !old(self).overwrite && status != 404 && !is_success_status(status) ==> r
                == Err::<(), TransferError>(TransferError::HttpStatus { code: status }),
            r is Ok <==> final(self).phase is StartingUpload,
            r is Err ==> final(self).phase is Aborted && final(self).error == Some(r->Err_0),
    {
        if self.overwrite || status == 404 {
            self.phase = UploadPhase::StartingUpload;
            Ok(())
        } else {
            let e = if 200 <= status && status < 300 {
                TransferError::AlreadyExists
            } else {
                TransferError::HttpStatus { code: status }
            };
            self.phase = UploadPhase::Aborted;
            self.error = Some(e);
            Err(e)
        }
    }

    /// Takes the answer to the start-of-upload call. A success answer must
    /// carry the session's `uploadId`; with it the file is split into ranges
    /// and the fan-out begins. Any other answer aborts the upload.
    pub fn on_start_response(&mut self, status: u16, body: &[u8]) -> (r: Result<
        (),
        TransferError,
    >)
        requires
            old(self).wf(),
            old(self).phase is StartingUpload,
        ensures
            final(self).wf(),
            final(self).overwrite == old(self).overwrite,
            final(self).total_len == old(self).total_len,
            final(self).chunk_size == old(self).chunk_size,
            final(self).concurrency_bound == old(self).concurrency_bound,
            final(self).name == old(self).name,
            !is_success_status(status) ==> r == Err::<(), TransferError>(
                TransferError::HttpStatus { code: status },
            ),
            is_success_status(status) && parsed_upload_id(body@) is None ==> r == Err::<
                (),
                TransferError,
            >(TransferError::ResponseParse),
            is_success_status(status) && parsed_upload_id(body@) is Some ==> {
                &&& r is Ok
                &&& opt_string_view(final(self).upload_id) == parsed_upload_id(body@)
                &&& is_range_split(
                    final(self).ranges@,
                    old(self).total_len,
                    old(self).chunk_size,
                )
                &&& final(self).launched == 0
                &&& final(self).progress.transferred == 0
                &&& forall|i: int|
                    0 <= i < final(self).results@.len() ==> (#[trigger] final(self).results@[i])
                        is None
            },
            r is Ok <==> final(self).phase is UploadingParts,
            r is Err ==> final(self).phase is Aborted && final(self).error == Some(r->Err_0),
    {
        if !(200 <= status && status < 300) {
            let e = TransferError::HttpStatus { code: status };
            self.phase = UploadPhase::Aborted;
            self.error = Some(e);
            return Err(e);
        }
        match read_upload_id(body) {
            None => {
                let e = TransferError::ResponseParse;
                self.phase = UploadPhase::Aborted;
                self.error = Some(e);
                Err(e)
            },
            Some(id) => {
                self.upload_id = Some(id);
                self.ranges = split_ranges(self.total_len, self.chunk_size);
                let n = self.ranges.len();
                let mut results: Vec<Option<String>> = Vec::new();
                while results.len() < n
                    invariant
                        results@.len() <= n,
                        forall|i: int| 0 <= i < results@.len() ==> (#[trigger] results@[i]) is None,
                    decreases n - results@.len(),
                {
                    results.push(None);
                }
                proof {
                    lemma_all_empty(self.ranges@, results@, results@.len() as int);
                }
                self.results = results;
                self.phase = UploadPhase::UploadingParts;
                Ok(())
            },
        }
    }

    /// Hands out the next part to send, if a part is still waiting and fewer
    /// than `concurrency_bound` parts are in flight; launches are in range
    /// order. Returns nothing when the bound is reached or no part is left.
    pub fn next_launch(&mut self) -> (r: Option<PartJob>)
        requires
            old(self).wf(),
            old(self).phase is UploadingParts,
        ensures
            final(self).wf(),
            final(self).phase is UploadingParts,
            final(self).ranges == old(self).ranges,
            final(self).results == old(self).results,
            final(self).reported == old(self).reported,
            final(self).succeeded == old(self).succeeded,
            final(self).failed == old(self).failed,
            final(self).error == old(self).error,
            final(self).progress == old(self).progress,
            final(self).upload_id == old(self).upload_id,
            final(self).name == old(self).name,
            final(self).total_len == old(self).total_len,
            final(self).chunk_size == old(self).chunk_size,
            final(self).concurrency_bound == old(self).concurrency_bound,
            final(self).overwrite == old(self).overwrite,
            old(self).launched < old(self).ranges@.len() && old(self).in_flight < old(
                self,
            ).concurrency_bound ==> {
                &&& r is Some
                &&& final(self).launched == old(self).launched + 1
                &&& final(self).in_flight == old(self).in_flight + 1
                &&& r->0.index == old(self).launched
                &&& r->0.part_number == old(self).launched + 1
                &&& r->0.range == old(self).ranges@[old(self).launched as int]
                &&& r->0.upload_id@ == old(self).upload_id->0@
            },
            !(old(self).launched < old(self).ranges@.len() && old(self).in_flight < old(
                self,
            ).concurrency_bound) ==> r is None && final(self).launched == old(self).launched
                && final(self).in_flight == old(self).in_flight,
    {
        if self.launched < self.ranges.len() && self.in_flight < self.concurrency_bound {
            let idx = self.launched;
            let range = self.ranges[idx];
            let id = match &self.upload_id {
                Some(s) => s.clone(),
                None => unreached(),
            };
            self.launched = self.launched + 1;
            self.in_flight = self.in_flight + 1;
            Some(PartJob { index: idx, part_number: (idx as u64) + 1, range, upload_id: id })
        } else {
            None
        }
    }

    /// Marks a part as failed, keeping the first error for the final report.
    fn record_part_failure(&mut self, index: usize, cause: PartFailureCause)
        requires
            old(self).wf(),
            old(self).phase is UploadingParts,
            old(self).in_flight > 0,
            index < old(self).launched,
        ensures
            final(self).wf(),
            failure_outcome(*old(self), *final(self), index as int, cause),
    {
        if self.error.is_none() {
            self.error = Some(
                TransferError::PartTransfer { part_number: (index as u64) + 1, cause },
            );
        }
        self.failed = self.failed + 1;
        self.reported = self.reported + 1;
        self.in_flight = self.in_flight - 1;
    }

    /// Takes the outcome of one launched part, identified by its index; the
    /// part number the store may echo back is never trusted. A success answer
    /// must carry the part's etag, which is collected for the completion
    /// call, and only then are the part's bytes counted as transferred. Any
    /// failure is kept (the first one wins) without stopping the others:
    /// sibling parts keep running and reporting.
    pub fn on_part_result(&mut self, index: usize, outcome: PartOutcome) -> (r: Result<
        (),
        TransferError,
    >)
        requires
            old(self).wf(),
            old(self).phase is UploadingParts,
            old(self).in_flight > 0,
            index < old(self).launched,
            old(self).results@[index as int] is None,
        ensures
            final(self).wf(),
            final(self).phase is UploadingParts,
            final(self).in_flight == old(self).in_flight - 1,
            final(self).reported == old(self).reported + 1,
            final(self).launched == old(self).launched,
            final(self).ranges == old(self).ranges,
            final(self).upload_id == old(self).upload_id,
            final(self).name == old(self).name,
            final(self).total_len == old(self).total_len,
            final(self).chunk_size == old(self).chunk_size,
            final(self).concurrency_bound == old(self).concurrency_bound,
            final(self).overwrite == old(self).overwrite,
            match outcome {
                PartOutcome::Response { status, body } => {
                    if is_success_status(status) && parsed_part_etag(body@) is Some {
                        &&& r is Ok
                        &&& final(self).results@ == old(self).results@.update(
                            index as int,
                            Some(final(self).results@[index as int]->0),
                        )
                        &&& opt_string_view(final(self).results@[index as int])
                            == parsed_part_etag(body@)
                        &&& final(self).succeeded == old(self).succeeded + 1
                        &&& final(self).failed == old(self).failed
                        &&& final(self).error == old(self).error
                        &&& final(self).progress.transferred == old(self).progress.transferred
                            + (old(self).ranges@[index as int].end - old(
                            self,
                        ).ranges@[index as int].start)
                    } else {
                        &&& r is Err
                        &&& failure_outcome(*old(self), *final(self), index as int,
                        if !is_success_status(status) {
                            PartFailureCause::Status { code: status }
                        } else {
                            PartFailureCause::MalformedBody
                        })
                    }
                },
                PartOutcome::ConnectionFailed => {
                    &&& r is Err
                    &&& failure_outcome(
                        *old(self),
                        *final(self),
                        index as int,
                        PartFailureCause::Connection,
                    )
                },
            },
    {
        proof {
            lemma_split_covers(self.ranges@, self.total_len, self.chunk_size);
        }
        match outcome {
            PartOutcome::Response { status, body } => {
                if !(200 <= status && status < 300) {
                    self.record_part_failure(index, PartFailureCause::Status { code: status });
                    return Err(TransferError::PartTransfer {
                        part_number: (index as u64) + 1,
                        cause: PartFailureCause::Status { code: status },
                    });
                }
                match read_part_etag(body.as_slice()) {
                    None => {
                        self.record_part_failure(index, PartFailureCause::MalformedBody);
                        Err(TransferError::PartTransfer {
                            part_number: (index as u64) + 1,
                            cause: PartFailureCause::MalformedBody,
                        })
                    },
                    Some(etag) => {
                        let range = self.ranges[index];
                        let len = range.length();
                        proof {
                            let n = self.results@.len() as int;
                            lemma_filled_update(self.results@, index as int, etag, n);
                            lemma_recorded_update(
                                self.ranges@,
                                self.results@,
                                index as int,
                                etag,
                                n,
                            );
                            lemma_recorded_le_sum(
                                self.ranges@,
                                self.results@.update(index as int, Some(etag)),
                                n,
                            );
                            lemma_sum_prefix_is_sum(self.ranges@);
                        }
                        self.results.set(index, Some(etag));
                        self.progress.record(len);
                        self.succeeded = self.succeeded + 1;
                        self.reported = self.reported + 1;
                        self.in_flight = self.in_flight - 1;
                        Ok(())
                    },
                }
            },
            PartOutcome::ConnectionFailed => {
                self.record_part_failure(index, PartFailureCause::Connection);
                Err(TransferError::PartTransfer {
                    part_number: (index as u64) + 1,
                    cause: PartFailureCause::Connection,
                })
            },
        }
    }

    /// Whether every part has been launched and every outcome has arrived;
    /// only then may the fan-out be concluded. This is how the drain policy
    /// shows itself: even after a failure, the coordinator waits for every
    /// launched part before surfacing the error.
    pub fn parts_finished(&self) -> (r: bool)
        requires
            self.wf(),
            self.phase is UploadingParts,
        ensures
            r == (self.launched == self.ranges@.len() && self.in_flight == 0),
    {
        self.launched == self.ranges.len() && self.in_flight == 0
    }

    /// Concludes the fan-out once every launched part has reported. If any
    /// part failed, the upload aborts with the first failure and no
    /// completion call is made. Otherwise every part succeeded, and the
    /// completion list is returned: exactly the collected parts, one per
    /// range, in ascending part-number order.
    pub fn conclude_parts(&mut self) -> (r: Result<Vec<PartResult>, TransferError>)
        requires
            old(self).wf(),
            old(self).phase is UploadingParts,
            old(self).launched == old(self).ranges@.len(),
            old(self).in_flight == 0,
        ensures
            final(self).wf(),
            final(self).ranges == old(self).ranges,
            final(self).results == old(self).results,
            final(self).progress == old(self).progress,
            final(self).name == old(self).name,
            final(self).upload_id == old(self).upload_id,
            old(self).error is Some ==> r == Err::<Vec<PartResult>, TransferError>(
                old(self).error->0,
            ) && final(self).phase is Aborted,
            old(self).error is None ==> {
                &&& r is Ok
                &&& final(self).phase is Completing
                &&& r->Ok_0@.len() == old(self).ranges@.len()
                &&& forall|i: int|
                    0 <= i < r->Ok_0@.len() ==> (#[trigger] r->Ok_0@[i]).part_number == i + 1
                        && old(self).results@[i] == Some(r->Ok_0@[i].etag)
            },
    {
        match self.error {
            Some(e) => {
                self.phase = UploadPhase::Aborted;
                Err(e)
            },
            None => {
                proof {
                    lemma_filled_full(self.results@, self.results@.len() as int);
                }
                let mut parts: Vec<PartResult> = Vec::new();
                let mut i: usize = 0;
                while i < self.results.len()
                    invariant
                        i <= self.results@.len(),
                        parts@.len() == i,
                        forall|j: int| 0 <= j < self.results@.len() ==> (#[trigger] self.results@[j]) is Some,
                        forall|j: int|
                            0 <= j < i as int ==> (#[trigger] parts@[j]).part_number == j + 1
                                && self.results@[j] == Some(parts@[j].etag),
                    decreases self.results@.len() - i,
                {
                    let etag = match &self.results[i] {
                        Some(s) => s.clone(),
                        None => unreached(),
                    };
                    parts.push(PartResult { part_number: (i as u64) + 1, etag });
                    i = i + 1;
                }
                self.phase = UploadPhase::Completing;
                Ok(parts)
            },
        }
    }

    /// Takes the store's answer to the completion call: a success status
    /// carrying some JSON acknowledgement finishes the upload; anything else
    /// aborts it, with the session left behind on the remote side.
    pub fn on_complete_response(&mut self, status: u16, body: &[u8]) -> (r: Result<
        (),
        TransferError,
    >)
        requires
            old(self).wf(),
            old(self).phase is Completing,
        ensures
            final(self).wf(),
            final(self).progress == old(self).progress,
            !is_success_status(status) ==> r == Err::<(), TransferError>(
                TransferError::HttpStatus { code: status },
            ),
            is_success_status(status) && !is_json_document(body@) ==> r == Err::<
                (),
                TransferError,
            >(TransferError::ResponseParse),
            is_success_status(status) && is_json_document(body@) ==> r is Ok,
            r is Ok <==> final(self).phase is Done,
            r is Err ==> final(self).phase is Aborted && final(self).error == Some(r->Err_0),
    {
        if !(200 <= status && status < 300) {
            let e = TransferError::HttpStatus { code: status };
            self.phase = UploadPhase::Aborted;
            self.error = Some(e);
            return Err(e);
        }
        if !read_json_ack(body) {
            let e = TransferError::ResponseParse;
            self.phase = UploadPhase::Aborted;
            self.error = Some(e);
            return Err(e);
        }
        self.phase = UploadPhase::Done;
        Ok(())
    }

    /// The law of bounded fan-out: a well-formed coordinator never has more
    /// than its fixed bound of part uploads in flight, whatever the file
    /// size.
    pub proof fn lemma_bounded_in_flight(&self)
        requires
            self.wf(),
        ensures
            self.in_flight <= self.concurrency_bound,
    {
    }
}

/// What holds after a part failure is recorded: counters move by one, the
/// collected etags and the progress stay, and the first failure is kept.
pub open spec fn failure_outcome(
    pre: UploadCoordinator,
    post: UploadCoordinator,
    index: int,
    cause: PartFailureCause,
) -> bool {
    post == UploadCoordinator {
        in_flight: (pre.in_flight - 1) as usize,
        reported: (pre.reported + 1) as usize,
        failed: (pre.failed + 1) as usize,
        error: if pre.error is Some {
            pre.error
        } else {
            Some(TransferError::PartTransfer { part_number: (index + 1) as u64, cause })
        },
        ..pre
    }
}

/// Checks that a local path can serve as an upload source: it must exist and
/// be a file rather than a directory.
pub fn check_local_source(found: bool, is_file: bool) -> (r: Result<(), TransferError>)
    ensures
        r is Ok <==> found && is_file,
        r is Err ==> r == Err::<(), TransferError>(TransferError::Io),
{
    if found && is_file {
        Ok(())
    } else {
        Err(TransferError::Io)
    }
}

} // verus!
