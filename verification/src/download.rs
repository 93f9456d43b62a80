//! The download streamer: a remote object's body flowing into a local file.
//!
//! The streamer decides; the surrounding program performs. The destination is
//! checked before any network call, the answer's status is judged before any
//! byte is written, and then each received chunk is passed through unchanged,
//! in receive order, while the transferred bytes are counted.

use vstd::prelude::*;
use crate::errors::{is_success_status, TransferError};
use crate::progress::ProgressTracker;

verus! {

/// Where the streamer stands in one download attempt.
#[derive(Clone, Copy, Debug, PartialEq, Eq, Structural)]
pub enum DownloadPhase {
    /// Waiting for the store's answer to the download request.
    Requesting,
    /// Writing the body's chunks as they arrive.
    Streaming,
    /// The whole body has been written.
    Done,
    /// The download was abandoned; `error` says why.
    Aborted,
}

/// Decides whether a download may proceed onto its destination path. A
/// download never touches an existing destination unless overwriting was
/// requested; this is judged before any network call, so a refused download
/// leaves no file artifact behind.
pub fn check_destination(dest_exists: bool, overwrite: bool) -> (r: Result<(), TransferError>)
    ensures
        r is Err <==> dest_exists && !overwrite,
        r is Err ==> r == Err::<(), TransferError>(TransferError::AlreadyExists),
{
    if dest_exists && !overwrite {
        Err(TransferError::AlreadyExists)
    } else {
        Ok(())
    }
}

/// Streams one remote object into a local file. `chunks` is the sequence of
/// chunks received so far, in receive order; `written` is the exact sequence
/// of bytes handed over for writing so far.
pub struct DownloadStreamer {
    pub phase: DownloadPhase,
    pub chunks: Ghost<Seq<Seq<u8>>>,
    pub written: Ghost<Seq<u8>>,
    pub progress: ProgressTracker,
}

impl DownloadStreamer {
    /// The streamer's invariant: what is handed over for writing is exactly
    /// the received chunks, concatenated in receive order; the byte count
    /// always matches it; and nothing is written before, or after a refusal
    /// of, the store's answer.
    pub open spec fn wf(&self) -> bool {
        &&& self.written@ == self.chunks@.flatten()
        &&& self.progress.transferred == self.written@.len()
        &&& (self.phase is Requesting || self.phase is Aborted ==> self.written@.len() == 0)
    }

    /// A streamer about to issue its download request; nothing written yet.
    pub fn new() -> (r: DownloadStreamer)
        ensures
            r.wf(),
            r.phase is Requesting,
            r.chunks@ == Seq::<Seq<u8>>::empty(),
            r.written@ == Seq::<u8>::empty(),
            r.progress.transferred == 0,
    {
        proof {
            assert(Seq::<Seq<u8>>::empty().flatten() == Seq::<u8>::empty());
        }
        DownloadStreamer {
            phase: DownloadPhase::Requesting,
            chunks: Ghost(Seq::empty()),
            written: Ghost(Seq::empty()),
            progress: ProgressTracker::new(),
        }
    }

    /// Judges the store's answer before anything is written: a not-found
    /// answer means the object does not exist, any other non-success status
    /// is an error of its own, and only a success answer opens the stream.
    pub fn on_response(&mut self, status: u16) -> (r: Result<(), TransferError>)
        requires
            old(self).wf(),
            old(self).phase is Requesting,
        ensures
            final(self).wf(),
            final(self).chunks == old(self).chunks,
            final(self).written@ == old(self).written@,
            final(self).progress == old(self).progress,
            status == 404 ==> r == Err::<(), TransferError>(TransferError::NotFound),
            status != 404 && !is_success_status(status) ==> r == Err::<(), TransferError>(
                TransferError::HttpStatus { code: status },
            ),
            is_success_status(status) ==> r is Ok,
            r is Ok <==> final(self).phase is Streaming,
    {
        if status == 404 {
            self.phase = DownloadPhase::Aborted;
            Err(TransferError::NotFound)
        } else if !(200 <= status && status < 300) {
            self.phase = DownloadPhase::Aborted;
            Err(TransferError::HttpStatus { code: status })
        } else {
            self.phase = DownloadPhase::Streaming;
            Ok(())
        }
    }

    /// Takes one received chunk and hands back exactly the bytes to append
    /// to the destination file: the same bytes, in the same order, counted
    /// into the progress total.
    pub fn on_chunk(&mut self, chunk: Vec<u8>) -> (out: Vec<u8>)
        requires
            old(self).wf(),
            old(self).phase is Streaming,
            old(self).progress.transferred + chunk@.len() <= u64::MAX,
        ensures
            final(self).wf(),
            final(self).phase is Streaming,
            out == chunk,
            final(self).chunks@ == old(self).chunks@.push(chunk@),
            final(self).written@ == old(self).written@ + chunk@,
            final(self).progress.transferred == old(self).progress.transferred + chunk@.len(),
    {
        proof {
            self.chunks@.lemma_flatten_push(chunk@);
        }
        self.chunks = Ghost(self.chunks@.push(chunk@));
        self.written = Ghost(self.written@ + chunk@);
        self.progress.record(chunk.len() as u64);
        chunk
    }

    /// Marks the stream as fully consumed.
    pub fn finish(&mut self)
        requires
            old(self).wf(),
            old(self).phase is Streaming,
        ensures
            final(self).wf(),
            final(self).phase is Done,
            final(self).chunks == old(self).chunks,
            final(self).written@ == old(self).written@,
            final(self).progress == old(self).progress,
    {
        self.phase = DownloadPhase::Done;
    }
}

} // verus!
