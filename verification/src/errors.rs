//! The error taxonomy of the transfer engine.

use vstd::prelude::*;

verus! {

/// Why a single part upload failed.
#[derive(Clone, Copy, Debug, PartialEq, Eq, Structural)]
pub enum PartFailureCause {
    /// The request never reached the store (connection failure).
    Connection,
    /// The store answered with a non-success status.
    Status { code: u16 },
    /// The store answered with a body that does not hold a part result.
    MalformedBody,
}

/// Every way a transfer command can fail. The first unrecoverable error
/// aborts the whole command; there is no retry anywhere in the engine.
#[derive(Clone, Copy, Debug, PartialEq, Eq, Structural)]
pub enum TransferError {
    /// The named remote object does not exist.
    NotFound,
    /// The target exists and overwriting was not requested.
    AlreadyExists,
    /// One numbered part upload failed; the whole upload is abandoned.
    PartTransfer { part_number: u64, cause: PartFailureCause },
    /// The store answered a sequential call with a non-success status.
    HttpStatus { code: u16 },
    /// A local file could not be used as a transfer source.
    Io,
    /// The store answered with a body the engine cannot read.
    ResponseParse,
    /// A credential or base URL is neither stored nor supplied.
    Config,
}

/// Success in the HTTP sense: any status in the 2xx class.
pub open spec fn is_success_status(code: u16) -> bool {
    200 <= code < 300
}

} // verus!
