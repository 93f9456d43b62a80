//! Decisions of the remaining object operations: delete and list.

use vstd::prelude::*;
use crate::errors::{is_success_status, TransferError};
use crate::json::{list_entries_view, parsed_listing, read_listing, ListEntry};

verus! {

/// Judges the existence check that precedes a delete: a not-found answer
/// means there is nothing to delete; any other answer lets the delete call
/// go ahead.
pub fn delete_precheck(status: u16) -> (r: Result<(), TransferError>)
    ensures
        r is Err <==> status == 404,
        r is Err ==> r == Err::<(), TransferError>(TransferError::NotFound),
{
    if status == 404 {
        Err(TransferError::NotFound)
    } else {
        Ok(())
    }
}

/// Judges the store's answer to the delete call itself.
pub fn on_delete_response(status: u16) -> (r: Result<(), TransferError>)
    ensures
        r is Ok <==> is_success_status(status),
        r is Err ==> r == Err::<(), TransferError>(TransferError::HttpStatus { code: status }),
{
    if 200 <= status && status < 300 {
        Ok(())
    } else {
        Err(TransferError::HttpStatus { code: status })
    }
}

/// Turns the answer to the list call into the listed entries: a non-success
/// status is an error, a success answer must hold a well-formed listing, and
/// the entries come out exactly as the body holds them.
pub fn on_list_response(status: u16, body: &[u8]) -> (r: Result<Vec<ListEntry>, TransferError>)
    ensures
        !is_success_status(status) ==> r == Err::<Vec<ListEntry>, TransferError>(
            TransferError::HttpStatus { code: status },
        ),
        is_success_status(status) && parsed_listing(body@) is None ==> r == Err::<
            Vec<ListEntry>,
            TransferError,
        >(TransferError::ResponseParse),
        is_success_status(status) && parsed_listing(body@) is Some ==> r is Ok && Some(
            list_entries_view(r->Ok_0@),
        ) == parsed_listing(body@),
{
    if !(200 <= status && status < 300) {
        return Err(TransferError::HttpStatus { code: status });
    }
    match read_listing(body) {
        None => Err(TransferError::ResponseParse),
        Some(entries) => Ok(entries),
    }
}

} // verus!
