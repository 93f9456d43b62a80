use udl::download::{check_destination, DownloadPhase, DownloadStreamer};
use udl::errors::TransferError;

#[test]
fn existing_destination_without_overwrite_is_refused() {
    assert_eq!(check_destination(true, false), Err(TransferError::AlreadyExists));
    assert_eq!(check_destination(true, true), Ok(()));
    assert_eq!(check_destination(false, false), Ok(()));
    assert_eq!(check_destination(false, true), Ok(()));
}

#[test]
fn not_found_answer_writes_nothing() {
    let mut s = DownloadStreamer::new();
    assert_eq!(s.on_response(404), Err(TransferError::NotFound));
    assert_eq!(s.phase, DownloadPhase::Aborted);
    assert_eq!(s.progress.bytes_transferred(), 0);
}

#[test]
fn error_status_writes_nothing() {
    let mut s = DownloadStreamer::new();
    assert_eq!(s.on_response(503), Err(TransferError::HttpStatus { code: 503 }));
    assert_eq!(s.phase, DownloadPhase::Aborted);
    assert_eq!(s.progress.bytes_transferred(), 0);
}

#[test]
fn chunks_pass_through_unchanged_and_in_order() {
    let mut s = DownloadStreamer::new();
    assert_eq!(s.on_response(200), Ok(()));
    assert_eq!(s.phase, DownloadPhase::Streaming);

    let out1 = s.on_chunk(vec![1, 2, 3]);
    assert_eq!(out1, vec![1, 2, 3]);
    let out2 = s.on_chunk(Vec::new());
    assert!(out2.is_empty());
    let out3 = s.on_chunk(vec![4, 5]);
    assert_eq!(out3, vec![4, 5]);
    assert_eq!(s.progress.bytes_transferred(), 5);

    s.finish();
    assert_eq!(s.phase, DownloadPhase::Done);
    assert_eq!(s.progress.bytes_transferred(), 5);
}
