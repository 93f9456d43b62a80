use udl::errors::{PartFailureCause, TransferError};
use udl::upload::{
    check_local_source, PartOutcome, UploadCoordinator, UploadPhase, DEFAULT_CHUNK_SIZE,
    DEFAULT_CONCURRENCY,
};

fn coordinator(overwrite: bool, total_len: u64) -> UploadCoordinator {
    UploadCoordinator::new("demo".to_string(), overwrite, total_len, 10, 2)
}

fn part_body(part_number: u64, etag: &str) -> Vec<u8> {
    format!("{{\"partNumber\":{},\"etag\":\"{}\"}}", part_number, etag).into_bytes()
}

#[test]
fn defaults_are_documented_values() {
    assert_eq!(DEFAULT_CHUNK_SIZE, 10 * 1024 * 1024);
    assert_eq!(DEFAULT_CONCURRENCY, 5);
}

#[test]
fn existing_name_without_overwrite_is_refused() {
    let mut c = coordinator(false, 25);
    let r = c.on_stat_response(200);
    assert_eq!(r, Err(TransferError::AlreadyExists));
    assert_eq!(c.phase, UploadPhase::Aborted);
    assert_eq!(c.error, Some(TransferError::AlreadyExists));
}

#[test]
fn overwrite_proceeds_whatever_the_stat_answer() {
    for status in [200u16, 404, 500] {
        let mut c = coordinator(true, 25);
        assert_eq!(c.on_stat_response(status), Ok(()));
        assert_eq!(c.phase, UploadPhase::StartingUpload);
    }
}

#[test]
fn stat_error_status_aborts_without_overwrite() {
    let mut c = coordinator(false, 25);
    let r = c.on_stat_response(503);
    assert_eq!(r, Err(TransferError::HttpStatus { code: 503 }));
    assert_eq!(c.phase, UploadPhase::Aborted);
}

#[test]
fn start_upload_failure_aborts() {
    let mut c = coordinator(false, 25);
    assert_eq!(c.on_stat_response(404), Ok(()));
    let r = c.on_start_response(500, b"");
    assert_eq!(r, Err(TransferError::HttpStatus { code: 500 }));
    assert_eq!(c.phase, UploadPhase::Aborted);
}

#[test]
fn start_upload_with_unreadable_body_aborts() {
    let mut c = coordinator(false, 25);
    assert_eq!(c.on_stat_response(404), Ok(()));
    let r = c.on_start_response(200, b"not json at all");
    assert_eq!(r, Err(TransferError::ResponseParse));
    assert_eq!(c.phase, UploadPhase::Aborted);
}

#[test]
fn full_upload_collects_parts_in_ascending_order() {
    let mut c = coordinator(false, 25);
    assert_eq!(c.on_stat_response(404), Ok(()));
    assert_eq!(c.on_start_response(200, b"{\"uploadId\":\"sess-1\"}"), Ok(()));
    assert_eq!(c.phase, UploadPhase::UploadingParts);

    let j0 = c.next_launch().expect("first part");
    assert_eq!(j0.index, 0);
    assert_eq!(j0.part_number, 1);
    assert_eq!((j0.range.start, j0.range.end), (0, 10));
    assert_eq!(j0.upload_id, "sess-1");
    let j1 = c.next_launch().expect("second part");
    assert_eq!(j1.part_number, 2);
    // the bound of two is reached: nothing more may launch yet
    assert!(c.next_launch().is_none());

    assert_eq!(c.on_part_result(0, PartOutcome::Response { status: 200, body: part_body(1, "e0") }), Ok(()));
    assert_eq!(c.progress.bytes_transferred(), 10);

    let j2 = c.next_launch().expect("third part after one finished");
    assert_eq!(j2.part_number, 3);
    assert_eq!((j2.range.start, j2.range.end), (20, 25));

    // completion order differs from launch order
    assert_eq!(c.on_part_result(2, PartOutcome::Response { status: 200, body: part_body(3, "e2") }), Ok(()));
    assert_eq!(c.on_part_result(1, PartOutcome::Response { status: 200, body: part_body(2, "e1") }), Ok(()));
    assert_eq!(c.progress.bytes_transferred(), 25);

    assert!(c.parts_finished());
    let parts = c.conclude_parts().expect("all parts succeeded");
    assert_eq!(parts.len(), 3);
    for (i, p) in parts.iter().enumerate() {
        assert_eq!(p.part_number, i as u64 + 1);
    }
    assert_eq!(parts[0].etag, "e0");
    assert_eq!(parts[1].etag, "e1");
    assert_eq!(parts[2].etag, "e2");
    assert_eq!(c.phase, UploadPhase::Completing);

    assert_eq!(c.on_complete_response(200, b"{\"ok\":true}"), Ok(()));
    assert_eq!(c.phase, UploadPhase::Done);
}

#[test]
fn untrusted_part_number_in_answer_is_ignored() {
    let mut c = coordinator(false, 25);
    assert_eq!(c.on_stat_response(404), Ok(()));
    assert_eq!(c.on_start_response(200, b"{\"uploadId\":\"s\"}"), Ok(()));
    c.next_launch().unwrap();
    // the store echoes a wrong part number; the caller's index stays authoritative
    assert_eq!(c.on_part_result(0, PartOutcome::Response { status: 200, body: part_body(9, "e0") }), Ok(()));
    c.next_launch().unwrap();
    c.next_launch().unwrap();
    assert_eq!(c.on_part_result(1, PartOutcome::Response { status: 200, body: part_body(9, "e1") }), Ok(()));
    assert_eq!(c.on_part_result(2, PartOutcome::Response { status: 200, body: part_body(9, "e2") }), Ok(()));
    let parts = c.conclude_parts().unwrap();
    assert_eq!(parts[0].part_number, 1);
    assert_eq!(parts[1].part_number, 2);
    assert_eq!(parts[2].part_number, 3);
}

#[test]
fn one_failed_part_aborts_after_draining_the_others() {
    let mut c = coordinator(false, 25);
    assert_eq!(c.on_stat_response(404), Ok(()));
    assert_eq!(c.on_start_response(200, b"{\"uploadId\":\"s\"}"), Ok(()));
    c.next_launch().unwrap();
    c.next_launch().unwrap();
    let r = c.on_part_result(1, PartOutcome::Response { status: 500, body: Vec::new() });
    assert_eq!(
        r,
        Err(TransferError::PartTransfer {
            part_number: 2,
            cause: PartFailureCause::Status { code: 500 },
        })
    );
    // the siblings still run to completion and keep reporting
    c.next_launch().unwrap();
    assert_eq!(c.on_part_result(0, PartOutcome::Response { status: 200, body: part_body(1, "e0") }), Ok(()));
    assert_eq!(c.on_part_result(2, PartOutcome::Response { status: 200, body: part_body(3, "e2") }), Ok(()));
    assert_eq!(c.progress.bytes_transferred(), 15);
    assert!(c.parts_finished());
    // no completion call: the fan-out concludes with the first failure
    let r = c.conclude_parts();
    assert_eq!(
        r.unwrap_err(),
        TransferError::PartTransfer {
            part_number: 2,
            cause: PartFailureCause::Status { code: 500 },
        }
    );
    assert_eq!(c.phase, UploadPhase::Aborted);
}

#[test]
fn first_part_failure_wins() {
    let mut c = coordinator(false, 25);
    assert_eq!(c.on_stat_response(404), Ok(()));
    assert_eq!(c.on_start_response(200, b"{\"uploadId\":\"s\"}"), Ok(()));
    c.next_launch().unwrap();
    c.next_launch().unwrap();
    c.on_part_result(0, PartOutcome::Response { status: 502, body: Vec::new() }).unwrap_err();
    c.on_part_result(1, PartOutcome::ConnectionFailed).unwrap_err();
    c.next_launch().unwrap();
    c.on_part_result(2, PartOutcome::Response { status: 200, body: b"no".to_vec() }).unwrap_err();
    let r = c.conclude_parts();
    assert_eq!(
        r.unwrap_err(),
        TransferError::PartTransfer {
            part_number: 1,
            cause: PartFailureCause::Status { code: 502 },
        }
    );
}

#[test]
fn malformed_part_answer_is_a_part_failure() {
    let mut c = coordinator(false, 5);
    assert_eq!(c.on_stat_response(404), Ok(()));
    assert_eq!(c.on_start_response(200, b"{\"uploadId\":\"s\"}"), Ok(()));
    c.next_launch().unwrap();
    // an etag alone is not enough: the part number field must be there too
    let r = c.on_part_result(0, PartOutcome::Response { status: 200, body: b"{\"etag\":\"e\"}".to_vec() });
    assert_eq!(
        r,
        Err(TransferError::PartTransfer {
            part_number: 1,
            cause: PartFailureCause::MalformedBody,
        })
    );
    assert_eq!(c.progress.bytes_transferred(), 0);
}

#[test]
fn empty_file_completes_with_zero_parts() {
    let mut c = coordinator(false, 0);
    assert_eq!(c.on_stat_response(404), Ok(()));
    assert_eq!(c.on_start_response(200, b"{\"uploadId\":\"s\"}"), Ok(()));
    assert!(c.next_launch().is_none());
    assert!(c.parts_finished());
    let parts = c.conclude_parts().expect("nothing to upload");
    assert!(parts.is_empty());
    assert_eq!(c.on_complete_response(200, b"{}"), Ok(()));
    assert_eq!(c.phase, UploadPhase::Done);
}

#[test]
fn completion_call_failures_abort() {
    let mut c = coordinator(false, 5);
    assert_eq!(c.on_stat_response(404), Ok(()));
    assert_eq!(c.on_start_response(200, b"{\"uploadId\":\"s\"}"), Ok(()));
    c.next_launch().unwrap();
    assert_eq!(c.on_part_result(0, PartOutcome::Response { status: 200, body: part_body(1, "e") }), Ok(()));
    c.conclude_parts().unwrap();
    let r = c.on_complete_response(500, b"{}");
    assert_eq!(r, Err(TransferError::HttpStatus { code: 500 }));
    assert_eq!(c.phase, UploadPhase::Aborted);

    let mut c = coordinator(false, 5);
    assert_eq!(c.on_stat_response(404), Ok(()));
    assert_eq!(c.on_start_response(200, b"{\"uploadId\":\"s\"}"), Ok(()));
    c.next_launch().unwrap();
    assert_eq!(c.on_part_result(0, PartOutcome::Response { status: 200, body: part_body(1, "e") }), Ok(()));
    c.conclude_parts().unwrap();
    let r = c.on_complete_response(200, b"not an ack");
    assert_eq!(r, Err(TransferError::ResponseParse));
    assert_eq!(c.phase, UploadPhase::Aborted);
}

#[test]
fn local_source_must_be_an_existing_file() {
    assert_eq!(check_local_source(false, false), Err(TransferError::Io));
    assert_eq!(check_local_source(true, false), Err(TransferError::Io));
    assert_eq!(check_local_source(true, true), Ok(()));
}
