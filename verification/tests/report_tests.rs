use aw_watcher_win_vdesktop::bucket::{
    bucket_id, bucket_result, client_name_text, BucketError, BucketInfo, CreateReply,
};
use aw_watcher_win_vdesktop::config::{collector_host, select_port, DEFAULT_PORT, TESTING_PORT};
use aw_watcher_win_vdesktop::report::{
    classify, read_failure, report_result, ClientFailure, FailureSigns, ReportError,
};

#[test]
fn network_trouble_is_transient() {
    assert_eq!(classify(ClientFailure::Connect), ReportError::Transient);
    assert_eq!(classify(ClientFailure::Timeout), ReportError::Transient);
}

#[test]
fn trouble_on_the_collectors_side_is_transient() {
    assert_eq!(classify(ClientFailure::Status(500)), ReportError::Transient);
    assert_eq!(classify(ClientFailure::Status(503)), ReportError::Transient);
    assert_eq!(classify(ClientFailure::Status(599)), ReportError::Transient);
}

#[test]
fn refusal_is_fatal() {
    assert_eq!(classify(ClientFailure::Status(400)), ReportError::Fatal);
    assert_eq!(classify(ClientFailure::Status(401)), ReportError::Fatal);
    assert_eq!(classify(ClientFailure::Status(403)), ReportError::Fatal);
    assert_eq!(classify(ClientFailure::Status(404)), ReportError::Fatal);
    assert_eq!(classify(ClientFailure::Malformed), ReportError::Fatal);
}

#[test]
fn status_classes_end_where_they_should() {
    assert_eq!(classify(ClientFailure::Status(499)), ReportError::Fatal);
    assert_eq!(classify(ClientFailure::Status(600)), ReportError::Fatal);
    assert_eq!(classify(ClientFailure::Status(0)), ReportError::Fatal);
    assert_eq!(classify(ClientFailure::Status(u16::MAX)), ReportError::Fatal);
}

#[test]
fn accepted_report_is_ok() {
    assert_eq!(report_result(Ok(())), Ok(()));
}

#[test]
fn failed_report_carries_its_class() {
    assert_eq!(report_result(Err(ClientFailure::Timeout)), Err(ReportError::Transient));
    assert_eq!(report_result(Err(ClientFailure::Status(502))), Err(ReportError::Transient));
    assert_eq!(report_result(Err(ClientFailure::Status(401))), Err(ReportError::Fatal));
    assert_eq!(report_result(Err(ClientFailure::Malformed)), Err(ReportError::Fatal));
}

#[test]
fn bucket_id_is_made_from_the_hostname() {
    assert_eq!(bucket_id("laptop"), "aw-watcher-win-vdesktop_laptop");
    assert_eq!(bucket_id(""), "aw-watcher-win-vdesktop_");
    assert_eq!(bucket_id("laptop"), bucket_id("laptop"));
}

#[test]
fn bucket_description_for_a_host() {
    let info = BucketInfo::describe("laptop");
    assert_eq!(info.id(), "aw-watcher-win-vdesktop_laptop");
    assert_eq!(info.kind(), "vdestkop-name");
    assert_eq!(info.client(), "aw-watcher-win-vdestkop");
    assert_eq!(info.client(), client_name_text());
    assert_eq!(info.hostname(), "laptop");
}

#[test]
fn bucket_description_from_parts() {
    let info = BucketInfo::new("i".to_string(), "k".to_string(), "c".to_string(), "h".to_string());
    assert_eq!(info.id(), "i");
    assert_eq!(info.kind(), "k");
    assert_eq!(info.client(), "c");
    assert_eq!(info.hostname(), "h");
    assert!(info.has_id(&"i".to_string()));
    assert!(!info.has_id(&"j".to_string()));
    assert_eq!(info.duplicate(), info);
}

#[test]
fn made_bucket_is_ready() {
    assert_eq!(bucket_result(CreateReply::Created), Ok(()));
}

#[test]
fn existing_bucket_is_ready() {
    assert_eq!(bucket_result(CreateReply::AlreadyExists), Ok(()));
}

#[test]
fn any_failure_to_make_the_bucket_is_an_error() {
    for cause in [
        ClientFailure::Connect,
        ClientFailure::Timeout,
        ClientFailure::Status(500),
        ClientFailure::Status(400),
        ClientFailure::Malformed,
    ] {
        assert_eq!(bucket_result(CreateReply::Failed(cause)), Err(BucketError { cause }));
    }
}

#[test]
fn asked_port_wins() {
    assert_eq!(select_port(Some(1234), false), 1234);
    assert_eq!(select_port(Some(1234), true), 1234);
    assert_eq!(select_port(Some(0), true), 0);
}

#[test]
fn testing_port_without_an_asked_one() {
    assert_eq!(select_port(None, true), 5666);
    assert_eq!(TESTING_PORT, 5666);
}

#[test]
fn default_port_otherwise() {
    assert_eq!(select_port(None, false), 5600);
    assert_eq!(DEFAULT_PORT, 5600);
}

#[test]
fn collector_is_local() {
    assert_eq!(collector_host(), "localhost");
}

fn signs(timed_out: bool, status: Option<u16>, malformed: bool) -> FailureSigns {
    FailureSigns { timed_out, status, malformed }
}

#[test]
fn call_that_ran_out_of_time_timed_out() {
    assert_eq!(read_failure(signs(true, None, false)), ClientFailure::Timeout);
    assert_eq!(read_failure(signs(true, Some(504), false)), ClientFailure::Timeout);
    assert_eq!(read_failure(signs(true, Some(400), true)), ClientFailure::Timeout);
}

#[test]
fn answer_of_the_collector_counts_before_a_fault_in_the_request() {
    assert_eq!(read_failure(signs(false, Some(503), false)), ClientFailure::Status(503));
    assert_eq!(read_failure(signs(false, Some(400), true)), ClientFailure::Status(400));
}

#[test]
fn request_that_could_not_be_formed_is_malformed() {
    assert_eq!(read_failure(signs(false, None, true)), ClientFailure::Malformed);
}

#[test]
fn call_of_which_nothing_is_told_did_not_connect() {
    assert_eq!(read_failure(signs(false, None, false)), ClientFailure::Connect);
}

#[test]
fn signs_are_read_and_then_classified() {
    assert_eq!(classify(read_failure(signs(false, None, false))), ReportError::Transient);
    assert_eq!(classify(read_failure(signs(true, Some(401), false))), ReportError::Transient);
    assert_eq!(classify(read_failure(signs(false, Some(401), false))), ReportError::Fatal);
    assert_eq!(classify(read_failure(signs(false, None, true))), ReportError::Fatal);
}
