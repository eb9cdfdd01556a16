use feed_mirror::download::{
    verdict, DownloadJob, JobAction, LocalRecord, ResponseHead, Stage, Verdict, NOT_MODIFIED,
};
use feed_mirror::report::{Failure, FailureKind, Outcome};

fn head(status: u16, last_modified: Option<&str>, content_length: Option<u64>) -> ResponseHead {
    ResponseHead { status, last_modified: last_modified.map(|s| s.to_string()), content_length }
}

fn requested(modified_ms: Option<i64>) -> DownloadJob {
    let mut job = DownloadJob::new();
    job.local(LocalRecord { modified_ms });
    job
}

fn failed_as(kind: FailureKind, detail: &str) -> Outcome {
    Outcome::Failed(Failure { kind, detail: detail.to_string() })
}

fn finish_of(job: &DownloadJob) -> Outcome {
    match job.action() {
        JobAction::Finish { outcome } => outcome,
        other => panic!("job has not ended: {:?}", other),
    }
}

#[test]
fn status_verdicts() {
    assert_eq!(NOT_MODIFIED, 304);
    assert_eq!(verdict(304), Verdict::Current);
    assert_eq!(verdict(200), Verdict::Store);
    assert_eq!(verdict(206), Verdict::Store);
    assert_eq!(verdict(299), Verdict::Store);
    for status in [0u16, 100, 199, 300, 301, 303, 305, 400, 404, 500, 503, 999, u16::MAX] {
        assert_eq!(verdict(status), Verdict::Refused);
    }
}

#[test]
fn new_job_looks_at_the_local_file_first() {
    let job = DownloadJob::new();
    assert_eq!(job.stage(), Stage::Probing);
    assert_eq!(job.action(), JobAction::Stat);
    assert!(!job.holds_file());
    assert_eq!(job.outcome(), None);
}

#[test]
fn missing_file_asks_since_the_epoch() {
    let job = requested(None);
    assert_eq!(job.stage(), Stage::Requesting);
    assert_eq!(job.action(), JobAction::Get { since: "Thu, 01 Jan 1970 00:00:00 GMT".to_string() });
}

#[test]
fn existing_file_asks_since_its_mtime() {
    let job = requested(Some(1_424_301_369_250));
    assert_eq!(
        job.action(),
        JobAction::Get { since: "Wed, 18 Feb 2015 23:16:09 GMT".to_string() }
    );
}

#[test]
fn local_time_without_date_text_fails_the_item() {
    let job = requested(Some(i64::MAX));
    assert_eq!(job.stage(), Stage::Done);
    assert_eq!(finish_of(&job), failed_as(FailureKind::LocalTime, ""));
    let job = requested(Some(-62_167_219_200_001));
    assert_eq!(job.outcome(), Some(failed_as(FailureKind::LocalTime, "")));
}

#[test]
fn not_modified_ends_as_unchanged_without_a_write() {
    let mut job = requested(Some(1_424_301_369_000));
    job.response(&head(304, None, None), 5);
    assert_eq!(job.stage(), Stage::Done);
    assert_eq!(finish_of(&job), Outcome::Unchanged);
    assert!(!job.holds_file());
}

#[test]
fn other_status_fails_with_the_status() {
    for status in [404u16, 500, 301, 100] {
        let mut job = requested(None);
        job.response(&head(status, None, Some(10)), 5);
        assert_eq!(finish_of(&job), failed_as(FailureKind::Status(status), ""));
        assert!(!job.holds_file());
    }
}

#[test]
fn transport_failure_fails_the_item() {
    let mut job = requested(None);
    job.failed("timed out".to_string());
    assert_eq!(finish_of(&job), failed_as(FailureKind::Request, "timed out"));
}

#[test]
fn successful_download_takes_every_step_in_order() {
    let mut job = requested(None);
    job.response(&head(200, Some("Wed, 18 Feb 2015 23:16:09 GMT"), Some(1234)), 99);
    assert_eq!(job.action(), JobAction::MakeDir);
    job.succeeded();
    assert_eq!(job.action(), JobAction::Create);
    assert!(!job.holds_file());
    job.succeeded();
    assert_eq!(job.action(), JobAction::Reserve { len: 1234 });
    assert!(job.holds_file());
    job.succeeded();
    assert_eq!(job.action(), JobAction::Copy);
    job.succeeded();
    assert_eq!(job.action(), JobAction::Release);
    assert!(job.holds_file());
    job.succeeded();
    assert_eq!(job.action(), JobAction::Stamp { mtime_ms: 1_424_301_369_000 });
    assert!(!job.holds_file());
    assert_eq!(job.outcome(), None);
    job.succeeded();
    assert_eq!(job.stage(), Stage::Done);
    assert_eq!(finish_of(&job), Outcome::Downloaded);
    assert_eq!(job.outcome(), Some(Outcome::Downloaded));
}

#[test]
fn no_declared_length_skips_the_reservation() {
    let mut job = requested(None);
    job.response(&head(200, None, None), 99);
    job.succeeded();
    job.succeeded();
    assert_eq!(job.action(), JobAction::Copy);
    assert!(job.holds_file());
}

#[test]
fn missing_last_modified_stamps_the_time_of_arrival() {
    for header in [None, Some("not a date")] {
        let mut job = requested(None);
        job.response(&head(200, header, None), 1_700_000_000_123);
        job.succeeded();
        job.succeeded();
        job.succeeded();
        job.succeeded();
        assert_eq!(job.action(), JobAction::Stamp { mtime_ms: 1_700_000_000_123 });
    }
}

#[test]
fn last_modified_without_date_text_stamps_the_time_of_arrival() {
    let mut job = requested(None);
    job.response(&head(200, Some("Sat, 01 Jan 10000 00:00:00 +0000"), None), 1_700_000_000_123);
    job.succeeded();
    job.succeeded();
    job.succeeded();
    job.succeeded();
    assert_eq!(job.action(), JobAction::Stamp { mtime_ms: 1_700_000_000_123 });
    // The stamp can be stated by the next job.
    let next = requested(Some(1_700_000_000_123));
    assert_eq!(next.action(), JobAction::Get { since: "Tue, 14 Nov 2023 22:13:20 GMT".to_string() });
}

#[test]
fn failed_reservation_and_failed_stamp_do_no_harm() {
    let mut job = requested(None);
    job.response(&head(200, None, Some(7)), 99);
    job.succeeded();
    job.succeeded();
    job.failed("no space".to_string());
    assert_eq!(job.action(), JobAction::Copy);
    job.succeeded();
    job.succeeded();
    assert_eq!(job.action(), JobAction::Stamp { mtime_ms: 99 });
    job.failed("not permitted".to_string());
    assert_eq!(finish_of(&job), Outcome::Downloaded);
}

#[test]
fn directory_failure_fails_the_item() {
    let mut job = requested(None);
    job.response(&head(200, None, None), 99);
    job.failed("read-only".to_string());
    assert_eq!(finish_of(&job), failed_as(FailureKind::CreateDir, "read-only"));
    assert!(!job.holds_file());
}

#[test]
fn file_creation_failure_fails_the_item() {
    let mut job = requested(None);
    job.response(&head(200, None, None), 99);
    job.succeeded();
    job.failed("denied".to_string());
    assert_eq!(finish_of(&job), failed_as(FailureKind::CreateFile, "denied"));
    assert!(!job.holds_file());
}

#[test]
fn write_failure_releases_the_file_before_it_is_reported() {
    let mut job = requested(None);
    job.response(&head(200, None, None), 99);
    job.succeeded();
    job.succeeded();
    job.failed("disk full".to_string());
    assert_eq!(job.action(), JobAction::Release);
    assert!(job.holds_file());
    assert_eq!(job.outcome(), None);
    job.succeeded();
    assert_eq!(finish_of(&job), failed_as(FailureKind::Write, "disk full"));
    assert!(!job.holds_file());
}

#[test]
fn write_failure_outlives_a_failed_release() {
    let mut job = requested(None);
    job.response(&head(200, None, None), 99);
    job.succeeded();
    job.succeeded();
    job.failed("disk full".to_string());
    job.failed("flush failed too".to_string());
    assert_eq!(finish_of(&job), failed_as(FailureKind::Write, "disk full"));
    assert!(!job.holds_file());
}

#[test]
fn flush_failure_fails_the_item() {
    let mut job = requested(None);
    job.response(&head(200, None, None), 99);
    job.succeeded();
    job.succeeded();
    job.succeeded();
    job.failed("io error".to_string());
    assert_eq!(finish_of(&job), failed_as(FailureKind::Flush, "io error"));
    assert!(!job.holds_file());
}

#[test]
fn ended_job_ignores_every_event() {
    let mut job = requested(None);
    job.response(&head(304, None, None), 99);
    job.local(LocalRecord { modified_ms: Some(1) });
    job.response(&head(200, None, None), 99);
    job.succeeded();
    job.failed("late".to_string());
    assert_eq!(job.stage(), Stage::Done);
    assert_eq!(finish_of(&job), Outcome::Unchanged);
}

#[test]
fn events_out_of_turn_are_ignored() {
    let mut job = DownloadJob::new();
    job.succeeded();
    job.failed("early".to_string());
    job.response(&head(200, None, None), 99);
    assert_eq!(job.stage(), Stage::Probing);
    job.local(LocalRecord { modified_ms: None });
    job.local(LocalRecord { modified_ms: Some(1_000) });
    job.succeeded();
    assert_eq!(job.action(), JobAction::Get { since: "Thu, 01 Jan 1970 00:00:00 GMT".to_string() });
    job.response(&head(200, None, None), 99);
    job.response(&head(304, None, None), 99);
    job.local(LocalRecord { modified_ms: None });
    assert_eq!(job.action(), JobAction::MakeDir);
}
