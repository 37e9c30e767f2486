use fast_down_c::ctext::CText;
use fast_down_c::download::{
    run_failure_message, DownloadTask, DOWNLOAD_FAILED, SUCCESS, TASK_UNAVAILABLE,
};
use fast_down_c::prefetch::{parse_download_url, parse_download_url_bytes, PrefetchOutcome};
use fast_down_c::url_info::UrlInfo;

fn ready() -> DownloadTask<u32> {
    DownloadTask::new(7, UrlInfo::default())
}

#[test]
fn ready_task_runs_once_at_a_time() {
    let mut t = ready();
    assert!(t.run.is_ready());
    assert_eq!(t.run.begin_run(), Ok(7));
    assert!(!t.run.is_ready());
    assert_eq!(t.run.begin_run(), Err(TASK_UNAVAILABLE));
    assert_eq!(t.run.finish_run(7, None), SUCCESS);
    assert!(t.run.error().is_none());
    assert_eq!(t.run.begin_run(), Ok(7));
}

#[test]
fn failed_run_records_its_message() {
    let mut t = ready();
    let task = t.run.begin_run().unwrap();
    let code = t.run.finish_run(task, Some(run_failure_message(b"Io(\"denied\")")));
    assert_eq!(code, DOWNLOAD_FAILED);
    assert_eq!(
        t.run.error().map(|e| e.content().to_vec()),
        Some(b"Download task failed: Io(\"denied\")".to_vec())
    );
    let task = t.run.begin_run().unwrap();
    assert_eq!(t.run.finish_run(task, None), SUCCESS);
    assert!(t.run.error().is_none());
}

#[test]
fn failure_message_with_nul_uses_fixed_text() {
    let m = run_failure_message(b"a\0b");
    assert_eq!(m.content(), b"Download task failed: Unkown Error");
}

#[test]
fn failed_task_never_runs() {
    let mut t: DownloadTask<u32> = DownloadTask::new_failed(CText::from_bytes_or_empty(b"boom"));
    assert_eq!(t.run.begin_run(), Err(TASK_UNAVAILABLE));
    assert_eq!(t.run.begin_run(), Err(TASK_UNAVAILABLE));
    assert_eq!(t.run.error().map(|e| e.content().to_vec()), Some(b"boom".to_vec()));
    assert_eq!(t.info.size(), 0);
    assert!(t.run.is_paused(false));
}

#[test]
fn restore_keeps_error() {
    let mut t = ready();
    let task = t.run.begin_run().unwrap();
    t.run.restore(task + 1);
    assert!(t.run.is_paused(false));
    assert_eq!(t.run.begin_run(), Ok(8));
    assert!(t.run.error().is_none());
}

#[test]
fn paused_unless_a_run_is_live() {
    let mut t = ready();
    assert!(t.run.is_paused(false));
    let task = t.run.begin_run().unwrap();
    assert!(!t.run.is_paused(false));
    assert!(t.run.is_paused(true));
    t.run.pause();
    assert!(t.run.is_paused(false));
    assert_eq!(t.run.finish_run(task, None), SUCCESS);
    assert!(t.run.is_paused(false));
    let task = t.run.begin_run().unwrap();
    assert!(!t.run.is_paused(false));
    t.run.finish_run(task, None);
    assert!(t.run.is_paused(false));
}

#[test]
fn prefetch_outcomes() {
    let ok: DownloadTask<u32> =
        DownloadTask::from_prefetch(PrefetchOutcome::Ready(1, UrlInfo::default()));
    assert!(ok.run.is_ready());
    assert!(ok.run.error().is_none());
    let failed: DownloadTask<u32> =
        DownloadTask::from_prefetch(PrefetchOutcome::Failed(b"Network error".to_vec()));
    assert!(!failed.run.is_ready());
    assert_eq!(
        failed.run.error().map(|e| e.content().to_vec()),
        Some(b"Network error".to_vec())
    );
    let nul: DownloadTask<u32> =
        DownloadTask::from_prefetch(PrefetchOutcome::Failed(b"x\0y".to_vec()));
    assert_eq!(nul.run.error().map(|e| e.content().to_vec()), Some(b"Prefetch error".to_vec()));
    let cancelled: DownloadTask<u32> = DownloadTask::from_prefetch(PrefetchOutcome::Cancelled);
    assert!(!cancelled.run.is_ready());
    assert_eq!(
        cancelled.run.error().map(|e| e.content().to_vec()),
        Some(b"Prefetch error".to_vec())
    );
}

#[test]
fn download_urls_parse_as_url_does() {
    let u = parse_download_url("https://example.com/test.zip").expect("parses");
    assert_eq!(u.as_str(), "https://example.com/test.zip");
    let v = parse_download_url("HTTP://Example.COM/a b").expect("parses");
    assert_eq!(v, url::Url::parse("HTTP://Example.COM/a b").unwrap());
    assert!(parse_download_url("not a url").is_none());
    assert!(parse_download_url("").is_none());
}

#[test]
fn c_url_bytes_are_decoded_then_parsed() {
    let u = parse_download_url_bytes(b"https://example.com/a.zip").expect("parses");
    assert_eq!(u.as_str(), "https://example.com/a.zip");
    let v = parse_download_url_bytes(b"https://example.com/\xff").expect("parses");
    assert_eq!(v, url::Url::parse("https://example.com/\u{fffd}").unwrap());
    assert!(parse_download_url_bytes(b"\xff\xfe").is_none());
}
