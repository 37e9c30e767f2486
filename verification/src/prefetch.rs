//! Starting a download task: parsing the URL, and making a task of what the
//! prefetch gave.
use vstd::prelude::*;
use crate::ctext::{has_no_nul, lemma_plain_ascii, or_fallback, utf8_bytes, CText};
use crate::download::{DownloadTask, DownloadTaskView, RunSlotView};
use crate::text::{utf8_lossy, utf8_lossy_text};
use crate::url_info::{parsed_url, unknown_info, url_parse, UrlInfo};

verus! {

/// Parses the URL of a download, as `url::Url::parse` does; none when it
/// refuses the text, in which case no task is made.
pub fn parse_download_url(url: &str) -> (r: Option<url::Url>)
    ensures
        r == parsed_url(url@),
{
    url_parse(url)
}

/// Parses the URL of a download given as the bytes of a C string: they are
/// decoded lossily (invalid UTF-8 becomes U+FFFD), then parsed as
/// `url::Url::parse` does; none when it refuses the text.
pub fn parse_download_url_bytes(url: &[u8]) -> (r: Option<url::Url>)
    ensures
        r == parsed_url(utf8_lossy_text(url@)),
{
    let text = utf8_lossy(url);
    url_parse(text.as_str())
}

/// How a prefetch ended.
pub enum PrefetchOutcome<T> {
    /// The file was found: the downloader's task and what it learned.
    Ready(T, UrlInfo),
    /// The prefetch failed; the UTF-8 bytes of the error's description.
    Failed(Vec<u8>),
    /// The prefetch was cancelled before it ended.
    Cancelled,
}

/// The error recorded when a prefetch failed without a usable description.
pub open spec fn prefetch_error_text() -> Seq<u8> {
    utf8_bytes("Prefetch error"@)
}

/// The task that a prefetch outcome gives, by its view.
pub open spec fn task_of_outcome<T>(outcome: PrefetchOutcome<T>) -> DownloadTaskView<T> {
    match outcome {
        PrefetchOutcome::Ready(t, info) => DownloadTaskView {
            info: info@,
            run: RunSlotView { task: Some(t), error: None, live: false },
        },
        PrefetchOutcome::Failed(m) => DownloadTaskView {
            info: unknown_info(),
            run: RunSlotView {
                task: None,
                error: Some(or_fallback(m@, prefetch_error_text())),
                live: false,
            },
        },
        PrefetchOutcome::Cancelled => DownloadTaskView {
            info: unknown_info(),
            run: RunSlotView { task: None, error: Some(prefetch_error_text()), live: false },
        },
    }
}

/// The text "Prefetch error" as a C string.
fn prefetch_error() -> (r: CText)
    ensures
        r@ == prefetch_error_text(),
{
    proof {
        reveal_strlit("Prefetch error");
        lemma_plain_ascii("Prefetch error"@);
    }
    CText::from_str_or_empty("Prefetch error")
}

impl<T> DownloadTask<T> {
    /// The task for a prefetch outcome: ready to run when the file was found,
    /// otherwise a failed task recording the error's description (or "Prefetch
    /// error" when the prefetch was cancelled or the description holds a NUL).
    pub fn from_prefetch(outcome: PrefetchOutcome<T>) -> (r: DownloadTask<T>)
        ensures
            r@ == task_of_outcome(outcome),
    {
        match outcome {
            PrefetchOutcome::Ready(t, info) => DownloadTask::new(t, info),
            PrefetchOutcome::Failed(m) => {
                let fallback = prefetch_error();
                DownloadTask::new_failed(CText::from_bytes_or(m.as_slice(), &fallback))
            },
            PrefetchOutcome::Cancelled => DownloadTask::new_failed(prefetch_error()),
        }
    }
}

/// Law: a prefetch makes a runnable task exactly when it found the file, and a
/// failed or cancelled prefetch always leaves an error to report.
pub proof fn law_prefetch_outcome<T>(outcome: PrefetchOutcome<T>)
    ensures
        task_of_outcome(outcome).run.task is Some <==> outcome is Ready,
        task_of_outcome(outcome).run.error is None <==> outcome is Ready,
{
}

/// Law: a successful prefetch makes a task that carries exactly the
/// information and the task it found, ready to run, with no error and no live
/// run; a failed prefetch makes a task that cannot run, carrying the error's
/// description (or "Prefetch error" when that holds a NUL byte) and no
/// information; so does a cancelled one, with "Prefetch error".
pub proof fn law_prefetch_task<T>(t: T, info: UrlInfo, m: Vec<u8>)
    ensures
        task_of_outcome(PrefetchOutcome::Ready(t, info)).info == info@,
        task_of_outcome(PrefetchOutcome::Ready(t, info)).run.task == Some(t),
        task_of_outcome(PrefetchOutcome::Ready(t, info)).run.error is None,
        !task_of_outcome(PrefetchOutcome::Ready(t, info)).run.live,
        task_of_outcome(PrefetchOutcome::<T>::Failed(m)).info == unknown_info(),
        task_of_outcome(PrefetchOutcome::<T>::Failed(m)).run.task is None,
        has_no_nul(m@) ==> task_of_outcome(PrefetchOutcome::<T>::Failed(m)).run.error == Some(m@),
        !has_no_nul(m@) ==> task_of_outcome(PrefetchOutcome::<T>::Failed(m)).run.error == Some(
            utf8_bytes("Prefetch error"@),
        ),
        task_of_outcome(PrefetchOutcome::<T>::Cancelled).info == unknown_info(),
        task_of_outcome(PrefetchOutcome::<T>::Cancelled).run.task is None,
        task_of_outcome(PrefetchOutcome::<T>::Cancelled).run.error == Some(
            utf8_bytes("Prefetch error"@),
        ),
{
}

} // verus!
