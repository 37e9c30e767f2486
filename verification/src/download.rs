//! The state of a download task between runs: the prefetched task (absent
//! while a run holds it, or when the prefetch failed), the file information,
//! the error of the last prefetch or run, and whether a run is going on
//! unpaused.
//!
//! The binding layer performs each run; it takes the task with `begin_run`,
//! drives the download, and hands the task and the outcome back with
//! `finish_run`. It pauses a run with `pause` (and stops the download by its
//! run token); whether the task is cancelled it reads from its cancellation
//! token, which other handles of that token may cancel at any time.
use vstd::prelude::*;
use crate::ctext::{append_bytes, has_no_nul, lemma_plain_ascii, or_fallback, utf8_bytes, CText};
use crate::url_info::{unknown_info, UrlInfo, UrlInfoView};

verus! {

/// Returned when a run succeeded.
pub const SUCCESS: i32 = 0;

/// Returned when an argument was missing.
pub const INVALID_ARGUMENT: i32 = -1;

/// Returned when there is no task to run: the prefetch failed, or a run is
/// going on.
pub const TASK_UNAVAILABLE: i32 = -2;

/// Returned when the run failed.
pub const DOWNLOAD_FAILED: i32 = -3;

/// The run state of a download task: the prefetched task (absent while a
/// run holds it, or when the prefetch failed), the error of the prefetch or
/// of the last run, and whether a run is going on unpaused.
pub struct RunSlot<T> {
    task: Option<T>,
    error: Option<CText>,
    live: bool,
}

/// A `RunSlot` taken by its view.
pub struct RunSlotView<T> {
    pub task: Option<T>,
    pub error: Option<Seq<u8>>,
    /// A run holds the task and was not paused.
    pub live: bool,
}

impl<T> View for RunSlot<T> {
    type V = RunSlotView<T>;

    closed spec fn view(&self) -> RunSlotView<T> {
        RunSlotView {
            task: self.task,
            error: match self.error {
                Some(e) => Some(e@),
                None => None,
            },
            live: self.live,
        }
    }
}

/// A download task: what the prefetch learned about the file, which the C
/// caller may edit, and the run state.
pub struct DownloadTask<T> {
    pub info: UrlInfo,
    pub run: RunSlot<T>,
}

/// A `DownloadTask` taken by its view.
pub struct DownloadTaskView<T> {
    pub info: UrlInfoView,
    pub run: RunSlotView<T>,
}

impl<T> View for DownloadTask<T> {
    type V = DownloadTaskView<T>;

    open spec fn view(&self) -> DownloadTaskView<T> {
        DownloadTaskView { info: self.info@, run: self.run@ }
    }
}

/// State and result of asking to start a run: the task is handed out, its
/// place left empty and the run is live; when there is none,
/// `TASK_UNAVAILABLE` and no change.
pub open spec fn begin_step<T>(s: RunSlotView<T>) -> (RunSlotView<T>, Result<T, i32>) {
    match s.task {
        Some(t) => (RunSlotView { task: None, live: true, ..s }, Ok(t)),
        None => (s, Err(TASK_UNAVAILABLE)),
    }
}

/// State and code after a run: the task is back in place, the run is over,
/// and the error is the run's failure message, or none after a success.
pub open spec fn finish_step<T>(s: RunSlotView<T>, task: T, failure: Option<Seq<u8>>) -> (
    RunSlotView<T>,
    i32,
) {
    (
        RunSlotView { task: Some(task), error: failure, live: false },
        if failure is None {
            SUCCESS
        } else {
            DOWNLOAD_FAILED
        },
    )
}

/// State after a pause: no run is live.
pub open spec fn pause_step<T>(s: RunSlotView<T>) -> RunSlotView<T> {
    RunSlotView { live: false, ..s }
}

/// Whether the task reads as paused, given whether it was cancelled: a
/// cancelled task is paused, and so is one with no live run.
pub open spec fn paused<T>(s: RunSlotView<T>, cancelled: bool) -> bool {
    cancelled || !s.live
}

/// The message of a failed run: "Download task failed: " and the error's
/// description, or a fixed text when that holds a NUL byte.
pub open spec fn run_failure_text(detail: Seq<u8>) -> Seq<u8> {
    or_fallback(
        utf8_bytes("Download task failed: "@) + detail,
        utf8_bytes("Download task failed: Unkown Error"@),
    )
}

/// The message of a failed run, from the description of the downloader's error.
pub fn run_failure_message(detail: &[u8]) -> (r: CText)
    ensures
        r@ == run_failure_text(detail@),
{
    let mut text: Vec<u8> = Vec::new();
    append_bytes(&mut text, "Download task failed: ".as_bytes());
    append_bytes(&mut text, detail);
    let fallback = CText::from_str_or_empty("Download task failed: Unkown Error");
    proof {
        reveal_strlit("Download task failed: Unkown Error");
        lemma_plain_ascii("Download task failed: Unkown Error"@);
    }
    CText::from_bytes_or(text.as_slice(), &fallback)
}

impl<T> RunSlot<T> {
    /// While the task is in place no run is going on.
    #[verifier::type_invariant]
    spec fn idle_when_task_present(&self) -> bool {
        self.task is Some ==> !self.live
    }

    /// A task ready to run; no run is going on.
    pub fn ready(task: T) -> (r: RunSlot<T>)
        ensures
            r@ == (RunSlotView { task: Some(task), error: None, live: false }),
    {
        RunSlot { task: Some(task), error: None, live: false }
    }

    /// A task whose prefetch failed with `error`; it can never run.
    pub fn failed(error: CText) -> (r: RunSlot<T>)
        ensures
            r@ == (RunSlotView::<T> { task: None, error: Some(error@), live: false }),
    {
        RunSlot { task: None, error: Some(error), live: false }
    }

    /// The error of the prefetch or of the last run, if any.
    pub fn error(&self) -> (r: Option<&CText>)
        ensures
            match r {
                Some(e) => self@.error == Some(e@),
                None => self@.error is None,
            },
    {
        self.error.as_ref()
    }

    /// Whether a run can start now.
    pub fn is_ready(&self) -> (r: bool)
        ensures
            r == self@.task is Some,
    {
        self.task.is_some()
    }

    /// Whether the task reads as paused, given whether its cancellation token
    /// is cancelled.
    pub fn is_paused(&self, cancelled: bool) -> (r: bool)
        ensures
            r == paused(self@, cancelled),
    {
        cancelled || !self.live
    }

    /// Takes the task out for a run, which becomes live; `TASK_UNAVAILABLE`
    /// when the prefetch failed or another run holds it.
    pub fn begin_run(&mut self) -> (r: Result<T, i32>)
        ensures
            (final(self)@, r) == begin_step(old(self)@),
    {
        proof {
            use_type_invariant(&*self);
        }
        if self.task.is_none() {
            return Err(TASK_UNAVAILABLE);
        }
        let mut slot = RunSlot { task: None, error: None, live: true };
        std::mem::swap(&mut slot, self);
        let RunSlot { task, error, live: _ } = slot;
        *self = RunSlot { task: None, error, live: true };
        match task {
            Some(t) => Ok(t),
            None => Err(TASK_UNAVAILABLE),
        }
    }

    /// Pauses the live run, if any.
    pub fn pause(&mut self)
        ensures
            final(self)@ == pause_step(old(self)@),
    {
        proof {
            use_type_invariant(&*self);
        }
        self.live = false;
    }

    /// Puts the task back after a run that ended with `failure` (none on
    /// success), records that as the task's error, and gives the run's code.
    pub fn finish_run(&mut self, task: T, failure: Option<CText>) -> (r: i32)
        ensures
            (final(self)@, r) == finish_step(
                old(self)@,
                task,
                match failure {
                    Some(e) => Some(e@),
                    None => None,
                },
            ),
    {
        let code = if failure.is_some() {
            DOWNLOAD_FAILED
        } else {
            SUCCESS
        };
        self.live = false;
        self.task = Some(task);
        self.error = failure;
        code
    }

    /// Puts a task taken with `begin_run` back without running it; the error
    /// is kept.
    pub fn restore(&mut self, task: T)
        ensures
            final(self)@ == (RunSlotView { task: Some(task), live: false, ..old(self)@ }),
    {
        self.live = false;
        self.task = Some(task);
    }
}

impl<T> DownloadTask<T> {
    /// A task ready to run, with the information its prefetch found.
    pub fn new(task: T, info: UrlInfo) -> (r: DownloadTask<T>)
        ensures
            r@ == (DownloadTaskView {
                info: info@,
                run: RunSlotView { task: Some(task), error: None, live: false },
            }),
    {
        DownloadTask { info, run: RunSlot::ready(task) }
    }

    /// A task whose prefetch failed with `error`: it has no information and
    /// can never run.
    pub fn new_failed(error: CText) -> (r: DownloadTask<T>)
        ensures
            r@ == (DownloadTaskView::<T> {
                info: unknown_info(),
                run: RunSlotView { task: None, error: Some(error@), live: false },
            }),
    {
        DownloadTask { info: UrlInfo::default(), run: RunSlot::failed(error) }
    }
}

/// Law: while a run holds the task, another start is refused with
/// `TASK_UNAVAILABLE` and changes nothing.
pub proof fn law_no_second_start<T>(s: RunSlotView<T>)
    requires
        s.task is Some,
    ensures
        begin_step(begin_step(s).0).1 == Err::<T, i32>(TASK_UNAVAILABLE),
        begin_step(begin_step(s).0).0 == begin_step(s).0,
{
}

/// Law: a run gives the task back, so a later start hands out the same task
/// again (downloads resume); the error is that of the last run.
pub proof fn law_run_restores_task<T>(s: RunSlotView<T>, failure: Option<Seq<u8>>)
    requires
        s.task is Some,
    ensures
        ({
            let (running, taken) = begin_step(s);
            let (after, code) = finish_step(running, taken->Ok_0, failure);
            &&& begin_step(after).1 == Ok::<T, i32>(s.task->Some_0)
            &&& after.error == failure
            &&& (code == SUCCESS <==> failure is None)
            &&& (code == DOWNLOAD_FAILED <==> failure is Some)
        }),
{
}

/// Law: a task whose prefetch failed never runs; every start is refused and
/// the prefetch error stays.
pub proof fn law_failed_task_never_runs<T>(s: RunSlotView<T>)
    requires
        s.task is None,
        !s.live,
    ensures
        begin_step(s) == (s, Err::<T, i32>(TASK_UNAVAILABLE)),
        paused(s, false),
{
}

/// Law: a task reads as paused whenever no run is going on (the task is in
/// place, or a run was paused or is over), and whenever it is cancelled;
/// a pause is undone by the next start of a task that is not cancelled.
pub proof fn law_pause_state<T>(s: RunSlotView<T>, cancelled: bool, task: T, failure: Option<Seq<u8>>)
    requires
        s.task is Some ==> !s.live,
    ensures
        s.task is Some ==> paused(s, cancelled),
        paused(pause_step(s), cancelled),
        paused(finish_step(s, task, failure).0, cancelled),
        paused(s, true),
        s.task is Some ==> !paused(begin_step(pause_step(s)).0, false),
        s.task is Some ==> paused(begin_step(s).0, cancelled) == cancelled,
{
}

/// Law: each step changes only what it is for. A start hands out the task in
/// place and keeps the error; a finished run puts back the task it is given
/// and records exactly its failure; a pause only stops the live run, keeping
/// the task and the error (of the last run or of the prefetch); a task reads
/// as paused exactly when it is cancelled or no run is live.
pub proof fn law_steps_change_only_their_part<T>(
    s: RunSlotView<T>,
    task: T,
    failure: Option<Seq<u8>>,
    cancelled: bool,
)
    ensures
        pause_step(s).task == s.task,
        pause_step(s).error == s.error,
        !pause_step(s).live,
        begin_step(s).0.error == s.error,
        s.task is Some ==> begin_step(s).1 == Ok::<T, i32>(s.task->Some_0) && begin_step(s).0.task is None
            && begin_step(s).0.live,
        s.task is None ==> begin_step(s).1 == Err::<T, i32>(-2i32) && begin_step(s).0 == s,
        finish_step(s, task, failure).0.task == Some(task),
        finish_step(s, task, failure).0.error == failure,
        !finish_step(s, task, failure).0.live,
        finish_step(s, task, failure).1 == (if failure is None { 0i32 } else { -3i32 }),
        paused(s, cancelled) == (cancelled || !s.live),
{
}

/// Law: a failed run's message is "Download task failed: " followed by the
/// error's description when that holds no NUL byte, and the fixed text
/// "Download task failed: Unkown Error" otherwise.
pub proof fn law_run_failure_text(detail: Seq<u8>)
    ensures
        has_no_nul(detail) ==> run_failure_text(detail) == utf8_bytes("Download task failed: "@)
            + detail,
        !has_no_nul(detail) ==> run_failure_text(detail) == utf8_bytes(
            "Download task failed: Unkown Error"@,
        ),
{
    reveal_strlit("Download task failed: ");
    lemma_plain_ascii("Download task failed: "@);
    let p = utf8_bytes("Download task failed: "@);
    let t = p + detail;
    if has_no_nul(detail) {
        assert forall|i: int| 0 <= i < t.len() implies t[i] != 0u8 by {
            if i < p.len() {
                assert(t[i] == p[i]);
            } else {
                assert(t[i] == detail[i - p.len()]);
            }
        }
    } else {
        let j = choose|j: int| 0 <= j < detail.len() && detail[j] == 0u8;
        assert(t[p.len() + j] == 0u8);
    }
}

} // verus!
