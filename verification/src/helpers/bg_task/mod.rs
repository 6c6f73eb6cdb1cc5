//! Communication between the UI thread and a background batch job: the job
//! reports how many of its steps are done and asks whether it should stop.
use vstd::prelude::*;
use std::sync::Arc;
use std::sync::atomic::{AtomicBool, AtomicUsize};

verus! {

/// The progress of a background job, as step counts.
pub enum StepReport {
    /// `completed` is the count the job reported last, out of `total`.
    Pending { completed: usize, total: usize },
    Finished,
}

impl StepReport {
    /// The report for a job whose finished flag and last reported step count
    /// are `finished` and `completed`, out of `total` steps.
    pub fn from_flags(finished: bool, completed: usize, total: usize) -> (r: StepReport)
        ensures
            finished ==> r == StepReport::Finished,
            !finished ==> r == (StepReport::Pending { completed, total }),
    {
        if finished {
            StepReport::Finished
        } else {
            StepReport::Pending { completed, total }
        }
    }
}

struct AbortFlag(Arc<AtomicBool>);

impl Clone for AbortFlag {
    /// A handle to the same flag.
    fn clone(&self) -> (r: Self)
        ensures
            r == *self,
    {
        AbortFlag(self.0.clone())
    }
}

impl AbortFlag {
    fn new() -> Self {
        AbortFlag(Arc::new(AtomicBool::new(false)))
    }

    fn request_abort(&self) {
        self.0.store(true, std::sync::atomic::Ordering::Release);
    }

    fn is_abort_requested(&self) -> bool {
        self.0.load(std::sync::atomic::Ordering::Acquire)
    }
}

struct StepProgress {
    max_steps: usize,
    progress_data: Arc<(AtomicUsize, AtomicBool)>,
}

impl Clone for StepProgress {
    /// A handle to the same counter and finished flag.
    fn clone(&self) -> (r: Self)
        ensures
            r == *self,
    {
        StepProgress { max_steps: self.max_steps, progress_data: self.progress_data.clone() }
    }
}

impl StepProgress {
    fn new(max_steps: usize) -> (r: Self)
        ensures
            r.max_steps == max_steps,
    {
        StepProgress { max_steps, progress_data: Arc::new((AtomicUsize::new(0), AtomicBool::new(false))) }
    }

    fn update_progress(&mut self, value: usize)
        requires
            value <= old(self).max_steps,
        ensures
            *final(self) == *old(self),
    {
        self.progress_data.0.store(value, std::sync::atomic::Ordering::Release);
    }

    fn current_progress(&self) -> (r: StepReport)
        ensures
            r matches StepReport::Pending { total, .. } ==> total == self.max_steps,
    {
        let finished = self.progress_data.1.load(std::sync::atomic::Ordering::Acquire);
        if finished {
            StepReport::from_flags(finished, 0, self.max_steps)
        } else {
            let current = self.progress_data.0.load(std::sync::atomic::Ordering::Acquire);
            StepReport::from_flags(finished, current, self.max_steps)
        }
    }

    fn mark_as_finished(&self) {
        self.progress_data.1.store(true, std::sync::atomic::Ordering::Release);
    }
}

/// The handle through which a background job and the UI share its abort
/// request and its progress. Clones share the same flags.
pub struct BackgroundTaskManager {
    abort: AbortFlag,
    progress: StepProgress,
}

impl Clone for BackgroundTaskManager {
    /// Another end of the same communication: the clone shares the abort
    /// flag, the progress counter and the finished flag with `self`.
    fn clone(&self) -> (r: Self)
        ensures
            r == *self,
    {
        BackgroundTaskManager { abort: self.abort.clone(), progress: self.progress.clone() }
    }
}

impl BackgroundTaskManager {
    /// The number of steps the job has in all.
    pub closed spec fn max_steps(&self) -> usize {
        self.progress.max_steps
    }

    pub fn new(total_steps: usize) -> (r: Self)
        ensures
            r.max_steps() == total_steps,
    {
        BackgroundTaskManager { abort: AbortFlag::new(), progress: StepProgress::new(total_steps) }
    }

    /// Used to inform main thread of current progress, and to be informed
    /// whether the job should be aborted. The answer is whatever the other
    /// side of the flag last set.
    pub fn update_progress_and_check_abort(&mut self, steps_completed: usize) -> (r: bool)
        requires
            steps_completed <= old(self).max_steps(),
        ensures
            *final(self) == *old(self),
    {
        self.progress.update_progress(steps_completed);
        self.abort.is_abort_requested()
    }

    /// The job's progress: finished, or the last reported step count out of
    /// the total.
    pub fn current_progress(&self) -> (r: StepReport)
        ensures
            r matches StepReport::Pending { total, .. } ==> total == self.max_steps(),
    {
        self.progress.current_progress()
    }

    pub fn request_abort(&mut self)
        ensures
            *final(self) == *old(self),
    {
        self.abort.request_abort();
    }

    pub fn mark_as_finished(&self) {
        self.progress.mark_as_finished();
    }
}

/// A job that runs in the background and reports through a
/// [`BackgroundTaskManager`].
pub trait BgTask {
    type Final;

    spec fn accepts(&self, communicate: BackgroundTaskManager) -> bool;

    /// `result` is a possible outcome of the job run with `communicate`.
    spec fn may_return(&self, communicate: BackgroundTaskManager, result: Self::Final) -> bool;

    fn execute(self, communicate: BackgroundTaskManager) -> (r: Self::Final) where Self: Sized
        requires
            self.accepts(communicate),
        ensures
            self.may_return(communicate, r),
    ;
}

impl<Final, F: FnOnce(BackgroundTaskManager) -> Final> BgTask for F {
    type Final = Final;

    open spec fn accepts(&self, communicate: BackgroundTaskManager) -> bool {
        call_requires(*self, (communicate,))
    }

    /// The job ran with a handle equal to `communicate`, so it shares the
    /// abort flag and the progress of every other end.
    open spec fn may_return(&self, communicate: BackgroundTaskManager, result: Final) -> bool {
        call_ensures(*self, (communicate,), result)
    }

    /// Runs the job and marks it as finished once it returns.
    fn execute(self, communicate: BackgroundTaskManager) -> (r: Final) {
        let job_end = communicate.clone();
        let ret = self(job_end);
        communicate.mark_as_finished();
        ret
    }
}

} // verus!
