//! A simpler variant of the background job communication: the job reports a
//! step count and polls an abort signal; it is finished once its count
//! reaches the total.
use vstd::prelude::*;
use std::sync::Arc;
use std::sync::atomic::{AtomicBool, AtomicUsize};

verus! {

struct AbortSignal(Arc<AtomicBool>);

impl Clone for AbortSignal {
    /// A handle to the same signal.
    fn clone(&self) -> (r: Self)
        ensures
            r == *self,
    {
        AbortSignal(self.0.clone())
    }
}

impl AbortSignal {
    fn new() -> Self {
        AbortSignal(Arc::new(AtomicBool::new(false)))
    }

    fn abort(&self) {
        self.0.store(true, std::sync::atomic::Ordering::SeqCst);
    }

    fn should_abort(&self) -> bool {
        self.0.load(std::sync::atomic::Ordering::SeqCst)
    }
}

struct StepProgress {
    total_steps: usize,
    current_steps: Arc<AtomicUsize>,
}

impl Clone for StepProgress {
    /// A handle to the same counter.
    fn clone(&self) -> (r: Self)
        ensures
            r == *self,
    {
        StepProgress { total_steps: self.total_steps, current_steps: self.current_steps.clone() }
    }
}

impl StepProgress {
    fn new(total_steps: usize) -> (r: Self)
        ensures
            r.total_steps == total_steps,
    {
        StepProgress { total_steps, current_steps: Arc::new(AtomicUsize::new(0)) }
    }

    fn set_progress(&mut self, value: usize)
        requires
            value <= old(self).total_steps,
        ensures
            *final(self) == *old(self),
    {
        self.current_steps.store(value, std::sync::atomic::Ordering::SeqCst);
    }

    fn get_progress(&self) -> (r: (usize, usize))
        ensures
            r.1 == self.total_steps,
    {
        let current = self.current_steps.load(std::sync::atomic::Ordering::SeqCst);
        (current, self.total_steps)
    }
}

/// The handle shared by a background job and the UI. Clones share the same
/// signal and counter.
pub struct BgCommunicate {
    abort: AbortSignal,
    progress: StepProgress,
}

impl Clone for BgCommunicate {
    /// Another end of the same communication: the clone shares the abort
    /// signal and the progress counter with `self`.
    fn clone(&self) -> (r: Self)
        ensures
            r == *self,
    {
        BgCommunicate { abort: self.abort.clone(), progress: self.progress.clone() }
    }
}

impl BgCommunicate {
    /// The number of steps the job has in all.
    pub closed spec fn total_steps(&self) -> usize {
        self.progress.total_steps
    }

    pub fn new(total_steps: usize) -> (r: Self)
        ensures
            r.total_steps() == total_steps,
    {
        BgCommunicate { abort: AbortSignal::new(), progress: StepProgress::new(total_steps) }
    }

    /// Used to inform main thread of current progress, and to be informed
    /// whether the job should be aborted. The answer is whatever the other
    /// side of the signal last set.
    pub fn checkup_bg(&mut self, current_steps: usize) -> (r: bool)
        requires
            current_steps <= old(self).total_steps(),
        ensures
            *final(self) == *old(self),
    {
        self.progress.set_progress(current_steps);
        self.abort.should_abort()
    }

    /// The last reported step count and the total.
    pub fn progress_steps(&self) -> (r: (usize, usize))
        ensures
            r.1 == self.total_steps(),
    {
        self.progress.get_progress()
    }

    pub fn abort(&mut self)
        ensures
            *final(self) == *old(self),
    {
        self.abort.abort()
    }
}

/// A job that runs in the background and reports through a
/// [`BgCommunicate`].
pub trait BgTask {
    type Final;

    spec fn accepts(&self, communicate: BgCommunicate) -> bool;

    /// `result` is a possible outcome of the job run with `communicate`.
    spec fn may_return(&self, communicate: BgCommunicate, result: Self::Final) -> bool;

    fn execute(self, communicate: BgCommunicate) -> (r: Self::Final) where Self: Sized
        requires
            self.accepts(communicate),
        ensures
            self.may_return(communicate, r),
    ;
}

impl<Final, F: FnOnce(BgCommunicate) -> Final> BgTask for F {
    type Final = Final;

    open spec fn accepts(&self, communicate: BgCommunicate) -> bool {
        call_requires(*self, (communicate,))
    }

    open spec fn may_return(&self, communicate: BgCommunicate, result: Final) -> bool {
        call_ensures(*self, (communicate,), result)
    }

    fn execute(self, communicate: BgCommunicate) -> (r: Final) {
        self(communicate)
    }
}

} // verus!
