use vstd::prelude::*;

verus! {

/// What went wrong with a piece of GPU work of one frame.
#[derive(Debug, Clone, Copy, PartialEq, Eq)]
pub enum GPUTaskError {
    SubmitError,
    PresentError,
    AcquireError,
    WaitError,
}

pub type TaskResult<T> = Result<T, GPUTaskError>;

/// The outcome of presenting an image: `Ok(suboptimal)` when the image was
/// queued for display, or the error.
#[derive(Debug)]
pub struct PresentTask {
    result: TaskResult<bool>,
}

impl PresentTask {
    /// What presenting returned.
    pub closed spec fn outcome(&self) -> TaskResult<bool> {
        self.result
    }

    /// Records what the presentation engine answered.
    pub fn new(result: TaskResult<bool>) -> (task: Self)
        ensures
            task.outcome() == result,
    {
        PresentTask { result }
    }

    /// Whether the image was queued (`Ok(suboptimal)`), or the error.
    pub fn wait_result(&self) -> (r: TaskResult<bool>)
        ensures
            r == self.outcome(),
    {
        self.result
    }

    /// Whether the image was queued, forgetting whether the swapchain was
    /// still an exact match for the surface.
    pub fn wait(&self) -> (r: TaskResult<()>)
        ensures
            r is Ok <==> self.outcome() is Ok,
            self.outcome() matches Err(e) ==> r == Err::<(), GPUTaskError>(e),
    {
        match self.result {
            Ok(_) => Ok(()),
            Err(e) => Err(e),
        }
    }
}

} // verus!
