//! What follows from the way a frame ended.
//!
//! Drawing a frame can fail at the surface. A surface that was lost or is
//! out of date is configured again and the frame is left out; the next one
//! is drawn as usual. Without memory nothing more can be drawn, and the
//! frame loop ends. A frame that timed out is left out and nothing else.
use crate::viewport::Viewport;
use vstd::prelude::*;

verus! {

/// Why the surface gave no frame to draw to.
#[derive(Clone, Copy, Debug, PartialEq, Eq, Structural)]
pub enum SurfaceError {
    /// The frame did not come in time.
    Timeout,
    /// The surface has changed since it was configured.
    Outdated,
    /// The surface was lost.
    Lost,
    /// No memory is left for a frame.
    OutOfMemory,
}

/// What the host does once a frame has ended.
#[derive(Clone, Copy, Debug, PartialEq, Eq, Structural)]
pub enum FrameAction {
    /// The frame was drawn: go on.
    Proceed,
    /// The frame is left out: go on with the next.
    Skip,
    /// The frame is left out, and the surface is configured with this
    /// viewport before the next.
    Reconfigure(Viewport),
    /// The frame loop ends.
    Exit,
}

/// What is done after a frame that ended as `outcome` says, on a surface of
/// `viewport`.
pub open spec fn recovery(viewport: Viewport, outcome: Result<(), SurfaceError>) -> FrameAction {
    match outcome {
        Ok(_) => FrameAction::Proceed,
        Err(SurfaceError::Lost) | Err(SurfaceError::Outdated) => FrameAction::Reconfigure(viewport),
        Err(SurfaceError::OutOfMemory) => FrameAction::Exit,
        Err(SurfaceError::Timeout) => FrameAction::Skip,
    }
}

/// The frame loop ends on a frame for which no memory was left, and on no
/// other.
pub proof fn lemma_exit_only_without_memory(viewport: Viewport, outcome: Result<(), SurfaceError>)
    ensures
        recovery(viewport, outcome) == FrameAction::Exit <==> outcome == Err::<(), SurfaceError>(
            SurfaceError::OutOfMemory,
        ),
{
}

/// Decides what is done after a frame that ended as `outcome` says, on a
/// surface of `viewport`.
pub fn recover(viewport: Viewport, outcome: Result<(), SurfaceError>) -> (action: FrameAction)
    ensures
        action == recovery(viewport, outcome),
{
    match outcome {
        Ok(_) => FrameAction::Proceed,
        Err(SurfaceError::Lost) => FrameAction::Reconfigure(viewport),
        Err(SurfaceError::Outdated) => FrameAction::Reconfigure(viewport),
        Err(SurfaceError::OutOfMemory) => FrameAction::Exit,
        Err(SurfaceError::Timeout) => FrameAction::Skip,
    }
}

} // verus!
