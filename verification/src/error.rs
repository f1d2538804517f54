//! The failures this core reports, by kind and condition.

use vstd::prelude::*;

verus! {

/// Why the display or graphics backend could not be acquired.
#[derive(Clone, Copy, Debug, PartialEq, Eq, Structural)]
pub enum InitFailure {
    /// No adapter on this machine can drive the requested surface.
    NoCompatibleAdapter,
    /// The window system refused to create the surface.
    SurfaceRefused,
}

/// Why the device rejected an upload.
#[derive(Clone, Copy, Debug, PartialEq, Eq, Structural)]
pub enum UploadFailure {
    /// The device has no memory left for the buffer.
    OutOfMemory,
    /// The device cannot hold elements of this layout.
    UnsupportedLayout,
}

/// Why a pipeline could not be built.
#[derive(Clone, Copy, Debug, PartialEq, Eq, Structural)]
pub enum CompileFailure {
    /// A shader stage that the pipeline needs is absent from the binary.
    MissingStage,
    /// A shader stage of the binary does not fit the others or the device.
    IncompatibleStage,
    /// The inputs the shader declares are not those the buffers supply.
    LayoutMismatch,
    /// The number of blend targets is not the number of colour attachments.
    UnsupportedBlendTargetCount,
    /// The device cannot assemble primitives of the requested topology.
    InvalidTopology,
}

/// Every failure this core reports.
#[derive(Clone, Copy, Debug, PartialEq, Eq, Structural)]
pub enum RenderError {
    /// The surface or the device could not be acquired. Fatal; not retried.
    Initialization(InitFailure),
    /// The device rejected a geometry upload. Fatal at startup.
    BufferCreation(UploadFailure),
    /// The pipeline description or its shader was rejected. Fatal at startup.
    PipelineCompilation(CompileFailure),
    /// The surface had no presentable target for this frame.
    TargetUnavailable,
    /// The device was lost while taking a command buffer.
    Submission,
    /// The surface could not show the finished frame.
    Presentation,
}

impl RenderError {
    /// The failures of a transiently invalid surface: the caller may
    /// re-create the surface and resume with the same controller.
    pub open spec fn recoverable(self) -> bool {
        self == RenderError::TargetUnavailable || self == RenderError::Presentation
    }

    /// The failures that a running frame loop can report.
    pub open spec fn per_frame(self) -> bool {
        self == RenderError::TargetUnavailable || self == RenderError::Submission || self
            == RenderError::Presentation
    }

    /// Decides [`RenderError::recoverable`].
    pub fn is_recoverable(&self) -> (r: bool)
        ensures
            r == self.recoverable(),
    {
        match self {
            RenderError::TargetUnavailable | RenderError::Presentation => true,
            _ => false,
        }
    }

    /// Whether this failure ends the frame loop for good: every failure that
    /// is not recoverable does.
    pub fn is_fatal(&self) -> (r: bool)
        ensures
            r == !self.recoverable(),
    {
        !self.is_recoverable()
    }

    /// Decides [`RenderError::per_frame`]: `false` for the startup failures.
    pub fn is_per_frame(&self) -> (r: bool)
        ensures
            r == self.per_frame(),
    {
        match self {
            RenderError::TargetUnavailable | RenderError::Submission | RenderError::Presentation => true,
            _ => false,
        }
    }
}

} // verus!
