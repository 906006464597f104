use vstd::prelude::*;

verus! {

/// What can go wrong between the application and the camera backend.
#[derive(Clone, Copy, Debug, PartialEq, Eq, Structural)]
pub enum CameraError {
    /// No capture backend could be initialised: no device can be listed or opened.
    BackendUnavailable,
    /// The chosen device could not be opened (busy hardware, unsupported format).
    DeviceOpenError,
    /// A frame could not be obtained from the open stream, or could not be decoded.
    FramePollError,
}

impl CameraError {
    /// Whether the application can go on after this error: only a missing backend is fatal.
    pub open spec fn recoverable(self) -> bool {
        !(self is BackendUnavailable)
    }

    pub fn is_recoverable(&self) -> (r: bool)
        ensures
            r == self.recoverable(),
    {
        match self {
            CameraError::BackendUnavailable => false,
            CameraError::DeviceOpenError => true,
            CameraError::FramePollError => true,
        }
    }
}

} // verus!
