use vstd::prelude::*;

verus! {

/// Failures of the presentation pipeline.
///
/// The first four are fatal at construction time; `ChainOutOfDate` is the
/// recoverable signal that the image chain no longer matches its surface.
#[derive(Clone, Copy, Debug, PartialEq, Eq, Structural)]
pub enum GfxError {
    NoCapableQueueFamily,
    UnsupportedDevice,
    SurfaceUnavailable,
    UnsupportedFormat,
    ChainOutOfDate,
}

impl GfxError {
    /// Whether the frame loop can continue after this error by rebuilding
    /// the image chain.
    pub fn is_recoverable(&self) -> (r: bool)
        ensures
            r == (*self == GfxError::ChainOutOfDate),
    {
        match self {
            GfxError::ChainOutOfDate => true,
            _ => false,
        }
    }
}

} // verus!
