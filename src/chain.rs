use vstd::prelude::*;

use crate::error::GfxError;
use crate::frame::FRAMES_IN_FLIGHT;

verus! {

/// A pixel format reported by the surface. Only the format the pipeline
/// renders in gets a name; every other one is carried by its raw value.
#[derive(Clone, Copy, Debug, PartialEq, Eq, Structural)]
pub enum PixelFormat {
    B8G8R8A8Unorm,
    Other(i32),
}

/// A color space reported by the surface.
#[derive(Clone, Copy, Debug, PartialEq, Eq, Structural)]
pub enum ColorSpace {
    SrgbNonlinear,
    Other(i32),
}

/// One (format, color space) pair that the surface can present.
#[derive(Clone, Copy, Debug, PartialEq, Eq, Structural)]
pub struct SurfaceFormat {
    pub format: PixelFormat,
    pub color_space: ColorSpace,
}

/// A presentation mode of the surface.
#[derive(Clone, Copy, Debug, PartialEq, Eq, Structural)]
pub enum PresentMode {
    Immediate,
    Mailbox,
    Fifo,
    FifoRelaxed,
    Other(i32),
}

/// The image-count limits a surface reports. A `max_image_count` of zero
/// means that there is no upper bound.
#[derive(Clone, Copy, Debug, PartialEq, Eq, Structural)]
pub struct SurfaceCapabilities {
    pub min_image_count: u32,
    pub max_image_count: u32,
}

impl SurfaceCapabilities {
    /// Limits as a conforming surface reports them: the upper bound, when
    /// there is one, is not below the lower bound.
    pub open spec fn wf(&self) -> bool {
        self.max_image_count == 0 || self.min_image_count <= self.max_image_count
    }
}

/// A drawable size in pixels.
#[derive(Clone, Copy, Debug, PartialEq, Eq, Structural)]
pub struct Extent {
    pub width: u32,
    pub height: u32,
}

/// Everything the image chain is built from, decided before any GPU object
/// is created.
#[derive(Clone, Copy, Debug, PartialEq, Eq, Structural)]
pub struct ChainPlan {
    pub image_count: u32,
    pub present_mode: PresentMode,
    pub format: SurfaceFormat,
    pub extent: Extent,
    /// Whether the new chain is linked to the one it replaces.
    pub replaces_previous: bool,
}

/// The only (format, color space) pair the pipeline accepts.
pub open spec fn preferred_format() -> SurfaceFormat {
    SurfaceFormat { format: PixelFormat::B8G8R8A8Unorm, color_space: ColorSpace::SrgbNonlinear }
}

/// `requested` raised to the surface's minimum, then lowered to its maximum
/// when it has one.
pub open spec fn image_count_for(requested: u32, caps: SurfaceCapabilities) -> u32 {
    let lo = if requested < caps.min_image_count { caps.min_image_count } else { requested };
    if caps.max_image_count != 0 && lo > caps.max_image_count {
        caps.max_image_count
    } else {
        lo
    }
}

/// The low-latency mode when the surface offers it, else vertical sync,
/// which every surface supports.
pub open spec fn present_mode_for(supported: Seq<PresentMode>) -> PresentMode {
    if supported.contains(PresentMode::Mailbox) {
        PresentMode::Mailbox
    } else {
        PresentMode::Fifo
    }
}

/// The image count requested by the pipeline: one image per frame in flight.
pub open spec fn requested_image_count() -> u32 {
    FRAMES_IN_FLIGHT as u32
}

/// The plan that chain creation settles on, when the preferred format is
/// supported.
pub open spec fn plan_for(
    caps: SurfaceCapabilities,
    modes: Seq<PresentMode>,
    width: u32,
    height: u32,
    has_previous: bool,
) -> ChainPlan {
    ChainPlan {
        image_count: image_count_for(requested_image_count(), caps),
        present_mode: present_mode_for(modes),
        format: preferred_format(),
        extent: Extent { width, height },
        replaces_previous: has_previous,
    }
}

/// The preferred surface format, as a value.
pub fn preferred_surface_format() -> (r: SurfaceFormat)
    ensures
        r == preferred_format(),
{
    SurfaceFormat { format: PixelFormat::B8G8R8A8Unorm, color_space: ColorSpace::SrgbNonlinear }
}

/// Number of images to ask the surface for.
pub fn select_image_count(requested: u32, caps: &SurfaceCapabilities) -> (r: u32)
    ensures
        r == image_count_for(requested, *caps),
        caps.wf() ==> caps.min_image_count <= r,
        caps.max_image_count != 0 ==> r <= caps.max_image_count,
        requested <= r || r == caps.max_image_count,
{
    let lo = if requested < caps.min_image_count {
        caps.min_image_count
    } else {
        requested
    };
    if caps.max_image_count != 0 && lo > caps.max_image_count {
        caps.max_image_count
    } else {
        lo
    }
}

/// Mailbox when supported, otherwise FIFO; no other mode is considered.
pub fn select_present_mode(supported: &Vec<PresentMode>) -> (r: PresentMode)
    ensures
        r == present_mode_for(supported@),
{
    let mut i: usize = 0;
    while i < supported.len()
        invariant
            i <= supported@.len(),
            forall|j: int| 0 <= j < i ==> supported@[j] != PresentMode::Mailbox,
        decreases supported@.len() - i,
    {
        if supported[i] == PresentMode::Mailbox {
            assert(supported@.contains(PresentMode::Mailbox)) by {
                assert(supported@[i as int] == PresentMode::Mailbox);
            }
            return PresentMode::Mailbox;
        }
        i = i + 1;
    }
    assert(!supported@.contains(PresentMode::Mailbox));
    PresentMode::Fifo
}

/// The preferred (format, color space) pair if the surface lists it; there
/// is deliberately no fallback to another pair.
pub fn select_surface_format(supported: &Vec<SurfaceFormat>) -> (r: Result<SurfaceFormat, GfxError>)
    ensures
        r is Ok <==> supported@.contains(preferred_format()),
        r is Ok ==> r->Ok_0 == preferred_format(),
        r is Err ==> r->Err_0 == GfxError::UnsupportedFormat,
{
    let wanted = preferred_surface_format();
    let mut i: usize = 0;
    while i < supported.len()
        invariant
            i <= supported@.len(),
            wanted == preferred_format(),
            forall|j: int| 0 <= j < i ==> supported@[j] != preferred_format(),
        decreases supported@.len() - i,
    {
        if supported[i] == wanted {
            assert(supported@[i as int] == preferred_format());
            return Ok(supported[i]);
        }
        i = i + 1;
    }
    assert(!supported@.contains(preferred_format()));
    Err(GfxError::UnsupportedFormat)
}

/// Decides how the image chain is built from what the surface reports:
/// the image count, the present mode, the format and the extent. When
/// `has_previous` is set the new chain is linked to the one it replaces.
pub fn plan_chain(
    caps: &SurfaceCapabilities,
    formats: &Vec<SurfaceFormat>,
    modes: &Vec<PresentMode>,
    width: u32,
    height: u32,
    has_previous: bool,
) -> (r: Result<ChainPlan, GfxError>)
    ensures
        r is Ok <==> formats@.contains(preferred_format()),
        r == Err::<ChainPlan, GfxError>(GfxError::UnsupportedFormat) <==> !formats@.contains(
            preferred_format(),
        ),
        r is Ok ==> r->Ok_0 == plan_for(*caps, modes@, width, height, has_previous),
        r is Err ==> r->Err_0 == GfxError::UnsupportedFormat,
{
    let format = match select_surface_format(formats) {
        Ok(f) => f,
        Err(e) => return Err(e),
    };
    let image_count = select_image_count(FRAMES_IN_FLIGHT as u32, caps);
    let present_mode = select_present_mode(modes);
    Ok(
        ChainPlan {
            image_count,
            present_mode,
            format,
            extent: Extent { width, height },
            replaces_previous: has_previous,
        },
    )
}

/// The image count of a planned chain lies within the surface's limits: at
/// least its minimum and, when it has a maximum, at most that.
pub proof fn lemma_image_count_within_limits(
    caps: SurfaceCapabilities,
    modes: Seq<PresentMode>,
    width: u32,
    height: u32,
    has_previous: bool,
)
    requires
        caps.wf(),
    ensures
        caps.min_image_count <= plan_for(caps, modes, width, height, has_previous).image_count,
        caps.max_image_count != 0 ==> plan_for(caps, modes, width, height, has_previous).image_count
            <= caps.max_image_count,
{
}

} // verus!
