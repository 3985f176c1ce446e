//! The choices that configure a swapchain.

use crate::memory::{view_description, ViewDescription};
use crate::vulkan::{
    COLOR_SPACE_SRGB_NONLINEAR, COMPOSITE_OPAQUE, FORMAT_B8G8R8A8_SRGB, IMAGE_COLOR_ATTACHMENT,
    IMAGE_TRANSFER_DST, PRESENT_FIFO, PRESENT_MAILBOX, SHARING_EXCLUSIVE,
};
use vstd::prelude::*;

verus! {

/// A size in pixels.
#[derive(Clone, Copy, Debug, PartialEq, Eq, Structural)]
pub struct Extent {
    pub width: u32,
    pub height: u32,
}

/// A pixel format together with its colour space.
#[derive(Clone, Copy, Debug, PartialEq, Eq, Structural)]
pub struct SurfaceFormat {
    pub format: i32,
    pub color_space: i32,
}

/// What a surface demands of its swapchains.
#[derive(Clone, Copy, Debug, PartialEq, Eq, Structural)]
pub struct SurfaceCaps {
    pub min_image_count: u32,
    /// The largest number of images, or zero where there is no limit.
    pub max_image_count: u32,
    /// The size of the surface; its width is the largest number where the swapchain decides.
    pub current_extent: Extent,
    pub min_extent: Extent,
    pub max_extent: Extent,
    /// How the surface is turned at present.
    pub current_transform: u32,
}

/// The configuration of a swapchain.
#[derive(Clone, Copy, Debug, PartialEq, Eq, Structural)]
pub struct SwapchainConfig {
    pub format: SurfaceFormat,
    pub present_mode: i32,
    pub extent: Extent,
    pub image_count: u32,
    pub usage: u32,
    pub array_layers: u32,
    pub sharing_mode: i32,
    pub transform: u32,
    pub composite_alpha: u32,
    /// Pixels that nobody sees need not be drawn.
    pub clipped: bool,
}

/// The format that is taken wherever a surface offers it.
pub open spec fn preferred_format() -> SurfaceFormat {
    SurfaceFormat { format: FORMAT_B8G8R8A8_SRGB, color_space: COLOR_SPACE_SRGB_NONLINEAR }
}

/// The preferred format if it is offered, else the first one offered; the preferred one again
/// where nothing is offered.
pub open spec fn format_spec(formats: Seq<SurfaceFormat>) -> SurfaceFormat {
    if formats.contains(preferred_format()) || formats.len() == 0 {
        preferred_format()
    } else {
        formats[0]
    }
}

/// Chooses the surface format.
pub fn choose_format(formats: &[SurfaceFormat]) -> (r: SurfaceFormat)
    ensures
        r == format_spec(formats@),
        (exists|i: int|
            0 <= i < formats@.len() && (#[trigger] formats@[i]).format == FORMAT_B8G8R8A8_SRGB
                && formats@[i].color_space == COLOR_SPACE_SRGB_NONLINEAR) ==> r.format
            == FORMAT_B8G8R8A8_SRGB && r.color_space == COLOR_SPACE_SRGB_NONLINEAR,
        formats@.len() == 0 ==> r.format == FORMAT_B8G8R8A8_SRGB && r.color_space
            == COLOR_SPACE_SRGB_NONLINEAR,
        formats@.len() > 0 && (forall|i: int|
            0 <= i < formats@.len() ==> (#[trigger] formats@[i]).format != FORMAT_B8G8R8A8_SRGB
                || formats@[i].color_space != COLOR_SPACE_SRGB_NONLINEAR) ==> r == formats@[0],
{
    proof {
        law_preferred_format(formats@);
    }
    let preferred = SurfaceFormat {
        format: FORMAT_B8G8R8A8_SRGB,
        color_space: COLOR_SPACE_SRGB_NONLINEAR,
    };
    let mut i: usize = 0;
    while i < formats.len()
        invariant
            i <= formats@.len(),
            preferred == preferred_format(),
            forall|j: int| 0 <= j < i ==> formats@[j] != preferred_format(),
        decreases formats@.len() - i,
    {
        if formats[i] == preferred {
            assert(formats@[i as int] == preferred_format());
            return formats[i];
        }
        i += 1;
    }
    if formats.len() > 0 {
        formats[0]
    } else {
        preferred
    }
}

/// Mailbox presentation if it is offered, else the mode that is always there.
pub open spec fn present_mode_spec(modes: Seq<i32>) -> i32 {
    if modes.contains(PRESENT_MAILBOX) {
        PRESENT_MAILBOX
    } else {
        PRESENT_FIFO
    }
}

/// Chooses the presentation mode.
pub fn choose_present_mode(modes: &[i32]) -> (r: i32)
    ensures
        r == present_mode_spec(modes@),
        forall|i: int|
            0 <= i < modes@.len() && #[trigger] modes@[i] == PRESENT_MAILBOX ==> r
                == PRESENT_MAILBOX,
        (forall|i: int| 0 <= i < modes@.len() ==> #[trigger] modes@[i] != PRESENT_MAILBOX) ==> r
            == PRESENT_FIFO,
{
    let mut i: usize = 0;
    while i < modes.len()
        invariant
            i <= modes@.len(),
            forall|j: int| 0 <= j < i ==> modes@[j] != PRESENT_MAILBOX,
        decreases modes@.len() - i,
    {
        if modes[i] == PRESENT_MAILBOX {
            assert(modes@[i as int] == PRESENT_MAILBOX);
            return PRESENT_MAILBOX;
        }
        i += 1;
    }
    PRESENT_FIFO
}

/// `v` moved into the range from `low` to `high`.
pub open spec fn clamped(v: u32, low: u32, high: u32) -> u32 {
    if v < low {
        low
    } else if v > high {
        high
    } else {
        v
    }
}

fn clamp(v: u32, low: u32, high: u32) -> (r: u32)
    ensures
        r == clamped(v, low, high),
{
    if v < low {
        low
    } else if v > high {
        high
    } else {
        v
    }
}

/// The surface leaves the size of its images to the swapchain.
pub open spec fn extent_is_open(caps: SurfaceCaps) -> bool {
    caps.current_extent.width == u32::MAX
}

/// The surface's own size; where it is left open, the window's size within the surface's limits.
pub open spec fn extent_spec(caps: SurfaceCaps, window: Extent) -> Extent {
    if extent_is_open(caps) {
        Extent {
            width: clamped(window.width, caps.min_extent.width, caps.max_extent.width),
            height: clamped(window.height, caps.min_extent.height, caps.max_extent.height),
        }
    } else {
        caps.current_extent
    }
}

/// Chooses the size of the swapchain's images.
pub fn choose_extent(caps: &SurfaceCaps, window: Extent) -> (r: Extent)
    requires
        extent_is_open(*caps) ==> caps.min_extent.width <= caps.max_extent.width
            && caps.min_extent.height <= caps.max_extent.height,
    ensures
        r == extent_spec(*caps, window),
        caps.current_extent.width != 0xFFFF_FFFF ==> r == caps.current_extent,
        caps.current_extent.width == 0xFFFF_FFFF ==> {
            &&& caps.min_extent.width <= r.width <= caps.max_extent.width
            &&& caps.min_extent.height <= r.height <= caps.max_extent.height
            &&& r.width == window.width || r.width == caps.min_extent.width > window.width
                || r.width == caps.max_extent.width < window.width
            &&& r.height == window.height || r.height == caps.min_extent.height > window.height
                || r.height == caps.max_extent.height < window.height
        },
{
    if caps.current_extent.width != u32::MAX {
        caps.current_extent
    } else {
        Extent {
            width: clamp(window.width, caps.min_extent.width, caps.max_extent.width),
            height: clamp(window.height, caps.min_extent.height, caps.max_extent.height),
        }
    }
}

/// One image more than the surface needs, as far as it allows that.
pub open spec fn image_count_spec(caps: SurfaceCaps) -> int {
    if caps.max_image_count != 0 && caps.max_image_count < caps.min_image_count + 1 {
        caps.max_image_count as int
    } else {
        caps.min_image_count + 1
    }
}

/// Chooses the number of images.
pub fn choose_image_count(caps: &SurfaceCaps) -> (r: u32)
    requires
        caps.min_image_count < u32::MAX,
    ensures
        r == image_count_spec(*caps),
        caps.max_image_count == 0 || caps.min_image_count < caps.max_image_count ==> r
            == caps.min_image_count + 1,
        0 < caps.max_image_count <= caps.min_image_count ==> r == caps.max_image_count,
{
    let wanted: u32 = caps.min_image_count + 1;
    let limit: u32 = if caps.max_image_count == 0 {
        u32::MAX
    } else {
        caps.max_image_count
    };
    if wanted <= limit {
        wanted
    } else {
        limit
    }
}

/// Makes all choices for the swapchain of a surface.
pub fn create_swapchain(
    caps: &SurfaceCaps,
    formats: &[SurfaceFormat],
    modes: &[i32],
    window: Extent,
) -> (r: SwapchainConfig)
    requires
        caps.min_image_count < u32::MAX,
        extent_is_open(*caps) ==> caps.min_extent.width <= caps.max_extent.width
            && caps.min_extent.height <= caps.max_extent.height,
    ensures
        r.format == format_spec(formats@),
        r.present_mode == present_mode_spec(modes@),
        r.extent == extent_spec(*caps, window),
        r.image_count == image_count_spec(*caps),
        forall|i: int|
            0 <= i < modes@.len() && #[trigger] modes@[i] == PRESENT_MAILBOX ==> r.present_mode
                == PRESENT_MAILBOX,
        (forall|i: int| 0 <= i < modes@.len() ==> #[trigger] modes@[i] != PRESENT_MAILBOX)
            ==> r.present_mode == PRESENT_FIFO,
        (exists|i: int|
            0 <= i < formats@.len() && (#[trigger] formats@[i]).format == FORMAT_B8G8R8A8_SRGB
                && formats@[i].color_space == COLOR_SPACE_SRGB_NONLINEAR) || formats@.len() == 0
            ==> r.format.format == FORMAT_B8G8R8A8_SRGB && r.format.color_space
            == COLOR_SPACE_SRGB_NONLINEAR,
        formats@.len() > 0 && (forall|i: int|
            0 <= i < formats@.len() ==> (#[trigger] formats@[i]).format != FORMAT_B8G8R8A8_SRGB
                || formats@[i].color_space != COLOR_SPACE_SRGB_NONLINEAR) ==> r.format
            == formats@[0],
        caps.current_extent.width != 0xFFFF_FFFF ==> r.extent == caps.current_extent,
        caps.current_extent.width == 0xFFFF_FFFF ==> {
            &&& caps.min_extent.width <= r.extent.width <= caps.max_extent.width
            &&& caps.min_extent.height <= r.extent.height <= caps.max_extent.height
            &&& r.extent.width == window.width || r.extent.width == caps.min_extent.width
                > window.width || r.extent.width == caps.max_extent.width < window.width
            &&& r.extent.height == window.height || r.extent.height == caps.min_extent.height
                > window.height || r.extent.height == caps.max_extent.height < window.height
        },
        caps.max_image_count == 0 || caps.min_image_count < caps.max_image_count ==> r.image_count
            == caps.min_image_count + 1,
        0 < caps.max_image_count <= caps.min_image_count ==> r.image_count
            == caps.max_image_count,
        r.usage == IMAGE_COLOR_ATTACHMENT | IMAGE_TRANSFER_DST,
        r.array_layers == 1,
        r.sharing_mode == SHARING_EXCLUSIVE,
        r.transform == caps.current_transform,
        r.composite_alpha == COMPOSITE_OPAQUE,
        r.clipped,
{
    SwapchainConfig {
        format: choose_format(formats),
        present_mode: choose_present_mode(modes),
        extent: choose_extent(caps, window),
        image_count: choose_image_count(caps),
        usage: IMAGE_COLOR_ATTACHMENT | IMAGE_TRANSFER_DST,
        array_layers: 1,
        sharing_mode: SHARING_EXCLUSIVE,
        transform: caps.current_transform,
        composite_alpha: COMPOSITE_OPAQUE,
        clipped: true,
    }
}

/// Describes the views of the swapchain's images, one for each image.
pub fn swapchain_views(format: i32, image_count: usize) -> (views: Vec<ViewDescription>)
    ensures
        views@ == Seq::new(image_count as nat, |i: int| crate::memory::view_spec(format)),
        views@.len() == image_count,
        forall|i: int|
            0 <= i < views@.len() ==> {
                let view = #[trigger] views@[i];
                &&& view.format == format
                &&& view.view_type == 1
                &&& view.range.aspect == 1
                &&& view.range.base_level == 0 && view.range.level_count == 1
                &&& view.range.base_layer == 0 && view.range.layer_count == 1
            },
{
    let mut views: Vec<ViewDescription> = Vec::new();
    while views.len() < image_count
        invariant
            views@.len() <= image_count,
            views@ =~= Seq::new(views@.len(), |i: int| crate::memory::view_spec(format)),
        decreases image_count - views@.len(),
    {
        views.push(view_description(format));
    }
    views
}

/// Where the swapchain decides on the size, the size respects the surface's limits, and a window
/// size that respects them is taken as it is.
pub proof fn law_extent_respects_limits(caps: SurfaceCaps, window: Extent)
    requires
        extent_is_open(caps),
        caps.min_extent.width <= caps.max_extent.width,
        caps.min_extent.height <= caps.max_extent.height,
    ensures
        caps.min_extent.width <= extent_spec(caps, window).width <= caps.max_extent.width,
        caps.min_extent.height <= extent_spec(caps, window).height <= caps.max_extent.height,
        caps.min_extent.width <= window.width <= caps.max_extent.width && caps.min_extent.height
            <= window.height <= caps.max_extent.height ==> extent_spec(caps, window) == window,
{
}

/// A mailbox among the offered modes is chosen, wherever it stands; without one the mode that every
/// surface has is chosen. What else is offered, and in what order, does not matter.
pub proof fn law_mailbox_is_chosen(modes: Seq<i32>, i: int)
    ensures
        0 <= i < modes.len() && modes[i] == 1 ==> present_mode_spec(modes) == 1,
        (forall|j: int| 0 <= j < modes.len() ==> #[trigger] modes[j] != 1) ==> present_mode_spec(
            modes,
        ) == 2,
{
}

/// The order in which modes are offered does not matter, nor how often they are.
pub proof fn law_mode_order_does_not_matter(a: Seq<i32>, b: Seq<i32>)
    requires
        forall|mode: i32| #[trigger] a.contains(mode) <==> b.contains(mode),
    ensures
        present_mode_spec(a) == present_mode_spec(b),
{
    assert(a.contains(PRESENT_MAILBOX) <==> b.contains(PRESENT_MAILBOX));
}

/// The preferred format is taken wherever it stands in the list; a list without it gives its first
/// format, and an empty list the preferred one.
pub proof fn law_preferred_format(formats: Seq<SurfaceFormat>)
    ensures
        (exists|i: int|
            0 <= i < formats.len() && (#[trigger] formats[i]).format == 50 && formats[i].color_space
                == 0) ==> format_spec(formats) == (SurfaceFormat { format: 50, color_space: 0 }),
        formats.len() == 0 ==> format_spec(formats) == (SurfaceFormat {
            format: 50,
            color_space: 0,
        }),
        formats.len() > 0 && (forall|i: int|
            0 <= i < formats.len() ==> (#[trigger] formats[i]).format != 50
                || formats[i].color_space != 0) ==> format_spec(formats) == formats[0],
{
    if exists|i: int|
        0 <= i < formats.len() && (#[trigger] formats[i]).format == 50 && formats[i].color_space
            == 0 {
        let i = choose|i: int|
            0 <= i < formats.len() && (#[trigger] formats[i]).format == 50
                && formats[i].color_space == 0;
        assert(formats[i] == preferred_format());
    }
}

/// A surface that has a size keeps it, whatever the window's size; one that leaves it open takes the
/// size within its limits that is nearest to the window's.
pub proof fn law_extent_is_nearest(caps: SurfaceCaps, window: Extent, width: u32, height: u32)
    requires
        caps.min_extent.width <= width <= caps.max_extent.width,
        caps.min_extent.height <= height <= caps.max_extent.height,
    ensures
        caps.current_extent.width != 0xFFFF_FFFF ==> extent_spec(caps, window)
            == caps.current_extent,
        caps.current_extent.width == 0xFFFF_FFFF ==> {
            let e = extent_spec(caps, window);
            &&& window.width <= e.width <= width || width <= e.width <= window.width || e.width
                == window.width
            &&& window.height <= e.height <= height || height <= e.height <= window.height
                || e.height == window.height
            &&& caps.min_extent.width <= e.width <= caps.max_extent.width
            &&& caps.min_extent.height <= e.height <= caps.max_extent.height
        },
{
}

/// There is one image more than the surface needs, unless that is one more than it allows.
pub proof fn law_one_image_to_spare(caps: SurfaceCaps)
    ensures
        caps.max_image_count == 0 ==> image_count_spec(caps) == caps.min_image_count + 1,
        caps.min_image_count < caps.max_image_count ==> image_count_spec(caps)
            == caps.min_image_count + 1,
        0 < caps.max_image_count <= caps.min_image_count ==> image_count_spec(caps)
            == caps.max_image_count,
{
}

/// The number of images lies within the surface's limits.
pub proof fn law_image_count_respects_limits(caps: SurfaceCaps)
    requires
        caps.max_image_count == 0 || caps.min_image_count <= caps.max_image_count,
    ensures
        caps.min_image_count <= image_count_spec(caps),
        caps.max_image_count != 0 ==> image_count_spec(caps) <= caps.max_image_count,
{
}

/// The chosen format is one that the surface offers, if it offers any.
pub proof fn law_format_is_offered(formats: Seq<SurfaceFormat>)
    requires
        formats.len() > 0,
    ensures
        formats.contains(format_spec(formats)),
{
    if !formats.contains(preferred_format()) {
        assert(formats[0] == format_spec(formats));
    }
}

} // verus!
