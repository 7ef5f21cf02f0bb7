//! Swapchain parameter selection.
//!
//! When the swapchain is created or recreated, the surface reports its
//! capabilities as plain values and the functions here pick the format,
//! present mode, extent and image count, each with the preference rule
//! pinned in its contract.

use vstd::prelude::*;

verus! {

/// Driver code for the `B8G8R8A8_SRGB` pixel format.
pub const FORMAT_B8G8R8A8_SRGB: u32 = 50;

/// Driver code for the `SRGB_NONLINEAR` color space.
pub const COLOR_SPACE_SRGB_NONLINEAR: u32 = 0;

/// Driver code for the `MAILBOX` present mode.
pub const PRESENT_MODE_MAILBOX: u32 = 1;

/// Driver code for the `FIFO` present mode, which is always available.
pub const PRESENT_MODE_FIFO: u32 = 2;

/// One surface format the driver offers: a pixel format paired with a
/// color space, both as their driver codes.
#[derive(Clone, Copy, Debug, PartialEq, Eq, Structural)]
pub struct SurfaceFormat {
    /// Pixel format code.
    pub format: u32,
    /// Color space code.
    pub color_space: u32,
}

/// The format the renderer prefers: `B8G8R8A8_SRGB` with
/// `SRGB_NONLINEAR`.
pub open spec fn format_is_preferred(f: SurfaceFormat) -> bool {
    f.format == FORMAT_B8G8R8A8_SRGB && f.color_space == COLOR_SPACE_SRGB_NONLINEAR
}

/// Picks the surface format: the first offered format matching the
/// preferred pair, or the first offered format when none matches.
pub fn choose_surface_format(formats: &Vec<SurfaceFormat>) -> (r: SurfaceFormat)
    requires
        formats@.len() > 0,
    ensures
        (exists|j: int| 0 <= j < formats@.len() && format_is_preferred(#[trigger] formats@[j]))
            ==> exists|j: int|
            {
                &&& 0 <= j < formats@.len()
                &&& r == formats@[j]
                &&& format_is_preferred(#[trigger] formats@[j])
                &&& forall|k: int| 0 <= k < j ==> !format_is_preferred(#[trigger] formats@[k])
            },
        (forall|j: int| 0 <= j < formats@.len() ==> !format_is_preferred(#[trigger] formats@[j]))
            ==> r == formats@[0],
{
    let mut i: usize = 0;
    while i < formats.len()
        invariant
            i <= formats@.len(),
            forall|k: int| 0 <= k < i ==> !format_is_preferred(#[trigger] formats@[k]),
        decreases formats@.len() - i,
    {
        let f = formats[i];
        if f.format == FORMAT_B8G8R8A8_SRGB && f.color_space == COLOR_SPACE_SRGB_NONLINEAR {
            return f;
        }
        i = i + 1;
    }
    formats[0]
}

/// Picks the present mode: `MAILBOX` when the surface offers it,
/// otherwise `FIFO`.
pub fn choose_present_mode(modes: &Vec<u32>) -> (r: u32)
    ensures
        r == if modes@.contains(PRESENT_MODE_MAILBOX) {
            PRESENT_MODE_MAILBOX
        } else {
            PRESENT_MODE_FIFO
        },
{
    let mut i: usize = 0;
    while i < modes.len()
        invariant
            i <= modes@.len(),
            forall|k: int| 0 <= k < i ==> #[trigger] modes@[k] != PRESENT_MODE_MAILBOX,
        decreases modes@.len() - i,
    {
        if modes[i] == PRESENT_MODE_MAILBOX {
            assert(modes@.contains(PRESENT_MODE_MAILBOX));
            return PRESENT_MODE_MAILBOX;
        }
        i = i + 1;
    }
    proof {
        assert(forall|k: int|
            0 <= k < modes@.len() ==> #[trigger] modes@[k] != PRESENT_MODE_MAILBOX);
        assert(!modes@.contains(PRESENT_MODE_MAILBOX));
    }
    PRESENT_MODE_FIFO
}

/// `x` clamped to `lo ..= hi`.
pub open spec fn clamped(x: u32, lo: u32, hi: u32) -> u32 {
    if x < lo {
        lo
    } else if x > hi {
        hi
    } else {
        x
    }
}

/// Picks the swapchain extent: the desired size clamped to the
/// surface's minimum and maximum.
pub fn choose_extent(
    desired_width: u32,
    desired_height: u32,
    min_width: u32,
    max_width: u32,
    min_height: u32,
    max_height: u32,
) -> (r: (u32, u32))
    requires
        min_width <= max_width,
        min_height <= max_height,
    ensures
        r.0 == clamped(desired_width, min_width, max_width),
        r.1 == clamped(desired_height, min_height, max_height),
{
    let w = if desired_width < min_width {
        min_width
    } else if desired_width > max_width {
        max_width
    } else {
        desired_width
    };
    let h = if desired_height < min_height {
        min_height
    } else if desired_height > max_height {
        max_height
    } else {
        desired_height
    };
    (w, h)
}

/// Picks the image count: one more than the surface's minimum, clamped
/// to its maximum when the maximum is non-zero (zero means unbounded).
pub fn choose_image_count(min_image_count: u32, max_image_count: u32) -> (r: u32)
    requires
        min_image_count < u32::MAX,
    ensures
        r == if max_image_count > 0 && min_image_count + 1 > max_image_count {
            max_image_count
        } else {
            (min_image_count + 1) as u32
        },
        max_image_count == 0 ==> r == min_image_count + 1,
{
    let desired = min_image_count + 1;
    if max_image_count > 0 && desired > max_image_count {
        max_image_count
    } else {
        desired
    }
}

} // verus!
