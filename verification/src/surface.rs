//! Decisions around the presentation surface: which format to configure,
//! how to react to a resize signal, what to do after a frame's acquisition
//! result, and the plan for uploading the glyph atlas row block by row
//! block. The device calls themselves stay with the caller; these
//! functions only decide.

use vstd::prelude::*;

verus! {

/// Fixed logical width of the window's client area.
pub const WINDOW_WIDTH: u32 = 240;

/// Fixed logical height of the window's client area.
pub const WINDOW_HEIGHT: u32 = 160;

/// How many frames may be in flight before the platform blocks the next
/// acquisition.
pub const MAX_FRAME_LATENCY: u32 = 2;

/// The dimensions the surface is configured with.
#[derive(Clone, Copy, Debug, PartialEq, Eq, Structural)]
pub struct SurfaceExtent {
    /// Configured width in pixels.
    pub width: u32,
    /// Configured height in pixels.
    pub height: u32,
}

impl SurfaceExtent {
    /// Apply a window-size-changed signal: take the new dimensions, but
    /// ignore a signal carrying zero width or height (not yet valid), in
    /// which case the configuration stays exactly as it was.
    pub fn apply_resize(&mut self, width: u32, height: u32)
        ensures
            width > 0 && height > 0 ==> *final(self) == (SurfaceExtent { width, height }),
            !(width > 0 && height > 0) ==> *final(self) == *old(self),
    {
        if width > 0 && height > 0 {
            self.width = width;
            self.height = height;
        }
    }
}

/// Pick the surface format: the first one the platform reports as sRGB,
/// or the first reported format when none is. `srgb[i]` says whether the
/// platform's `i`th format is sRGB-capable.
pub fn pick_format(srgb: &Vec<bool>) -> (idx: usize)
    requires
        srgb@.len() > 0,
    ensures
        idx < srgb@.len(),
        srgb@[idx as int] ==> forall|j: int| 0 <= j < idx ==> !srgb@[j],
        !srgb@[idx as int] ==> idx == 0 && forall|j: int| 0 <= j < srgb@.len() ==> !srgb@[j],
{
    let mut i: usize = 0;
    while i < srgb.len()
        invariant
            i <= srgb@.len(),
            forall|j: int| 0 <= j < i ==> !srgb@[j],
        decreases srgb@.len() - i,
    {
        if srgb[i] {
            return i;
        }
        i = i + 1;
    }
    0
}

/// Why acquiring the next presentable image failed.
#[derive(Clone, Copy, Debug, PartialEq, Eq, Structural)]
pub enum AcquireFailure {
    /// The presentation target was invalidated and must be reconfigured.
    Lost,
    /// The platform cannot allocate presentation resources; unrecoverable.
    OutOfMemory,
    /// Any other transient failure; the frame is simply skipped.
    Transient,
}

/// What the run loop does after one frame attempt.
#[derive(Clone, Copy, Debug, PartialEq, Eq, Structural)]
pub enum FrameDirective {
    /// The frame was presented; carry on.
    Proceed,
    /// Re-issue the current surface configuration, then carry on.
    Reconfigure,
    /// Skip this frame without retrying; the next tick redraws anyway.
    SkipFrame,
    /// Leave the run loop; the platform is out of presentation memory.
    Shutdown,
}

/// The run loop's policy after a frame: a lost surface is reconfigured,
/// memory exhaustion shuts the loop down, any other failure skips the
/// frame, and success just proceeds.
pub fn after_frame(result: Result<(), AcquireFailure>) -> (d: FrameDirective)
    ensures
        d == match result {
            Ok(()) => FrameDirective::Proceed,
            Err(AcquireFailure::Lost) => FrameDirective::Reconfigure,
            Err(AcquireFailure::OutOfMemory) => FrameDirective::Shutdown,
            Err(AcquireFailure::Transient) => FrameDirective::SkipFrame,
        },
{
    match result {
        Ok(()) => FrameDirective::Proceed,
        Err(AcquireFailure::Lost) => FrameDirective::Reconfigure,
        Err(AcquireFailure::OutOfMemory) => FrameDirective::Shutdown,
        Err(AcquireFailure::Transient) => FrameDirective::SkipFrame,
    }
}

/// One row block of the atlas image, eight texel rows tall: where it goes
/// in the strip texture and where its pixels start in the source bytes.
#[derive(Clone, Copy, Debug, PartialEq, Eq, Structural)]
pub struct AtlasSlice {
    /// X origin of this block in the destination strip texture.
    pub origin_x: u32,
    /// Offset of this block's first byte in the source RGBA pixel bytes.
    pub byte_offset: u64,
}

/// Plan the row-block upload of the atlas image: the source image is cut
/// into `height / 8` blocks of eight rows, and block `i` lands at
/// x = `i * width` in the one-row-tall destination strip. Offsets count
/// four bytes per texel.
pub fn atlas_copy_plan(image_width: u32, image_height: u32) -> (plan: Vec<AtlasSlice>)
    requires
        image_width <= 65536,
        image_height <= 65536,
    ensures
        plan@.len() == image_height as int / 8,
        forall|i: int| 0 <= i < plan@.len() ==> plan@[i] == (AtlasSlice {
            origin_x: (i * image_width as int) as u32,
            byte_offset: (i * image_width as int * 32) as u64,
        }),
{
    let blocks: u32 = image_height / 8;
    let mut plan: Vec<AtlasSlice> = Vec::new();
    let mut i: u32 = 0;
    while i < blocks
        invariant
            blocks == image_height as int / 8,
            image_width <= 65536,
            image_height <= 65536,
            i <= blocks,
            plan@.len() == i as int,
            forall|j: int| 0 <= j < i ==> plan@[j] == (AtlasSlice {
                origin_x: (j * image_width as int) as u32,
                byte_offset: (j * image_width as int * 32) as u64,
            }),
        decreases blocks - i,
    {
        proof {
            assert(i as int * image_width as int <= 8192 * 65536) by (nonlinear_arith)
                requires
                    0 <= i as int <= 8192,
                    0 <= image_width as int <= 65536,
            ;
        }
        let origin_x: u32 = i * image_width;
        let byte_offset: u64 = (origin_x as u64) * 32;
        plan.push(AtlasSlice { origin_x, byte_offset });
        i = i + 1;
    }
    plan
}

} // verus!
