//! Planning of the tone-map compute pass.
//!
//! The pass turns a half-float capture into an 8-bit one on the GPU. What is
//! decided here is how many thread groups cover the image and whether the
//! cached output texture can be reused.

use vstd::prelude::*;

use crate::color::ColorPixelFormat;
use crate::texture::{TextureCache, TextureShape};

verus! {

/// Edge length, in pixels, of the square that one thread group covers.
pub const THREAD_GROUP_SIZE: u32 = 8;

/// What one run of the pass has to do.
#[derive(Debug, Clone, Copy, PartialEq, Eq, Structural)]
pub struct DispatchPlan {
    /// The output texture must be built anew before the dispatch.
    pub rebuild_output: bool,
    /// Thread groups along the width.
    pub groups_x: u32,
    /// Thread groups along the height.
    pub groups_y: u32,
}

/// The tone-map pass, as far as its cached output texture goes.
#[derive(Debug, Clone, Copy, PartialEq, Eq, Structural)]
pub struct ToneMapPass {
    pub output: TextureCache,
}

/// Number of groups of `THREAD_GROUP_SIZE` needed to cover `extent` pixels:
/// the quotient, rounded up.
pub open spec fn spec_thread_groups(extent: nat) -> nat {
    (extent + THREAD_GROUP_SIZE - 1) as nat / (THREAD_GROUP_SIZE as nat)
}

/// Shape of the pass's output for a `width` x `height` input.
pub open spec fn spec_output_shape(width: u32, height: u32) -> TextureShape {
    TextureShape { width, height, format: ColorPixelFormat::Bgra8 }
}

/// Thread groups that cover `extent` pixels.
pub fn thread_groups(extent: u32) -> (groups: u32)
    ensures
        groups == spec_thread_groups(extent as nat),
        groups * THREAD_GROUP_SIZE >= extent,
        extent > 0 ==> (groups - 1) * THREAD_GROUP_SIZE < extent,
{
    let wide: u64 = extent as u64 + (THREAD_GROUP_SIZE as u64 - 1);
    let groups: u64 = wide / (THREAD_GROUP_SIZE as u64);
    groups as u32
}

impl ToneMapPass {
    /// A pass that has no output texture yet.
    pub fn new() -> (pass: ToneMapPass)
        ensures
            pass.output.shape is None,
    {
        ToneMapPass { output: TextureCache::new() }
    }

    /// Plan the pass for a `width` x `height` input: reuse the output texture
    /// if it has that size, and dispatch enough groups to cover every pixel.
    pub fn plan(&self, width: u32, height: u32) -> (plan: DispatchPlan)
        ensures
            plan.rebuild_output == !self.output.spec_holds(spec_output_shape(width, height)),
            plan.groups_x == spec_thread_groups(width as nat),
            plan.groups_y == spec_thread_groups(height as nat),
    {
        let shape = TextureShape { width, height, format: ColorPixelFormat::Bgra8 };
        DispatchPlan {
            rebuild_output: !self.output.holds(shape),
            groups_x: thread_groups(width),
            groups_y: thread_groups(height),
        }
    }

    /// Record that the output texture was built for a `width` x `height`
    /// input.
    pub fn output_built(&mut self, width: u32, height: u32)
        ensures
            final(self).output.spec_holds(spec_output_shape(width, height)),
    {
        self.output.store(TextureShape { width, height, format: ColorPixelFormat::Bgra8 });
    }
}

} // verus!
