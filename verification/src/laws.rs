//! Laws relating context creation, resizing and frame rendering.

use vstd::prelude::*;

use crate::config::SurfaceCaps;
use crate::context::GraphicsContext;
use crate::context::PhysicalSize;
use crate::context::QueueLog;
use crate::context::created_context;
use crate::context::resized_context;
use crate::render::SurfaceError;
use crate::render::render_queue;
use crate::render::render_result;

verus! {

/// For every usable capability set and every window size with both
/// dimensions positive, creating a context gives a well-formed context
/// whose configuration carries exactly that size, and one frame rendered
/// through it against a successful acquisition returns success with
/// exactly one submission and one presentation.
pub proof fn lemma_create_then_render(caps: SurfaceCaps, size: PhysicalSize)
    requires
        caps.wf(),
        size.is_renderable(),
    ensures
        created_context(caps, size).wf(),
        created_context(caps, size).config.width == size.width,
        created_context(caps, size).config.height == size.height,
        render_result(Ok(())) is Ok,
        render_queue(created_context(caps, size).queue, Ok(())) == (QueueLog {
            submissions: 1,
            presents: 1,
        }),
{
}

/// After a resize to positive dimensions the stored configuration
/// carries exactly those dimensions, the context stays well formed, and
/// a subsequent frame rendered against a successful acquisition returns
/// success with exactly one more submission.
pub proof fn lemma_resize_then_render(ctx: GraphicsContext, w: u32, h: u32)
    requires
        ctx.wf(),
        w > 0,
        h > 0,
        ctx.queue.submissions < u64::MAX,
    ensures
        resized_context(ctx, PhysicalSize { width: w, height: h }).config.width == w,
        resized_context(ctx, PhysicalSize { width: w, height: h }).config.height == h,
        resized_context(ctx, PhysicalSize { width: w, height: h }).wf(),
        render_result(Ok(())) is Ok,
        render_queue(resized_context(ctx, PhysicalSize { width: w, height: h }).queue, Ok(()))
            .submissions == ctx.queue.submissions + 1,
{
}

/// Exactly one command buffer is submitted and exactly one frame is
/// presented per successful render call, and none of either when the
/// acquisition failed.
pub proof fn lemma_one_submission_per_frame(q: QueueLog, acquired: Result<(), SurfaceError>)
    requires
        q.submissions < u64::MAX,
        q.presents < u64::MAX,
    ensures
        acquired is Ok ==> render_queue(q, acquired).submissions == q.submissions + 1,
        acquired is Ok ==> render_queue(q, acquired).presents == q.presents + 1,
        acquired is Err ==> render_queue(q, acquired) == q,
{
}

} // verus!
