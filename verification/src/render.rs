//! Frame rendering and the acquisition-error taxonomy.
//!
//! One call renders one frame: against a successful image acquisition it
//! records a single clear pass, submits exactly one command buffer and
//! presents the image; against a failed acquisition it returns the
//! tagged error without touching the queue. The acquisition itself is
//! driver work: the platform glue acquires the image and hands the
//! tagged outcome in, then records, submits and presents exactly what
//! the returned pass description says.

use vstd::prelude::*;

use crate::context::GraphicsContext;
use crate::context::QueueLog;

verus! {

/// Why acquiring the next presentable image failed. The variants must
/// stay distinguished: the driving loop branches on them.
#[derive(Clone, Copy, PartialEq, Eq, Structural, Debug)]
pub enum SurfaceError {
    /// The surface became invalid; fatal for this surface.
    Lost,
    /// The configuration no longer matches the surface; reconfigure.
    Outdated,
    /// Acquisition timed out; transient.
    Timeout,
    /// The driver is out of memory; fatal for the application.
    OutOfMemory,
}

/// What the driving loop does after a failed acquisition.
#[derive(Clone, Copy, PartialEq, Eq, Structural, Debug)]
pub enum Recovery {
    /// Tear the surface down and do not retry.
    TearDown,
    /// Reapply the surface configuration, then retry the frame.
    Reconfigure,
    /// Skip this tick and retry on the next one, unchanged.
    RetryNextTick,
    /// Terminate the application.
    Terminate,
}

impl SurfaceError {
    /// The recovery each error calls for.
    pub open spec fn recovery_spec(self) -> Recovery {
        match self {
            SurfaceError::Lost => Recovery::TearDown,
            SurfaceError::Outdated => Recovery::Reconfigure,
            SurfaceError::Timeout => Recovery::RetryNextTick,
            SurfaceError::OutOfMemory => Recovery::Terminate,
        }
    }

    /// Fatal errors end the surface or the application; the rest are
    /// recoverable by reconfiguring or by waiting a tick.
    pub open spec fn is_fatal(self) -> bool {
        self is Lost || self is OutOfMemory
    }

    /// Tell the driving loop how to recover from this error.
    pub fn recovery(&self) -> (r: Recovery)
        ensures
            r == self.recovery_spec(),
    {
        match self {
            SurfaceError::Lost => Recovery::TearDown,
            SurfaceError::Outdated => Recovery::Reconfigure,
            SurfaceError::Timeout => Recovery::RetryNextTick,
            SurfaceError::OutOfMemory => Recovery::Terminate,
        }
    }

    /// Whether this error is fatal rather than recoverable.
    pub fn fatal(&self) -> (b: bool)
        ensures
            b == self.is_fatal(),
    {
        match self {
            SurfaceError::Lost => true,
            SurfaceError::OutOfMemory => true,
            _ => false,
        }
    }
}

/// The clear color, each channel in thousandths of full intensity. The
/// platform glue divides by 1000 when handing the color to the driver.
#[derive(Clone, Copy, PartialEq, Eq, Structural, Debug)]
pub struct ClearColor {
    pub r_milli: u32,
    pub g_milli: u32,
    pub b_milli: u32,
    pub a_milli: u32,
}

/// The fixed background color every frame is cleared to.
pub open spec fn background_color() -> ClearColor {
    ClearColor { r_milli: 100, g_milli: 200, b_milli: 300, a_milli: 1000 }
}

/// What one recorded render pass consists of: a single color attachment
/// whose load operation clears to a color and whose store operation
/// persists the result, and nothing else.
#[derive(Clone, Copy, PartialEq, Eq, Structural, Debug)]
pub struct ClearPassDesc {
    pub clear_color: ClearColor,
    pub store_result: bool,
    pub color_attachments: u32,
    pub has_depth_stencil: bool,
    pub has_occlusion_query: bool,
    pub has_timestamp_writes: bool,
}

/// The one pass this renderer records: clear to the background color,
/// store, one color attachment, no depth or stencil, no occlusion query,
/// no timestamp capture.
pub open spec fn clear_pass() -> ClearPassDesc {
    ClearPassDesc {
        clear_color: background_color(),
        store_result: true,
        color_attachments: 1,
        has_depth_stencil: false,
        has_occlusion_query: false,
        has_timestamp_writes: false,
    }
}

/// What one render call returns for a given acquisition outcome: the
/// recorded clear pass on success, the acquisition error unchanged on
/// failure.
pub open spec fn render_result(acquired: Result<(), SurfaceError>) -> Result<
    ClearPassDesc,
    SurfaceError,
> {
    match acquired {
        Ok(()) => Ok(clear_pass()),
        Err(e) => Err(e),
    }
}

/// What one render call does to the queue history: exactly one
/// submission and one presentation on a successful acquisition, nothing
/// on a failed one.
pub open spec fn render_queue(q: QueueLog, acquired: Result<(), SurfaceError>) -> QueueLog {
    match acquired {
        Ok(()) => QueueLog {
            submissions: (q.submissions + 1) as u64,
            presents: (q.presents + 1) as u64,
        },
        Err(_) => q,
    }
}

/// Bounds the silent retries of recoverable acquisition failures:
/// unbounded silent retry is disallowed, so after `limit` consecutive
/// recoverable failures the driving loop must stop retrying and surface
/// the condition instead.
#[derive(Clone, Copy, PartialEq, Eq, Structural, Debug)]
pub struct RetryBudget {
    pub limit: u32,
    pub used: u32,
}

impl RetryBudget {
    /// The count of consecutive failures never passes the limit.
    pub open spec fn wf(self) -> bool {
        self.used <= self.limit
    }

    /// A fresh budget allowing `limit` consecutive silent retries.
    pub fn new(limit: u32) -> (b: RetryBudget)
        ensures
            b == (RetryBudget { limit, used: 0 }),
            b.wf(),
    {
        RetryBudget { limit, used: 0 }
    }

    /// A successful frame ends the run of consecutive failures.
    pub fn record_success(&mut self)
        ensures
            *final(self) == (RetryBudget { limit: old(self).limit, used: 0 }),
            final(self).wf(),
    {
        self.used = 0;
    }

    /// Record one recoverable failure. Returns whether one more silent
    /// retry is allowed; once the limit is reached nothing changes and
    /// the caller must surface the condition.
    pub fn record_failure(&mut self) -> (retry: bool)
        requires
            old(self).wf(),
        ensures
            retry == (old(self).used < old(self).limit),
            retry ==> *final(self) == (RetryBudget {
                limit: old(self).limit,
                used: (old(self).used + 1) as u32,
            }),
            !retry ==> *final(self) == *old(self),
            final(self).wf(),
    {
        if self.used < self.limit {
            self.used = self.used + 1;
            true
        } else {
            false
        }
    }
}

/// Produces and presents exactly one frame per invocation.
pub struct FrameRenderer {}

impl FrameRenderer {
    /// A renderer holds no state of its own.
    pub fn new() -> FrameRenderer {
        FrameRenderer {  }
    }

    /// Render one frame against the given acquisition outcome. On
    /// success: record the single clear pass, count one submission and
    /// one presentation on the context's queue, and return the pass for
    /// the platform glue to record and submit. On failure: return the
    /// tagged error at once, the queue untouched. The context's
    /// capabilities, configuration and size are never changed here.
    pub fn render_frame(
        &self,
        ctx: &mut GraphicsContext,
        acquired: Result<(), SurfaceError>,
    ) -> (r: Result<ClearPassDesc, SurfaceError>)
        requires
            old(ctx).queue.submissions < u64::MAX,
            old(ctx).queue.presents < u64::MAX,
        ensures
            r == render_result(acquired),
            final(ctx).queue == render_queue(old(ctx).queue, acquired),
            final(ctx).caps == old(ctx).caps,
            final(ctx).config == old(ctx).config,
            final(ctx).size == old(ctx).size,
            old(ctx).wf() ==> final(ctx).wf(),
            acquired is Err ==> *final(ctx) == *old(ctx),
    {
        match acquired {
            Ok(()) => {
                ctx.queue.submissions = ctx.queue.submissions + 1;
                ctx.queue.presents = ctx.queue.presents + 1;
                Ok(ClearPassDesc {
                    clear_color: ClearColor {
                        r_milli: 100,
                        g_milli: 200,
                        b_milli: 300,
                        a_milli: 1000,
                    },
                    store_result: true,
                    color_attachments: 1,
                    has_depth_stencil: false,
                    has_occlusion_query: false,
                    has_timestamp_writes: false,
                })
            },
            Err(e) => Err(e),
        }
    }
}

} // verus!
