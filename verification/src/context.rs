//! The graphics context: the negotiated state a window renders through.
//!
//! The context holds what the driving loop reads and updates of the GPU
//! resources: the capability set the adapter reported for the surface,
//! the configuration the surface is under, the window's current physical
//! size, and the observable history of the command queue. The handles
//! themselves (instance, adapter, device, queue, surface) live with the
//! platform glue, which reapplies the configuration to the driver
//! whenever a call here says so.

use vstd::prelude::*;

use crate::config::SurfaceCaps;
use crate::config::SurfaceConfig;
use crate::config::built_config;
use crate::config::build_config;

verus! {

/// A window's physical size in pixels.
#[derive(Clone, Copy, PartialEq, Eq, Structural, Debug)]
pub struct PhysicalSize {
    pub width: u32,
    pub height: u32,
}

impl PhysicalSize {
    /// A surface can only be configured over a non-empty area.
    pub open spec fn is_renderable(self) -> bool {
        self.width > 0 && self.height > 0
    }
}

/// The observable history of the command queue and the presentation
/// engine: how many command buffers were submitted and how many frames
/// were presented. A test double queue counts the same way.
#[derive(Clone, Copy, PartialEq, Eq, Structural, Debug)]
pub struct QueueLog {
    pub submissions: u64,
    pub presents: u64,
}

impl QueueLog {
    /// The queue of a freshly created context has seen no work.
    pub open spec fn empty() -> QueueLog {
        QueueLog { submissions: 0, presents: 0 }
    }
}

/// The state a window renders through: the reported capabilities, the
/// configuration the surface is under, the current physical size, and
/// the queue history. The window itself must outlive the context; the
/// platform glue enforces that by construction order.
#[derive(Clone, PartialEq, Eq, Debug)]
pub struct GraphicsContext {
    pub caps: SurfaceCaps,
    pub config: SurfaceConfig,
    pub size: PhysicalSize,
    pub queue: QueueLog,
}

/// The context built at creation: the configuration derived from the
/// capability set at the window's size, and an empty queue history.
pub open spec fn created_context(caps: SurfaceCaps, size: PhysicalSize) -> GraphicsContext
    recommends
        caps.wf(),
{
    GraphicsContext {
        config: built_config(caps, size.width, size.height),
        caps,
        size,
        queue: QueueLog::empty(),
    }
}

/// The context after a resize request: with both dimensions positive the
/// stored size and the configuration's dimensions follow the request and
/// everything else stands; with a zero dimension nothing changes.
pub open spec fn resized_context(ctx: GraphicsContext, new_size: PhysicalSize) -> GraphicsContext {
    if new_size.is_renderable() {
        GraphicsContext {
            size: new_size,
            config: SurfaceConfig {
                width: new_size.width,
                height: new_size.height,
                ..ctx.config
            },
            ..ctx
        }
    } else {
        ctx
    }
}

impl GraphicsContext {
    /// The context's invariant: the capability set is usable, the
    /// configuration is the one derived from it, and its dimensions
    /// equal the stored window size.
    pub open spec fn wf(self) -> bool {
        &&& self.caps.wf()
        &&& self.config == built_config(self.caps, self.size.width, self.size.height)
    }

    /// Negotiate the state for a window of the given size, from the
    /// capability set its surface reported: select the format, build and
    /// hold the configuration. The platform glue applies the returned
    /// configuration to the driver once.
    pub fn create(caps: SurfaceCaps, size: PhysicalSize) -> (ctx: GraphicsContext)
        requires
            caps.wf(),
        ensures
            ctx == created_context(caps, size),
            ctx.wf(),
            ctx.size == size,
            ctx.config.width == size.width,
            ctx.config.height == size.height,
    {
        let config = build_config(&caps, size.width, size.height);
        GraphicsContext { caps, config, size, queue: QueueLog { submissions: 0, presents: 0 } }
    }

    /// Follow a window-size change. With a zero dimension this is a
    /// no-op: a zero-area surface must not be configured. Otherwise the
    /// stored size and the configuration's dimensions take the new
    /// values, and the result says the platform glue must reapply the
    /// configuration to the surface before the next frame.
    pub fn resize(&mut self, new_size: PhysicalSize) -> (reconfigure: bool)
        ensures
            reconfigure == new_size.is_renderable(),
            *final(self) == resized_context(*old(self), new_size),
            !reconfigure ==> *final(self) == *old(self),
            reconfigure ==> final(self).config.width == new_size.width
                && final(self).config.height == new_size.height,
            old(self).wf() ==> final(self).wf(),
    {
        if new_size.width == 0 || new_size.height == 0 {
            return false;
        }
        self.size = new_size;
        self.config.width = new_size.width;
        self.config.height = new_size.height;
        true
    }
}

} // verus!
