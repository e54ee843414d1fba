//! Surface format selection and surface configuration.
//!
//! A pixel format is modeled by what the selection logic reads of it: an
//! identifying code (the position the driver reported it at) and whether
//! it is sRGB-encoded. The configuration built here mirrors what is
//! handed to the driver; the view-format override list it carries is
//! always empty and so is not modeled as a field.

use vstd::prelude::*;

verus! {

/// Usage flags of the configured surface: the render-attachment bit,
/// the only usage this renderer asks for.
pub const RENDER_ATTACHMENT_USAGE: u32 = 16;

/// Bounded frame-latency hint handed to the presentation engine.
pub const FRAME_LATENCY: u32 = 2;

/// What the selection logic reads of one pixel format reported by the
/// driver: an identifying code and whether the format is sRGB-encoded.
#[derive(Clone, Copy, PartialEq, Eq, Structural, Debug)]
pub struct TextureFormat {
    pub code: u32,
    pub srgb: bool,
}

/// The capabilities a surface reports against a chosen adapter:
/// supported formats, present modes and alpha compositing modes, each in
/// the driver's preference order. Modes are identified by the position
/// the driver reported them at.
#[derive(Clone, PartialEq, Eq, Debug)]
pub struct SurfaceCaps {
    pub formats: Vec<TextureFormat>,
    pub present_modes: Vec<u32>,
    pub alpha_modes: Vec<u32>,
}

impl SurfaceCaps {
    /// A usable capability set reports at least one entry of each kind.
    pub open spec fn wf(self) -> bool {
        &&& self.formats@.len() > 0
        &&& self.present_modes@.len() > 0
        &&& self.alpha_modes@.len() > 0
    }
}

/// Some reported format is sRGB-encoded.
pub open spec fn has_srgb(formats: Seq<TextureFormat>) -> bool {
    exists|i: int| 0 <= i < formats.len() && formats[i].srgb
}

/// Position `i` holds the first sRGB-encoded entry.
pub open spec fn first_srgb_at(formats: Seq<TextureFormat>, i: int) -> bool {
    &&& 0 <= i < formats.len()
    &&& formats[i].srgb
    &&& forall|j: int| 0 <= j < i ==> !formats[j].srgb
}

/// The format the renderer configures the surface with: the first
/// sRGB-encoded entry, or the first entry if none is sRGB.
pub open spec fn selected_format(formats: Seq<TextureFormat>) -> TextureFormat
    recommends
        formats.len() > 0,
{
    if has_srgb(formats) {
        formats[choose|i: int| first_srgb_at(formats, i)]
    } else {
        formats[0]
    }
}

/// At most one position holds the first sRGB-encoded entry.
pub proof fn lemma_first_srgb_at_unique(formats: Seq<TextureFormat>, i: int, j: int)
    requires
        first_srgb_at(formats, i),
        first_srgb_at(formats, j),
    ensures
        i == j,
{
    if i < j {
        assert(!formats[i].srgb);
    }
    if j < i {
        assert(!formats[j].srgb);
    }
}

/// A format list whose sole sRGB-encoded entry stands at position `i`
/// has exactly that entry selected.
pub proof fn lemma_unique_srgb_selected(formats: Seq<TextureFormat>, i: int)
    requires
        0 <= i < formats.len(),
        formats[i].srgb,
        forall|j: int| 0 <= j < formats.len() && j != i ==> !formats[j].srgb,
    ensures
        selected_format(formats) == formats[i],
{
    assert(first_srgb_at(formats, i));
    assert(has_srgb(formats));
    let c = choose|k: int| first_srgb_at(formats, k);
    assert(first_srgb_at(formats, c));
    lemma_first_srgb_at_unique(formats, c, i);
}

/// Pick the format to configure the surface with: the first
/// sRGB-encoded entry of the reported list, or its first entry if none
/// is sRGB.
pub fn select_format(formats: &Vec<TextureFormat>) -> (r: TextureFormat)
    requires
        formats@.len() > 0,
    ensures
        r == selected_format(formats@),
        has_srgb(formats@) ==> r.srgb,
        !has_srgb(formats@) ==> r == formats@[0],
{
    let mut k: usize = 0;
    while k < formats.len()
        invariant
            k <= formats@.len(),
            forall|j: int| 0 <= j < k ==> !formats@[j].srgb,
        decreases formats@.len() - k,
    {
        if formats[k].srgb {
            proof {
                assert(first_srgb_at(formats@, k as int));
                let c = choose|i: int| first_srgb_at(formats@, i);
                assert(first_srgb_at(formats@, c));
                lemma_first_srgb_at_unique(formats@, c, k as int);
            }
            return formats[k];
        }
        k += 1;
    }
    formats[0]
}

/// The negotiated parameters under which the surface produces
/// presentable images. Present and alpha modes carry the position codes
/// of the reported entries they were taken from. The view-format
/// override list handed to the driver alongside these fields is always
/// empty.
#[derive(Clone, Copy, PartialEq, Eq, Structural, Debug)]
pub struct SurfaceConfig {
    pub usage: u32,
    pub format: TextureFormat,
    pub width: u32,
    pub height: u32,
    pub present_mode: u32,
    pub alpha_mode: u32,
    pub desired_maximum_frame_latency: u32,
}

/// The configuration built from a capability set for a surface of the
/// given size: selected format, render-attachment usage, the first
/// reported present and alpha modes, and the fixed latency hint.
pub open spec fn built_config(caps: SurfaceCaps, width: u32, height: u32) -> SurfaceConfig
    recommends
        caps.wf(),
{
    SurfaceConfig {
        usage: RENDER_ATTACHMENT_USAGE,
        format: selected_format(caps.formats@),
        width,
        height,
        present_mode: caps.present_modes@[0],
        alpha_mode: caps.alpha_modes@[0],
        desired_maximum_frame_latency: FRAME_LATENCY,
    }
}

/// Build the surface configuration for a capability set and a size.
pub fn build_config(caps: &SurfaceCaps, width: u32, height: u32) -> (c: SurfaceConfig)
    requires
        caps.wf(),
    ensures
        c == built_config(*caps, width, height),
{
    SurfaceConfig {
        usage: RENDER_ATTACHMENT_USAGE,
        format: select_format(&caps.formats),
        width,
        height,
        present_mode: caps.present_modes[0],
        alpha_mode: caps.alpha_modes[0],
        desired_maximum_frame_latency: FRAME_LATENCY,
    }
}

} // verus!
