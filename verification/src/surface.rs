//! Surface configuration and reconfiguration.
//!
//! The surface manager owns the presentable surface's configuration: the
//! negotiated format, the size, the presentation and alpha modes, and the
//! extra view formats registered so a gamma-corrected view can always be
//! taken of the color attachment. The platform layer queries the adapter's
//! capabilities and applies the configuration this module computes.

use vstd::prelude::*;

use crate::format::{
    has_srgb, selected_format, srgb_variant, srgb_variant_of, choose_format, FormatId,
};

verus! {

/// What the adapter reports the surface supports. Every list is nonempty for
/// a surface the adapter can present to at all.
pub struct SurfaceCaps {
    pub formats: Vec<FormatId>,
    pub present_modes: Vec<u32>,
    pub alpha_modes: Vec<u32>,
}

impl SurfaceCaps {
    /// A capability set the adapter could actually have reported.
    pub open spec fn wf(self) -> bool {
        &&& self.formats@.len() > 0
        &&& self.present_modes@.len() > 0
        &&& self.alpha_modes@.len() > 0
    }
}

/// The applied surface configuration.
pub struct SurfaceConfig {
    pub format: FormatId,
    pub width: u32,
    pub height: u32,
    pub present_mode: u32,
    pub alpha_mode: u32,
    pub view_formats: Vec<FormatId>,
    pub frame_latency: u32,
}

/// A zero dimension is clamped up to one: a degenerate configuration is never
/// applied to the surface.
pub open spec fn at_least_one(x: u32) -> u32 {
    if x == 0 {
        1u32
    } else {
        x
    }
}

impl SurfaceConfig {
    /// Invariant of every applied configuration: both dimensions are at least
    /// one, and when the negotiated format is not gamma-corrected its
    /// gamma-corrected variant is registered as the one extra view format, so
    /// the color-attachment view can request sRGB encoding either way.
    pub open spec fn wf(self) -> bool {
        &&& self.width >= 1
        &&& self.height >= 1
        &&& (self.format.srgb ==> self.view_formats@.len() == 0)
        &&& (!self.format.srgb ==> self.view_formats@.len() == 1
            && self.view_formats@[0] == srgb_variant_of(self.format))
    }
}

/// Build the configuration to apply to the surface: the first gamma-corrected
/// format the adapter offers (or the first format at all), the window size
/// clamped away from zero, the first supported present and alpha modes, and a
/// registered gamma-corrected view format whenever the storage format itself
/// is not gamma-corrected.
pub fn configure(caps: &SurfaceCaps, width: u32, height: u32) -> (c: SurfaceConfig)
    requires
        caps.wf(),
    ensures
        c.wf(),
        c.format == selected_format(caps.formats@),
        has_srgb(caps.formats@) ==> c.format.srgb,
        !has_srgb(caps.formats@) ==> c.format == caps.formats@[0],
        c.width == at_least_one(width),
        c.height == at_least_one(height),
        c.present_mode == caps.present_modes@[0],
        c.alpha_mode == caps.alpha_modes@[0],
        c.frame_latency == 2,
{
    proof {
        crate::format::lemma_gamma_preference(caps.formats@);
    }
    let format = choose_format(&caps.formats);
    let mut view_formats: Vec<FormatId> = Vec::new();
    if !format.srgb {
        view_formats.push(srgb_variant(format));
    }
    SurfaceConfig {
        format,
        width: if width == 0 { 1 } else { width },
        height: if height == 0 { 1 } else { height },
        present_mode: caps.present_modes[0],
        alpha_mode: caps.alpha_modes[0],
        view_formats,
        frame_latency: 2,
    }
}

/// The surface manager's persistent state: the configuration last applied.
pub struct SurfaceState {
    pub config: SurfaceConfig,
}

impl SurfaceState {
    pub fn new(config: SurfaceConfig) -> (s: SurfaceState)
        ensures
            s.config == config,
    {
        SurfaceState { config }
    }

    /// React to a window size change. A transient zero-area size (minimize or
    /// restore) leaves the stored configuration untouched and asks for no
    /// reconfiguration; a real size is stored exactly and the surface must be
    /// reconfigured once, leaving every other configuration field as it was.
    pub fn resize(&mut self, width: u32, height: u32) -> (reconfigure: bool)
        ensures
            (width == 0 || height == 0) ==> (!reconfigure && *final(self) == *old(self)),
            (width >= 1 && height >= 1) ==> {
                &&& reconfigure
                &&& final(self).config.width == width
                &&& final(self).config.height == height
                &&& final(self).config.format == old(self).config.format
                &&& final(self).config.present_mode == old(self).config.present_mode
                &&& final(self).config.alpha_mode == old(self).config.alpha_mode
                &&& final(self).config.frame_latency == old(self).config.frame_latency
                &&& final(self).config.view_formats@ == old(self).config.view_formats@
            },
            old(self).config.wf() ==> final(self).config.wf(),
    {
        if width == 0 || height == 0 {
            return false;
        }
        self.config.width = width;
        self.config.height = height;
        true
    }
}

} // verus!
