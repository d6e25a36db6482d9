use vstd::prelude::*;
use wgpu::TextureFormat;

use crate::surface::{
    caps_error, caps_usable, negotiate, negotiated, with_extent, ConfigureError, SurfaceCaps,
    SurfaceSettings,
};

verus! {

/// The graphics context's negotiated surface configuration: absent until the
/// first successful `configure`, then kept and only its extent changed.
pub struct Graphics {
    surface_config: Option<SurfaceSettings>,
}

impl View for Graphics {
    type V = Option<SurfaceSettings>;

    closed spec fn view(&self) -> Option<SurfaceSettings> {
        self.surface_config
    }
}

impl Graphics {
    pub fn new() -> (r: Self)
        ensures
            r@ is None,
    {
        Graphics { surface_config: None }
    }

    /// Negotiates a configuration for the given extent from the surface's
    /// capabilities and stores it; returns what is to be applied to the
    /// surface. On failure nothing is stored.
    pub fn configure(&mut self, caps: &SurfaceCaps, width: u32, height: u32) -> (r: Result<
        SurfaceSettings,
        ConfigureError,
    >)
        ensures
            r is Ok <==> caps_usable(caps),
            r matches Ok(s) ==> negotiated(s, caps, width, height) && final(self)@ == Some(s),
            r matches Err(e) ==> e == caps_error(caps) && final(self)@ == old(self)@,
    {
        match negotiate(caps, width, height) {
            Ok(s) => {
                self.surface_config = Some(s);
                Ok(s)
            },
            Err(e) => Err(e),
        }
    }

    /// Replaces the extent of the stored configuration and returns the
    /// configuration to re-apply; format and modes are kept.
    pub fn resize(&mut self, width: u32, height: u32) -> (r: SurfaceSettings)
        requires
            old(self)@ is Some,
        ensures
            r == with_extent(old(self)@->Some_0, width, height),
            final(self)@ == Some(r),
    {
        let mut s = self.surface_config.unwrap();
        s.width = width;
        s.height = height;
        self.surface_config = Some(s);
        s
    }

    pub fn is_configured(&self) -> (r: bool)
        ensures
            r == self@ is Some,
    {
        self.surface_config.is_some()
    }

    pub fn surface_config(&self) -> (r: Option<SurfaceSettings>)
        ensures
            r == self@,
    {
        self.surface_config
    }

    pub fn surface_format(&self) -> (r: Option<TextureFormat>)
        ensures
            r is Some <==> self@ is Some,
            r matches Some(f) ==> f == self@->Some_0.format,
    {
        match self.surface_config {
            Some(s) => Some(s.format),
            None => None,
        }
    }
}

/// Resizing to an extent sets exactly that extent, and resizing a second time
/// to the same extent yields the same configuration as the first time.
pub proof fn lemma_resize_idempotent(s: SurfaceSettings, width: u32, height: u32)
    ensures
        with_extent(s, width, height).width == width,
        with_extent(s, width, height).height == height,
        with_extent(with_extent(s, width, height), width, height) == with_extent(s, width, height),
{
}

} // verus!
