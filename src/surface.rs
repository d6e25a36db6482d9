use vstd::prelude::*;
use wgpu::{CompositeAlphaMode, PresentMode, TextureFormat};

verus! {

#[verifier::external_type_specification]
#[verifier::external_body]
pub struct ExTextureFormat(wgpu::TextureFormat);

#[verifier::external_type_specification]
#[verifier::external_body]
pub struct ExPresentMode(wgpu::PresentMode);

#[verifier::external_type_specification]
#[verifier::external_body]
pub struct ExCompositeAlphaMode(wgpu::CompositeAlphaMode);

/// Whether wgpu counts a texture format as sRGB-encoded (gamma-corrected).
pub uninterp spec fn srgb_format(f: TextureFormat) -> bool;

/// Relies on `wgpu::TextureFormat::is_srgb`, which compares the format with
/// the format stripped of its sRGB suffix: a function of the format alone.
#[verifier::external_body]
fn format_is_srgb(f: &TextureFormat) -> (r: bool)
    ensures
        r == srgb_format(*f),
{
    f.is_srgb()
}

/// Frame latency that every negotiated configuration asks for.
pub const MAX_FRAME_LATENCY: u32 = 2;

/// The sRGB flag of each format, in order.
pub open spec fn srgb_flags(formats: Seq<TextureFormat>) -> Seq<bool> {
    formats.map_values(|f: TextureFormat| srgb_format(f))
}

/// `i` is the position that format selection settles on: the first flagged
/// entry, or the first entry when none is flagged.
pub open spec fn is_preferred(flags: Seq<bool>, i: int) -> bool {
    &&& 0 <= i < flags.len()
    &&& forall|j: int| 0 <= j < i ==> !flags[j]
    &&& (flags[i] || (i == 0 && forall|j: int| 0 <= j < flags.len() ==> !flags[j]))
}

/// At most one position is preferred.
pub proof fn lemma_preferred_unique(flags: Seq<bool>, i: int, k: int)
    requires
        is_preferred(flags, i),
        is_preferred(flags, k),
    ensures
        i == k,
{
    if i < k {
        assert(!flags[i]);
    } else if k < i {
        assert(!flags[k]);
    }
}

/// What the window surface supports, as reported by the adapter.
pub struct SurfaceCaps {
    pub formats: Vec<TextureFormat>,
    pub present_modes: Vec<PresentMode>,
    pub alpha_modes: Vec<CompositeAlphaMode>,
}

/// A negotiated surface configuration.
#[derive(Clone, Copy)]
pub struct SurfaceSettings {
    pub format: TextureFormat,
    pub present_mode: PresentMode,
    pub alpha_mode: CompositeAlphaMode,
    pub width: u32,
    pub height: u32,
    pub max_frame_latency: u32,
}

/// Why no configuration could be negotiated.
#[derive(PartialEq, Eq, Structural, Clone, Copy, Debug)]
pub enum ConfigureError {
    NoFormat,
    NoPresentMode,
    NoAlphaMode,
}

/// The capability set offers something of each kind.
pub open spec fn caps_usable(caps: &SurfaceCaps) -> bool {
    &&& caps.formats@.len() > 0
    &&& caps.present_modes@.len() > 0
    &&& caps.alpha_modes@.len() > 0
}

/// The error that negotiation reports for an unusable capability set.
pub open spec fn caps_error(caps: &SurfaceCaps) -> ConfigureError {
    if caps.formats@.len() == 0 {
        ConfigureError::NoFormat
    } else if caps.present_modes@.len() == 0 {
        ConfigureError::NoPresentMode
    } else {
        ConfigureError::NoAlphaMode
    }
}

/// `s` is the configuration negotiated from `caps` for a `width` x `height`
/// surface: preferred format, first present mode, first alpha mode.
pub open spec fn negotiated(s: SurfaceSettings, caps: &SurfaceCaps, width: u32, height: u32) -> bool {
    &&& exists|i: int| is_preferred(srgb_flags(caps.formats@), i) && s.format == caps.formats@[i]
    &&& s.present_mode == caps.present_modes@[0]
    &&& s.alpha_mode == caps.alpha_modes@[0]
    &&& s.width == width
    &&& s.height == height
    &&& s.max_frame_latency == MAX_FRAME_LATENCY
}

/// `t` is `s` with its extent replaced.
pub open spec fn with_extent(s: SurfaceSettings, width: u32, height: u32) -> SurfaceSettings {
    SurfaceSettings { width, height, ..s }
}

/// Index of the first flagged entry, else 0; `None` for an empty list.
pub fn preferred_index(flags: &Vec<bool>) -> (r: Option<usize>)
    ensures
        r is None <==> flags@.len() == 0,
        r matches Some(i) ==> is_preferred(flags@, i as int),
{
    if flags.len() == 0 {
        return None;
    }
    let mut i: usize = 0;
    while i < flags.len()
        invariant
            i <= flags@.len(),
            forall|j: int| 0 <= j < i ==> !flags@[j],
        decreases flags@.len() - i,
    {
        if flags[i] {
            return Some(i);
        }
        i = i + 1;
    }
    Some(0)
}

/// The format a surface is configured with: the first sRGB format, else the
/// first one listed; `None` when the list is empty.
pub fn select_format(formats: &Vec<TextureFormat>) -> (r: Option<TextureFormat>)
    ensures
        r is None <==> formats@.len() == 0,
        r matches Some(f) ==> exists|i: int|
            is_preferred(srgb_flags(formats@), i) && f == formats@[i],
{
    let mut flags: Vec<bool> = Vec::new();
    let mut k: usize = 0;
    while k < formats.len()
        invariant
            k <= formats@.len(),
            flags@ == srgb_flags(formats@.subrange(0, k as int)),
        decreases formats@.len() - k,
    {
        let s = format_is_srgb(&formats[k]);
        flags.push(s);
        k = k + 1;
        assert(formats@.subrange(0, k as int) == formats@.subrange(0, k - 1).push(formats@[k - 1]));
    }
    assert(formats@.subrange(0, formats@.len() as int) == formats@);
    match preferred_index(&flags) {
        None => None,
        Some(i) => Some(formats[i]),
    }
}

/// Negotiates a configuration for a `width` x `height` surface.
pub fn negotiate(caps: &SurfaceCaps, width: u32, height: u32) -> (r: Result<SurfaceSettings, ConfigureError>)
    ensures
        r is Ok <==> caps_usable(caps),
        r matches Ok(s) ==> negotiated(s, caps, width, height),
        r matches Err(e) ==> e == caps_error(caps),
{
    let format = match select_format(&caps.formats) {
        Some(f) => f,
        None => return Err(ConfigureError::NoFormat),
    };
    if caps.present_modes.len() == 0 {
        return Err(ConfigureError::NoPresentMode);
    }
    if caps.alpha_modes.len() == 0 {
        return Err(ConfigureError::NoAlphaMode);
    }
    Ok(SurfaceSettings {
        format,
        present_mode: caps.present_modes[0],
        alpha_mode: caps.alpha_modes[0],
        width,
        height,
        max_frame_latency: MAX_FRAME_LATENCY,
    })
}

} // verus!
