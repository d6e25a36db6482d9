use myoncore::graphics::Graphics;
use myoncore::surface::{
    negotiate, preferred_index, select_format, ConfigureError, SurfaceCaps, MAX_FRAME_LATENCY,
};
use wgpu::{CompositeAlphaMode, PresentMode, TextureFormat};

fn caps(formats: Vec<TextureFormat>) -> SurfaceCaps {
    SurfaceCaps {
        formats,
        present_modes: vec![PresentMode::Fifo, PresentMode::Mailbox],
        alpha_modes: vec![CompositeAlphaMode::Opaque, CompositeAlphaMode::PreMultiplied],
    }
}

#[test]
fn preferred_index_picks_first_flagged() {
    assert_eq!(preferred_index(&vec![false, true, true]), Some(1));
    assert_eq!(preferred_index(&vec![true, false]), Some(0));
}

#[test]
fn preferred_index_falls_back_to_first() {
    assert_eq!(preferred_index(&vec![false, false]), Some(0));
    assert_eq!(preferred_index(&vec![false]), Some(0));
}

#[test]
fn preferred_index_of_nothing() {
    assert_eq!(preferred_index(&vec![]), None);
}

#[test]
fn select_format_prefers_first_srgb() {
    let formats = vec![
        TextureFormat::Rgba8Unorm,
        TextureFormat::Rgba8UnormSrgb,
        TextureFormat::Bgra8UnormSrgb,
    ];
    assert_eq!(select_format(&formats), Some(TextureFormat::Rgba8UnormSrgb));
}

#[test]
fn select_format_falls_back_to_first_listed() {
    let formats = vec![TextureFormat::Rgba8Unorm, TextureFormat::Bgra8Unorm];
    assert_eq!(select_format(&formats), Some(TextureFormat::Rgba8Unorm));
}

#[test]
fn select_format_of_empty_list() {
    assert_eq!(select_format(&vec![]), None);
}

#[test]
fn negotiate_takes_first_modes_and_extent() {
    let c = caps(vec![TextureFormat::Bgra8Unorm, TextureFormat::Bgra8UnormSrgb]);
    let s = negotiate(&c, 800, 600).unwrap();
    assert_eq!(s.format, TextureFormat::Bgra8UnormSrgb);
    assert_eq!(s.present_mode, PresentMode::Fifo);
    assert_eq!(s.alpha_mode, CompositeAlphaMode::Opaque);
    assert_eq!((s.width, s.height), (800, 600));
    assert_eq!(s.max_frame_latency, 2);
    assert_eq!(MAX_FRAME_LATENCY, 2);
}

#[test]
fn negotiate_reports_missing_formats() {
    assert_eq!(negotiate(&caps(vec![]), 1, 1).err(), Some(ConfigureError::NoFormat));
}

#[test]
fn negotiate_reports_missing_present_modes() {
    let mut c = caps(vec![TextureFormat::Rgba8Unorm]);
    c.present_modes.clear();
    assert_eq!(negotiate(&c, 1, 1).err(), Some(ConfigureError::NoPresentMode));
}

#[test]
fn negotiate_reports_missing_alpha_modes() {
    let mut c = caps(vec![TextureFormat::Rgba8Unorm]);
    c.alpha_modes.clear();
    assert_eq!(negotiate(&c, 1, 1).err(), Some(ConfigureError::NoAlphaMode));
}

#[test]
fn graphics_unconfigured_until_configure() {
    let mut g = Graphics::new();
    assert!(!g.is_configured());
    assert!(g.surface_config().is_none());
    assert!(g.surface_format().is_none());
    let s = g.configure(&caps(vec![TextureFormat::Rgba8UnormSrgb]), 640, 480).unwrap();
    assert!(g.is_configured());
    assert_eq!(g.surface_format(), Some(TextureFormat::Rgba8UnormSrgb));
    assert_eq!((s.width, s.height), (640, 480));
}

#[test]
fn graphics_failed_configure_keeps_nothing() {
    let mut g = Graphics::new();
    assert_eq!(g.configure(&caps(vec![]), 640, 480).err(), Some(ConfigureError::NoFormat));
    assert!(!g.is_configured());
}

#[test]
fn resize_twice_to_same_extent() {
    let mut g = Graphics::new();
    g.configure(&caps(vec![TextureFormat::Rgba8Unorm, TextureFormat::Bgra8UnormSrgb]), 800, 600)
        .unwrap();
    let first = g.resize(1024, 768);
    let second = g.resize(1024, 768);
    assert_eq!((first.width, first.height), (1024, 768));
    assert_eq!((second.width, second.height), (1024, 768));
    assert_eq!(first.format, second.format);
    assert_eq!(first.present_mode, second.present_mode);
    assert_eq!(first.alpha_mode, second.alpha_mode);
    assert_eq!(first.max_frame_latency, second.max_frame_latency);
    let stored = g.surface_config().unwrap();
    assert_eq!((stored.width, stored.height), (1024, 768));
    assert_eq!(stored.format, TextureFormat::Bgra8UnormSrgb);
}
