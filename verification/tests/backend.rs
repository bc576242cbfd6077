use pebble::backend::{
    choose_present_mode, choose_surface_format, classify_acquire, route_color_target, AcquireDecision, ColorRoute,
    MsaaTarget, PresentMode, SurfaceAcquire, SurfaceState,
};
use pebble::mesh::{mesh_warnings, MeshWarning};
use pebble::texture_format::TextureFormat;

#[test]
fn the_first_srgb_surface_format_is_preferred() {
    let formats = vec![TextureFormat::Bgra8Unorm, TextureFormat::Rgba8UnormSrgb, TextureFormat::Bgra8UnormSrgb];
    assert_eq!(choose_surface_format(&formats), TextureFormat::Rgba8UnormSrgb);
    assert_eq!(choose_surface_format(&vec![TextureFormat::Rgba16Float, TextureFormat::Bgra8Unorm]), TextureFormat::Rgba16Float);
}

#[test]
fn fifo_is_preferred_wherever_it_is_listed() {
    assert_eq!(choose_present_mode(&vec![PresentMode::Mailbox, PresentMode::Fifo]), PresentMode::Fifo);
    assert_eq!(choose_present_mode(&vec![PresentMode::Immediate, PresentMode::Mailbox]), PresentMode::Immediate);
}

#[test]
fn a_minimized_window_does_not_reconfigure_the_surface() {
    let mut surface = SurfaceState::new(800, 600, TextureFormat::Bgra8UnormSrgb, PresentMode::Fifo);
    assert!(!surface.resize(0, 600));
    assert_eq!((surface.surface_width(), surface.surface_height()), (800, 600));
    assert!(surface.resize(1024, 768));
    assert_eq!((surface.surface_width(), surface.surface_height()), (1024, 768));
}

#[test]
fn the_msaa_target_exists_only_above_one_sample_and_follows_the_surface() {
    let mut surface = SurfaceState::new(800, 600, TextureFormat::Bgra8UnormSrgb, PresentMode::Fifo);
    assert_eq!(surface.sample_count(), 1);
    assert_eq!(surface.msaa_target(), None);
    surface.set_msaa(4);
    surface.resize(640, 480);
    assert_eq!(
        surface.msaa_target(),
        Some(MsaaTarget { width: 640, height: 480, sample_count: 4, format: TextureFormat::Bgra8UnormSrgb })
    );
    surface.set_msaa(1);
    assert_eq!(surface.msaa_target(), None);
}

#[test]
fn acquire_outcomes_are_rendered_skipped_or_fatal() {
    assert_eq!(classify_acquire(SurfaceAcquire::Success), AcquireDecision::Render);
    assert_eq!(classify_acquire(SurfaceAcquire::Suboptimal), AcquireDecision::Render);
    assert_eq!(classify_acquire(SurfaceAcquire::Timeout), AcquireDecision::Transient);
    assert_eq!(classify_acquire(SurfaceAcquire::Occluded), AcquireDecision::Transient);
    assert_eq!(classify_acquire(SurfaceAcquire::Outdated), AcquireDecision::Transient);
    assert_eq!(classify_acquire(SurfaceAcquire::Lost), AcquireDecision::Fatal);
    assert_eq!(classify_acquire(SurfaceAcquire::Validation), AcquireDecision::Fatal);
}

#[test]
fn the_default_target_resolves_through_msaa_when_active() {
    assert_eq!(route_color_target(false, false), ColorRoute::Surface);
    assert_eq!(route_color_target(false, true), ColorRoute::MsaaResolvingToSurface);
    assert_eq!(route_color_target(true, true), ColorRoute::Custom);
}

#[test]
fn empty_meshes_are_warned_about() {
    assert_eq!(mesh_warnings(0, 0), vec![MeshWarning::NoVertices, MeshWarning::NoIndices]);
    assert_eq!(mesh_warnings(3, 0), vec![MeshWarning::NoIndices]);
    assert!(mesh_warnings(3, 3).is_empty());
}
