use render_core::color::{Color, State};
use render_core::renderer::{first_supported, App, Frame, RenderError, SurfaceConfig, MAX_LOST_FRAMES};

fn app(w: u32, h: u32) -> App {
    App::new(true, w, h).unwrap()
}

#[test]
fn new_without_backend_is_unavailable() {
    assert_eq!(App::new(false, 800, 600).err(), Some(RenderError::BackendUnavailable));
    assert_eq!(App::new(false, 0, 0).err(), Some(RenderError::BackendUnavailable));
}

#[test]
fn new_with_zero_extent_is_invalid() {
    assert_eq!(App::new(true, 0, 600).err(), Some(RenderError::InvalidDimensions));
    assert_eq!(App::new(true, 800, 0).err(), Some(RenderError::InvalidDimensions));
}

#[test]
fn new_configures_initial_size() {
    let a = app(800, 600);
    assert_eq!(a.config(), SurfaceConfig { width: 800, height: 600 });
    assert!(!a.is_exhausted());
}

#[test]
fn resize_then_render_has_new_extent() {
    let mut a = app(800, 600);
    assert_eq!(a.resize(1024, 768), Ok(()));
    let f = a.render(Color::green(), true).unwrap();
    assert_eq!(
        f,
        Frame { clear: Color::green(), width: 1024, height: 768, vertex_count: 3, instance_count: 1 }
    );
}

#[test]
fn resize_to_largest_extent() {
    let mut a = app(1, 1);
    assert_eq!(a.resize(u32::MAX, u32::MAX), Ok(()));
    let f = a.render(Color::red(), true).unwrap();
    assert_eq!((f.width, f.height), (u32::MAX, u32::MAX));
}

#[test]
fn resize_zero_width_is_rejected_and_keeps_config() {
    let mut a = app(800, 600);
    assert_eq!(a.resize(0, 480), Err(RenderError::InvalidDimensions));
    assert_eq!(a.config(), SurfaceConfig { width: 800, height: 600 });
}

#[test]
fn resize_zero_height_is_rejected_and_keeps_config() {
    let mut a = app(800, 600);
    assert_eq!(a.resize(640, 0), Err(RenderError::InvalidDimensions));
    assert_eq!(a.config(), SurfaceConfig { width: 800, height: 600 });
    assert_eq!(a.resize(0, 0), Err(RenderError::InvalidDimensions));
    assert_eq!(a.config(), SurfaceConfig { width: 800, height: 600 });
}

#[test]
fn repeated_resize_is_idempotent() {
    let mut once = app(800, 600);
    let mut twice = app(800, 600);
    assert_eq!(once.resize(320, 200), Ok(()));
    assert_eq!(twice.resize(320, 200), Ok(()));
    assert_eq!(twice.resize(320, 200), Ok(()));
    assert_eq!(once.config(), twice.config());
    assert_eq!(twice.config(), SurfaceConfig { width: 320, height: 200 });
}

#[test]
fn lost_image_reports_surface_lost() {
    let mut a = app(800, 600);
    assert_eq!(a.render(Color::red(), false), Err(RenderError::SurfaceLost));
    assert!(!a.is_exhausted());
    assert_eq!(a.config(), SurfaceConfig { width: 800, height: 600 });
}

#[test]
fn consecutive_losses_exhaust_retries() {
    let mut a = app(800, 600);
    for i in 0..MAX_LOST_FRAMES {
        assert!(!a.is_exhausted());
        assert_eq!(a.render(Color::red(), false), Err(RenderError::SurfaceLost), "loss {}", i);
    }
    assert!(a.is_exhausted());
    assert_eq!(MAX_LOST_FRAMES, 3);
}

#[test]
fn drawn_frame_resets_losses() {
    let mut a = app(800, 600);
    assert!(a.render(Color::red(), false).is_err());
    assert!(a.render(Color::red(), false).is_err());
    assert!(a.render(Color::red(), true).is_ok());
    assert!(a.render(Color::red(), false).is_err());
    assert!(a.render(Color::red(), false).is_err());
    assert!(!a.is_exhausted());
}

#[test]
fn update_switches_to_green() {
    let mut s = State::new();
    App::update(&mut s);
    assert_eq!(s.get_color(), Color::green());
    App::update(&mut s);
    assert_eq!(s.get_color(), Color::green());
}

#[test]
fn first_supported_picks_the_first() {
    assert_eq!(first_supported(&vec![7u8, 3, 9]), Some(7));
    assert_eq!(first_supported::<u8>(&vec![]), None);
}
