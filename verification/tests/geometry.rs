use mapbox_pool::geometry::JumpToOptions;
use mapbox_pool::geometry::LatLng;
use mapbox_pool::geometry::MapOptions;
use mapbox_pool::geometry::PixelRatio;
use mapbox_pool::geometry::RunLoopType;
use mapbox_pool::geometry::Size;
use mapbox_pool::geometry::DEFAULT_RENDER_RETRIES;
use mapbox_pool::geometry::DEFAULT_ZOOM;
use mapbox_pool::geometry::MAX_DIMENSION;
use mapbox_pool::geometry::MIN_DIMENSION;

#[test]
fn size_limits_are_64_and_2000() {
    assert_eq!(MIN_DIMENSION, 64);
    assert_eq!(MAX_DIMENSION, 2000);
}

#[test]
fn size_within_limits_is_valid() {
    assert!(Size(512, 512).is_valid());
    assert!(Size(800, 600).is_valid());
    assert!(Size(64, 64).is_valid());
    assert!(Size(2000, 2000).is_valid());
    assert!(Size(64, 2000).is_valid());
}

#[test]
fn size_below_the_minimum_is_invalid() {
    assert!(!Size(0, 0).is_valid());
    assert!(!Size(63, 64).is_valid());
    assert!(!Size(64, 63).is_valid());
    assert!(!Size(0, 512).is_valid());
}

#[test]
fn size_above_the_maximum_is_invalid() {
    assert!(!Size(2001, 2000).is_valid());
    assert!(!Size(2000, 2001).is_valid());
    assert!(!Size(u32::MAX, u32::MAX).is_valid());
}

#[test]
fn default_size_is_empty() {
    assert_eq!(Size::default(), Size(0, 0));
}

#[test]
fn default_zoom_is_five() {
    assert_eq!(f64::from_bits(DEFAULT_ZOOM), 5.0);
}

#[test]
fn jump_without_zoom_resolves_to_the_default() {
    let jump = JumpToOptions { center: LatLng(0, 0), zoom: None };
    assert_eq!(f64::from_bits(jump.resolved_zoom()), 5.0);
}

#[test]
fn jump_with_zoom_resolves_to_it() {
    let jump = JumpToOptions { center: LatLng(0, 0), zoom: Some(18.0f64.to_bits()) };
    assert_eq!(f64::from_bits(jump.resolved_zoom()), 18.0);
}

#[test]
fn default_center_is_the_origin() {
    let origin = LatLng::default();
    assert_eq!(f64::from_bits(origin.0), 0.0);
    assert_eq!(f64::from_bits(origin.1), 0.0);
}

#[test]
fn pixel_ratio_as_int() {
    assert_eq!(PixelRatio::Normal.as_int(), 1);
    assert_eq!(PixelRatio::Retina.as_int(), 2);
    assert_eq!(PixelRatio::default(), PixelRatio::Normal);
}

#[test]
fn run_loop_codes() {
    assert_eq!(RunLoopType::New.code(), 0);
    assert_eq!(RunLoopType::Default.code(), 1);
}

#[test]
fn default_map_options() {
    let options = MapOptions::default();
    assert_eq!(options.size, Size(512, 512));
    assert_eq!(options.pixel_ratio, PixelRatio::Normal);
    assert_eq!(options.access_token, None);
    assert_eq!(options.cache_path, None);
    assert_eq!(options.assets_path, None);
    assert_eq!(options.render_retries, 5);
    assert_eq!(DEFAULT_RENDER_RETRIES, 5);
}

#[test]
fn resolve_zoom_keeps_a_given_level() {
    assert_eq!(mapbox_pool::geometry::resolve_zoom(Some(7.25f64.to_bits())), 7.25f64.to_bits());
    assert_eq!(mapbox_pool::geometry::resolve_zoom(Some(0)), 0);
    assert_eq!(mapbox_pool::geometry::resolve_zoom(None), 5.0f64.to_bits());
}
