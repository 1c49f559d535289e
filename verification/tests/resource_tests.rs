use screensnap::config::{CaptureConfig, OutputResolution};
use screensnap::frame::PixelEncoding;
use screensnap::resource::{build_resource, BuildError, HostBuild, SharedCaptureResource};

#[test]
fn default_config_matches_still_capture() {
    let c = CaptureConfig::default();
    assert_eq!(c.fps, 1);
    assert_eq!(c.target, None);
    assert!(!c.show_cursor);
    assert!(!c.show_highlight);
    assert!(c.excluded_targets.is_none());
    assert_eq!(c.output_encoding, PixelEncoding::Bgra);
    assert_eq!(c.output_resolution, OutputResolution::Hd1080);
    assert_eq!(c.crop_area, None);
    assert_eq!(c.backend, None);
}

#[test]
fn build_binds_the_given_config() {
    let config = CaptureConfig::default();
    let built = build_resource(config.clone(), HostBuild::Ready).unwrap();
    assert_eq!(built.config, config);
}

#[test]
fn build_failure_carries_the_platform_cause() {
    let err = build_resource(
        CaptureConfig::default(),
        HostBuild::Failed(String::from("backend unavailable")),
    )
    .unwrap_err();
    assert_eq!(err, BuildError { cause: String::from("backend unavailable") });
}

#[test]
fn fresh_slot_has_nothing_cached() {
    let slot = SharedCaptureResource::new();
    assert_eq!(slot.cached_outcome(), None);
}

/// The first call fixes the configuration; a later call with a different
/// configuration is ignored and observes the same instance.
#[test]
fn second_init_observes_the_first_instance() {
    let mut slot = SharedCaptureResource::new();
    let first_config = CaptureConfig::default();
    let first = slot.get_or_init(first_config.clone(), HostBuild::Ready);
    assert_eq!(first.as_ref().unwrap().config, first_config);

    let mut other_config = CaptureConfig::default();
    other_config.fps = 30;
    other_config.show_cursor = true;
    let second = slot.get_or_init(other_config, HostBuild::Failed(String::from("ignored")));
    assert_eq!(second.as_ref().unwrap().config, first_config);
    assert_eq!(first, second);
    assert_eq!(slot.cached_outcome(), Some(second));
}

/// A construction failure is cached too: both callers observe the same
/// failure, and no rebuild is attempted.
#[test]
fn build_failure_is_cached_for_the_process() {
    let mut slot = SharedCaptureResource::new();
    let first = slot.get_or_init(
        CaptureConfig::default(),
        HostBuild::Failed(String::from("no capture backend")),
    );
    assert_eq!(
        first.as_ref().unwrap_err(),
        &BuildError { cause: String::from("no capture backend") }
    );

    let second = slot.get_or_init(CaptureConfig::default(), HostBuild::Ready);
    assert_eq!(first, second);
    assert_eq!(slot.cached_outcome(), Some(second));
}
