use webshot::config::ConfigError;
use webshot::config::DEFAULT_BUDGET_MS;
use webshot::config::DEFAULT_CONCURRENCY;
use webshot::config::DEFAULT_HEIGHT;
use webshot::config::DEFAULT_WIDTH;
use webshot::config::build_config;
use webshot::config::concurrency_from;
use webshot::config::dimension_or;
use webshot::config::parse_u32;
use webshot::supervisor::FatalError;
use webshot::supervisor::Supervisor;
use webshot::supervisor::discover_driver;

#[test]
fn parse_u32_accepts_digits() {
    assert_eq!(parse_u32("42"), Some(42));
    assert_eq!(parse_u32("0"), Some(0));
    assert_eq!(parse_u32("4294967295"), Some(u32::MAX));
}

#[test]
fn parse_u32_rejects_junk() {
    assert_eq!(parse_u32(""), None);
    assert_eq!(parse_u32("12a"), None);
    assert_eq!(parse_u32("-4"), None);
    assert_eq!(parse_u32("4294967296"), None);
}

#[test]
fn dimension_falls_back_to_default() {
    assert_eq!(dimension_or(None, DEFAULT_WIDTH), 1400);
    assert_eq!(dimension_or(Some("800"), DEFAULT_WIDTH), 800);
    assert_eq!(dimension_or(Some("junk"), DEFAULT_HEIGHT), 900);
}

#[test]
fn concurrency_defaults_and_rejects() {
    assert_eq!(concurrency_from(None), Ok(DEFAULT_CONCURRENCY));
    assert_eq!(concurrency_from(Some("2")), Ok(2));
    assert!(matches!(concurrency_from(Some("0")), Err(ConfigError::InvalidConcurrency)));
    assert!(matches!(concurrency_from(Some("many")), Err(ConfigError::InvalidConcurrency)));
}

#[test]
fn build_config_defaults() {
    let c = build_config(None, None, None, None, None).expect("defaults are accepted");
    assert_eq!(c.concurrency, 4);
    assert_eq!(c.budget_ms, DEFAULT_BUDGET_MS);
    assert_eq!(c.width, 1400);
    assert_eq!(c.height, 900);
    assert_eq!(c.output_dir, "screenshots");
    assert_eq!(c.driver_path, None);
}

#[test]
fn build_config_explicit_values() {
    let c = build_config(
        Some("8"),
        Some("1024"),
        Some("768"),
        Some(String::from("shots")),
        Some(String::from("/usr/bin/chromium")),
    )
    .expect("well-formed values are accepted");
    assert_eq!(c.concurrency, 8);
    assert_eq!(c.width, 1024);
    assert_eq!(c.height, 768);
    assert_eq!(c.output_dir, "shots");
    assert_eq!(c.driver_path.as_deref(), Some("/usr/bin/chromium"));
}

#[test]
fn build_config_rejects_zero_workers() {
    assert!(matches!(
        build_config(Some("0"), None, None, None, None),
        Err(ConfigError::InvalidConcurrency)
    ));
}

#[test]
fn discovery_prefers_explicit_path() {
    let r = discover_driver(
        Some(String::from("/opt/custom/chrome")),
        Some(String::from("/env/chrome")),
        vec![String::from("/usr/bin/chromium")],
    );
    assert_eq!(r, Ok(String::from("/opt/custom/chrome")));
}

#[test]
fn discovery_falls_back_to_environment() {
    let r = discover_driver(None, Some(String::from("/env/chrome")), Vec::new());
    assert_eq!(r, Ok(String::from("/env/chrome")));
}

#[test]
fn discovery_takes_first_known_install() {
    let r = discover_driver(
        None,
        None,
        vec![String::from("/usr/bin/chromium"), String::from("/usr/bin/google-chrome")],
    );
    assert_eq!(r, Ok(String::from("/usr/bin/chromium")));
}

#[test]
fn discovery_with_nothing_fails() {
    let r = discover_driver(None, None, Vec::new());
    assert!(matches!(r, Err(FatalError::DriverNotFound)));
}

#[test]
fn supervisor_release_leaves_nothing_alive() {
    let mut sup = Supervisor::new();
    assert_eq!(sup.live_child_count(), 0);
    sup.record_spawn();
    assert!(sup.is_running());
    assert_eq!(sup.live_child_count(), 1);
    sup.record_handle_opened();
    sup.record_handle_opened();
    assert_eq!(sup.open_handle_count(), 2);
    sup.release();
    assert!(sup.is_released());
    assert_eq!(sup.live_child_count(), 0);
    assert_eq!(sup.open_handle_count(), 0);
}
