use wpaperd::wallpaper_config::{ReloadOutcome, WallpaperConfig};
use wpaperd::wallpaper_info::{ScalingMode, WallpaperInfo};

fn info(path: &str, duration_secs: u64) -> WallpaperInfo {
    WallpaperInfo {
        path: path.to_string(),
        duration_secs,
        mode: ScalingMode::Fit,
    }
}

#[test]
fn new_config_is_empty_with_flag_down() {
    let cfg = WallpaperConfig::new();
    assert!(!cfg.reloaded);
    assert!(cfg.entries.is_empty());
    assert!(cfg.get_output_by_name(&"eDP-1".to_string()).is_none());
}

#[test]
fn insert_then_lookup_by_name() {
    let mut cfg = WallpaperConfig::new();
    cfg.insert("eDP-1".to_string(), info("/w/a.png", 60));
    cfg.insert("HDMI-1".to_string(), info("/w/b.png", 3600));

    let found = cfg.get_output_by_name(&"HDMI-1".to_string()).unwrap();
    assert_eq!(found.path, "/w/b.png");
    assert_eq!(found.duration_secs, 3600);
    assert!(cfg.get_output_by_name(&"DP-3".to_string()).is_none());
}

#[test]
fn insert_replaces_the_entry_of_an_existing_name() {
    let mut cfg = WallpaperConfig::new();
    cfg.insert("eDP-1".to_string(), info("/w/a.png", 60));
    cfg.insert("eDP-1".to_string(), info("/w/b.png", 10));

    assert_eq!(cfg.entries.len(), 1);
    let found = cfg.get_output_by_name(&"eDP-1".to_string()).unwrap();
    assert_eq!(found.path, "/w/b.png");
    assert_eq!(found.duration_secs, 10);
}

#[test]
fn same_as_compares_structurally() {
    let a = info("/w/a.png", 60);
    let b = info("/w/a.png", 60);
    let c = info("/w/a.png", 61);
    assert!(a.same_as(&b));
    assert!(!a.same_as(&c));
    let d = WallpaperInfo {
        mode: ScalingMode::Fill,
        ..info("/w/a.png", 60)
    };
    assert!(!a.same_as(&d));
}

#[test]
fn reload_with_parse_failure_keeps_previous_configuration() {
    let mut cfg = WallpaperConfig::new();
    cfg.insert("eDP-1".to_string(), info("/w/a.png", 60));

    let outcome = cfg.handle_reload(None);
    assert_eq!(outcome, ReloadOutcome::ParseFailed);
    assert!(!cfg.reloaded);
    let kept = cfg.get_output_by_name(&"eDP-1".to_string()).unwrap();
    assert_eq!(kept.path, "/w/a.png");
}

#[test]
fn reload_with_equal_value_is_a_noop() {
    let mut cfg = WallpaperConfig::new();
    cfg.insert("eDP-1".to_string(), info("/w/a.png", 60));

    let mut same = WallpaperConfig::new();
    same.insert("eDP-1".to_string(), info("/w/a.png", 60));

    let outcome = cfg.handle_reload(Some(same));
    assert_eq!(outcome, ReloadOutcome::Unchanged);
    assert!(!cfg.reloaded);
}

#[test]
fn reload_with_different_value_installs_and_raises_the_flag() {
    let mut cfg = WallpaperConfig::new();
    cfg.insert("eDP-1".to_string(), info("/w/a.png", 60));

    let mut newer = WallpaperConfig::new();
    newer.insert("eDP-1".to_string(), info("/w/a.png", 10));

    let outcome = cfg.handle_reload(Some(newer));
    assert_eq!(outcome, ReloadOutcome::Installed);
    assert!(cfg.reloaded);
    let now = cfg.get_output_by_name(&"eDP-1".to_string()).unwrap();
    assert_eq!(now.duration_secs, 10);
}

#[test]
fn entries_equal_is_order_sensitive_and_structural() {
    let mut a = WallpaperConfig::new();
    a.insert("eDP-1".to_string(), info("/w/a.png", 60));
    a.insert("HDMI-1".to_string(), info("/w/b.png", 30));

    let mut b = WallpaperConfig::new();
    b.insert("eDP-1".to_string(), info("/w/a.png", 60));
    b.insert("HDMI-1".to_string(), info("/w/b.png", 30));
    assert!(a.entries_equal(&b));

    let mut c = WallpaperConfig::new();
    c.insert("HDMI-1".to_string(), info("/w/b.png", 30));
    c.insert("eDP-1".to_string(), info("/w/a.png", 60));
    assert!(!a.entries_equal(&c));
}
