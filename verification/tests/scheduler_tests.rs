use wpaperd::scheduler::Scheduler;
use wpaperd::surface::TimerEntry;
use wpaperd::wallpaper_config::{ReloadOutcome, WallpaperConfig};
use wpaperd::wallpaper_info::{ScalingMode, WallpaperInfo};

fn info(path: &str, duration_secs: u64) -> WallpaperInfo {
    WallpaperInfo {
        path: path.to_string(),
        duration_secs,
        mode: ScalingMode::Fill,
    }
}

fn two_output_scheduler() -> Scheduler {
    let mut sched = Scheduler::new();
    assert!(sched.add_surface("eDP-1".to_string(), info("/w/laptop.png", 60)));
    assert!(sched.add_surface("HDMI-1".to_string(), info("/w/desk.png", 3600)));
    sched
}

#[test]
fn duplicate_output_is_not_added_twice() {
    let mut sched = two_output_scheduler();
    assert!(!sched.add_surface("eDP-1".to_string(), info("/w/other.png", 5)));
    assert_eq!(sched.surfaces.len(), 2);
    assert_eq!(sched.surfaces[0].wallpaper_info.path, "/w/laptop.png");
}

#[test]
fn all_configured_needs_every_surface_and_at_least_one() {
    let empty = Scheduler::new();
    assert!(!empty.all_configured());

    let mut sched = two_output_scheduler();
    assert!(!sched.all_configured());
    assert!(sched.configure_surface(&"eDP-1".to_string()));
    assert!(!sched.all_configured());
    assert!(sched.configure_surface(&"HDMI-1".to_string()));
    assert!(sched.all_configured());
    assert!(!sched.configure_surface(&"DP-3".to_string()));
}

#[test]
fn handshake_arms_each_timer_exactly_once() {
    let mut sched = two_output_scheduler();

    // First handshake iteration: nothing is configured, nothing is armed.
    let armed = sched.arm_initial_timers(0);
    assert_eq!(armed, vec![false, false]);

    // Both configure acknowledgments arrive; each surface gets exactly
    // one timer, at its own configured duration.
    sched.configure_surface(&"eDP-1".to_string());
    sched.configure_surface(&"HDMI-1".to_string());
    let armed = sched.arm_initial_timers(2);
    assert_eq!(armed, vec![true, true]);
    assert_eq!(
        sched.surfaces[0].timer,
        Some(TimerEntry {
            armed_at: 2,
            duration_secs: 60
        })
    );
    assert_eq!(
        sched.surfaces[1].timer,
        Some(TimerEntry {
            armed_at: 2,
            duration_secs: 3600
        })
    );

    // A further handshake iteration arms nothing a second time.
    let armed = sched.arm_initial_timers(3);
    assert_eq!(armed, vec![false, false]);
    assert_eq!(sched.surfaces[0].timer.unwrap().armed_at, 2);
}

#[test]
fn paint_plan_covers_configured_due_surfaces_only() {
    let mut sched = two_output_scheduler();
    sched.configure_surface(&"eDP-1".to_string());
    let plan = sched.paint_plan();
    assert_eq!(plan.len(), 2);
    assert_eq!(plan[0].as_ref().map(|w| w.path.clone()), Some("/w/laptop.png".to_string()));
    assert!(plan[1].is_none());
}

#[test]
fn draw_failure_on_one_output_leaves_the_sibling_alone() {
    let mut sched = two_output_scheduler();
    sched.configure_surface(&"eDP-1".to_string());
    sched.configure_surface(&"HDMI-1".to_string());
    sched.arm_initial_timers(0);

    // eDP-1's image is unreadable, its paint fails; HDMI-1's succeeds.
    sched.record_draws(1, &vec![false, true]);

    assert_eq!(sched.surfaces[0].last_draw, None);
    assert!(sched.surfaces[0].due);

    assert_eq!(sched.surfaces[1].last_draw, Some(1));
    assert!(!sched.surfaces[1].due);
    assert!(sched.surfaces[1].configured);
    assert_eq!(
        sched.surfaces[1].timer,
        Some(TimerEntry {
            armed_at: 0,
            duration_secs: 3600
        })
    );
}

#[test]
fn reload_shortening_a_duration_supersedes_the_pending_timer() {
    let mut sched = two_output_scheduler();
    sched.configure_surface(&"eDP-1".to_string());
    sched.configure_surface(&"HDMI-1".to_string());
    sched.arm_initial_timers(0);
    sched.record_draws(0, &vec![true, true]);

    // The configuration file is rewritten at t = 15, with 45 s left on
    // eDP-1's 60 s timer: its duration becomes 10 s.
    let mut cfg = WallpaperConfig::new();
    cfg.insert("eDP-1".to_string(), info("/w/laptop.png", 10));
    cfg.insert("HDMI-1".to_string(), info("/w/desk.png", 3600));
    cfg.reloaded = true;

    let rescheduled = sched.apply_config(&mut cfg, 15);
    assert_eq!(rescheduled, vec![true, false]);
    assert!(!cfg.reloaded);

    // eDP-1 now wakes 10 s from the reload, not 45 s later.
    assert_eq!(
        sched.surfaces[0].timer,
        Some(TimerEntry {
            armed_at: 15,
            duration_secs: 10
        })
    );
    // HDMI-1 is untouched.
    assert_eq!(
        sched.surfaces[1].timer,
        Some(TimerEntry {
            armed_at: 0,
            duration_secs: 3600
        })
    );
    assert_eq!(sched.surfaces[1].wallpaper_info.duration_secs, 3600);
}

#[test]
fn reload_with_flag_down_changes_nothing() {
    let mut sched = two_output_scheduler();
    sched.configure_surface(&"eDP-1".to_string());
    let mut cfg = WallpaperConfig::new();
    cfg.insert("eDP-1".to_string(), info("/w/elsewhere.png", 1));

    let rescheduled = sched.apply_config(&mut cfg, 4);
    assert_eq!(rescheduled, vec![false, false]);
    assert_eq!(sched.surfaces[0].wallpaper_info.path, "/w/laptop.png");
    assert_eq!(sched.surfaces[0].timer, None);
}

#[test]
fn output_absent_from_new_mapping_keeps_previous_settings() {
    let mut sched = two_output_scheduler();
    sched.configure_surface(&"eDP-1".to_string());
    sched.configure_surface(&"HDMI-1".to_string());
    sched.arm_initial_timers(0);

    let mut cfg = WallpaperConfig::new();
    cfg.insert("eDP-1".to_string(), info("/w/laptop.png", 10));
    cfg.reloaded = true;

    let rescheduled = sched.apply_config(&mut cfg, 5);
    assert_eq!(rescheduled, vec![true, false]);
    assert_eq!(sched.surfaces[1].wallpaper_info.path, "/w/desk.png");
    assert_eq!(sched.surfaces[1].wallpaper_info.duration_secs, 3600);
    assert_eq!(
        sched.surfaces[1].timer,
        Some(TimerEntry {
            armed_at: 0,
            duration_secs: 3600
        })
    );
}

#[test]
fn update_durations_rearms_elapsed_surfaces_only() {
    let mut sched = two_output_scheduler();
    sched.configure_surface(&"eDP-1".to_string());
    sched.configure_surface(&"HDMI-1".to_string());
    sched.arm_initial_timers(0);
    sched.record_draws(0, &vec![true, true]);

    let rearmed = sched.update_durations(60);
    assert_eq!(rearmed, vec![true, false]);
    assert!(sched.surfaces[0].due);
    assert!(!sched.surfaces[1].due);
    assert_eq!(
        sched.surfaces[0].timer,
        Some(TimerEntry {
            armed_at: 60,
            duration_secs: 60
        })
    );
}

#[test]
fn steady_state_iteration_reload_before_draw() {
    // One full steady-state tick: the reload is applied to every surface
    // before any draw of the same iteration observes the settings.
    let mut sched = two_output_scheduler();
    sched.configure_surface(&"eDP-1".to_string());
    sched.configure_surface(&"HDMI-1".to_string());
    sched.arm_initial_timers(0);
    sched.record_draws(0, &vec![true, true]);

    let mut cfg = WallpaperConfig::new();
    cfg.insert("eDP-1".to_string(), info("/w/new.png", 60));
    cfg.insert("HDMI-1".to_string(), info("/w/desk.png", 3600));
    cfg.reloaded = true;

    sched.apply_config(&mut cfg, 30);
    sched.update_durations(30);
    let plan = sched.paint_plan();
    // The changed path made eDP-1 due, so this very iteration repaints it
    // with the new settings.
    assert_eq!(plan[0].as_ref().map(|w| w.path.clone()), Some("/w/new.png".to_string()));
    assert!(plan[1].is_none());
    sched.record_draws(30, &vec![true, true]);
    assert_eq!(sched.surfaces[0].last_draw, Some(30));
}

#[test]
fn equal_reload_is_end_to_end_silent() {
    let mut sched = two_output_scheduler();
    sched.configure_surface(&"eDP-1".to_string());
    sched.configure_surface(&"HDMI-1".to_string());
    sched.arm_initial_timers(0);
    sched.record_draws(0, &vec![true, true]);

    let mut cfg = WallpaperConfig::new();
    cfg.insert("eDP-1".to_string(), info("/w/laptop.png", 60));
    cfg.insert("HDMI-1".to_string(), info("/w/desk.png", 3600));

    // The file is touched but its content parses to the same value.
    let mut rewritten = WallpaperConfig::new();
    rewritten.insert("eDP-1".to_string(), info("/w/laptop.png", 60));
    rewritten.insert("HDMI-1".to_string(), info("/w/desk.png", 3600));

    let outcome = cfg.handle_reload(Some(rewritten));
    assert_eq!(outcome, ReloadOutcome::Unchanged);
    assert!(!cfg.reloaded);

    let rescheduled = sched.apply_config(&mut cfg, 20);
    assert_eq!(rescheduled, vec![false, false]);
    assert_eq!(sched.surfaces[0].timer.unwrap().armed_at, 0);
    assert_eq!(sched.surfaces[0].wallpaper_info.path, "/w/laptop.png");
    assert!(!sched.surfaces[0].due);
    assert!(!sched.surfaces[1].due);
}
