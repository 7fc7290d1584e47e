use mem_reduct::commands::{
    armed_hotkey, autostart_reply, autostart_step, clean_request, duplicate_focuses_existing,
    launch_flags, relaunches_elevated, should_autoclean, should_autoclean_at, starts_hidden,
    tray_style, unix_now, AutostartStep,
};
use mem_reduct::config::Config;

#[test]
fn autoclean_threshold_logic() {
    let now = unix_now();
    assert!(should_autoclean(95, true, 90, false, 30, now - 60));
    assert!(!should_autoclean(50, true, 90, false, 30, now - 60));
    assert!(!should_autoclean(95, false, 90, false, 30, now - 60));
    assert!(!should_autoclean(95, true, 90, false, 30, now));
    assert!(should_autoclean(10, false, 90, true, 30, now - 30 * 60));
    assert!(!should_autoclean(10, false, 90, true, 30, now - 60));
}

#[test]
fn autoclean_ignores_zeroed_threshold_and_interval() {
    let now = unix_now();
    assert!(!should_autoclean(0, true, 0, false, 30, now - 60));
    assert!(!should_autoclean(0, false, 90, true, 0, now - 60));
    assert!(should_autoclean(1, true, 0, false, 30, now - 60));
    assert!(!should_autoclean(99, false, 90, false, 0, now - 99 * 60));
}

#[test]
fn autoclean_at_fixed_times() {
    assert!(should_autoclean_at(1_000, 95, true, 90, false, 30, 970));
    assert!(!should_autoclean_at(1_000, 95, true, 90, false, 30, 971));
    assert!(should_autoclean_at(10_000, 0, false, 90, true, 2, 10_000 - 120));
    assert!(!should_autoclean_at(10_000, 0, false, 90, true, 2, 10_000 - 119));
    // A last-cleanup time far in the future never underflows.
    assert!(!should_autoclean_at(i64::MIN, 99, true, 1, true, 1, i64::MAX));
    assert!(should_autoclean_at(i64::MAX, 99, true, 1, false, 1, i64::MIN));
}

#[test]
fn clean_requests_read_their_source() {
    let r = clean_request(None, Some("manual".into()), 0xE7);
    assert!(r.mask == 0xE7 && r.is_manual && !r.is_autoclean && r.source == "manual");
    assert!(relaunches_elevated(&r, false));
    assert!(!relaunches_elevated(&r, true));
    let r = clean_request(Some(3), Some("hotkey".into()), 0xE7);
    assert!(r.mask == 3 && !r.is_manual && r.is_autoclean && r.source == "hotkey");
    let r = clean_request(Some(3), Some("tray".into()), 0xE7);
    assert!(!r.is_manual && !r.is_autoclean);
    let r = clean_request(None, None, 1);
    assert!(r.mask == 1 && !r.is_manual && !r.is_autoclean && r.source == "manual");
    assert!(!relaunches_elevated(&r, false));
}

#[test]
fn autostart_toggle_steps_and_replies() {
    assert!(matches!(autostart_step(true, true), AutostartStep::Install));
    assert!(matches!(autostart_step(false, true), AutostartStep::Remove));
    assert!(matches!(
        autostart_step(true, false),
        AutostartStep::RequestElevation("-ensure-autostart")
    ));
    assert!(matches!(
        autostart_step(false, false),
        AutostartStep::RequestElevation("-disable-autostart")
    ));
    assert_eq!(autostart_reply(AutostartStep::Install, Ok(())), Ok("installed".to_string()));
    assert_eq!(autostart_reply(AutostartStep::Remove, Ok(())), Ok("removed".to_string()));
    assert_eq!(
        autostart_reply(AutostartStep::RequestElevation("-x"), Ok(())),
        Ok("elevation_requested".to_string())
    );
    assert_eq!(
        autostart_reply(AutostartStep::RequestElevation("-x"), Err(String::new())),
        Err("无法请求管理员权限(UAC 被取消)".to_string())
    );
    assert_eq!(
        autostart_reply(AutostartStep::Install, Err("boom".into())),
        Err("boom".to_string())
    );
}

#[test]
fn tray_colours_follow_the_levels() {
    let c = Config::default();
    let s = tray_style(10, &c);
    assert_eq!(s.bg, [0x00, 0x80, 0x40]);
    assert_eq!(s.fg, [0xff, 0xff, 0xff]);
    let s = tray_style(75, &c);
    assert_eq!(s.bg, [0xff, 0x80, 0x40]);
    let s = tray_style(95, &c);
    assert_eq!(s.bg, [0xec, 0x1c, 0x24]);
    let plain = Config { tray_change_bg: false, ..Config::default() };
    let s = tray_style(75, &plain);
    assert_eq!(s.bg, [0x00, 0x80, 0x40]);
    assert_eq!(s.fg, [0xff, 0x80, 0x40]);
    let s = tray_style(95, &plain);
    assert_eq!(s.bg, [0xec, 0x1c, 0x24]);
    assert_eq!(s.fg, [0xec, 0x1c, 0x24]);
}

#[test]
fn hotkey_and_launch_flags() {
    assert_eq!(armed_hotkey(&Config::default()), None);
    let on = Config { hotkey_clean_enable: true, ..Config::default() };
    assert_eq!(armed_hotkey(&on), Some((0x0002, 0x71)));
    let f = launch_flags(&vec!["-startup".to_string(), "x".to_string()]);
    assert!(f.startup && !f.takeover);
    assert!(starts_hidden(false, f));
    assert!(!duplicate_focuses_existing(f));
    let g = launch_flags(&vec!["-takeover".to_string()]);
    assert!(!g.startup && g.takeover);
    assert!(!starts_hidden(false, g));
    assert!(starts_hidden(true, g));
    assert!(duplicate_focuses_existing(g));
}
