use mem_reduct::config::{
    appdata_base, appdata_dir, join_path, APPDATA_SUBDIR,
    config_location, data_dir, hotkey_changed, languages, loaded_config, note_hidden_to_tray,
    prepared_for_save, Config, ConfigLocation, DEFAULT_HOTKEY_CLEAN, TRAY_ACTION_SHOW,
};

#[test]
fn default_config_is_sane() {
    let c = Config::default();
    assert_eq!(c.autoreduct_value, 90);
    assert_eq!(c.autoreduct_interval_value, 30);
    assert_eq!(c.reduct_mask, mem_reduct::memory::mask::DEFAULT);
    assert!(c.show_reduct_confirmation);
    assert_eq!(c.tray_level_warning, 70);
    assert_eq!(c.tray_level_danger, 90);
}

#[test]
fn sanitize_clamps_autoclean_ranges() {
    let mut c = Config { autoreduct_value: 0, autoreduct_interval_value: 0, ..Config::default() };
    c.sanitize();
    assert_eq!(c.autoreduct_value, 1);
    assert_eq!(c.autoreduct_interval_value, 1);

    let mut c =
        Config { autoreduct_value: 500, autoreduct_interval_value: 99_999, ..Config::default() };
    c.sanitize();
    assert_eq!(c.autoreduct_value, 100);
    assert_eq!(c.autoreduct_interval_value, 1440);
}

#[test]
fn sanitize_keeps_tray_thresholds_ordered() {
    let mut c = Config { tray_level_warning: 95, tray_level_danger: 60, ..Config::default() };
    c.sanitize();
    assert!(c.tray_level_warning < c.tray_level_danger, "{c:?}");

    let mut c = Config { tray_level_warning: 100, tray_level_danger: 100, ..Config::default() };
    c.sanitize();
    assert_eq!(c.tray_level_danger, 100);
    assert_eq!(c.tray_level_warning, 99);
}

#[test]
fn sanitize_rejects_unknown_enums_and_bits() {
    let mut c = Config {
        theme: "neon".into(),
        accent_color: "../etc/passwd".into(),
        language: "xx-YY".into(),
        reduct_mask: 0xFFFF_FFFF,
        tray_action_dc: 42,
        hotkey_clean: 0,
        ..Config::default()
    };
    c.sanitize();
    assert_eq!(c.theme, "system");
    assert_eq!(c.accent_color, "green");
    assert_eq!(c.language, "zh-CN");
    assert_eq!(c.reduct_mask, mem_reduct::memory::mask::ALL);
    assert_eq!(c.tray_action_dc, TRAY_ACTION_SHOW);
    assert_eq!(c.hotkey_clean, DEFAULT_HOTKEY_CLEAN);
}

#[test]
fn sanitize_is_idempotent_on_an_example() {
    let mut c = Config {
        tray_level_warning: 0,
        tray_level_danger: 0,
        tray_color_bg: 0xFF12_3456,
        statistic_last_reduct: -5,
        language: "ja-JP".into(),
        ..Config::default()
    };
    c.sanitize();
    assert_eq!(c.tray_level_danger, 1);
    assert_eq!(c.tray_level_warning, 0);
    assert_eq!(c.tray_color_bg, 0x0012_3456);
    assert_eq!(c.statistic_last_reduct, 0);
    assert_eq!(c.language, "ja-JP");
    let once = c.clone();
    c.sanitize();
    assert_eq!(format!("{c:?}"), format!("{once:?}"));
}

#[test]
fn every_language_is_kept_by_sanitize() {
    for code in languages() {
        let mut c = Config { language: code.to_string(), ..Config::default() };
        c.sanitize();
        assert_eq!(c.language, code);
    }
    assert_eq!(languages().len(), 16);
}

#[test]
fn loading_sanitises_or_falls_back_to_defaults() {
    let c = loaded_config(Some(Config { autoreduct_value: 0, ..Config::default() }));
    assert_eq!(c.autoreduct_value, 1);
    let d = loaded_config(None);
    assert_eq!(d.theme, "system");
    assert_eq!(d.autoreduct_value, 90);
    let s = prepared_for_save(&Config { theme: "neon".into(), ..Config::default() });
    assert_eq!(s.theme, "system");
}

#[test]
fn location_and_directory() {
    assert_eq!(config_location(true), ConfigLocation::Portable);
    assert_eq!(config_location(false), ConfigLocation::AppData);
    assert_eq!(ConfigLocation::Portable.name(), "portable");
    assert_eq!(ConfigLocation::AppData.name(), "appdata");
    assert_eq!(data_dir(ConfigLocation::Portable, "exe".into(), Some("app".into()), None), "exe");
    assert_eq!(
        data_dir(ConfigLocation::AppData, "exe".into(), Some(r"C:\Users\a\AppData\Roaming".into()), None),
        r"C:\Users\a\AppData\Roaming\Henry++\Mem Reduct"
    );
    assert_eq!(
        data_dir(ConfigLocation::AppData, "exe".into(), None, Some(r"C:\Users\a\".into())),
        r"C:\Users\a\Henry++\Mem Reduct"
    );
    assert_eq!(data_dir(ConfigLocation::AppData, "exe".into(), None, None), r".\Henry++\Mem Reduct");
}

#[test]
fn hotkey_changes_and_tray_hint() {
    let a = Config::default();
    let b = Config { hotkey_clean_enable: true, ..Config::default() };
    assert!(hotkey_changed(&a, &b));
    assert!(!hotkey_changed(&a, &Config::default()));
    let mut c = Config::default();
    assert!(note_hidden_to_tray(&mut c));
    assert!(c.tray_tip_shown);
    assert!(!note_hidden_to_tray(&mut c));
}

#[test]
fn appdata_base_falls_back_to_the_home_directory() {
    assert_eq!(appdata_base(Some("A".into()), Some("U".into())), "A");
    assert_eq!(appdata_base(None, Some("U".into())), "U");
    assert_eq!(appdata_base(None, None), ".");
    assert_eq!(appdata_dir(Some("D:".into()), None), r"D:Henry++\Mem Reduct");
    assert_eq!(appdata_dir(Some("".into()), None), r"Henry++\Mem Reduct");
    assert_eq!(join_path("a/", "b"), "a/b");
    assert_eq!(APPDATA_SUBDIR, r"Henry++\Mem Reduct");
}
