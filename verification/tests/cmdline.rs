use mem_reduct::cmdline::{
    cli_clean_mask, cli_report, helper_mode, parse_args, parse_u32, CommandLineAction, HelperMode,
};
use mem_reduct::memory::CleanResult;

#[test]
fn parses_clean() {
    assert_eq!(parse_args(&["-clean"]), CommandLineAction::CleanDefault);
    assert_eq!(parse_args(&["-CLEAN"]), CommandLineAction::CleanDefault);
    assert_eq!(parse_args(&["/clean"]), CommandLineAction::CleanDefault);
}

#[test]
fn parses_clean_full() {
    assert_eq!(parse_args(&["-clean:full"]), CommandLineAction::CleanFull);
    assert_eq!(parse_args(&["/clean:full"]), CommandLineAction::CleanFull);
}

#[test]
fn ignores_unrelated() {
    assert_eq!(parse_args(&["/something", "foo"]), CommandLineAction::NoAction);
    assert_eq!(parse_args(&[""]), CommandLineAction::NoAction);
}

#[test]
fn parses_clean_once_with_its_mask() {
    assert_eq!(parse_args(&["-clean-once", "7"]), CommandLineAction::CleanOnce(7));
    assert_eq!(parse_args(&["-clean-once", "+255"]), CommandLineAction::CleanOnce(255));
    assert_eq!(parse_args(&["-clean-once", "x", "-clean"]), CommandLineAction::CleanDefault);
}

#[test]
fn parse_u32_follows_str_parse() {
    assert_eq!(parse_u32("4294967295"), Some(u32::MAX));
    assert_eq!(parse_u32("4294967296"), None);
    assert_eq!(parse_u32("+1"), Some(1));
    assert_eq!(parse_u32("+"), None);
    assert_eq!(parse_u32(""), None);
    assert_eq!(parse_u32("-1"), None);
    assert_eq!(parse_u32("12a"), None);
}

#[test]
fn helper_modes_are_recognised_anywhere() {
    assert_eq!(helper_mode(&["x", "-ensure-autostart"]), HelperMode::EnsureAutostart);
    assert_eq!(helper_mode(&["-disable-autostart"]), HelperMode::DisableAutostart);
    assert_eq!(
        helper_mode(&["-disable-autostart", "-ensure-autostart"]),
        HelperMode::EnsureAutostart
    );
    assert_eq!(helper_mode(&["-clean"]), HelperMode::Normal);
}

#[test]
fn cli_masks_follow_the_action() {
    assert_eq!(cli_clean_mask(CommandLineAction::CleanDefault, 0x21), Some(0x21));
    assert_eq!(cli_clean_mask(CommandLineAction::CleanFull, 0x21), Some(0xFF));
    assert_eq!(cli_clean_mask(CommandLineAction::CleanOnce(3), 0x21), Some(3));
    assert_eq!(cli_clean_mask(CommandLineAction::NoAction, 0x21), None);
}

#[test]
fn cli_report_counts_and_exit_codes() {
    let r = CleanResult {
        freed_bytes: 4096,
        applied_mask: 0x18,
        regions: vec!["standbyList".into(), "modifiedList".into()],
        failed: vec!["modifiedList".into()],
    };
    let report = cli_report(&r);
    assert_eq!(report.summary, "Mem Reduct: cleaned 1 region(s), freed 4096 bytes");
    assert_eq!(report.failures.as_deref(), Some("Mem Reduct: 1 region(s) failed: modifiedList"));
    assert_eq!(report.exit_code, 0);

    let all = CleanResult {
        freed_bytes: 0,
        applied_mask: 0x18,
        regions: vec!["standbyList".into(), "modifiedList".into()],
        failed: vec!["standbyList".into(), "modifiedList".into()],
    };
    let report = cli_report(&all);
    assert_eq!(
        report.failures.as_deref(),
        Some("Mem Reduct: 2 region(s) failed: standbyList, modifiedList")
    );
    assert_eq!(report.exit_code, 1);

    let none = CleanResult { freed_bytes: 0, applied_mask: 0, regions: vec![], failed: vec![] };
    assert_eq!(cli_report(&none).exit_code, 0);
    assert_eq!(cli_report(&none).failures, None);
}
