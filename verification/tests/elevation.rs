use mem_reduct::cmdline::{parse_args, CommandLineAction};
use mem_reduct::elevation::{
    memory_privileges, quote_arg, relaunch_as_admin, shell_execute_succeeded,
    takeover_command_line,
};

#[test]
fn quoting_keeps_plain_arguments_intact() {
    assert_eq!(quote_arg("-clean"), "-clean");
    assert_eq!(quote_arg("C:\\path\\file.txt"), "C:\\path\\file.txt");
}

#[test]
fn quoting_wraps_arguments_with_spaces() {
    assert_eq!(quote_arg("C:\\Program Files\\app.exe"), "\"C:\\Program Files\\app.exe\"");
    assert_eq!(quote_arg(""), "\"\"");
}

#[test]
fn quoting_escapes_embedded_quotes_and_trailing_backslashes() {
    assert_eq!(quote_arg("a\"b"), "\"a\\\"b\"");
    assert_eq!(quote_arg("dir\\"), "dir\\");
    assert_eq!(quote_arg("C:\\Program Files\\x\\"), "\"C:\\Program Files\\x\\\\\"");
}

#[test]
fn quoting_doubles_backslashes_before_a_quote() {
    assert_eq!(quote_arg("a\\\"b c"), "\"a\\\\\\\"b c\"");
    assert_eq!(quote_arg("tab\there"), "\"tab\there\"");
}

#[test]
fn takeover_line_drops_startup_and_appends_takeover() {
    let args: Vec<String> =
        vec!["-startup".into(), "C:\\My Files\\x".into(), "-takeover".into(), "-clean".into()];
    assert_eq!(takeover_command_line(&args), "\"C:\\My Files\\x\" -clean -takeover");
    assert_eq!(takeover_command_line(&vec![]), "-takeover");
}

#[test]
fn helper_arguments_and_launch_result() {
    assert_eq!(relaunch_as_admin(231), "-clean-once 231");
    assert_eq!(relaunch_as_admin(0), "-clean-once 0");
    assert!(shell_execute_succeeded(33));
    assert!(!shell_execute_succeeded(32));
    assert_eq!(
        memory_privileges(),
        vec!["SeProfileSingleProcessPrivilege", "SeIncreaseQuotaPrivilege"]
    );
}

#[test]
fn elevated_cleanup_reads_back_its_mask() {
    for mask in [0u32, 7, 231, u32::MAX] {
        let line = relaunch_as_admin(mask);
        let parts: Vec<&str> = line.split(' ').collect();
        assert_eq!(parse_args(&parts), CommandLineAction::CleanOnce(mask));
    }
}
