use mem_reduct::updater::{
    after_direct_check, after_proxy_check, check_failed, endpoint_url, get_updater_info,
    install_failed, invalid_endpoint_message, manifest_url, no_update_message, recheck_failed,
    release_page_url, retry_failure_reason, take_relaunch_pending, triple_for, updater_endpoint,
    CheckStep, RelaunchMarker, UpdateInfo, CHECK_TIMEOUT_SECS, DOWNLOAD_TIMEOUT_SECS,
};

#[test]
fn relaunch_marker_is_consumed_exactly_once() {
    let mut marker = RelaunchMarker { present: false };
    assert!(!take_relaunch_pending(&mut marker), "没有标记时不该报告为更新后重启");
    marker.mark();
    assert!(take_relaunch_pending(&mut marker), "标记应被读到");
    assert!(!take_relaunch_pending(&mut marker), "标记必须只消费一次,否则之后每次冷启动都会抢焦点");
    marker.mark();
    marker.clear();
    assert!(!take_relaunch_pending(&mut marker));
}

#[test]
fn target_triple_maps_each_architecture() {
    assert_eq!(triple_for("x86_64"), "x86_64-pc-windows-msvc");
    assert_eq!(triple_for("aarch64"), "aarch64-pc-windows-msvc");
    assert_eq!(triple_for("x86"), "i686-pc-windows-msvc");
}

#[test]
fn endpoint_matches_the_running_architecture() {
    let url = manifest_url("x86_64");
    assert!(
        url.starts_with("https://github.com/JackPolaris/memreduct-rs/releases/latest/download/"),
        "unexpected endpoint: {url}"
    );
    assert!(
        url.ends_with(&format!("update-{}.json", triple_for("x86_64"))),
        "endpoint must carry the target triple: {url}"
    );
}

#[test]
fn failure_message_carries_context() {
    let message = check_failed("https://example.test/update.json", "3.5.13", "timed out");
    assert!(message.contains("3.5.13"));
    assert!(message.contains("https://example.test/update.json"));
    assert!(message.contains("timed out"));
    assert!(message.contains("github.com"));
}

#[test]
fn timeouts_are_bounded() {
    assert!(CHECK_TIMEOUT_SECS > 0 && CHECK_TIMEOUT_SECS <= 60);
    assert!(DOWNLOAD_TIMEOUT_SECS >= CHECK_TIMEOUT_SECS);
}

#[test]
fn urls_are_exact() {
    assert_eq!(
        manifest_url("aarch64"),
        "https://github.com/JackPolaris/memreduct-rs/releases/latest/download/update-aarch64-pc-windows-msvc.json"
    );
    assert_eq!(release_page_url(), "https://github.com/JackPolaris/memreduct-rs/releases/latest");
    let info = get_updater_info("3.5.13".into());
    assert_eq!(info.current_version, "3.5.13");
    assert_eq!(info.release_page, release_page_url());
}

#[test]
fn endpoints_are_parsed_by_the_url_crate() {
    let u = updater_endpoint("x86").expect("the manifest URL parses");
    assert_eq!(
        u.as_str(),
        "https://github.com/JackPolaris/memreduct-rs/releases/latest/download/update-i686-pc-windows-msvc.json"
    );
    assert_eq!(
        endpoint_url("not a url").err().as_deref(),
        Some("更新地址无效(not a url):relative URL without a base")
    );
    assert_eq!(
        endpoint_url("https://example.test:99999/").err().as_deref(),
        Some("更新地址无效(https://example.test:99999/):invalid port number")
    );
    assert_eq!(invalid_endpoint_message("e", "x"), "更新地址无效(e):x");
}

#[test]
fn proxy_fallback_steps() {
    assert!(matches!(after_proxy_check(Ok(())), CheckStep::Done { via_no_proxy: false }));
    match after_proxy_check(Err("503".into())) {
        CheckStep::RetryWithoutProxy { first_error } => assert_eq!(first_error, "503"),
        other => panic!("unexpected {other:?}"),
    }
    assert!(matches!(
        after_direct_check("503", Ok(()), "e", "1"),
        CheckStep::Done { via_no_proxy: true }
    ));
    match after_direct_check("503", Err("timeout".into()), "https://e/u.json", "3.5.13") {
        CheckStep::Failed { message } => {
            assert!(message.starts_with("检查更新失败(当前 v3.5.13):503(忽略代理重试亦失败:timeout)\n更新地址:https://e/u.json\n"));
            assert!(message.ends_with("而不是网络错误。"));
        }
        other => panic!("unexpected {other:?}"),
    }
    assert_eq!(retry_failure_reason("a", "b"), "a(忽略代理重试亦失败:b)");
}

#[test]
fn update_info_and_messages() {
    let i = UpdateInfo::available("3.6.0".into(), None, Some("notes".into()), "3.5.13".into());
    assert!(i.available);
    assert_eq!(i.date, "");
    assert_eq!(i.body, "notes");
    let n = UpdateInfo::up_to_date("3.5.13".into());
    assert!(!n.available && n.version.is_empty() && n.current_version == "3.5.13");
    assert_eq!(recheck_failed("x"), "下载前重新检查更新失败\nx");
    assert_eq!(no_update_message(), "没有可用更新");
    assert_eq!(install_failed("x"), "下载或安装更新失败:x");
}
