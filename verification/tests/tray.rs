use mem_reduct::tray::{
    click_response, double_click_ms, menu_action, menu_entries, menu_id, tray_action,
    ClickResponse, MenuAction, MenuEntry, PendingClick, TrayAction, TrayClick, TrayMenuLabels,
    PROJECT_URL,
};

#[test]
fn default_labels_are_simplified_chinese() {
    let l = TrayMenuLabels::default();
    assert_eq!(l.show, "显示窗口");
    assert_eq!(l.clean, "清理内存");
    assert_eq!(l.settings, "设置");
    assert_eq!(l.website, "官方网站");
    assert_eq!(l.about, "关于");
    assert_eq!(l.exit, "退出");
}

#[test]
fn menu_layout_and_actions() {
    let entries = menu_entries(&TrayMenuLabels::default());
    let ids: Vec<Option<&str>> = entries
        .iter()
        .map(|e| match e {
            MenuEntry::Item { id, .. } => Some(*id),
            MenuEntry::Separator => None,
        })
        .collect();
    assert_eq!(
        ids,
        vec![
            Some("tray-show"),
            Some("tray-clean"),
            None,
            Some("tray-settings"),
            Some("tray-website"),
            Some("tray-about"),
            None,
            Some("tray-exit"),
        ]
    );
    assert_eq!(menu_action(menu_id::SHOW), MenuAction::ShowWindow);
    assert_eq!(menu_action(menu_id::CLEAN), MenuAction::CleanMemory);
    assert_eq!(menu_action(menu_id::SETTINGS), MenuAction::OpenSettings);
    assert_eq!(menu_action(menu_id::WEBSITE), MenuAction::OpenProjectPage);
    assert_eq!(menu_action(menu_id::ABOUT), MenuAction::ShowAbout);
    assert_eq!(menu_action(menu_id::EXIT), MenuAction::Exit);
    assert_eq!(menu_action("other"), MenuAction::Nothing);
    assert_eq!(PROJECT_URL, "https://github.com/JackPolaris/memreduct-rs");
}

#[test]
fn clicks_and_deferral() {
    assert_eq!(tray_action(1), TrayAction::CleanMemory);
    assert_eq!(tray_action(0), TrayAction::ShowWindow);
    assert_eq!(tray_action(7), TrayAction::ShowWindow);
    assert_eq!(
        click_response(TrayClick::LeftDoubleClick, 1, 0),
        ClickResponse::CancelPendingAndRun(TrayAction::CleanMemory)
    );
    assert_eq!(click_response(TrayClick::LeftClick, 0, 1), ClickResponse::ShowNow);
    assert_eq!(click_response(TrayClick::LeftClick, 1, 1), ClickResponse::DeferShow);
    assert_eq!(
        click_response(TrayClick::MiddleClick, 0, 1),
        ClickResponse::Run(TrayAction::CleanMemory)
    );
    assert_eq!(click_response(TrayClick::Other, 1, 1), ClickResponse::Ignore);
    assert_eq!(double_click_ms(50), 200);
    assert_eq!(double_click_ms(500), 500);
    assert_eq!(double_click_ms(5000), 1000);
}

#[test]
fn a_second_click_supersedes_the_deferred_show() {
    let mut p = PendingClick::new();
    let token = p.schedule();
    assert!(p.owns(token));
    p.cancel();
    assert!(!p.owns(token));
    let t2 = p.schedule();
    let t3 = p.schedule();
    assert!(!p.owns(t2));
    assert!(p.owns(t3));
}
