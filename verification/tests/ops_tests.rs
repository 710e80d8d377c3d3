use deskshortcut::model::{default_state, ShortcutRecord};
use deskshortcut::ops::{
    check_delete_request, delete_preflight, delete_request_decision, delete_result, explorer_select_argument, find_shortcut,
    launch_outcome, plan_launch, startup_command, startup_outcome, RemoveOutcome,
};
use deskshortcut::paths::{lnk_extension_check, validate_lnk_path};
use deskshortcut::platform;
use deskshortcut::wide::wide_null;

fn record(id: &str, target: &str, wd: &str) -> ShortcutRecord {
    ShortcutRecord {
        id: id.to_string(),
        name: "n".to_string(),
        original_shortcut_path: "C:\\Users\\a\\Desktop\\n.lnk".to_string(),
        target_path: target.to_string(),
        arguments: "--x".to_string(),
        working_directory: wd.to_string(),
        icon_path: String::new(),
        icon_index: 0,
        icon_data_url: String::new(),
        group_id: "group-ungrouped".to_string(),
        is_favorite: false,
        sort_order: 0,
        remark: String::new(),
        description: String::new(),
        hotkey: String::new(),
        show_command: "normal".to_string(),
        created_at: String::new(),
        updated_at: String::new(),
    }
}

#[test]
fn lnk_paths_only() {
    assert_eq!(validate_lnk_path("C:/Users/a/Desktop/app.lnk"), Ok(()));
    assert_eq!(validate_lnk_path("/home/a/App.LNK"), Ok(()));
    let msg = Err("当前仅支持 Windows 快捷方式（.lnk）".to_string());
    assert_eq!(validate_lnk_path("/home/a/app.exe"), msg);
    assert_eq!(validate_lnk_path("/home/a/lnk"), msg);
    assert_eq!(validate_lnk_path("/home/a/.lnk"), msg);
    assert_eq!(validate_lnk_path(""), msg);
    assert_eq!(lnk_extension_check(Some("lNk")), Ok(()));
    assert_eq!(lnk_extension_check(None), msg);
}

#[test]
fn find_first_matching_record() {
    let mut state = default_state();
    state.shortcuts.push(record("a", "t1", ""));
    state.shortcuts.push(record("b", "t2", ""));
    state.shortcuts.push(record("b", "t3", ""));
    assert_eq!(find_shortcut(&state, "b").unwrap().target_path, "t2");
    assert_eq!(find_shortcut(&state, "c"), Err("快捷方式记录不存在".to_string()));
}

#[test]
fn launch_plan_cases() {
    let r = record("a", "C:\\app.exe", "  ");
    assert_eq!(plan_launch(&r, false, true).err(), Some("目标程序不存在，可能已被移动或卸载".to_string()));
    let p = plan_launch(&r, true, false).unwrap();
    assert_eq!(p.operation, wide_null("open"));
    assert_eq!(p.file, wide_null("C:\\app.exe"));
    assert_eq!(p.parameters, wide_null("--x"));
    assert_eq!(p.directory, None);
    assert_eq!(p.warning, "");
    let r2 = record("a", "C:\\app.exe", "C:\\work");
    let p2 = plan_launch(&r2, true, true).unwrap();
    assert_eq!(p2.directory, Some(wide_null("C:\\work")));
    assert_eq!(p2.warning, "");
    let p3 = plan_launch(&r2, true, false).unwrap();
    assert_eq!(p3.directory, None);
    assert_eq!(p3.warning, "工作目录不存在，已尝试不带工作目录启动");
}

#[test]
fn launch_result_from_shell_code() {
    assert_eq!(launch_outcome("w".to_string(), 32), Err("启动失败，可能需要管理员权限或启动参数有误".to_string()));
    assert_eq!(launch_outcome("w".to_string(), -1).is_err(), true);
    let ok = launch_outcome("w".to_string(), 33).unwrap();
    assert!(ok.launched);
    assert_eq!(ok.warning, "w");
}

#[test]
fn explorer_argument_quotes_path() {
    assert_eq!(explorer_select_argument("C:\\a b\\c.exe"), "/select,\"C:\\a b\\c.exe\"");
}

#[test]
fn startup_commands() {
    let on = startup_command(true);
    assert_eq!(on.leading, vec!["add", "HKCU\\Software\\Microsoft\\Windows\\CurrentVersion\\Run", "/v", "DeskShortcut", "/t", "REG_SZ", "/d"]);
    assert!(on.pass_exe);
    assert_eq!(on.trailing, vec!["/f"]);
    let off = startup_command(false);
    assert_eq!(off.leading, vec!["delete", "HKCU\\Software\\Microsoft\\Windows\\CurrentVersion\\Run", "/v", "DeskShortcut", "/f"]);
    assert!(!off.pass_exe);
    assert!(off.trailing.is_empty());
    assert_eq!(startup_outcome(true, true), Ok(()));
    assert_eq!(startup_outcome(false, false), Ok(()));
    assert_eq!(startup_outcome(true, false), Err("设置开机自启动失败，可能没有注册表写入权限".to_string()));
}

#[test]
fn delete_request_checks() {
    assert_eq!(check_delete_request("/d/a.lnk", "/d/a.lnk"), Ok(()));
    assert_eq!(check_delete_request("/d/a.lnk", "/d//a.lnk"), Ok(()));
    assert_eq!(check_delete_request("/d/a.lnk", "/d/b.lnk"), Err("删除路径与导入时记录的原快捷方式路径不一致".to_string()));
    assert_eq!(check_delete_request("/d/a.txt", "/d/a.txt"), Err("当前仅支持 Windows 快捷方式（.lnk）".to_string()));
    assert_eq!(check_delete_request("/d/a.lnk", "/d/a.txt"), Err("当前仅支持 Windows 快捷方式（.lnk）".to_string()));
}

#[test]
fn delete_outcomes() {
    let gone = delete_preflight(false, false).unwrap().unwrap();
    assert!(!gone.deleted);
    assert_eq!(gone.message, "原快捷方式已不存在");
    assert_eq!(delete_preflight(true, true), Some(Err("不允许删除目录".to_string())));
    assert_eq!(delete_preflight(true, false), None);
    let d = delete_result(RemoveOutcome::Removed);
    assert!(d.deleted);
    assert_eq!(d.message, "已删除桌面快捷方式");
    let d = delete_result(RemoveOutcome::PermissionDenied);
    assert!(!d.deleted);
    assert_eq!(d.message, "权限不足，无法删除快捷方式");
    let d = delete_result(RemoveOutcome::Failed("磁盘错误".to_string()));
    assert!(!d.deleted);
    assert_eq!(d.message, "删除失败，请稍后手动删除：磁盘错误");
}

#[test]
fn shell_operations_refuse_off_windows() {
    assert_eq!(platform::parse_shortcut("a.lnk"), Err("DeskShortcut 只能在 Windows 上解析 .lnk 快捷方式".to_string()));
    assert_eq!(platform::extract_icon_data("a", "b", 0), Err("DeskShortcut 只能在 Windows 上提取快捷方式图标".to_string()));
    assert_eq!(platform::launch_shortcut(&record("a", "b", "")), Err("DeskShortcut 只能在 Windows 上启动 Windows 快捷方式".to_string()));
    assert_eq!(platform::open_target_folder("b"), Err("DeskShortcut 的打开目标所在位置功能仅支持 Windows".to_string()));
    assert_eq!(platform::set_launch_at_startup(true), Err("开机自启动仅支持 Windows".to_string()));
}

#[test]
fn delete_request_decision_cases() {
    let not_lnk = Err("当前仅支持 Windows 快捷方式（.lnk）".to_string());
    let mismatch = Err("删除路径与导入时记录的原快捷方式路径不一致".to_string());
    assert_eq!(delete_request_decision(Some("lnk"), Some("LNK"), true), Ok(()));
    assert_eq!(delete_request_decision(Some("lnk"), Some("lnk"), false), mismatch);
    assert_eq!(delete_request_decision(Some("txt"), Some("lnk"), false), not_lnk);
    assert_eq!(delete_request_decision(None, None, false), not_lnk);
    assert_eq!(delete_request_decision(Some("lnk"), None, false), not_lnk);
}

#[test]
fn only_the_recorded_shortcut_may_be_deleted() {
    let mismatch = Err("删除路径与导入时记录的原快捷方式路径不一致".to_string());
    assert_eq!(
        check_delete_request("C:/Users/me/Desktop/App.lnk", "C:/Users/me/Desktop/Other.lnk"),
        mismatch
    );
    // The `.lnk` check on the path comes before the comparison.
    assert_eq!(
        check_delete_request("C:/Users/me/Desktop/App.exe", "C:/Users/me/Desktop/Other.lnk"),
        Err("当前仅支持 Windows 快捷方式（.lnk）".to_string())
    );
    assert_eq!(validate_lnk_path("C:/Users/me/Desktop/App.LnK"), Ok(()));
}

#[test]
fn windows_style_paths_are_checked_too() {
    let mismatch = Err("删除路径与导入时记录的原快捷方式路径不一致".to_string());
    assert_eq!(validate_lnk_path("C:\\Users\\me\\Desktop\\App.lnk"), Ok(()));
    assert_eq!(
        validate_lnk_path("C:\\Users\\me\\Desktop\\App.exe"),
        Err("当前仅支持 Windows 快捷方式（.lnk）".to_string())
    );
    assert_eq!(
        check_delete_request(
            "C:\\Users\\me\\Desktop\\App.lnk",
            "C:\\Users\\me\\Desktop\\Other.lnk"
        ),
        mismatch
    );
    assert_eq!(
        check_delete_request(
            "C:\\Users\\me\\Desktop\\App.lnk",
            "C:\\Users\\me\\Desktop\\App.lnk"
        ),
        Ok(())
    );
}
