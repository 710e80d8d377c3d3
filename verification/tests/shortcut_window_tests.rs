use deskshortcut::shortcut::{
    build_shortcut_info, hotkey_to_string, shortcut_icon_source, shortcut_name,
    shortcut_name_from_stem, show_command_to_string, RawShortcut,
};
use deskshortcut::window::{
    dock_edge, dock_in_range, docked_window_position, snap_in_range, snap_to_edge,
    tray_click_shows_window, tray_menu_action, DockEdge, Rect, TrayAction,
};

fn buf(s: &str, len: usize) -> Vec<u16> {
    let mut v: Vec<u16> = s.encode_utf16().collect();
    v.resize(len, 0);
    v
}

#[test]
fn hotkey_and_show_command_text() {
    assert_eq!(hotkey_to_string(0), "");
    assert_eq!(hotkey_to_string(1604), "1604");
    assert_eq!(hotkey_to_string(65535), "65535");
    assert_eq!(show_command_to_string(3), "maximized");
    assert_eq!(show_command_to_string(7), "minimized");
    assert_eq!(show_command_to_string(1), "normal");
    assert_eq!(show_command_to_string(-5), "normal");
}

#[test]
fn shortcut_names() {
    assert_eq!(shortcut_name("/home/a/Desktop/记事本.lnk"), "记事本");
    assert_eq!(shortcut_name("C:/Users/me/Desktop/.hidden"), ".hidden");
    assert_eq!(shortcut_name("C:/Users/me/Desktop/a.b.lnk"), "a.b");
    // Where `\` separates depends on the platform; the name ends with the stem.
    assert!(shortcut_name("C:\\Users\\me\\Desktop\\App.lnk").ends_with("App"));
    assert_eq!(shortcut_name_from_stem(None), "未命名快捷方式");
    assert_eq!(shortcut_name_from_stem(Some("x".to_string())), "x");
}

#[test]
fn build_info_from_raw_fields() {
    let raw = RawShortcut {
        target: buf("C:\\app.exe", 32),
        arguments: buf("-v", 8),
        working_directory: buf("C:\\", 8),
        icon_location: buf("", 8),
        description: buf("应用", 8),
        icon_index: 2,
        hotkey: 0x0641,
        show_command: 7,
    };
    let (icon, target) = shortcut_icon_source(&raw);
    assert_eq!(icon, "C:\\app.exe");
    assert_eq!(target, "C:\\app.exe");
    let info = build_shortcut_info("C:\\d\\app.lnk", "app".to_string(), &raw, "data:x".to_string());
    assert_eq!(info.name, "app");
    assert_eq!(info.original_shortcut_path, "C:\\d\\app.lnk");
    assert_eq!(info.target_path, "C:\\app.exe");
    assert_eq!(info.arguments, "-v");
    assert_eq!(info.working_directory, "C:\\");
    assert_eq!(info.icon_path, "C:\\app.exe");
    assert_eq!(info.icon_index, 2);
    assert_eq!(info.icon_data_url, "data:x");
    assert_eq!(info.description, "应用");
    assert_eq!(info.hotkey, "1601");
    assert_eq!(info.show_command, "minimized");
    let raw2 = RawShortcut { icon_location: buf("C:\\i.ico", 16), ..raw };
    assert_eq!(shortcut_icon_source(&raw2).0, "C:\\i.ico");
}

fn monitor() -> Rect {
    Rect { x: 0, y: 0, width: 1920, height: 1080 }
}

#[test]
fn snap_top_clamps_x() {
    let (r, to) = snap_to_edge(monitor(), Rect { x: 1800, y: 10, width: 420, height: 640 });
    assert!(r.docked);
    assert_eq!(r.position, "top");
    assert_eq!(to, Some((1500, 0)));
    let (_, to) = snap_to_edge(monitor(), Rect { x: -50, y: -20, width: 420, height: 640 });
    assert_eq!(to, Some((0, 0)));
}

#[test]
fn snap_left_right_none() {
    let (r, to) = snap_to_edge(monitor(), Rect { x: 20, y: 300, width: 420, height: 640 });
    assert_eq!((r.docked, r.position.as_str(), to), (true, "left", Some((0, 300))));
    let (r, to) = snap_to_edge(monitor(), Rect { x: 1480, y: 300, width: 420, height: 640 });
    assert_eq!((r.docked, r.position.as_str(), to), (true, "right", Some((1500, 300))));
    let (r, to) = snap_to_edge(monitor(), Rect { x: 500, y: 300, width: 420, height: 640 });
    assert_eq!((r.docked, r.position.as_str(), to), (false, "none", None));
    let (_, to) = snap_to_edge(Rect { x: 100, y: 100, width: 800, height: 600 }, Rect { x: 90, y: 50, width: 200, height: 200 });
    assert_eq!(to, Some((100, 100)));
}

#[test]
fn snapping_again_after_top_snap_stays() {
    let m = monitor();
    let w = Rect { x: 1800, y: 10, width: 420, height: 640 };
    let (_, to) = snap_to_edge(m, w);
    let (x, y) = to.unwrap();
    let (r2, to2) = snap_to_edge(m, Rect { x, y, ..w });
    assert_eq!(r2.position, "top");
    assert_eq!(to2, Some((x, y)));
}

#[test]
fn docked_hide_and_show() {
    let m = monitor();
    let w = Rect { x: 0, y: 0, width: 420, height: 640 };
    assert_eq!(docked_window_position("top", true, (300, 0), m, w), Some((300, -636)));
    assert_eq!(docked_window_position("top", false, (300, -636), m, w), Some((300, 0)));
    assert_eq!(docked_window_position("left", true, (0, 200), m, w), Some((-416, 200)));
    assert_eq!(docked_window_position("left", false, (-416, 200), m, w), Some((0, 200)));
    assert_eq!(docked_window_position("right", true, (1500, 200), m, w), Some((1916, 200)));
    assert_eq!(docked_window_position("right", false, (1916, 200), m, w), Some((1500, 200)));
    assert_eq!(docked_window_position("none", true, (1, 2), m, w), None);
    assert_eq!(dock_edge("Top"), None);
    assert_eq!(dock_edge("left"), Some(DockEdge::Left));
}

#[test]
fn tray_actions() {
    assert_eq!(tray_menu_action("show"), TrayAction::ShowWindow);
    assert_eq!(tray_menu_action("hide"), TrayAction::HideWindow);
    assert_eq!(tray_menu_action("quit"), TrayAction::Quit);
    assert_eq!(tray_menu_action("other"), TrayAction::Ignore);
    assert!(tray_click_shows_window(true, true));
    assert!(!tray_click_shows_window(true, false));
    assert!(!tray_click_shows_window(false, true));
}

#[test]
fn snap_range_check() {
    let m = monitor();
    assert!(snap_in_range(m, Rect { x: 100, y: 10, width: 400, height: 600 }));
    // A window wider than the screen cannot be snapped to the top.
    assert!(!snap_in_range(m, Rect { x: 0, y: 0, width: 4000, height: 600 }));
    // Far apart coordinates overflow `i32`.
    let far = Rect { x: i32::MIN, y: 0, width: 10, height: 10 };
    assert!(!snap_in_range(Rect { x: 1, y: 0, width: 10, height: 10 }, far));
}

#[test]
fn dock_range_check() {
    let m = monitor();
    let w = Rect { x: 0, y: 0, width: 420, height: 640 };
    assert!(dock_in_range("top", true, m, w));
    assert!(dock_in_range("middle", true, Rect { x: i32::MIN, ..m }, w));
    assert!(!dock_in_range("left", true, Rect { x: i32::MIN, ..m }, w));
    assert!(dock_in_range("left", false, Rect { x: i32::MIN, ..m }, w));
    assert!(!dock_in_range("right", false, Rect { x: i32::MAX, ..m }, w));
}

#[test]
fn hide_then_show_returns_to_snapped_place() {
    let m = monitor();
    let w = Rect { x: 1490, y: 300, width: 420, height: 640 };
    let (answer, place) = snap_to_edge(m, w);
    assert_eq!(answer.position, "right");
    let place = place.unwrap();
    let placed = Rect { x: place.0, y: place.1, ..w };
    let hidden = docked_window_position("right", true, place, m, placed).unwrap();
    assert_eq!(hidden, (1916, 300));
    let shown = docked_window_position("right", false, hidden, m, placed).unwrap();
    assert_eq!(shown, place);
}
