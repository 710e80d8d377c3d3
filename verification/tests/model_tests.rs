use deskshortcut::model::{default_state, group_record, new_id, STATE_FILE_NAME, UNGROUPED_ID};

#[test]
fn default_state_has_two_groups_and_defaults() {
    let s = default_state();
    assert!(s.shortcuts.is_empty());
    assert_eq!(s.groups.len(), 2);
    assert_eq!(s.groups[0].id, "group-common");
    assert_eq!(s.groups[0].name, "常用");
    assert_eq!(s.groups[0].sort_order, 10);
    assert_eq!(s.groups[1].id, UNGROUPED_ID);
    assert_eq!(s.groups[1].id, "group-ungrouped");
    assert_eq!(s.groups[1].name, "未分组");
    assert_eq!(s.groups[1].sort_order, 20);
    for g in &s.groups {
        assert_eq!(g.created_at, g.updated_at);
    }
    let st = &s.settings;
    assert!(st.auto_delete_desktop_shortcut);
    assert!(st.auto_hide_when_docked);
    assert!(!st.always_on_top);
    assert!(!st.launch_at_startup);
    assert!(!st.hide_after_launch);
    assert!(st.show_group_bar);
    assert_eq!(st.dock_position, "none");
    assert!(!st.is_pinned);
    assert_eq!(st.window_width, 420);
    assert_eq!(st.window_height, 640);
    assert_eq!(STATE_FILE_NAME, "deskshortcut.json");
}

#[test]
fn group_record_stamps_both_times() {
    let g = group_record("g1", "工作", -3);
    assert_eq!(g.id, "g1");
    assert_eq!(g.name, "工作");
    assert_eq!(g.sort_order, -3);
    assert_eq!(g.created_at, g.updated_at);
    assert!(g.created_at.ends_with("+00:00"));
    let t = &g.created_at;
    assert!(t.len() >= 20);
    assert_eq!(&t[4..5], "-");
    assert_eq!(&t[10..11], "T");
}

#[test]
fn new_id_has_prefix_and_uuid() {
    let id = new_id("shortcut");
    assert!(id.starts_with("shortcut-"));
    assert_eq!(id.len(), "shortcut-".len() + 36);
    let u = &id["shortcut-".len()..];
    for (i, c) in u.chars().enumerate() {
        if [8, 13, 18, 23].contains(&i) {
            assert_eq!(c, '-');
        } else {
            assert!(c.is_ascii_hexdigit() && !c.is_ascii_uppercase());
        }
    }
    assert_ne!(new_id("x"), new_id("x"));
}
