use deskshortcut::icons::{
    env_var_references, expand_windows_env_vars, icon_candidates, icon_probe_paths,
    icon_source_text, lookup_env, normalize_icon_source, push_icon_candidate,
    split_icon_location,
};

fn env(pairs: &[(&str, &str)]) -> Vec<(String, String)> {
    pairs.iter().map(|(k, v)| (k.to_string(), v.to_string())).collect()
}

fn files(paths: &[&str]) -> Vec<String> {
    paths.iter().map(|p| p.to_string()).collect()
}

#[test]
fn expand_replaces_set_variables() {
    let e = env(&[("SystemRoot", "C:\\Windows"), ("USER", "ann")]);
    assert_eq!(
        expand_windows_env_vars("%SystemRoot%\\system32\\shell32.dll", &e),
        "C:\\Windows\\system32\\shell32.dll"
    );
    assert_eq!(expand_windows_env_vars("a%USER%b%USER%c", &e), "aannbannc");
}

#[test]
fn expand_keeps_unset_empty_and_unclosed() {
    let e = env(&[("A", "1")]);
    assert_eq!(expand_windows_env_vars("%NOPE%x", &e), "%NOPE%x");
    assert_eq!(expand_windows_env_vars("100%% sure", &e), "100%% sure");
    assert_eq!(expand_windows_env_vars("50% off %A", &e), "50% off %A");
    assert_eq!(expand_windows_env_vars("%A%%A%", &e), "11");
    assert_eq!(expand_windows_env_vars("", &e), "");
    assert_eq!(expand_windows_env_vars("%%%A%", &e), "%%1");
}

#[test]
fn expand_with_no_values_is_identity() {
    for s in ["%A%", "%%", "x%y", "%a%%b%%c", "plain"] {
        assert_eq!(expand_windows_env_vars(s, &Vec::new()), s);
    }
}

#[test]
fn first_entry_wins_in_lookup() {
    let e = env(&[("A", "1"), ("A", "2")]);
    assert_eq!(lookup_env(&e, &"A".to_string()).map(|s| s.as_str()), Some("1"));
    assert_eq!(lookup_env(&e, &"a".to_string()), None);
}

#[test]
fn references_in_order() {
    let refs = env_var_references("%A%\\%%\\%B%%C% %D");
    assert_eq!(refs, vec!["A".to_string(), "B".to_string(), "C".to_string()]);
}

#[test]
fn split_icon_locations() {
    assert_eq!(
        split_icon_location("C:\\Windows\\shell32.dll, 4"),
        Some(("C:\\Windows\\shell32.dll".to_string(), 4))
    );
    assert_eq!(split_icon_location(" \"C:\\a,b.exe\" ,-2 "), Some(("C:\\a,b.exe".to_string(), -2)));
    assert_eq!(split_icon_location("C:\\a.exe"), None);
    assert_eq!(split_icon_location("C:\\a.exe,x"), None);
    assert_eq!(split_icon_location(" \"\" ,1"), None);
    assert_eq!(split_icon_location("a,2147483648"), None);
}

#[test]
fn icon_source_text_trims() {
    assert_eq!(icon_source_text("  \"C:\\x.ico\"  "), "C:\\x.ico");
    assert_eq!(icon_source_text(" \" \" "), " ");
}

#[test]
fn normalize_prefers_whole_path() {
    let e = env(&[("ROOT", "C:\\W")]);
    let f = files(&["C:\\W\\a.dll", "C:\\W\\a.dll,3"]);
    assert_eq!(normalize_icon_source("%ROOT%\\a.dll,3", 7, &e, &f), Some(("C:\\W\\a.dll,3".to_string(), 7)));
    let f2 = files(&["C:\\W\\a.dll"]);
    assert_eq!(normalize_icon_source(" \"%ROOT%\\a.dll,3\" ", 7, &e, &f2), Some(("C:\\W\\a.dll".to_string(), 3)));
    assert_eq!(normalize_icon_source("%ROOT%\\b.dll,3", 7, &e, &f2), None);
    assert_eq!(normalize_icon_source("   ", 7, &e, &f2), None);
}

#[test]
fn probe_paths_list_what_is_checked() {
    let e = env(&[("ROOT", "C:\\W")]);
    assert_eq!(icon_probe_paths("%ROOT%\\a.dll,3", &e), files(&["C:\\W\\a.dll,3", "C:\\W\\a.dll"]));
    assert_eq!(icon_probe_paths("C:\\a.exe", &e), files(&["C:\\a.exe"]));
    assert!(icon_probe_paths(" \"\" ", &e).is_empty());
}

#[test]
fn candidates_skip_case_insensitive_duplicates() {
    let e = Vec::new();
    let f = files(&["C:\\App\\app.exe", "c:\\app\\APP.EXE"]);
    let c = icon_candidates("c:\\app\\APP.EXE", "C:\\App\\app.exe", 0, &e, &f);
    assert_eq!(c, vec![("c:\\app\\APP.EXE".to_string(), 0)]);
    let c2 = icon_candidates("c:\\app\\APP.EXE", "C:\\App\\app.exe", 1, &e, &f);
    assert_eq!(c2, vec![("c:\\app\\APP.EXE".to_string(), 1), ("C:\\App\\app.exe".to_string(), 0)]);
    let c3 = icon_candidates("", "C:\\missing.exe", 1, &e, &f);
    assert!(c3.is_empty());
}

#[test]
fn push_candidate_leaves_list_alone_when_unresolved() {
    let mut c = vec![("x".to_string(), 1)];
    push_icon_candidate(&mut c, "y", 0, &Vec::new(), &Vec::new());
    assert_eq!(c, vec![("x".to_string(), 1)]);
    push_icon_candidate(&mut c, "X", 1, &Vec::new(), &files(&["X"]));
    assert_eq!(c, vec![("x".to_string(), 1)]);
    push_icon_candidate(&mut c, "X", 2, &Vec::new(), &files(&["X"]));
    assert_eq!(c, vec![("x".to_string(), 1), ("X".to_string(), 2)]);
}

#[test]
fn candidates_name_only_listed_files() {
    let e = env(&[("ROOT", "C:\\Windows")]);
    let f = files(&["C:\\Windows\\a.dll"]);
    let c = icon_candidates("%ROOT%\\a.dll,3", "C:\\gone.exe", 0, &e, &f);
    assert_eq!(c, vec![("C:\\Windows\\a.dll".to_string(), 3)]);
    for (p, _) in &c {
        assert!(f.contains(p));
    }
}

#[test]
fn text_without_percent_is_not_expanded() {
    let e = env(&[("A", "1"), ("B", "2")]);
    assert_eq!(expand_windows_env_vars("C:\\A\\B.exe", &e), "C:\\A\\B.exe");
}
