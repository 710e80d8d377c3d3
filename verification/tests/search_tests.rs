use deskshortcut::icon_search::{IconAction, IconEvent, IconSearch, SearchPhase};

fn cands() -> Vec<(String, i32)> {
    vec![("a.dll".to_string(), 3), ("b.exe".to_string(), 0)]
}

#[test]
fn empty_search_fails_at_once() {
    let (s, a) = IconSearch::start(Vec::new());
    assert_eq!(s.phase(), SearchPhase::Done);
    assert_eq!(a, IconAction::Finish(Err("提取图标失败，可能是图标资源不存在或不可读取".to_string())));
}

#[test]
fn resource_icon_first() {
    let (s, a) = IconSearch::start(cands());
    assert_eq!(a, IconAction::ExtractResource { source: "a.dll".to_string(), index: 3 });
    let (s, a) = s.step(IconEvent::Found(true));
    assert_eq!(a, IconAction::Encode);
    let (s, a) = s.step(IconEvent::Encoded(Some("data:x".to_string())));
    assert_eq!(a, IconAction::Finish(Ok("data:x".to_string())));
    assert_eq!(s.phase(), SearchPhase::Done);
}

#[test]
fn falls_back_through_every_step() {
    let (mut s, mut a) = IconSearch::start(cands());
    let mut seen = Vec::new();
    let mut steps = 0;
    loop {
        let event = match &a {
            IconAction::Finish(r) => {
                assert_eq!(r, &Err("提取图标失败，可能是图标资源不存在或不可读取".to_string()));
                break;
            }
            IconAction::Encode => IconEvent::Encoded(None),
            _ => IconEvent::Found(true),
        };
        seen.push(format!("{a:?}"));
        let (s2, a2) = s.step(event);
        s = s2;
        a = a2;
        steps += 1;
        assert!(steps <= 10);
    }
    assert_eq!(
        seen,
        vec![
            "ExtractResource { source: \"a.dll\", index: 3 }",
            "Encode",
            "ShellIcon { source: \"a.dll\", large: false }",
            "Encode",
            "ExtractResource { source: \"b.exe\", index: 0 }",
            "Encode",
            "ShellIcon { source: \"b.exe\", large: false }",
            "Encode",
        ]
    );
}

#[test]
fn large_shell_icon_when_resource_missing() {
    let (s, _) = IconSearch::start(cands());
    let (s, a) = s.step(IconEvent::Found(false));
    assert_eq!(a, IconAction::ShellIcon { source: "a.dll".to_string(), large: true });
    let (s, a) = s.step(IconEvent::Found(false));
    assert_eq!(a, IconAction::ShellIcon { source: "a.dll".to_string(), large: false });
    let (s, a) = s.step(IconEvent::Found(true));
    assert_eq!(a, IconAction::Encode);
    let (_, a) = s.step(IconEvent::Encoded(Some("u".to_string())));
    assert_eq!(a, IconAction::Finish(Ok("u".to_string())));
}
