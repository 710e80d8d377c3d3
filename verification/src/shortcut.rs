//! Turning what the shell reports about a `.lnk` file into a
//! `ShortcutInfo`.

use vstd::prelude::*;
use vstd::string::*;
use crate::model::ShortcutInfo;
use crate::paths::{ends_with, occurs_in, path_file_stem, plain_file_name, portable_name, stem_of};
use crate::text::{decimal, last_index_of, push_decimal};
use crate::wide::{from_wide, from_wide_spec};

verus! {

/// A hotkey as stored: empty for none, else its raw value in decimal.
pub open spec fn hotkey_text(hotkey: u16) -> Seq<char> {
    if hotkey == 0 {
        seq![]
    } else {
        decimal(hotkey as nat)
    }
}

/// The stored text of a shortcut's hotkey.
pub fn hotkey_to_string(hotkey: u16) -> (r: String)
    ensures
        r@ == hotkey_text(hotkey),
{
    let mut s = String::new();
    if hotkey != 0 {
        push_decimal(&mut s, hotkey as u64);
    }
    s
}

/// A show command as stored: 3 is maximized, 7 is minimized, anything else
/// normal.
pub open spec fn show_command_text(show_command: i32) -> Seq<char> {
    if show_command == 3 {
        "maximized"@
    } else if show_command == 7 {
        "minimized"@
    } else {
        "normal"@
    }
}

/// The stored text of a shortcut's show command.
pub fn show_command_to_string(show_command: i32) -> (r: String)
    ensures
        r@ == show_command_text(show_command),
{
    if show_command == 3 {
        "maximized".to_owned()
    } else if show_command == 7 {
        "minimized".to_owned()
    } else {
        "normal".to_owned()
    }
}

pub open spec fn unnamed_shortcut() -> Seq<char> {
    "未命名快捷方式"@
}

/// A shortcut's display name: the file stem, or a placeholder without one.
pub fn shortcut_name_from_stem(stem: Option<String>) -> (r: String)
    ensures
        r@ == match stem {
            Some(s) => s@,
            None => unnamed_shortcut(),
        },
{
    match stem {
        Some(s) => s,
        None => "未命名快捷方式".to_owned(),
    }
}

/// A shortcut's display name taken from its path's file stem: a non-empty
/// run of the path's text, or the placeholder when the path has no file
/// name. The stem is exact where the file name reads the same on every
/// platform, and ends with the text before the last `.` of the portable
/// name where that has a `.` not at its start.
pub fn shortcut_name(path: &str) -> (r: String)
    ensures
        r@ == unnamed_shortcut() || (r@.len() > 0 && occurs_in(r@, path@)),
        plain_file_name(path@) matches Some(name) ==> r@ == stem_of(name),
        portable_name(path@) matches Some(w) ==> last_index_of(w, '.') > 0 ==> ends_with(
            r@,
            stem_of(w),
        ),
{
    shortcut_name_from_stem(path_file_stem(path))
}

/// The fields of a `.lnk` file as `IShellLinkW` reports them: NUL-terminated
/// UTF-16 buffers and raw numbers.
pub struct RawShortcut {
    pub target: Vec<u16>,
    pub arguments: Vec<u16>,
    pub working_directory: Vec<u16>,
    pub icon_location: Vec<u16>,
    pub description: Vec<u16>,
    pub icon_index: i32,
    pub hotkey: u16,
    pub show_command: i32,
}

/// The icon path a shortcut uses: its icon location, or its target when it
/// has none.
pub open spec fn resolved_icon_path_spec(raw: RawShortcut) -> Seq<char> {
    let icon = from_wide_spec(raw.icon_location@);
    if icon.len() == 0 {
        from_wide_spec(raw.target@)
    } else {
        icon
    }
}

/// The icon path and target path of a shortcut, decoded.
pub fn shortcut_icon_source(raw: &RawShortcut) -> (r: (String, String))
    ensures
        r.0@ == resolved_icon_path_spec(*raw),
        r.1@ == from_wide_spec(raw.target@),
{
    let icon = from_wide(&raw.icon_location);
    let target = from_wide(&raw.target);
    if icon.unicode_len() == 0 {
        (target.clone(), target)
    } else {
        (icon, target)
    }
}

/// The `ShortcutInfo` of a `.lnk` file at `shortcut_path`, named `name`,
/// with the icon data URL that extraction gave (empty when it failed).
pub fn build_shortcut_info(
    shortcut_path: &str,
    name: String,
    raw: &RawShortcut,
    icon_data_url: String,
) -> (info: ShortcutInfo)
    ensures
        info.name@ == name@,
        info.original_shortcut_path@ == shortcut_path@,
        info.target_path@ == from_wide_spec(raw.target@),
        info.arguments@ == from_wide_spec(raw.arguments@),
        info.working_directory@ == from_wide_spec(raw.working_directory@),
        info.icon_path@ == resolved_icon_path_spec(*raw),
        info.icon_index == raw.icon_index,
        info.icon_data_url@ == icon_data_url@,
        info.description@ == from_wide_spec(raw.description@),
        info.hotkey@ == hotkey_text(raw.hotkey),
        info.show_command@ == show_command_text(raw.show_command),
{
    let (icon_path, target_path) = shortcut_icon_source(raw);
    ShortcutInfo {
        name,
        original_shortcut_path: shortcut_path.to_owned(),
        target_path,
        arguments: from_wide(&raw.arguments),
        working_directory: from_wide(&raw.working_directory),
        icon_path,
        icon_index: raw.icon_index,
        icon_data_url,
        description: from_wide(&raw.description),
        hotkey: hotkey_to_string(raw.hotkey),
        show_command: show_command_to_string(raw.show_command),
    }
}

} // verus!
