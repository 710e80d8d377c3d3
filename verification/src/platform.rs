//! The shell operations as they behave where the Windows shell is not
//! available: each one refuses with a message.

use vstd::prelude::*;
use crate::model::{LaunchResult, ShortcutInfo, ShortcutRecord};

verus! {

pub open spec fn parse_unsupported_message() -> Seq<char> {
    "DeskShortcut 只能在 Windows 上解析 .lnk 快捷方式"@
}

pub open spec fn icon_unsupported_message() -> Seq<char> {
    "DeskShortcut 只能在 Windows 上提取快捷方式图标"@
}

pub open spec fn launch_unsupported_message() -> Seq<char> {
    "DeskShortcut 只能在 Windows 上启动 Windows 快捷方式"@
}

pub open spec fn open_folder_unsupported_message() -> Seq<char> {
    "DeskShortcut 的打开目标所在位置功能仅支持 Windows"@
}

pub open spec fn startup_unsupported_message() -> Seq<char> {
    "开机自启动仅支持 Windows"@
}

/// Reading a `.lnk` file needs the Windows shell.
pub fn parse_shortcut(_path: &str) -> (r: Result<ShortcutInfo, String>)
    ensures
        r matches Err(m) && m@ == parse_unsupported_message(),
{
    Err("DeskShortcut 只能在 Windows 上解析 .lnk 快捷方式".to_owned())
}

/// Extracting an icon needs the Windows shell.
pub fn extract_icon_data(_icon_path: &str, _target_path: &str, _icon_index: i32) -> (r: Result<
    String,
    String,
>)
    ensures
        r matches Err(m) && m@ == icon_unsupported_message(),
{
    Err("DeskShortcut 只能在 Windows 上提取快捷方式图标".to_owned())
}

/// Starting a shortcut's target needs the Windows shell.
pub fn launch_shortcut(_shortcut: &ShortcutRecord) -> (r: Result<LaunchResult, String>)
    ensures
        r matches Err(m) && m@ == launch_unsupported_message(),
{
    Err("DeskShortcut 只能在 Windows 上启动 Windows 快捷方式".to_owned())
}

/// Opening the target's folder needs Windows Explorer.
pub fn open_target_folder(_target_path: &str) -> (r: Result<(), String>)
    ensures
        r matches Err(m) && m@ == open_folder_unsupported_message(),
{
    Err("DeskShortcut 的打开目标所在位置功能仅支持 Windows".to_owned())
}

/// Starting at login needs the Windows registry.
pub fn set_launch_at_startup(_enabled: bool) -> (r: Result<(), String>)
    ensures
        r matches Err(m) && m@ == startup_unsupported_message(),
{
    Err("开机自启动仅支持 Windows".to_owned())
}

} // verus!
