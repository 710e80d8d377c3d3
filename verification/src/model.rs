//! The records the launcher keeps: shortcuts, groups, settings and the
//! persisted state that holds them, with the state a first start writes.

use vstd::prelude::*;
use vstd::string::*;

verus! {

/// The id of the group that shortcuts without a group belong to.
pub const UNGROUPED_ID: &'static str = "group-ungrouped";

/// The name of the file, in the application's data directory, that holds
/// the persisted state.
pub const STATE_FILE_NAME: &'static str = "deskshortcut.json";

/// A shortcut imported into the launcher.
#[derive(Debug, Clone, PartialEq, Eq)]
pub struct ShortcutRecord {
    pub id: String,
    pub name: String,
    pub original_shortcut_path: String,
    pub target_path: String,
    pub arguments: String,
    pub working_directory: String,
    pub icon_path: String,
    pub icon_index: i32,
    pub icon_data_url: String,
    pub group_id: String,
    pub is_favorite: bool,
    pub sort_order: i32,
    pub remark: String,
    pub description: String,
    pub hotkey: String,
    pub show_command: String,
    pub created_at: String,
    pub updated_at: String,
}

/// What reading a `.lnk` file yields.
#[derive(Debug, Clone, PartialEq, Eq)]
pub struct ShortcutInfo {
    pub name: String,
    pub original_shortcut_path: String,
    pub target_path: String,
    pub arguments: String,
    pub working_directory: String,
    pub icon_path: String,
    pub icon_index: i32,
    pub icon_data_url: String,
    pub description: String,
    pub hotkey: String,
    pub show_command: String,
}

/// A named group of shortcuts.
#[derive(Debug, Clone, PartialEq, Eq)]
pub struct GroupRecord {
    pub id: String,
    pub name: String,
    pub sort_order: i32,
    pub created_at: String,
    pub updated_at: String,
}

/// User settings of the launcher window.
#[derive(Debug, Clone, PartialEq, Eq)]
pub struct Settings {
    pub auto_delete_desktop_shortcut: bool,
    pub auto_hide_when_docked: bool,
    pub always_on_top: bool,
    pub launch_at_startup: bool,
    pub hide_after_launch: bool,
    pub show_group_bar: bool,
    pub dock_position: String,
    pub is_pinned: bool,
    pub window_width: i32,
    pub window_height: i32,
}

/// Everything the launcher persists.
#[derive(Debug, Clone, PartialEq, Eq)]
pub struct AppStateData {
    pub shortcuts: Vec<ShortcutRecord>,
    pub groups: Vec<GroupRecord>,
    pub settings: Settings,
}

/// The answer to a request to delete the original `.lnk` file.
#[derive(Debug, Clone, PartialEq, Eq)]
pub struct DeleteResult {
    pub deleted: bool,
    pub message: String,
}

/// The answer to a request to start a shortcut's target.
#[derive(Debug, Clone, PartialEq, Eq)]
pub struct LaunchResult {
    pub launched: bool,
    pub warning: String,
}

/// The answer to a request to dock the window at a screen edge.
#[derive(Debug, Clone, PartialEq, Eq)]
pub struct DockResult {
    pub docked: bool,
    pub position: String,
}

/// The shape every UTC timestamp in RFC 3339 form has: a date of at least
/// four year digits, `T`, the time to the second (`YYYY-MM-DDTHH:MM:SS`,
/// 19 characters or more), and the offset `+00:00` at the end.
pub open spec fn utc_rfc3339_shape(t: Seq<char>) -> bool {
    t.len() >= 25 && t.skip(t.len() - 6) == "+00:00"@
}

/// `chrono::Utc::now().to_rfc3339()`: the current UTC time as RFC 3339
/// text. The time depends on the clock; only what every such text has is
/// stated: chrono writes the year with at least four digits, the rest of
/// the date and the time to the second, optional fractional seconds, and a
/// zero offset as `+00:00`. `Utc::now` panics when the system clock reads
/// a time before 1970, a fault of the machine that no `requires` can rule
/// out.
#[verifier::external_body]
pub(crate) fn now() -> (r: String)
    ensures
        utc_rfc3339_shape(r@),
{
    chrono::Utc::now().to_rfc3339()
}

/// `uuid::Uuid::new_v4().to_string()`: a random UUID in its hyphenated
/// form, such as `67e55044-10b1-426f-9247-bb680e5fe0c8`. Only that shape is
/// stated: 36 characters with hyphens at positions 8, 13, 18 and 23.
/// `new_v4` panics when the operating system's random source fails, a
/// fault of the machine that no `requires` can rule out.
#[verifier::external_body]
fn new_uuid_v4_text() -> (r: String)
    ensures
        r@.len() == 36,
        r@[8] == '-' && r@[13] == '-' && r@[18] == '-' && r@[23] == '-',
{
    uuid::Uuid::new_v4().to_string()
}

/// A fresh id: the prefix, a hyphen, and a random UUID.
pub fn new_id(prefix: &str) -> (r: String)
    ensures
        ({
            let k = prefix@.len() as int + 1;
            &&& r@.len() == k + 36
            &&& r@.take(k) == prefix@ + seq!['-']
            &&& r@[k + 8] == '-' && r@[k + 13] == '-' && r@[k + 18] == '-' && r@[k + 23] == '-'
        }),
{
    let mut id = prefix.to_owned();
    crate::text::string_push(&mut id, '-');
    let uuid = new_uuid_v4_text();
    id.append(uuid.as_str());
    assert(id@.take(prefix@.len() as int + 1) =~= prefix@ + seq!['-']);
    id
}

/// A group with the given id, name and order, created and updated now.
pub fn group_record(id: &str, name: &str, sort_order: i32) -> (g: GroupRecord)
    ensures
        g.id@ == id@,
        g.name@ == name@,
        g.sort_order == sort_order,
        g.created_at@ == g.updated_at@,
        utc_rfc3339_shape(g.created_at@),
{
    let now = now();
    GroupRecord {
        id: id.to_owned(),
        name: name.to_owned(),
        sort_order,
        created_at: now.clone(),
        updated_at: now,
    }
}

/// The settings of a first start.
pub open spec fn default_settings_spec(s: Settings) -> bool {
    &&& s.auto_delete_desktop_shortcut
    &&& s.auto_hide_when_docked
    &&& !s.always_on_top
    &&& !s.launch_at_startup
    &&& !s.hide_after_launch
    &&& s.show_group_bar
    &&& s.dock_position@ == "none"@
    &&& !s.is_pinned
    &&& s.window_width == 420
    &&& s.window_height == 640
}

/// The state written on a first start: no shortcuts, the groups
/// "常用" (`group-common`, order 10) and "未分组" (the ungrouped group,
/// order 20), and the default settings.
pub fn default_state() -> (s: AppStateData)
    ensures
        s.shortcuts@.len() == 0,
        s.groups@.len() == 2,
        s.groups@[0].id@ == "group-common"@,
        s.groups@[0].name@ == "常用"@,
        s.groups@[0].sort_order == 10,
        s.groups@[0].created_at@ == s.groups@[0].updated_at@,
        utc_rfc3339_shape(s.groups@[0].created_at@),
        s.groups@[1].id@ == UNGROUPED_ID@,
        s.groups@[1].name@ == "未分组"@,
        s.groups@[1].sort_order == 20,
        s.groups@[1].created_at@ == s.groups@[1].updated_at@,
        utc_rfc3339_shape(s.groups@[1].created_at@),
        default_settings_spec(s.settings),
{
    let mut groups: Vec<GroupRecord> = Vec::new();
    groups.push(group_record("group-common", "常用", 10));
    groups.push(group_record(UNGROUPED_ID, "未分组", 20));
    AppStateData {
        shortcuts: Vec::new(),
        groups,
        settings: Settings {
            auto_delete_desktop_shortcut: true,
            auto_hide_when_docked: true,
            always_on_top: false,
            launch_at_startup: false,
            hide_after_launch: false,
            show_group_bar: true,
            dock_position: "none".to_owned(),
            is_pinned: false,
            window_width: 420,
            window_height: 640,
        },
    }
}

} // verus!
