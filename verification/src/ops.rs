//! The decisions behind the launcher's commands: finding a record, starting
//! a target, opening its folder, registering for startup and deleting the
//! original `.lnk` file. The caller does the file-system and process work.

use vstd::prelude::*;
use vstd::string::*;
use crate::icons::texts;
use crate::model::{AppStateData, DeleteResult, LaunchResult, ShortcutRecord};
use crate::paths::{
    folded_pieces, has_lnk_text, is_lnk_extension, known_lnk_answer, lemma_known_lnk_answer,
    lemma_lnk_file_name_is_known, lnk_file_name,
    lemma_lnk_extension_has_text, lnk_extension_check, not_lnk_message, opt_string, opt_text,
    path_extension, paths_equal, portable_name,
};
use crate::text::{chars_of, strip_both, strip_chars, Strip};
use crate::wide::{wide_null, wide_null_spec};

verus! {

pub open spec fn record_missing_message() -> Seq<char> {
    "快捷方式记录不存在"@
}

/// Index of the first record with the given id, or the count when none has.
pub open spec fn first_with_id(records: Seq<ShortcutRecord>, id: Seq<char>) -> int
    decreases records.len(),
{
    if records.len() == 0 {
        0
    } else if records[0].id@ == id {
        0
    } else {
        1 + first_with_id(records.drop_first(), id)
    }
}

proof fn lemma_first_with_id(records: Seq<ShortcutRecord>, id: Seq<char>, k: int)
    requires
        0 <= k <= records.len(),
        forall|j: int| 0 <= j < k ==> records[j].id@ != id,
        k == records.len() || records[k].id@ == id,
    ensures
        first_with_id(records, id) == k,
    decreases records.len(),
{
    if records.len() > 0 && k > 0 {
        lemma_first_with_id(records.drop_first(), id, k - 1);
    }
}

/// The first shortcut record with the given id.
pub fn find_shortcut<'a>(state: &'a AppStateData, shortcut_id: &str) -> (r: Result<
    &'a ShortcutRecord,
    String,
>)
    ensures
        ({
            let k = first_with_id(state.shortcuts@, shortcut_id@);
            match r {
                Ok(s) => k < state.shortcuts@.len() && *s == state.shortcuts@[k],
                Err(m) => k == state.shortcuts@.len() && m@ == record_missing_message(),
            }
        }),
        r matches Ok(s) ==> s.id@ == shortcut_id@,
        r is Err <==> forall|j: int|
            0 <= j < state.shortcuts@.len() ==> #[trigger] state.shortcuts@[j].id@ != shortcut_id@,
{
    let id = shortcut_id.to_owned();
    let mut i: usize = 0;
    while i < state.shortcuts.len()
        invariant
            i <= state.shortcuts@.len(),
            id@ == shortcut_id@,
            forall|j: int| 0 <= j < i ==> state.shortcuts@[j].id@ != shortcut_id@,
        decreases state.shortcuts.len() - i,
    {
        if state.shortcuts[i].id == id {
            proof {
                lemma_first_with_id(state.shortcuts@, shortcut_id@, i as int);
            }
            return Ok(&state.shortcuts[i]);
        }
        i = i + 1;
    }
    proof {
        lemma_first_with_id(state.shortcuts@, shortcut_id@, state.shortcuts@.len() as int);
    }
    Err("快捷方式记录不存在".to_owned())
}

pub open spec fn target_missing_message() -> Seq<char> {
    "目标程序不存在，可能已被移动或卸载"@
}

pub open spec fn working_directory_missing_warning() -> Seq<char> {
    "工作目录不存在，已尝试不带工作目录启动"@
}

pub open spec fn launch_failed_message() -> Seq<char> {
    "启动失败，可能需要管理员权限或启动参数有误"@
}

/// The arguments of `ShellExecuteW` for starting a shortcut's target, and
/// the warning to report once it started.
pub struct LaunchPlan {
    pub operation: Vec<u16>,
    pub file: Vec<u16>,
    pub parameters: Vec<u16>,
    pub directory: Option<Vec<u16>>,
    pub warning: String,
}

/// Whether a working directory is given at all (not blank).
pub open spec fn has_working_directory(wd: Seq<char>) -> bool {
    strip_both(wd, Strip::Whitespace).len() != 0
}

/// How to start a shortcut's target, given whether the target and the
/// working directory exist: a missing target is an error; a blank working
/// directory is left out; a missing one is left out with a warning.
pub fn plan_launch(
    shortcut: &ShortcutRecord,
    target_exists: bool,
    working_directory_exists: bool,
) -> (r: Result<LaunchPlan, String>)
    ensures
        !target_exists ==> (r matches Err(m) && m@ == target_missing_message()),
        target_exists ==> (r matches Ok(p) && {
            &&& p.operation@ == wide_null_spec("open"@)
            &&& p.file@ == wide_null_spec(shortcut.target_path@)
            &&& p.parameters@ == wide_null_spec(shortcut.arguments@)
            &&& if !has_working_directory(shortcut.working_directory@) {
                p.directory is None && p.warning@.len() == 0
            } else if working_directory_exists {
                (p.directory matches Some(d) && d@ == wide_null_spec(
                    shortcut.working_directory@,
                )) && p.warning@.len() == 0
            } else {
                p.directory is None && p.warning@ == working_directory_missing_warning()
            }
        }),
{
    if !target_exists {
        return Err("目标程序不存在，可能已被移动或卸载".to_owned());
    }
    let blank = strip_chars(&chars_of(shortcut.working_directory.as_str()), Strip::Whitespace).len()
        == 0;
    let mut warning = String::new();
    let directory = if blank {
        None
    } else if working_directory_exists {
        Some(wide_null(shortcut.working_directory.as_str()))
    } else {
        warning = "工作目录不存在，已尝试不带工作目录启动".to_owned();
        None
    };
    Ok(
        LaunchPlan {
            operation: wide_null("open"),
            file: wide_null(shortcut.target_path.as_str()),
            parameters: wide_null(shortcut.arguments.as_str()),
            directory,
            warning,
        },
    )
}

/// What a `ShellExecuteW` result means: a value of 32 or less is a failure.
pub fn launch_outcome(warning: String, instance: isize) -> (r: Result<LaunchResult, String>)
    ensures
        instance <= 32 ==> (r matches Err(m) && m@ == launch_failed_message()),
        instance > 32 ==> (r matches Ok(l) && l.launched && l.warning@ == warning@),
{
    if instance <= 32 {
        Err("启动失败，可能需要管理员权限或启动参数有误".to_owned())
    } else {
        Ok(LaunchResult { launched: true, warning })
    }
}

/// The argument that makes Explorer open the folder of `target_path` with
/// it selected: `/select,"<target_path>"`.
pub fn explorer_select_argument(target_path: &str) -> (r: String)
    ensures
        r@ == "/select,\""@ + target_path@ + "\""@,
{
    let mut argument = "/select,\"".to_owned();
    argument.append(target_path);
    argument.append("\"");
    argument
}

pub open spec fn run_key() -> Seq<char> {
    "HKCU\\Software\\Microsoft\\Windows\\CurrentVersion\\Run"@
}

/// A `reg.exe` command line: the arguments before the program path, whether
/// the program path follows, and the arguments after it.
pub struct StartupCommand {
    pub leading: Vec<String>,
    pub pass_exe: bool,
    pub trailing: Vec<String>,
}


/// The `reg.exe` arguments that add the launcher to, or remove it from, the
/// current user's `Run` key under the value name `DeskShortcut`.
pub fn startup_command(enabled: bool) -> (c: StartupCommand)
    ensures
        enabled ==> texts(c.leading@) == seq![
            "add"@,
            run_key(),
            "/v"@,
            "DeskShortcut"@,
            "/t"@,
            "REG_SZ"@,
            "/d"@,
        ] && c.pass_exe && texts(c.trailing@) == seq!["/f"@],
        !enabled ==> texts(c.leading@) == seq!["delete"@, run_key(), "/v"@, "DeskShortcut"@, "/f"@]
            && !c.pass_exe && c.trailing@.len() == 0,
{
    let mut leading: Vec<String> = Vec::new();
    let mut trailing: Vec<String> = Vec::new();
    if enabled {
        leading.push("add".to_owned());
        leading.push("HKCU\\Software\\Microsoft\\Windows\\CurrentVersion\\Run".to_owned());
        leading.push("/v".to_owned());
        leading.push("DeskShortcut".to_owned());
        leading.push("/t".to_owned());
        leading.push("REG_SZ".to_owned());
        leading.push("/d".to_owned());
        trailing.push("/f".to_owned());
        assert(texts(leading@) =~= seq![
            "add"@,
            run_key(),
            "/v"@,
            "DeskShortcut"@,
            "/t"@,
            "REG_SZ"@,
            "/d"@,
        ]);
        assert(texts(trailing@) =~= seq!["/f"@]);
        StartupCommand { leading, pass_exe: true, trailing }
    } else {
        leading.push("delete".to_owned());
        leading.push("HKCU\\Software\\Microsoft\\Windows\\CurrentVersion\\Run".to_owned());
        leading.push("/v".to_owned());
        leading.push("DeskShortcut".to_owned());
        leading.push("/f".to_owned());
        assert(texts(leading@) =~= seq!["delete"@, run_key(), "/v"@, "DeskShortcut"@, "/f"@]);
        StartupCommand { leading, pass_exe: false, trailing }
    }
}

pub open spec fn startup_failed_message() -> Seq<char> {
    "设置开机自启动失败，可能没有注册表写入权限"@
}

/// What the exit status of `reg.exe` means: success is fine, and so is any
/// status when removing the entry (it may not have been there).
pub fn startup_outcome(enabled: bool, success: bool) -> (r: Result<(), String>)
    ensures
        (success || !enabled) ==> r is Ok,
        !(success || !enabled) ==> (r matches Err(m) && m@ == startup_failed_message()),
{
    if success {
        Ok(())
    } else if !enabled {
        Ok(())
    } else {
        Err("设置开机自启动失败，可能没有注册表写入权限".to_owned())
    }
}

pub open spec fn path_mismatch_message() -> Seq<char> {
    "删除路径与导入时记录的原快捷方式路径不一致"@
}

/// The answer to a delete request from the extensions of the path and of
/// the path recorded at import, and whether the two name the same file: the
/// path must be a `.lnk` path, then the recorded one, and then they must be
/// the same.
pub fn delete_request_decision(
    path_extension: Option<&str>,
    expected_extension: Option<&str>,
    same_path: bool,
) -> (r: Result<(), String>)
    ensures
        !is_lnk_extension(opt_text(path_extension)) ==> (r matches Err(m) && m@
            == not_lnk_message()),
        is_lnk_extension(opt_text(path_extension)) && !is_lnk_extension(
            opt_text(expected_extension),
        ) ==> (r matches Err(m) && m@ == not_lnk_message()),
        is_lnk_extension(opt_text(path_extension)) && is_lnk_extension(
            opt_text(expected_extension),
        ) && !same_path ==> (r matches Err(m) && m@ == path_mismatch_message()),
        is_lnk_extension(opt_text(path_extension)) && is_lnk_extension(
            opt_text(expected_extension),
        ) && same_path ==> r is Ok,
{
    match lnk_extension_check(path_extension) {
        Ok(()) => {},
        Err(m) => {
            return Err(m);
        },
    }
    match lnk_extension_check(expected_extension) {
        Ok(()) => {},
        Err(m) => {
            return Err(m);
        },
    }
    if !same_path {
        return Err("删除路径与导入时记录的原快捷方式路径不一致".to_owned());
    }
    Ok(())
}

/// Checks a delete request: both paths must be `.lnk` paths, the path
/// first, and they must name the same file, so that only the shortcut
/// recorded at import can be deleted. Which files two texts name depends on
/// the platform; wherever the text alone settles whether a path is a
/// `.lnk` path (`known_lnk_answer`), and whether two `.lnk` paths differ
/// (their portable names differ), the answer is exact.
pub fn check_delete_request(path: &str, expected_path: &str) -> (r: Result<(), String>)
    ensures
        r is Ok || (r matches Err(m) && (m@ == not_lnk_message() || m@
            == path_mismatch_message())),
        !has_lnk_text(path@) || !has_lnk_text(expected_path@) ==> (r matches Err(m) && m@
            == not_lnk_message()),
        (r matches Err(m) && m@ == path_mismatch_message()) ==> path@ != expected_path@,
        known_lnk_answer(path@) == Some(false) ==> (r matches Err(m) && m@ == not_lnk_message()),
        known_lnk_answer(path@) == Some(true) && known_lnk_answer(expected_path@) == Some(false)
            ==> (r matches Err(m) && m@ == not_lnk_message()),
        known_lnk_answer(path@) == Some(true) && known_lnk_answer(expected_path@) == Some(true)
            && portable_name(path@) != portable_name(expected_path@) ==> (r matches Err(m) && m@
            == path_mismatch_message()),
        known_lnk_answer(path@) == Some(true) && path@ == expected_path@ ==> r is Ok,
        r is Ok ==> folded_pieces(path@) == folded_pieces(expected_path@),
        known_lnk_answer(path@) == Some(true) && known_lnk_answer(expected_path@) == Some(true)
            && folded_pieces(path@) != folded_pieces(expected_path@) ==> (r matches Err(m) && m@
            == path_mismatch_message()),
        lnk_file_name(path@) && lnk_file_name(expected_path@) && folded_pieces(path@)
            != folded_pieces(expected_path@) ==> (r matches Err(m) && m@ == path_mismatch_message()),
        lnk_file_name(path@) && path@ == expected_path@ ==> r is Ok,
{
    proof {
        reveal_strlit("当前仅支持 Windows 快捷方式（.lnk）");
        reveal_strlit("删除路径与导入时记录的原快捷方式路径不一致");
        assert(not_lnk_message()[0] != path_mismatch_message()[0]);
    }
    let path_ext = path_extension(path);
    let expected_ext = path_extension(expected_path);
    let same_path = paths_equal(path, expected_path);
    proof {
        if path_ext is Some {
            lemma_lnk_extension_has_text(path@, path_ext->0@);
        }
        if expected_ext is Some {
            lemma_lnk_extension_has_text(expected_path@, expected_ext->0@);
        }
        lemma_known_lnk_answer(path@, opt_string(path_ext));
        lemma_known_lnk_answer(expected_path@, opt_string(expected_ext));
        if lnk_file_name(path@) {
            lemma_lnk_file_name_is_known(path@);
        }
        if lnk_file_name(expected_path@) {
            lemma_lnk_file_name_is_known(expected_path@);
        }
    }
    let path_ext_ref: Option<&str> = match &path_ext {
        Some(e) => Some(e.as_str()),
        None => None,
    };
    let expected_ext_ref: Option<&str> = match &expected_ext {
        Some(e) => Some(e.as_str()),
        None => None,
    };
    assert(opt_text(path_ext_ref) == opt_string(path_ext));
    assert(opt_text(expected_ext_ref) == opt_string(expected_ext));
    delete_request_decision(path_ext_ref, expected_ext_ref, same_path)
}

pub open spec fn already_gone_message() -> Seq<char> {
    "原快捷方式已不存在"@
}

pub open spec fn is_directory_message() -> Seq<char> {
    "不允许删除目录"@
}

/// Before removing the file: a missing file is reported as not deleted, a
/// directory is refused, and otherwise removal goes ahead (`None`).
pub fn delete_preflight(exists: bool, is_dir: bool) -> (r: Option<Result<DeleteResult, String>>)
    ensures
        !exists ==> (r matches Some(Ok(d)) && !d.deleted && d.message@ == already_gone_message()),
        exists && is_dir ==> (r matches Some(Err(m)) && m@ == is_directory_message()),
        exists && !is_dir ==> r is None,
{
    if !exists {
        return Some(Ok(DeleteResult { deleted: false, message: "原快捷方式已不存在".to_owned() }));
    }
    if is_dir {
        return Some(Err("不允许删除目录".to_owned()));
    }
    None
}

/// How removing the file went.
pub enum RemoveOutcome {
    Removed,
    PermissionDenied,
    /// Any other failure, with the error's text.
    Failed(String),
}

pub open spec fn deleted_message() -> Seq<char> {
    "已删除桌面快捷方式"@
}

pub open spec fn permission_denied_message() -> Seq<char> {
    "权限不足，无法删除快捷方式"@
}

pub open spec fn delete_failed_prefix() -> Seq<char> {
    "删除失败，请稍后手动删除："@
}

/// The answer to a delete request once removal was tried.
pub fn delete_result(outcome: RemoveOutcome) -> (d: DeleteResult)
    ensures
        match outcome {
            RemoveOutcome::Removed => d.deleted && d.message@ == deleted_message(),
            RemoveOutcome::PermissionDenied => !d.deleted && d.message@
                == permission_denied_message(),
            RemoveOutcome::Failed(e) => !d.deleted && d.message@ == delete_failed_prefix() + e@,
        },
{
    match outcome {
        RemoveOutcome::Removed => DeleteResult {
            deleted: true,
            message: "已删除桌面快捷方式".to_owned(),
        },
        RemoveOutcome::PermissionDenied => DeleteResult {
            deleted: false,
            message: "权限不足，无法删除快捷方式".to_owned(),
        },
        RemoveOutcome::Failed(e) => {
            let mut message = "删除失败，请稍后手动删除：".to_owned();
            message.append(e.as_str());
            DeleteResult { deleted: false, message }
        },
    }
}

} // verus!
