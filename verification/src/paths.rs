//! Checks on the paths of `.lnk` files.

use vstd::prelude::*;
use crate::text::{
    ascii_fold, chars_of, eq_ignore_ascii_case, eq_ignore_ascii_case_spec, last_index_of,
    lemma_last_index_of,
};
use vstd::string::*;

verus! {

/// Whether `e` follows a `.` at position `i` of `path`.
pub open spec fn dotted_at(path: Seq<char>, i: int, e: Seq<char>) -> bool {
    &&& 0 <= i
    &&& i + 1 + e.len() <= path.len()
    &&& path[i] == '.'
    &&& path.subrange(i + 1, i + 1 + e.len()) == e
}

/// Whether `s` occurs in `t` as a run of consecutive characters.
pub open spec fn occurs_in(s: Seq<char>, t: Seq<char>) -> bool {
    exists|i: int| 0 <= i && i + s.len() <= t.len() && #[trigger] t.subrange(i, i + s.len()) == s
}

/// A path separator on Windows (`/` is one everywhere).
pub open spec fn is_separator(c: char) -> bool {
    c == '/' || c == '\\'
}

/// The file name of a path whose last component reads the same on every
/// platform: the text after the last `/`, when it holds no `\\` and no `:`
/// (so neither a Windows separator nor a drive prefix cuts it), is neither
/// empty, `.` nor `..`, and the path does not start with two separators
/// (a Windows UNC or device prefix). `None` for any other path.
pub open spec fn plain_file_name(path: Seq<char>) -> Option<Seq<char>> {
    let name = path.skip(last_index_of(path, '/') + 1);
    if name.len() > 0 && name != "."@ && name != ".."@ && !name.contains('\\') && !name.contains(
        ':',
    ) && !(path.len() >= 2 && is_separator(path[0]) && is_separator(path[1])) {
        Some(name)
    } else {
        None
    }
}

/// Whether a Windows prefix leaves the text after the last separator alone.
/// Only a path that starts with two separators can have a prefix that
/// reaches past a separator: `\\?\` (verbatim) and `\\.\` (device)
/// paths are left out, and a `\\server\share` prefix ends at the second
/// separator after the leading two, so the text after a later separator
/// is outside it.
pub open spec fn prefix_keeps_name(path: Seq<char>) -> bool {
    ||| !(path.len() >= 2 && is_separator(path[0]) && is_separator(path[1]))
    ||| (path.len() > 2 && path[2] != '?' && path[2] != '.' && exists|i: int, j: int|
        2 <= i < j < path.len() && #[trigger] is_separator(path[i]) && #[trigger] is_separator(
            path[j],
        ))
}

/// The text after the last separator, `/` or `\\`.
pub open spec fn last_segment(path: Seq<char>) -> Seq<char> {
    let after_slash = path.skip(last_index_of(path, '/') + 1);
    after_slash.skip(last_index_of(after_slash, '\\') + 1)
}

/// The text after the last separator, `/` or `\\`: on Windows the last
/// component of the path; elsewhere, where only `/` separates, the end of
/// the last component. It is portable when it is neither empty, `.` nor
/// `..`, holds no `:` (no drive prefix cuts it), and no Windows prefix
/// swallows it (`prefix_keeps_name`).
pub open spec fn portable_name(path: Seq<char>) -> Option<Seq<char>> {
    let name = last_segment(path);
    if name.len() > 0 && name != "."@ && name != ".."@ && !name.contains(':') && prefix_keeps_name(
        path,
    ) {
        Some(name)
    } else {
        None
    }
}

/// A character with its ASCII letters in lower case.
pub open spec fn lower_char(c: char) -> char {
    if 'A' <= c && c <= 'Z' {
        ((c as int) + 32) as char
    } else {
        c
    }
}

/// Index of the first separator, or the length when there is none.
pub open spec fn first_separator(s: Seq<char>) -> int
    decreases s.len(),
{
    if s.len() == 0 {
        0
    } else if is_separator(s[0]) {
        0
    } else {
        1 + first_separator(s.drop_first())
    }
}

pub proof fn lemma_first_separator_bounds(s: Seq<char>)
    ensures
        0 <= first_separator(s) <= s.len(),
    decreases s.len(),
{
    if s.len() > 0 {
        lemma_first_separator_bounds(s.drop_first());
    }
}

/// The pieces of a path between separators (`/` or `\\`), leaving out
/// empty ones and `.`, each with its ASCII letters in lower case. Two
/// paths that std compares equal on any platform have the same pieces:
/// std drops empty and `.` components, Windows treats both characters as
/// separators and compares drive letters without case, and elsewhere a
/// component's pieces depend on the component alone.
pub open spec fn folded_pieces(s: Seq<char>) -> Seq<Seq<char>>
    decreases s.len(),
{
    let k = first_separator(s);
    let piece = s.take(k);
    let kept: Seq<Seq<char>> = if piece.len() == 0 || piece == "."@ {
        seq![]
    } else {
        seq![piece.map_values(|c: char| lower_char(c))]
    };
    if k >= s.len() {
        kept
    } else {
        proof {
            lemma_first_separator_bounds(s);
        }
        kept + folded_pieces(s.skip(k + 1))
    }
}

/// Whether the optional text is there and ends with `s`.
pub open spec fn some_ending_with(t: Option<Seq<char>>, s: Seq<char>) -> bool {
    t matches Some(x) && ends_with(x, s)
}

/// Whether `t` ends with `s`.
pub open spec fn ends_with(t: Seq<char>, s: Seq<char>) -> bool {
    s.len() <= t.len() && t.skip(t.len() - s.len()) == s
}

proof fn lemma_last_index_absent(s: Seq<char>, c: char)
    requires
        !s.contains(c),
    ensures
        last_index_of(s, c) == -1,
    decreases s.len(),
{
    if s.len() > 0 {
        assert(s.last() == s[s.len() - 1]);
        assert forall|i: int| 0 <= i < s.drop_last().len() implies s.drop_last()[i] != c by {
            assert(s.drop_last()[i] == s[i]);
        }
        lemma_last_index_absent(s.drop_last(), c);
    }
}

/// A file name that reads the same on every platform is the portable name.
pub proof fn lemma_plain_name_is_portable(path: Seq<char>)
    ensures
        plain_file_name(path) matches Some(n) ==> portable_name(path) == Some(n),
{
    let after_slash = path.skip(last_index_of(path, '/') + 1);
    if plain_file_name(path) is Some {
        lemma_last_index_absent(after_slash, '\\');
        assert(after_slash.skip(0) =~= after_slash);
    }
}

/// The extension of a file name, as `Path::extension` documents it: the
/// text after the last `.`, unless there is no `.` or the only one starts
/// the name.
pub open spec fn extension_of(name: Seq<char>) -> Option<Seq<char>> {
    let k = last_index_of(name, '.');
    if k <= 0 {
        None
    } else {
        Some(name.skip(k + 1))
    }
}

/// The stem of a file name, as `Path::file_stem` documents it: the text
/// before the last `.`, or the whole name when there is no `.` or the only
/// one starts the name.
pub open spec fn stem_of(name: Seq<char>) -> Seq<char> {
    let k = last_index_of(name, '.');
    if k <= 0 {
        name
    } else {
        name.take(k)
    }
}

/// `Path::new(path).extension()`, as text: the part of the file name after
/// its last `.`. The file name is a run of the path's text, so the
/// extension follows a `.` there and holds no `.` itself. Where the file
/// name is the same on every platform (`plain_file_name`), the extension is
/// the one std's documentation gives for it. Where only the portable end
/// of the name is known (`portable_name`): a `.` inside it, not at its
/// start, is the last `.` of the file name on every platform, so the
/// extension is what follows; and when it has no `.`, the extension is
/// absent (Windows) or holds the separator `\\` before it (elsewhere), so
/// it is not `lnk`.
#[verifier::external_body]
pub(crate) fn path_extension(path: &str) -> (r: Option<String>)
    ensures
        r matches Some(e) ==> !e@.contains('.') && exists|i: int|
            #[trigger] dotted_at(path@, i, e@),
        plain_file_name(path@) matches Some(name) ==> opt_string(r) == extension_of(name),
        portable_name(path@) matches Some(w) ==> last_index_of(w, '.') > 0 ==> opt_string(r)
            == extension_of(w),
        portable_name(path@) matches Some(w) ==> last_index_of(w, '.') < 0 ==> !is_lnk_extension(
            opt_string(r),
        ),
{
    match std::path::Path::new(path).extension() {
        Some(e) => match e.to_str() {
            Some(s) => Some(s.to_owned()),
            None => None,
        },
        None => None,
    }
}

/// `Path::new(path).file_stem()`, as text: the file name without its
/// extension. A file name is a non-empty run of the path's text and its
/// stem keeps at least its first character, so the stem is a non-empty run
/// of the path. Where the file name is the same on every platform
/// (`plain_file_name`), the stem is the one std's documentation gives.
/// Where only its portable end is known (`portable_name`) and that has a
/// `.` not at its start, the stem ends with the text before that `.`: the
/// whole stem on Windows, its end elsewhere.
#[verifier::external_body]
pub(crate) fn path_file_stem(path: &str) -> (r: Option<String>)
    ensures
        r matches Some(s) ==> s@.len() > 0 && occurs_in(s@, path@),
        plain_file_name(path@) matches Some(name) ==> opt_string(r) == Some(stem_of(name)),
        portable_name(path@) matches Some(w) ==> last_index_of(w, '.') > 0 ==> some_ending_with(
            opt_string(r),
            stem_of(w),
        ),
{
    match std::path::Path::new(path).file_stem() {
        Some(e) => match e.to_str() {
            Some(s) => Some(s.to_owned()),
            None => None,
        },
        None => None,
    }
}

/// `PathBuf::from(a) == PathBuf::from(b)`: whether two paths have the same
/// components. How text splits into components depends on the platform,
/// so only this is stated: equal text gives equal paths, and two paths
/// whose portable names differ are different paths (on Windows those names
/// are the last components; elsewhere each last component ends with its
/// name right after a `\\` or at its start, so equal components would
/// give equal names). Equal paths also have the same `folded_pieces`.
#[verifier::external_body]
pub(crate) fn paths_equal(a: &str, b: &str) -> (r: bool)
    ensures
        a@ == b@ ==> r,
        (portable_name(a@) matches Some(x) && portable_name(b@) matches Some(y) && x != y) ==> !r,
        r ==> folded_pieces(a@) == folded_pieces(b@),
{
    std::path::PathBuf::from(a) == std::path::PathBuf::from(b)
}

/// Whether the path has `.lnk`, in any ASCII case, somewhere in its text.
pub open spec fn has_lnk_text(path: Seq<char>) -> bool {
    exists|i: int, e: Seq<char>| #[trigger] dotted_at(path, i, e) && eq_ignore_ascii_case_spec(e, "lnk"@)
}

pub open spec fn not_lnk_message() -> Seq<char> {
    "当前仅支持 Windows 快捷方式（.lnk）"@
}

/// A path extension names a shortcut file when it is `lnk` in any ASCII case.
pub open spec fn is_lnk_extension(extension: Option<Seq<char>>) -> bool {
    match extension {
        Some(e) => eq_ignore_ascii_case_spec(e, "lnk"@),
        None => false,
    }
}

/// Whether the path is a `.lnk` path, where the text alone decides it on
/// every platform: from the whole file name when it reads the same
/// everywhere, or from its portable end when that does not start with its
/// only `.`.
pub open spec fn known_lnk_answer(path: Seq<char>) -> Option<bool> {
    if plain_file_name(path) is Some {
        Some(is_lnk_extension(extension_of(plain_file_name(path)->0)))
    } else if portable_name(path) is Some && last_index_of(portable_name(path)->0, '.') != 0 {
        Some(is_lnk_extension(extension_of(portable_name(path)->0)))
    } else {
        None
    }
}

/// What `path_extension` states of its result settles whether it is `lnk`
/// wherever `known_lnk_answer` gives an answer; a known `.lnk` path has a
/// portable name.
pub(crate) proof fn lemma_known_lnk_answer(path: Seq<char>, extension: Option<Seq<char>>)
    requires
        plain_file_name(path) matches Some(name) ==> extension == extension_of(name),
        portable_name(path) matches Some(w) ==> last_index_of(w, '.') > 0 ==> extension
            == extension_of(w),
        portable_name(path) matches Some(w) ==> last_index_of(w, '.') < 0 ==> !is_lnk_extension(
            extension,
        ),
    ensures
        known_lnk_answer(path) matches Some(b) ==> is_lnk_extension(extension) == b,
        known_lnk_answer(path) is Some ==> portable_name(path) is Some,
{
    lemma_plain_name_is_portable(path);
}

/// Whether the text after the path's last separator is a non-empty stem
/// followed by `.lnk` in any ASCII case, holds no `:`, and no Windows
/// prefix swallows it.
pub open spec fn lnk_file_name(path: Seq<char>) -> bool {
    let w = last_segment(path);
    &&& w.len() >= 5
    &&& w[w.len() - 4] == '.'
    &&& eq_ignore_ascii_case_spec(w.skip(w.len() - 3), "lnk"@)
    &&& !w.contains(':')
    &&& prefix_keeps_name(path)
}

/// A path whose last part is a stem followed by `.lnk` is known to be a
/// `.lnk` path on every platform, and its portable name is that part.
pub proof fn lemma_lnk_file_name_is_known(path: Seq<char>)
    requires
        lnk_file_name(path),
    ensures
        known_lnk_answer(path) == Some(true),
        portable_name(path) == Some(last_segment(path)),
{
    let w = last_segment(path);
    reveal_strlit(".");
    reveal_strlit("..");
    reveal_strlit("lnk");
    assert(w != "."@ && w != ".."@) by {
        assert(w.len() != "."@.len() && w.len() != ".."@.len());
    }
    let k = w.len() - 4;
    assert forall|j: int| k < j < w.len() implies w[j] != '.' by {
        let t = w.skip(w.len() - 3);
        assert(w[j] == t[j - (w.len() - 3)]);
        assert(ascii_fold(t[j - (w.len() - 3)]) == ascii_fold("lnk"@[j - (w.len() - 3)]));
    }
    lemma_last_index_of(w, '.', k);
    assert(extension_of(w) == Some(w.skip(w.len() - 3)));
    lemma_plain_name_is_portable(path);
}

/// The text of an optional string slice.
pub open spec fn opt_text(o: Option<&str>) -> Option<Seq<char>> {
    match o {
        Some(e) => Some(e@),
        None => None,
    }
}

/// Accepts a path extension that is `lnk` in any ASCII case.
pub fn lnk_extension_check(extension: Option<&str>) -> (r: Result<(), String>)
    ensures
        is_lnk_extension(opt_text(extension)) ==> r is Ok,
        !is_lnk_extension(opt_text(extension)) ==> (r matches Err(m) && m@ == not_lnk_message()),
{
    let is_lnk = match extension {
        Some(e) => {
            let lnk = chars_of("lnk");
            eq_ignore_ascii_case(&chars_of(e), &lnk)
        },
        None => false,
    };
    if is_lnk {
        Ok(())
    } else {
        Err("当前仅支持 Windows 快捷方式（.lnk）".to_owned())
    }
}

/// Accepts only paths whose extension is `lnk` in any ASCII case. Which
/// run of the text is the extension depends on the platform; for a path
/// whose file name reads the same everywhere the answer is exact.
pub fn validate_lnk_path(path: &str) -> (r: Result<(), String>)
    ensures
        r is Ok || (r matches Err(m) && m@ == not_lnk_message()),
        r is Ok ==> has_lnk_text(path@),
        known_lnk_answer(path@) matches Some(b) ==> (r is Ok <==> b),
        lnk_file_name(path@) ==> r is Ok,
{
    let extension = path_extension(path);
    let r = match &extension {
        Some(e) => lnk_extension_check(Some(e.as_str())),
        None => lnk_extension_check(None),
    };
    proof {
        if extension is Some {
            lemma_lnk_extension_has_text(path@, extension->0@);
        }
        lemma_known_lnk_answer(path@, opt_string(extension));
        if lnk_file_name(path@) {
            lemma_lnk_file_name_is_known(path@);
        }
    }
    r
}

/// The text of an optional `String`.
pub open spec fn opt_string(o: Option<String>) -> Option<Seq<char>> {
    match o {
        Some(e) => Some(e@),
        None => None,
    }
}

/// An extension that follows a `.` in the path, when it is `lnk`, shows as
/// `.lnk` text in the path.
pub(crate) proof fn lemma_lnk_extension_has_text(path: Seq<char>, e: Seq<char>)
    requires
        exists|i: int| #[trigger] dotted_at(path, i, e),
    ensures
        is_lnk_extension(Some(e)) ==> has_lnk_text(path),
{
    if is_lnk_extension(Some(e)) {
        let i = choose|i: int| #[trigger] dotted_at(path, i, e);
        assert(dotted_at(path, i, e) && eq_ignore_ascii_case_spec(e, "lnk"@));
    }
}

} // verus!
