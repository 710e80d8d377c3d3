//! Where a shortcut's icon comes from: `path,index` icon locations,
//! `%NAME%` environment references, and the ordered, duplicate-free list of
//! icon sources that icon extraction tries.

use vstd::prelude::*;
use vstd::string::*;
use crate::text::{
    chars_of, copy_range, find_char, index_of, last_index_of, parse_i32, parse_i32_spec, rfind_char,
    string_of, string_push, strip_both, strip_chars, Strip, eq_ignore_ascii_case,
    eq_ignore_ascii_case_spec,
};

verus! {

/// Looks a variable up in a table of environment values: the value of the
/// first entry with exactly that name, if any.
pub open spec fn env_lookup(env: Seq<(String, String)>, name: Seq<char>) -> Option<Seq<char>>
    decreases env.len(),
{
    if env.len() == 0 {
        None
    } else if env[0].0@ == name {
        Some(env[0].1@)
    } else {
        env_lookup(env.drop_first(), name)
    }
}

pub proof fn lemma_index_of_bounds(s: Seq<char>, c: char)
    ensures
        0 <= index_of(s, c) <= s.len(),
    decreases s.len(),
{
    if s.len() > 0 {
        lemma_index_of_bounds(s.drop_first(), c);
    }
}

/// What stands in place of a `%name%` reference: `%%` for an empty name,
/// the variable's value when it is set, the reference itself otherwise.
pub open spec fn env_replacement(name: Seq<char>, env: Seq<(String, String)>) -> Seq<char> {
    if name.len() == 0 {
        seq!['%', '%']
    } else {
        match env_lookup(env, name) {
            Some(v) => v,
            None => seq!['%'] + name + seq!['%'],
        }
    }
}

/// Expansion of `%NAME%` references from left to right. A `%` without a
/// closing `%` is kept as it is, with the rest of the text.
pub open spec fn expand_env_spec(s: Seq<char>, env: Seq<(String, String)>) -> Seq<char>
    decreases s.len(),
{
    let p = index_of(s, '%');
    if p >= s.len() {
        s
    } else {
        let after = s.skip(p + 1);
        let q = index_of(after, '%');
        if q >= after.len() {
            s
        } else {
            proof {
                lemma_index_of_bounds(s, '%');
                lemma_index_of_bounds(after, '%');
            }
            s.take(p) + env_replacement(after.take(q), env) + expand_env_spec(
                after.skip(q + 1),
                env,
            )
        }
    }
}

/// The names, in order, of the environment variables that expansion looks
/// up (every non-empty `%NAME%` reference).
pub open spec fn env_refs(s: Seq<char>) -> Seq<Seq<char>>
    decreases s.len(),
{
    let p = index_of(s, '%');
    if p >= s.len() {
        seq![]
    } else {
        let after = s.skip(p + 1);
        let q = index_of(after, '%');
        if q >= after.len() {
            seq![]
        } else {
            proof {
                lemma_index_of_bounds(s, '%');
                lemma_index_of_bounds(after, '%');
            }
            let tail = env_refs(after.skip(q + 1));
            if q == 0 {
                tail
            } else {
                seq![after.take(q)] + tail
            }
        }
    }
}

fn push_range(out: &mut String, v: &[char], from: usize, to: usize)
    requires
        from <= to <= v.len(),
    ensures
        final(out)@ == old(out)@ + v@.subrange(from as int, to as int),
{
    let mut k: usize = from;
    while k < to
        invariant
            from <= k <= to <= v.len(),
            out@ == old(out)@ + v@.subrange(from as int, k as int),
        decreases to - k,
    {
        string_push(out, v[k]);
        assert(old(out)@ + v@.subrange(from as int, k + 1) =~= old(out)@ + v@.subrange(
            from as int,
            k as int,
        ) + seq![v@[k as int]]);
        k = k + 1;
    }
}

/// The value of a variable in the table, if it is there.
pub fn lookup_env<'a>(env: &'a Vec<(String, String)>, name: &String) -> (r: Option<&'a String>)
    ensures
        match r {
            Some(v) => env_lookup(env@, name@) == Some(v@),
            None => env_lookup(env@, name@) is None,
        },
{
    let mut i: usize = 0;
    assert(env@.skip(0) =~= env@);
    while i < env.len()
        invariant
            i <= env.len(),
            env_lookup(env@, name@) == env_lookup(env@.skip(i as int), name@),
        decreases env.len() - i,
    {
        assert(env@.skip(i as int).drop_first() =~= env@.skip(i + 1));
        if env[i].0 == *name {
            return Some(&env[i].1);
        }
        i = i + 1;
    }
    None
}

/// Splits the text at `pos` into what precedes the next `%...%` reference,
/// the reference's name, and what follows it.
proof fn lemma_reference_split(v: Seq<char>, pos: int, p: int, q: int)
    requires
        0 <= pos <= p < q < v.len(),
        index_of(v.subrange(pos, v.len() as int), '%') == p - pos,
        index_of(v.subrange(p + 1, v.len() as int), '%') == q - (p + 1),
    ensures
        ({
            let rest = v.subrange(pos, v.len() as int);
            let after = rest.skip(p - pos + 1);
            &&& index_of(rest, '%') < rest.len()
            &&& after == v.subrange(p + 1, v.len() as int)
            &&& index_of(after, '%') < after.len()
            &&& rest.take(p - pos) == v.subrange(pos, p)
            &&& after.take(q - (p + 1)) == v.subrange(p + 1, q)
            &&& after.skip(q - (p + 1) + 1) == v.subrange(q + 1, v.len() as int)
        }),
{
    let rest = v.subrange(pos, v.len() as int);
    let after = rest.skip(p - pos + 1);
    assert(after =~= v.subrange(p + 1, v.len() as int));
    assert(rest.take(p - pos) =~= v.subrange(pos, p));
    assert(after.take(q - (p + 1)) =~= v.subrange(p + 1, q));
    assert(after.skip(q - (p + 1) + 1) =~= v.subrange(q + 1, v.len() as int));
}

/// Replaces `%NAME%` references with the values in `env`, as
/// `expand_env_spec` describes: `%%` stays, unset names stay as written.
pub fn expand_windows_env_vars(value: &str, env: &Vec<(String, String)>) -> (r: String)
    ensures
        r@ == expand_env_spec(value@, env@),
{
    let v = chars_of(value);
    let n = v.len();
    let mut out = String::new();
    let mut pos: usize = 0;
    assert(v@.subrange(0, n as int) =~= v@);
    while pos < n
        invariant
            pos <= n == v.len(),
            expand_env_spec(v@, env@) == out@ + expand_env_spec(
                v@.subrange(pos as int, n as int),
                env@,
            ),
        decreases n - pos,
    {
        let ghost rest = v@.subrange(pos as int, n as int);
        let ghost old_out = out@;
        let mut next: usize = n;
        match find_char(&v, pos, '%') {
            None => {
                push_range(&mut out, &v, pos, n);
                assert(out@ =~= old_out + rest);
            },
            Some(p) => {
                let ghost after = rest.skip(p - pos + 1);
                assert(after =~= v@.subrange(p + 1, n as int));
                match find_char(&v, p + 1, '%') {
                    None => {
                        push_range(&mut out, &v, pos, n);
                        assert(out@ =~= old_out + rest);
                    },
                    Some(q) => {
                        proof {
                            lemma_reference_split(v@, pos as int, p as int, q as int);
                        }
                        push_range(&mut out, &v, pos, p);
                        let ghost before_repl = out@;
                        if q == p + 1 {
                            string_push(&mut out, '%');
                            string_push(&mut out, '%');
                            assert(out@ =~= before_repl + env_replacement(
                                v@.subrange(p + 1, q as int),
                                env@,
                            ));
                        } else {
                            let name = string_of(&copy_range(&v, p + 1, q));
                            match lookup_env(env, &name) {
                                Some(val) => {
                                    out.append(val.as_str());
                                },
                                None => {
                                    string_push(&mut out, '%');
                                    out.append(name.as_str());
                                    string_push(&mut out, '%');
                                },
                            }
                            assert(out@ =~= before_repl + env_replacement(
                                v@.subrange(p + 1, q as int),
                                env@,
                            ));
                        }
                        next = q + 1;
                        assert(old_out + v@.subrange(pos as int, p as int) + env_replacement(
                            v@.subrange(p + 1, q as int),
                            env@,
                        ) + expand_env_spec(v@.subrange(q + 1, n as int), env@) =~= out@
                            + expand_env_spec(v@.subrange(next as int, n as int), env@));
                    },
                }
            },
        }
        assert(v@.subrange(n as int, n as int) =~= Seq::<char>::empty());
        assert(index_of(Seq::<char>::empty(), '%') == 0);
        assert(out@ + Seq::<char>::empty() =~= out@);
        pos = next;
    }
    assert(v@.subrange(n as int, n as int) =~= Seq::<char>::empty());
    assert(out@ + Seq::<char>::empty() =~= out@);
    out
}

} // verus!

verus! {

/// The text of each string, in order.
pub open spec fn texts(v: Seq<String>) -> Seq<Seq<char>> {
    v.map_values(|x: String| x@)
}

/// The names of the environment variables that expanding `value` looks up,
/// in order; a caller fills the table for `expand_windows_env_vars` with them.
pub fn env_var_references(value: &str) -> (r: Vec<String>)
    ensures
        texts(r@) == env_refs(value@),
{
    let v = chars_of(value);
    let n = v.len();
    let mut names: Vec<String> = Vec::new();
    let mut pos: usize = 0;
    assert(v@.subrange(0, n as int) =~= v@);
    assert(texts(names@) =~= Seq::<Seq<char>>::empty());
    while pos < n
        invariant
            pos <= n == v.len(),
            env_refs(v@) == texts(names@) + env_refs(v@.subrange(pos as int, n as int)),
        decreases n - pos,
    {
        let ghost rest = v@.subrange(pos as int, n as int);
        let ghost old_names = texts(names@);
        let mut next: usize = n;
        match find_char(&v, pos, '%') {
            None => {
                assert(env_refs(rest) =~= Seq::<Seq<char>>::empty());
            },
            Some(p) => {
                let ghost after = rest.skip(p - pos + 1);
                assert(after =~= v@.subrange(p + 1, n as int));
                match find_char(&v, p + 1, '%') {
                    None => {
                        assert(env_refs(rest) =~= Seq::<Seq<char>>::empty());
                    },
                    Some(q) => {
                        proof {
                            lemma_reference_split(v@, pos as int, p as int, q as int);
                        }
                        if q > p + 1 {
                            let name = string_of(&copy_range(&v, p + 1, q));
                            names.push(name);
                            assert(texts(names@) =~= old_names.push(
                                v@.subrange(p + 1, q as int),
                            ));
                        }
                        next = q + 1;
                        assert(old_names + env_refs(rest) =~= texts(names@) + env_refs(
                            v@.subrange(next as int, n as int),
                        ));
                    },
                }
            },
        }
        assert(v@.subrange(n as int, n as int) =~= Seq::<char>::empty());
        assert(index_of(Seq::<char>::empty(), '%') == 0);
        assert(texts(names@) + Seq::<Seq<char>>::empty() =~= texts(names@));
        pos = next;
    }
    assert(v@.subrange(n as int, n as int) =~= Seq::<char>::empty());
    assert(index_of(Seq::<char>::empty(), '%') == 0);
    assert(texts(names@) + Seq::<Seq<char>>::empty() =~= texts(names@));
    names
}

/// An icon location of the form `path,index`: the text before the last
/// comma, without surrounding whitespace and quotes, and the `i32` after
/// it, without surrounding whitespace. `None` when there is no comma, the
/// index does not parse, or the path is empty.
pub open spec fn split_icon_location_spec(s: Seq<char>) -> Option<(Seq<char>, i32)> {
    let k = last_index_of(s, ',');
    if k < 0 {
        None
    } else {
        match parse_i32_spec(strip_both(s.skip(k + 1), Strip::Whitespace)) {
            None => None,
            Some(index) => {
                let path = strip_both(strip_both(s.take(k), Strip::Whitespace), Strip::Quote);
                if path.len() == 0 {
                    None
                } else {
                    Some((path, index))
                }
            },
        }
    }
}

/// Splits an icon location such as `C:\app.exe,2` into its path and index.
pub fn split_icon_location(value: &str) -> (r: Option<(String, i32)>)
    ensures
        match r {
            None => split_icon_location_spec(value@) is None,
            Some((path, index)) => split_icon_location_spec(value@) == Some((path@, index)),
        },
{
    let v = chars_of(value);
    let k = match rfind_char(&v, ',') {
        None => {
            return None;
        },
        Some(k) => k,
    };
    let index_part = copy_range(&v, k + 1, v.len());
    assert(index_part@ =~= v@.skip(k + 1));
    let parsed = match parse_i32(&strip_chars(&index_part, Strip::Whitespace)) {
        None => {
            return None;
        },
        Some(i) => i,
    };
    let path_part = copy_range(&v, 0, k);
    assert(path_part@ =~= v@.take(k as int));
    let clean = strip_chars(&strip_chars(&path_part, Strip::Whitespace), Strip::Quote);
    if clean.len() == 0 {
        None
    } else {
        Some((string_of(&clean), parsed))
    }
}

} // verus!

verus! {

/// Whether the table of known files lists exactly this path.
pub open spec fn is_listed(files: Seq<String>, p: Seq<char>) -> bool {
    exists|k: int| 0 <= k < files.len() && #[trigger] files[k]@ == p
}

fn listed(files: &Vec<String>, p: &String) -> (b: bool)
    ensures
        b == is_listed(files@, p@),
{
    let mut k: usize = 0;
    while k < files.len()
        invariant
            k <= files.len(),
            forall|j: int| 0 <= j < k ==> files@[j]@ != p@,
        decreases files.len() - k,
    {
        if files[k] == *p {
            assert(files@[k as int]@ == p@);
            return true;
        }
        k = k + 1;
    }
    false
}

/// An icon source as the shortcut stores it, without surrounding
/// whitespace and then without surrounding quotes.
pub open spec fn icon_source_text_spec(s: Seq<char>) -> Seq<char> {
    strip_both(strip_both(s, Strip::Whitespace), Strip::Quote)
}

/// Where an icon source points: after trimming and expanding environment
/// references, the path itself with the fallback index when it is a file,
/// else the path and index of a `path,index` location when that path is a
/// file, else nothing.
pub open spec fn normalize_icon_source_spec(
    value: Seq<char>,
    fallback_index: i32,
    env: Seq<(String, String)>,
    files: Seq<String>,
) -> Option<(Seq<char>, i32)> {
    let text = icon_source_text_spec(value);
    if text.len() == 0 {
        None
    } else {
        let expanded = expand_env_spec(text, env);
        if is_listed(files, expanded) {
            Some((expanded, fallback_index))
        } else {
            match split_icon_location_spec(expanded) {
                Some((p, i)) => if is_listed(files, p) {
                    Some((p, i))
                } else {
                    None
                },
                None => None,
            }
        }
    }
}

/// The paths whose file status resolving an icon source depends on.
pub open spec fn icon_probe_paths_spec(value: Seq<char>, env: Seq<(String, String)>) -> Seq<
    Seq<char>,
> {
    let text = icon_source_text_spec(value);
    if text.len() == 0 {
        seq![]
    } else {
        let expanded = expand_env_spec(text, env);
        match split_icon_location_spec(expanded) {
            Some((p, i)) => seq![expanded, p],
            None => seq![expanded],
        }
    }
}

/// The icon source text as a `String`, trimmed of whitespace and quotes.
pub fn icon_source_text(value: &str) -> (r: String)
    ensures
        r@ == icon_source_text_spec(value@),
{
    string_of(&strip_chars(&strip_chars(&chars_of(value), Strip::Whitespace), Strip::Quote))
}

/// The paths to test with `is_file` before resolving this icon source.
pub fn icon_probe_paths(value: &str, env: &Vec<(String, String)>) -> (r: Vec<String>)
    ensures
        texts(r@) == icon_probe_paths_spec(value@, env@),
{
    let mut r: Vec<String> = Vec::new();
    let text = icon_source_text(value);
    if text.unicode_len() == 0 {
        assert(texts(r@) =~= Seq::<Seq<char>>::empty());
        return r;
    }
    let expanded = expand_windows_env_vars(text.as_str(), env);
    let split = split_icon_location(expanded.as_str());
    r.push(expanded);
    match split {
        Some((p, _)) => {
            r.push(p);
        },
        None => {},
    }
    assert(texts(r@) =~= icon_probe_paths_spec(value@, env@));
    r
}

/// Resolves an icon source to an existing file and icon index.
///
/// `env` holds the values of the environment variables that the source
/// refers to (unset ones are left out); `files` lists the paths among
/// `icon_probe_paths` that are files.
pub fn normalize_icon_source(
    value: &str,
    fallback_index: i32,
    env: &Vec<(String, String)>,
    files: &Vec<String>,
) -> (r: Option<(String, i32)>)
    ensures
        match r {
            None => normalize_icon_source_spec(value@, fallback_index, env@, files@) is None,
            Some((p, i)) => normalize_icon_source_spec(value@, fallback_index, env@, files@)
                == Some((p@, i)),
        },
{
    let text = icon_source_text(value);
    if text.unicode_len() == 0 {
        return None;
    }
    let expanded = expand_windows_env_vars(text.as_str(), env);
    if listed(files, &expanded) {
        return Some((expanded, fallback_index));
    }
    match split_icon_location(expanded.as_str()) {
        Some((p, i)) => {
            if listed(files, &p) {
                Some((p, i))
            } else {
                None
            }
        },
        None => None,
    }
}

/// The path text and index of each candidate.
pub open spec fn candidate_view(c: Seq<(String, i32)>) -> Seq<(Seq<char>, i32)> {
    c.map_values(|x: (String, i32)| (x.0@, x.1))
}

/// Whether a candidate with this path (ignoring ASCII case) and index is
/// already in the list.
pub open spec fn has_candidate(c: Seq<(Seq<char>, i32)>, p: Seq<char>, i: i32) -> bool {
    exists|k: int| 0 <= k < c.len() && eq_ignore_ascii_case_spec(#[trigger] c[k].0, p) && c[k].1 == i
}

/// The list after offering it one resolved icon source: it grows only when
/// the source resolved and is not already there.
pub open spec fn push_candidate_spec(c: Seq<(Seq<char>, i32)>, source: Option<(Seq<char>, i32)>) -> Seq<
    (Seq<char>, i32),
> {
    match source {
        None => c,
        Some((p, i)) => if has_candidate(c, p, i) {
            c
        } else {
            c.push((p, i))
        },
    }
}

/// No two candidates share a path (ignoring ASCII case) and an index.
pub open spec fn candidates_distinct(c: Seq<(Seq<char>, i32)>) -> bool {
    forall|a: int, b: int|
        0 <= a < b < c.len() ==> !(eq_ignore_ascii_case_spec(#[trigger] c[a].0, #[trigger] c[b].0)
            && c[a].1 == c[b].1)
}

/// Adds the icon source to the candidates unless it does not resolve or is
/// already there.
pub fn push_icon_candidate(
    candidates: &mut Vec<(String, i32)>,
    value: &str,
    fallback_index: i32,
    env: &Vec<(String, String)>,
    files: &Vec<String>,
)
    ensures
        candidate_view(final(candidates)@) == push_candidate_spec(
            candidate_view(old(candidates)@),
            normalize_icon_source_spec(value@, fallback_index, env@, files@),
        ),
{
    let ghost before = candidate_view(candidates@);
    match normalize_icon_source(value, fallback_index, env, files) {
        None => {},
        Some((path, index)) => {
            let path_chars = chars_of(path.as_str());
            let mut k: usize = 0;
            while k < candidates.len()
                invariant
                    k <= candidates.len(),
                    before == candidate_view(candidates@),
                    before == candidate_view(old(candidates)@),
                    normalize_icon_source_spec(value@, fallback_index, env@, files@) == Some(
                        (path@, index),
                    ),
                    path_chars@ == path@,
                    forall|j: int|
                        0 <= j < k ==> !(eq_ignore_ascii_case_spec(#[trigger] before[j].0, path@)
                            && before[j].1 == index),
                decreases candidates.len() - k,
            {
                let existing = chars_of(candidates[k].0.as_str());
                if eq_ignore_ascii_case(&existing, &path_chars) && candidates[k].1 == index {
                    assert(before[k as int].0 == candidates@[k as int].0@);
                    assert(has_candidate(before, path@, index));
                    return;
                }
                k = k + 1;
            }
            candidates.push((path, index));
            assert(candidate_view(candidates@) =~= before.push((path@, index)));
        },
    }
}

/// The icon sources that extraction tries, in order: the shortcut's icon
/// location with its index, then the target with index 0, each only when
/// it resolves, and the second only when it differs from the first.
pub fn icon_candidates(
    icon_path: &str,
    target_path: &str,
    icon_index: i32,
    env: &Vec<(String, String)>,
    files: &Vec<String>,
) -> (r: Vec<(String, i32)>)
    ensures
        candidate_view(r@) == push_candidate_spec(
            push_candidate_spec(
                seq![],
                normalize_icon_source_spec(icon_path@, icon_index, env@, files@),
            ),
            normalize_icon_source_spec(target_path@, 0, env@, files@),
        ),
        r@.len() <= 2,
        candidates_distinct(candidate_view(r@)),
        forall|k: int| 0 <= k < r@.len() ==> is_listed(files@, #[trigger] r@[k].0@),
{
    let mut candidates: Vec<(String, i32)> = Vec::new();
    assert(candidate_view(candidates@) =~= Seq::<(Seq<char>, i32)>::empty());
    push_icon_candidate(&mut candidates, icon_path, icon_index, env, files);
    push_icon_candidate(&mut candidates, target_path, 0, env, files);
    proof {
        let first = normalize_icon_source_spec(icon_path@, icon_index, env@, files@);
        let second = normalize_icon_source_spec(target_path@, 0, env@, files@);
        lemma_push_candidate_keeps_distinct(seq![], first);
        lemma_push_candidate_keeps_distinct(push_candidate_spec(seq![], first), second);
        lemma_resolved_source_is_listed(icon_path@, icon_index, env@, files@);
        lemma_resolved_source_is_listed(target_path@, 0, env@, files@);
        let c = candidate_view(candidates@);
        assert forall|k: int| 0 <= k < candidates@.len() implies is_listed(
            files@,
            #[trigger] candidates@[k].0@,
        ) by {
            assert(c[k].0 == candidates@[k].0@);
        }
    }
    candidates
}

/// Offering a source to a list of distinct candidates keeps them distinct,
/// and adds at most one entry.
pub proof fn lemma_push_candidate_keeps_distinct(
    c: Seq<(Seq<char>, i32)>,
    source: Option<(Seq<char>, i32)>,
)
    ensures
        candidates_distinct(c) ==> candidates_distinct(push_candidate_spec(c, source)),
        push_candidate_spec(c, source).len() <= c.len() + 1,
{
    match source {
        None => {},
        Some((p, i)) => {
            if !has_candidate(c, p, i) {
                let n = c.push((p, i));
                assert forall|a: int, b: int| 0 <= a < b < n.len() && candidates_distinct(c) implies !(
                eq_ignore_ascii_case_spec(#[trigger] n[a].0, #[trigger] n[b].0) && n[a].1
                    == n[b].1) by {
                    if b == c.len() {
                        if eq_ignore_ascii_case_spec(n[a].0, n[b].0) && n[a].1 == n[b].1 {
                            assert(eq_ignore_ascii_case_spec(c[a].0, p));
                            assert(has_candidate(c, p, i));
                        }
                    } else {
                        assert(n[a] == c[a] && n[b] == c[b]);
                    }
                }
            }
        },
    }
}

} // verus!

verus! {

proof fn lemma_index_of_hits(s: Seq<char>, c: char)
    ensures
        index_of(s, c) < s.len() ==> s[index_of(s, c)] == c,
        forall|j: int| 0 <= j < index_of(s, c) && j < s.len() ==> s[j] != c,
    decreases s.len(),
{
    lemma_index_of_bounds(s, c);
    if s.len() > 0 && s[0] != c {
        lemma_index_of_hits(s.drop_first(), c);
        lemma_index_of_bounds(s.drop_first(), c);
        let k = index_of(s.drop_first(), c);
        if k < s.drop_first().len() {
            assert(s[1 + k] == s.drop_first()[k]);
        }
        assert forall|j: int| 0 <= j < index_of(s, c) && j < s.len() implies s[j] != c by {
            if j > 0 {
                assert(s[j] == s.drop_first()[j - 1]);
            }
        }
    }
}

/// With no variable set, expansion gives the text back unchanged: every
/// `%NAME%` reference, and every `%%`, stays as written.
pub proof fn lemma_expand_without_values(s: Seq<char>)
    ensures
        expand_env_spec(s, Seq::<(String, String)>::empty()) == s,
    decreases s.len(),
{
    let env = Seq::<(String, String)>::empty();
    let p = index_of(s, '%');
    lemma_index_of_bounds(s, '%');
    lemma_index_of_hits(s, '%');
    if p < s.len() {
        let after = s.skip(p + 1);
        let q = index_of(after, '%');
        lemma_index_of_bounds(after, '%');
        lemma_index_of_hits(after, '%');
        if q < after.len() {
            let name = after.take(q);
            let rest = after.skip(q + 1);
            lemma_expand_without_values(rest);
            assert(env_lookup(env, name) is None);
            assert(env_replacement(name, env) =~= seq!['%'] + name + seq!['%']);
            assert(s.take(p) + (seq!['%'] + name + seq!['%']) + rest =~= s);
        }
    }
}

/// Text without any `%` comes out of expansion unchanged, whatever the
/// environment holds.
pub proof fn lemma_expand_without_references(s: Seq<char>, env: Seq<(String, String)>)
    requires
        !s.contains('%'),
    ensures
        expand_env_spec(s, env) == s,
{
    lemma_index_of_bounds(s, '%');
    lemma_index_of_hits(s, '%');
}

/// A resolved icon source always names a path listed as a file.
pub proof fn lemma_resolved_source_is_listed(
    value: Seq<char>,
    fallback_index: i32,
    env: Seq<(String, String)>,
    files: Seq<String>,
)
    ensures
        normalize_icon_source_spec(value, fallback_index, env, files) matches Some((p, _))
            ==> is_listed(files, p),
{
}

} // verus!
