use vstd::prelude::*;
use crate::settings::UserSettings;
use crate::text::{concat, is_blank, blank, same_text, starts_with, trim, trimmed, views};

verus! {

/// An environment: name and value pairs, in order.
pub type EnvVars = Vec<(String, String)>;

/// An environment as plain values.
pub type EnvView = Seq<(Seq<char>, Seq<char>)>;

/// The plain view of an environment.
pub open spec fn env_view(env: Seq<(String, String)>) -> EnvView {
    env.map_values(|p: (String, String)| (p.0@, p.1@))
}

/// The value of `name` in `env`: the last pair that names it wins.
pub open spec fn lookup(env: EnvView, name: Seq<char>) -> Option<Seq<char>>
    decreases env.len(),
{
    if env.len() == 0 {
        None
    } else if env.last().0 == name {
        Some(env.last().1)
    } else {
        lookup(env.drop_last(), name)
    }
}

/// `rel` under `base`, as `Path::join` forms it on Unix: an absolute `rel` stands alone.
pub open spec fn path_join(base: Seq<char>, rel: Seq<char>) -> Seq<char> {
    if rel.len() > 0 && rel[0] == '/' {
        rel
    } else if base.len() == 0 || base.last() == '/' {
        base + rel
    } else {
        base + "/"@ + rel
    }
}

/// What `shellexpand::full_with_context_no_errors` makes of `s`, with `HOME` and the other
/// variables looked up in `env`, an unknown variable standing for the empty string.
pub uninterp spec fn shell_expanded(s: Seq<char>, env: EnvView) -> Seq<char>;

/// Why a raw path could not be resolved.
#[derive(Clone, Copy, Debug, PartialEq, Eq, Structural)]
pub enum PathError {
    /// The path is empty or only whitespace.
    Empty,
}

/// A raw path resolved against the environment and the worktree root.
pub open spec fn resolved(raw: Seq<char>, env: EnvView, root: Seq<char>) -> Seq<char> {
    path_join(root, shell_expanded(trimmed(raw), env))
}

/// The value of `name` in `env`, the last pair that names it winning.
pub fn env_lookup(env: &EnvVars, name: &str) -> (r: Option<String>)
    ensures
        opt_text(r) == lookup(env_view(env@), name@),
{
    let ghost ev = env_view(env@);
    let mut i: usize = env.len();
    proof {
        assert(ev.subrange(0, ev.len() as int) =~= ev);
    }
    while i > 0
        invariant
            i <= env@.len(),
            ev == env_view(env@),
            lookup(ev, name@) == lookup(ev.subrange(0, i as int), name@),
        decreases i,
    {
        proof {
            let sub = ev.subrange(0, i as int);
            assert(sub.drop_last() =~= ev.subrange(0, i - 1));
            assert(sub.last() == (env@[i - 1].0@, env@[i - 1].1@));
        }
        if same_text(env[i - 1].0.as_str(), name) {
            return Some(env[i - 1].1.clone());
        }
        i = i - 1;
    }
    None
}

/// The value of `name` in `env`, or the empty string when it is not set.
pub fn env_value_or_empty(env: &EnvVars, name: &str) -> (r: String)
    ensures
        r@ == match lookup(env_view(env@), name@) {
            Some(v) => v,
            None => Seq::empty(),
        },
{
    match env_lookup(env, name) {
        Some(v) => v,
        None => {
            proof {
                reveal_strlit("");
                assert(""@ =~= Seq::<char>::empty());
            }
            "".to_owned()
        },
    }
}

/// The character view of an optional string.
pub open spec fn opt_text(s: Option<String>) -> Option<Seq<char>> {
    match s {
        Some(v) => Some(v@),
        None => None,
    }
}

/// Relies on `shellexpand::full_with_context_no_errors`, which expands `~` and variables;
/// `HOME` is answered by `env_lookup`, every variable by `env_value_or_empty`.
#[verifier::external_body]
fn expand(s: &str, env: &EnvVars) -> (r: String)
    ensures
        r@ == shell_expanded(s@, env_view(env@)),
{
    shellexpand::full_with_context_no_errors(s, || env_lookup(env, "HOME"), |var| Some(env_value_or_empty(env, var)))
        .into_owned()
}

/// `rel` under `base`, as `Path::join` forms it on Unix.
pub fn join_path(base: &str, rel: &str) -> (r: String)
    ensures
        r@ == path_join(base@, rel@),
{
    proof {
        reveal_strlit("/");
        assert("/"@ =~= seq!['/']);
    }
    let absolute = starts_with(rel, "/");
    proof {
        if rel@.len() > 0 && rel@[0] == '/' {
            assert(rel@.subrange(0, 1) =~= "/"@);
        }
        if absolute {
            assert(rel@.subrange(0, 1)[0] == rel@[0]);
        }
    }
    if absolute {
        return rel.to_owned();
    }
    if base.is_empty() || starts_with_last_slash(base) {
        concat(base, rel)
    } else {
        let with_sep = concat(base, "/");
        concat(with_sep.as_str(), rel)
    }
}

/// Whether `s` ends with a slash.
fn starts_with_last_slash(s: &str) -> (r: bool)
    ensures
        r == (s@.len() > 0 && s@.last() == '/'),
{
    let cs = crate::text::chars_of(s);
    cs.len() > 0 && cs[cs.len() - 1] == '/'
}

/// An expanded path made absolute: kept when absolute, else joined under `root`.
pub fn absolutize(expanded: &str, root: &str) -> (r: String)
    ensures
        r@ == path_join(root@, expanded@),
{
    join_path(root, expanded)
}

/// Resolves a raw path: trimmed, expanded, and made absolute under `root`.
pub fn resolve_path(raw: &str, env: &EnvVars, root: &str) -> (r: Result<String, PathError>)
    ensures
        blank(raw@) <==> r is Err,
        match r {
            Ok(p) => p@ == resolved(raw@, env_view(env@), root@),
            Err(_) => true,
        },
{
    let t = trim(raw);
    if is_blank(raw) {
        return Err(PathError::Empty);
    }
    let expanded = expand(t.as_str(), env);
    Ok(absolutize(expanded.as_str(), root))
}

/// An optional raw path: absent or blank is `None`, else resolved.
pub open spec fn resolved_opt(raw: Option<Seq<char>>, env: EnvView, root: Seq<char>) -> Option<Seq<char>> {
    match raw {
        Some(s) => if blank(s) {
            None
        } else {
            Some(resolved(s, env, root))
        },
        None => None,
    }
}

/// Resolves an optional raw path; absent or blank gives `None`.
pub fn resolve_optional_path(raw: &Option<String>, env: &EnvVars, root: &str) -> (r: Result<Option<String>, PathError>)
    ensures
        r is Ok,
        match r {
            Ok(p) => opt_text(p) == resolved_opt(opt_text(*raw), env_view(env@), root@),
            Err(_) => true,
        },
{
    match raw {
        None => Ok(None),
        Some(s) => {
            if is_blank(s.as_str()) {
                Ok(None)
            } else {
                match resolve_path(s.as_str(), env, root) {
                    Ok(p) => Ok(Some(p)),
                    Err(e) => Err(e),
                }
            }
        },
    }
}

/// The non-blank entries of `folders`, in order, each resolved.
pub open spec fn resolved_list(folders: Seq<Seq<char>>, env: EnvView, root: Seq<char>) -> Seq<Seq<char>>
    decreases folders.len(),
{
    if folders.len() == 0 {
        Seq::empty()
    } else {
        let rest = resolved_list(folders.drop_last(), env, root);
        if blank(folders.last()) {
            rest
        } else {
            rest.push(resolved(folders.last(), env, root))
        }
    }
}

/// Resolves the excluded folders: blank entries skipped, order kept, duplicates kept.
pub fn resolve_excluded_folders(user: &UserSettings, env: &EnvVars, root: &str) -> (r: Result<Vec<String>, PathError>)
    ensures
        r is Ok,
        match r {
            Ok(v) => views(v@) == resolved_list(views(user.excluded_folders@), env_view(env@), root@),
            Err(_) => true,
        },
{
    let folders = &user.excluded_folders;
    let ghost fv = views(folders@);
    let mut out: Vec<String> = Vec::new();
    let mut i: usize = 0;
    while i < folders.len()
        invariant
            i <= folders@.len(),
            fv == views(folders@),
            views(out@) == resolved_list(fv.subrange(0, i as int), env_view(env@), root@),
        decreases folders.len() - i,
    {
        proof {
            let sub = fv.subrange(0, i + 1);
            assert(sub.drop_last() =~= fv.subrange(0, i as int));
            assert(sub.last() == folders@[i as int]@);
        }
        if !is_blank(folders[i].as_str()) {
            match resolve_path(folders[i].as_str(), env, root) {
                Ok(p) => {
                    let ghost before = out@;
                    out.push(p);
                    proof {
                        assert(views(out@) =~= views(before).push(p@));
                    }
                },
                Err(e) => return Err(e),
            }
        }
        i = i + 1;
    }
    proof {
        assert(fv.subrange(0, folders@.len() as int) =~= fv);
    }
    Ok(out)
}


/// The settings file of a worktree: `.zed/settings.json` under its root.
pub open spec fn settings_path_of(root: Seq<char>) -> Seq<char> {
    path_join(path_join(root, ".zed"@), "settings.json"@)
}

/// The log file that `log capture` sets: `.zed/dcm.log` under the worktree root.
pub open spec fn log_path_of(root: Seq<char>) -> Seq<char> {
    path_join(path_join(root, ".zed"@), "dcm.log"@)
}

/// The settings file of the worktree rooted at `root`.
pub fn settings_file_path(root: &str) -> (r: String)
    ensures
        r@ == settings_path_of(root@),
{
    let dir = join_path(root, ".zed");
    join_path(dir.as_str(), "settings.json")
}

/// The default log file of the worktree rooted at `root`.
pub fn default_log_path(root: &str) -> (r: String)
    ensures
        r@ == log_path_of(root@),
{
    let dir = join_path(root, ".zed");
    join_path(dir.as_str(), "dcm.log")
}


/// A path as text; paths here are always UTF-8, so this never fails.
pub fn path_to_string(path: &str) -> (r: Result<String, String>)
    ensures
        r is Ok,
        match r {
            Ok(s) => s@ == path@,
            Err(_) => true,
        },
{
    Ok(path.to_owned())
}

} // verus!
