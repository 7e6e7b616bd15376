use vstd::prelude::*;
use crate::json::{
    array_of, array_value, bool_of, bool_value, entries, null_of, null_value, object_insert, object_new,
    object_of, object_value, str_of, string_value,
};
use crate::paths::{env_view, EnvVars, EnvView};
use crate::settings::{opt_view, UserSettings};
use crate::text::{concat, join, joined, same_text, views};

verus! {

/// Settings with every path resolved, for one operation.
#[derive(Clone, Debug)]
pub struct ResolvedSettings {
    pub user: UserSettings,
    pub executable_path: String,
    pub sdk_path: Option<String>,
    pub root_path: String,
    pub excluded_folders: Vec<String>,
    pub log_file_path: Option<String>,
    pub env: EnvVars,
}

/// How to start the analysis server.
#[derive(Clone, Debug)]
pub struct LaunchCommand {
    pub command: String,
    pub args: Vec<String>,
    pub env: EnvVars,
}

/// Why no executable could be chosen.
#[derive(Clone, Debug)]
pub enum ExecutableError {
    /// The configured path, resolved, does not exist.
    ConfiguredMissing(String),
    /// No path is configured and none was found on `PATH`.
    NotFound,
}

/// The message for an executable error.
pub open spec fn executable_error_text(e: ExecutableError) -> Seq<char> {
    match e {
        ExecutableError::ConfiguredMissing(p) => "Configured DCM executable path does not exist: "@ + p@,
        ExecutableError::NotFound => "Unable to locate `dcm` executable. Set `dcm.executable_path` in settings or ensure it is available on PATH."@,
    }
}

impl ExecutableError {
    /// A message naming the path, or both ways to make the executable found.
    pub fn message(&self) -> (r: String)
        ensures
            r@ == executable_error_text(*self),
    {
        match self {
            ExecutableError::ConfiguredMissing(p) => concat("Configured DCM executable path does not exist: ", p.as_str()),
            ExecutableError::NotFound => "Unable to locate `dcm` executable. Set `dcm.executable_path` in settings or ensure it is available on PATH.".to_owned(),
        }
    }
}

/// Chooses the executable: the configured path when set (it must exist), else the one on `PATH`.
pub fn choose_executable(configured: Option<String>, configured_exists: bool, on_path: Option<String>) -> (r: Result<String, ExecutableError>)
    ensures
        match configured {
            Some(p) => if configured_exists {
                r is Ok && r.unwrap()@ == p@
            } else {
                r is Err && match r {
                    Err(ExecutableError::ConfiguredMissing(q)) => q@ == p@,
                    _ => false,
                }
            },
            None => match on_path {
                Some(q) => r is Ok && r.unwrap()@ == q@,
                None => r matches Err(ExecutableError::NotFound),
            },
        },
{
    match configured {
        Some(p) => if configured_exists {
            Ok(p)
        } else {
            Err(ExecutableError::ConfiguredMissing(p))
        },
        None => match on_path {
            Some(q) => Ok(q),
            None => Err(ExecutableError::NotFound),
        },
    }
}

/// One argument when `b` holds, none otherwise.
pub open spec fn arg_if(b: bool, a: Seq<char>) -> Seq<Seq<char>> {
    if b {
        seq![a]
    } else {
        Seq::empty()
    }
}

/// An argument made of `prefix` and an optional value, none when the value is absent.
pub open spec fn arg_opt(prefix: Seq<char>, v: Option<Seq<char>>) -> Seq<Seq<char>> {
    match v {
        Some(p) => seq![prefix + p],
        None => Seq::empty(),
    }
}

/// The server's arguments, in their fixed order.
pub open spec fn launch_args(s: ResolvedSettings) -> Seq<Seq<char>> {
    let u = s.user;
    seq!["start-server"@]
        + arg_opt("--sdk-path="@, opt_view(s.sdk_path))
        + seq!["--root-folder="@ + s.root_path@]
        + arg_if(!u.show_new_version, "--no-show-new-version-update"@)
        + arg_if(u.show_unused_code, "--show-unused-code"@)
        + arg_if(u.analyze_only_opened, "--only-opened"@)
        + arg_if(s.excluded_folders@.len() > 0, "--excluded-folders="@ + joined(views(s.excluded_folders@), ","@))
        + arg_if(u.show_unused_files, "--show-unused-files"@)
        + arg_if(u.disable_baseline, "--disable-baseline"@)
        + arg_opt("--logs="@, opt_view(s.log_file_path))
        + arg_if(u.enable_old_formatter, "--old-formatter"@)
        + seq!["--client=zed"@]
}

/// `env` with `k` set to `v`: the first pair named `k` takes the value, else the pair is appended.
pub open spec fn upserted(env: EnvView, k: Seq<char>, v: Seq<char>) -> EnvView
    decreases env.len(),
{
    if env.len() == 0 {
        seq![(k, v)]
    } else if env[0].0 == k {
        env.update(0, (k, v))
    } else {
        seq![env[0]] + upserted(env.drop_first(), k, v)
    }
}

/// The server's environment: the snapshot with the working directory, the worktree root and,
/// when known, the SDK set.
pub open spec fn launch_env(s: ResolvedSettings) -> EnvView {
    let base = upserted(upserted(env_view(s.env@), "PWD"@, s.root_path@), "ZED_WORKTREE_ROOT"@, s.root_path@);
    match s.sdk_path {
        Some(p) => upserted(base, "DART_SDK"@, p@),
        None => base,
    }
}

/// The paths separated by commas.
pub fn join_paths(paths: &Vec<String>) -> (r: String)
    ensures
        r@ == joined(views(paths@), ","@),
{
    join(paths.as_slice(), ",")
}

/// Sets `key` to `value` in `env`: the first pair named `key` takes the value, else a pair is appended.
pub fn upsert_env(env: &mut EnvVars, key: &str, value: String)
    ensures
        env_view(final(env)@) == upserted(env_view(old(env)@), key@, value@),
{
    let ghost ev = env_view(env@);
    let mut i: usize = 0;
    proof {
        assert(ev.subrange(0, ev.len() as int) =~= ev);
        assert(ev.subrange(0, 0) + ev.subrange(0, ev.len() as int) =~= ev);
    }
    while i < env.len()
        invariant
            i <= env@.len(),
            env@ == old(env)@,
            ev == env_view(env@),
            upserted(ev, key@, value@) == ev.subrange(0, i as int) + upserted(ev.subrange(i as int, ev.len() as int), key@, value@),
        decreases env.len() - i,
    {
        let ghost rest = ev.subrange(i as int, ev.len() as int);
        proof {
            assert(rest[0] == (env@[i as int].0@, env@[i as int].1@));
        }
        if same_text(env[i].0.as_str(), key) {
            let ghost before = env@;
            env.set(i, (key.to_owned(), value));
            proof {
                assert(env_view(env@) =~= ev.subrange(0, i as int) + rest.update(0, (key@, value@)));
            }
            return;
        }
        proof {
            assert(rest.drop_first() =~= ev.subrange(i + 1, ev.len() as int));
            assert(ev.subrange(0, i + 1) =~= ev.subrange(0, i as int) + seq![rest[0]]);
            assert(ev.subrange(0, i as int) + (seq![rest[0]] + upserted(rest.drop_first(), key@, value@))
                =~= ev.subrange(0, i + 1) + upserted(rest.drop_first(), key@, value@));
        }
        i = i + 1;
    }
    let ghost before = env@;
    env.push((key.to_owned(), value));
    proof {
        assert(ev.subrange(i as int, ev.len() as int) =~= Seq::<(Seq<char>, Seq<char>)>::empty());
        assert(ev.subrange(0, i as int) =~= ev);
        assert(env_view(env@) =~= ev + seq![(key@, value@)]);
    }
}

/// A copy of the environment.
fn copy_env(env: &EnvVars) -> (r: EnvVars)
    ensures
        env_view(r@) == env_view(env@),
{
    let mut out: EnvVars = Vec::new();
    let mut i: usize = 0;
    while i < env.len()
        invariant
            i <= env@.len(),
            out@.len() == i,
            env_view(out@) == env_view(env@.subrange(0, i as int)),
        decreases env.len() - i,
    {
        let name = env[i].0.clone();
        let value = env[i].1.clone();
        let ghost before = out@;
        out.push((name, value));
        proof {
            let lhs = env_view(out@);
            let rhs = env_view(env@.subrange(0, i + 1));
            assert forall|k: int| 0 <= k < lhs.len() implies lhs[k] == rhs[k] by {
                if k < i {
                    assert(lhs[k] == env_view(before)[k]);
                    assert(env_view(before)[k] == env_view(env@.subrange(0, i as int))[k]);
                }
            }
            assert(lhs =~= rhs);
        }
        i = i + 1;
    }
    proof {
        assert(env@.subrange(0, env@.len() as int) =~= env@);
    }
    out
}

/// The server's environment.
pub fn build_environment(settings: &ResolvedSettings) -> (r: EnvVars)
    ensures
        env_view(r@) == launch_env(*settings),
{
    let mut env = copy_env(&settings.env);
    upsert_env(&mut env, "PWD", settings.root_path.clone());
    upsert_env(&mut env, "ZED_WORKTREE_ROOT", settings.root_path.clone());
    match &settings.sdk_path {
        Some(p) => upsert_env(&mut env, "DART_SDK", p.clone()),
        None => {},
    }
    env
}

/// Appends one argument.
fn push_one(args: &mut Vec<String>, a: String)
    ensures
        views(final(args)@) == views(old(args)@) + seq![a@],
{
    args.push(a);
    proof {
        assert(views(args@) =~= views(old(args)@) + seq![a@]);
    }
}

/// Appends `a` when `b` holds.
fn push_if(args: &mut Vec<String>, b: bool, a: &str)
    ensures
        views(final(args)@) == views(old(args)@) + arg_if(b, a@),
{
    if b {
        push_one(args, a.to_owned());
    } else {
        assert(views(args@) =~= views(args@) + arg_if(b, a@));
    }
}

/// Appends `prefix` followed by the value, when there is one.
fn push_opt(args: &mut Vec<String>, prefix: &str, v: &Option<String>)
    ensures
        views(final(args)@) == views(old(args)@) + arg_opt(prefix@, opt_view(*v)),
{
    match v {
        Some(p) => push_one(args, concat(prefix, p.as_str())),
        None => {
            assert(views(args@) =~= views(args@) + arg_opt(prefix@, opt_view(*v)));
        },
    }
}

/// Appends the excluded-folders argument when there are folders.
fn push_excluded(args: &mut Vec<String>, folders: &Vec<String>)
    ensures
        views(final(args)@) == views(old(args)@) + arg_if(
            folders@.len() > 0,
            "--excluded-folders="@ + joined(views(folders@), ","@),
        ),
{
    if folders.len() > 0 {
        let joined_paths = join_paths(folders);
        push_one(args, concat("--excluded-folders=", joined_paths.as_str()));
    } else {
        assert(views(args@) =~= views(args@) + arg_if(
            folders@.len() > 0,
            "--excluded-folders="@ + joined(views(folders@), ","@),
        ));
    }
}

/// How to start the server for these settings.
pub fn build_command(settings: &ResolvedSettings) -> (r: LaunchCommand)
    ensures
        r.command@ == settings.executable_path@,
        views(r.args@) == launch_args(*settings),
        env_view(r.env@) == launch_env(*settings),
{
    let u = &settings.user;
    let mut args: Vec<String> = Vec::new();
    proof {
        assert(views(args@) =~= Seq::<Seq<char>>::empty());
    }
    push_one(&mut args, "start-server".to_owned());
    proof {
        assert(views(args@) =~= seq!["start-server"@]);
    }
    push_opt(&mut args, "--sdk-path=", &settings.sdk_path);
    push_one(&mut args, concat("--root-folder=", settings.root_path.as_str()));
    push_if(&mut args, !u.show_new_version, "--no-show-new-version-update");
    push_if(&mut args, u.show_unused_code, "--show-unused-code");
    push_if(&mut args, u.analyze_only_opened, "--only-opened");
    push_excluded(&mut args, &settings.excluded_folders);
    push_if(&mut args, u.show_unused_files, "--show-unused-files");
    push_if(&mut args, u.disable_baseline, "--disable-baseline");
    push_opt(&mut args, "--logs=", &settings.log_file_path);
    push_if(&mut args, u.enable_old_formatter, "--old-formatter");
    push_one(&mut args, "--client=zed".to_owned());
    let env = build_environment(settings);
    LaunchCommand { command: settings.executable_path.clone(), args, env }
}


/// The keys of the initialization payload are pairwise different.
proof fn lemma_init_keys_distinct()
    ensures
        "show_unused_code"@ != "show_unused_files"@,
        "show_unused_code"@ != "disable_baseline"@,
        "show_unused_code"@ != "enable_old_formatter"@,
        "show_unused_code"@ != "analyze_only_opened"@,
        "show_unused_code"@ != "log_file_path"@,
        "show_unused_files"@ != "disable_baseline"@,
        "show_unused_files"@ != "enable_old_formatter"@,
        "show_unused_files"@ != "analyze_only_opened"@,
        "show_unused_files"@ != "log_file_path"@,
        "disable_baseline"@ != "enable_old_formatter"@,
        "disable_baseline"@ != "analyze_only_opened"@,
        "disable_baseline"@ != "log_file_path"@,
        "enable_old_formatter"@ != "analyze_only_opened"@,
        "enable_old_formatter"@ != "log_file_path"@,
        "analyze_only_opened"@ != "log_file_path"@,
{
    reveal_strlit("show_unused_code");
    reveal_strlit("show_unused_files");
    reveal_strlit("disable_baseline");
    reveal_strlit("enable_old_formatter");
    reveal_strlit("analyze_only_opened");
    reveal_strlit("log_file_path");
    assert("show_unused_code"@.len() == 16);
    assert("show_unused_files"@.len() == 17);
    assert("disable_baseline"@.len() == 16);
    assert("enable_old_formatter"@.len() == 20);
    assert("analyze_only_opened"@.len() == 19);
    assert("log_file_path"@.len() == 13);
    assert("show_unused_code"@[0] != "disable_baseline"@[0]);
}

/// The keys of the workspace payload are pairwise different.
proof fn lemma_workspace_keys_distinct()
    ensures
        "showUnusedCode"@ != "showUnusedFiles"@,
        "showUnusedCode"@ != "disableBaseline"@,
        "showUnusedCode"@ != "enableOldFormatter"@,
        "showUnusedCode"@ != "analyzeOnlyOpened"@,
        "showUnusedCode"@ != "logFilePath"@,
        "showUnusedCode"@ != "dartSdkPath"@,
        "showUnusedCode"@ != "excludedFolders"@,
        "showUnusedFiles"@ != "disableBaseline"@,
        "showUnusedFiles"@ != "enableOldFormatter"@,
        "showUnusedFiles"@ != "analyzeOnlyOpened"@,
        "showUnusedFiles"@ != "logFilePath"@,
        "showUnusedFiles"@ != "dartSdkPath"@,
        "showUnusedFiles"@ != "excludedFolders"@,
        "disableBaseline"@ != "enableOldFormatter"@,
        "disableBaseline"@ != "analyzeOnlyOpened"@,
        "disableBaseline"@ != "logFilePath"@,
        "disableBaseline"@ != "dartSdkPath"@,
        "disableBaseline"@ != "excludedFolders"@,
        "enableOldFormatter"@ != "analyzeOnlyOpened"@,
        "enableOldFormatter"@ != "logFilePath"@,
        "enableOldFormatter"@ != "dartSdkPath"@,
        "enableOldFormatter"@ != "excludedFolders"@,
        "analyzeOnlyOpened"@ != "logFilePath"@,
        "analyzeOnlyOpened"@ != "dartSdkPath"@,
        "analyzeOnlyOpened"@ != "excludedFolders"@,
        "logFilePath"@ != "dartSdkPath"@,
        "logFilePath"@ != "excludedFolders"@,
        "dartSdkPath"@ != "excludedFolders"@,
{
    reveal_strlit("showUnusedCode");
    reveal_strlit("showUnusedFiles");
    reveal_strlit("disableBaseline");
    reveal_strlit("enableOldFormatter");
    reveal_strlit("analyzeOnlyOpened");
    reveal_strlit("logFilePath");
    reveal_strlit("dartSdkPath");
    reveal_strlit("excludedFolders");
    assert("showUnusedCode"@.len() == 14);
    assert("showUnusedFiles"@.len() == 15);
    assert("disableBaseline"@.len() == 15);
    assert("enableOldFormatter"@.len() == 18);
    assert("analyzeOnlyOpened"@.len() == 17);
    assert("logFilePath"@.len() == 11);
    assert("dartSdkPath"@.len() == 11);
    assert("excludedFolders"@.len() == 15);
    assert("showUnusedFiles"@[0] != "disableBaseline"@[0]);
    assert("showUnusedFiles"@[0] != "excludedFolders"@[0]);
    assert("disableBaseline"@[0] != "excludedFolders"@[0]);
    assert("logFilePath"@[0] != "dartSdkPath"@[0]);
}

/// `v` reads as the text `p`, or is null when there is none.
pub open spec fn text_or_null(v: serde_json::Value, p: Option<Seq<char>>) -> bool {
    match p {
        Some(s) => str_of(v) == Some(s) && !null_of(v),
        None => null_of(v),
    }
}

/// A JSON string for the value, or null.
fn text_value(p: &Option<String>) -> (r: serde_json::Value)
    ensures
        text_or_null(r, opt_view(*p)),
{
    match p {
        Some(s) => string_value(s.clone()),
        None => null_value(),
    }
}

/// The payload sent once at server start.
pub open spec fn is_init_payload(e: Map<Seq<char>, serde_json::Value>, s: ResolvedSettings) -> bool {
    &&& e.dom() == set![
        "show_unused_code"@,
        "show_unused_files"@,
        "disable_baseline"@,
        "enable_old_formatter"@,
        "analyze_only_opened"@,
        "log_file_path"@,
    ]
    &&& bool_of(e["show_unused_code"@]) == Some(s.user.show_unused_code)
    &&& bool_of(e["show_unused_files"@]) == Some(s.user.show_unused_files)
    &&& bool_of(e["disable_baseline"@]) == Some(s.user.disable_baseline)
    &&& bool_of(e["enable_old_formatter"@]) == Some(s.user.enable_old_formatter)
    &&& bool_of(e["analyze_only_opened"@]) == Some(s.user.analyze_only_opened)
    &&& text_or_null(e["log_file_path"@], opt_view(s.log_file_path))
}

/// The initialization options: the flags and the log file path (null when unset).
pub fn initialization_options(settings: &ResolvedSettings) -> (r: serde_json::Value)
    ensures
        object_of(r) is Some,
        is_init_payload(object_of(r).unwrap(), *settings),
{
    proof {
        lemma_init_keys_distinct();
    }
    let u = &settings.user;
    let mut m = object_new();
    object_insert(&mut m, "show_unused_code".to_owned(), bool_value(u.show_unused_code));
    object_insert(&mut m, "show_unused_files".to_owned(), bool_value(u.show_unused_files));
    object_insert(&mut m, "disable_baseline".to_owned(), bool_value(u.disable_baseline));
    object_insert(&mut m, "enable_old_formatter".to_owned(), bool_value(u.enable_old_formatter));
    object_insert(&mut m, "analyze_only_opened".to_owned(), bool_value(u.analyze_only_opened));
    object_insert(&mut m, "log_file_path".to_owned(), text_value(&settings.log_file_path));
    proof {
        let e = entries(m);
        assert(e.dom() =~= set![
            "show_unused_code"@,
            "show_unused_files"@,
            "disable_baseline"@,
            "enable_old_formatter"@,
            "analyze_only_opened"@,
            "log_file_path"@,
        ]);
    }
    object_value(m)
}

/// The items read as the given strings, in order.
pub open spec fn texts_are(items: Seq<serde_json::Value>, texts: Seq<Seq<char>>) -> bool {
    &&& items.len() == texts.len()
    &&& forall|k: int| 0 <= k < items.len() ==> (#[trigger] str_of(items[k])) == Some(texts[k])
}

/// The configuration block that the server queries, under the `dcm` key.
pub open spec fn is_workspace_block(e: Map<Seq<char>, serde_json::Value>, s: ResolvedSettings) -> bool {
    &&& e.dom() == set![
        "showUnusedCode"@,
        "showUnusedFiles"@,
        "disableBaseline"@,
        "enableOldFormatter"@,
        "analyzeOnlyOpened"@,
        "logFilePath"@,
        "dartSdkPath"@,
        "excludedFolders"@,
    ]
    &&& bool_of(e["showUnusedCode"@]) == Some(s.user.show_unused_code)
    &&& bool_of(e["showUnusedFiles"@]) == Some(s.user.show_unused_files)
    &&& bool_of(e["disableBaseline"@]) == Some(s.user.disable_baseline)
    &&& bool_of(e["enableOldFormatter"@]) == Some(s.user.enable_old_formatter)
    &&& bool_of(e["analyzeOnlyOpened"@]) == Some(s.user.analyze_only_opened)
    &&& text_or_null(e["logFilePath"@], opt_view(s.log_file_path))
    &&& text_or_null(e["dartSdkPath"@], opt_view(s.sdk_path))
    &&& array_of(e["excludedFolders"@]) is Some
    &&& texts_are(array_of(e["excludedFolders"@]).unwrap(), views(s.excluded_folders@))
}

/// A JSON array of the given strings.
fn string_array(v: &Vec<String>) -> (r: serde_json::Value)
    ensures
        array_of(r) is Some,
        texts_are(array_of(r).unwrap(), views(v@)),
{
    let mut items: Vec<serde_json::Value> = Vec::new();
    let mut i: usize = 0;
    while i < v.len()
        invariant
            i <= v@.len(),
            items@.len() == i,
            forall|k: int| 0 <= k < i ==> (#[trigger] str_of(items@[k])) == Some(v@[k]@),
        decreases v.len() - i,
    {
        items.push(string_value(v[i].clone()));
        i = i + 1;
    }
    array_value(items)
}

/// The workspace configuration: one `dcm` object with the flags, paths and excluded folders.
pub fn workspace_configuration(settings: &ResolvedSettings) -> (r: Result<serde_json::Value, String>)
    ensures
        r is Ok,
        match r {
            Ok(v) => {
                &&& object_of(v) is Some
                &&& object_of(v).unwrap().dom() == set!["dcm"@]
                &&& object_of(object_of(v).unwrap()["dcm"@]) is Some
                &&& is_workspace_block(object_of(object_of(v).unwrap()["dcm"@]).unwrap(), *settings)
            },
            Err(_) => true,
        },
{
    proof {
        lemma_workspace_keys_distinct();
    }
    let u = &settings.user;
    let mut m = object_new();
    object_insert(&mut m, "showUnusedCode".to_owned(), bool_value(u.show_unused_code));
    object_insert(&mut m, "showUnusedFiles".to_owned(), bool_value(u.show_unused_files));
    object_insert(&mut m, "disableBaseline".to_owned(), bool_value(u.disable_baseline));
    object_insert(&mut m, "enableOldFormatter".to_owned(), bool_value(u.enable_old_formatter));
    object_insert(&mut m, "analyzeOnlyOpened".to_owned(), bool_value(u.analyze_only_opened));
    object_insert(&mut m, "logFilePath".to_owned(), text_value(&settings.log_file_path));
    object_insert(&mut m, "dartSdkPath".to_owned(), text_value(&settings.sdk_path));
    object_insert(&mut m, "excludedFolders".to_owned(), string_array(&settings.excluded_folders));
    proof {
        let e = entries(m);
        assert(e.dom() =~= set![
            "showUnusedCode"@,
            "showUnusedFiles"@,
            "disableBaseline"@,
            "enableOldFormatter"@,
            "analyzeOnlyOpened"@,
            "logFilePath"@,
            "dartSdkPath"@,
            "excludedFolders"@,
        ]);
    }
    let mut outer = object_new();
    object_insert(&mut outer, "dcm".to_owned(), object_value(m));
    proof {
        assert(entries(outer).dom() =~= set!["dcm"@]);
    }
    Ok(object_value(outer))
}

} // verus!
