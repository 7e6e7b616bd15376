use vstd::prelude::*;
use crate::json::{
    array_of, array_value, as_array, as_bool, as_object, as_str, bool_of, bool_value, empty_entries,
    entries, is_null, null_of, object_get, object_insert, object_new, object_of, object_remove,
    object_value, parse_json, parsed_of, str_of, string_value, JsonObject,
};
use crate::settings::{default_settings, flag_of, opt_view, toggle_key, ToggleTarget, UserSettings, UserSettingsView};
use crate::text::{blank, is_blank, views};

verus! {

/// The entries of a JSON object.
pub type Entries = Map<Seq<char>, serde_json::Value>;

/// Why the settings file or its block could not be read.
#[derive(Clone, Debug)]
pub enum SettingsError {
    /// The file is not valid JSON; the parser's message.
    Parse(String),
    /// The top level of the file is not a JSON object.
    NotAnObject,
    /// The `dcm` block is not a JSON object.
    BlockNotAnObject,
    /// A known key of the block holds a value of the wrong type.
    InvalidField(String),
}

/// The key of the block that this library owns.
pub open spec fn block_key() -> Seq<char> {
    "dcm"@
}

/// A boolean field: its default when absent, `None` when not a boolean.
pub open spec fn bool_field(e: Entries, k: Seq<char>, d: bool) -> Option<bool> {
    if e.contains_key(k) {
        bool_of(e[k])
    } else {
        Some(d)
    }
}

/// An optional text field: absent or null is `None`; `None` outside when not a string.
pub open spec fn text_field(e: Entries, k: Seq<char>) -> Option<Option<Seq<char>>> {
    if !e.contains_key(k) || null_of(e[k]) {
        Some(None)
    } else if str_of(e[k]) is Some {
        Some(Some(str_of(e[k]).unwrap()))
    } else {
        None
    }
}

/// Every item is a string.
pub open spec fn all_text(items: Seq<serde_json::Value>) -> bool {
    forall|i: int| 0 <= i < items.len() ==> (#[trigger] str_of(items[i])) is Some
}

/// A list-of-strings field: empty when absent, `None` when not an array of strings.
pub open spec fn list_field(e: Entries, k: Seq<char>) -> Option<Seq<Seq<char>>> {
    if !e.contains_key(k) {
        Some(Seq::empty())
    } else if array_of(e[k]) is Some && all_text(array_of(e[k]).unwrap()) {
        Some(array_of(e[k]).unwrap().map_values(|v: serde_json::Value| str_of(v).unwrap()))
    } else {
        None
    }
}

/// Every known key of the block holds a value of its type.
pub open spec fn block_valid(e: Entries) -> bool {
    text_field(e, "executable_path"@) is Some && text_field(e, "dart_sdk_path"@) is Some
        && bool_field(e, "show_new_version"@, true) is Some
        && bool_field(e, "show_unused_code"@, false) is Some
        && bool_field(e, "show_unused_files"@, false) is Some
        && bool_field(e, "disable_baseline"@, false) is Some
        && bool_field(e, "enable_old_formatter"@, false) is Some
        && bool_field(e, "analyze_only_opened"@, false) is Some
        && list_field(e, "excluded_folders"@) is Some
        && text_field(e, "log_file_path"@) is Some
}

/// The settings that a block holds, defaults filling absent keys; `None` when a known key has the wrong type.
pub open spec fn decoded(e: Entries) -> Option<UserSettingsView> {
    if block_valid(e) {
        Some(
            UserSettingsView {
                executable_path: text_field(e, "executable_path"@).unwrap(),
                dart_sdk_path: text_field(e, "dart_sdk_path"@).unwrap(),
                show_new_version: bool_field(e, "show_new_version"@, true).unwrap(),
                show_unused_code: bool_field(e, "show_unused_code"@, false).unwrap(),
                show_unused_files: bool_field(e, "show_unused_files"@, false).unwrap(),
                disable_baseline: bool_field(e, "disable_baseline"@, false).unwrap(),
                enable_old_formatter: bool_field(e, "enable_old_formatter"@, false).unwrap(),
                analyze_only_opened: bool_field(e, "analyze_only_opened"@, false).unwrap(),
                excluded_folders: list_field(e, "excluded_folders"@).unwrap(),
                log_file_path: text_field(e, "log_file_path"@).unwrap(),
            },
        )
    } else {
        None
    }
}

/// The block of a document: the object under the block key, else empty.
pub open spec fn block_of(e: Entries) -> Entries {
    if e.contains_key(block_key()) && object_of(e[block_key()]) is Some {
        object_of(e[block_key()]).unwrap()
    } else {
        empty_entries()
    }
}

/// `after` is `before` with `k` set to a value that reads as the boolean `b`.
pub open spec fn sets_bool(after: Entries, before: Entries, k: Seq<char>, b: bool) -> bool {
    &&& after.dom() == before.dom().insert(k)
    &&& forall|j: Seq<char>| j != k && before.contains_key(j) ==> after[j] == before[j]
    &&& bool_of(after[k]) == Some(b)
}

/// `after` is `before` with `k` set to a value that reads as the string `s`.
pub open spec fn sets_text(after: Entries, before: Entries, k: Seq<char>, s: Seq<char>) -> bool {
    &&& after.dom() == before.dom().insert(k)
    &&& forall|j: Seq<char>| j != k && before.contains_key(j) ==> after[j] == before[j]
    &&& str_of(after[k]) == Some(s)
    &&& !null_of(after[k])
}

/// `doc` holds every key of `rest` unchanged, and under the block key an object with entries `block`.
pub open spec fn holds_block(doc: Entries, rest: Entries, block: Entries) -> bool {
    &&& doc.dom() == rest.dom().insert(block_key())
    &&& forall|j: Seq<char>| j != block_key() && rest.contains_key(j) ==> doc[j] == rest[j]
    &&& object_of(doc[block_key()]) == Some(block)
}

/// What reading the settings file gives: absent or blank is an empty object.
pub open spec fn document_of(contents: Option<Seq<char>>) -> Option<Entries> {
    match contents {
        None => Some(empty_entries()),
        Some(c) => if blank(c) {
            Some(empty_entries())
        } else {
            match parsed_of(c) {
                Some(v) => object_of(v),
                None => None,
            }
        },
    }
}

/// Reads a boolean field of the block.
fn read_bool(block: &JsonObject, key: &str, default: bool) -> (r: Option<bool>)
    ensures
        r == bool_field(entries(*block), key@, default),
{
    match object_get(block, key) {
        None => Some(default),
        Some(v) => as_bool(&v),
    }
}

/// Reads an optional text field of the block.
fn read_text(block: &JsonObject, key: &str) -> (r: Option<Option<String>>)
    ensures
        r is Some == text_field(entries(*block), key@) is Some,
        r is Some ==> opt_view(r.unwrap()) == text_field(entries(*block), key@).unwrap(),
{
    match object_get(block, key) {
        None => Some(None),
        Some(v) => {
            if is_null(&v) {
                Some(None)
            } else {
                match as_str(&v) {
                    Some(s) => Some(Some(s)),
                    None => None,
                }
            }
        },
    }
}

/// Reads a list-of-strings field of the block.
fn read_list(block: &JsonObject, key: &str) -> (r: Option<Vec<String>>)
    ensures
        r is Some == list_field(entries(*block), key@) is Some,
        r is Some ==> views(r.unwrap()@) == list_field(entries(*block), key@).unwrap(),
{
    let v = match object_get(block, key) {
        None => {
            let out: Vec<String> = Vec::new();
            proof {
                assert(views(out@) =~= Seq::<Seq<char>>::empty());
            }
            return Some(out);
        },
        Some(v) => v,
    };
    let items = match as_array(&v) {
        None => return None,
        Some(items) => items,
    };
    let ghost f = |x: serde_json::Value| str_of(x).unwrap();
    let mut out: Vec<String> = Vec::new();
    let mut i: usize = 0;
    while i < items.len()
        invariant
            i <= items@.len(),
            entries(*block).contains_key(key@),
            entries(*block)[key@] == v,
            array_of(v) == Some(items@),
            f == (|x: serde_json::Value| str_of(x).unwrap()),
            out@.len() == i,
            forall|k: int| 0 <= k < i ==> (#[trigger] str_of(items@[k])) is Some,
            views(out@) == items@.subrange(0, i as int).map_values(f),
        decreases items.len() - i,
    {
        match as_str(&items[i]) {
            None => {
                proof {
                    assert(str_of(items@[i as int]) is None);
                    assert(!all_text(items@));
                }
                return None;
            },
            Some(s) => {
                let ghost before = out@;
                out.push(s);
                proof {
                    let lhs = views(out@);
                    let rhs = items@.subrange(0, i + 1).map_values(f);
                    assert forall|k: int| 0 <= k < lhs.len() implies lhs[k] == rhs[k] by {
                        if k < i {
                            assert(lhs[k] == views(before)[k]);
                        } else {
                            assert(lhs[k] == s@);
                            assert(rhs[k] == f(items@[i as int]));
                        }
                    }
                    assert(lhs =~= rhs);
                }
            },
        }
        i = i + 1;
    }
    proof {
        assert(items@.subrange(0, items@.len() as int) =~= items@);
    }
    Some(out)
}

/// The settings that the block holds, with defaults for absent keys.
pub fn decode_settings(block: &JsonObject) -> (r: Result<UserSettings, SettingsError>)
    ensures
        r is Ok <==> decoded(entries(*block)) is Some,
        match r {
            Ok(u) => decoded(entries(*block)) == Some(u@),
            Err(e) => e is InvalidField,
        },
{
    let executable_path = match read_text(block, "executable_path") {
        Some(v) => v,
        None => return Err(SettingsError::InvalidField("executable_path".to_owned())),
    };
    let dart_sdk_path = match read_text(block, "dart_sdk_path") {
        Some(v) => v,
        None => return Err(SettingsError::InvalidField("dart_sdk_path".to_owned())),
    };
    let show_new_version = match read_bool(block, "show_new_version", true) {
        Some(v) => v,
        None => return Err(SettingsError::InvalidField("show_new_version".to_owned())),
    };
    let show_unused_code = match read_bool(block, "show_unused_code", false) {
        Some(v) => v,
        None => return Err(SettingsError::InvalidField("show_unused_code".to_owned())),
    };
    let show_unused_files = match read_bool(block, "show_unused_files", false) {
        Some(v) => v,
        None => return Err(SettingsError::InvalidField("show_unused_files".to_owned())),
    };
    let disable_baseline = match read_bool(block, "disable_baseline", false) {
        Some(v) => v,
        None => return Err(SettingsError::InvalidField("disable_baseline".to_owned())),
    };
    let enable_old_formatter = match read_bool(block, "enable_old_formatter", false) {
        Some(v) => v,
        None => return Err(SettingsError::InvalidField("enable_old_formatter".to_owned())),
    };
    let analyze_only_opened = match read_bool(block, "analyze_only_opened", false) {
        Some(v) => v,
        None => return Err(SettingsError::InvalidField("analyze_only_opened".to_owned())),
    };
    let excluded_folders = match read_list(block, "excluded_folders") {
        Some(v) => v,
        None => return Err(SettingsError::InvalidField("excluded_folders".to_owned())),
    };
    let log_file_path = match read_text(block, "log_file_path") {
        Some(v) => v,
        None => return Err(SettingsError::InvalidField("log_file_path".to_owned())),
    };
    Ok(
        UserSettings {
            executable_path,
            dart_sdk_path,
            show_new_version,
            show_unused_code,
            show_unused_files,
            disable_baseline,
            enable_old_formatter,
            analyze_only_opened,
            excluded_folders,
            log_file_path,
        },
    )
}


/// The known keys of the block are pairwise different.
proof fn lemma_keys_distinct()
    ensures
        "executable_path"@ != "dart_sdk_path"@,
        "executable_path"@ != "show_new_version"@,
        "executable_path"@ != "show_unused_code"@,
        "executable_path"@ != "show_unused_files"@,
        "executable_path"@ != "disable_baseline"@,
        "executable_path"@ != "enable_old_formatter"@,
        "executable_path"@ != "analyze_only_opened"@,
        "executable_path"@ != "excluded_folders"@,
        "executable_path"@ != "log_file_path"@,
        "dart_sdk_path"@ != "show_new_version"@,
        "dart_sdk_path"@ != "show_unused_code"@,
        "dart_sdk_path"@ != "show_unused_files"@,
        "dart_sdk_path"@ != "disable_baseline"@,
        "dart_sdk_path"@ != "enable_old_formatter"@,
        "dart_sdk_path"@ != "analyze_only_opened"@,
        "dart_sdk_path"@ != "excluded_folders"@,
        "dart_sdk_path"@ != "log_file_path"@,
        "show_new_version"@ != "show_unused_code"@,
        "show_new_version"@ != "show_unused_files"@,
        "show_new_version"@ != "disable_baseline"@,
        "show_new_version"@ != "enable_old_formatter"@,
        "show_new_version"@ != "analyze_only_opened"@,
        "show_new_version"@ != "excluded_folders"@,
        "show_new_version"@ != "log_file_path"@,
        "show_unused_code"@ != "show_unused_files"@,
        "show_unused_code"@ != "disable_baseline"@,
        "show_unused_code"@ != "enable_old_formatter"@,
        "show_unused_code"@ != "analyze_only_opened"@,
        "show_unused_code"@ != "excluded_folders"@,
        "show_unused_code"@ != "log_file_path"@,
        "show_unused_files"@ != "disable_baseline"@,
        "show_unused_files"@ != "enable_old_formatter"@,
        "show_unused_files"@ != "analyze_only_opened"@,
        "show_unused_files"@ != "excluded_folders"@,
        "show_unused_files"@ != "log_file_path"@,
        "disable_baseline"@ != "enable_old_formatter"@,
        "disable_baseline"@ != "analyze_only_opened"@,
        "disable_baseline"@ != "excluded_folders"@,
        "disable_baseline"@ != "log_file_path"@,
        "enable_old_formatter"@ != "analyze_only_opened"@,
        "enable_old_formatter"@ != "excluded_folders"@,
        "enable_old_formatter"@ != "log_file_path"@,
        "analyze_only_opened"@ != "excluded_folders"@,
        "analyze_only_opened"@ != "log_file_path"@,
        "excluded_folders"@ != "log_file_path"@,
{
    reveal_strlit("executable_path");
    reveal_strlit("dart_sdk_path");
    reveal_strlit("show_new_version");
    reveal_strlit("show_unused_code");
    reveal_strlit("show_unused_files");
    reveal_strlit("disable_baseline");
    reveal_strlit("enable_old_formatter");
    reveal_strlit("analyze_only_opened");
    reveal_strlit("excluded_folders");
    reveal_strlit("log_file_path");
    assert("executable_path"@.len() == 15);
    assert("dart_sdk_path"@.len() == 13);
    assert("show_new_version"@.len() == 16);
    assert("show_unused_code"@.len() == 16);
    assert("show_unused_files"@.len() == 17);
    assert("disable_baseline"@.len() == 16);
    assert("enable_old_formatter"@.len() == 20);
    assert("analyze_only_opened"@.len() == 19);
    assert("excluded_folders"@.len() == 16);
    assert("log_file_path"@.len() == 13);
    assert("dart_sdk_path"@[0] != "log_file_path"@[0]);
    assert("show_new_version"@[5] != "show_unused_code"@[5]);
    assert("show_new_version"@[0] != "disable_baseline"@[0]);
    assert("show_new_version"@[0] != "excluded_folders"@[0]);
    assert("show_unused_code"@[0] != "disable_baseline"@[0]);
    assert("show_unused_code"@[0] != "excluded_folders"@[0]);
    assert("disable_baseline"@[0] != "excluded_folders"@[0]);
}

/// The settings that the block of a document holds; `None` when the block is not an object or is invalid.
pub open spec fn document_settings(e: Entries) -> Option<UserSettingsView> {
    if !e.contains_key(block_key()) {
        Some(default_settings())
    } else {
        match object_of(e[block_key()]) {
            Some(b) => decoded(b),
            None => None,
        }
    }
}

/// `doc` keeps every key of `before` but the block's, unchanged, and holds a block object.
pub open spec fn replaces_block(doc: Entries, before: Entries) -> bool {
    &&& doc.dom() == before.dom().insert(block_key())
    &&& forall|j: Seq<char>| j != block_key() && before.contains_key(j) ==> doc[j] == before[j]
    &&& object_of(doc[block_key()]) is Some
}

/// The settings file as a JSON object: absent or blank is empty.
pub fn read_document(contents: Option<String>) -> (r: Result<JsonObject, SettingsError>)
    ensures
        match r {
            Ok(m) => document_of(opt_view(contents)) == Some(entries(m)),
            Err(SettingsError::Parse(_)) => contents is Some && !blank(contents.unwrap()@)
                && parsed_of(contents.unwrap()@) is None,
            Err(SettingsError::NotAnObject) => contents is Some && !blank(contents.unwrap()@)
                && parsed_of(contents.unwrap()@) is Some
                && object_of(parsed_of(contents.unwrap()@).unwrap()) is None,
            Err(_) => false,
        },
{
    let text = match contents {
        None => return Ok(object_new()),
        Some(text) => text,
    };
    if is_blank(text.as_str()) {
        return Ok(object_new());
    }
    match parse_json(text.as_str()) {
        Err(msg) => Err(SettingsError::Parse(msg)),
        Ok(v) => match as_object(&v) {
            Some(m) => Ok(m),
            None => Err(SettingsError::NotAnObject),
        },
    }
}

/// The settings of a document: defaults when it has no block.
pub fn document_user_settings(doc: &JsonObject) -> (r: Result<UserSettings, SettingsError>)
    ensures
        r is Ok <==> document_settings(entries(*doc)) is Some,
        match r {
            Ok(u) => document_settings(entries(*doc)) == Some(u@),
            Err(e) => e is BlockNotAnObject || e is InvalidField,
        },
{
    match object_get(doc, "dcm") {
        None => Ok(UserSettings::default()),
        Some(v) => match as_object(&v) {
            None => Err(SettingsError::BlockNotAnObject),
            Some(block) => decode_settings(&block),
        },
    }
}

/// The user settings that the settings file's text holds (`None` when the file cannot be read).
pub fn load_user_settings(contents: Option<String>) -> (r: Result<UserSettings, SettingsError>)
    ensures
        match document_of(opt_view(contents)) {
            Some(e) => (r is Ok <==> document_settings(e) is Some) && match r {
                Ok(u) => document_settings(e) == Some(u@),
                Err(_) => true,
            },
            None => r is Err,
        },
{
    let doc = read_document(contents)?;
    document_user_settings(&doc)
}

/// Takes the block out of the document: the object under the block key, else an empty one.
pub fn take_block(doc: &mut JsonObject) -> (r: JsonObject)
    ensures
        entries(*final(doc)) == entries(*old(doc)).remove(block_key()),
        entries(r) == block_of(entries(*old(doc))),
{
    match object_remove(doc, "dcm") {
        Some(v) => match as_object(&v) {
            Some(m) => m,
            None => object_new(),
        },
        None => object_new(),
    }
}

/// Puts `block` back under the block key of `rest`, as a JSON value.
pub fn put_block(rest: JsonObject, block: JsonObject) -> (r: serde_json::Value)
    ensures
        object_of(r) is Some,
        replaces_block(object_of(r).unwrap(), entries(rest)),
        block_of(object_of(r).unwrap()) == entries(block),
{
    let mut rest = rest;
    object_insert(&mut rest, "dcm".to_owned(), object_value(block));
    object_value(rest)
}

/// Flips the flag behind `t` in the document's block; the new document and the flag's new value.
pub fn toggle_document(doc: JsonObject, t: ToggleTarget) -> (r: Result<(serde_json::Value, bool), SettingsError>)
    ensures
        r is Ok <==> document_settings(entries(doc)) is Some,
        match r {
            Ok((v, on)) => {
                &&& on == !flag_of(document_settings(entries(doc)).unwrap(), t)
                &&& object_of(v) is Some
                &&& replaces_block(object_of(v).unwrap(), entries(doc))
                &&& sets_bool(block_of(object_of(v).unwrap()), block_of(entries(doc)), toggle_key(t), on)
            },
            Err(_) => true,
        },
{
    let user = document_user_settings(&doc)?;
    let on = !t.current(&user);
    let mut rest = doc;
    let mut block = take_block(&mut rest);
    object_insert(&mut block, t.key().to_owned(), bool_value(on));
    let v = put_block(rest, block);
    proof {
        let d = object_of(v).unwrap();
        assert(d.dom() =~= entries(doc).dom().insert(block_key()));
    }
    Ok((v, on))
}

/// Sets the log file path of the document's block to `path`; the new document.
pub fn capture_log_document(doc: JsonObject, path: String) -> (r: serde_json::Value)
    ensures
        object_of(r) is Some,
        replaces_block(object_of(r).unwrap(), entries(doc)),
        sets_text(block_of(object_of(r).unwrap()), block_of(entries(doc)), "log_file_path"@, path@),
{
    let mut rest = doc;
    let mut block = take_block(&mut rest);
    object_insert(&mut block, "log_file_path".to_owned(), string_value(path));
    let v = put_block(rest, block);
    proof {
        let d = object_of(v).unwrap();
        assert(d.dom() =~= entries(doc).dom().insert(block_key()));
    }
    v
}

/// Removes the log file path from the document's block; the new document.
pub fn clear_log_document(doc: JsonObject) -> (r: serde_json::Value)
    ensures
        object_of(r) is Some,
        replaces_block(object_of(r).unwrap(), entries(doc)),
        block_of(object_of(r).unwrap()) == block_of(entries(doc)).remove("log_file_path"@),
{
    let mut rest = doc;
    let mut block = take_block(&mut rest);
    let _ = object_remove(&mut block, "log_file_path");
    let v = put_block(rest, block);
    proof {
        let d = object_of(v).unwrap();
        assert(d.dom() =~= entries(doc).dom().insert(block_key()));
    }
    v
}


/// `u` with the flag behind `t` set to `b`.
pub open spec fn with_flag(u: UserSettingsView, t: ToggleTarget, b: bool) -> UserSettingsView {
    match t {
        ToggleTarget::Baseline => UserSettingsView { disable_baseline: b, ..u },
        ToggleTarget::UnusedCode => UserSettingsView { show_unused_code: b, ..u },
        ToggleTarget::UnusedFiles => UserSettingsView { show_unused_files: b, ..u },
        ToggleTarget::NewVersion => UserSettingsView { show_new_version: b, ..u },
    }
}

/// After the flag behind `t` is set to `b` in the block of a readable document, the document
/// reads back as the same settings with that flag set to `b`.
pub proof fn lemma_set_flag_reads_back(d0: Entries, d1: Entries, t: ToggleTarget, b: bool)
    requires
        document_settings(d0) is Some,
        replaces_block(d1, d0),
        sets_bool(block_of(d1), block_of(d0), toggle_key(t), b),
    ensures
        document_settings(d1) == Some(with_flag(document_settings(d0).unwrap(), t, b)),
{
    lemma_keys_distinct();
    let b0 = block_of(d0);
    let b1 = block_of(d1);
    assert(decoded(b0) == document_settings(d0));
    assert(object_of(d1[block_key()]) == Some(b1));
    let u = with_flag(document_settings(d0).unwrap(), t, b);
    assert(block_valid(b1));
    assert(list_field(b1, "excluded_folders"@) == list_field(b0, "excluded_folders"@));
    assert(decoded(b1) == Some(u));
}

/// Toggling the same flag twice gives back the settings that the document held at first.
pub proof fn lemma_toggle_twice(d0: Entries, d1: Entries, d2: Entries, t: ToggleTarget)
    requires
        document_settings(d0) is Some,
        replaces_block(d1, d0),
        sets_bool(block_of(d1), block_of(d0), toggle_key(t), !flag_of(document_settings(d0).unwrap(), t)),
        replaces_block(d2, d1),
        sets_bool(block_of(d2), block_of(d1), toggle_key(t), !flag_of(document_settings(d1).unwrap(), t)),
    ensures
        document_settings(d1) is Some,
        flag_of(document_settings(d1).unwrap(), t) == !flag_of(document_settings(d0).unwrap(), t),
        document_settings(d2) == document_settings(d0),
{
    let u0 = document_settings(d0).unwrap();
    lemma_set_flag_reads_back(d0, d1, t, !flag_of(u0, t));
    let u1 = document_settings(d1).unwrap();
    lemma_set_flag_reads_back(d1, d2, t, !flag_of(u1, t));
    assert(with_flag(u1, t, !flag_of(u1, t)) == u0);
}

/// Writes an optional text field: nothing when absent.
fn put_text(m: &mut JsonObject, key: &str, v: &Option<String>)
    ensures
        match v {
            None => entries(*final(m)) == entries(*old(m)),
            Some(s) => sets_text(entries(*final(m)), entries(*old(m)), key@, s@),
        },
{
    match v {
        None => {},
        Some(s) => {
            object_insert(m, key.to_owned(), string_value(s.clone()));
            proof {
                assert(entries(*m).dom() =~= entries(*old(m)).dom().insert(key@));
            }
        },
    }
}

/// A JSON array of the given strings.
fn text_array(v: &Vec<String>) -> (r: serde_json::Value)
    ensures
        !null_of(r),
        array_of(r) is Some,
        all_text(array_of(r).unwrap()),
        array_of(r).unwrap().map_values(|x: serde_json::Value| str_of(x).unwrap()) == views(v@),
{
    let ghost f = |x: serde_json::Value| str_of(x).unwrap();
    let mut items: Vec<serde_json::Value> = Vec::new();
    let mut i: usize = 0;
    while i < v.len()
        invariant
            i <= v@.len(),
            items@.len() == i,
            f == (|x: serde_json::Value| str_of(x).unwrap()),
            forall|k: int| 0 <= k < i ==> (#[trigger] str_of(items@[k])) == Some(v@[k]@),
        decreases v.len() - i,
    {
        items.push(string_value(v[i].clone()));
        i = i + 1;
    }
    proof {
        assert(items@.map_values(f) =~= views(v@));
    }
    array_value(items)
}

/// The settings as a block: every flag and list, and each text field that is set.
pub fn encode_settings(u: &UserSettings) -> (r: JsonObject)
    ensures
        decoded(entries(r)) == Some(u@),
{
    proof {
        lemma_keys_distinct();
    }
    let mut m = object_new();
    put_text(&mut m, "executable_path", &u.executable_path);
    put_text(&mut m, "dart_sdk_path", &u.dart_sdk_path);
    object_insert(&mut m, "show_new_version".to_owned(), bool_value(u.show_new_version));
    object_insert(&mut m, "show_unused_code".to_owned(), bool_value(u.show_unused_code));
    object_insert(&mut m, "show_unused_files".to_owned(), bool_value(u.show_unused_files));
    object_insert(&mut m, "disable_baseline".to_owned(), bool_value(u.disable_baseline));
    object_insert(&mut m, "enable_old_formatter".to_owned(), bool_value(u.enable_old_formatter));
    object_insert(&mut m, "analyze_only_opened".to_owned(), bool_value(u.analyze_only_opened));
    object_insert(&mut m, "excluded_folders".to_owned(), text_array(&u.excluded_folders));
    put_text(&mut m, "log_file_path", &u.log_file_path);
    proof {
        let e = entries(m);
        assert(block_valid(e));
        assert(list_field(e, "excluded_folders"@) == Some(views(u.excluded_folders@)));
        assert(decoded(e) == Some(u@));
    }
    m
}

} // verus!
