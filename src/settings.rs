use vstd::prelude::*;
use crate::text::views;

verus! {

/// The user-authored settings block, each field with its default.
#[derive(Clone, Debug)]
pub struct UserSettings {
    pub executable_path: Option<String>,
    pub dart_sdk_path: Option<String>,
    pub show_new_version: bool,
    pub show_unused_code: bool,
    pub show_unused_files: bool,
    pub disable_baseline: bool,
    pub enable_old_formatter: bool,
    pub analyze_only_opened: bool,
    pub excluded_folders: Vec<String>,
    pub log_file_path: Option<String>,
}

/// The settings block as plain values.
pub struct UserSettingsView {
    pub executable_path: Option<Seq<char>>,
    pub dart_sdk_path: Option<Seq<char>>,
    pub show_new_version: bool,
    pub show_unused_code: bool,
    pub show_unused_files: bool,
    pub disable_baseline: bool,
    pub enable_old_formatter: bool,
    pub analyze_only_opened: bool,
    pub excluded_folders: Seq<Seq<char>>,
    pub log_file_path: Option<Seq<char>>,
}

/// The character view of an optional string.
pub open spec fn opt_view(s: Option<String>) -> Option<Seq<char>> {
    match s {
        Some(v) => Some(v@),
        None => None,
    }
}

impl View for UserSettings {
    type V = UserSettingsView;

    open spec fn view(&self) -> UserSettingsView {
        UserSettingsView {
            executable_path: opt_view(self.executable_path),
            dart_sdk_path: opt_view(self.dart_sdk_path),
            show_new_version: self.show_new_version,
            show_unused_code: self.show_unused_code,
            show_unused_files: self.show_unused_files,
            disable_baseline: self.disable_baseline,
            enable_old_formatter: self.enable_old_formatter,
            analyze_only_opened: self.analyze_only_opened,
            excluded_folders: views(self.excluded_folders@),
            log_file_path: opt_view(self.log_file_path),
        }
    }
}

/// The settings in force when the block is absent.
pub open spec fn default_settings() -> UserSettingsView {
    UserSettingsView {
        executable_path: None,
        dart_sdk_path: None,
        show_new_version: true,
        show_unused_code: false,
        show_unused_files: false,
        disable_baseline: false,
        enable_old_formatter: false,
        analyze_only_opened: false,
        excluded_folders: Seq::empty(),
        log_file_path: None,
    }
}

impl Default for UserSettings {
    fn default() -> (r: Self)
        ensures
            r@ == default_settings(),
    {
        let r = UserSettings {
            executable_path: None,
            dart_sdk_path: None,
            show_new_version: true,
            show_unused_code: false,
            show_unused_files: false,
            disable_baseline: false,
            enable_old_formatter: false,
            analyze_only_opened: false,
            excluded_folders: Vec::new(),
            log_file_path: None,
        };
        proof {
            assert(r@.excluded_folders =~= Seq::<Seq<char>>::empty());
        }
        r
    }
}

/// A boolean feature that the `toggle` command flips.
#[derive(Clone, Copy, Debug, PartialEq, Eq, Structural)]
pub enum ToggleTarget {
    Baseline,
    UnusedCode,
    UnusedFiles,
    NewVersion,
}

/// The settings-file key of the flag behind `t`.
pub open spec fn toggle_key(t: ToggleTarget) -> Seq<char> {
    match t {
        ToggleTarget::Baseline => "disable_baseline"@,
        ToggleTarget::UnusedCode => "show_unused_code"@,
        ToggleTarget::UnusedFiles => "show_unused_files"@,
        ToggleTarget::NewVersion => "show_new_version"@,
    }
}

/// The current value of the flag behind `t`.
pub open spec fn flag_of(u: UserSettingsView, t: ToggleTarget) -> bool {
    match t {
        ToggleTarget::Baseline => u.disable_baseline,
        ToggleTarget::UnusedCode => u.show_unused_code,
        ToggleTarget::UnusedFiles => u.show_unused_files,
        ToggleTarget::NewVersion => u.show_new_version,
    }
}

/// The confirmation title and message after setting the flag behind `t` to `on`.
pub open spec fn toggle_text(t: ToggleTarget, on: bool) -> (Seq<char>, Seq<char>) {
    match t {
        ToggleTarget::Baseline => ("Baseline Toggle"@, if on {
            "Baseline filtering disabled. Restart the DCM server for changes to take effect."@
        } else {
            "Baseline filtering enabled. Restart the DCM server for changes to take effect."@
        }),
        ToggleTarget::UnusedCode => ("Unused Code Toggle"@, if on {
            "Unused code issues will be reported after restarting the DCM server."@
        } else {
            "Unused code issues suppressed. Restart the DCM server for changes to take effect."@
        }),
        ToggleTarget::UnusedFiles => ("Unused Files Toggle"@, if on {
            "Unused file analysis enabled. Restart the DCM server for changes to take effect."@
        } else {
            "Unused file analysis disabled. Restart the DCM server for changes to take effect."@
        }),
        ToggleTarget::NewVersion => ("Version Notification Toggle"@, if on {
            "New version notifications enabled."@
        } else {
            "New version notifications disabled."@
        }),
    }
}

impl ToggleTarget {
    /// The settings-file key of this flag.
    pub fn key(self) -> (r: &'static str)
        ensures
            r@ == toggle_key(self),
    {
        match self {
            ToggleTarget::Baseline => "disable_baseline",
            ToggleTarget::UnusedCode => "show_unused_code",
            ToggleTarget::UnusedFiles => "show_unused_files",
            ToggleTarget::NewVersion => "show_new_version",
        }
    }

    /// The current value of this flag in `user`.
    pub fn current(self, user: &UserSettings) -> (r: bool)
        ensures
            r == flag_of(user@, self),
    {
        match self {
            ToggleTarget::Baseline => user.disable_baseline,
            ToggleTarget::UnusedCode => user.show_unused_code,
            ToggleTarget::UnusedFiles => user.show_unused_files,
            ToggleTarget::NewVersion => user.show_new_version,
        }
    }

    /// The confirmation title and message after setting this flag to `on`.
    pub fn confirmation(self, on: bool) -> (r: (&'static str, &'static str))
        ensures
            (r.0@, r.1@) == toggle_text(self, on),
    {
        match self {
            ToggleTarget::Baseline => ("Baseline Toggle", if on {
                "Baseline filtering disabled. Restart the DCM server for changes to take effect."
            } else {
                "Baseline filtering enabled. Restart the DCM server for changes to take effect."
            }),
            ToggleTarget::UnusedCode => ("Unused Code Toggle", if on {
                "Unused code issues will be reported after restarting the DCM server."
            } else {
                "Unused code issues suppressed. Restart the DCM server for changes to take effect."
            }),
            ToggleTarget::UnusedFiles => ("Unused Files Toggle", if on {
                "Unused file analysis enabled. Restart the DCM server for changes to take effect."
            } else {
                "Unused file analysis disabled. Restart the DCM server for changes to take effect."
            }),
            ToggleTarget::NewVersion => ("Version Notification Toggle", if on {
                "New version notifications enabled."
            } else {
                "New version notifications disabled."
            }),
        }
    }
}

} // verus!
