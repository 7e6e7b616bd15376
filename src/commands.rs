use vstd::prelude::*;
use crate::settings::{toggle_text, ToggleTarget};
use crate::text::{chars_of, concat, is_prefix, join, joined, same_text, starts_with, trim, trimmed, views};

verus! {

broadcast use vstd::seq_lib::group_seq_properties;

/// A completion offered for the arguments typed so far.
#[derive(Clone, Debug)]
pub struct Completion {
    pub label: String,
    pub new_text: String,
    pub run_command: bool,
}

/// A completion as (label, replacement text, run immediately).
pub type CompletionView = (Seq<char>, Seq<char>, bool);

impl View for Completion {
    type V = CompletionView;

    open spec fn view(&self) -> CompletionView {
        (self.label@, self.new_text@, self.run_command)
    }
}

/// The views of a sequence of completions.
pub open spec fn completion_views(v: Seq<Completion>) -> Seq<CompletionView> {
    v.map_values(|c: Completion| c@)
}

/// Whether the candidate's label starts with `input`.
pub open spec fn label_starts(input: Seq<char>) -> spec_fn(CompletionView) -> bool {
    |c: CompletionView| is_prefix(input, c.0)
}

/// The candidates whose label starts with `input`.
pub open spec fn matching(items: Seq<CompletionView>, input: Seq<char>) -> Seq<CompletionView> {
    items.filter(label_starts(input))
}

/// The top-level commands: label, replacement text, and whether choosing runs it.
pub open spec fn top_level_items() -> Seq<CompletionView> {
    seq![
        ("help"@, "help"@, false),
        ("open"@, "open "@, false),
        ("toggle"@, "toggle "@, false),
        ("restart"@, "restart"@, true),
        ("log"@, "log "@, false),
    ]
}

/// The words that may follow `open`.
pub open spec fn open_words() -> Seq<Seq<char>> {
    seq!["rules"@, "metrics"@, "feedback"@, "logs"@]
}

/// The words that may follow `toggle`.
pub open spec fn toggle_words() -> Seq<Seq<char>> {
    seq!["baseline"@, "unused-code"@, "unused-files"@, "new-version"@]
}

/// The words that may follow `log`.
pub open spec fn log_words() -> Seq<Seq<char>> {
    seq!["capture"@, "clear"@]
}

/// The second-level candidates for `words`, given all typed arguments.
pub open spec fn sub_items(words: Seq<Seq<char>>, args: Seq<Seq<char>>) -> Seq<CompletionView> {
    words.map_values(
        |w: Seq<char>|
            (w, trimmed(joined(args.drop_last(), " "@) + " "@ + w), args.len() > 1),
    )
}

/// What completion offers for the typed arguments.
pub open spec fn completions(args: Seq<Seq<char>>) -> Seq<CompletionView> {
    if args.len() == 0 {
        matching(top_level_items(), Seq::empty())
    } else if args.len() == 1 {
        matching(top_level_items(), args[0])
    } else if args[0] == "open"@ {
        matching(sub_items(open_words(), args), args.last())
    } else if args[0] == "toggle"@ {
        matching(sub_items(toggle_words(), args), args.last())
    } else if args[0] == "log"@ {
        matching(sub_items(log_words(), args), args.last())
    } else {
        Seq::empty()
    }
}

/// Appends the candidate to `out` when its label starts with `input`.
fn offer(out: &mut Vec<Completion>, input: &str, c: Completion)
    ensures
        completion_views(final(out)@) == if is_prefix(input@, c.label@) {
            completion_views(old(out)@).push(c@)
        } else {
            completion_views(old(out)@)
        },
{
    if starts_with(c.label.as_str(), input) {
        let ghost before = completion_views(out@);
        out.push(c);
        proof {
            assert(completion_views(out@) =~= before.push(c@));
        }
    }
}

/// One candidate of the fixed grammar.
fn candidate(label: &str, new_text: &str, run_command: bool) -> (r: Completion)
    ensures
        r@ == (label@, new_text@, run_command),
{
    Completion { label: label.to_owned(), new_text: new_text.to_owned(), run_command }
}

/// Top-level commands whose label starts with `input`.
pub fn top_level_completions(input: &str) -> (r: Vec<Completion>)
    ensures
        completion_views(r@) == matching(top_level_items(), input@),
{
    let ghost items = top_level_items();
    let ghost p = label_starts(input@);
    let mut out: Vec<Completion> = Vec::new();
    proof {
        assert(completion_views(out@) =~= items.take(0).filter(p));
    }
    offer(&mut out, input, candidate("help", "help", false));
    proof {
        assert(items.take(1) =~= items.take(0).push(items[0]));
        items.take(0).lemma_filter_push(items[0], p);
    }
    offer(&mut out, input, candidate("open", "open ", false));
    proof {
        assert(items.take(2) =~= items.take(1).push(items[1]));
        items.take(1).lemma_filter_push(items[1], p);
    }
    offer(&mut out, input, candidate("toggle", "toggle ", false));
    proof {
        assert(items.take(3) =~= items.take(2).push(items[2]));
        items.take(2).lemma_filter_push(items[2], p);
    }
    offer(&mut out, input, candidate("restart", "restart", true));
    proof {
        assert(items.take(4) =~= items.take(3).push(items[3]));
        items.take(3).lemma_filter_push(items[3], p);
    }
    offer(&mut out, input, candidate("log", "log ", false));
    proof {
        assert(items.take(5) =~= items.take(4).push(items[4]));
        items.take(4).lemma_filter_push(items[4], p);
        assert(items.take(5) =~= items);
    }
    out
}

/// The given words as strings.
fn word_list(words: &[&str]) -> (r: Vec<String>)
    ensures
        views(r@) == words@.map_values(|w: &str| w@),
{
    let mut out: Vec<String> = Vec::new();
    let mut i: usize = 0;
    while i < words.len()
        invariant
            i <= words@.len(),
            out@.len() == i,
            views(out@) == words@.subrange(0, i as int).map_values(|w: &str| w@),
        decreases words.len() - i,
    {
        let w = words[i].to_owned();
        let ghost before = out@;
        out.push(w);
        proof {
            assert(out@ == before.push(w));
            assert(w@ == words@[i as int]@);
            let lhs = views(out@);
            let rhs = words@.subrange(0, i + 1).map_values(|w: &str| w@);
            let prev = words@.subrange(0, i as int).map_values(|w: &str| w@);
            assert(lhs.len() == rhs.len());
            assert forall|k: int| 0 <= k < lhs.len() implies lhs[k] == rhs[k] by {
                if k < i {
                    assert(lhs[k] == views(before)[k]);
                    assert(rhs[k] == prev[k]);
                } else {
                    assert(lhs[k] == w@);
                }
            }
            assert(lhs =~= rhs);
        }
        i = i + 1;
    }
    proof {
        assert(words@.subrange(0, words@.len() as int) =~= words@);
    }
    out
}

/// Second-level candidates from `words` for the typed arguments (at least two).
pub fn subcommand_completions(words: &Vec<String>, args: &Vec<String>) -> (r: Vec<Completion>)
    requires
        args@.len() >= 2,
    ensures
        completion_views(r@) == matching(sub_items(views(words@), views(args@)), views(args@).last()),
{
    let ghost a = views(args@);
    let ghost items = sub_items(views(words@), a);
    let ghost p = label_starts(a.last());
    let n = args.len();
    let head_args = vstd::slice::slice_subrange(args.as_slice(), 0, n - 1);
    let head = join(head_args, " ");
    let head_sp = concat(head.as_str(), " ");
    proof {
        assert(views(head_args@) =~= a.drop_last());
    }
    let last = args[n - 1].as_str();
    let mut out: Vec<Completion> = Vec::new();
    let mut i: usize = 0;
    while i < words.len()
        invariant
            i <= words@.len(),
            a == views(args@),
            items == sub_items(views(words@), a),
            n == args@.len(),
            n >= 2,
            last@ == a.last(),
            head_sp@ == joined(a.drop_last(), " "@) + " "@,
            p == label_starts(a.last()),
            completion_views(out@) == items.take(i as int).filter(p),
        decreases words.len() - i,
    {
        let text = concat(head_sp.as_str(), words[i].as_str());
        let c = Completion { label: words[i].clone(), new_text: trim(text.as_str()), run_command: n > 1 };
        proof {
            assert(c@ == items[i as int]);
            assert(items.take(i + 1) =~= items.take(i as int).push(items[i as int]));
            items.take(i as int).lemma_filter_push(items[i as int], p);
        }
        offer(&mut out, last, c);
        i = i + 1;
    }
    proof {
        assert(items.take(words@.len() as int) =~= items);
    }
    out
}

/// Completion candidates for the typed arguments.
pub fn complete(args: &Vec<String>) -> (r: Vec<Completion>)
    ensures
        completion_views(r@) == completions(views(args@)),
{
    if args.len() == 0 {
        proof {
            reveal_strlit("");
            assert(""@ =~= Seq::<char>::empty());
        }
        return top_level_completions("");
    }
    if args.len() == 1 {
        return top_level_completions(args[0].as_str());
    }
    let first = args[0].as_str();
    if same_text(first, "open") {
        let words = word_list(&["rules", "metrics", "feedback", "logs"]);
        proof {
            assert(views(words@) =~= open_words());
        }
        subcommand_completions(&words, args)
    } else if same_text(first, "toggle") {
        let words = word_list(&["baseline", "unused-code", "unused-files", "new-version"]);
        proof {
            assert(views(words@) =~= toggle_words());
        }
        subcommand_completions(&words, args)
    } else if same_text(first, "log") {
        let words = word_list(&["capture", "clear"]);
        proof {
            assert(views(words@) =~= log_words());
        }
        subcommand_completions(&words, args)
    } else {
        Vec::new()
    }
}


/// What `open` can show.
#[derive(Clone, Copy, Debug, PartialEq, Eq, Structural)]
pub enum OpenTarget {
    Rules,
    Metrics,
    Feedback,
    Logs,
}

/// What `log` can do.
#[derive(Clone, Copy, Debug, PartialEq, Eq, Structural)]
pub enum LogAction {
    Capture,
    Clear,
}

/// A command of the grammar, parsed.
#[derive(Clone, Copy, Debug, PartialEq, Eq, Structural)]
pub enum Action {
    Help,
    Open(OpenTarget),
    Toggle(ToggleTarget),
    Log(LogAction),
    Restart,
}

/// Why a command was refused.
#[derive(Clone, Copy, Debug, PartialEq, Eq, Structural)]
pub enum ErrorKind {
    NoWorktree,
    UnknownSubcommand,
    MissingOpenTarget,
    UnknownOpenTarget,
    MissingToggleTarget,
    UnknownToggleTarget,
    MissingLogCommand,
    UnknownLogCommand,
}

/// A refused command: why, and the word that was not understood (empty when none).
#[derive(Clone, Debug)]
pub struct CommandError {
    pub kind: ErrorKind,
    pub word: String,
}

/// The parse result as plain values.
pub open spec fn result_view(r: Result<Action, CommandError>) -> Result<Action, (ErrorKind, Seq<char>)> {
    match r {
        Ok(a) => Ok(a),
        Err(e) => Err((e.kind, e.word@)),
    }
}

/// How the typed arguments parse; every command needs a worktree.
pub open spec fn parsed(args: Seq<Seq<char>>, has_worktree: bool) -> Result<Action, (ErrorKind, Seq<char>)> {
    if !has_worktree {
        Err((ErrorKind::NoWorktree, Seq::empty()))
    } else if args.len() == 0 || args[0] == "help"@ {
        Ok(Action::Help)
    } else if args[0] == "restart"@ {
        Ok(Action::Restart)
    } else if args[0] == "open"@ {
        if args.len() < 2 {
            Err((ErrorKind::MissingOpenTarget, Seq::empty()))
        } else if args[1] == "rules"@ {
            Ok(Action::Open(OpenTarget::Rules))
        } else if args[1] == "metrics"@ {
            Ok(Action::Open(OpenTarget::Metrics))
        } else if args[1] == "feedback"@ {
            Ok(Action::Open(OpenTarget::Feedback))
        } else if args[1] == "logs"@ {
            Ok(Action::Open(OpenTarget::Logs))
        } else {
            Err((ErrorKind::UnknownOpenTarget, args[1]))
        }
    } else if args[0] == "toggle"@ {
        if args.len() < 2 {
            Err((ErrorKind::MissingToggleTarget, Seq::empty()))
        } else if args[1] == "baseline"@ {
            Ok(Action::Toggle(ToggleTarget::Baseline))
        } else if args[1] == "unused-code"@ {
            Ok(Action::Toggle(ToggleTarget::UnusedCode))
        } else if args[1] == "unused-files"@ {
            Ok(Action::Toggle(ToggleTarget::UnusedFiles))
        } else if args[1] == "new-version"@ {
            Ok(Action::Toggle(ToggleTarget::NewVersion))
        } else {
            Err((ErrorKind::UnknownToggleTarget, args[1]))
        }
    } else if args[0] == "log"@ {
        if args.len() < 2 {
            Err((ErrorKind::MissingLogCommand, Seq::empty()))
        } else if args[1] == "capture"@ {
            Ok(Action::Log(LogAction::Capture))
        } else if args[1] == "clear"@ {
            Ok(Action::Log(LogAction::Clear))
        } else {
            Err((ErrorKind::UnknownLogCommand, args[1]))
        }
    } else {
        Err((ErrorKind::UnknownSubcommand, args[0]))
    }
}

/// A refusal with no word attached.
fn refuse(kind: ErrorKind) -> (r: CommandError)
    ensures
        r.kind == kind,
        r.word@ == Seq::<char>::empty(),
{
    proof {
        reveal_strlit("");
        assert(""@ =~= Seq::<char>::empty());
    }
    CommandError { kind, word: "".to_owned() }
}

/// Parses the typed arguments into a command.
pub fn parse_command(args: &Vec<String>, has_worktree: bool) -> (r: Result<Action, CommandError>)
    ensures
        result_view(r) == parsed(views(args@), has_worktree),
{
    if !has_worktree {
        return Err(refuse(ErrorKind::NoWorktree));
    }
    if args.len() == 0 {
        return Ok(Action::Help);
    }
    let first = args[0].as_str();
    if same_text(first, "help") {
        return Ok(Action::Help);
    }
    if same_text(first, "restart") {
        return Ok(Action::Restart);
    }
    if same_text(first, "open") {
        if args.len() < 2 {
            return Err(refuse(ErrorKind::MissingOpenTarget));
        }
        let w = args[1].as_str();
        return if same_text(w, "rules") {
            Ok(Action::Open(OpenTarget::Rules))
        } else if same_text(w, "metrics") {
            Ok(Action::Open(OpenTarget::Metrics))
        } else if same_text(w, "feedback") {
            Ok(Action::Open(OpenTarget::Feedback))
        } else if same_text(w, "logs") {
            Ok(Action::Open(OpenTarget::Logs))
        } else {
            Err(CommandError { kind: ErrorKind::UnknownOpenTarget, word: args[1].clone() })
        };
    }
    if same_text(first, "toggle") {
        if args.len() < 2 {
            return Err(refuse(ErrorKind::MissingToggleTarget));
        }
        let w = args[1].as_str();
        return if same_text(w, "baseline") {
            Ok(Action::Toggle(ToggleTarget::Baseline))
        } else if same_text(w, "unused-code") {
            Ok(Action::Toggle(ToggleTarget::UnusedCode))
        } else if same_text(w, "unused-files") {
            Ok(Action::Toggle(ToggleTarget::UnusedFiles))
        } else if same_text(w, "new-version") {
            Ok(Action::Toggle(ToggleTarget::NewVersion))
        } else {
            Err(CommandError { kind: ErrorKind::UnknownToggleTarget, word: args[1].clone() })
        };
    }
    if same_text(first, "log") {
        if args.len() < 2 {
            return Err(refuse(ErrorKind::MissingLogCommand));
        }
        let w = args[1].as_str();
        return if same_text(w, "capture") {
            Ok(Action::Log(LogAction::Capture))
        } else if same_text(w, "clear") {
            Ok(Action::Log(LogAction::Clear))
        } else {
            Err(CommandError { kind: ErrorKind::UnknownLogCommand, word: args[1].clone() })
        };
    }
    Err(CommandError { kind: ErrorKind::UnknownSubcommand, word: args[0].clone() })
}

/// The message for a refused command, naming the word and the valid choices.
pub open spec fn error_text(kind: ErrorKind, word: Seq<char>) -> Seq<char> {
    match kind {
        ErrorKind::NoWorktree => "DCM commands require an active worktree"@,
        ErrorKind::UnknownSubcommand => "Unknown DCM subcommand `"@ + word + "`. Run `dcm help` for options."@,
        ErrorKind::MissingOpenTarget => "Specify what to open: rules, metrics, feedback, or logs"@,
        ErrorKind::UnknownOpenTarget => "Unknown open target `"@ + word + "`. Use rules, metrics, feedback, or logs."@,
        ErrorKind::MissingToggleTarget => "Specify toggle target: baseline, unused-code, unused-files, or new-version"@,
        ErrorKind::UnknownToggleTarget => "Unknown toggle target `"@ + word
            + "`. Use baseline, unused-code, unused-files, or new-version."@,
        ErrorKind::MissingLogCommand => "Specify log command: capture or clear"@,
        ErrorKind::UnknownLogCommand => "Unknown log command `"@ + word + "`. Use capture or clear."@,
    }
}

/// `pre`, then `word`, then `post`.
fn around(pre: &str, word: &str, post: &str) -> (r: String)
    ensures
        r@ == pre@ + word@ + post@,
{
    let a = concat(pre, word);
    concat(a.as_str(), post)
}

impl CommandError {
    /// The message for this refusal.
    pub fn message(&self) -> (r: String)
        ensures
            r@ == error_text(self.kind, self.word@),
    {
        let w = self.word.as_str();
        match self.kind {
            ErrorKind::NoWorktree => "DCM commands require an active worktree".to_owned(),
            ErrorKind::UnknownSubcommand => around("Unknown DCM subcommand `", w, "`. Run `dcm help` for options."),
            ErrorKind::MissingOpenTarget => "Specify what to open: rules, metrics, feedback, or logs".to_owned(),
            ErrorKind::UnknownOpenTarget => around("Unknown open target `", w, "`. Use rules, metrics, feedback, or logs."),
            ErrorKind::MissingToggleTarget => "Specify toggle target: baseline, unused-code, unused-files, or new-version".to_owned(),
            ErrorKind::UnknownToggleTarget => around(
                "Unknown toggle target `",
                w,
                "`. Use baseline, unused-code, unused-files, or new-version.",
            ),
            ErrorKind::MissingLogCommand => "Specify log command: capture or clear".to_owned(),
            ErrorKind::UnknownLogCommand => around("Unknown log command `", w, "`. Use capture or clear."),
        }
    }
}

/// A labelled range of an output's text.
#[derive(Clone, Debug)]
pub struct OutputSection {
    pub start: u32,
    pub end: u32,
    pub label: String,
}

/// What a command shows: its text and labelled ranges of it.
#[derive(Clone, Debug)]
pub struct CommandOutput {
    pub text: String,
    pub sections: Vec<OutputSection>,
}

/// The usage text.
pub open spec fn help_text() -> Seq<char> {
    "DCM commands:\n- dcm help\n- dcm open [rules|metrics|feedback|logs]\n- dcm toggle [baseline|unused-code|unused-files|new-version]\n- dcm log [capture|clear]\n- dcm restart"@
}

/// The usage text, with no sections.
pub fn help_output() -> (r: CommandOutput)
    ensures
        r.text@ == help_text(),
        r.sections@.len() == 0,
{
    CommandOutput {
        text: "DCM commands:\n- dcm help\n- dcm open [rules|metrics|feedback|logs]\n- dcm toggle [baseline|unused-code|unused-files|new-version]\n- dcm log [capture|clear]\n- dcm restart".to_owned(),
        sections: Vec::new(),
    }
}

/// `out` is `title: message` with one section, labelled `title`, over the title.
pub open spec fn is_info(out: CommandOutput, title: Seq<char>, message: Seq<char>) -> bool {
    &&& out.text@ == title + ": "@ + message
    &&& out.sections@.len() == 1
    &&& out.sections@[0].start == 0
    &&& out.sections@[0].end == title.len()
    &&& out.sections@[0].label@ == title
}

/// An informational output: the title, a colon and the message, the title marked as a section.
pub fn info_output(title: &str, message: &str) -> (r: CommandOutput)
    requires
        title@.len() <= u32::MAX,
    ensures
        is_info(r, title@, message@),
{
    let n = chars_of(title).len();
    let head = concat(title, ": ");
    let text = concat(head.as_str(), message);
    let mut sections: Vec<OutputSection> = Vec::new();
    sections.push(OutputSection { start: 0, end: n as u32, label: title.to_owned() });
    CommandOutput { text, sections }
}

/// The title and message that `open` shows for each target.
pub open spec fn open_text(t: OpenTarget) -> (Seq<char>, Seq<char>) {
    match t {
        OpenTarget::Rules => ("DCM Rules"@, "Documentation: https://dcm.dev/docs/rules/"@),
        OpenTarget::Metrics => ("DCM Metrics"@, "Documentation: https://dcm.dev/docs/metrics/"@),
        OpenTarget::Feedback => ("DCM Feedback"@, "Join the community: https://discord.gg/Vzjprgk4sb"@),
        OpenTarget::Logs => ("DCM Logs"@, "Log file is located under `.zed/dcm.log` when capture is enabled."@),
    }
}

/// The output of `open`.
pub fn open_output(t: OpenTarget) -> (r: CommandOutput)
    ensures
        is_info(r, open_text(t).0, open_text(t).1),
{
    let (title, message) = match t {
        OpenTarget::Rules => ("DCM Rules", "Documentation: https://dcm.dev/docs/rules/"),
        OpenTarget::Metrics => ("DCM Metrics", "Documentation: https://dcm.dev/docs/metrics/"),
        OpenTarget::Feedback => ("DCM Feedback", "Join the community: https://discord.gg/Vzjprgk4sb"),
        OpenTarget::Logs => ("DCM Logs", "Log file is located under `.zed/dcm.log` when capture is enabled."),
    };
    proof {
        reveal_strlit("DCM Rules");
        reveal_strlit("DCM Metrics");
        reveal_strlit("DCM Feedback");
        reveal_strlit("DCM Logs");
    }
    info_output(title, message)
}

/// The output of `restart`.
pub fn restart_output() -> (r: CommandOutput)
    ensures
        is_info(
            r,
            "Restart DCM"@,
            "Use `Zed: Restart Language Server` from the command palette to restart the DCM server."@,
        ),
{
    proof {
        reveal_strlit("Restart DCM");
    }
    info_output(
        "Restart DCM",
        "Use `Zed: Restart Language Server` from the command palette to restart the DCM server.",
    )
}

/// The output after the flag behind `t` was set to `on`.
pub fn toggle_output(t: ToggleTarget, on: bool) -> (r: CommandOutput)
    ensures
        is_info(r, toggle_text(t, on).0, toggle_text(t, on).1),
{
    let (title, message) = t.confirmation(on);
    proof {
        reveal_strlit("Baseline Toggle");
        reveal_strlit("Unused Code Toggle");
        reveal_strlit("Unused Files Toggle");
        reveal_strlit("Version Notification Toggle");
    }
    info_output(title, message)
}

/// The confirmation message after log capture was set to `path`.
pub open spec fn capture_text(path: Seq<char>) -> Seq<char> {
    "Server communication will be captured to "@ + path + ". Restart DCM to begin logging."@
}

/// The output after log capture was set to `path`.
pub fn log_capture_output(path: &str) -> (r: CommandOutput)
    ensures
        is_info(r, "Log Capture Enabled"@, capture_text(path@)),
{
    proof {
        reveal_strlit("Log Capture Enabled");
    }
    let message = around("Server communication will be captured to ", path, ". Restart DCM to begin logging.");
    info_output("Log Capture Enabled", message.as_str())
}

/// The output after log capture was removed.
pub fn log_clear_output() -> (r: CommandOutput)
    ensures
        is_info(
            r,
            "Log Capture Disabled"@,
            "DCM log capture disabled. Delete existing log files manually if desired."@,
        ),
{
    proof {
        reveal_strlit("Log Capture Disabled");
    }
    info_output("Log Capture Disabled", "DCM log capture disabled. Delete existing log files manually if desired.")
}


/// What running a command leads to: an output, or a change of the settings file to make.
#[derive(Clone, Debug)]
pub enum RunStep {
    /// The command is done; show this.
    Output(CommandOutput),
    /// Flip this flag in the settings file, then show `toggle_output`.
    Toggle(ToggleTarget),
    /// Set or remove the log file path in the settings file.
    Log(LogAction),
}

/// Runs the typed command as far as it needs no file: help, open and restart end here.
pub fn run(args: &Vec<String>, has_worktree: bool) -> (r: Result<RunStep, CommandError>)
    ensures
        match parsed(views(args@), has_worktree) {
            Err(e) => r is Err && (r->Err_0.kind, r->Err_0.word@) == e,
            Ok(Action::Help) => r is Ok && match r->Ok_0 {
                RunStep::Output(o) => o.text@ == help_text() && o.sections@.len() == 0,
                _ => false,
            },
            Ok(Action::Restart) => r is Ok && match r->Ok_0 {
                RunStep::Output(o) => is_info(
                    o,
                    "Restart DCM"@,
                    "Use `Zed: Restart Language Server` from the command palette to restart the DCM server."@,
                ),
                _ => false,
            },
            Ok(Action::Open(t)) => r is Ok && match r->Ok_0 {
                RunStep::Output(o) => is_info(o, open_text(t).0, open_text(t).1),
                _ => false,
            },
            Ok(Action::Toggle(t)) => r is Ok && r->Ok_0 == RunStep::Toggle(t),
            Ok(Action::Log(a)) => r is Ok && r->Ok_0 == RunStep::Log(a),
        },
{
    match parse_command(args, has_worktree) {
        Err(e) => Err(e),
        Ok(Action::Help) => Ok(RunStep::Output(help_output())),
        Ok(Action::Restart) => Ok(RunStep::Output(restart_output())),
        Ok(Action::Open(t)) => Ok(RunStep::Output(open_output(t))),
        Ok(Action::Toggle(t)) => Ok(RunStep::Toggle(t)),
        Ok(Action::Log(a)) => Ok(RunStep::Log(a)),
    }
}

} // verus!
