//! The background service: what it watches and what it does when something
//! changes.

use crate::knowledge::scanner::{extension_of, extension_text};
use crate::text::{chars_of, contains, contains_text, copy_str, ends_with, has_prefix,
    has_suffix, lowercase, push_str, replace, replaced, slice_of, starts_with, str_eq,
    string_of, texts, to_lowercase};
use vstd::prelude::*;

verus! {

/// What the service reacts to.
#[derive(Debug, Clone, PartialEq)]
pub enum DaemonEvent {
    FileCreated(String),
    FileModified(String),
    FileDeleted(String),
    DirectoryCreated(String),
    TaskCompleted(String),
    ErrorOccurred(String),
}

/// What the service does in response.
#[derive(Debug, Clone, PartialEq)]
pub enum DaemonAction {
    RunCheck,
    RunTests,
    GeneratePR { title: String, branch: String },
    FileIssue { title: String, body: String },
    NotifyUser(String),
    TriggerBuild,
    SyncGraph,
}

/// The settings of the service.
#[derive(Debug, Clone, PartialEq)]
pub struct DaemonConfig {
    pub watch_paths: Vec<String>,
    pub ignore_patterns: Vec<String>,
    pub debounce_ms: u64,
    pub auto_check: bool,
    pub auto_test: bool,
    pub auto_pr: bool,
}

impl Default for DaemonConfig {
    fn default() -> (out: Self)
        ensures
            texts(out.watch_paths@) == seq!["src"@, "tests"@],
            texts(out.ignore_patterns@) == seq!["target/*"@, ".git/*"@, "*.lock"@, ".sly/*"@],
            out.debounce_ms == 500,
            out.auto_check,
            !out.auto_test,
            !out.auto_pr,
    {
        let mut watch_paths: Vec<String> = Vec::new();
        watch_paths.push(copy_str("src"));
        watch_paths.push(copy_str("tests"));
        assert(texts(watch_paths@) =~= seq!["src"@, "tests"@]);
        let mut ignore_patterns: Vec<String> = Vec::new();
        ignore_patterns.push(copy_str("target/*"));
        ignore_patterns.push(copy_str(".git/*"));
        ignore_patterns.push(copy_str("*.lock"));
        ignore_patterns.push(copy_str(".sly/*"));
        assert(texts(ignore_patterns@) =~= seq!["target/*"@, ".git/*"@, "*.lock"@, ".sly/*"@]);
        DaemonConfig {
            watch_paths,
            ignore_patterns,
            debounce_ms: 500,
            auto_check: true,
            auto_test: false,
            auto_pr: false,
        }
    }
}

/// The property list that starts the service at login: for the binary at
/// `binary_path`, working in `workspace`.
pub open spec fn launchd_plist(binary_path: Seq<char>, workspace: Seq<char>) -> Seq<char> {
    "<?xml version=\"1.0\" encoding=\"UTF-8\"?>\n<!DOCTYPE plist PUBLIC \"-//Apple//DTD PLIST 1.0//EN\" \"http://www.apple.com/DTDs/PropertyList-1.0.dtd\">\n<plist version=\"1.0\">\n<dict>\n    <key>Label</key>\n    <string>com.sly.daemon</string>\n    <key>ProgramArguments</key>\n    <array>\n        <string>"@ + binary_path + "</string>\n        <string>--daemon</string>\n        <string>--workspace</string>\n        <string>"@ + workspace + "</string>\n    </array>\n    <key>KeepAlive</key>\n    <true/>\n    <key>RunAtLoad</key>\n    <true/>\n    <key>StandardOutPath</key>\n    <string>/tmp/sly.log</string>\n    <key>StandardErrorPath</key>\n    <string>/tmp/sly.error.log</string>\n    <key>WorkingDirectory</key>\n    <string>"@ + workspace + "</string>\n</dict>\n</plist>"@
}

/// The property list that starts the service at login.
pub fn generate_launchd_plist(binary_path: &str, workspace: &str) -> (out: String)
    ensures
        out@ == launchd_plist(binary_path@, workspace@),
{
    let mut buf = chars_of("<?xml version=\"1.0\" encoding=\"UTF-8\"?>\n<!DOCTYPE plist PUBLIC \"-//Apple//DTD PLIST 1.0//EN\" \"http://www.apple.com/DTDs/PropertyList-1.0.dtd\">\n<plist version=\"1.0\">\n<dict>\n    <key>Label</key>\n    <string>com.sly.daemon</string>\n    <key>ProgramArguments</key>\n    <array>\n        <string>");
    push_str(&mut buf, binary_path);
    push_str(&mut buf, "</string>\n        <string>--daemon</string>\n        <string>--workspace</string>\n        <string>");
    push_str(&mut buf, workspace);
    push_str(&mut buf, "</string>\n    </array>\n    <key>KeepAlive</key>\n    <true/>\n    <key>RunAtLoad</key>\n    <true/>\n    <key>StandardOutPath</key>\n    <string>/tmp/sly.log</string>\n    <key>StandardErrorPath</key>\n    <string>/tmp/sly.error.log</string>\n    <key>WorkingDirectory</key>\n    <string>");
    push_str(&mut buf, workspace);
    push_str(&mut buf, "</string>\n</dict>\n</plist>");
    string_of(&buf)
}

/// Whether a pattern covers a path: `dir/*` covers every path that holds
/// `dir`; `*.ext` covers every path that ends in `ext`; any other pattern
/// covers every path that holds it.
pub open spec fn covers(pattern: Seq<char>, path: Seq<char>) -> bool {
    if has_suffix(pattern, "/*"@) {
        contains_text(path, pattern.subrange(0, pattern.len() - 2))
    } else if has_prefix(pattern, "*."@) {
        has_suffix(path, pattern.subrange(2, pattern.len() as int))
    } else {
        contains_text(path, pattern)
    }
}

/// Whether one of the patterns covers a path.
pub open spec fn ignored(patterns: Seq<Seq<char>>, path: Seq<char>) -> bool {
    exists|i: int| 0 <= i < patterns.len() && covers(#[trigger] patterns[i], path)
}

/// Whether the service passes over a path.
pub fn should_ignore(config: &DaemonConfig, path: &str) -> (out: bool)
    ensures
        out == ignored(texts(config.ignore_patterns@), path@),
{
    let p = chars_of(path);
    let mut i: usize = 0;
    proof {
        reveal_strlit("/*");
        reveal_strlit("*.");
    }
    while i < config.ignore_patterns.len()
        invariant
            i <= config.ignore_patterns.len(),
            p@ == path@,
            "/*"@.len() == 2,
            "*."@.len() == 2,
            forall|k: int| 0 <= k < i ==> !covers(#[trigger] texts(config.ignore_patterns@)[k], path@),
        decreases config.ignore_patterns.len() - i,
    {
        let pattern = chars_of(config.ignore_patterns[i].as_str());
        assert(texts(config.ignore_patterns@)[i as int] == pattern@);
        let hit = if ends_with(&pattern, &chars_of("/*")) {
            contains(&p, &slice_of(&pattern, 0, pattern.len() - 2))
        } else if starts_with(&pattern, &chars_of("*.")) {
            ends_with(&p, &slice_of(&pattern, 2, pattern.len()))
        } else {
            contains(&p, &pattern)
        };
        if hit {
            return true;
        }
        i += 1;
    }
    false
}

/// Whether an extension is that of source code that the service checks.
pub open spec fn is_source(ext: Seq<char>) -> bool {
    ext == "rs"@ || ext == "ts"@ || ext == "js"@ || ext == "py"@ || ext == "go"@
}

/// The values of a list of actions, as far as the laws of the service
/// speak of them.
pub open spec fn file_actions(config: DaemonConfig, path: Seq<char>) -> Seq<DaemonAction> {
    let source = if is_source(extension_text(path)) {
        if config.auto_check {
            seq![DaemonAction::RunCheck, DaemonAction::SyncGraph]
        } else {
            seq![DaemonAction::SyncGraph]
        }
    } else {
        seq![]
    };
    if contains_text(path, "test"@) && config.auto_test {
        source.push(DaemonAction::RunTests)
    } else {
        source
    }
}

/// What the service does when a file was created or modified: nothing
/// where the path is ignored; else source code is checked, if the settings
/// say so, and the graph is brought up to date, and a path that names a
/// test has the tests run, if the settings say so.
pub fn file_changed(config: &DaemonConfig, path: &str) -> (out: Vec<DaemonAction>)
    ensures
        out@ == if ignored(texts(config.ignore_patterns@), path@) {
            Seq::<DaemonAction>::empty()
        } else {
            file_actions(*config, path@)
        },
{
    let mut out: Vec<DaemonAction> = Vec::new();
    if should_ignore(config, path) {
        return out;
    }
    let ext = extension_of(path);
    let e = ext.as_str();
    if str_eq(e, "rs") || str_eq(e, "ts") || str_eq(e, "js") || str_eq(e, "py") || str_eq(
        e,
        "go",
    ) {
        if config.auto_check {
            out.push(DaemonAction::RunCheck);
        }
        out.push(DaemonAction::SyncGraph);
    }
    if contains(&chars_of(path), &chars_of("test")) && config.auto_test {
        out.push(DaemonAction::RunTests);
    }
    assert(out@ =~= file_actions(*config, path@));
    out
}

/// The name of the branch for a task: `sly/` and the task in lower case
/// with `-` for each blank.
pub open spec fn branch_name(task: Seq<char>) -> Seq<char> {
    "sly/"@ + replaced(lowercase(task), " "@, "-"@)
}

/// What the service does when a task is done: a pull request is opened,
/// if the settings say so, and the user is told.
pub fn task_completed(config: &DaemonConfig, task: &str) -> (out: Vec<DaemonAction>)
    ensures
        out@.len() == if config.auto_pr {
            2int
        } else {
            1int
        },
        out@.last() matches DaemonAction::NotifyUser(text) && text@ == "Task completed: "@
            + task@,
        config.auto_pr ==> (out@[0] matches DaemonAction::GeneratePR { title, branch }
            && title@ == "Automated: "@ + task@ && branch@ == branch_name(task@)),
{
    let mut out: Vec<DaemonAction> = Vec::new();
    if config.auto_pr {
        let mut title = chars_of("Automated: ");
        push_str(&mut title, task);
        let lower = to_lowercase(task);
        let slug = replace(&chars_of(lower.as_str()), &chars_of(" "), &chars_of("-"));
        let mut branch = chars_of("sly/");
        crate::text::push_all(&mut branch, &slug);
        out.push(DaemonAction::GeneratePR { title: string_of(&title), branch: string_of(&branch) });
    }
    let mut note = chars_of("Task completed: ");
    push_str(&mut note, task);
    out.push(DaemonAction::NotifyUser(string_of(&note)));
    out
}

/// What the service does in response to an event.
pub fn process_event(config: &DaemonConfig, event: &DaemonEvent) -> (out: Vec<DaemonAction>)
    ensures
        match event {
            DaemonEvent::FileModified(path) | DaemonEvent::FileCreated(path) => out@ == if ignored(
                texts(config.ignore_patterns@),
                path@,
            ) {
                Seq::<DaemonAction>::empty()
            } else {
                file_actions(*config, path@)
            },
            DaemonEvent::TaskCompleted(task) => {
                &&& out@.len() == if config.auto_pr {
                    2int
                } else {
                    1int
                }
                &&& out@.last() matches DaemonAction::NotifyUser(text) && text@
                    == "Task completed: "@ + task@
                &&& config.auto_pr ==> (out@[0] matches DaemonAction::GeneratePR { title, branch }
                    && title@ == "Automated: "@ + task@ && branch@ == branch_name(task@))
            },
            DaemonEvent::ErrorOccurred(err) => out@.len() == 1 && (out@[0]
                matches DaemonAction::NotifyUser(text) && text@ == "Error: "@ + err@),
            _ => out@.len() == 0,
        },
{
    match event {
        DaemonEvent::FileModified(path) => file_changed(config, path.as_str()),
        DaemonEvent::FileCreated(path) => file_changed(config, path.as_str()),
        DaemonEvent::TaskCompleted(task) => task_completed(config, task.as_str()),
        DaemonEvent::ErrorOccurred(err) => {
            let mut note = chars_of("Error: ");
            push_str(&mut note, err.as_str());
            let mut out: Vec<DaemonAction> = Vec::new();
            out.push(DaemonAction::NotifyUser(string_of(&note)));
            out
        },
        _ => Vec::new(),
    }
}

} // verus!
