//! The command dispatcher: for each command, the decision taken before the
//! interpreter runs (which process, or which precondition message) and the
//! one taken after it exits (which notification).
use vstd::prelude::*;
use vstd::string::StringExecFns;
use crate::text::{decode_lossy, lossy_text_of, path_extension, text_extension_of};

verus! {

/// The interpreter every command runs.
pub const INTERPRETER: &'static str = "nu";

/// The extension of a file in the dialect.
pub const DIALECT_EXTENSION: &'static str = "nu";

/// The commands the extension offers.
#[derive(Clone, Copy, Debug, PartialEq, Eq, Structural)]
pub enum Command {
    Run,
    Test,
    ValidateSecurity,
    ShowMetrics,
    GenerateDocs,
    SetupWizard,
}

/// How a notification is shown.
#[derive(Clone, Copy, Debug, PartialEq, Eq, Structural)]
pub enum Severity {
    Info,
    Error,
}

/// The one message a command shows when it is done.
#[derive(Clone, Debug)]
pub struct Notification {
    pub severity: Severity,
    pub text: String,
}

/// A process to run: the interpreter and its arguments.
#[derive(Clone, Debug)]
pub struct ProcessSpec {
    pub program: String,
    pub args: Vec<String>,
}

/// What a process that ran to completion left behind.
#[derive(Clone, Debug)]
pub struct ProcessOutcome {
    pub success: bool,
    pub stdout: Vec<u8>,
    pub stderr: Vec<u8>,
}

/// What a command does first: run a process, or show a message at once.
#[derive(Clone, Debug)]
pub enum Step {
    Spawn(ProcessSpec),
    Notify(Notification),
}

pub ghost struct NotificationModel {
    pub severity: Severity,
    pub text: Seq<char>,
}

pub ghost struct ProcessModel {
    pub program: Seq<char>,
    pub args: Seq<Seq<char>>,
}

pub ghost enum StepModel {
    Spawn(ProcessModel),
    Notify(NotificationModel),
}

impl View for Notification {
    type V = NotificationModel;

    open spec fn view(&self) -> NotificationModel {
        NotificationModel { severity: self.severity, text: self.text@ }
    }
}

pub open spec fn texts_of(v: Seq<String>) -> Seq<Seq<char>> {
    v.map_values(|s: String| s@)
}

impl View for ProcessSpec {
    type V = ProcessModel;

    open spec fn view(&self) -> ProcessModel {
        ProcessModel { program: self.program@, args: texts_of(self.args@) }
    }
}

impl View for Step {
    type V = StepModel;

    open spec fn view(&self) -> StepModel {
        match self {
            Step::Spawn(p) => StepModel::Spawn(p@),
            Step::Notify(n) => StepModel::Notify(n@),
        }
    }
}

pub open spec fn opt_text(o: Option<String>) -> Option<Seq<char>> {
    match o {
        Some(s) => Some(s@),
        None => None,
    }
}

/// Whether a command works on the active document, which must then be a
/// file of the dialect.
pub open spec fn requires_file(c: Command) -> bool {
    match c {
        Command::Run | Command::Test | Command::ValidateSecurity => true,
        _ => false,
    }
}

/// The identifier under which a command is registered with the host.
pub open spec fn command_id(c: Command) -> Seq<char> {
    match c {
        Command::Run => "nix-mox:run-script"@,
        Command::Test => "nix-mox:test-script"@,
        Command::ValidateSecurity => "nix-mox:validate-security"@,
        Command::ShowMetrics => "nix-mox:show-metrics"@,
        Command::GenerateDocs => "nix-mox:generate-docs"@,
        Command::SetupWizard => "nix-mox:setup-wizard"@,
    }
}

/// The interpreter's arguments for a command, given the active path.
pub open spec fn process_args(c: Command, path: Seq<char>) -> Seq<Seq<char>> {
    match c {
        Command::Run => seq![path],
        Command::Test => seq!["scripts/tests/unit/comprehensive-config-tests.nu"@],
        Command::ValidateSecurity => seq!["scripts/core/security-validation.nu"@, path],
        Command::ShowMetrics => seq!["scripts/tools/size-dashboard.nu"@],
        Command::GenerateDocs => seq!["scripts/tools/generate-docs.nu"@],
        Command::SetupWizard => seq!["scripts/core/setup.nu"@],
    }
}

pub open spec fn process_model(c: Command, path: Seq<char>) -> ProcessModel {
    ProcessModel { program: INTERPRETER@, args: process_args(c, path) }
}

/// The message of a command whose process succeeded, given its output.
pub open spec fn success_text(c: Command, stdout: Seq<char>) -> Seq<char> {
    match c {
        Command::Run => "Script executed successfully"@,
        Command::Test => "Tests passed successfully"@,
        Command::ValidateSecurity => "Security validation passed"@,
        Command::ShowMetrics => "Metrics:\n"@ + stdout,
        Command::GenerateDocs => "Documentation generated successfully"@,
        Command::SetupWizard => "Setup wizard completed successfully"@,
    }
}

/// What the message of a command whose process failed starts with.
pub open spec fn failure_prefix(c: Command) -> Seq<char> {
    match c {
        Command::Run => "Script execution failed"@,
        Command::Test => "Tests failed"@,
        Command::ValidateSecurity => "Security validation failed"@,
        Command::ShowMetrics => "Failed to get metrics"@,
        Command::GenerateDocs => "Failed to generate documentation"@,
        Command::SetupWizard => "Setup wizard failed"@,
    }
}

pub open spec fn failure_text(c: Command, stderr: Seq<char>) -> Seq<char> {
    failure_prefix(c) + ": "@ + stderr
}

pub open spec fn no_file_text() -> Seq<char> {
    "No active file"@
}

pub open spec fn wrong_file_text() -> Seq<char> {
    "Current file is not a Nushell script"@
}

pub open spec fn error_note(text: Seq<char>) -> NotificationModel {
    NotificationModel { severity: Severity::Error, text }
}

pub open spec fn info_note(text: Seq<char>) -> NotificationModel {
    NotificationModel { severity: Severity::Info, text }
}

/// Whether a path names a file of the dialect.
pub open spec fn is_dialect_path(path: Seq<char>) -> bool {
    text_extension_of(path) == Some(DIALECT_EXTENSION@)
}

/// The first step of a command, given the active path and whether it names
/// a file of the dialect.
pub open spec fn planned(c: Command, path: Option<Seq<char>>, dialect: bool) -> StepModel {
    if requires_file(c) {
        match path {
            None => StepModel::Notify(error_note(no_file_text())),
            Some(p) => if dialect {
                StepModel::Spawn(process_model(c, p))
            } else {
                StepModel::Notify(error_note(wrong_file_text()))
            },
        }
    } else {
        StepModel::Spawn(process_model(c, Seq::empty()))
    }
}

/// The first step of a command on the active path as it is.
pub open spec fn started(c: Command, path: Option<Seq<char>>) -> StepModel {
    planned(
        c,
        path,
        match path {
            Some(p) => is_dialect_path(p),
            None => false,
        },
    )
}

/// The notification of a command whose process ran, given its output as text.
pub open spec fn reported(c: Command, success: bool, stdout: Seq<char>, stderr: Seq<char>) -> NotificationModel {
    if success {
        info_note(success_text(c, stdout))
    } else {
        error_note(failure_text(c, stderr))
    }
}

/// The notification of a command whose process ran, given its outcome.
pub open spec fn finished(c: Command, o: ProcessOutcome) -> NotificationModel {
    reported(c, o.success, lossy_text_of(o.stdout@), lossy_text_of(o.stderr@))
}

impl Command {
    /// The identifier under which the command is registered with the host.
    pub fn id(&self) -> (r: &'static str)
        ensures
            r@ == command_id(*self),
    {
        match self {
            Command::Run => "nix-mox:run-script",
            Command::Test => "nix-mox:test-script",
            Command::ValidateSecurity => "nix-mox:validate-security",
            Command::ShowMetrics => "nix-mox:show-metrics",
            Command::GenerateDocs => "nix-mox:generate-docs",
            Command::SetupWizard => "nix-mox:setup-wizard",
        }
    }

    /// Whether the command needs an active file of the dialect.
    pub fn requires_file(&self) -> (r: bool)
        ensures
            r == requires_file(*self),
    {
        match self {
            Command::Run | Command::Test | Command::ValidateSecurity => true,
            _ => false,
        }
    }

    /// What the message starts with when the command's process fails.
    pub fn failure_prefix(&self) -> (r: &'static str)
        ensures
            r@ == failure_prefix(*self),
    {
        match self {
            Command::Run => "Script execution failed",
            Command::Test => "Tests failed",
            Command::ValidateSecurity => "Security validation failed",
            Command::ShowMetrics => "Failed to get metrics",
            Command::GenerateDocs => "Failed to generate documentation",
            Command::SetupWizard => "Setup wizard failed",
        }
    }
}

/// The process a command runs, given the active path.
pub fn process_for(c: Command, path: &str) -> (r: ProcessSpec)
    ensures
        r@ == process_model(c, path@),
{
    let mut args: Vec<String> = Vec::new();
    match c {
        Command::Run => {
            args.push(path.to_owned());
        },
        Command::Test => {
            args.push("scripts/tests/unit/comprehensive-config-tests.nu".to_owned());
        },
        Command::ValidateSecurity => {
            args.push("scripts/core/security-validation.nu".to_owned());
            args.push(path.to_owned());
        },
        Command::ShowMetrics => {
            args.push("scripts/tools/size-dashboard.nu".to_owned());
        },
        Command::GenerateDocs => {
            args.push("scripts/tools/generate-docs.nu".to_owned());
        },
        Command::SetupWizard => {
            args.push("scripts/core/setup.nu".to_owned());
        },
    }
    let r = ProcessSpec { program: INTERPRETER.to_owned(), args };
    assert(r@.args =~= process_args(c, path@));
    r
}

/// Whether an extension is the dialect's.
pub fn is_dialect_extension(ext: Option<String>) -> (r: bool)
    ensures
        r == (opt_text(ext) == Some(DIALECT_EXTENSION@)),
{
    match ext {
        Some(e) => {
            let d = DIALECT_EXTENSION.to_owned();
            e == d
        },
        None => false,
    }
}

/// Whether a path names a file of the dialect.
pub fn is_dialect_file(path: &str) -> (r: bool)
    ensures
        r == is_dialect_path(path@),
{
    is_dialect_extension(path_extension(path))
}

/// The first step of a command, given the active path and whether it names
/// a file of the dialect: the precondition message, or the process to run.
pub fn plan(c: Command, path: Option<String>, dialect: bool) -> (r: Step)
    ensures
        r@ == planned(c, opt_text(path), dialect),
{
    if c.requires_file() {
        match path {
            None => Step::Notify(Notification { severity: Severity::Error, text: "No active file".to_owned() }),
            Some(p) => {
                if dialect {
                    Step::Spawn(process_for(c, p.as_str()))
                } else {
                    Step::Notify(
                        Notification {
                            severity: Severity::Error,
                            text: "Current file is not a Nushell script".to_owned(),
                        },
                    )
                }
            },
        }
    } else {
        Step::Spawn(process_for(c, ""))
    }
}

/// The first step of a command on the active path, if there is one.
pub fn start(c: Command, active_path: Option<String>) -> (r: Step)
    ensures
        r@ == started(c, opt_text(active_path)),
{
    let dialect = match &active_path {
        Some(p) => is_dialect_file(p.as_str()),
        None => false,
    };
    plan(c, active_path, dialect)
}

/// The notification of a command whose process ran, given its output as text.
pub fn report(c: Command, success: bool, stdout: &str, stderr: &str) -> (r: Notification)
    ensures
        r@ == reported(c, success, stdout@, stderr@),
{
    if success {
        let text = match c {
            Command::Run => "Script executed successfully".to_owned(),
            Command::Test => "Tests passed successfully".to_owned(),
            Command::ValidateSecurity => "Security validation passed".to_owned(),
            Command::ShowMetrics => {
                let mut t = "Metrics:\n".to_owned();
                t.append(stdout);
                t
            },
            Command::GenerateDocs => "Documentation generated successfully".to_owned(),
            Command::SetupWizard => "Setup wizard completed successfully".to_owned(),
        };
        Notification { severity: Severity::Info, text }
    } else {
        let mut text = c.failure_prefix().to_owned();
        text.append(": ");
        text.append(stderr);
        Notification { severity: Severity::Error, text }
    }
}

/// The notification of a command whose process ran to completion.
pub fn finish(c: Command, outcome: &ProcessOutcome) -> (r: Notification)
    ensures
        r@ == finished(c, *outcome),
{
    let stdout = decode_lossy(&outcome.stdout);
    let stderr = decode_lossy(&outcome.stderr);
    report(c, outcome.success, stdout.as_str(), stderr.as_str())
}

/// Runs the active file through the interpreter.
pub fn run_script(active_path: Option<String>) -> (r: Step)
    ensures
        r@ == started(Command::Run, opt_text(active_path)),
{
    start(Command::Run, active_path)
}

/// Runs the project's configuration test suite, from an active dialect file.
pub fn test_script(active_path: Option<String>) -> (r: Step)
    ensures
        r@ == started(Command::Test, opt_text(active_path)),
{
    start(Command::Test, active_path)
}

/// Runs the security validator over the active file.
pub fn validate_security(active_path: Option<String>) -> (r: Step)
    ensures
        r@ == started(Command::ValidateSecurity, opt_text(active_path)),
{
    start(Command::ValidateSecurity, active_path)
}

/// Runs the size dashboard, whose output the notification shows.
pub fn show_metrics() -> (r: Step)
    ensures
        r@ == started(Command::ShowMetrics, None),
{
    start(Command::ShowMetrics, None)
}

/// Runs the documentation generator.
pub fn generate_docs() -> (r: Step)
    ensures
        r@ == started(Command::GenerateDocs, None),
{
    start(Command::GenerateDocs, None)
}

/// Runs the setup wizard.
pub fn setup_wizard() -> (r: Step)
    ensures
        r@ == started(Command::SetupWizard, None),
{
    start(Command::SetupWizard, None)
}

/// A command that needs a dialect file, invoked on a path of another
/// extension, runs no process: it shows only the wrong-file error.
pub proof fn lemma_wrong_extension_spawns_nothing(c: Command, path: Seq<char>)
    requires
        requires_file(c),
        !is_dialect_path(path),
    ensures
        started(c, Some(path)) == StepModel::Notify(error_note(wrong_file_text())),
{
}

/// A command that needs a dialect file, invoked with no active document,
/// runs no process: it shows only the no-file error.
pub proof fn lemma_no_active_file_spawns_nothing(c: Command)
    requires
        requires_file(c),
    ensures
        started(c, None) == StepModel::Notify(error_note(no_file_text())),
{
}

/// A command that needs no file always runs its own process, whatever the
/// active document; when that process succeeds, the one notification is the
/// command's success message.
pub proof fn lemma_context_free_success(c: Command, path: Option<Seq<char>>, o: ProcessOutcome)
    requires
        !requires_file(c),
        o.success,
    ensures
        started(c, path) == StepModel::Spawn(process_model(c, Seq::empty())),
        finished(c, o) == info_note(success_text(c, lossy_text_of(o.stdout@))),
{
}

/// When a command's process fails, the one notification is an error that
/// starts with the command's failure prefix and ends with the process's
/// error output.
pub proof fn lemma_failure_reports_stderr(c: Command, o: ProcessOutcome)
    requires
        !o.success,
    ensures
        finished(c, o).severity == Severity::Error,
        finished(c, o).text == failure_text(c, lossy_text_of(o.stderr@)),
        finished(c, o).text.subrange(0, failure_prefix(c).len() as int) == failure_prefix(c),
        finished(c, o).text.subrange(
            finished(c, o).text.len() - lossy_text_of(o.stderr@).len(),
            finished(c, o).text.len() as int,
        ) == lossy_text_of(o.stderr@),
{
    let t = finished(c, o).text;
    let e = lossy_text_of(o.stderr@);
    assert(t.subrange(0, failure_prefix(c).len() as int) =~= failure_prefix(c));
    assert(t.subrange(t.len() - e.len(), t.len() as int) =~= e);
}

} // verus!
