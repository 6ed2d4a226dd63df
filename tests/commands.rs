use nix_mox::command::{
    finish, generate_docs, is_dialect_extension, is_dialect_file, plan, process_for, report,
    run_script, setup_wizard, show_metrics, start, test_script, validate_security, Command,
    Notification, ProcessOutcome, ProcessSpec, Severity, Step,
};

const ALL: [Command; 6] = [
    Command::Run,
    Command::Test,
    Command::ValidateSecurity,
    Command::ShowMetrics,
    Command::GenerateDocs,
    Command::SetupWizard,
];

const FILE_COMMANDS: [Command; 3] = [Command::Run, Command::Test, Command::ValidateSecurity];

const FREE_COMMANDS: [Command; 3] = [Command::ShowMetrics, Command::GenerateDocs, Command::SetupWizard];

fn spawned(step: Step) -> ProcessSpec {
    match step {
        Step::Spawn(p) => p,
        Step::Notify(n) => panic!("expected a process, got notification {:?}", n),
    }
}

fn notified(step: Step) -> Notification {
    match step {
        Step::Notify(n) => n,
        Step::Spawn(p) => panic!("expected a notification, got process {:?}", p),
    }
}

fn outcome(success: bool, stdout: &str, stderr: &str) -> ProcessOutcome {
    ProcessOutcome { success, stdout: stdout.as_bytes().to_vec(), stderr: stderr.as_bytes().to_vec() }
}

#[test]
fn run_script_runs_active_file_and_reports_success() {
    let spec = spawned(run_script(Some("/tmp/x.nu".to_string())));
    assert_eq!(spec.program, "nu");
    assert_eq!(spec.args, vec!["/tmp/x.nu".to_string()]);
    let n = finish(Command::Run, &outcome(true, "", ""));
    assert_eq!(n.severity, Severity::Info);
    assert_eq!(n.text, "Script executed successfully");
}

#[test]
fn show_metrics_reports_output() {
    let spec = spawned(show_metrics());
    assert_eq!(spec.program, "nu");
    assert_eq!(spec.args, vec!["scripts/tools/size-dashboard.nu".to_string()]);
    let n = finish(Command::ShowMetrics, &outcome(true, "cpu: 3%", ""));
    assert_eq!(n.severity, Severity::Info);
    assert_eq!(n.text, "Metrics:\ncpu: 3%");
}

#[test]
fn wrong_extension_spawns_nothing() {
    for c in FILE_COMMANDS {
        for path in ["/tmp/x.py", "/tmp/x", "/tmp/x.nu.bak", "/tmp/.nu"] {
            let n = notified(start(c, Some(path.to_string())));
            assert_eq!(n.severity, Severity::Error);
            assert_eq!(n.text, "Current file is not a Nushell script");
        }
    }
    let n = notified(validate_security(Some("notes.txt".to_string())));
    assert_eq!(n.text, "Current file is not a Nushell script");
}

#[test]
fn no_active_file_spawns_nothing() {
    for c in FILE_COMMANDS {
        let n = notified(start(c, None));
        assert_eq!(n.severity, Severity::Error);
        assert_eq!(n.text, "No active file");
    }
    assert_eq!(notified(run_script(None)).text, "No active file");
    assert_eq!(notified(test_script(None)).text, "No active file");
    assert_eq!(notified(validate_security(None)).text, "No active file");
}

#[test]
fn context_free_commands_need_no_file() {
    for c in FREE_COMMANDS {
        let with_none = spawned(start(c, None));
        let with_other = spawned(start(c, Some("/tmp/readme.md".to_string())));
        assert_eq!(with_none.program, "nu");
        assert_eq!(with_none.args, with_other.args);
        assert_eq!(with_none.args.len(), 1);
    }
    assert_eq!(spawned(generate_docs()).args, vec!["scripts/tools/generate-docs.nu".to_string()]);
    assert_eq!(spawned(setup_wizard()).args, vec!["scripts/core/setup.nu".to_string()]);
}

#[test]
fn context_free_commands_report_success_template() {
    let expected = ["Metrics:\nOK", "Documentation generated successfully", "Setup wizard completed successfully"];
    for (c, text) in FREE_COMMANDS.iter().zip(expected) {
        let n = finish(*c, &outcome(true, "OK", ""));
        assert_eq!(n.severity, Severity::Info);
        assert_eq!(n.text, text);
    }
}

#[test]
fn file_commands_report_success_template() {
    let expected = ["Script executed successfully", "Tests passed successfully", "Security validation passed"];
    for (c, text) in FILE_COMMANDS.iter().zip(expected) {
        let n = finish(*c, &outcome(true, "OK", "ignored"));
        assert_eq!(n.severity, Severity::Info);
        assert_eq!(n.text, text);
    }
}

#[test]
fn failing_process_reports_prefix_and_stderr() {
    let expected = [
        "Script execution failed: boom",
        "Tests failed: boom",
        "Security validation failed: boom",
        "Failed to get metrics: boom",
        "Failed to generate documentation: boom",
        "Setup wizard failed: boom",
    ];
    for (c, text) in ALL.iter().zip(expected) {
        let n = finish(*c, &outcome(false, "", "boom"));
        assert_eq!(n.severity, Severity::Error);
        assert_eq!(n.text, text);
        assert!(n.text.starts_with(c.failure_prefix()));
        assert!(n.text.contains("boom"));
    }
}

#[test]
fn invalid_output_bytes_are_replaced() {
    let o = ProcessOutcome { success: false, stdout: vec![], stderr: vec![b'b', 0xff, b'x'] };
    let n = finish(Command::Test, &o);
    assert_eq!(n.text, "Tests failed: b\u{FFFD}x");
    let o = ProcessOutcome { success: true, stdout: vec![0xc3], stderr: vec![] };
    assert_eq!(finish(Command::ShowMetrics, &o).text, "Metrics:\n\u{FFFD}");
}

#[test]
fn report_takes_decoded_text() {
    assert_eq!(report(Command::ShowMetrics, true, "a\nb", "").text, "Metrics:\na\nb");
    assert_eq!(report(Command::SetupWizard, false, "", "").text, "Setup wizard failed: ");
    assert_eq!(report(Command::Run, false, "out", "err").severity, Severity::Error);
}

#[test]
fn validate_security_passes_script_then_path() {
    let spec = spawned(validate_security(Some("/w/a.nu".to_string())));
    assert_eq!(spec.program, "nu");
    assert_eq!(
        spec.args,
        vec!["scripts/core/security-validation.nu".to_string(), "/w/a.nu".to_string()]
    );
}

#[test]
fn test_script_runs_fixed_suite() {
    let spec = spawned(test_script(Some("/w/other.nu".to_string())));
    assert_eq!(spec.args, vec!["scripts/tests/unit/comprehensive-config-tests.nu".to_string()]);
}

#[test]
fn dialect_file_detection() {
    assert!(is_dialect_file("/tmp/x.nu"));
    assert!(is_dialect_file("x.nu"));
    assert!(is_dialect_file("/a.b/c.nu"));
    assert!(!is_dialect_file("/tmp/x.NU"));
    assert!(!is_dialect_file("/tmp/.nu"));
    assert!(!is_dialect_file("/tmp/nu"));
    assert!(!is_dialect_file(""));
    assert!(is_dialect_extension(Some("nu".to_string())));
    assert!(!is_dialect_extension(Some("nuu".to_string())));
    assert!(!is_dialect_extension(None));
}

#[test]
fn plan_follows_the_given_extension_check() {
    let spec = spawned(plan(Command::Run, Some("/tmp/x.txt".to_string()), true));
    assert_eq!(spec.args, vec!["/tmp/x.txt".to_string()]);
    let n = notified(plan(Command::Run, Some("/tmp/x.nu".to_string()), false));
    assert_eq!(n.text, "Current file is not a Nushell script");
    assert!(matches!(plan(Command::ShowMetrics, None, false), Step::Spawn(_)));
}

#[test]
fn process_for_builds_argv() {
    let spec = process_for(Command::Run, "/p/q.nu");
    assert_eq!(spec.program, "nu");
    assert_eq!(spec.args, vec!["/p/q.nu".to_string()]);
}

#[test]
fn command_ids() {
    let expected = [
        "nix-mox:run-script",
        "nix-mox:test-script",
        "nix-mox:validate-security",
        "nix-mox:show-metrics",
        "nix-mox:generate-docs",
        "nix-mox:setup-wizard",
    ];
    for (c, id) in ALL.iter().zip(expected) {
        assert_eq!(c.id(), id);
        assert_eq!(c.requires_file(), FILE_COMMANDS.contains(c));
    }
}
