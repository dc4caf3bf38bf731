use helmctl::cli::{Commands, ContextAction};
use helmctl::command::{CommandSpec, ExecutionResult};
use helmctl::config::Config;
use helmctl::drive::{advance, Outcome};
use helmctl::plan::{
    apply_plan, deploy_plan, lint_plan, rollback_plan, status_plan, validate_plan, Step, Task,
};
use helmctl::safety::ConfirmKind;

const VALID_HELMFILE: &str = "repositories:\n  - name: bitnami\n    url: https://charts.bitnami.com/bitnami\n\nreleases:\n  - name: web\n    namespace: default\n    chart: bitnami/nginx\n";
const INVALID_HELMFILE: &str = "repositories:\n  - name: bitnami\n    url: [unclosed\nreleases:\n  - name: web\n";

/// Runs a plan, answering each step with `perform`; returns the steps
/// performed, the notes shown, and the final error.
fn run_plan(
    plan: &[Step],
    verbose: bool,
    mut perform: impl FnMut(&Step) -> Outcome,
) -> (Vec<String>, Vec<String>, Option<String>) {
    let mut performed = Vec::new();
    let mut notes = Vec::new();
    for step in plan {
        performed.push(describe(step));
        let next = advance(step, perform(step), verbose);
        notes.extend(next.notes);
        if let Some(e) = next.error {
            return (performed, notes, Some(e));
        }
    }
    (performed, notes, None)
}

fn describe(step: &Step) -> String {
    match step {
        Step::RequireFile { path, .. } => format!("file {}", path),
        Step::RequireTool { tool } => format!("tool {}", tool),
        Step::Confirm { .. } => "confirm".to_string(),
        Step::Run { command, .. } => format!("{} {}", command.tool, command.args.join(" ")),
        Step::CheckSyntax { path } => format!("syntax {}", path),
    }
}

fn ok_exit(stdout: &str) -> Outcome {
    Outcome::Exited(ExecutionResult {
        success: true,
        stdout: Some(stdout.to_string()),
        stderr: Some(String::new()),
    })
}

fn all_present(step: &Step) -> Outcome {
    match step {
        Step::RequireFile { .. } | Step::RequireTool { .. } => Outcome::Found(true),
        Step::Confirm { .. } => Outcome::Replied("y\n".to_string()),
        Step::Run { .. } => ok_exit(""),
        Step::CheckSyntax { .. } => Outcome::Read(VALID_HELMFILE.to_string()),
    }
}

fn args(c: &CommandSpec) -> Vec<&str> {
    c.args.iter().map(|s| s.as_str()).collect()
}

fn run_command(step: &Step) -> &CommandSpec {
    match step {
        Step::Run { command, .. } => command,
        _ => panic!("not a run step"),
    }
}

#[test]
fn test_lint_missing_file() {
    let plan = lint_plan("nonexistent.yaml", None, false, false, false);
    let (performed, _, error) = run_plan(&plan, false, |s| match s {
        Step::RequireFile { .. } => Outcome::Found(false),
        other => all_present(other),
    });
    let error = error.unwrap();
    assert!(error.contains("Helmfile not found"));
    assert!(error.contains("not found"));
    assert_eq!(performed, vec!["file nonexistent.yaml".to_string()]);
}

#[test]
fn test_validate_missing_file() {
    let plan = validate_plan("nonexistent.yaml", None, false);
    let (_, _, error) = run_plan(&plan, false, |_| Outcome::Found(false));
    assert_eq!(error, Some("Helmfile not found: nonexistent.yaml".to_string()));
}

#[test]
fn test_lint_with_valid_helmfile() {
    let plan = lint_plan("helmfile.yaml", None, false, true, false);
    let (performed, _, error) = run_plan(&plan, false, all_present);
    assert!(error.is_none());
    assert_eq!(
        performed,
        vec![
            "file helmfile.yaml",
            "tool helmfile",
            "tool helm",
            "helmfile -f helmfile.yaml template --skip-deps",
        ]
    );
}

#[test]
fn test_lint_with_environment_flag() {
    let plan = lint_plan("helmfile.yaml", Some("testing"), false, true, false);
    let (performed, _, error) = run_plan(&plan, false, all_present);
    assert!(!error.unwrap_or_default().contains("Helmfile not found"));
    assert_eq!(performed[3], "helmfile -f helmfile.yaml -e testing template --skip-deps");
}

#[test]
fn test_lint_with_strict_mode() {
    let plan = lint_plan("helmfile.yaml", None, true, true, false);
    let (_, notes, error) = run_plan(&plan, false, |s| match s {
        Step::Run { .. } => ok_exit("WARNING: deprecated value\nWARNING: other\n"),
        other => all_present(other),
    });
    assert_eq!(error, Some("Linting failed due to warnings in strict mode".to_string()));
    assert_eq!(notes, vec!["Found 2 warnings".to_string()]);
}

#[test]
fn lint_warnings_pass_without_strict() {
    let plan = lint_plan("helmfile.yaml", None, false, true, true);
    let (_, notes, error) = run_plan(&plan, true, |s| match s {
        Step::Run { .. } => ok_exit("WARNING: x\n"),
        other => all_present(other),
    });
    assert!(error.is_none());
    assert_eq!(notes, vec!["Found 1 warnings".to_string(), "Output:\nWARNING: x\n".to_string()]);
}

#[test]
fn lint_errors_fail() {
    let plan = lint_plan("helmfile.yaml", None, false, true, false);
    let (_, notes, error) = run_plan(&plan, false, |s| match s {
        Step::Run { .. } => Outcome::Exited(ExecutionResult {
            success: true,
            stdout: Some("ERROR one".to_string()),
            stderr: Some("ERROR two WARNING".to_string()),
        }),
        other => all_present(other),
    });
    assert_eq!(error, Some("Linting failed with errors".to_string()));
    assert_eq!(notes, vec!["Found 2 errors".to_string()]);
}

#[test]
fn lint_refreshes_repositories_unless_template_only() {
    let plan = lint_plan("h.yaml", Some("dev"), false, false, false);
    let (performed, _, error) = run_plan(&plan, false, all_present);
    assert!(error.is_none());
    assert_eq!(
        performed,
        vec![
            "file h.yaml",
            "tool helmfile",
            "tool helm",
            "helm repo add bitnami https://charts.bitnami.com/bitnami",
            "helm repo add stable https://charts.helm.sh/stable",
            "helm repo update",
            "helmfile -f h.yaml -e dev lint --skip-deps",
        ]
    );
    assert!(run_command(&plan[5]).capture);
    let verbose_plan = lint_plan("h.yaml", None, false, false, true);
    assert!(!run_command(&verbose_plan[5]).capture);
}

#[test]
fn repo_add_failures_are_tolerated() {
    let plan = lint_plan("h.yaml", None, false, false, true);
    let (_, notes, error) = run_plan(&plan, true, |s| match s {
        Step::Run { task: Task::RepoAdd, subject, .. } => Outcome::Exited(ExecutionResult {
            success: false,
            stdout: None,
            stderr: Some(if subject == "bitnami" {
                "Error: repository name (bitnami) already exists".to_string()
            } else {
                "network down".to_string()
            }),
        }),
        other => all_present(other),
    });
    assert!(error.is_none());
    assert_eq!(notes, vec!["Warning: Could not add repository stable: network down".to_string()]);
}

#[test]
fn repo_update_failure_is_fatal() {
    let plan = lint_plan("h.yaml", None, false, false, false);
    let (_, _, error) = run_plan(&plan, false, |s| match s {
        Step::Run { task: Task::RepoUpdate, .. } => Outcome::Exited(ExecutionResult {
            success: false,
            stdout: None,
            stderr: None,
        }),
        other => all_present(other),
    });
    assert_eq!(error, Some("Failed to update helm repositories".to_string()));
}

#[test]
fn test_validate_syntax_only() {
    let plan = validate_plan("helmfile.yaml", None, true);
    let (_, notes, error) = run_plan(&plan, false, all_present);
    assert!(error.is_none());
    assert!(notes.iter().any(|n| n.contains("YAML syntax is valid")));
}

#[test]
fn test_verbose_mode() {
    let plan = validate_plan("helmfile.yaml", None, true);
    let (_, _, error) = run_plan(&plan, true, all_present);
    assert!(error.is_none());
}

#[test]
fn test_validate_with_environment_flag() {
    let plan = validate_plan("helmfile.yaml", Some("development"), true);
    let (_, _, error) = run_plan(&plan, false, all_present);
    assert!(error.is_none());
}

#[test]
fn test_validate_invalid_yaml_syntax() {
    let plan = validate_plan("helmfile.yaml", None, true);
    let (_, _, error) = run_plan(&plan, false, |s| match s {
        Step::CheckSyntax { .. } => Outcome::Read(INVALID_HELMFILE.to_string()),
        other => all_present(other),
    });
    assert!(error.unwrap().contains("YAML syntax error"));
}

#[test]
fn test_multiple_yaml_documents_validation() {
    let content = "---\nrepositories:\n  - name: bitnami\n    url: https://charts.bitnami.com/bitnami\n---\nenvironments:\n  development:\n    values:\n      - env: development\n---\nreleases:\n  - name: test-app\n    chart: bitnami/nginx\n    namespace: default\n";
    let plan = validate_plan("multi_doc.yaml", None, true);
    let (_, notes, error) = run_plan(&plan, false, |s| match s {
        Step::CheckSyntax { .. } => Outcome::Read(content.to_string()),
        other => all_present(other),
    });
    assert!(error.is_none());
    assert!(notes.iter().any(|n| n.contains("YAML syntax is valid")));
    assert_eq!(
        notes,
        vec![
            "Document 2 syntax is valid",
            "Document 3 syntax is valid",
            "Document 4 syntax is valid",
            "All YAML syntax is valid",
        ]
    );
}

#[test]
fn syntax_only_two_documents_end_to_end() {
    let plan = validate_plan("two.yaml", None, true);
    let (performed, notes, error) = run_plan(&plan, false, |s| match s {
        Step::CheckSyntax { .. } => Outcome::Read("a: 1\n---\nb: 2\n".to_string()),
        other => all_present(other),
    });
    assert!(error.is_none());
    assert_eq!(performed, vec!["file two.yaml", "syntax two.yaml"]);
    assert_eq!(
        notes,
        vec!["Document 1 syntax is valid", "Document 2 syntax is valid", "All YAML syntax is valid"]
    );
}

#[test]
fn syntax_error_names_part_index() {
    let plan = validate_plan("three.yaml", None, true);
    let (_, _, error) = run_plan(&plan, false, |s| match s {
        Step::CheckSyntax { .. } => Outcome::Read("a: 1\n---\nb: [\n---\nc: 3\n".to_string()),
        other => all_present(other),
    });
    assert!(error.unwrap().starts_with("YAML syntax error in document 2: "));
}

#[test]
fn full_validate_renders_and_warns_only_in_verbose() {
    let plan = validate_plan("h.yaml", Some("qa"), false);
    let rendered = "a: 1\n---\nb: 2\n";
    let (performed, notes, error) = run_plan(&plan, false, |s| match s {
        Step::Run { .. } => ok_exit(rendered),
        other => all_present(other),
    });
    assert!(error.is_none());
    assert!(notes.is_empty());
    assert_eq!(performed[2], "helmfile -f h.yaml -e qa template --skip-deps");
    let (_, notes, error) = run_plan(&plan, true, |s| match s {
        Step::Run { .. } => ok_exit(rendered),
        other => all_present(other),
    });
    assert!(error.is_none());
    assert_eq!(notes.len(), 2);
    assert!(notes[0].starts_with("Warning: Rendered output may not be valid YAML: "));
    assert_eq!(notes[1], format!("Output preview:\n{}", rendered));
    let (_, notes, _) = run_plan(&plan, false, |s| match s {
        Step::Run { .. } => ok_exit("a: 1\n"),
        other => all_present(other),
    });
    assert_eq!(notes, vec!["Rendered templates are valid YAML".to_string()]);
}

#[test]
fn deploy_to_production_asks_first() {
    let plan = deploy_plan("h.yaml", Some("production"), false, false, true, 4, None, false);
    let (performed, _, error) = run_plan(&plan, false, |s| match s {
        Step::Confirm { .. } => Outcome::Replied("n\n".to_string()),
        other => all_present(other),
    });
    assert_eq!(error, Some("Deployment cancelled by user".to_string()));
    assert_eq!(performed.last().unwrap(), "confirm");
    let command = run_command(plan.last().unwrap());
    assert_eq!(
        args(command),
        vec!["-f", "h.yaml", "-e", "production", "sync", "--skip-deps", "--concurrency", "4"]
    );
    assert!(!command.capture);
}

#[test]
fn deploy_dry_run_and_diff_skip_confirmation() {
    let dry = deploy_plan("h.yaml", Some("prod"), true, false, false, 2, Some("ctx"), false);
    assert!(!dry.iter().any(|s| matches!(s, Step::Confirm { .. })));
    assert_eq!(
        args(run_command(dry.last().unwrap())),
        vec!["-f", "h.yaml", "-e", "prod", "sync", "--args", "--dry-run", "--concurrency", "2"]
    );
    assert_eq!(args(run_command(&dry[3])), vec!["config", "use-context", "ctx"]);
    let diff = deploy_plan("h.yaml", Some("prod"), false, true, false, 2, None, false);
    assert!(!diff.iter().any(|s| matches!(s, Step::Confirm { .. })));
    assert_eq!(args(run_command(&diff[6])), vec!["plugin", "list"]);
    assert_eq!(
        args(run_command(diff.last().unwrap())),
        vec!["-f", "h.yaml", "-e", "prod", "diff", "--concurrency", "2"]
    );
    let (_, _, error) = run_plan(&diff, false, |s| match s {
        Step::Run { task: Task::DiffPlugin, .. } => ok_exit("NAME VERSION\n"),
        other => all_present(other),
    });
    assert!(error.unwrap().starts_with("Helm diff plugin not installed"));
}

#[test]
fn deploy_to_staging_does_not_ask() {
    let plan = deploy_plan("h.yaml", Some("staging"), false, false, false, 1, Some("dev-cluster"), false);
    assert!(!plan.iter().any(|s| matches!(s, Step::Confirm { .. })));
}

#[test]
fn declined_rollback_never_reaches_helm() {
    let plan = rollback_plan("h.yaml", Some("prod"), Some("web"), Some(3), None);
    let (performed, _, error) = run_plan(&plan, false, |s| match s {
        Step::Confirm { .. } => Outcome::Replied("no\n".to_string()),
        other => all_present(other),
    });
    assert_eq!(error, Some("Rollback cancelled by user".to_string()));
    assert!(!performed.iter().any(|p| p.starts_with("helm ")));
    assert_eq!(args(run_command(plan.last().unwrap())), vec!["rollback", "web", "3"]);
}

#[test]
fn rollback_without_revision_destroys_then_syncs() {
    let plan = rollback_plan("h.yaml", None, Some("web"), None, Some("c1"));
    let (performed, _, error) = run_plan(&plan, false, all_present);
    assert!(error.is_none());
    assert_eq!(
        performed,
        vec![
            "file h.yaml",
            "tool helmfile",
            "tool helm",
            "kubectl config use-context c1",
            "confirm",
            "helmfile -f h.yaml --selector name=web destroy",
            "helmfile -f h.yaml --selector name=web sync",
        ]
    );
    let (_, _, error) = run_plan(&plan, false, |s| match s {
        Step::Run { task: Task::Destroy, .. } => Outcome::Exited(ExecutionResult {
            success: false,
            stdout: None,
            stderr: None,
        }),
        other => all_present(other),
    });
    assert_eq!(error, Some("Failed to destroy releases".to_string()));
}

#[test]
fn apply_plan_arguments() {
    let plan = apply_plan("m.yaml", Some("ns1"), None, true, true, 120);
    assert_eq!(
        args(run_command(plan.last().unwrap())),
        vec!["--namespace", "ns1", "apply", "-f", "m.yaml", "--dry-run=client", "--wait", "--timeout", "120s"]
    );
    let (_, _, error) = run_plan(&plan, false, |_| Outcome::Found(false));
    assert_eq!(error, Some("Manifest not found: m.yaml".to_string()));
    let guarded = apply_plan("m.yaml", None, Some("prod-east"), false, false, 300);
    assert!(matches!(guarded[3], Step::Confirm { reason: ConfirmKind::Production }));
}

#[test]
fn status_plan_with_details() {
    let plan = status_plan("h.yaml", Some("staging"), Some("api"), None, true);
    let (performed, notes, error) = run_plan(&plan, false, |s| match s {
        Step::Run { task: Task::Status, .. } => ok_exit("api deployed"),
        Step::Run { task: Task::Detail, .. } => Outcome::LaunchFailed("no kubectl".to_string()),
        other => all_present(other),
    });
    assert!(error.is_none());
    assert_eq!(notes, vec!["api deployed".to_string()]);
    assert_eq!(
        performed,
        vec![
            "file h.yaml",
            "tool helmfile",
            "helmfile -f h.yaml -e staging --selector name=api status",
            "kubectl get all -o wide -n staging",
            "kubectl get pods -o wide -n staging",
        ]
    );
}

#[test]
fn test_context_list_without_kubectl() {
    let plan = Commands::Context { action: ContextAction::List }
        .plan(&Config::default(), false)
        .unwrap();
    let (_, _, error) = run_plan(&plan, false, |_| Outcome::Found(false));
    let error = error.unwrap();
    assert!(error.contains("kubectl") || error.contains("not found"));
    assert_eq!(
        error,
        "Command 'kubectl' not found. Please install kubectl and make sure it's in your PATH."
    );
}

#[test]
fn context_details() {
    let plan = Commands::Context { action: ContextAction::Use { context: "dev".to_string() } }
        .plan(&Config::default(), false)
        .unwrap();
    let (_, notes, error) = run_plan(&plan, false, |s| match s {
        Step::Run { task: Task::ServerInfo, .. } => ok_exit("https://10.0.0.1:6443\n"),
        Step::Run { task: Task::NamespaceInfo, .. } => ok_exit("  \n"),
        Step::Run { task: Task::Connectivity, .. } => Outcome::Exited(ExecutionResult {
            success: false,
            stdout: None,
            stderr: None,
        }),
        other => all_present(other),
    });
    assert!(error.is_none());
    assert_eq!(
        notes,
        vec![
            "Switched to context: dev",
            "Server: https://10.0.0.1:6443",
            "Namespace: default",
            "Connectivity: Connection failed",
        ]
    );
}

#[test]
fn dispatch_merges_stored_settings() {
    let mut settings = Config::default_config();
    settings.preferred_context = Some("stored".to_string());
    let deploy = Commands::Deploy {
        file: "h.yaml".to_string(),
        environment: None,
        dry_run: true,
        diff: false,
        skip_deps: false,
        concurrency: 1,
        context: None,
    };
    let plan = deploy.plan(&settings, false).unwrap();
    assert_eq!(args(run_command(&plan[3])), vec!["config", "use-context", "stored"]);
    assert_eq!(
        args(run_command(plan.last().unwrap())),
        vec!["-f", "h.yaml", "-e", "development", "sync", "--args", "--dry-run", "--concurrency", "2"]
    );
    let config_verb = Commands::Config { action: helmctl::cli::ConfigAction::Show };
    assert!(config_verb.plan(&settings, false).is_none());
}

#[test]
fn mismatched_outcome_stops() {
    let plan = validate_plan("h.yaml", None, true);
    let next = advance(&plan[0], Outcome::Replied("y".to_string()), false);
    assert_eq!(next.error, Some("The outcome does not fit the step".to_string()));
}

fn failed_exit(stderr: &str) -> Outcome {
    Outcome::Exited(ExecutionResult {
        success: false,
        stdout: Some(String::new()),
        stderr: Some(stderr.to_string()),
    })
}

#[test]
fn launch_failures_are_fatal_with_their_cause() {
    let plan = deploy_plan("h.yaml", None, true, false, false, 1, None, false);
    let (_, _, error) = run_plan(&plan, false, |s| match s {
        Step::Run { task: Task::Sync, .. } => Outcome::LaunchFailed("No such file".to_string()),
        other => all_present(other),
    });
    assert_eq!(error, Some("Failed to execute helmfile: No such file".to_string()));
    let (_, _, error) = run_plan(&plan, false, |s| match s {
        Step::Run { task: Task::RepoAdd, .. } => Outcome::LaunchFailed("denied".to_string()),
        other => all_present(other),
    });
    assert_eq!(error, Some("Failed to add helm repository bitnami: denied".to_string()));
}

#[test]
fn context_switch_failure_names_the_context() {
    let plan = status_plan("h.yaml", None, None, Some("blue"), false);
    let (_, _, error) = run_plan(&plan, false, |s| match s {
        Step::Run { task: Task::SwitchContext, .. } => failed_exit(""),
        other => all_present(other),
    });
    assert_eq!(error, Some("Failed to switch to context: blue".to_string()));
}

#[test]
fn status_failure_carries_stderr() {
    let plan = status_plan("h.yaml", None, None, None, false);
    let (_, _, error) = run_plan(&plan, false, |s| match s {
        Step::Run { task: Task::Status, .. } => failed_exit("boom"),
        other => all_present(other),
    });
    assert_eq!(error, Some("Status check failed:\nboom".to_string()));
}

#[test]
fn lint_nonzero_exit_carries_stderr() {
    let plan = lint_plan("h.yaml", None, false, true, false);
    let (_, _, error) = run_plan(&plan, false, |s| match s {
        Step::Run { .. } => failed_exit("parse error"),
        other => all_present(other),
    });
    assert_eq!(error, Some("Helmfile lint failed:\nparse error".to_string()));
}

#[test]
fn unreadable_file_stops_syntax_check() {
    let plan = validate_plan("h.yaml", None, true);
    let (_, _, error) = run_plan(&plan, false, |s| match s {
        Step::CheckSyntax { .. } => Outcome::ReadFailed("permission denied".to_string()),
        other => all_present(other),
    });
    assert_eq!(error, Some("Failed to read file: permission denied".to_string()));
}

#[test]
fn helm_rollback_when_confirmed() {
    let plan = rollback_plan("h.yaml", None, Some("web"), Some(12), None);
    let (performed, _, error) = run_plan(&plan, false, all_present);
    assert!(error.is_none());
    assert_eq!(performed.last().unwrap(), "helm rollback web 12");
    let (_, _, error) = run_plan(&plan, false, |s| match s {
        Step::Run { task: Task::HelmRollback, .. } => failed_exit(""),
        other => all_present(other),
    });
    assert_eq!(error, Some("Helm rollback failed".to_string()));
}

#[test]
fn apply_failure_and_confirmation() {
    let plan = apply_plan("m.yaml", None, Some("prod"), false, false, 300);
    let (performed, _, error) = run_plan(&plan, false, |s| match s {
        Step::Run { task: Task::Apply, .. } => failed_exit(""),
        other => all_present(other),
    });
    assert_eq!(error, Some("Kubernetes deployment failed".to_string()));
    assert_eq!(
        performed,
        vec![
            "file m.yaml",
            "tool kubectl",
            "kubectl config use-context prod",
            "confirm",
            "kubectl apply -f m.yaml",
        ]
    );
}

#[test]
fn current_context_is_trimmed() {
    let plan = Commands::Context { action: ContextAction::Current }
        .plan(&Config::default(), false)
        .unwrap();
    let (_, notes, error) = run_plan(&plan, false, |s| match s {
        Step::Run { task: Task::CurrentContext, .. } => ok_exit("  kind-dev\n"),
        Step::Run { task: Task::ServerInfo, .. } => ok_exit(""),
        Step::Run { task: Task::NamespaceInfo, .. } => ok_exit("team-a\n"),
        other => all_present(other),
    });
    assert!(error.is_none());
    assert_eq!(notes, vec!["kind-dev", "Namespace: team-a", "Connectivity: Connected"]);
}

#[test]
fn dispatch_timeout_falls_back_to_stored_value() {
    let mut settings = Config::default();
    settings.default_timeout = Some(45);
    let apply = Commands::K8sDeploy {
        manifest: "m.yaml".to_string(),
        namespace: None,
        context: None,
        dry_run: true,
        wait: true,
        timeout: 300,
    };
    let plan = apply.plan(&settings, false).unwrap();
    assert_eq!(
        args(run_command(plan.last().unwrap())),
        vec!["apply", "-f", "m.yaml", "--dry-run=client", "--wait", "--timeout", "45s"]
    );
}
