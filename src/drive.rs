//! Running a plan: what each step's outcome means for the operation, as a
//! function from step and outcome to the notes to show and whether to stop.
//! The caller performs each step (probing a file or a tool, asking the
//! operator, running a process, reading a file) and hands the outcome back.

use vstd::prelude::*;
use crate::classify::{
    count_markers, document_parts, first_bad_from, lemma_syntax_first_bad, marker_total,
    nonblank_positions, validate_syntax, verdict, verdict_of, Verdict,
};
use crate::command::{args_view, cmd, ExecutionResult};
use crate::config::text_opt;
use crate::outside::{lower_of, trim_text, trimmed, yaml_check, yaml_error};
use crate::plan::{lint_plan_spec, rollback_plan_spec, FileKind, Step, StepView, Task};
use crate::safety::{confirms, declined_message, reply_yes, ConfirmKind};
use crate::text::{contains, decimal, has_substring, occurs_at, render_decimal};

verus! {

/// What performing a step gave.
pub enum Outcome {
    /// A file or a tool was (or was not) found.
    Found(bool),
    /// The operator's reply line.
    Replied(String),
    /// The process ran to its end.
    Exited(ExecutionResult),
    /// The process could not be started.
    LaunchFailed(String),
    /// The file's text.
    Read(String),
    /// The file could not be read.
    ReadFailed(String),
}

/// What to show, and whether the operation stops with an error.
pub struct Next {
    pub notes: Vec<String>,
    pub error: Option<String>,
}

pub struct NextView {
    pub notes: Seq<Seq<char>>,
    pub error: Option<Seq<char>>,
}

impl View for Next {
    type V = NextView;

    open spec fn view(&self) -> NextView {
        NextView { notes: args_view(self.notes@), error: text_opt(self.error) }
    }
}

pub open spec fn go(notes: Seq<Seq<char>>) -> NextView {
    NextView { notes, error: None }
}

pub open spec fn halt(msg: Seq<char>) -> NextView {
    NextView { notes: seq![], error: Some(msg) }
}

/// A captured stream, empty when it was not captured.
pub open spec fn stream(o: Option<String>) -> Seq<char> {
    match o {
        Some(s) => s@,
        None => seq![],
    }
}

pub open spec fn missing_file_message(kind: FileKind, path: Seq<char>) -> Seq<char> {
    match kind {
        FileKind::Helmfile => "Helmfile not found: "@ + path,
        FileKind::Manifest => "Manifest not found: "@ + path,
    }
}

pub open spec fn missing_tool_message(tool: Seq<char>) -> Seq<char> {
    "Command '"@ + tool + "' not found. Please install "@ + tool
        + " and make sure it's in your PATH."@
}

pub open spec fn mismatch_message() -> Seq<char> {
    "The outcome does not fit the step"@
}

/// The message that a launch failure of `task` starts with.
pub open spec fn launch_prefix(task: Task) -> Seq<char> {
    match task {
        Task::SwitchContext => "Failed to set context: "@,
        Task::RepoUpdate => "Failed to update helm repositories: "@,
        Task::Lint { .. } => "Failed to execute helmfile: "@,
        Task::Render => "Failed to execute helmfile template: "@,
        Task::DiffPlugin => "Failed to check helm plugins: "@,
        Task::Sync => "Failed to execute helmfile: "@,
        Task::Apply => "Failed to execute kubectl: "@,
        Task::HelmRollback => "Failed to execute helm rollback: "@,
        Task::Destroy => "Failed to destroy releases: "@,
        Task::Redeploy => "Failed to redeploy: "@,
        Task::Status => "Failed to execute helmfile status: "@,
        Task::ListContexts => "Failed to get contexts: "@,
        Task::UseContext => "Failed to switch context: "@,
        Task::CurrentContext => "Failed to get current context: "@,
        Task::ServerInfo => "Failed to get cluster info: "@,
        Task::NamespaceInfo => "Failed to get namespace: "@,
        _ => "Failed to run command: "@,
    }
}

pub open spec fn launch_judgement(task: Task, subject: Seq<char>, e: Seq<char>) -> NextView {
    match task {
        Task::Detail => go(seq![]),
        Task::Connectivity => go(seq!["Connectivity: Connection failed"@]),
        Task::RepoAdd => halt("Failed to add helm repository "@ + subject + ": "@ + e),
        _ => halt(launch_prefix(task) + e),
    }
}

/// A process that exited unsuccessfully.
pub open spec fn failure_judgement(task: Task, subject: Seq<char>, err: Seq<char>, verbose: bool) -> NextView {
    match task {
        Task::SwitchContext => halt("Failed to switch to context: "@ + subject),
        Task::UseContext => halt("Failed to switch to context: "@ + subject),
        Task::RepoAdd => go(
            if verbose && !has_substring(err, "already exists"@) {
                seq!["Warning: Could not add repository "@ + subject + ": "@ + err]
            } else {
                seq![]
            },
        ),
        Task::RepoUpdate => halt("Failed to update helm repositories"@),
        Task::Lint { .. } => halt("Helmfile lint failed:\n"@ + err),
        Task::Render => halt("Template validation failed:\n"@ + err),
        Task::DiffPlugin => halt("Failed to check helm plugins"@),
        Task::Sync => halt("Helmfile operation failed"@),
        Task::Apply => halt("Kubernetes deployment failed"@),
        Task::HelmRollback => halt("Helm rollback failed"@),
        Task::Destroy => halt("Failed to destroy releases"@),
        Task::Redeploy => halt("Failed to redeploy releases"@),
        Task::Status => halt("Status check failed:\n"@ + err),
        Task::ListContexts => halt("Failed to list contexts:\n"@ + err),
        Task::CurrentContext => halt("Failed to get current context:\n"@ + err),
        Task::Connectivity => go(seq!["Connectivity: Connection failed"@]),
        _ => go(seq![]),
    }
}

pub open spec fn found_line(n: nat, what: Seq<char>) -> Seq<char> {
    "Found "@ + decimal(n) + what
}

/// Lint output classified by its ERROR and WARNING markers.
pub open spec fn lint_judgement(out: Seq<char>, err: Seq<char>, strict: bool, verbose: bool) -> NextView {
    let errors = marker_total(out, err, "ERROR"@);
    let warnings = marker_total(out, err, "WARNING"@);
    let shown = if verbose && out.len() > 0 {
        seq!["Output:\n"@ + out]
    } else {
        seq![]
    };
    match verdict_of(errors, warnings, strict) {
        Verdict::Fail => if errors > 0 {
            NextView {
                notes: seq![found_line(errors, " errors"@)],
                error: Some("Linting failed with errors"@),
            }
        } else {
            NextView {
                notes: seq![found_line(warnings, " warnings"@)],
                error: Some("Linting failed due to warnings in strict mode"@),
            }
        },
        Verdict::PassWithWarnings => go(seq![found_line(warnings, " warnings"@)] + shown),
        Verdict::Pass => go(shown),
    }
}

/// At most the first 500 characters.
pub open spec fn preview(out: Seq<char>) -> Seq<char> {
    if out.len() <= 500 {
        out
    } else {
        out.subrange(0, 500)
    }
}

/// Rendered output: a parse failure of the whole output is only a warning,
/// shown in verbose mode.
pub open spec fn render_judgement(out: Seq<char>, verbose: bool) -> NextView {
    if trimmed(out).len() == 0 {
        go(seq![])
    } else {
        match yaml_error(out) {
            None => go(seq!["Rendered templates are valid YAML"@]),
            Some(m) => if verbose {
                go(
                    seq![
                        "Warning: Rendered output may not be valid YAML: "@ + m,
                        "Output preview:\n"@ + preview(out),
                    ],
                )
            } else {
                go(seq![])
            },
        }
    }
}

pub open spec fn valid_document_lines(positions: Seq<int>) -> Seq<Seq<char>> {
    positions.map_values(|p: int| "Document "@ + decimal(p as nat) + " syntax is valid"@)
}

/// The syntax check of a file's text: the first malformed part stops the
/// operation, naming its 1-based position.
pub open spec fn syntax_judgement(content: Seq<char>) -> NextView {
    let parts = document_parts(content);
    match first_bad_from(parts, 0) {
        Some(k) => halt(
            "YAML syntax error in document "@ + decimal((k + 1) as nat) + ": "@ + yaml_error(
                trimmed(parts[k]),
            )->0,
        ),
        None => go(
            (if parts.len() > 1 {
                valid_document_lines(nonblank_positions(parts, parts.len()))
            } else {
                seq![]
            }).push("All YAML syntax is valid"@),
        ),
    }
}

pub open spec fn diff_missing_message() -> Seq<char> {
    "Helm diff plugin not installed. Install it with: helm plugin install https://github.com/databus23/helm-diff"@
}

/// A process that exited successfully.
pub open spec fn success_judgement(
    task: Task,
    subject: Seq<char>,
    out: Seq<char>,
    err: Seq<char>,
    verbose: bool,
) -> NextView {
    match task {
        Task::Lint { strict } => lint_judgement(out, err, strict, verbose),
        Task::Render => render_judgement(out, verbose),
        Task::DiffPlugin => if has_substring(out, "diff"@) {
            go(seq![])
        } else {
            halt(diff_missing_message())
        },
        Task::Status => go(seq![out]),
        Task::ListContexts => go(seq![out]),
        Task::UseContext => go(seq!["Switched to context: "@ + subject]),
        Task::CurrentContext => go(seq![trimmed(out)]),
        Task::ServerInfo => if out.len() > 0 {
            go(seq!["Server: "@ + trimmed(out)])
        } else {
            go(seq![])
        },
        Task::NamespaceInfo => if trimmed(out).len() > 0 {
            go(seq!["Namespace: "@ + trimmed(out)])
        } else {
            go(seq!["Namespace: default"@])
        },
        Task::Connectivity => go(seq!["Connectivity: Connected"@]),
        _ => go(seq![]),
    }
}

/// What the outcome of a step means.
pub open spec fn judge(step: StepView, outcome: Outcome, verbose: bool) -> NextView {
    match step {
        StepView::RequireFile(path, kind) => match outcome {
            Outcome::Found(true) => go(seq![]),
            Outcome::Found(false) => halt(missing_file_message(kind, path)),
            _ => halt(mismatch_message()),
        },
        StepView::RequireTool(tool) => match outcome {
            Outcome::Found(true) => go(seq![]),
            Outcome::Found(false) => halt(missing_tool_message(tool)),
            _ => halt(mismatch_message()),
        },
        StepView::Confirm(kind) => match outcome {
            Outcome::Replied(line) => if reply_yes(lower_of(trimmed(line@))) {
                go(seq![])
            } else {
                halt(declined_message(kind))
            },
            _ => halt(mismatch_message()),
        },
        StepView::CheckSyntax(_) => match outcome {
            Outcome::Read(content) => syntax_judgement(content@),
            Outcome::ReadFailed(e) => halt("Failed to read file: "@ + e@),
            _ => halt(mismatch_message()),
        },
        StepView::Run(_, task, subject) => match outcome {
            Outcome::LaunchFailed(e) => launch_judgement(task, subject, e@),
            Outcome::Exited(res) => if res.success {
                success_judgement(task, subject, stream(res.stdout), stream(res.stderr), verbose)
            } else {
                failure_judgement(task, subject, stream(res.stderr), verbose)
            },
            _ => halt(mismatch_message()),
        },
    }
}


fn cat2(a: &str, b: &str) -> (r: String)
    ensures
        r@ == a@ + b@,
{
    a.to_owned().concat(b)
}

fn cat3(a: &str, b: &str, c: &str) -> (r: String)
    ensures
        r@ == a@ + b@ + c@,
{
    a.to_owned().concat(b).concat(c)
}

fn proceed_with(notes: Vec<String>) -> (r: Next)
    ensures
        r@ == go(args_view(notes@)),
{
    Next { notes, error: None }
}

fn stop_with(msg: String) -> (r: Next)
    ensures
        r@ == halt(msg@),
{
    let r = Next { notes: Vec::new(), error: Some(msg) };
    assert(r@.notes =~= Seq::<Seq<char>>::empty());
    r
}

fn quiet() -> (r: Next)
    ensures
        r@ == go(seq![]),
{
    let r = Next { notes: Vec::new(), error: None };
    assert(r@.notes =~= Seq::<Seq<char>>::empty());
    r
}

fn one_note(s: String) -> (r: Next)
    ensures
        r@ == go(seq![s@]),
{
    let mut notes: Vec<String> = Vec::new();
    notes.push(s);
    let r = Next { notes, error: None };
    assert(r@.notes =~= seq![s@]);
    r
}

fn stream_text(o: &Option<String>) -> (r: &str)
    ensures
        r@ == stream(*o),
{
    match o {
        Some(s) => s.as_str(),
        None => {
            proof {
                reveal_strlit("");
            }
            ""
        },
    }
}

fn launch_prefix_text(task: Task) -> (r: &'static str)
    ensures
        r@ == launch_prefix(task),
{
    match task {
        Task::SwitchContext => "Failed to set context: ",
        Task::RepoUpdate => "Failed to update helm repositories: ",
        Task::Lint { .. } => "Failed to execute helmfile: ",
        Task::Render => "Failed to execute helmfile template: ",
        Task::DiffPlugin => "Failed to check helm plugins: ",
        Task::Sync => "Failed to execute helmfile: ",
        Task::Apply => "Failed to execute kubectl: ",
        Task::HelmRollback => "Failed to execute helm rollback: ",
        Task::Destroy => "Failed to destroy releases: ",
        Task::Redeploy => "Failed to redeploy: ",
        Task::Status => "Failed to execute helmfile status: ",
        Task::ListContexts => "Failed to get contexts: ",
        Task::UseContext => "Failed to switch context: ",
        Task::CurrentContext => "Failed to get current context: ",
        Task::ServerInfo => "Failed to get cluster info: ",
        Task::NamespaceInfo => "Failed to get namespace: ",
        _ => "Failed to run command: ",
    }
}

fn judge_launch(task: Task, subject: &str, e: &str) -> (r: Next)
    ensures
        r@ == launch_judgement(task, subject@, e@),
{
    match task {
        Task::Detail => quiet(),
        Task::Connectivity => one_note("Connectivity: Connection failed".to_owned()),
        Task::RepoAdd => {
            let head = cat3("Failed to add helm repository ", subject, ": ");
            stop_with(cat2(head.as_str(), e))
        },
        _ => stop_with(cat2(launch_prefix_text(task), e)),
    }
}

fn judge_failure(task: Task, subject: &str, err: &str, verbose: bool) -> (r: Next)
    ensures
        r@ == failure_judgement(task, subject@, err@, verbose),
{
    match task {
        Task::SwitchContext => stop_with(cat2("Failed to switch to context: ", subject)),
        Task::UseContext => stop_with(cat2("Failed to switch to context: ", subject)),
        Task::RepoAdd => {
            if verbose && !contains(err, "already exists") {
                let head = cat3("Warning: Could not add repository ", subject, ": ");
                one_note(cat2(head.as_str(), err))
            } else {
                quiet()
            }
        },
        Task::RepoUpdate => stop_with("Failed to update helm repositories".to_owned()),
        Task::Lint { .. } => stop_with(cat2("Helmfile lint failed:\n", err)),
        Task::Render => stop_with(cat2("Template validation failed:\n", err)),
        Task::DiffPlugin => stop_with("Failed to check helm plugins".to_owned()),
        Task::Sync => stop_with("Helmfile operation failed".to_owned()),
        Task::Apply => stop_with("Kubernetes deployment failed".to_owned()),
        Task::HelmRollback => stop_with("Helm rollback failed".to_owned()),
        Task::Destroy => stop_with("Failed to destroy releases".to_owned()),
        Task::Redeploy => stop_with("Failed to redeploy releases".to_owned()),
        Task::Status => stop_with(cat2("Status check failed:\n", err)),
        Task::ListContexts => stop_with(cat2("Failed to list contexts:\n", err)),
        Task::CurrentContext => stop_with(cat2("Failed to get current context:\n", err)),
        Task::Connectivity => one_note("Connectivity: Connection failed".to_owned()),
        _ => quiet(),
    }
}

fn found_text(n: usize, what: &str) -> (r: String)
    ensures
        r@ == found_line(n as nat, what@),
{
    let count = render_decimal(n as u64);
    cat3("Found ", count.as_str(), what)
}

fn judge_lint(out: &str, err: &str, strict: bool, verbose: bool) -> (r: Next)
    ensures
        r@ == lint_judgement(out@, err@, strict, verbose),
{
    let errors = count_markers(out, err, "ERROR");
    let warnings = count_markers(out, err, "WARNING");
    let show_output = verbose && !out.is_empty();
    match verdict(errors, warnings, strict) {
        Verdict::Fail => {
            let mut notes: Vec<String> = Vec::new();
            let msg;
            if errors > 0 {
                notes.push(found_text(errors, " errors"));
                msg = "Linting failed with errors".to_owned();
            } else {
                notes.push(found_text(warnings, " warnings"));
                msg = "Linting failed due to warnings in strict mode".to_owned();
            }
            let r = Next { notes, error: Some(msg) };
            assert(r@ == lint_judgement(out@, err@, strict, verbose)) by {
                assert(r@.notes =~= lint_judgement(out@, err@, strict, verbose).notes);
            }
            r
        },
        Verdict::PassWithWarnings => {
            let mut notes: Vec<String> = Vec::new();
            notes.push(found_text(warnings, " warnings"));
            if show_output {
                notes.push(cat2("Output:\n", out));
            }
            let r = proceed_with(notes);
            assert(r@ == lint_judgement(out@, err@, strict, verbose)) by {
                assert(r@.notes =~= lint_judgement(out@, err@, strict, verbose).notes);
            }
            r
        },
        Verdict::Pass => {
            if show_output {
                one_note(cat2("Output:\n", out))
            } else {
                quiet()
            }
        },
    }
}

fn preview_text(out: &str) -> (r: &str)
    ensures
        r@ == preview(out@),
{
    let n = out.unicode_len();
    if n <= 500 {
        out
    } else {
        out.substring_char(0, 500)
    }
}

fn judge_render(out: &str, verbose: bool) -> (r: Next)
    ensures
        r@ == render_judgement(out@, verbose),
{
    if trim_text(out).is_empty() {
        return quiet();
    }
    match yaml_check(out) {
        None => one_note("Rendered templates are valid YAML".to_owned()),
        Some(m) => {
            if verbose {
                let mut notes: Vec<String> = Vec::new();
                notes.push(cat2("Warning: Rendered output may not be valid YAML: ", m.as_str()));
                notes.push(cat2("Output preview:\n", preview_text(out)));
                let r = proceed_with(notes);
                assert(r@.notes =~= render_judgement(out@, verbose).notes);
                r
            } else {
                quiet()
            }
        },
    }
}

fn judge_syntax(content: &str) -> (r: Next)
    ensures
        r@ == syntax_judgement(content@),
{
    let result = validate_syntax(content);
    proof {
        lemma_syntax_first_bad(content@, result);
    }
    let ghost parts = document_parts(content@);
    match result {
        Err(e) => {
            let pos = render_decimal(e.part as u64);
            let head = cat3("YAML syntax error in document ", pos.as_str(), ": ");
            stop_with(cat2(head.as_str(), e.message.as_str()))
        },
        Ok(rep) => {
            let ghost positions = nonblank_positions(parts, parts.len());
            let mut notes: Vec<String> = Vec::new();
            if rep.parts > 1 {
                let mut i: usize = 0;
                while i < rep.checked.len()
                    invariant
                        i <= rep.checked@.len(),
                        rep.checked@.map_values(|x: usize| x as int) == positions,
                        args_view(notes@) == valid_document_lines(positions.subrange(0, i as int)),
                    decreases rep.checked@.len() - i,
                {
                    let p = rep.checked[i];
                    assert(positions[i as int] == p as int);
                    let pos = render_decimal(p as u64);
                    let line = cat3("Document ", pos.as_str(), " syntax is valid");
                    let ghost prev = positions.subrange(0, i as int);
                    assert(positions.subrange(0, i + 1) =~= prev.push(p as int));
                    assert(valid_document_lines(prev.push(p as int)) =~= valid_document_lines(
                        prev,
                    ).push(line@));
                    let ghost before_push = notes@;
                    let ghost line_v = line@;
                    notes.push(line);
                    assert(args_view(notes@) =~= args_view(before_push).push(line_v));
                    i = i + 1;
                }
                assert(positions.subrange(0, rep.checked@.len() as int) =~= positions);
            }
            let ghost before = args_view(notes@);
            assert(before =~= (if parts.len() > 1 {
                valid_document_lines(nonblank_positions(parts, parts.len()))
            } else {
                seq![]
            }));
            notes.push("All YAML syntax is valid".to_owned());
            let r = proceed_with(notes);
            assert(r@.notes =~= syntax_judgement(content@).notes);
            r
        },
    }
}

fn judge_success(task: Task, subject: &str, out: &str, err: &str, verbose: bool) -> (r: Next)
    ensures
        r@ == success_judgement(task, subject@, out@, err@, verbose),
{
    match task {
        Task::Lint { strict } => judge_lint(out, err, strict, verbose),
        Task::Render => judge_render(out, verbose),
        Task::DiffPlugin => {
            if contains(out, "diff") {
                quiet()
            } else {
                stop_with(
                    "Helm diff plugin not installed. Install it with: helm plugin install https://github.com/databus23/helm-diff".to_owned(),
                )
            }
        },
        Task::Status => one_note(out.to_owned()),
        Task::ListContexts => one_note(out.to_owned()),
        Task::UseContext => one_note(cat2("Switched to context: ", subject)),
        Task::CurrentContext => one_note(trim_text(out).to_owned()),
        Task::ServerInfo => {
            if out.is_empty() {
                quiet()
            } else {
                one_note(cat2("Server: ", trim_text(out)))
            }
        },
        Task::NamespaceInfo => {
            let ns = trim_text(out);
            if ns.is_empty() {
                one_note("Namespace: default".to_owned())
            } else {
                one_note(cat2("Namespace: ", ns))
            }
        },
        Task::Connectivity => one_note("Connectivity: Connected".to_owned()),
        _ => quiet(),
    }
}

/// Judges the outcome of performing `step`: the notes to show, and the
/// error that ends the operation, if any.
pub fn advance(step: &Step, outcome: Outcome, verbose: bool) -> (r: Next)
    ensures
        r@ == judge(step@, outcome, verbose),
{
    match step {
        Step::RequireFile { path, kind } => match outcome {
            Outcome::Found(true) => quiet(),
            Outcome::Found(false) => match kind {
                FileKind::Helmfile => stop_with(cat2("Helmfile not found: ", path.as_str())),
                FileKind::Manifest => stop_with(cat2("Manifest not found: ", path.as_str())),
            },
            _ => stop_with("The outcome does not fit the step".to_owned()),
        },
        Step::RequireTool { tool } => match outcome {
            Outcome::Found(true) => quiet(),
            Outcome::Found(false) => {
                let head = cat3("Command '", tool.as_str(), "' not found. Please install ");
                stop_with(cat3(head.as_str(), tool.as_str(), " and make sure it's in your PATH."))
            },
            _ => stop_with("The outcome does not fit the step".to_owned()),
        },
        Step::Confirm { reason } => match outcome {
            Outcome::Replied(line) => {
                if confirms(line.as_str()) {
                    quiet()
                } else {
                    stop_with(reason.declined())
                }
            },
            _ => stop_with("The outcome does not fit the step".to_owned()),
        },
        Step::CheckSyntax { .. } => match outcome {
            Outcome::Read(content) => judge_syntax(content.as_str()),
            Outcome::ReadFailed(e) => stop_with(cat2("Failed to read file: ", e.as_str())),
            _ => stop_with("The outcome does not fit the step".to_owned()),
        },
        Step::Run { task, subject, .. } => match outcome {
            Outcome::LaunchFailed(e) => judge_launch(*task, subject.as_str(), e.as_str()),
            Outcome::Exited(res) => {
                if res.success {
                    judge_success(
                        *task,
                        subject.as_str(),
                        stream_text(&res.stdout),
                        stream_text(&res.stderr),
                        verbose,
                    )
                } else {
                    judge_failure(*task, subject.as_str(), stream_text(&res.stderr), verbose)
                }
            },
            _ => stop_with("The outcome does not fit the step".to_owned()),
        },
    }
}


/// How many steps of `plan` a run performs from step `i` on, when step `j`
/// has outcome `outcomes[j]`: every step up to and including the first whose
/// judgement is an error.
pub open spec fn steps_run(plan: Seq<StepView>, outcomes: Seq<Outcome>, verbose: bool, i: nat) -> nat
    decreases plan.len() - i,
{
    if i >= plan.len() || i >= outcomes.len() {
        i
    } else if judge(plan[i as int], outcomes[i as int], verbose).error is Some {
        i + 1
    } else {
        steps_run(plan, outcomes, verbose, i + 1)
    }
}

/// A step judged an error ends the run there at the latest; when no earlier
/// step fails, the run ends exactly there.
pub proof fn lemma_run_stops_at(
    plan: Seq<StepView>,
    outcomes: Seq<Outcome>,
    verbose: bool,
    i: nat,
    k: nat,
)
    requires
        i <= k < plan.len(),
        k < outcomes.len(),
        judge(plan[k as int], outcomes[k as int], verbose).error is Some,
    ensures
        i <= steps_run(plan, outcomes, verbose, i) <= k + 1,
        (forall|j: int|
            i <= j < k ==> (#[trigger] judge(plan[j], outcomes[j], verbose)).error is None)
            ==> steps_run(plan, outcomes, verbose, i) == k + 1,
    decreases k - i,
{
    if i < k {
        lemma_run_stops_at(plan, outcomes, verbose, i + 1, k);
    }
}

/// Lint against a missing file: the file check is the first step, and a
/// missing file stops the run there with a "not found" error, so no tool
/// availability check is ever made.
pub proof fn lemma_lint_missing_file_stops_first(
    file: Seq<char>,
    env: Option<Seq<char>>,
    strict: bool,
    template_only: bool,
    verbose: bool,
    outcomes: Seq<Outcome>,
)
    requires
        outcomes.len() > 0,
        outcomes[0] == Outcome::Found(false),
    ensures
        ({
            let plan = lint_plan_spec(file, env, strict, template_only, verbose);
            &&& plan[0] == StepView::RequireFile(file, FileKind::Helmfile)
            &&& steps_run(plan, outcomes, verbose, 0) == 1
            &&& judge(plan[0], outcomes[0], verbose).error matches Some(m) && has_substring(
                m,
                "not found"@,
            )
        }),
{
    let plan = lint_plan_spec(file, env, strict, template_only, verbose);
    assert(plan[0] == StepView::RequireFile(file, FileKind::Helmfile));
    let m = missing_file_message(FileKind::Helmfile, file);
    reveal_strlit("Helmfile not found: ");
    reveal_strlit("not found");
    assert(m.subrange(9, 18) =~= "not found"@);
    assert(occurs_at(m, "not found"@, 9));
}

/// The step runs the tool `tool`.
pub open spec fn invokes(step: StepView, tool: Seq<char>) -> bool {
    match step {
        StepView::Run(c, _, _) => c.tool == tool,
        _ => false,
    }
}

/// Where the confirmation stands in a rollback plan.
pub open spec fn rollback_confirm_index(context: Option<Seq<char>>) -> nat {
    if context is Some {
        4
    } else {
        3
    }
}

/// Rolling a named release back to a revision: the confirmation comes before
/// any package-manager invocation, and a reply that does not confirm ends
/// the run there, so the package manager is never invoked; when every
/// earlier step passes, the run ends with the cancellation message.
pub proof fn lemma_declined_rollback_never_invokes_helm(
    file: Seq<char>,
    env: Option<Seq<char>>,
    release: Seq<char>,
    revision: u32,
    context: Option<Seq<char>>,
    verbose: bool,
    outcomes: Seq<Outcome>,
    reply: String,
)
    requires
        outcomes.len() > rollback_confirm_index(context),
        outcomes[rollback_confirm_index(context) as int] == Outcome::Replied(reply),
        !reply_yes(lower_of(trimmed(reply@))),
    ensures
        ({
            let plan = rollback_plan_spec(file, env, Some(release), Some(revision), context);
            let k = rollback_confirm_index(context);
            let n = steps_run(plan, outcomes, verbose, 0);
            &&& plan[k as int] == StepView::Confirm(ConfirmKind::Rollback)
            &&& n <= k + 1
            &&& forall|i: int| 0 <= i < n ==> !invokes(#[trigger] plan[i], "helm"@)
            &&& (forall|j: int|
                0 <= j < k ==> (#[trigger] judge(plan[j], outcomes[j], verbose)).error is None)
                ==> n == k + 1 && judge(plan[k as int], outcomes[k as int], verbose).error == Some(
                "Rollback cancelled by user"@,
            )
        }),
{
    let plan = rollback_plan_spec(file, env, Some(release), Some(revision), context);
    let k = rollback_confirm_index(context);
    assert(plan[k as int] == StepView::Confirm(ConfirmKind::Rollback));
    lemma_run_stops_at(plan, outcomes, verbose, 0, k);
    reveal_strlit("helm");
    reveal_strlit("kubectl");
    assert forall|i: int| 0 <= i <= k implies !invokes(#[trigger] plan[i], "helm"@) by {
        if i == 3 && context is Some {
            assert(plan[i] == StepView::Run(
                cmd("kubectl"@, seq!["config"@, "use-context"@, context->0], false),
                Task::SwitchContext,
                context->0,
            ));
            assert("kubectl"@ != "helm"@) by {
                assert("kubectl"@.len() != "helm"@.len());
            }
        }
    }
}

} // verus!
