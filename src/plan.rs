//! Per-verb workflows as plans: the ordered steps that each operation takes,
//! from preconditions through confirmation to the tool invocations.

use vstd::prelude::*;
use crate::command::{
    apply_command, apply_spec, cluster_query_command, cluster_query_spec, cmd, fixed_command,
    helm_rollback_command, helm_rollback_spec, lint_command, lint_spec, opt_view, render_command,
    render_spec, selected_command, selected_spec, sync_command, sync_spec, CommandSpec,
    CommandView,
};
use crate::config::{seed_repositories, repos_view, seed_repositories_view};
use crate::safety::{is_production_sensitive, production_sensitive, ConfirmKind};

verus! {

/// What a precondition file is.
#[derive(PartialEq, Eq, Structural, Clone, Copy, Debug)]
pub enum FileKind {
    Helmfile,
    Manifest,
}

/// What an invocation is for; it decides how the outcome is judged.
#[derive(PartialEq, Eq, Structural, Clone, Copy, Debug)]
pub enum Task {
    SwitchContext,
    RepoAdd,
    RepoUpdate,
    Lint { strict: bool },
    Render,
    DiffPlugin,
    Sync,
    Apply,
    HelmRollback,
    Destroy,
    Redeploy,
    Status,
    Detail,
    ListContexts,
    UseContext,
    CurrentContext,
    ServerInfo,
    NamespaceInfo,
    Connectivity,
}

/// One step of an operation.
pub enum Step {
    /// The file must exist.
    RequireFile { path: String, kind: FileKind },
    /// The executable must resolve on the search path.
    RequireTool { tool: String },
    /// The operator must confirm.
    Confirm { reason: ConfirmKind },
    /// Run a tool; `subject` names what the run is about (a repository or a
    /// context) for its messages.
    Run { command: CommandSpec, task: Task, subject: String },
    /// Read the file and check each `---` part as YAML.
    CheckSyntax { path: String },
}

/// A step as values.
pub enum StepView {
    RequireFile(Seq<char>, FileKind),
    RequireTool(Seq<char>),
    Confirm(ConfirmKind),
    Run(CommandView, Task, Seq<char>),
    CheckSyntax(Seq<char>),
}

impl View for Step {
    type V = StepView;

    open spec fn view(&self) -> StepView {
        match self {
            Step::RequireFile { path, kind } => StepView::RequireFile(path@, *kind),
            Step::RequireTool { tool } => StepView::RequireTool(tool@),
            Step::Confirm { reason } => StepView::Confirm(*reason),
            Step::Run { command, task, subject } => StepView::Run(command@, *task, subject@),
            Step::CheckSyntax { path } => StepView::CheckSyntax(path@),
        }
    }
}

pub open spec fn plan_view(v: Seq<Step>) -> Seq<StepView> {
    v.map_values(|s: Step| s@)
}

pub open spec fn run(c: CommandView, task: Task) -> StepView {
    StepView::Run(c, task, seq![])
}

/// Switching the active cluster context first, when one is given.
pub open spec fn switch_steps(context: Option<Seq<char>>) -> Seq<StepView> {
    match context {
        Some(c) => seq![
            StepView::Run(
                cmd("kubectl"@, seq!["config"@, "use-context"@, c], false),
                Task::SwitchContext,
                c,
            ),
        ],
        None => seq![],
    }
}

pub open spec fn repo_add_step(repo: (Seq<char>, Seq<char>)) -> StepView {
    StepView::Run(
        cmd("helm"@, seq!["repo"@, "add"@, repo.0, repo.1], true),
        Task::RepoAdd,
        repo.0,
    )
}

/// Priming the package manager: add each seed repository, then update the
/// index (quietly unless verbose).
pub open spec fn refresh_steps(verbose: bool) -> Seq<StepView> {
    seq![
        repo_add_step(seed_repositories_view()[0]),
        repo_add_step(seed_repositories_view()[1]),
        run(cmd("helm"@, seq!["repo"@, "update"@], !verbose), Task::RepoUpdate),
    ]
}

pub open spec fn helmfile_preconditions(file: Seq<char>) -> Seq<StepView> {
    seq![
        StepView::RequireFile(file, FileKind::Helmfile),
        StepView::RequireTool("helmfile"@),
        StepView::RequireTool("helm"@),
    ]
}

pub open spec fn lint_plan_spec(
    file: Seq<char>,
    env: Option<Seq<char>>,
    strict: bool,
    template_only: bool,
    verbose: bool,
) -> Seq<StepView> {
    helmfile_preconditions(file) + (if template_only {
        seq![]
    } else {
        refresh_steps(verbose)
    }) + seq![run(lint_spec(file, env, template_only), Task::Lint { strict })]
}

pub open spec fn deploy_plan_spec(
    file: Seq<char>,
    env: Option<Seq<char>>,
    dry_run: bool,
    diff: bool,
    skip_deps: bool,
    concurrency: u8,
    context: Option<Seq<char>>,
    verbose: bool,
) -> Seq<StepView> {
    helmfile_preconditions(file) + switch_steps(context) + refresh_steps(verbose) + (if diff {
        seq![run(cmd("helm"@, seq!["plugin"@, "list"@], true), Task::DiffPlugin)]
    } else {
        seq![]
    }) + (if !dry_run && !diff && production_sensitive(env, context) {
        seq![StepView::Confirm(ConfirmKind::Production)]
    } else {
        seq![]
    }) + seq![run(sync_spec(file, env, dry_run, diff, skip_deps, concurrency), Task::Sync)]
}

pub open spec fn apply_plan_spec(
    manifest: Seq<char>,
    namespace: Option<Seq<char>>,
    context: Option<Seq<char>>,
    dry_run: bool,
    wait: bool,
    timeout: u32,
) -> Seq<StepView> {
    seq![StepView::RequireFile(manifest, FileKind::Manifest), StepView::RequireTool("kubectl"@)]
        + switch_steps(context) + (if !dry_run && production_sensitive(None, context) {
        seq![StepView::Confirm(ConfirmKind::Production)]
    } else {
        seq![]
    }) + seq![run(apply_spec(manifest, namespace, dry_run, wait, timeout), Task::Apply)]
}

/// The rollback itself: straight to a revision through the package manager
/// when both a release and a revision are named, otherwise destroy and
/// redeploy the selected releases.
pub open spec fn rollback_steps(
    file: Seq<char>,
    env: Option<Seq<char>>,
    release: Option<Seq<char>>,
    revision: Option<u32>,
) -> Seq<StepView> {
    match (release, revision) {
        (Some(r), Some(v)) => seq![
            StepView::Run(helm_rollback_spec(r, v), Task::HelmRollback, r),
        ],
        _ => seq![
            run(selected_spec(file, env, release, "destroy"@, false), Task::Destroy),
            run(selected_spec(file, env, release, "sync"@, false), Task::Redeploy),
        ],
    }
}

pub open spec fn rollback_plan_spec(
    file: Seq<char>,
    env: Option<Seq<char>>,
    release: Option<Seq<char>>,
    revision: Option<u32>,
    context: Option<Seq<char>>,
) -> Seq<StepView> {
    helmfile_preconditions(file) + switch_steps(context) + seq![
        StepView::Confirm(ConfirmKind::Rollback),
    ] + rollback_steps(file, env, release, revision)
}

pub open spec fn status_plan_spec(
    file: Seq<char>,
    env: Option<Seq<char>>,
    release: Option<Seq<char>>,
    context: Option<Seq<char>>,
    detailed: bool,
) -> Seq<StepView> {
    seq![StepView::RequireFile(file, FileKind::Helmfile), StepView::RequireTool("helmfile"@)]
        + switch_steps(context) + seq![
        run(selected_spec(file, env, release, "status"@, true), Task::Status),
    ] + (if detailed {
        seq![
            run(cluster_query_spec("all"@, env), Task::Detail),
            run(cluster_query_spec("pods"@, env), Task::Detail),
        ]
    } else {
        seq![]
    })
}

pub open spec fn validate_plan_spec(
    file: Seq<char>,
    env: Option<Seq<char>>,
    syntax_only: bool,
) -> Seq<StepView> {
    seq![StepView::RequireFile(file, FileKind::Helmfile)] + if syntax_only {
        seq![StepView::CheckSyntax(file)]
    } else {
        seq![StepView::RequireTool("helmfile"@), run(render_spec(file, env), Task::Render)]
    }
}

/// The details shown after selecting or showing a context.
pub open spec fn context_info_steps() -> Seq<StepView> {
    seq![
        run(
            cmd(
                "kubectl"@,
                seq![
                    "config"@,
                    "view"@,
                    "--minify"@,
                    "--output"@,
                    "jsonpath={.clusters[0].cluster.server}"@,
                ],
                true,
            ),
            Task::ServerInfo,
        ),
        run(
            cmd(
                "kubectl"@,
                seq![
                    "config"@,
                    "view"@,
                    "--minify"@,
                    "--output"@,
                    "jsonpath={.contexts[0].context.namespace}"@,
                ],
                true,
            ),
            Task::NamespaceInfo,
        ),
        run(cmd("kubectl"@, seq!["cluster-info"@, "--request-timeout=5s"@], true), Task::Connectivity),
    ]
}

pub open spec fn list_contexts_plan_spec() -> Seq<StepView> {
    seq![
        StepView::RequireTool("kubectl"@),
        run(cmd("kubectl"@, seq!["config"@, "get-contexts"@], true), Task::ListContexts),
    ]
}

pub open spec fn use_context_plan_spec(context: Seq<char>) -> Seq<StepView> {
    seq![
        StepView::RequireTool("kubectl"@),
        StepView::Run(
            cmd("kubectl"@, seq!["config"@, "use-context"@, context], false),
            Task::UseContext,
            context,
        ),
    ] + context_info_steps()
}

pub open spec fn current_context_plan_spec() -> Seq<StepView> {
    seq![
        StepView::RequireTool("kubectl"@),
        run(cmd("kubectl"@, seq!["config"@, "current-context"@], true), Task::CurrentContext),
    ] + context_info_steps()
}


fn push_step(plan: &mut Vec<Step>, s: Step)
    ensures
        plan_view(final(plan)@) == plan_view(old(plan)@).push(s@),
{
    let ghost v = s@;
    plan.push(s);
    assert(plan_view(final(plan)@) =~= plan_view(old(plan)@).push(v));
}

fn push_run(plan: &mut Vec<Step>, command: CommandSpec, task: Task)
    ensures
        plan_view(final(plan)@) == plan_view(old(plan)@).push(run(command@, task)),
{
    let subject = String::new();
    assert(subject@ =~= Seq::<char>::empty());
    push_step(plan, Step::Run { command, task, subject });
}

fn push_tool(plan: &mut Vec<Step>, tool: &str)
    ensures
        plan_view(final(plan)@) == plan_view(old(plan)@).push(StepView::RequireTool(tool@)),
{
    push_step(plan, Step::RequireTool { tool: tool.to_owned() });
}

fn push_switch(plan: &mut Vec<Step>, context: Option<&str>)
    ensures
        plan_view(final(plan)@) == plan_view(old(plan)@) + switch_steps(opt_view(context)),
{
    match context {
        Some(c) => {
            let words = vec!["config", "use-context", c];
            let command = fixed_command("kubectl", &words, false);
            assert(words@.map_values(|w: &str| w@) =~= seq!["config"@, "use-context"@, c@]);
            push_step(plan, Step::Run { command, task: Task::SwitchContext, subject: c.to_owned() });
            assert(plan_view(final(plan)@) =~= plan_view(old(plan)@) + switch_steps(opt_view(context)));
        },
        None => {
            assert(plan_view(final(plan)@) =~= plan_view(old(plan)@) + switch_steps(opt_view(context)));
        },
    }
}

fn push_refresh(plan: &mut Vec<Step>, verbose: bool)
    ensures
        plan_view(final(plan)@) == plan_view(old(plan)@) + refresh_steps(verbose),
{
    let repos = seed_repositories();
    assert(repos@.len() == 2) by {
        assert(repos_view(repos@).len() == 2);
    }
    let mut i: usize = 0;
    while i < repos.len()
        invariant
            repos_view(repos@) == seed_repositories_view(),
            repos@.len() == 2,
            i <= 2,
            plan_view(plan@) == plan_view(old(plan)@) + refresh_steps(verbose).subrange(0, i as int),
        decreases 2 - i,
    {
        let name = repos[i].name.as_str();
        let url = repos[i].url.as_str();
        assert(repos_view(repos@)[i as int] == repos@[i as int]@);
        let words = vec!["repo", "add", name, url];
        let command = fixed_command("helm", &words, true);
        assert(words@.map_values(|w: &str| w@) =~= seq!["repo"@, "add"@, name@, url@]);
        push_step(plan, Step::Run { command, task: Task::RepoAdd, subject: name.to_owned() });
        assert(refresh_steps(verbose).subrange(0, i + 1) =~= refresh_steps(verbose).subrange(
            0,
            i as int,
        ).push(repo_add_step(seed_repositories_view()[i as int])));
        i = i + 1;
    }
    let words = vec!["repo", "update"];
    let command = fixed_command("helm", &words, !verbose);
    assert(words@.map_values(|w: &str| w@) =~= seq!["repo"@, "update"@]);
    push_run(plan, command, Task::RepoUpdate);
    assert(plan_view(plan@) =~= plan_view(old(plan)@) + refresh_steps(verbose));
}

fn push_helmfile_preconditions(plan: &mut Vec<Step>, file: &str)
    ensures
        plan_view(final(plan)@) == plan_view(old(plan)@) + helmfile_preconditions(file@),
{
    push_step(plan, Step::RequireFile { path: file.to_owned(), kind: FileKind::Helmfile });
    push_tool(plan, "helmfile");
    push_tool(plan, "helm");
    assert(plan_view(plan@) =~= plan_view(old(plan)@) + helmfile_preconditions(file@));
}

/// Lint: the file and both tools must be there; unless only templates are
/// rendered the repositories are refreshed first; then the captured lint.
pub fn lint_plan(
    file: &str,
    env: Option<&str>,
    strict: bool,
    template_only: bool,
    verbose: bool,
) -> (r: Vec<Step>)
    ensures
        plan_view(r@) == lint_plan_spec(file@, opt_view(env), strict, template_only, verbose),
{
    let mut plan: Vec<Step> = Vec::new();
    push_helmfile_preconditions(&mut plan, file);
    let ghost steps_so_far = plan_view(plan@);
    if !template_only {
        push_refresh(&mut plan, verbose);
    }
    assert(plan_view(plan@) =~= steps_so_far + (if template_only {
        seq![]
    } else {
        refresh_steps(verbose)
    }));
    push_run(&mut plan, lint_command(file, env, template_only), Task::Lint { strict });
    assert(plan_view(plan@) =~= lint_plan_spec(file@, opt_view(env), strict, template_only, verbose));
    plan
}


/// Deploy: preconditions, optional context switch, repository refresh, the
/// diff plugin check for a diff preview, confirmation when a real sync
/// targets a production-sensitive environment or context, then the sync.
pub fn deploy_plan(
    file: &str,
    env: Option<&str>,
    dry_run: bool,
    diff: bool,
    skip_deps: bool,
    concurrency: u8,
    context: Option<&str>,
    verbose: bool,
) -> (r: Vec<Step>)
    ensures
        plan_view(r@) == deploy_plan_spec(
            file@,
            opt_view(env),
            dry_run,
            diff,
            skip_deps,
            concurrency,
            opt_view(context),
            verbose,
        ),
{
    let mut plan: Vec<Step> = Vec::new();
    push_helmfile_preconditions(&mut plan, file);
    push_switch(&mut plan, context);
    push_refresh(&mut plan, verbose);
    let ghost steps_so_far = plan_view(plan@);
    if diff {
        let words = vec!["plugin", "list"];
        let command = fixed_command("helm", &words, true);
        assert(words@.map_values(|w: &str| w@) =~= seq!["plugin"@, "list"@]);
        push_run(&mut plan, command, Task::DiffPlugin);
    }
    let ghost steps_checked = plan_view(plan@);
    assert(steps_checked =~= steps_so_far + (if diff {
        seq![run(cmd("helm"@, seq!["plugin"@, "list"@], true), Task::DiffPlugin)]
    } else {
        seq![]
    }));
    if !dry_run && !diff && is_production_sensitive(env, context) {
        push_step(&mut plan, Step::Confirm { reason: ConfirmKind::Production });
    }
    let ghost steps_gated = plan_view(plan@);
    assert(steps_gated =~= steps_checked + (if !dry_run && !diff && production_sensitive(
        opt_view(env),
        opt_view(context),
    ) {
        seq![StepView::Confirm(ConfirmKind::Production)]
    } else {
        seq![]
    }));
    push_run(
        &mut plan,
        sync_command(file, env, dry_run, diff, skip_deps, concurrency),
        Task::Sync,
    );
    assert(plan_view(plan@) =~= deploy_plan_spec(
        file@,
        opt_view(env),
        dry_run,
        diff,
        skip_deps,
        concurrency,
        opt_view(context),
        verbose,
    ));
    plan
}

/// Direct manifest apply: the manifest and the cluster tool must be there;
/// optional context switch; confirmation unless a dry run when the context
/// is production-sensitive; then the apply.
pub fn apply_plan(
    manifest: &str,
    namespace: Option<&str>,
    context: Option<&str>,
    dry_run: bool,
    wait: bool,
    timeout: u32,
) -> (r: Vec<Step>)
    ensures
        plan_view(r@) == apply_plan_spec(
            manifest@,
            opt_view(namespace),
            opt_view(context),
            dry_run,
            wait,
            timeout,
        ),
{
    let mut plan: Vec<Step> = Vec::new();
    push_step(&mut plan, Step::RequireFile { path: manifest.to_owned(), kind: FileKind::Manifest });
    push_tool(&mut plan, "kubectl");
    push_switch(&mut plan, context);
    let ghost steps_so_far = plan_view(plan@);
    if !dry_run && is_production_sensitive(None, context) {
        push_step(&mut plan, Step::Confirm { reason: ConfirmKind::Production });
    }
    assert(plan_view(plan@) =~= steps_so_far + (if !dry_run && production_sensitive(None, opt_view(context)) {
        seq![StepView::Confirm(ConfirmKind::Production)]
    } else {
        seq![]
    }));
    push_run(&mut plan, apply_command(manifest, namespace, dry_run, wait, timeout), Task::Apply);
    assert(plan_view(plan@) =~= apply_plan_spec(
        manifest@,
        opt_view(namespace),
        opt_view(context),
        dry_run,
        wait,
        timeout,
    ));
    plan
}

/// Rollback: preconditions, optional context switch, an unconditional
/// confirmation, then the rollback itself.
pub fn rollback_plan(
    file: &str,
    env: Option<&str>,
    release: Option<&str>,
    revision: Option<u32>,
    context: Option<&str>,
) -> (r: Vec<Step>)
    ensures
        plan_view(r@) == rollback_plan_spec(
            file@,
            opt_view(env),
            opt_view(release),
            revision,
            opt_view(context),
        ),
{
    let mut plan: Vec<Step> = Vec::new();
    push_helmfile_preconditions(&mut plan, file);
    push_switch(&mut plan, context);
    push_step(&mut plan, Step::Confirm { reason: ConfirmKind::Rollback });
    let ghost steps_so_far = plan_view(plan@);
    match (release, revision) {
        (Some(rel), Some(rev)) => {
            push_step(
                &mut plan,
                Step::Run {
                    command: helm_rollback_command(rel, rev),
                    task: Task::HelmRollback,
                    subject: rel.to_owned(),
                },
            );
        },
        _ => {
            push_run(&mut plan, selected_command(file, env, release, "destroy", false), Task::Destroy);
            push_run(&mut plan, selected_command(file, env, release, "sync", false), Task::Redeploy);
        },
    }
    assert(plan_view(plan@) =~= steps_so_far + rollback_steps(
        file@,
        opt_view(env),
        opt_view(release),
        revision,
    ));
    assert(plan_view(plan@) =~= rollback_plan_spec(
        file@,
        opt_view(env),
        opt_view(release),
        revision,
        opt_view(context),
    ));
    plan
}

/// Status: the file and the orchestrator must be there; optional context
/// switch; the captured status; with `detailed`, two best-effort cluster
/// listings scoped to the environment's namespace.
pub fn status_plan(
    file: &str,
    env: Option<&str>,
    release: Option<&str>,
    context: Option<&str>,
    detailed: bool,
) -> (r: Vec<Step>)
    ensures
        plan_view(r@) == status_plan_spec(
            file@,
            opt_view(env),
            opt_view(release),
            opt_view(context),
            detailed,
        ),
{
    let mut plan: Vec<Step> = Vec::new();
    push_step(&mut plan, Step::RequireFile { path: file.to_owned(), kind: FileKind::Helmfile });
    push_tool(&mut plan, "helmfile");
    push_switch(&mut plan, context);
    push_run(&mut plan, selected_command(file, env, release, "status", true), Task::Status);
    let ghost steps_so_far = plan_view(plan@);
    if detailed {
        push_run(&mut plan, cluster_query_command("all", env), Task::Detail);
        push_run(&mut plan, cluster_query_command("pods", env), Task::Detail);
    }
    assert(plan_view(plan@) =~= steps_so_far + (if detailed {
        seq![
            run(cluster_query_spec("all"@, opt_view(env)), Task::Detail),
            run(cluster_query_spec("pods"@, opt_view(env)), Task::Detail),
        ]
    } else {
        seq![]
    }));
    assert(plan_view(plan@) =~= status_plan_spec(
        file@,
        opt_view(env),
        opt_view(release),
        opt_view(context),
        detailed,
    ));
    plan
}

/// Validate: the file must exist; then either a syntax check of its parts,
/// or a captured render through the orchestrator.
pub fn validate_plan(file: &str, env: Option<&str>, syntax_only: bool) -> (r: Vec<Step>)
    ensures
        plan_view(r@) == validate_plan_spec(file@, opt_view(env), syntax_only),
{
    let mut plan: Vec<Step> = Vec::new();
    push_step(&mut plan, Step::RequireFile { path: file.to_owned(), kind: FileKind::Helmfile });
    if syntax_only {
        push_step(&mut plan, Step::CheckSyntax { path: file.to_owned() });
    } else {
        push_tool(&mut plan, "helmfile");
        push_run(&mut plan, render_command(file, env), Task::Render);
    }
    assert(plan_view(plan@) =~= validate_plan_spec(file@, opt_view(env), syntax_only));
    plan
}

fn push_context_info(plan: &mut Vec<Step>)
    ensures
        plan_view(final(plan)@) == plan_view(old(plan)@) + context_info_steps(),
{
    let server_query = vec!["config", "view", "--minify", "--output", "jsonpath={.clusters[0].cluster.server}"];
    assert(server_query@.map_values(|w: &str| w@) =~= seq![
        "config"@,
        "view"@,
        "--minify"@,
        "--output"@,
        "jsonpath={.clusters[0].cluster.server}"@,
    ]);
    push_run(plan, fixed_command("kubectl", &server_query, true), Task::ServerInfo);
    let namespace_query = vec![
        "config",
        "view",
        "--minify",
        "--output",
        "jsonpath={.contexts[0].context.namespace}",
    ];
    assert(namespace_query@.map_values(|w: &str| w@) =~= seq![
        "config"@,
        "view"@,
        "--minify"@,
        "--output"@,
        "jsonpath={.contexts[0].context.namespace}"@,
    ]);
    push_run(plan, fixed_command("kubectl", &namespace_query, true), Task::NamespaceInfo);
    let reachability = vec!["cluster-info", "--request-timeout=5s"];
    assert(reachability@.map_values(|w: &str| w@) =~= seq!["cluster-info"@, "--request-timeout=5s"@]);
    push_run(plan, fixed_command("kubectl", &reachability, true), Task::Connectivity);
    assert(plan_view(plan@) =~= plan_view(old(plan)@) + context_info_steps());
}

/// Lists the cluster contexts.
pub fn list_contexts_plan() -> (r: Vec<Step>)
    ensures
        plan_view(r@) == list_contexts_plan_spec(),
{
    let mut plan: Vec<Step> = Vec::new();
    push_tool(&mut plan, "kubectl");
    let words = vec!["config", "get-contexts"];
    assert(words@.map_values(|w: &str| w@) =~= seq!["config"@, "get-contexts"@]);
    push_run(&mut plan, fixed_command("kubectl", &words, true), Task::ListContexts);
    assert(plan_view(plan@) =~= list_contexts_plan_spec());
    plan
}

/// Selects a cluster context, then shows its details.
pub fn use_context_plan(context: &str) -> (r: Vec<Step>)
    ensures
        plan_view(r@) == use_context_plan_spec(context@),
{
    let mut plan: Vec<Step> = Vec::new();
    push_tool(&mut plan, "kubectl");
    let words = vec!["config", "use-context", context];
    assert(words@.map_values(|w: &str| w@) =~= seq!["config"@, "use-context"@, context@]);
    push_step(
        &mut plan,
        Step::Run {
            command: fixed_command("kubectl", &words, false),
            task: Task::UseContext,
            subject: context.to_owned(),
        },
    );
    push_context_info(&mut plan);
    assert(plan_view(plan@) =~= use_context_plan_spec(context@));
    plan
}

/// Shows the current cluster context and its details.
pub fn current_context_plan() -> (r: Vec<Step>)
    ensures
        plan_view(r@) == current_context_plan_spec(),
{
    let mut plan: Vec<Step> = Vec::new();
    push_tool(&mut plan, "kubectl");
    let words = vec!["config", "current-context"];
    assert(words@.map_values(|w: &str| w@) =~= seq!["config"@, "current-context"@]);
    push_run(&mut plan, fixed_command("kubectl", &words, true), Task::CurrentContext);
    push_context_info(&mut plan);
    assert(plan_view(plan@) =~= current_context_plan_spec());
    plan
}

} // verus!
