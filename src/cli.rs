//! The command surface as plain values, and the dispatch from a parsed
//! command to the plan that carries it out, after merging the command-line
//! values over the stored settings.

use vstd::prelude::*;
use crate::command::opt_view;
use crate::config::{layered, layered_number, text_opt, Config, CLI_CONCURRENCY, CLI_TIMEOUT};
use crate::plan::{
    apply_plan, apply_plan_spec, current_context_plan, current_context_plan_spec, deploy_plan,
    deploy_plan_spec, lint_plan, lint_plan_spec, list_contexts_plan, list_contexts_plan_spec,
    plan_view, rollback_plan, rollback_plan_spec, status_plan, status_plan_spec,
    use_context_plan, use_context_plan_spec, validate_plan, validate_plan_spec, Step, StepView,
};

verus! {

/// A parsed invocation: the verb, the settings file, and the global flags.
pub struct Cli {
    pub command: Commands,
    pub config: String,
    pub verbose: bool,
    pub log_file: Option<String>,
}

/// The verbs.
pub enum Commands {
    Lint { file: String, environment: Option<String>, strict: bool, template_only: bool },
    Deploy {
        file: String,
        environment: Option<String>,
        dry_run: bool,
        diff: bool,
        skip_deps: bool,
        concurrency: u8,
        context: Option<String>,
    },
    K8sDeploy {
        manifest: String,
        namespace: Option<String>,
        context: Option<String>,
        dry_run: bool,
        wait: bool,
        timeout: u32,
    },
    Rollback {
        file: String,
        environment: Option<String>,
        release: Option<String>,
        revision: Option<u32>,
        context: Option<String>,
    },
    Status {
        file: String,
        environment: Option<String>,
        release: Option<String>,
        context: Option<String>,
        detailed: bool,
    },
    Validate { file: String, environment: Option<String>, syntax_only: bool },
    Config { action: ConfigAction },
    Context { action: ContextAction },
}

/// The `config` sub-verbs.
pub enum ConfigAction {
    Show,
    Init,
    SetValue { key: String, value: String },
    Get { key: String },
}

/// The `context` sub-verbs.
pub enum ContextAction {
    List,
    Use { context: String },
    Current,
}

fn borrow_opt(o: &Option<String>) -> (r: Option<&str>)
    ensures
        opt_view(r) == text_opt(*o),
{
    match o {
        Some(s) => Some(s.as_str()),
        None => None,
    }
}

pub open spec fn stored_number<T>(v: Option<T>, f: spec_fn(T) -> int) -> Option<int> {
    match v {
        Some(x) => Some(f(x)),
        None => None,
    }
}

/// The plan for a verb, with command-line values merged over `settings`;
/// `None` for the `config` verb, which only reads and writes the settings.
pub open spec fn plan_spec(c: Commands, settings: Config, verbose: bool) -> Option<Seq<StepView>> {
    let s = settings@;
    match c {
        Commands::Lint { file, environment, strict, template_only } => Some(
            lint_plan_spec(
                file@,
                layered(text_opt(environment), s.environment),
                strict,
                template_only,
                verbose,
            ),
        ),
        Commands::Deploy { file, environment, dry_run, diff, skip_deps, concurrency, context } => {
            let level = layered_number(
                concurrency as int,
                CLI_CONCURRENCY as int,
                stored_number(s.concurrency, |v: u8| v as int),
            );
            Some(
                deploy_plan_spec(
                    file@,
                    layered(text_opt(environment), s.environment),
                    dry_run,
                    diff,
                    skip_deps,
                    level as u8,
                    layered(text_opt(context), s.context),
                    verbose,
                ),
            )
        },
        Commands::K8sDeploy { manifest, namespace, context, dry_run, wait, timeout } => {
            let secs = layered_number(
                timeout as int,
                CLI_TIMEOUT as int,
                stored_number(s.timeout, |v: u32| v as int),
            );
            Some(
                apply_plan_spec(
                    manifest@,
                    text_opt(namespace),
                    layered(text_opt(context), s.context),
                    dry_run,
                    wait,
                    secs as u32,
                ),
            )
        },
        Commands::Rollback { file, environment, release, revision, context } => Some(
            rollback_plan_spec(
                file@,
                layered(text_opt(environment), s.environment),
                text_opt(release),
                revision,
                layered(text_opt(context), s.context),
            ),
        ),
        Commands::Status { file, environment, release, context, detailed } => Some(
            status_plan_spec(
                file@,
                layered(text_opt(environment), s.environment),
                text_opt(release),
                layered(text_opt(context), s.context),
                detailed,
            ),
        ),
        Commands::Validate { file, environment, syntax_only } => Some(
            validate_plan_spec(
                file@,
                layered(text_opt(environment), s.environment),
                syntax_only,
            ),
        ),
        Commands::Config { .. } => None,
        Commands::Context { action } => Some(
            match action {
                ContextAction::List => list_contexts_plan_spec(),
                ContextAction::Use { context } => use_context_plan_spec(context@),
                ContextAction::Current => current_context_plan_spec(),
            },
        ),
    }
}

impl Commands {
    /// The plan that carries out this verb, with command-line values merged
    /// over `settings`; `None` for the `config` verb.
    pub fn plan(&self, settings: &Config, verbose: bool) -> (r: Option<Vec<Step>>)
        ensures
            match r {
                Some(p) => plan_spec(*self, *settings, verbose) == Some(plan_view(p@)),
                None => plan_spec(*self, *settings, verbose) is None,
            },
    {
        match self {
            Commands::Lint { file, environment, strict, template_only } => {
                let env = settings.resolve_environment(environment.clone());
                Some(lint_plan(file.as_str(), borrow_opt(&env), *strict, *template_only, verbose))
            },
            Commands::Deploy { file, environment, dry_run, diff, skip_deps, concurrency, context } => {
                let env = settings.resolve_environment(environment.clone());
                let ctx = settings.resolve_context(context.clone());
                let level = settings.resolve_concurrency(*concurrency);
                Some(
                    deploy_plan(
                        file.as_str(),
                        borrow_opt(&env),
                        *dry_run,
                        *diff,
                        *skip_deps,
                        level,
                        borrow_opt(&ctx),
                        verbose,
                    ),
                )
            },
            Commands::K8sDeploy { manifest, namespace, context, dry_run, wait, timeout } => {
                let ctx = settings.resolve_context(context.clone());
                let secs = settings.resolve_timeout(*timeout);
                Some(
                    apply_plan(
                        manifest.as_str(),
                        borrow_opt(namespace),
                        borrow_opt(&ctx),
                        *dry_run,
                        *wait,
                        secs,
                    ),
                )
            },
            Commands::Rollback { file, environment, release, revision, context } => {
                let env = settings.resolve_environment(environment.clone());
                let ctx = settings.resolve_context(context.clone());
                Some(
                    rollback_plan(
                        file.as_str(),
                        borrow_opt(&env),
                        borrow_opt(release),
                        *revision,
                        borrow_opt(&ctx),
                    ),
                )
            },
            Commands::Status { file, environment, release, context, detailed } => {
                let env = settings.resolve_environment(environment.clone());
                let ctx = settings.resolve_context(context.clone());
                Some(
                    status_plan(
                        file.as_str(),
                        borrow_opt(&env),
                        borrow_opt(release),
                        borrow_opt(&ctx),
                        *detailed,
                    ),
                )
            },
            Commands::Validate { file, environment, syntax_only } => {
                let env = settings.resolve_environment(environment.clone());
                Some(validate_plan(file.as_str(), borrow_opt(&env), *syntax_only))
            },
            Commands::Config { .. } => None,
            Commands::Context { action } => Some(
                match action {
                    ContextAction::List => list_contexts_plan(),
                    ContextAction::Use { context } => use_context_plan(context.as_str()),
                    ContextAction::Current => current_context_plan(),
                },
            ),
        }
    }
}

} // verus!
