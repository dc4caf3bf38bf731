//! Invocations of the external tools: which tool, which arguments, and
//! whether the output is captured or streamed to the operator.

use vstd::prelude::*;
use crate::text::{decimal, render_decimal};

verus! {

/// One invocation of an external tool.
pub struct CommandSpec {
    pub tool: String,
    pub args: Vec<String>,
    /// Buffer standard output and error instead of inheriting them.
    pub capture: bool,
}

/// An invocation as values.
pub struct CommandView {
    pub tool: Seq<char>,
    pub args: Seq<Seq<char>>,
    pub capture: bool,
}

pub open spec fn args_view(v: Seq<String>) -> Seq<Seq<char>> {
    v.map_values(|s: String| s@)
}

impl View for CommandSpec {
    type V = CommandView;

    open spec fn view(&self) -> CommandView {
        CommandView { tool: self.tool@, args: args_view(self.args@), capture: self.capture }
    }
}

/// What a finished process reported.
pub struct ExecutionResult {
    pub success: bool,
    pub stdout: Option<String>,
    pub stderr: Option<String>,
}

pub open spec fn opt_view(o: Option<&str>) -> Option<Seq<char>> {
    match o {
        Some(s) => Some(s@),
        None => None,
    }
}

pub open spec fn cmd(tool: Seq<char>, args: Seq<Seq<char>>, capture: bool) -> CommandView {
    CommandView { tool, args, capture }
}

/// The environment selector, when one is given.
pub open spec fn env_args(env: Option<Seq<char>>) -> Seq<Seq<char>> {
    match env {
        Some(e) => seq!["-e"@, e],
        None => seq![],
    }
}

/// The release-name selector, when one is given.
pub open spec fn selector_args(release: Option<Seq<char>>) -> Seq<Seq<char>> {
    match release {
        Some(r) => seq!["--selector"@, "name="@ + r],
        None => seq![],
    }
}

/// The leading arguments of every Helmfile invocation.
pub open spec fn helmfile_head(file: Seq<char>, env: Option<Seq<char>>) -> Seq<Seq<char>> {
    seq!["-f"@, file] + env_args(env)
}

fn add_arg(args: &mut Vec<String>, a: &str)
    ensures
        args_view(final(args)@) == args_view(old(args)@).push(a@),
{
    args.push(a.to_owned());
    assert(args_view(final(args)@) =~= args_view(old(args)@).push(a@));
}

fn add_opt_pair(args: &mut Vec<String>, flag: &str, v: Option<&str>)
    ensures
        args_view(final(args)@) == args_view(old(args)@) + match v {
            Some(x) => seq![flag@, x@],
            None => Seq::<Seq<char>>::empty(),
        },
{
    match v {
        Some(x) => {
            add_arg(args, flag);
            add_arg(args, x);
            assert(args_view(final(args)@) =~= args_view(old(args)@) + seq![flag@, x@]);
        },
        None => {
            assert(args_view(final(args)@) =~= args_view(old(args)@) + Seq::<Seq<char>>::empty());
        },
    }
}

fn helmfile_args(file: &str, env: Option<&str>) -> (r: Vec<String>)
    ensures
        args_view(r@) == helmfile_head(file@, opt_view(env)),
{
    let mut r: Vec<String> = Vec::new();
    add_arg(&mut r, "-f");
    add_arg(&mut r, file);
    add_opt_pair(&mut r, "-e", env);
    assert(args_view(r@) =~= helmfile_head(file@, opt_view(env)));
    r
}

fn add_selector(args: &mut Vec<String>, release: Option<&str>)
    ensures
        args_view(final(args)@) == args_view(old(args)@) + selector_args(opt_view(release)),
{
    match release {
        Some(rel) => {
            add_arg(args, "--selector");
            let sel = "name=".to_owned().concat(rel);
            add_arg(args, sel.as_str());
            assert(args_view(final(args)@) =~= args_view(old(args)@) + selector_args(
                opt_view(release),
            ));
        },
        None => {
            assert(args_view(final(args)@) =~= args_view(old(args)@) + selector_args(
                opt_view(release),
            ));
        },
    }
}


pub open spec fn lint_spec(file: Seq<char>, env: Option<Seq<char>>, template_only: bool) -> CommandView {
    let verb = if template_only {
        "template"@
    } else {
        "lint"@
    };
    cmd("helmfile"@, helmfile_head(file, env) + seq![verb, "--skip-deps"@], true)
}

pub open spec fn render_spec(file: Seq<char>, env: Option<Seq<char>>) -> CommandView {
    cmd("helmfile"@, helmfile_head(file, env) + seq!["template"@, "--skip-deps"@], true)
}

/// The operation words of a deploy: a diff preview, a dry-run sync, or a sync.
pub open spec fn sync_mode_args(dry_run: bool, diff: bool) -> Seq<Seq<char>> {
    if diff {
        seq!["diff"@]
    } else if dry_run {
        seq!["sync"@, "--args"@, "--dry-run"@]
    } else {
        seq!["sync"@]
    }
}

pub open spec fn sync_spec(
    file: Seq<char>,
    env: Option<Seq<char>>,
    dry_run: bool,
    diff: bool,
    skip_deps: bool,
    concurrency: u8,
) -> CommandView {
    cmd(
        "helmfile"@,
        helmfile_head(file, env) + sync_mode_args(dry_run, diff) + (if skip_deps {
            seq!["--skip-deps"@]
        } else {
            seq![]
        }) + seq!["--concurrency"@, decimal(concurrency as nat)],
        false,
    )
}

pub open spec fn apply_spec(
    manifest: Seq<char>,
    namespace: Option<Seq<char>>,
    dry_run: bool,
    wait: bool,
    timeout: u32,
) -> CommandView {
    cmd(
        "kubectl"@,
        (match namespace {
            Some(ns) => seq!["--namespace"@, ns],
            None => seq![],
        }) + seq!["apply"@, "-f"@, manifest] + (if dry_run {
            seq!["--dry-run=client"@]
        } else {
            seq![]
        }) + (if wait {
            seq!["--wait"@, "--timeout"@, decimal(timeout as nat) + "s"@]
        } else {
            seq![]
        }),
        false,
    )
}

pub open spec fn helm_rollback_spec(release: Seq<char>, revision: u32) -> CommandView {
    cmd("helm"@, seq!["rollback"@, release, decimal(revision as nat)], false)
}

/// A Helmfile operation over the selected releases.
pub open spec fn selected_spec(
    file: Seq<char>,
    env: Option<Seq<char>>,
    release: Option<Seq<char>>,
    verb: Seq<char>,
    capture: bool,
) -> CommandView {
    cmd("helmfile"@, helmfile_head(file, env) + selector_args(release) + seq![verb], capture)
}

pub open spec fn cluster_query_spec(what: Seq<char>, namespace: Option<Seq<char>>) -> CommandView {
    cmd(
        "kubectl"@,
        seq!["get"@, what, "-o"@, "wide"@] + match namespace {
            Some(ns) => seq!["-n"@, ns],
            None => seq![],
        },
        false,
    )
}

/// Renders the lint command, or the render-only command when
/// `template_only` is set; output is captured for classification.
pub fn lint_command(file: &str, env: Option<&str>, template_only: bool) -> (r: CommandSpec)
    ensures
        r@ == lint_spec(file@, opt_view(env), template_only),
{
    let mut args = helmfile_args(file, env);
    if template_only {
        add_arg(&mut args, "template");
    } else {
        add_arg(&mut args, "lint");
    }
    add_arg(&mut args, "--skip-deps");
    let r = CommandSpec { tool: "helmfile".to_owned(), args, capture: true };
    assert(r@.args =~= lint_spec(file@, opt_view(env), template_only).args);
    r
}

/// Renders the templates, skipping dependencies; output is captured.
pub fn render_command(file: &str, env: Option<&str>) -> (r: CommandSpec)
    ensures
        r@ == render_spec(file@, opt_view(env)),
{
    let mut args = helmfile_args(file, env);
    add_arg(&mut args, "template");
    add_arg(&mut args, "--skip-deps");
    let r = CommandSpec { tool: "helmfile".to_owned(), args, capture: true };
    assert(r@.args =~= render_spec(file@, opt_view(env)).args);
    r
}

/// The deploy command: a diff preview, a dry-run sync, or a sync, with the
/// concurrency level; output streams to the operator.
pub fn sync_command(
    file: &str,
    env: Option<&str>,
    dry_run: bool,
    diff: bool,
    skip_deps: bool,
    concurrency: u8,
) -> (r: CommandSpec)
    ensures
        r@ == sync_spec(file@, opt_view(env), dry_run, diff, skip_deps, concurrency),
{
    let mut args = helmfile_args(file, env);
    let ghost head = args_view(args@);
    if diff {
        add_arg(&mut args, "diff");
    } else if dry_run {
        add_arg(&mut args, "sync");
        add_arg(&mut args, "--args");
        add_arg(&mut args, "--dry-run");
    } else {
        add_arg(&mut args, "sync");
    }
    assert(args_view(args@) =~= head + sync_mode_args(dry_run, diff));
    let ghost moded = args_view(args@);
    if skip_deps {
        add_arg(&mut args, "--skip-deps");
    }
    let ghost skipped = args_view(args@);
    assert(skipped =~= moded + (if skip_deps {
        seq!["--skip-deps"@]
    } else {
        seq![]
    }));
    add_arg(&mut args, "--concurrency");
    let level = render_decimal(concurrency as u64);
    add_arg(&mut args, level.as_str());
    let r = CommandSpec { tool: "helmfile".to_owned(), args, capture: false };
    assert(r@.args =~= sync_spec(file@, opt_view(env), dry_run, diff, skip_deps, concurrency).args);
    r
}

/// The manifest apply command, with optional namespace, client-side dry
/// run, and wait with a timeout in seconds; output streams to the operator.
pub fn apply_command(
    manifest: &str,
    namespace: Option<&str>,
    dry_run: bool,
    wait: bool,
    timeout: u32,
) -> (r: CommandSpec)
    ensures
        r@ == apply_spec(manifest@, opt_view(namespace), dry_run, wait, timeout),
{
    let mut args: Vec<String> = Vec::new();
    add_opt_pair(&mut args, "--namespace", namespace);
    let ghost with_namespace = args_view(args@);
    add_arg(&mut args, "apply");
    add_arg(&mut args, "-f");
    add_arg(&mut args, manifest);
    let ghost with_target = args_view(args@);
    assert(with_target =~= with_namespace + seq!["apply"@, "-f"@, manifest@]);
    if dry_run {
        add_arg(&mut args, "--dry-run=client");
    }
    let ghost with_dry_run = args_view(args@);
    assert(with_dry_run =~= with_target + (if dry_run {
        seq!["--dry-run=client"@]
    } else {
        seq![]
    }));
    if wait {
        add_arg(&mut args, "--wait");
        add_arg(&mut args, "--timeout");
        let secs = render_decimal(timeout as u64).concat("s");
        add_arg(&mut args, secs.as_str());
    }
    let r = CommandSpec { tool: "kubectl".to_owned(), args, capture: false };
    assert(r@.args =~= apply_spec(manifest@, opt_view(namespace), dry_run, wait, timeout).args);
    r
}

/// Rolls one release back to a revision through the package manager.
pub fn helm_rollback_command(release: &str, revision: u32) -> (r: CommandSpec)
    ensures
        r@ == helm_rollback_spec(release@, revision),
{
    let mut args: Vec<String> = Vec::new();
    add_arg(&mut args, "rollback");
    add_arg(&mut args, release);
    let rev = render_decimal(revision as u64);
    add_arg(&mut args, rev.as_str());
    let r = CommandSpec { tool: "helm".to_owned(), args, capture: false };
    assert(r@.args =~= helm_rollback_spec(release@, revision).args);
    r
}

/// A Helmfile operation `verb` over the releases that `release` selects
/// (all when absent).
pub fn selected_command(
    file: &str,
    env: Option<&str>,
    release: Option<&str>,
    verb: &str,
    capture: bool,
) -> (r: CommandSpec)
    ensures
        r@ == selected_spec(file@, opt_view(env), opt_view(release), verb@, capture),
{
    let mut args = helmfile_args(file, env);
    add_selector(&mut args, release);
    add_arg(&mut args, verb);
    let r = CommandSpec { tool: "helmfile".to_owned(), args, capture };
    assert(r@.args =~= selected_spec(file@, opt_view(env), opt_view(release), verb@, capture).args);
    r
}

/// A wide listing of cluster objects of kind `what`, in `namespace` when
/// given; output streams to the operator.
pub fn cluster_query_command(what: &str, namespace: Option<&str>) -> (r: CommandSpec)
    ensures
        r@ == cluster_query_spec(what@, opt_view(namespace)),
{
    let mut args: Vec<String> = Vec::new();
    add_arg(&mut args, "get");
    add_arg(&mut args, what);
    add_arg(&mut args, "-o");
    add_arg(&mut args, "wide");
    add_opt_pair(&mut args, "-n", namespace);
    let r = CommandSpec { tool: "kubectl".to_owned(), args, capture: false };
    assert(r@.args =~= cluster_query_spec(what@, opt_view(namespace)).args);
    r
}

/// `tool` with a fixed list of arguments.
pub fn fixed_command(tool: &str, words: &Vec<&str>, capture: bool) -> (r: CommandSpec)
    ensures
        r@ == cmd(tool@, words@.map_values(|w: &str| w@), capture),
{
    let mut args: Vec<String> = Vec::new();
    let mut i: usize = 0;
    while i < words.len()
        invariant
            i <= words@.len(),
            args_view(args@) == words@.subrange(0, i as int).map_values(|w: &str| w@),
        decreases words@.len() - i,
    {
        add_arg(&mut args, words[i]);
        assert(words@.subrange(0, i + 1).map_values(|w: &str| w@) =~= words@.subrange(
            0,
            i as int,
        ).map_values(|w: &str| w@).push(words@[i as int]@));
        i = i + 1;
    }
    assert(words@.subrange(0, words@.len() as int) =~= words@);
    CommandSpec { tool: tool.to_owned(), args, capture }
}


/// Resolves `tool` on the search path; it succeeds iff the tool is there.
pub fn probe_command(tool: &str) -> (r: CommandSpec)
    ensures
        r@ == cmd("which"@, seq![tool@], true),
{
    let words = vec![tool];
    assert(words@.map_values(|w: &str| w@) =~= seq![tool@]);
    fixed_command("which", &words, true)
}

} // verus!
