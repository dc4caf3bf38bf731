//! The safety gate: which operations count as production-sensitive, and
//! whether an operator's reply confirms one.

use vstd::prelude::*;
use crate::command::opt_view;
use crate::outside::{lower_of, lowercase, trim_text, trimmed};
use crate::text::{contains, has_substring};

verus! {

/// A name that is present and holds the literal token "prod".
pub open spec fn names_prod(name: Option<Seq<char>>) -> bool {
    match name {
        Some(n) => has_substring(n, "prod"@),
        None => false,
    }
}

pub open spec fn production_sensitive(env: Option<Seq<char>>, context: Option<Seq<char>>) -> bool {
    names_prod(env) || names_prod(context)
}

/// True iff the environment or the cluster context, where given, contains
/// "prod" exactly as written.
pub fn is_production_sensitive(env: Option<&str>, context: Option<&str>) -> (r: bool)
    ensures
        r == production_sensitive(opt_view(env), opt_view(context)),
{
    let e = match env {
        Some(n) => contains(n, "prod"),
        None => false,
    };
    let c = match context {
        Some(n) => contains(n, "prod"),
        None => false,
    };
    e || c
}

/// A normalized reply that begins with 'y'.
pub open spec fn reply_yes(normalized: Seq<char>) -> bool {
    normalized.len() > 0 && normalized[0] == 'y'
}

/// Whether an already trimmed and lowercased reply confirms.
pub fn reply_accepts(normalized: &str) -> (r: bool)
    ensures
        r == reply_yes(normalized@),
{
    if normalized.is_empty() {
        false
    } else {
        normalized.get_char(0) == 'y'
    }
}

/// Whether a reply line, trimmed and lowercased, confirms.
pub fn confirms(line: &str) -> (r: bool)
    ensures
        r == reply_yes(lower_of(trimmed(line@))),
{
    let t = trim_text(line);
    let folded = lowercase(t);
    reply_accepts(folded.as_str())
}

/// What an operator is asked to confirm.
#[derive(PartialEq, Eq, Structural, Clone, Copy, Debug)]
pub enum ConfirmKind {
    /// A change to a production-sensitive target.
    Production,
    /// A rollback, asked whatever the target.
    Rollback,
}

pub open spec fn declined_message(k: ConfirmKind) -> Seq<char> {
    match k {
        ConfirmKind::Production => "Deployment cancelled by user"@,
        ConfirmKind::Rollback => "Rollback cancelled by user"@,
    }
}

pub open spec fn prompt_text(k: ConfirmKind) -> Seq<char> {
    match k {
        ConfirmKind::Production => "You are about to deploy to production. Continue? (y/N): "@,
        ConfirmKind::Rollback => "You are about to rollback releases. This action cannot be undone. Continue? (y/N): "@,
    }
}

impl ConfirmKind {
    /// The question put to the operator.
    pub fn prompt(&self) -> (r: String)
        ensures
            r@ == prompt_text(*self),
    {
        match self {
            ConfirmKind::Production => "You are about to deploy to production. Continue? (y/N): ".to_owned(),
            ConfirmKind::Rollback => "You are about to rollback releases. This action cannot be undone. Continue? (y/N): ".to_owned(),
        }
    }

    /// The error reported when the operator declines.
    pub fn declined(&self) -> (r: String)
        ensures
            r@ == declined_message(*self),
    {
        match self {
            ConfirmKind::Production => "Deployment cancelled by user".to_owned(),
            ConfirmKind::Rollback => "Rollback cancelled by user".to_owned(),
        }
    }
}

} // verus!
