//! Interpretation of captured tool output: marker counts, the pass/fail
//! verdict, and per-part YAML well-formedness.

use vstd::prelude::*;
use crate::outside::{trim_text, trimmed, yaml_check, yaml_error};
use crate::text::{count_matches, count_occurrences, split_on, split_parts};

verus! {

/// The outcome of classifying lint output.
#[derive(PartialEq, Eq, Structural, Clone, Copy, Debug)]
pub enum Verdict {
    Pass,
    PassWithWarnings,
    Fail,
}

pub open spec fn verdict_of(errors: nat, warnings: nat, strict: bool) -> Verdict {
    if errors > 0 {
        Verdict::Fail
    } else if warnings > 0 {
        if strict {
            Verdict::Fail
        } else {
            Verdict::PassWithWarnings
        }
    } else {
        Verdict::Pass
    }
}

/// Any error fails; warnings alone fail only in strict mode.
pub fn verdict(errors: usize, warnings: usize, strict: bool) -> (r: Verdict)
    ensures
        r == verdict_of(errors as nat, warnings as nat, strict),
{
    if errors > 0 {
        Verdict::Fail
    } else if warnings > 0 {
        if strict {
            Verdict::Fail
        } else {
            Verdict::PassWithWarnings
        }
    } else {
        Verdict::Pass
    }
}

/// The marker count over both streams, saturating at the largest `usize`.
pub open spec fn marker_total(stdout: Seq<char>, stderr: Seq<char>, marker: Seq<char>) -> nat {
    let n = count_matches(stdout, marker) + count_matches(stderr, marker);
    if n <= usize::MAX {
        n
    } else {
        usize::MAX as nat
    }
}

/// Case-sensitive occurrences of `marker` in `stdout` and `stderr` together.
pub fn count_markers(stdout: &str, stderr: &str, marker: &str) -> (r: usize)
    ensures
        r == marker_total(stdout@, stderr@, marker@),
{
    let a = count_occurrences(stdout, marker);
    let b = count_occurrences(stderr, marker);
    a.saturating_add(b)
}

/// How one part of a multi-document file fares once trimmed and, when not
/// blank, parsed.
pub enum PartVerdict {
    Blank,
    Valid,
    Invalid(String),
}

/// Judges a trimmed part from what the parser said of it; a blank part is
/// skipped whatever the parser said.
pub fn part_verdict(trimmed_part: &str, parse_error: Option<String>) -> (r: PartVerdict)
    ensures
        trimmed_part@.len() == 0 ==> r is Blank,
        trimmed_part@.len() > 0 && parse_error is None ==> r is Valid,
        trimmed_part@.len() > 0 && parse_error is Some ==> (r matches PartVerdict::Invalid(m) && m
            == parse_error->0),
{
    if trimmed_part.is_empty() {
        PartVerdict::Blank
    } else {
        match parse_error {
            None => PartVerdict::Valid,
            Some(m) => PartVerdict::Invalid(m),
        }
    }
}

/// A malformed part: its 1-based position and the parser's message.
pub struct SyntaxError {
    pub part: usize,
    pub message: String,
}

/// A file whose non-blank parts all parse.
pub struct SyntaxReport {
    /// How many parts the divider cut the file into.
    pub parts: usize,
    /// The 1-based positions of the non-blank parts, in order.
    pub checked: Vec<usize>,
}

/// The parts of `content` between `---` dividers.
pub open spec fn document_parts(content: Seq<char>) -> Seq<Seq<char>> {
    split_parts(content, "---"@)
}

pub open spec fn part_blank(p: Seq<char>) -> bool {
    trimmed(p).len() == 0
}

pub open spec fn part_bad(p: Seq<char>) -> bool {
    !part_blank(p) && yaml_error(trimmed(p)) is Some
}

/// The 1-based positions of the non-blank parts among the first `n`.
pub open spec fn nonblank_positions(parts: Seq<Seq<char>>, n: nat) -> Seq<int>
    decreases n,
{
    if n == 0 {
        seq![]
    } else if part_blank(parts[n - 1]) {
        nonblank_positions(parts, (n - 1) as nat)
    } else {
        nonblank_positions(parts, (n - 1) as nat).push(n as int)
    }
}

/// Checks each non-blank part of `content` as its own YAML document, in
/// order, and stops at the first that does not parse.
pub fn validate_syntax(content: &str) -> (r: Result<SyntaxReport, SyntaxError>)
    ensures
        match r {
            Ok(rep) => {
                let parts = document_parts(content@);
                &&& rep.parts == parts.len()
                &&& forall|i: int| 0 <= i < parts.len() ==> !part_bad(#[trigger] parts[i])
                &&& rep.checked@.map_values(|x: usize| x as int) == nonblank_positions(
                    parts,
                    parts.len(),
                )
            },
            Err(e) => {
                let parts = document_parts(content@);
                let k = e.part - 1;
                &&& 1 <= e.part <= parts.len()
                &&& part_bad(parts[k])
                &&& e.message@ == yaml_error(trimmed(parts[k]))->0
                &&& forall|i: int| 0 <= i < k ==> !part_bad(#[trigger] parts[i])
            },
        },
{
    let parts = split_on(content, "---");
    let ghost pv = document_parts(content@);
    assert(parts@.map_values(|s: String| s@) == pv);
    assert(parts@.len() == pv.len());
    let mut checked: Vec<usize> = Vec::new();
    let mut i: usize = 0;
    while i < parts.len()
        invariant
            pv == document_parts(content@),
            parts@.map_values(|s: String| s@) == pv,
            parts@.len() == pv.len(),
            i <= pv.len(),
            forall|j: int| 0 <= j < i ==> !part_bad(#[trigger] pv[j]),
            checked@.map_values(|x: usize| x as int) == nonblank_positions(pv, i as nat),
        decreases pv.len() - i,
    {
        assert(parts@[i as int]@ == pv[i as int]);
        let t = trim_text(parts[i].as_str());
        let err = if t.is_empty() {
            None
        } else {
            yaml_check(t)
        };
        match part_verdict(t, err) {
            PartVerdict::Blank => {},
            PartVerdict::Valid => {
                checked.push(i + 1);
                assert(checked@.map_values(|x: usize| x as int) =~= nonblank_positions(
                    pv,
                    i as nat,
                ).push(i + 1));
            },
            PartVerdict::Invalid(m) => {
                return Err(SyntaxError { part: i + 1, message: m });
            },
        }
        i = i + 1;
    }
    Ok(SyntaxReport { parts: parts.len(), checked })
}


/// The index of the first malformed part at or after `i`.
pub open spec fn first_bad_from(parts: Seq<Seq<char>>, i: int) -> Option<int>
    decreases parts.len() - i,
{
    if i < 0 || i >= parts.len() {
        None
    } else if part_bad(parts[i]) {
        Some(i)
    } else {
        first_bad_from(parts, i + 1)
    }
}

/// Skipping a run of well-formed parts does not change the first malformed one.
pub proof fn lemma_first_bad_skips(parts: Seq<Seq<char>>, i: int, k: int)
    requires
        0 <= i <= k <= parts.len(),
        forall|j: int| i <= j < k ==> !part_bad(#[trigger] parts[j]),
    ensures
        first_bad_from(parts, i) == first_bad_from(parts, k),
    decreases k - i,
{
    if i < k {
        lemma_first_bad_skips(parts, i + 1, k);
    }
}

/// The syntax check reports exactly the first malformed part, if any.
pub proof fn lemma_syntax_first_bad(content: Seq<char>, r: Result<SyntaxReport, SyntaxError>)
    requires
        match r {
            Ok(rep) => forall|i: int|
                0 <= i < document_parts(content).len() ==> !part_bad(
                    #[trigger] document_parts(content)[i],
                ),
            Err(e) => {
                let parts = document_parts(content);
                let k = e.part - 1;
                &&& 1 <= e.part <= parts.len()
                &&& part_bad(parts[k])
                &&& forall|i: int| 0 <= i < k ==> !part_bad(#[trigger] parts[i])
            },
        },
    ensures
        match r {
            Ok(_) => first_bad_from(document_parts(content), 0) is None,
            Err(e) => first_bad_from(document_parts(content), 0) == Some(e.part - 1),
        },
{
    let parts = document_parts(content);
    match r {
        Ok(_) => {
            lemma_first_bad_skips(parts, 0, parts.len() as int);
        },
        Err(e) => {
            lemma_first_bad_skips(parts, 0, e.part - 1);
        },
    }
}


/// The context listing marks the active context's line with '*'.
pub fn is_current_context_line(line: &str) -> (r: bool)
    ensures
        r == crate::text::has_substring(line@, "*"@),
{
    crate::text::contains(line, "*")
}

/// The audit level of a finished operation.
pub fn audit_level(success: bool) -> (r: &'static str)
    ensures
        r@ == (if success {
            "INFO"@
        } else {
            "ERROR"@
        }),
{
    if success {
        "INFO"
    } else {
        "ERROR"
    }
}

} // verus!
