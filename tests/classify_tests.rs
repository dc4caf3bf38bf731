use helmctl::classify::{
    audit_level, count_markers, is_current_context_line, validate_syntax, verdict, Verdict,
};
use helmctl::safety::{confirms, is_production_sensitive, reply_accepts, ConfirmKind};
use helmctl::text::{contains, count_occurrences, render_decimal, split_on};

#[test]
fn verdict_table() {
    assert_eq!(verdict(0, 0, false), Verdict::Pass);
    assert_eq!(verdict(0, 3, false), Verdict::PassWithWarnings);
    assert_eq!(verdict(0, 3, true), Verdict::Fail);
    assert_eq!(verdict(1, 0, false), Verdict::Fail);
    assert_eq!(verdict(1, 0, true), Verdict::Fail);
    assert_eq!(verdict(0, 0, true), Verdict::Pass);
}

#[test]
fn production_sensitivity() {
    assert!(is_production_sensitive(Some("production"), None));
    assert!(is_production_sensitive(Some("staging"), Some("prod-cluster")));
    assert!(!is_production_sensitive(Some("staging"), Some("dev-cluster")));
    assert!(!is_production_sensitive(None, None));
    assert!(!is_production_sensitive(Some("PROD"), None));
    assert!(is_production_sensitive(None, Some("eu-prod")));
}

#[test]
fn markers_are_counted_in_both_streams() {
    let out = "WARNING: a\nok\nWARNING: b\nERROR x";
    let err = "WARNING c";
    assert_eq!(count_markers(out, err, "WARNING"), 3);
    assert_eq!(count_markers(out, err, "ERROR"), 1);
    assert_eq!(count_markers("warning", "", "WARNING"), 0);
    assert_eq!(count_occurrences("aaaa", "aa"), 2);
    assert_eq!(count_occurrences("abc", ""), 0);
}

#[test]
fn substring_search() {
    assert!(contains("my-prod-ctx", "prod"));
    assert!(!contains("pro", "prod"));
    assert!(contains("x", ""));
}

#[test]
fn split_keeps_empty_pieces() {
    let parts = split_on("---\na: 1\n---\nb: 2\n", "---");
    assert_eq!(parts, vec!["".to_string(), "\na: 1\n".to_string(), "\nb: 2\n".to_string()]);
    assert_eq!(split_on("abc", "---"), vec!["abc".to_string()]);
    assert_eq!(split_on("a-----b", "---"), vec!["a".to_string(), "--b".to_string()]);
}

#[test]
fn decimal_rendering() {
    assert_eq!(render_decimal(0), "0");
    assert_eq!(render_decimal(7), "7");
    assert_eq!(render_decimal(300), "300");
    assert_eq!(render_decimal(u64::MAX), u64::MAX.to_string());
}

#[test]
fn syntax_reports_first_bad_part() {
    let content = "a: 1\n---\nkey: [unclosed\n---\nb: 2\n";
    let err = validate_syntax(content).err().unwrap();
    assert_eq!(err.part, 2);
    assert!(!err.message.is_empty());
}

#[test]
fn syntax_fails_fast_on_first_of_two_bad_parts() {
    let content = "a: 1\n---\nkey: [unclosed\n---\nother: {broken\n";
    let err = validate_syntax(content).err().unwrap();
    assert_eq!(err.part, 2);
}

#[test]
fn syntax_accepts_two_documents() {
    let content = "a: 1\n---\nb: 2\n";
    let report = validate_syntax(content).ok().unwrap();
    assert_eq!(report.parts, 2);
    assert_eq!(report.checked, vec![1, 2]);
}

#[test]
fn syntax_skips_blank_parts() {
    let content = "---\nrepositories:\n  - name: x\n---\n   \n---\nreleases: []\n";
    let report = validate_syntax(content).ok().unwrap();
    assert_eq!(report.parts, 4);
    assert_eq!(report.checked, vec![2, 4]);
    let empty = validate_syntax("").ok().unwrap();
    assert_eq!(empty.parts, 1);
    assert!(empty.checked.is_empty());
}

#[test]
fn replies() {
    assert!(confirms("y\n"));
    assert!(confirms("  YES  "));
    assert!(confirms("Yep"));
    assert!(!confirms("n"));
    assert!(!confirms(""));
    assert!(!confirms("no, y"));
    assert!(reply_accepts("yes"));
    assert!(!reply_accepts("Yes"));
}

#[test]
fn confirmation_texts() {
    assert_eq!(ConfirmKind::Rollback.declined(), "Rollback cancelled by user");
    assert_eq!(ConfirmKind::Production.declined(), "Deployment cancelled by user");
    assert!(ConfirmKind::Production.prompt().contains("production"));
}

#[test]
fn context_lines_and_audit_levels() {
    assert!(is_current_context_line("*         prod   prod   admin"));
    assert!(!is_current_context_line("          dev    dev    admin"));
    assert_eq!(audit_level(true), "INFO");
    assert_eq!(audit_level(false), "ERROR");
}
