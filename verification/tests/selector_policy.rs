use unzipper::selector::contains_bytes;
use unzipper::selector::ends_with_bytes;
use unzipper::selector::SelectorConfig;

#[test]
fn suffix_decides_the_plain_policy() {
    let cfg = SelectorConfig::json_only();
    assert!(cfg.selects(b"a.json"));
    assert!(cfg.selects(b"deep/path/report.json"));
    assert!(!cfg.selects(b"a.txt"));
    assert!(!cfg.selects(b"a.JSON"));
    assert!(!cfg.selects(b"json"));
    assert!(!cfg.selects(b""));
}

#[test]
fn plain_policy_has_no_other_rules() {
    let cfg = SelectorConfig::json_only();
    assert!(cfg.selects(b"__MACOSX/a.json"));
    assert!(cfg.selects(b"anywhere/at/all.json"));
}

#[test]
fn results_policy_needs_the_marker() {
    let cfg = SelectorConfig::json_results();
    assert!(cfg.selects(b"results/a.json"));
    assert!(cfg.selects(b"run-3/results/a.json"));
    assert!(!cfg.selects(b"a.json"));
    assert!(!cfg.selects(b"results/a.txt"));
}

#[test]
fn results_policy_excludes_blacklist_and_artifacts() {
    let cfg = SelectorConfig::json_results();
    assert!(!cfg.selects(b"results/invalid-issues.json"));
    assert!(!cfg.selects(b"results/invalid-issues-2.json"));
    assert!(!cfg.selects(b"__MACOSX/results/a.json"));
}

#[test]
fn default_policy_is_suffix_with_artifact_rules() {
    let cfg = SelectorConfig::default();
    assert!(cfg.selects(b"a.json"));
    assert!(cfg.selects(b"nested/b.json"));
    assert!(!cfg.selects(b"a.txt"));
    assert!(!cfg.selects(b"__MACOSX/a.json"));
}

#[test]
fn empty_patterns_match_everything() {
    assert!(ends_with_bytes(b"abc", b""));
    assert!(ends_with_bytes(b"", b""));
    assert!(contains_bytes(b"abc", b""));
    assert!(contains_bytes(b"", b""));
}

#[test]
fn byte_searches_behave_as_their_names_say() {
    assert!(ends_with_bytes(b"report.json", b".json"));
    assert!(!ends_with_bytes(b".json", b"report.json"));
    assert!(contains_bytes(b"a/results/b", b"results/"));
    assert!(!contains_bytes(b"a/result/b", b"results/"));
    assert!(contains_bytes(b"xyz", b"xyz"));
    assert!(!contains_bytes(b"xy", b"xyz"));
}
