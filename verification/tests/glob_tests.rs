use watchfilter::glob::{GlobPatternStore, MatchOutcome};

#[test]
fn excluded_git_tree_and_included_source_file() {
    let mut store = GlobPatternStore::new();
    store.add_exclude("**/.git/**", None).unwrap();
    assert_eq!(store.matches("project/.git/HEAD"), MatchOutcome::Excluded);
    assert_eq!(store.matches("project/src/main.txt"), MatchOutcome::Included);
}

#[test]
fn exclude_wins_over_include() {
    let mut store = GlobPatternStore::new();
    store.add_include("**/*.txt", None).unwrap();
    store.add_exclude("**/secret/**", None).unwrap();
    assert_eq!(store.matches("a/secret/b.txt"), MatchOutcome::Excluded);
    assert_eq!(store.matches("a/b.txt"), MatchOutcome::Included);
    assert_eq!(store.matches("a/b.md"), MatchOutcome::Unmatched);
}

#[test]
fn star_does_not_cross_separator() {
    let mut store = GlobPatternStore::new();
    store.add_exclude("*.log", None).unwrap();
    assert_eq!(store.matches("b.log"), MatchOutcome::Excluded);
    assert_eq!(store.matches("a/b.log"), MatchOutcome::Included);
}

#[test]
fn globstar_crosses_separators() {
    let mut store = GlobPatternStore::new();
    store.add_exclude("**/b.log", None).unwrap();
    assert_eq!(store.matches("x/y/b.log"), MatchOutcome::Excluded);
    assert_eq!(store.matches("b.log"), MatchOutcome::Included);
}

#[test]
fn question_mark_matches_one_character() {
    let mut store = GlobPatternStore::new();
    store.add_exclude(".*.sw?", None).unwrap();
    assert_eq!(store.matches(".foo.swp"), MatchOutcome::Excluded);
    assert_eq!(store.matches(".foo.sw"), MatchOutcome::Included);
    assert_eq!(store.matches(".foo.sw/"), MatchOutcome::Included);
}

#[test]
fn bracket_class_matches_a_set() {
    let mut store = GlobPatternStore::new();
    store.add_exclude("*.py[co]", None).unwrap();
    assert_eq!(store.matches("x.pyc"), MatchOutcome::Excluded);
    assert_eq!(store.matches("x.pyo"), MatchOutcome::Excluded);
    assert_eq!(store.matches("x.pya"), MatchOutcome::Included);
    assert_eq!(store.matches("x.py"), MatchOutcome::Included);
}

#[test]
fn negated_class_matches_outside_the_set() {
    let mut store = GlobPatternStore::new();
    store.add_exclude("[!a]b", None).unwrap();
    assert_eq!(store.matches("cb"), MatchOutcome::Excluded);
    assert_eq!(store.matches("ab"), MatchOutcome::Included);
    assert_eq!(store.matches("/b"), MatchOutcome::Included);
}

#[test]
fn empty_pattern_is_rejected() {
    let mut store = GlobPatternStore::new();
    let err = store.add_exclude("", None).unwrap_err();
    assert_eq!(err.pattern, "");
    assert_eq!(err.position, 0);
}

#[test]
fn unclosed_class_is_rejected_at_the_bracket() {
    let mut store = GlobPatternStore::new();
    let err = store.add_exclude("ab[cd", None).unwrap_err();
    assert_eq!(err.pattern, "ab[cd");
    assert_eq!(err.position, 2);
}

#[test]
fn empty_class_is_rejected_at_the_bracket() {
    let mut store = GlobPatternStore::new();
    let err = store.add_include("x[]y", None).unwrap_err();
    assert_eq!(err.pattern, "x[]y");
    assert_eq!(err.position, 1);
}

#[test]
fn failed_rule_leaves_the_store_unchanged() {
    let mut store = GlobPatternStore::new();
    store.add_exclude("*.tmp", None).unwrap();
    assert!(store.add_exclude("broken[", None).is_err());
    // The earlier rule still fires; the broken one left nothing behind.
    assert_eq!(store.matches("a.tmp"), MatchOutcome::Excluded);
    assert_eq!(store.matches("broken"), MatchOutcome::Included);
}

#[test]
fn scope_root_bounds_a_rule() {
    let mut store = GlobPatternStore::new();
    store.add_exclude("**/*.log", Some("/var")).unwrap();
    assert_eq!(store.matches("/var/a.log"), MatchOutcome::Excluded);
    assert_eq!(store.matches("/tmp/a.log"), MatchOutcome::Included);
    // The scope root itself is not a descendant of itself.
    assert_eq!(store.matches("/var"), MatchOutcome::Included);
}

#[test]
fn empty_include_set_is_permissive() {
    let store = GlobPatternStore::new();
    assert_eq!(store.matches("anything/at/all"), MatchOutcome::Included);
}

#[test]
fn globstar_alone_matches_everything() {
    let mut store = GlobPatternStore::new();
    store.add_exclude("**", None).unwrap();
    assert_eq!(store.matches("a"), MatchOutcome::Excluded);
    assert_eq!(store.matches("a/b/c"), MatchOutcome::Excluded);
    assert_eq!(store.matches(""), MatchOutcome::Excluded);
}

#[test]
fn empty_path_on_an_empty_store_is_included() {
    let store = GlobPatternStore::new();
    assert_eq!(store.matches(""), MatchOutcome::Included);
}
