use watchfilter::config::{build_filterer, default_exclude_patterns, WatchConfig};
use watchfilter::kinds::{default_allowlist, FsEvent, RawTag};
use watchfilter::pipeline::{EventPriority, RawEvent};

fn event(path: &str, tags: Vec<RawTag>) -> RawEvent {
    RawEvent {
        path: path.to_string(),
        kind_tags: tags,
        timestamp: 0,
        priority: EventPriority::Normal,
    }
}

fn base_config() -> WatchConfig {
    WatchConfig {
        roots: vec![".".to_string()],
        includes: Vec::new(),
        excludes: Vec::new(),
        allowlist: default_allowlist(),
        use_default_excludes: true,
        proceed_on_partial_registration: false,
        auto_resume: false,
    }
}

#[test]
fn default_exclude_set_is_complete_and_ordered() {
    let pats = default_exclude_patterns();
    assert_eq!(pats.len(), 15);
    assert_eq!(pats[0], "**/.DS_Store");
    assert_eq!(pats[1], "watchexec.*.log");
    assert_eq!(pats[2], "*.py[co]");
    assert_eq!(pats[11], "**/.git/**");
    assert_eq!(pats[14], "**/.svn/**");
}

#[test]
fn built_filterer_applies_the_default_excludes() {
    let filterer = build_filterer(&base_config()).unwrap();
    let vetoed_paths = [
        "dir/.DS_Store",
        "watchexec.1234.log",
        "mod.pyc",
        "repo/.git/HEAD",
        "repo/.hg/store/data",
        "repo/.svn/entries",
    ];
    for p in vetoed_paths {
        assert_eq!(
            filterer.check_event(&event(p, vec![RawTag::Create]), EventPriority::Normal),
            Ok(false),
            "expected {p} to be dropped"
        );
    }
    assert_eq!(
        filterer.check_event(&event("src/lib.txt", vec![RawTag::Create]), EventPriority::Normal),
        Ok(true)
    );
}

#[test]
fn default_excludes_can_be_disabled() {
    let mut cfg = base_config();
    cfg.use_default_excludes = false;
    let filterer = build_filterer(&cfg).unwrap();
    assert_eq!(
        filterer.check_event(&event("repo/.git/HEAD", vec![RawTag::Create]), EventPriority::Normal),
        Ok(true)
    );
}

#[test]
fn configured_rules_come_before_the_defaults() {
    let mut cfg = base_config();
    cfg.includes.push(("**/*.txt".to_string(), None));
    cfg.excludes.push(("**/generated/**".to_string(), None));
    let filterer = build_filterer(&cfg).unwrap();
    assert_eq!(
        filterer.check_event(&event("a/b.txt", vec![RawTag::Create]), EventPriority::Normal),
        Ok(true)
    );
    assert_eq!(
        filterer.check_event(
            &event("a/generated/b.txt", vec![RawTag::Create]),
            EventPriority::Normal
        ),
        Ok(false)
    );
    // Unmatched while includes are registered: dropped.
    assert_eq!(
        filterer.check_event(&event("a/b.md", vec![RawTag::Create]), EventPriority::Normal),
        Ok(false)
    );
}

#[test]
fn invalid_configured_pattern_fails_the_build() {
    let mut cfg = base_config();
    cfg.excludes.push(("oops[".to_string(), None));
    let err = build_filterer(&cfg).unwrap_err();
    assert_eq!(err.pattern, "oops[");
    assert_eq!(err.position, 4);
}

#[test]
fn allowlist_is_taken_from_the_configuration() {
    let mut cfg = base_config();
    cfg.allowlist = vec![FsEvent::Remove];
    let filterer = build_filterer(&cfg).unwrap();
    assert_eq!(
        filterer.check_event(&event("x", vec![RawTag::Remove]), EventPriority::Normal),
        Ok(true)
    );
    assert_eq!(
        filterer.check_event(&event("x", vec![RawTag::Create]), EventPriority::Normal),
        Ok(false)
    );
}
