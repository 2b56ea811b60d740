//! Startup configuration: the immutable description of what to watch and how
//! to filter — roots, ordered include/exclude rules, the kind allowlist and
//! the failure policies — assembled once and compiled into a filterer.

use vstd::prelude::*;
use crate::glob::{
    GlobPatternStore, PatternSyntaxError, valid_pattern, pattern_tokens, toks, scope_view,
    parse_from, find_close,
};
use crate::kinds::FsEvent;
use crate::pipeline::WatchexecFilterer;

verus! {

/// The whole startup configuration, constructed once and then read-only.
pub struct WatchConfig {
    /// The directory trees to watch.
    pub roots: Vec<String>,
    /// Ordered include rules: a glob pattern, optionally bounded to a scope
    /// root directory.
    pub includes: Vec<(String, Option<String>)>,
    /// Ordered exclude rules, same shape as the includes.
    pub excludes: Vec<(String, Option<String>)>,
    /// The canonical kinds that pass the event-kind stage.
    pub allowlist: Vec<FsEvent>,
    /// Whether the default exclude set is merged in after the configured
    /// exclude rules.
    pub use_default_excludes: bool,
    /// Whether a partially successful registration proceeds with the roots
    /// that did register.
    pub proceed_on_partial_registration: bool,
    /// Whether a mid-run failure of the OS primitive resumes watching.
    pub auto_resume: bool,
}

/// The `k`-th pattern of the default exclude set: version-control metadata
/// trees, editor and swap artifacts, OS artifact files, compiled-script
/// caches, and the tool's own rotated logs.
pub open spec fn default_exclude_pattern(k: int) -> Seq<char> {
    if k == 0 {
        "**/.DS_Store"@
    } else if k == 1 {
        "watchexec.*.log"@
    } else if k == 2 {
        "*.py[co]"@
    } else if k == 3 {
        "#*#"@
    } else if k == 4 {
        ".#*"@
    } else if k == 5 {
        ".*.kate-swp"@
    } else if k == 6 {
        ".*.sw?"@
    } else if k == 7 {
        ".*.sw?x"@
    } else if k == 8 {
        "**/.bzr/**"@
    } else if k == 9 {
        "**/_darcs/**"@
    } else if k == 10 {
        "**/.fossil-settings/**"@
    } else if k == 11 {
        "**/.git/**"@
    } else if k == 12 {
        "**/.hg/**"@
    } else if k == 13 {
        "**/.pijul/**"@
    } else {
        "**/.svn/**"@
    }
}

/// The default exclude set, in order, as pattern strings.
pub fn default_exclude_patterns() -> (v: Vec<String>)
    ensures
        v@.len() == 15,
        forall|k: int| 0 <= k < 15 ==> (#[trigger] v@[k])@ == default_exclude_pattern(k),
{
    let mut v: Vec<String> = Vec::new();
    v.push(String::from_str("**/.DS_Store"));
    v.push(String::from_str("watchexec.*.log"));
    v.push(String::from_str("*.py[co]"));
    v.push(String::from_str("#*#"));
    v.push(String::from_str(".#*"));
    v.push(String::from_str(".*.kate-swp"));
    v.push(String::from_str(".*.sw?"));
    v.push(String::from_str(".*.sw?x"));
    v.push(String::from_str("**/.bzr/**"));
    v.push(String::from_str("**/_darcs/**"));
    v.push(String::from_str("**/.fossil-settings/**"));
    v.push(String::from_str("**/.git/**"));
    v.push(String::from_str("**/.hg/**"));
    v.push(String::from_str("**/.pijul/**"));
    v.push(String::from_str("**/.svn/**"));
    v
}

/// A pattern without any bracket class parses from any position on.
proof fn lemma_no_bracket_parses(p: Seq<char>, i: int)
    requires
        0 <= i <= p.len(),
        forall|j: int| i <= j < p.len() ==> p[j] != '[',
    ensures
        parse_from(p, i) is Ok,
    decreases p.len() - i,
{
    if i < p.len() {
        if p[i] == '*' && i + 1 < p.len() && p[i + 1] == '*' {
            lemma_no_bracket_parses(p, i + 2);
        } else {
            lemma_no_bracket_parses(p, i + 1);
        }
    }
}

/// Every pattern of the default exclude set is a valid glob.
pub proof fn lemma_default_excludes_valid()
    ensures
        forall|k: int| 0 <= k < 15 ==> valid_pattern(#[trigger] default_exclude_pattern(k)),
{
    reveal_strlit("**/.DS_Store");
    reveal_strlit("watchexec.*.log");
    reveal_strlit("*.py[co]");
    reveal_strlit("#*#");
    reveal_strlit(".#*");
    reveal_strlit(".*.kate-swp");
    reveal_strlit(".*.sw?");
    reveal_strlit(".*.sw?x");
    reveal_strlit("**/.bzr/**");
    reveal_strlit("**/_darcs/**");
    reveal_strlit("**/.fossil-settings/**");
    reveal_strlit("**/.git/**");
    reveal_strlit("**/.hg/**");
    reveal_strlit("**/.pijul/**");
    reveal_strlit("**/.svn/**");
    lemma_no_bracket_parses("**/.DS_Store"@, 0);
    lemma_no_bracket_parses("watchexec.*.log"@, 0);
    lemma_no_bracket_parses("#*#"@, 0);
    lemma_no_bracket_parses(".#*"@, 0);
    lemma_no_bracket_parses(".*.kate-swp"@, 0);
    lemma_no_bracket_parses(".*.sw?"@, 0);
    lemma_no_bracket_parses(".*.sw?x"@, 0);
    lemma_no_bracket_parses("**/.bzr/**"@, 0);
    lemma_no_bracket_parses("**/_darcs/**"@, 0);
    lemma_no_bracket_parses("**/.fossil-settings/**"@, 0);
    lemma_no_bracket_parses("**/.git/**"@, 0);
    lemma_no_bracket_parses("**/.hg/**"@, 0);
    lemma_no_bracket_parses("**/.pijul/**"@, 0);
    lemma_no_bracket_parses("**/.svn/**"@, 0);
    // `*.py[co]`: walk the class by hand — the `]` closes at position 7.
    let pyc = "*.py[co]"@;
    assert(find_close(pyc, 7) == Option::Some(7int));
    assert(find_close(pyc, 6) == Option::Some(7int));
    assert(find_close(pyc, 5) == Option::Some(7int));
    assert(parse_from(pyc, 8) is Ok);
    assert(parse_from(pyc, 4) is Ok);
    assert(parse_from(pyc, 3) is Ok);
    assert(parse_from(pyc, 2) is Ok);
    assert(parse_from(pyc, 1) is Ok);
    assert(parse_from(pyc, 0) is Ok);
}

/// Every supplied pattern of the configuration is a valid glob.
pub open spec fn all_supplied_valid(cfg: WatchConfig) -> bool {
    (forall|i: int|
        0 <= i < cfg.includes@.len() ==> valid_pattern((#[trigger] cfg.includes@[i]).0@))
        && (forall|i: int|
        0 <= i < cfg.excludes@.len() ==> valid_pattern((#[trigger] cfg.excludes@[i]).0@))
}

/// Lifts an optional owned scope root to its mathematical view.
pub open spec fn opt_string_view(s: Option<String>) -> Option<Seq<char>> {
    match s {
        Option::None => Option::None,
        Option::Some(x) => Option::Some(x@),
    }
}

/// One compiled rule of the filterer corresponds to one configured rule.
pub open spec fn rule_compiled(rule: crate::glob::CompiledRule, entry: (
    String,
    Option<String>,
)) -> bool {
    toks(rule.tokens@) == pattern_tokens(entry.0@) && scope_view(rule.scope_root)
        == opt_string_view(entry.1)
}

/// Copies an allowlist of canonical kinds.
fn clone_kinds(v: &Vec<FsEvent>) -> (r: Vec<FsEvent>)
    ensures
        r@ == v@,
{
    let mut r: Vec<FsEvent> = Vec::new();
    let mut i: usize = 0;
    while i < v.len()
        invariant
            i <= v@.len(),
            r@ =~= v@.subrange(0, i as int),
        decreases v@.len() - i,
    {
        r.push(v[i]);
        i = i + 1;
    }
    proof {
        assert(r@ =~= v@);
    }
    r
}

/// Compiles the whole configuration into a filterer: the include rules in
/// order, then the exclude rules in order, then — if enabled — the default
/// exclude set, and the allowlist as given. Compilation fails atomically on
/// the first invalid pattern, and succeeds exactly when every supplied
/// pattern is valid: the default exclude set is proven valid once and for
/// all, so it can never be the cause.
#[verifier::loop_isolation(false)]
pub fn build_filterer(cfg: &WatchConfig) -> (r: Result<WatchexecFilterer, PatternSyntaxError>)
    ensures
        r is Ok <==> all_supplied_valid(*cfg),
        match r {
            Ok(f) => {
                &&& f.fs_events@ == cfg.allowlist@
                &&& f.inner.includes@.len() == cfg.includes@.len()
                &&& forall|i: int|
                    0 <= i < cfg.includes@.len() ==> rule_compiled(
                        #[trigger] f.inner.includes@[i],
                        cfg.includes@[i],
                    )
                &&& f.inner.excludes@.len() == cfg.excludes@.len() + (if cfg.use_default_excludes {
                    15int
                } else {
                    0int
                })
                &&& forall|i: int|
                    0 <= i < cfg.excludes@.len() ==> rule_compiled(
                        #[trigger] f.inner.excludes@[i],
                        cfg.excludes@[i],
                    )
                &&& (cfg.use_default_excludes ==> forall|k: int|
                    0 <= k < 15 ==> toks(
                        (#[trigger] f.inner.excludes@[cfg.excludes@.len() + k]).tokens@,
                    ) == pattern_tokens(default_exclude_pattern(k))
                        && f.inner.excludes@[cfg.excludes@.len() + k].scope_root is None)
            },
            Err(e) => !valid_pattern(e.pattern@),
        },
{
    let mut store = GlobPatternStore::new();
    let mut i: usize = 0;
    while i < cfg.includes.len()
        invariant
            i <= cfg.includes@.len(),
            store.excludes@.len() == 0,
            store.includes@.len() == i,
            forall|j: int|
                0 <= j < i ==> rule_compiled(#[trigger] store.includes@[j], cfg.includes@[j]),
            forall|j: int| 0 <= j < i ==> valid_pattern((#[trigger] cfg.includes@[j]).0@),
        decreases cfg.includes@.len() - i,
    {
        let entry = &cfg.includes[i];
        let scope: Option<&str> = match &entry.1 {
            Option::None => Option::None,
            Option::Some(s) => Option::Some(s.as_str()),
        };
        match store.add_include(entry.0.as_str(), scope) {
            Ok(()) => {},
            Err(e) => {
                proof {
                    assert(!valid_pattern(cfg.includes@[i as int].0@));
                }
                return Err(e);
            },
        }
        i = i + 1;
    }
    let mut x: usize = 0;
    while x < cfg.excludes.len()
        invariant
            x <= cfg.excludes@.len(),
            store.includes@.len() == cfg.includes@.len(),
            forall|j: int|
                0 <= j < cfg.includes@.len() ==> rule_compiled(
                    #[trigger] store.includes@[j],
                    cfg.includes@[j],
                ),
            store.excludes@.len() == x,
            forall|j: int|
                0 <= j < x ==> rule_compiled(#[trigger] store.excludes@[j], cfg.excludes@[j]),
            forall|j: int| 0 <= j < x ==> valid_pattern((#[trigger] cfg.excludes@[j]).0@),
        decreases cfg.excludes@.len() - x,
    {
        let entry = &cfg.excludes[x];
        let scope: Option<&str> = match &entry.1 {
            Option::None => Option::None,
            Option::Some(s) => Option::Some(s.as_str()),
        };
        match store.add_exclude(entry.0.as_str(), scope) {
            Ok(()) => {},
            Err(e) => {
                proof {
                    assert(!valid_pattern(cfg.excludes@[x as int].0@));
                }
                return Err(e);
            },
        }
        x = x + 1;
    }
    if cfg.use_default_excludes {
        proof {
            lemma_default_excludes_valid();
        }
        let defaults = default_exclude_patterns();
        let ghost base = cfg.excludes@.len();
        let mut k: usize = 0;
        while k < defaults.len()
            invariant
                k <= 15,
                store.includes@.len() == cfg.includes@.len(),
                forall|j: int|
                    0 <= j < cfg.includes@.len() ==> rule_compiled(
                        #[trigger] store.includes@[j],
                        cfg.includes@[j],
                    ),
                store.excludes@.len() == base + k,
                forall|j: int|
                    0 <= j < base ==> rule_compiled(
                        #[trigger] store.excludes@[j],
                        cfg.excludes@[j],
                    ),
                forall|m: int|
                    0 <= m < k ==> toks((#[trigger] store.excludes@[base + m]).tokens@)
                        == pattern_tokens(default_exclude_pattern(m)) && store.excludes@[base
                        + m].scope_root is None,
            decreases 15 - k,
        {
            match store.add_exclude(defaults[k].as_str(), Option::None) {
                Ok(()) => {},
                Err(e) => {
                    proof {
                        assert(valid_pattern(default_exclude_pattern(k as int)));
                        assert(false);
                    }
                    return Err(e);
                },
            }
            k = k + 1;
        }
    }
    Ok(WatchexecFilterer { inner: store, fs_events: clone_kinds(&cfg.allowlist) })
}

} // verus!
