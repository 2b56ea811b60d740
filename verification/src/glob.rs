//! The path stage: glob patterns compiled once into token lists, a
//! separator-aware matcher, and the include/exclude rule store with
//! exclude-over-include precedence.
//!
//! Pattern syntax: `?` matches one non-separator character, `*` matches zero
//! or more characters within one segment, `**` matches across segments,
//! `[..]` (or negated `[!..]`) matches one non-separator character from a
//! set. Every other character matches itself. The separator is `/`.

use vstd::prelude::*;

verus! {

/// Compiled form of one glob pattern element.
#[derive(Debug, Clone)]
pub enum Token {
    /// Matches exactly this character (the separator included).
    Lit(char),
    /// `?`: one character other than the separator.
    AnyChar,
    /// `*`: zero or more characters within one segment.
    Star,
    /// `**`: zero or more characters across segments.
    GlobStar,
    /// `[..]` / `[!..]`: one non-separator character from (or outside) a set.
    Class { negated: bool, chars: Vec<char> },
}

/// Mathematical form of a compiled pattern element.
#[verifier::ext_equal]
pub enum TokenModel {
    Lit(char),
    AnyChar,
    Star,
    GlobStar,
    Class { negated: bool, chars: Seq<char> },
}

impl View for Token {
    type V = TokenModel;

    open spec fn view(&self) -> TokenModel {
        match self {
            Token::Lit(c) => TokenModel::Lit(*c),
            Token::AnyChar => TokenModel::AnyChar,
            Token::Star => TokenModel::Star,
            Token::GlobStar => TokenModel::GlobStar,
            Token::Class { negated, chars } => TokenModel::Class {
                negated: *negated,
                chars: chars@,
            },
        }
    }
}

/// The mathematical view of a compiled token list.
pub open spec fn toks(ts: Seq<Token>) -> Seq<TokenModel> {
    ts.map_values(|t: Token| t@)
}

/// Index of the first `]` at or after position `i` of the pattern, if any.
pub open spec fn find_close(p: Seq<char>, i: int) -> Option<int>
    decreases p.len() - i,
{
    if i < 0 || i >= p.len() {
        Option::None
    } else if p[i] == ']' {
        Option::Some(i)
    } else {
        find_close(p, i + 1)
    }
}

/// Parses the pattern from position `i` on into tokens; an error carries the
/// position of the offending character (the `[` of a malformed class).
pub open spec fn parse_from(p: Seq<char>, i: int) -> Result<Seq<TokenModel>, int>
    decreases p.len() - i,
{
    if i < 0 || i >= p.len() {
        Ok(Seq::empty())
    } else if p[i] == '?' {
        match parse_from(p, i + 1) {
            Ok(rest) => Ok(seq![TokenModel::AnyChar] + rest),
            Err(e) => Err(e),
        }
    } else if p[i] == '*' {
        if i + 1 < p.len() && p[i + 1] == '*' {
            match parse_from(p, i + 2) {
                Ok(rest) => Ok(seq![TokenModel::GlobStar] + rest),
                Err(e) => Err(e),
            }
        } else {
            match parse_from(p, i + 1) {
                Ok(rest) => Ok(seq![TokenModel::Star] + rest),
                Err(e) => Err(e),
            }
        }
    } else if p[i] == '[' {
        let neg = i + 1 < p.len() && p[i + 1] == '!';
        let s: int = if neg { i + 2 } else { i + 1 };
        match find_close(p, s) {
            Option::None => Err(i),
            Option::Some(j) => if j <= s || j + 1 > p.len() {
                Err(i)
            } else {
                match parse_from(p, j + 1) {
                    Ok(rest) => Ok(
                        seq![TokenModel::Class { negated: neg, chars: p.subrange(s, j) }] + rest,
                    ),
                    Err(e) => Err(e),
                }
            },
        }
    } else {
        match parse_from(p, i + 1) {
            Ok(rest) => Ok(seq![TokenModel::Lit(p[i])] + rest),
            Err(e) => Err(e),
        }
    }
}

/// A pattern is valid when it is non-empty and parses in full.
pub open spec fn valid_pattern(p: Seq<char>) -> bool {
    p.len() > 0 && parse_from(p, 0) is Ok
}

/// The compiled tokens of a valid pattern.
pub open spec fn pattern_tokens(p: Seq<char>) -> Seq<TokenModel>
    recommends
        valid_pattern(p),
{
    parse_from(p, 0)->Ok_0
}

/// The reported position of the syntax error in an invalid pattern.
pub open spec fn pattern_error_pos(p: Seq<char>) -> int {
    if p.len() == 0 {
        0
    } else {
        parse_from(p, 0)->Err_0
    }
}

/// Whether one non-separator character is accepted by a bracket class.
pub open spec fn class_hit(negated: bool, chars: Seq<char>, c: char) -> bool {
    c != '/' && (chars.contains(c) != negated)
}

/// The meaning of a compiled pattern: whether it matches the whole path.
pub open spec fn tokens_match(ts: Seq<TokenModel>, path: Seq<char>) -> bool
    decreases ts.len(), path.len(),
{
    if ts.len() == 0 {
        path.len() == 0
    } else {
        match ts[0] {
            TokenModel::Lit(c) => path.len() > 0 && path[0] == c && tokens_match(
                ts.skip(1),
                path.skip(1),
            ),
            TokenModel::AnyChar => path.len() > 0 && path[0] != '/' && tokens_match(
                ts.skip(1),
                path.skip(1),
            ),
            TokenModel::Class { negated, chars } => path.len() > 0 && class_hit(
                negated,
                chars,
                path[0],
            ) && tokens_match(ts.skip(1), path.skip(1)),
            TokenModel::Star => tokens_match(ts.skip(1), path) || (path.len() > 0 && path[0] != '/'
                && tokens_match(ts, path.skip(1))),
            TokenModel::GlobStar => tokens_match(ts.skip(1), path) || (path.len() > 0
                && tokens_match(ts, path.skip(1))),
        }
    }
}

/// Prepending a token to a compiled list prepends its view to the list's view.
proof fn lemma_toks_prepend(before: Seq<Token>, t: Token)
    ensures
        toks(before.insert(0, t)) =~= seq![t@] + toks(before),
{
    let after = before.insert(0, t);
    before.insert_ensures(0, t);
    assert forall|k: int| 0 <= k < after.len() implies toks(after)[k] == (seq![t@] + toks(
        before,
    ))[k] by {
        if k > 0 {
            assert(after[k] == before[k - 1]);
        }
    }
}

/// Collects the characters of a string into a vector, in order.
fn to_chars(s: &str) -> (v: Vec<char>)
    ensures
        v@ == s@,
{
    let n = s.unicode_len();
    let mut v: Vec<char> = Vec::new();
    let mut i: usize = 0;
    while i < n
        invariant
            n == s@.len(),
            i <= n,
            v@.len() == i,
            forall|j: int| 0 <= j < i ==> v@[j] == s@[j],
        decreases n - i,
    {
        v.push(s.get_char(i));
        i = i + 1;
    }
    proof {
        assert(v@ =~= s@);
    }
    v
}

/// Index of the first `]` at or after `i`, if any.
fn find_close_at(p: &Vec<char>, i: usize) -> (r: Option<usize>)
    ensures
        match r {
            Option::Some(j) => i <= j < p@.len() && find_close(p@, i as int) == Option::Some(
                j as int,
            ),
            Option::None => find_close(p@, i as int) is None,
        },
    decreases p@.len() - i,
{
    if i >= p.len() {
        Option::None
    } else if p[i] == ']' {
        Option::Some(i)
    } else {
        find_close_at(p, i + 1)
    }
}

/// Parses the pattern from position `i` on; mirrors `parse_from`.
fn parse_at(p: &Vec<char>, i: usize) -> (r: Result<Vec<Token>, usize>)
    ensures
        match r {
            Ok(ts) => parse_from(p@, i as int) == Ok::<Seq<TokenModel>, int>(toks(ts@)),
            Err(e) => parse_from(p@, i as int) == Err::<Seq<TokenModel>, int>(e as int),
        },
    decreases p@.len() - i,
{
    if i >= p.len() {
        let out: Vec<Token> = Vec::new();
        proof {
            assert(toks(out@) =~= Seq::<TokenModel>::empty());
        }
        return Ok(out);
    }
    let c = p[i];
    if c == '?' {
        let mut rest = match parse_at(p, i + 1) {
            Ok(ts) => ts,
            Err(e) => {
                return Err(e);
            },
        };
        let ghost before = rest@;
        rest.insert(0, Token::AnyChar);
        proof {
            lemma_toks_prepend(before, Token::AnyChar);
            assert(toks(rest@) =~= seq![TokenModel::AnyChar] + toks(before));
        }
        Ok(rest)
    } else if c == '*' {
        if i + 1 < p.len() && p[i + 1] == '*' {
            let mut rest = match parse_at(p, i + 2) {
                Ok(ts) => ts,
                Err(e) => {
                    return Err(e);
                },
            };
            let ghost before = rest@;
            rest.insert(0, Token::GlobStar);
            proof {
                lemma_toks_prepend(before, Token::GlobStar);
                assert(toks(rest@) =~= seq![TokenModel::GlobStar] + toks(before));
            }
            Ok(rest)
        } else {
            let mut rest = match parse_at(p, i + 1) {
                Ok(ts) => ts,
                Err(e) => {
                    return Err(e);
                },
            };
            let ghost before = rest@;
            rest.insert(0, Token::Star);
            proof {
                lemma_toks_prepend(before, Token::Star);
                assert(toks(rest@) =~= seq![TokenModel::Star] + toks(before));
            }
            Ok(rest)
        }
    } else if c == '[' {
        let neg = i + 1 < p.len() && p[i + 1] == '!';
        let s: usize = if neg {
            i + 2
        } else {
            i + 1
        };
        match find_close_at(p, s) {
            Option::None => Err(i),
            Option::Some(j) => {
                if j <= s {
                    Err(i)
                } else {
                    let mut chars: Vec<char> = Vec::new();
                    let mut k: usize = s;
                    while k < j
                        invariant
                            s <= k <= j,
                            j < p@.len(),
                            chars@ =~= p@.subrange(s as int, k as int),
                        decreases j - k,
                    {
                        chars.push(p[k]);
                        k = k + 1;
                    }
                    proof {
                        assert(chars@ =~= p@.subrange(s as int, j as int));
                    }
                    let mut rest = match parse_at(p, j + 1) {
                        Ok(ts) => ts,
                        Err(e) => {
                            return Err(e);
                        },
                    };
                    let ghost before = rest@;
                    let ghost tokg = Token::Class { negated: neg, chars };
                    rest.insert(0, Token::Class { negated: neg, chars });
                    proof {
                        lemma_toks_prepend(before, tokg);
                        assert(toks(rest@) =~= seq![
                            TokenModel::Class {
                                negated: neg,
                                chars: p@.subrange(s as int, j as int),
                            },
                        ] + toks(before));
                    }
                    Ok(rest)
                }
            },
        }
    } else {
        let mut rest = match parse_at(p, i + 1) {
            Ok(ts) => ts,
            Err(e) => {
                return Err(e);
            },
        };
        let ghost before = rest@;
        rest.insert(0, Token::Lit(c));
        proof {
            lemma_toks_prepend(before, Token::Lit(c));
            assert(toks(rest@) =~= seq![TokenModel::Lit(p@[i as int])] + toks(before));
        }
        Ok(rest)
    }
}

/// Raised when a glob pattern is empty or malformed; `position` is the index
/// of the offending character within the pattern.
#[derive(Debug, Clone)]
pub struct PatternSyntaxError {
    pub pattern: String,
    pub position: usize,
}

/// Compiles one pattern into its token list, once, at construction time.
pub fn compile_pattern(pattern: &str) -> (r: Result<Vec<Token>, PatternSyntaxError>)
    ensures
        match r {
            Ok(ts) => valid_pattern(pattern@) && toks(ts@) == pattern_tokens(pattern@),
            Err(e) => !valid_pattern(pattern@) && e.pattern@ == pattern@ && e.position as int
                == pattern_error_pos(pattern@),
        },
{
    let chars = to_chars(pattern);
    if chars.len() == 0 {
        return Err(PatternSyntaxError { pattern: String::from_str(pattern), position: 0 });
    }
    match parse_at(&chars, 0) {
        Ok(ts) => Ok(ts),
        Err(pos) => Err(PatternSyntaxError { pattern: String::from_str(pattern), position: pos }),
    }
}

/// Whether one non-separator character is accepted by a bracket class.
fn class_check(negated: bool, chars: &Vec<char>, c: char) -> (r: bool)
    ensures
        r == class_hit(negated, chars@, c),
{
    if c == '/' {
        return false;
    }
    let mut i: usize = 0;
    while i < chars.len()
        invariant
            c != '/',
            i <= chars@.len(),
            forall|j: int| 0 <= j < i ==> chars@[j] != c,
        decreases chars@.len() - i,
    {
        if chars[i] == c {
            proof {
                assert(chars@.contains(c));
            }
            return !negated;
        }
        i = i + 1;
    }
    proof {
        assert(!chars@.contains(c));
    }
    negated
}

/// Whether the compiled tokens from `ti` on match the path from `pi` on.
fn match_at(ts: &Vec<Token>, ti: usize, path: &Vec<char>, pi: usize) -> (r: bool)
    requires
        ti <= ts@.len(),
        pi <= path@.len(),
    ensures
        r == tokens_match(toks(ts@).skip(ti as int), path@.skip(pi as int)),
    decreases ts@.len() - ti, path@.len() - pi,
{
    proof {
        assert(toks(ts@).len() == ts@.len());
    }
    if ti == ts.len() {
        proof {
            assert(toks(ts@).skip(ti as int) =~= Seq::<TokenModel>::empty());
        }
        pi == path.len()
    } else {
        proof {
            assert(toks(ts@).skip(ti as int)[0] == toks(ts@)[ti as int]);
            assert(toks(ts@)[ti as int] == ts@[ti as int]@);
            assert(toks(ts@).skip(ti as int).skip(1) =~= toks(ts@).skip(ti as int + 1));
            if pi < path@.len() {
                assert(path@.skip(pi as int)[0] == path@[pi as int]);
                assert(path@.skip(pi as int).skip(1) =~= path@.skip(pi as int + 1));
            }
        }
        let t = &ts[ti];
        match t {
            Token::Lit(c) => {
                if pi < path.len() && path[pi] == *c {
                    match_at(ts, ti + 1, path, pi + 1)
                } else {
                    false
                }
            },
            Token::AnyChar => {
                if pi < path.len() && path[pi] != '/' {
                    match_at(ts, ti + 1, path, pi + 1)
                } else {
                    false
                }
            },
            Token::Class { negated, chars } => {
                if pi < path.len() && class_check(*negated, chars, path[pi]) {
                    match_at(ts, ti + 1, path, pi + 1)
                } else {
                    false
                }
            },
            Token::Star => {
                if match_at(ts, ti + 1, path, pi) {
                    true
                } else if pi < path.len() && path[pi] != '/' {
                    match_at(ts, ti, path, pi + 1)
                } else {
                    false
                }
            },
            Token::GlobStar => {
                if match_at(ts, ti + 1, path, pi) {
                    true
                } else if pi < path.len() {
                    match_at(ts, ti, path, pi + 1)
                } else {
                    false
                }
            },
        }
    }
}

/// One compiled rule: a token list, optionally bounded to the descendants of
/// a scope root directory.
#[derive(Debug, Clone)]
pub struct CompiledRule {
    pub tokens: Vec<Token>,
    pub scope_root: Option<Vec<char>>,
}

/// Whether a rule's scope admits the path: no scope at all, or the path is a
/// strict descendant of the scope root.
pub open spec fn scope_ok(scope: Option<Vec<char>>, path: Seq<char>) -> bool {
    match scope {
        Option::None => true,
        Option::Some(root) => path.len() > root@.len() && path.subrange(0, root@.len() as int)
            == root@ && path[root@.len() as int] == '/',
    }
}

/// Whether one compiled rule fires on the path.
pub open spec fn rule_matches(r: CompiledRule, path: Seq<char>) -> bool {
    scope_ok(r.scope_root, path) && tokens_match(toks(r.tokens@), path)
}

/// Whether any rule of the list fires on the path.
pub open spec fn any_rule_matches(rs: Seq<CompiledRule>, path: Seq<char>) -> bool {
    exists|i: int| 0 <= i < rs.len() && rule_matches(rs[i], path)
}

/// Outcome of evaluating a path against the rule store.
#[derive(Clone, Copy, Debug, Eq, PartialEq, Structural)]
pub enum MatchOutcome {
    Included,
    Excluded,
    Unmatched,
}

fn prefix_matches(root: &Vec<char>, path: &Vec<char>) -> (r: bool)
    requires
        root@.len() <= path@.len(),
    ensures
        r == (path@.subrange(0, root@.len() as int) == root@),
{
    let mut i: usize = 0;
    while i < root.len()
        invariant
            i <= root@.len(),
            root@.len() <= path@.len(),
            forall|j: int| 0 <= j < i ==> path@[j] == root@[j],
        decreases root@.len() - i,
    {
        if path[i] != root[i] {
            proof {
                assert(path@.subrange(0, root@.len() as int)[i as int] != root@[i as int]);
            }
            return false;
        }
        i = i + 1;
    }
    proof {
        assert(path@.subrange(0, root@.len() as int) =~= root@);
    }
    true
}

fn scope_applies(scope: &Option<Vec<char>>, path: &Vec<char>) -> (r: bool)
    ensures
        r == scope_ok(*scope, path@),
{
    match scope {
        Option::None => true,
        Option::Some(root) => {
            if path.len() <= root.len() {
                return false;
            }
            if path[root.len()] != '/' {
                return false;
            }
            prefix_matches(root, path)
        },
    }
}

fn rule_check(rule: &CompiledRule, path: &Vec<char>) -> (r: bool)
    ensures
        r == rule_matches(*rule, path@),
{
    if !scope_applies(&rule.scope_root, path) {
        return false;
    }
    proof {
        assert(toks(rule.tokens@).skip(0) =~= toks(rule.tokens@));
        assert(path@.skip(0) =~= path@);
    }
    match_at(&rule.tokens, 0, path, 0)
}

fn any_match(rules: &Vec<CompiledRule>, path: &Vec<char>) -> (r: bool)
    ensures
        r == any_rule_matches(rules@, path@),
{
    let mut i: usize = 0;
    while i < rules.len()
        invariant
            i <= rules@.len(),
            forall|j: int| 0 <= j < i ==> !rule_matches(rules@[j], path@),
        decreases rules@.len() - i,
    {
        if rule_check(&rules[i], path) {
            proof {
                assert(rule_matches(rules@[i as int], path@));
            }
            return true;
        }
        i = i + 1;
    }
    false
}

/// The include/exclude rule store, compiled once at construction.
#[derive(Debug)]
pub struct GlobPatternStore {
    pub includes: Vec<CompiledRule>,
    pub excludes: Vec<CompiledRule>,
}

/// Lifts an optional scope root to its mathematical view.
pub open spec fn scope_view(s: Option<Vec<char>>) -> Option<Seq<char>> {
    match s {
        Option::None => Option::None,
        Option::Some(v) => Option::Some(v@),
    }
}

/// Lifts an optional borrowed string to its mathematical view.
pub open spec fn opt_str_view(s: Option<&str>) -> Option<Seq<char>> {
    match s {
        Option::None => Option::None,
        Option::Some(x) => Option::Some(x@),
    }
}

fn compile_rule(pattern: &str, scope_root: Option<&str>) -> (r: Result<
    CompiledRule,
    PatternSyntaxError,
>)
    ensures
        match r {
            Ok(rule) => valid_pattern(pattern@) && toks(rule.tokens@) == pattern_tokens(pattern@)
                && scope_view(rule.scope_root) == opt_str_view(scope_root),
            Err(e) => !valid_pattern(pattern@) && e.pattern@ == pattern@ && e.position as int
                == pattern_error_pos(pattern@),
        },
{
    let tokens = match compile_pattern(pattern) {
        Ok(ts) => ts,
        Err(e) => {
            return Err(e);
        },
    };
    let scope = match scope_root {
        Option::None => Option::None,
        Option::Some(s) => Option::Some(to_chars(s)),
    };
    Ok(CompiledRule { tokens, scope_root: scope })
}

impl GlobPatternStore {
    /// Classification of a path by the compiled rule sets: exclusion wins
    /// over inclusion, and with no include rules at all every path that is
    /// not excluded counts as included (the permissive default).
    pub open spec fn decide(self, path: Seq<char>) -> MatchOutcome {
        if any_rule_matches(self.excludes@, path) {
            MatchOutcome::Excluded
        } else if any_rule_matches(self.includes@, path) || self.includes@.len() == 0 {
            MatchOutcome::Included
        } else {
            MatchOutcome::Unmatched
        }
    }

    /// An empty store: no include and no exclude rules.
    pub fn new() -> (r: GlobPatternStore)
        ensures
            r.includes@.len() == 0,
            r.excludes@.len() == 0,
    {
        GlobPatternStore { includes: Vec::new(), excludes: Vec::new() }
    }

    /// Compiles and registers one include rule; on a syntax error the store
    /// is left exactly as it was.
    pub fn add_include(&mut self, pattern: &str, scope_root: Option<&str>) -> (r: Result<
        (),
        PatternSyntaxError,
    >)
        ensures
            match r {
                Ok(()) => valid_pattern(pattern@) && final(self).excludes@ == old(self).excludes@
                    && final(self).includes@.len() == old(self).includes@.len() + 1 && (forall|
                    i: int,
                |
                    0 <= i < old(self).includes@.len() ==> final(self).includes@[i] == old(
                        self,
                    ).includes@[i]) && toks(final(self).includes@.last().tokens@) == pattern_tokens(
                    pattern@,
                ) && scope_view(final(self).includes@.last().scope_root) == opt_str_view(
                    scope_root,
                ),
                Err(e) => *final(self) == *old(self) && !valid_pattern(pattern@) && e.pattern@
                    == pattern@ && e.position as int == pattern_error_pos(pattern@),
            },
    {
        match compile_rule(pattern, scope_root) {
            Ok(rule) => {
                self.includes.push(rule);
                Ok(())
            },
            Err(e) => Err(e),
        }
    }

    /// Compiles and registers one exclude rule; on a syntax error the store
    /// is left exactly as it was.
    pub fn add_exclude(&mut self, pattern: &str, scope_root: Option<&str>) -> (r: Result<
        (),
        PatternSyntaxError,
    >)
        ensures
            match r {
                Ok(()) => valid_pattern(pattern@) && final(self).includes@ == old(self).includes@
                    && final(self).excludes@.len() == old(self).excludes@.len() + 1 && (forall|
                    i: int,
                |
                    0 <= i < old(self).excludes@.len() ==> final(self).excludes@[i] == old(
                        self,
                    ).excludes@[i]) && toks(final(self).excludes@.last().tokens@) == pattern_tokens(
                    pattern@,
                ) && scope_view(final(self).excludes@.last().scope_root) == opt_str_view(
                    scope_root,
                ),
                Err(e) => *final(self) == *old(self) && !valid_pattern(pattern@) && e.pattern@
                    == pattern@ && e.position as int == pattern_error_pos(pattern@),
            },
    {
        match compile_rule(pattern, scope_root) {
            Ok(rule) => {
                self.excludes.push(rule);
                Ok(())
            },
            Err(e) => Err(e),
        }
    }

    /// Evaluates one path against the compiled rule sets.
    pub fn matches(&self, path: &str) -> (r: MatchOutcome)
        ensures
            r == self.decide(path@),
    {
        let chars = to_chars(path);
        if any_match(&self.excludes, &chars) {
            MatchOutcome::Excluded
        } else if self.includes.len() == 0 {
            MatchOutcome::Included
        } else if any_match(&self.includes, &chars) {
            MatchOutcome::Included
        } else {
            MatchOutcome::Unmatched
        }
    }
}

/// Exclude-over-include precedence: a path on which both an include rule and
/// an exclude rule fire is always classified `Excluded`.
pub proof fn lemma_exclude_precedence(store: GlobPatternStore, path: Seq<char>)
    requires
        any_rule_matches(store.includes@, path),
        any_rule_matches(store.excludes@, path),
    ensures
        store.decide(path) == MatchOutcome::Excluded,
{
}

/// Permissive default: with no include rules registered, every path on which
/// no exclude rule fires is classified `Included`.
pub proof fn lemma_empty_includes_permissive(store: GlobPatternStore, path: Seq<char>)
    requires
        store.includes@.len() == 0,
        !any_rule_matches(store.excludes@, path),
    ensures
        store.decide(path) == MatchOutcome::Included,
{
}

} // verus!
