//! Ant-style path patterns (`/users/{id}/**`, `*.html`, `file?.txt`) and their
//! translation into regular-expression source text.
//!
//! Pattern syntax, as recognised by [`glob_compile`]:
//! - `?` matches one character and becomes `.`;
//! - `*` matches any run of characters and becomes `.*`;
//! - `{name}` captures a variable with the default pattern `((?s).*)`;
//! - `{name:regex}` captures a variable with its own pattern `(regex)`.
//!
//! A variable begins at `{` and ends at the first `}` that closes it: the text
//! between is non-empty and holds no `/`, and an inner `{` opens a nested group
//! that ends at the first `}` after at least one character (so `{id:\d{3}}`
//! is one variable). A `{` that does not begin a variable is literal text.
//! Literal text between tokens is quoted with `\Q...\E`.

use vstd::prelude::*;
use crate::text::{push_char, substring, substring_spec, chars_of, views};

verus! {

/// The separator between path segments.
pub const DEFAULT_PATH_SEPARATOR: &'static str = "/";

/// A cache of the two suffix patterns built from a path separator.
pub struct PathSeparatorPatternCache {
    ends_on_wild_card: String,
    ends_on_double_wild_card: String,
}

impl PathSeparatorPatternCache {
    pub closed spec fn wild_card_view(&self) -> Seq<char> {
        self.ends_on_wild_card@
    }

    pub closed spec fn double_wild_card_view(&self) -> Seq<char> {
        self.ends_on_double_wild_card@
    }

    /// Builds `separator + "*"` and `separator + "**"`.
    pub fn new(path_separator: String) -> (r: Self)
        ensures
            r.wild_card_view() == path_separator@.push('*'),
            r.double_wild_card_view() == path_separator@.push('*').push('*'),
    {
        let mut single = path_separator.clone();
        push_char(&mut single, '*');
        let mut double = path_separator.clone();
        push_char(&mut double, '*');
        push_char(&mut double, '*');
        PathSeparatorPatternCache { ends_on_wild_card: single, ends_on_double_wild_card: double }
    }

    pub fn get_ends_on_wild_card(&self) -> (r: &String)
        ensures
            r@ == self.wild_card_view(),
    {
        &self.ends_on_wild_card
    }

    pub fn get_ends_on_double_wild_card(&self) -> (r: &String)
        ensures
            r@ == self.double_wild_card_view(),
    {
        &self.ends_on_double_wild_card
    }
}

/// The replacement of an inner `\E` inside a `\Q...\E` quotation: `\E\\E\Q`.
pub open spec fn escaped_end() -> Seq<char> {
    seq!['\\', 'E', '\\', '\\', 'E', '\\', 'Q']
}

/// Quoted body of `t`: every `\E` (scanning left to right) is replaced by `\E\\E\Q`.
pub open spec fn quote_body(t: Seq<char>) -> Seq<char>
    decreases t.len(),
{
    if t.len() == 0 {
        Seq::empty()
    } else if t.len() >= 2 && t[0] == '\\' && t[1] == 'E' {
        escaped_end() + quote_body(t.subrange(2, t.len() as int))
    } else {
        seq![t[0]] + quote_body(t.subrange(1, t.len() as int))
    }
}

/// `\Q` + quoted body + `\E`: a regular expression that matches exactly `t`.
pub open spec fn quote_literal(t: Seq<char>) -> Seq<char> {
    seq!['\\', 'Q'] + quote_body(t) + seq!['\\', 'E']
}

/// The quotation of the characters `start..end` of `s`; empty when the range is empty.
pub open spec fn quote_range(s: Seq<char>, start: int, end: int) -> Seq<char> {
    if start == end {
        Seq::empty()
    } else {
        quote_literal(substring_spec(s, start, end))
    }
}

/// Scans a variable that began with `{` at `open`, from position `p`. `nest` is
/// the position of an inner `{` whose group is still open, or `-1`. The result is
/// the position of the closing `}`, or `None` when `open` does not begin a variable.
pub open spec fn group_close(s: Seq<char>, open: int, p: int, nest: int) -> Option<int>
    decreases s.len() - p,
{
    if p < 0 || p >= s.len() {
        None
    } else if s[p] == '/' {
        None
    } else if nest >= 0 {
        if s[p] == '}' && p > nest + 1 {
            group_close(s, open, p + 1, -1)
        } else {
            group_close(s, open, p + 1, nest)
        }
    } else if s[p] == '}' {
        if p > open + 1 { Some(p) } else { None }
    } else if s[p] == '{' {
        group_close(s, open, p + 1, p)
    } else {
        group_close(s, open, p + 1, -1)
    }
}

pub proof fn lemma_group_close_bounds(s: Seq<char>, open: int, p: int, nest: int)
    ensures
        group_close(s, open, p, nest) matches Some(q) ==> p <= q < s.len() && s[q] == '}',
    decreases s.len() - p,
{
    if p < 0 || p >= s.len() {
    } else if s[p] == '/' {
    } else if nest >= 0 {
        if s[p] == '}' && p > nest + 1 {
            lemma_group_close_bounds(s, open, p + 1, -1);
        } else {
            lemma_group_close_bounds(s, open, p + 1, nest);
        }
    } else if s[p] == '}' {
    } else if s[p] == '{' {
        lemma_group_close_bounds(s, open, p + 1, p);
    } else {
        lemma_group_close_bounds(s, open, p + 1, -1);
    }
}

/// The position of the first `c` in `t` at or after `k`.
pub open spec fn index_of_from(t: Seq<char>, c: char, k: int) -> Option<int>
    decreases t.len() - k,
{
    if k < 0 || k >= t.len() {
        None
    } else if t[k] == c {
        Some(k)
    } else {
        index_of_from(t, c, k + 1)
    }
}

pub proof fn lemma_index_of_from_bounds(t: Seq<char>, c: char, k: int)
    ensures
        index_of_from(t, c, k) matches Some(i) ==> k <= i < t.len() && t[i] == c,
    decreases t.len() - k,
{
    if k < 0 || k >= t.len() {
    } else if t[k] == c {
    } else {
        lemma_index_of_from_bounds(t, c, k + 1);
    }
}

/// The default pattern of a variable without its own: `((?s).*)`.
pub open spec fn default_variable_pattern() -> Seq<char> {
    seq!['(', '(', '?', 's', ')', '.', '*', ')']
}

/// The regular expression that a variable with body `content` (the text between
/// its braces) contributes.
pub open spec fn variable_regex(content: Seq<char>) -> Seq<char> {
    match index_of_from(content, ':', 0) {
        None => default_variable_pattern(),
        Some(c) => seq!['('] + content.subrange(c + 1, content.len() as int) + seq![')'],
    }
}

/// The name of a variable with body `content`.
pub open spec fn variable_name(content: Seq<char>) -> Seq<char> {
    match index_of_from(content, ':', 0) {
        None => content,
        Some(c) => content.subrange(0, c),
    }
}

/// Translation of the pattern `s` from position `p` on, where literal text not
/// yet quoted begins at `lit`: the regular expression, the variable names, and
/// whether any token (`?`, `*` or a variable) occurs from `p` on.
pub open spec fn glob_compile(s: Seq<char>, lit: int, p: int) -> (Seq<char>, Seq<Seq<char>>, bool)
    decreases s.len() - p,
{
    if p < 0 || p >= s.len() {
        (quote_range(s, lit, s.len() as int), Seq::empty(), false)
    } else if s[p] == '?' {
        let r = glob_compile(s, p + 1, p + 1);
        (quote_range(s, lit, p) + seq!['.'] + r.0, r.1, true)
    } else if s[p] == '*' {
        let r = glob_compile(s, p + 1, p + 1);
        (quote_range(s, lit, p) + seq!['.', '*'] + r.0, r.1, true)
    } else if s[p] == '{' && group_close(s, p, p + 1, -1) is Some {
        let q = group_close(s, p, p + 1, -1)->0;
        proof {
            lemma_group_close_bounds(s, p, p + 1, -1);
        }
        let content = s.subrange(p + 1, q);
        let r = glob_compile(s, q + 1, q + 1);
        (
            quote_range(s, lit, p) + variable_regex(content) + r.0,
            seq![variable_name(content)] + r.1,
            true,
        )
    } else {
        glob_compile(s, lit, p + 1)
    }
}

/// A pattern segment compiled for matching.
pub struct AntPathStringMatcher {
    raw_pattern: String,
    case_sensitive: bool,
    exact_match: bool,
    pattern: Option<String>,
    variable_names: Vec<String>,
}

/// Quotes `t` (the body of `Pattern.quote`).
fn quote_chars(t: &Vec<char>) -> (r: String)
    ensures
        r@ == quote_literal(t@),
{
    let n = t.len();
    let mut out = String::new();
    push_char(&mut out, '\\');
    push_char(&mut out, 'Q');
    let mut k: usize = 0;
    assert(t@.subrange(0, n as int) =~= t@);
    while k < n
        invariant
            n == t@.len(),
            k <= n,
            out@ + quote_body(t@.subrange(k as int, n as int)) == seq!['\\', 'Q'] + quote_body(t@),
        decreases n - k,
    {
        let ghost rest = t@.subrange(k as int, n as int);
        if k + 1 < n && t[k] == '\\' && t[k + 1] == 'E' {
            push_char(&mut out, '\\');
            push_char(&mut out, 'E');
            push_char(&mut out, '\\');
            push_char(&mut out, '\\');
            push_char(&mut out, 'E');
            push_char(&mut out, '\\');
            push_char(&mut out, 'Q');
            assert(rest.subrange(2, rest.len() as int) =~= t@.subrange(k + 2, n as int));
            assert(out@ + quote_body(t@.subrange(k + 2, n as int)) =~= seq!['\\', 'Q'] + quote_body(t@));
            k = k + 2;
        } else {
            push_char(&mut out, t[k]);
            assert(rest.subrange(1, rest.len() as int) =~= t@.subrange(k + 1, n as int));
            assert(out@ + quote_body(t@.subrange(k + 1, n as int)) =~= seq!['\\', 'Q'] + quote_body(t@));
            k = k + 1;
        }
    }
    assert(t@.subrange(n as int, n as int) =~= Seq::<char>::empty());
    push_char(&mut out, '\\');
    push_char(&mut out, 'E');
    assert(out@ =~= quote_literal(t@));
    out
}

/// Quotes the characters `start..end` of `s` (empty when `start == end`).
fn quote_segment(s: &str, start: usize, end: usize) -> (r: String)
    ensures
        r@ == quote_range(s@, start as int, end as int),
{
    if start == end {
        return String::new();
    }
    let part = substring(s, start, end);
    let cs = chars_of(part.as_str());
    quote_chars(&cs)
}

/// Where the variable that begins with `{` at `open` closes (see [`group_close`]).
fn find_group_close(cs: &Vec<char>, open: usize) -> (r: Option<usize>)
    requires
        open < cs@.len(),
    ensures
        r matches Some(q) ==> group_close(cs@, open as int, open + 1, -1) == Some(q as int),
        r is None ==> group_close(cs@, open as int, open + 1, -1) is None,
{
    let n = cs.len();
    let mut p = open + 1;
    let mut nest: Option<usize> = None;
    while p < n
        invariant
            n == cs@.len(),
            open < p <= n,
            nest matches Some(t) ==> t < p,
            group_close(cs@, open as int, open + 1, -1) == group_close(
                cs@,
                open as int,
                p as int,
                match nest { Some(t) => t as int, None => -1 },
            ),
        decreases n - p,
    {
        let c = cs[p];
        if c == '/' {
            return None;
        }
        match nest {
            Some(t) => {
                if c == '}' && p > t + 1 {
                    nest = None;
                }
            },
            None => {
                if c == '}' {
                    if p > open + 1 {
                        return Some(p);
                    } else {
                        return None;
                    }
                } else if c == '{' {
                    nest = Some(p);
                }
            },
        }
        p = p + 1;
    }
    None
}

/// The first position of `c` in `t` at or after `k`.
fn find_char(t: &Vec<char>, c: char, k: usize) -> (r: Option<usize>)
    requires
        k <= t@.len(),
    ensures
        r matches Some(i) ==> index_of_from(t@, c, k as int) == Some(i as int),
        r is None ==> index_of_from(t@, c, k as int) is None,
    decreases t@.len() - k,
{
    if k >= t.len() {
        None
    } else if t[k] == c {
        Some(k)
    } else {
        find_char(t, c, k + 1)
    }
}

/// A string holding `t[from..to]`.
fn chars_range(t: &Vec<char>, from: usize, to: usize) -> (r: String)
    requires
        from <= to <= t@.len(),
    ensures
        r@ == t@.subrange(from as int, to as int),
{
    let mut r = String::new();
    crate::text::append_chars(&mut r, t, from, to);
    r
}

impl AntPathStringMatcher {
    pub closed spec fn raw_pattern_view(&self) -> Seq<char> {
        self.raw_pattern@
    }

    pub closed spec fn case_sensitive_view(&self) -> bool {
        self.case_sensitive
    }

    pub closed spec fn exact_match_view(&self) -> bool {
        self.exact_match
    }

    pub closed spec fn pattern_view(&self) -> Option<Seq<char>> {
        match self.pattern {
            Some(p) => Some(p@),
            None => None,
        }
    }

    pub closed spec fn variable_names_view(&self) -> Seq<Seq<char>> {
        views(self.variable_names@)
    }

    /// Compiles `pattern`. A pattern without any `?`, `*` or variable is an
    /// exact match and gets no regular expression.
    pub fn new(pattern: String, case_sensitive: bool) -> (r: Self)
        ensures
            r.raw_pattern_view() == pattern@,
            r.case_sensitive_view() == case_sensitive,
            r.exact_match_view() == !glob_compile(pattern@, 0, 0).2,
            r.pattern_view() == (if glob_compile(pattern@, 0, 0).2 {
                Some(glob_compile(pattern@, 0, 0).0)
            } else {
                None
            }),
            r.variable_names_view() == glob_compile(pattern@, 0, 0).1,
    {
        let cs = chars_of(pattern.as_str());
        let n = cs.len();
        let ghost s = pattern@;
        let mut out = String::new();
        let mut names: Vec<String> = Vec::new();
        let mut found = false;
        let mut lit: usize = 0;
        let mut p: usize = 0;
        while p < n
            invariant
                n == s.len(),
                cs@ == s,
                s == pattern@,
                lit <= p <= n,
                out@ + glob_compile(s, lit as int, p as int).0 == glob_compile(s, 0, 0).0,
                views(names@) + glob_compile(s, lit as int, p as int).1 == glob_compile(s, 0, 0).1,
                (found || glob_compile(s, lit as int, p as int).2) == glob_compile(s, 0, 0).2,
            decreases n - p,
        {
            let c = cs[p];
            if c == '?' || c == '*' {
                let q = quote_segment(pattern.as_str(), lit, p);
                out.append(q.as_str());
                push_char(&mut out, '.');
                if c == '*' {
                    push_char(&mut out, '*');
                }
                found = true;
                p = p + 1;
                lit = p;
                proof {
                    assert(views(names@) + glob_compile(s, lit as int, p as int).1 == glob_compile(s, 0, 0).1);
                }
            } else if c == '{' {
                match find_group_close(&cs, p) {
                    Some(qpos) => {
                        proof {
                            lemma_group_close_bounds(s, p as int, p + 1, -1);
                        }
                        let q = quote_segment(pattern.as_str(), lit, p);
                        out.append(q.as_str());
                        let content = chars_range(&cs, p + 1, qpos);
                        let ccs = chars_of(content.as_str());
                        let ghost content_view = s.subrange(p + 1, qpos as int);
                        match find_char(&ccs, ':', 0) {
                            None => {
                                out.append("((?s).*)");
                                proof {
                                    reveal_strlit("((?s).*)");
                                    assert("((?s).*)"@ =~= default_variable_pattern());
                                }
                                names.push(content);
                            },
                            Some(ci) => {
                                proof {
                                    lemma_index_of_from_bounds(ccs@, ':', 0);
                                }
                                push_char(&mut out, '(');
                                let vp = chars_range(&ccs, ci + 1, ccs.len());
                                out.append(vp.as_str());
                                push_char(&mut out, ')');
                                let name = chars_range(&ccs, 0, ci);
                                names.push(name);
                            },
                        }
                        found = true;
                        proof {
                            let ghost old_names = views(names@.drop_last());
                            assert(views(names@) =~= old_names.push(variable_name(content_view)));
                        }
                        p = qpos + 1;
                        lit = p;
                    },
                    None => {
                        p = p + 1;
                    },
                }
            } else {
                p = p + 1;
            }
        }
        let tail = quote_segment(pattern.as_str(), lit, n);
        out.append(tail.as_str());
        proof {
            assert(out@ =~= glob_compile(s, 0, 0).0);
            assert(views(names@) =~= glob_compile(s, 0, 0).1);
        }
        if found {
            AntPathStringMatcher {
                raw_pattern: pattern,
                case_sensitive,
                exact_match: false,
                pattern: Some(out),
                variable_names: names,
            }
        } else {
            AntPathStringMatcher {
                raw_pattern: pattern,
                case_sensitive,
                exact_match: true,
                pattern: None,
                variable_names: names,
            }
        }
    }

    /// Quotes the characters `start..end` of `s`; empty when `start == end`.
    pub fn quote(&self, s: String, start: usize, end: usize) -> (r: String)
        ensures
            r@ == quote_range(s@, start as int, end as int),
    {
        quote_segment(s.as_str(), start, end)
    }

    /// Quotes `s` so that, as a regular expression, it matches exactly `s`.
    pub fn quote_the_str(&self, s: String) -> (r: String)
        ensures
            r@ == quote_literal(s@),
    {
        let cs = chars_of(s.as_str());
        quote_chars(&cs)
    }

    pub fn raw_pattern(&self) -> (r: &String)
        ensures
            r@ == self.raw_pattern_view(),
    {
        &self.raw_pattern
    }

    pub fn is_exact_match(&self) -> (r: bool)
        ensures
            r == self.exact_match_view(),
    {
        self.exact_match
    }

    pub fn is_case_sensitive(&self) -> (r: bool)
        ensures
            r == self.case_sensitive_view(),
    {
        self.case_sensitive
    }

    /// The regular expression, when the pattern is not an exact match.
    pub fn pattern(&self) -> (r: Option<String>)
        ensures
            r matches Some(p) ==> self.pattern_view() == Some(p@),
            r is None ==> self.pattern_view() is None,
    {
        match &self.pattern {
            Some(p) => Some(p.clone()),
            None => None,
        }
    }

    pub fn variable_names(&self) -> (r: &Vec<String>)
        ensures
            views(r@) == self.variable_names_view(),
    {
        &self.variable_names
    }
}


/// Matching of paths against Ant-style patterns.
pub trait PathMatcher {
    fn is_pattern(path: String) -> bool;

    fn is_match(pattern: String, path: String) -> bool;

    fn match_start(pattern: String, path: String) -> bool;

    fn extract_path_within_pattern(pattern: String, path: String) -> String;

    fn extract_uri_template_variables(pattern: String, path: String) -> Vec<(String, String)>;

    fn combine(pattern1: String, pattern2: String) -> String;
}

/// The settings and caches of an Ant-style path matcher.
pub struct AntPathMatcher {
    path_separator: String,
    path_separator_pattern_cache: PathSeparatorPatternCache,
    case_sensitive: bool,
    trim_tokens: bool,
    cache_patterns: bool,
    tokenized_pattern_cache: Vec<(String, Vec<String>)>,
    string_matcher_cache: Vec<(String, AntPathStringMatcher)>,
}


/// A pattern with no `?`, `*` or `{` from position `p` on has no token there.
proof fn lemma_plain_tail(s: Seq<char>, lit: int, p: int)
    requires
        0 <= p,
        forall|i: int| p <= i < s.len() ==> s[i] != '?' && s[i] != '*' && s[i] != '{',
    ensures
        !glob_compile(s, lit, p).2,
    decreases s.len() - p,
{
    if p < s.len() {
        lemma_plain_tail(s, lit, p + 1);
    }
}

/// A pattern without `?`, `*` and `{` is matched exactly: it has no regular
/// expression and no variables.
pub proof fn law_plain_pattern_is_exact(s: Seq<char>)
    requires
        forall|i: int| 0 <= i < s.len() ==> s[i] != '?' && s[i] != '*' && s[i] != '{',
    ensures
        !glob_compile(s, 0, 0).2,
{
    lemma_plain_tail(s, 0, 0);
}

proof fn lemma_wildcard_ahead(s: Seq<char>, lit: int, p: int, i: int)
    requires
        0 <= p <= i < s.len(),
        s[i] == '?' || s[i] == '*',
    ensures
        glob_compile(s, lit, p).2,
    decreases i - p,
{
    if p < i && s[p] != '?' && s[p] != '*' && !(s[p] == '{' && group_close(s, p, p + 1, -1) is Some) {
        lemma_wildcard_ahead(s, lit, p + 1, i);
    }
}

/// A pattern holding a `?` or a `*` is never matched exactly: it is compiled
/// to a regular expression.
pub proof fn law_wildcard_pattern_is_not_exact(s: Seq<char>, i: int)
    requires
        0 <= i < s.len(),
        s[i] == '?' || s[i] == '*',
    ensures
        glob_compile(s, 0, 0).2,
{
    lemma_wildcard_ahead(s, 0, 0, i);
}

/// Whether a variable (`{name}` or `{name:regex}`) begins at position `j`.
pub open spec fn starts_variable(s: Seq<char>, j: int) -> bool {
    s[j] == '{' && group_close(s, j, j + 1, -1) is Some
}

/// The variable names are those of the pattern's `{..}` groups in the order
/// they appear: when the first variable at or after `k` begins at `p`, the
/// names from `k` on are that variable's name followed by the names after
/// its closing `}`. So the i-th name labels the i-th capture group.
pub proof fn law_variable_names_in_pattern_order(s: Seq<char>, lit: int, k: int, p: int)
    requires
        0 <= k <= p < s.len(),
        starts_variable(s, p),
        forall|j: int| k <= j < p ==> !starts_variable(s, j),
    ensures
        glob_compile(s, lit, k).1 == seq![variable_name(s.subrange(p + 1, group_close(s, p, p + 1, -1)->0))]
            + glob_compile(s, group_close(s, p, p + 1, -1)->0 + 1, group_close(s, p, p + 1, -1)->0 + 1).1,
    decreases p - k,
{
    if k < p {
        assert(!starts_variable(s, k));
        if s[k] == '?' || s[k] == '*' {
            law_variable_names_in_pattern_order(s, k + 1, k + 1, p);
        } else {
            law_variable_names_in_pattern_order(s, lit, k + 1, p);
        }
    }
}

/// A pattern with no variable from position `k` on has no variable names there.
pub proof fn law_no_variables_no_names(s: Seq<char>, lit: int, k: int)
    requires
        0 <= k,
        forall|j: int| k <= j < s.len() ==> !starts_variable(s, j),
    ensures
        glob_compile(s, lit, k).1 == Seq::<Seq<char>>::empty(),
    decreases s.len() - k,
{
    if k < s.len() {
        assert(!starts_variable(s, k));
        if s[k] == '?' || s[k] == '*' {
            law_no_variables_no_names(s, k + 1, k + 1);
        } else {
            law_no_variables_no_names(s, lit, k + 1);
        }
    }
}

/// Whether `t` holds the two characters `\E` at position `i`.
pub open spec fn quote_end_at(t: Seq<char>, i: int) -> bool {
    t[i] == '\\' && t[i + 1] == 'E'
}

/// Text that holds no `\E` is quoted as itself between `\Q` and `\E`.
pub proof fn law_quote_plain_text(t: Seq<char>)
    requires
        forall|i: int| 0 <= i < t.len() - 1 ==> !#[trigger] quote_end_at(t, i),
    ensures
        quote_body(t) == t,
        quote_literal(t) == seq!['\\', 'Q'] + t + seq!['\\', 'E'],
    decreases t.len(),
{
    if t.len() > 0 {
        let rest = t.subrange(1, t.len() as int);
        assert forall|i: int| 0 <= i < rest.len() - 1 implies !#[trigger] quote_end_at(rest, i) by {
            assert(rest[i] == t[i + 1] && rest[i + 1] == t[i + 2]);
            assert(!quote_end_at(t, i + 1));
        }
        law_quote_plain_text(rest);
        if t.len() >= 2 {
            assert(!quote_end_at(t, 0));
        }
        assert(quote_body(t) == seq![t[0]] + quote_body(rest));
        assert(seq![t[0]] + rest =~= t);
    } else {
        assert(t =~= Seq::<char>::empty());
    }
}

} // verus!
