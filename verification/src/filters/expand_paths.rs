//! Rewrites paths embedded in the document to absolute, shell-expanded
//! paths while preserving all surrounding text exactly.
use super::Filter;
use super::FilterError;
use crate::util::NormalizeError;
use crate::util::chars_to_string;
use crate::util::is_absolute_path;
use crate::util::normalize_path;
use crate::util::parent_dir;
use crate::util::parent_of;
use crate::util::plain_norm;
use crate::util::plain_path;
use crate::util::push_range;
use crate::util::push_str_chars;
use crate::util::range_to_string;
use crate::util::str_to_chars;

use vstd::prelude::*;

verus! {

/// Contains the errors which can occur while the execution of the expand
/// paths filter.
#[derive(Debug)]
pub enum ExpandPathsError {
    /// Normalize Error occurred.
    NormalizeError(NormalizeError),
    /// Parent element of source file path couldn't be determined. Contains
    /// the path in question.
    NoParentFolder(String),
}

impl ExpandPathsError {
    /// The description that the corresponding filter error carries.
    pub open spec fn spec_description(&self) -> Seq<char> {
        match self {
            ExpandPathsError::NormalizeError(err) => "path normalize error "@ + err.spec_message(),
            ExpandPathsError::NoParentFolder(path) => "no parent folder for path "@ + path@
                + " found"@,
        }
    }

    /// Wraps the error as a filter error carrying the filter's name and a
    /// human-readable description.
    pub fn into_filter_error(self) -> (r: FilterError)
        ensures
            r.name@ == "expand_paths"@,
            r.description@ == self.spec_description(),
    {
        let description = match &self {
            ExpandPathsError::NormalizeError(err) => {
                let mut d = String::from_str("path normalize error ");
                d.append(err.message().as_str());
                d
            },
            ExpandPathsError::NoParentFolder(path) => {
                let mut d = String::from_str("no parent folder for path ");
                d.append(path.as_str());
                d.append(" found");
                proof {
                    assert(d@ =~= self.spec_description());
                }
                d
            },
        };
        FilterError { name: String::from_str("expand_paths"), description }
    }
}

/// Defines the element which should be expanded. This way the filter can be
/// called multiple times for different use cases.
#[derive(Clone, Copy, PartialEq, Eq, Structural, Debug)]
pub enum ExpandOn {
    /// Expand the quoted path of template directives (`{% ... "path" %}`,
    /// with any lower-case keyword between the braces).
    TemplateDirectives,
    /// Expand embedded links like images.
    EmbeddedLinks,
}

impl ExpandOn {
    /// The name that `name` returns.
    pub open spec fn spec_name(self) -> Seq<char> {
        match self {
            ExpandOn::TemplateDirectives => "template directives"@,
            ExpandOn::EmbeddedLinks => "embedded links"@,
        }
    }

    /// Returns the human-readable name of the document element.
    pub fn name(self) -> (r: &'static str)
        ensures
            r@ == self.spec_name(),
    {
        match self {
            ExpandOn::TemplateDirectives => "template directives",
            ExpandOn::EmbeddedLinks => "embedded links",
        }
    }
}

/// A white-space character: the Unicode White_Space class, as both the
/// directive grammar and the option splitting understand it.
pub open spec fn is_ws(c: char) -> bool {
    c == ' ' || c == '\t' || c == '\n' || c == '\r' || c == '\u{b}' || c == '\u{c}' || c
        == '\u{85}' || c == '\u{a0}' || c == '\u{1680}' || ('\u{2000}' <= c && c <= '\u{200a}')
        || c == '\u{2028}' || c == '\u{2029}' || c == '\u{202f}' || c == '\u{205f}' || c
        == '\u{3000}'
}

/// Returns whether the character is white space, as `is_ws` says.
pub fn ws_char(c: char) -> (b: bool)
    ensures
        b == is_ws(c),
{
    c == ' ' || c == '\t' || c == '\n' || c == '\r' || c == '\u{b}' || c == '\u{c}' || c
        == '\u{85}' || c == '\u{a0}' || c == '\u{1680}' || ('\u{2000}' <= c && c <= '\u{200a}')
        || c == '\u{2028}' || c == '\u{2029}' || c == '\u{202f}' || c == '\u{205f}' || c
        == '\u{3000}'
}

/// A lower-case letter: a directive keyword is a run of these.
pub open spec fn is_lower(c: char) -> bool {
    'a' <= c && c <= 'z'
}

/// The whitespace predicate as a value, shared by all scans.
pub open spec fn ws_pred() -> spec_fn(char) -> bool {
    |c: char| is_ws(c)
}

/// The lower-case predicate as a value, shared by all scans.
pub open spec fn lower_pred() -> spec_fn(char) -> bool {
    |c: char| is_lower(c)
}

/// First index at or after `j` whose character fails the predicate, or the
/// end of the sequence.
pub open spec fn scan_while(s: Seq<char>, j: int, p: spec_fn(char) -> bool) -> int
    decreases s.len() - j,
    when 0 <= j <= s.len()
{
    if j >= s.len() {
        s.len() as int
    } else if p(s[j]) {
        scan_while(s, j + 1, p)
    } else {
        j
    }
}

pub proof fn lemma_scan_while_bounds(s: Seq<char>, j: int, p: spec_fn(char) -> bool)
    requires
        0 <= j <= s.len(),
    ensures
        j <= scan_while(s, j, p) <= s.len(),
    decreases s.len() - j,
{
    if j < s.len() && p(s[j]) {
        lemma_scan_while_bounds(s, j + 1, p);
    }
}

/// First position at or after `j` where the alt text of an embedded link
/// closes with `](`, with no newline in between.
pub open spec fn link_alt_end(s: Seq<char>, j: int) -> Option<int>
    decreases s.len() - j,
    when 0 <= j
{
    if j + 1 >= s.len() {
        None
    } else if s[j] == ']' && s[j + 1] == '(' {
        Some(j)
    } else if s[j] == '\n' {
        None
    } else {
        link_alt_end(s, j + 1)
    }
}

proof fn lemma_link_alt_end_bounds(s: Seq<char>, j: int)
    requires
        0 <= j,
    ensures
        link_alt_end(s, j) matches Some(k) ==> j <= k && k + 1 < s.len(),
    decreases s.len() - j,
{
    if j + 1 < s.len() && !(s[j] == ']' && s[j + 1] == '(') && s[j] != '\n' {
        lemma_link_alt_end_bounds(s, j + 1);
    }
}

/// First position at or after `k` where an embedded link's target closes
/// with `)`, with no newline in between.
pub open spec fn link_target_end(s: Seq<char>, k: int) -> Option<int>
    decreases s.len() - k,
    when 0 <= k
{
    if k >= s.len() {
        None
    } else if s[k] == ')' {
        Some(k)
    } else if s[k] == '\n' {
        None
    } else {
        link_target_end(s, k + 1)
    }
}

proof fn lemma_link_target_end_bounds(s: Seq<char>, k: int)
    requires
        0 <= k,
    ensures
        link_target_end(s, k) matches Some(e) ==> k <= e && e < s.len(),
    decreases s.len() - k,
{
    if k < s.len() && s[k] != ')' && s[k] != '\n' {
        lemma_link_target_end_bounds(s, k + 1);
    }
}

/// Where an embedded link `![alt](target)` starts at `i`: the start of its
/// target path, the end of the target, and the end of the whole match.
pub open spec fn link_match_at(s: Seq<char>, i: int) -> Option<(int, int, int)> {
    if 0 <= i && i + 1 < s.len() && s[i] == '!' && s[i + 1] == '[' {
        match link_alt_end(s, i + 2) {
            Some(j) => match link_target_end(s, j + 2) {
                Some(k) => Some((j + 2, k, k + 1)),
                None => None,
            },
            None => None,
        }
    } else {
        None
    }
}

/// Whether a directive's closing quote at `k` is followed by whitespace and
/// the closing `%}`; if so, the index just past the `}`.
pub open spec fn dir_quote_end(s: Seq<char>, k: int) -> Option<int> {
    let d = scan_while(s, k + 1, ws_pred());
    if d > k + 1 && d + 1 < s.len() && s[d] == '%' && s[d + 1] == '}' {
        Some(d + 2)
    } else {
        None
    }
}

/// First position at or after `k` where a directive's quoted path closes:
/// a `"` followed by whitespace and `%}`, with no newline inside the path.
pub open spec fn dir_close(s: Seq<char>, k: int) -> Option<(int, int)>
    decreases s.len() - k,
    when 0 <= k
{
    if k >= s.len() {
        None
    } else if s[k] == '\n' {
        None
    } else if s[k] == '"' && dir_quote_end(s, k) is Some {
        Some((k, dir_quote_end(s, k)->0))
    } else {
        dir_close(s, k + 1)
    }
}

proof fn lemma_dir_close_bounds(s: Seq<char>, k: int)
    requires
        0 <= k,
    ensures
        dir_close(s, k) matches Some(t) ==> k <= t.0 && t.0 + 3 < t.1 && t.1 <= s.len(),
    decreases s.len() - k,
{
    if k < s.len() && s[k] != '\n' {
        if s[k] == '"' && dir_quote_end(s, k) is Some {
            lemma_scan_while_bounds(s, k + 1, ws_pred());
        } else {
            lemma_dir_close_bounds(s, k + 1);
        }
    }
}

/// Where a template directive `{% word "path" %}` starts at `i`: the start
/// of its quoted path, the end of the path, and the end of the whole match.
/// Any run of lower-case letters serves as the directive keyword, so every
/// path-bearing directive of this shape is rewritten, whichever engine
/// keyword it carries.
pub open spec fn dir_match_at(s: Seq<char>, i: int) -> Option<(int, int, int)> {
    if 0 <= i && i + 1 < s.len() && s[i] == '{' && s[i + 1] == '%' {
        let a = scan_while(s, i + 2, ws_pred());
        let b = scan_while(s, a, lower_pred());
        let c = scan_while(s, b, ws_pred());
        if a > i + 2 && b > a && c > b && c < s.len() && s[c] == '"' {
            match dir_close(s, c + 1) {
                Some(t) => Some((c + 1, t.0, t.1)),
                None => None,
            }
        } else {
            None
        }
    } else {
        None
    }
}

/// Where a span of the given kind starts at `i`: the start of its path zone,
/// the end of the path zone, and the end of the whole span.
pub open spec fn match_at(s: Seq<char>, i: int, kind: ExpandOn) -> Option<(int, int, int)> {
    match kind {
        ExpandOn::TemplateDirectives => dir_match_at(s, i),
        ExpandOn::EmbeddedLinks => link_match_at(s, i),
    }
}

/// Any span found at `i` lies strictly inside the text after `i`, its path
/// zone inside the span.
pub proof fn lemma_match_at_bounds(s: Seq<char>, i: int, kind: ExpandOn)
    ensures
        match_at(s, i, kind) matches Some(t) ==> i < t.0 <= t.1 < t.2 <= s.len(),
{
    match kind {
        ExpandOn::EmbeddedLinks => {
            if 0 <= i && i + 1 < s.len() && s[i] == '!' && s[i + 1] == '[' {
                lemma_link_alt_end_bounds(s, i + 2);
                match link_alt_end(s, i + 2) {
                    Some(j) => lemma_link_target_end_bounds(s, j + 2),
                    None => {},
                }
            }
        },
        ExpandOn::TemplateDirectives => {
            if 0 <= i && i + 1 < s.len() && s[i] == '{' && s[i + 1] == '%' {
                let a = scan_while(s, i + 2, ws_pred());
                lemma_scan_while_bounds(s, i + 2, ws_pred());
                let b = scan_while(s, a, lower_pred());
                lemma_scan_while_bounds(s, a, lower_pred());
                let c = scan_while(s, b, ws_pred());
                lemma_scan_while_bounds(s, b, ws_pred());
                if a > i + 2 && b > a && c > b && c < s.len() && s[c] == '"' {
                    lemma_dir_close_bounds(s, c + 1);
                }
            }
        },
    }
}

/// True when no span of the given kind occurs in `s` at or after `i`.
pub open spec fn no_match_from(s: Seq<char>, i: int, kind: ExpandOn) -> bool
    decreases s.len() - i,
    when 0 <= i
{
    if i >= s.len() {
        true
    } else if match_at(s, i, kind) is Some {
        false
    } else {
        no_match_from(s, i + 1, kind)
    }
}

/// True when every path zone of the given kind in `s` at or after `i` needs
/// no environment lookup.
pub open spec fn paths_plain_from(s: Seq<char>, i: int, kind: ExpandOn) -> bool
    decreases s.len() - i,
    when 0 <= i
    via paths_plain_from_dec
{
    if i >= s.len() {
        true
    } else {
        match match_at(s, i, kind) {
            Some(t) => plain_path(s.subrange(t.0, t.1)) && paths_plain_from(s, t.2, kind),
            None => paths_plain_from(s, i + 1, kind),
        }
    }
}

#[via_fn]
proof fn paths_plain_from_dec(s: Seq<char>, i: int, kind: ExpandOn) {
    lemma_match_at_bounds(s, i, kind);
}

/// The text of `s` from `i` on with every span of the given kind rewritten:
/// the surrounding text of each span is kept exactly, and its path zone is
/// replaced as `plain_norm` says. Describes the filter's result as long as
/// every path zone needs no environment lookup.
pub open spec fn rewrite_plain(s: Seq<char>, i: int, kind: ExpandOn, wd: Seq<char>) -> Seq<char>
    decreases s.len() - i,
    when 0 <= i
    via rewrite_plain_dec
{
    if i >= s.len() {
        Seq::empty()
    } else {
        match match_at(s, i, kind) {
            Some(t) => s.subrange(i, t.0) + plain_norm(s.subrange(t.0, t.1), wd) + s.subrange(
                t.1,
                t.2,
            ) + rewrite_plain(s, t.2, kind, wd),
            None => seq![s[i]] + rewrite_plain(s, i + 1, kind, wd),
        }
    }
}

#[via_fn]
proof fn rewrite_plain_dec(s: Seq<char>, i: int, kind: ExpandOn, wd: Seq<char>) {
    lemma_match_at_bounds(s, i, kind);
}

/// Where no span of the given kind occurs, the rewriting keeps the text
/// exactly, and the plain-paths condition holds trivially.
pub proof fn lemma_no_match_rewrite(s: Seq<char>, i: int, kind: ExpandOn, wd: Seq<char>)
    requires
        0 <= i <= s.len(),
        no_match_from(s, i, kind),
    ensures
        rewrite_plain(s, i, kind, wd) == s.subrange(i, s.len() as int),
        paths_plain_from(s, i, kind),
    decreases s.len() - i,
{
    if i >= s.len() {
        assert(s.subrange(i, s.len() as int) =~= Seq::<char>::empty());
    } else {
        lemma_no_match_rewrite(s, i + 1, kind, wd);
        assert(seq![s[i]] + s.subrange(i + 1, s.len() as int) =~= s.subrange(i, s.len() as int));
    }
}

/// Finds the first `](` at or after `j0`, stopping at a newline.
fn find_link_alt_end(v: &Vec<char>, j0: usize) -> (r: Option<usize>)
    ensures
        r matches Some(k) ==> link_alt_end(v@, j0 as int) == Some(k as int) && j0 <= k && k + 1
            < v@.len(),
        r is None ==> link_alt_end(v@, j0 as int) is None,
{
    let mut j = j0;
    loop
        invariant
            j0 <= j,
            link_alt_end(v@, j0 as int) == link_alt_end(v@, j as int),
        decreases v@.len() - j,
    {
        if j >= v.len() {
            return None;
        }
        if j + 1 >= v.len() {
            return None;
        }
        if v[j] == ']' && v[j + 1] == '(' {
            return Some(j);
        }
        if v[j] == '\n' {
            return None;
        }
        j = j + 1;
    }
}

/// Finds the first `)` at or after `k0`, stopping at a newline.
fn find_link_target_end(v: &Vec<char>, k0: usize) -> (r: Option<usize>)
    ensures
        r matches Some(e) ==> link_target_end(v@, k0 as int) == Some(e as int) && k0 <= e && e
            < v@.len(),
        r is None ==> link_target_end(v@, k0 as int) is None,
{
    let mut k = k0;
    loop
        invariant
            k0 <= k,
            link_target_end(v@, k0 as int) == link_target_end(v@, k as int),
        decreases v@.len() - k,
    {
        if k >= v.len() {
            return None;
        }
        if v[k] == ')' {
            return Some(k);
        }
        if v[k] == '\n' {
            return None;
        }
        k = k + 1;
    }
}

/// Scans past whitespace, returning the first non-whitespace index.
fn scan_ws(v: &Vec<char>, j0: usize) -> (r: usize)
    requires
        j0 <= v@.len(),
    ensures
        r == scan_while(v@, j0 as int, ws_pred()),
        j0 <= r <= v@.len(),
{
    let mut j = j0;
    loop
        invariant
            j0 <= j <= v@.len(),
            scan_while(v@, j0 as int, ws_pred()) == scan_while(v@, j as int, ws_pred()),
        decreases v@.len() - j,
    {
        if j >= v.len() {
            return j;
        }
        let c = v[j];
        if !ws_char(c) {
            proof {
                assert(!ws_pred()(v@[j as int]));
            }
            return j;
        }
        proof {
            assert(ws_pred()(v@[j as int]));
        }
        j = j + 1;
    }
}

/// Scans past lower-case letters, returning the first other index.
fn scan_lower(v: &Vec<char>, j0: usize) -> (r: usize)
    requires
        j0 <= v@.len(),
    ensures
        r == scan_while(v@, j0 as int, lower_pred()),
        j0 <= r <= v@.len(),
{
    let mut j = j0;
    loop
        invariant
            j0 <= j <= v@.len(),
            scan_while(v@, j0 as int, lower_pred()) == scan_while(v@, j as int, lower_pred()),
        decreases v@.len() - j,
    {
        if j >= v.len() {
            return j;
        }
        let c = v[j];
        if !('a' <= c && c <= 'z') {
            proof {
                assert(!lower_pred()(v@[j as int]));
            }
            return j;
        }
        proof {
            assert(lower_pred()(v@[j as int]));
        }
        j = j + 1;
    }
}

/// Finds the close of a directive's quoted path at or after `k0`.
fn find_dir_close(v: &Vec<char>, k0: usize) -> (r: Option<(usize, usize)>)
    ensures
        r matches Some(t) ==> dir_close(v@, k0 as int) == Some((t.0 as int, t.1 as int)) && k0
            <= t.0 && t.0 + 3 < t.1 && t.1 <= v@.len(),
        r is None ==> dir_close(v@, k0 as int) is None,
{
    let mut k = k0;
    loop
        invariant
            k0 <= k,
            dir_close(v@, k0 as int) == dir_close(v@, k as int),
        decreases v@.len() - k,
    {
        if k >= v.len() {
            return None;
        }
        if v[k] == '\n' {
            return None;
        }
        if v[k] == '"' {
            let d = scan_ws(v, k + 1);
            if d > k + 1 && d < v.len() && v[d] == '%' && d + 1 < v.len() && v[d + 1] == '}' {
                return Some((k, d + 2));
            }
            proof {
                assert(dir_quote_end(v@, k as int) is None);
            }
        }
        k = k + 1;
    }
}

/// Finds a span of the given kind starting exactly at `i`.
fn try_match(v: &Vec<char>, i: usize, kind: ExpandOn) -> (r: Option<(usize, usize, usize)>)
    ensures
        r matches Some(t) ==> match_at(v@, i as int, kind) == Some(
            (t.0 as int, t.1 as int, t.2 as int),
        ) && i < t.0 && t.0 <= t.1 && t.1 < t.2 && t.2 <= v@.len(),
        r is None ==> match_at(v@, i as int, kind) is None,
{
    proof {
        lemma_match_at_bounds(v@, i as int, kind);
    }
    match kind {
        ExpandOn::EmbeddedLinks => {
            if i >= v.len() {
                return None;
            }
            if i + 1 >= v.len() {
                return None;
            }
            if !(v[i] == '!' && v[i + 1] == '[') {
                return None;
            }
            match find_link_alt_end(v, i + 2) {
                Some(j) => match find_link_target_end(v, j + 2) {
                    Some(k) => Some((j + 2, k, k + 1)),
                    None => None,
                },
                None => None,
            }
        },
        ExpandOn::TemplateDirectives => {
            if i >= v.len() {
                return None;
            }
            if i + 1 >= v.len() {
                return None;
            }
            if !(v[i] == '{' && v[i + 1] == '%') {
                return None;
            }
            let a = scan_ws(v, i + 2);
            let b = scan_lower(v, a);
            let c = scan_ws(v, b);
            if !(a > i + 2 && b > a && c > b && c < v.len()) {
                return None;
            }
            if v[c] != '"' {
                return None;
            }
            match find_dir_close(v, c + 1) {
                Some(t) => Some((c + 1, t.0, t.1)),
                None => None,
            }
        },
    }
}

/// Expand paths in the source file to absolute paths and also shellexpand
/// them.
pub struct ExpandPaths {
    /// Path to the parent folder where the data originates. This is used to
    /// make relative paths used in the source reachable.
    pub wd: String,
    /// Defines which elements should be expanded.
    pub expand_on: Vec<ExpandOn>,
}

/// The text after applying the rewriting for each kind in turn, each pass
/// consuming the previous one's output.
pub open spec fn spec_apply_all(s: Seq<char>, kinds: Seq<ExpandOn>, wd: Seq<char>) -> Seq<char>
    decreases kinds.len(),
{
    if kinds.len() == 0 {
        s
    } else {
        spec_apply_all(rewrite_plain(s, 0, kinds[0], wd), kinds.subrange(1, kinds.len() as int), wd)
    }
}

/// True when every path zone that any of the passes meets needs no
/// environment lookup.
pub open spec fn all_plain(s: Seq<char>, kinds: Seq<ExpandOn>, wd: Seq<char>) -> bool
    decreases kinds.len(),
{
    if kinds.len() == 0 {
        true
    } else {
        paths_plain_from(s, 0, kinds[0]) && all_plain(
            rewrite_plain(s, 0, kinds[0], wd),
            kinds.subrange(1, kinds.len() as int),
            wd,
        )
    }
}

impl ExpandPaths {
    /// Returns a new expand paths filter for the given source file. The
    /// second parameter states on which elements the paths should be
    /// expanded.
    pub fn new(input_file: &str, expand_on: Vec<ExpandOn>) -> (r: Result<ExpandPaths, FilterError>)
        ensures
            parent_dir(input_file@) matches Some(p) ==> (r matches Ok(f) && f.wd@ == p
                && f.expand_on == expand_on),
            parent_dir(input_file@) is None ==> (r matches Err(e) && e.name@ == "expand_paths"@
                && e.description@ == "no parent folder for path "@ + input_file@ + " found"@),
    {
        match parent_of(input_file) {
            Some(wd) => Ok(ExpandPaths { wd, expand_on }),
            None => Err(
                ExpandPathsError::NoParentFolder(input_file.to_owned()).into_filter_error(),
            ),
        }
    }

    /// Expands a given path to its absolute representation based on the
    /// parent directory of the source file. The function also shellexpands
    /// the path. A path whose expansion fails is replaced by a visible
    /// `ERROR` marker rather than aborting the whole pass, so that one bad
    /// reference does not block the rest of the document.
    pub fn expand_path(&self, path: &str) -> (r: String)
        ensures
            plain_path(path@) ==> r@ == plain_norm(path@, self.wd@),
            is_absolute_path(self.wd@) ==> (r@ == "ERROR"@ || is_absolute_path(r@)),
    {
        match normalize_path(path, Some(self.wd.as_str())) {
            Ok(x) => x,
            Err(_) => String::from_str("ERROR"),
        }
    }

    /// One rewriting pass over the content for one kind of span.
    fn expand_once(&self, content: &Vec<char>, kind: ExpandOn) -> (r: Vec<char>)
        ensures
            paths_plain_from(content@, 0, kind) ==> r@ == rewrite_plain(
                content@,
                0,
                kind,
                self.wd@,
            ),
            no_match_from(content@, 0, kind) ==> r@ == content@,
    {
        let ghost s = content@;
        let ghost wd = self.wd@;
        let mut out: Vec<char> = Vec::new();
        let mut i: usize = 0;
        while i < content.len()
            invariant
                i <= s.len(),
                s == content@,
                wd == self.wd@,
                paths_plain_from(s, 0, kind) ==> {
                    &&& paths_plain_from(s, i as int, kind)
                    &&& rewrite_plain(s, 0, kind, wd) == out@ + rewrite_plain(s, i as int, kind, wd)
                },
                no_match_from(s, 0, kind) ==> {
                    &&& no_match_from(s, i as int, kind)
                    &&& out@ == s.subrange(0, i as int)
                },
            decreases s.len() - i,
        {
            match try_match(content, i, kind) {
                Some((ps, pe, e)) => {
                    let path_str = range_to_string(content, ps, pe);
                    let expanded = self.expand_path(path_str.as_str());
                    let ghost out0 = out@;
                    push_range(&mut out, content, i, ps);
                    push_str_chars(&mut out, expanded.as_str());
                    push_range(&mut out, content, pe, e);
                    proof {
                        if paths_plain_from(s, 0, kind) {
                            assert(paths_plain_from(s, i as int, kind));
                            assert(plain_path(s.subrange(ps as int, pe as int)));
                            assert(expanded@ == plain_norm(s.subrange(ps as int, pe as int), wd));
                            assert(paths_plain_from(s, e as int, kind));
                            assert(out@ + rewrite_plain(s, e as int, kind, wd) =~= out0
                                + rewrite_plain(s, i as int, kind, wd));
                        }
                        if no_match_from(s, 0, kind) {
                            assert(no_match_from(s, i as int, kind));
                            assert(false);
                        }
                    }
                    i = e;
                },
                None => {
                    let c = content[i];
                    let ghost out0 = out@;
                    out.push(c);
                    proof {
                        if paths_plain_from(s, 0, kind) {
                            assert(rewrite_plain(s, i as int, kind, wd) == seq![s[i as int]]
                                + rewrite_plain(s, i as int + 1, kind, wd));
                            assert(out@ + rewrite_plain(s, i as int + 1, kind, wd) =~= out0
                                + rewrite_plain(s, i as int, kind, wd));
                        }
                        if no_match_from(s, 0, kind) {
                            assert(out@ =~= s.subrange(0, i as int + 1));
                        }
                    }
                    i = i + 1;
                },
            }
        }
        proof {
            if paths_plain_from(s, 0, kind) {
                assert(rewrite_plain(s, i as int, kind, wd) == Seq::<char>::empty());
                assert(out@ + Seq::<char>::empty() =~= out@);
            }
            if no_match_from(s, 0, kind) {
                assert(s.subrange(0, i as int) =~= s);
            }
        }
        out
    }

    /// Applies every configured pass in order to the given content. The
    /// surrounding text of every rewritten span is preserved verbatim; where
    /// no span occurs at all the content comes back unchanged.
    pub fn apply(self, data: String) -> (r: Result<String, FilterError>)
        ensures
            r is Ok,
            all_plain(data@, self.expand_on@, self.wd@) ==> r->Ok_0@ == spec_apply_all(
                data@,
                self.expand_on@,
                self.wd@,
            ),
            (forall|kk: ExpandOn| self.expand_on@.contains(kk) ==> no_match_from(data@, 0, kk))
                ==> r->Ok_0@ == data@,
    {
        let ghost kinds = self.expand_on@;
        let ghost wd = self.wd@;
        let mut cur: Vec<char> = str_to_chars(data.as_str());
        let n = self.expand_on.len();
        let mut idx: usize = 0;
        proof {
            assert(kinds.subrange(0, n as int) =~= kinds);
        }
        while idx < n
            invariant
                idx <= n,
                n == kinds.len(),
                kinds == self.expand_on@,
                wd == self.wd@,
                all_plain(data@, kinds, wd) ==> {
                    &&& all_plain(cur@, kinds.subrange(idx as int, n as int), wd)
                    &&& spec_apply_all(data@, kinds, wd) == spec_apply_all(
                        cur@,
                        kinds.subrange(idx as int, n as int),
                        wd,
                    )
                },
                (forall|kk: ExpandOn| kinds.contains(kk) ==> no_match_from(data@, 0, kk)) ==> cur@
                    == data@,
            decreases n - idx,
        {
            let kind = self.expand_on[idx];
            let ghost cur0 = cur@;
            let next = self.expand_once(&cur, kind);
            cur = next;
            proof {
                let rest = kinds.subrange(idx as int, n as int);
                assert(rest[0] == kind);
                assert(rest.subrange(1, rest.len() as int) =~= kinds.subrange(
                    idx as int + 1,
                    n as int,
                ));
                if all_plain(data@, kinds, wd) {
                    assert(all_plain(cur0, rest, wd));
                    assert(paths_plain_from(cur0, 0, kind));
                    assert(cur@ == rewrite_plain(cur0, 0, kind, wd));
                }
                if forall|kk: ExpandOn| kinds.contains(kk) ==> no_match_from(data@, 0, kk) {
                    assert(kinds.contains(kind)) by {
                        assert(kinds[idx as int] == kind);
                    }
                    assert(no_match_from(cur0, 0, kind));
                }
            }
            idx = idx + 1;
        }
        proof {
            if all_plain(data@, kinds, wd) {
                assert(kinds.subrange(idx as int, n as int).len() == 0);
                assert(spec_apply_all(cur@, kinds.subrange(idx as int, n as int), wd) == cur@);
            }
        }
        Ok(chars_to_string(&cur))
    }
}

impl Filter for ExpandPaths {
    fn apply(self, data: String) -> Result<String, FilterError> {
        ExpandPaths::apply(self, data)
    }
}

} // verus!
