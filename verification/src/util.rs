use vstd::prelude::*;

verus! {

/// Errors occurring while the normalization of paths.
#[derive(Debug)]
pub enum NormalizeError {
    /// The directory against which a relative path should be resolved could
    /// not be determined.
    WdNotFound,
    /// Lookup of an environment variable referenced by the path failed.
    /// Holds the erroneous path.
    LookupError(String),
}

impl NormalizeError {
    /// Renders the error as a single human-readable line.
    pub fn message(&self) -> (r: String)
        ensures
            r@ == self.spec_message(),
    {
        match self {
            NormalizeError::WdNotFound => {
                let r = String::from_str("working directory couldn't be determined");
                r
            },
            NormalizeError::LookupError(path) => {
                let mut r = String::from_str("some environment variables not found in path ");
                r.append(path.as_str());
                r
            },
        }
    }

    /// The text that `message` returns.
    pub open spec fn spec_message(&self) -> Seq<char> {
        match self {
            NormalizeError::WdNotFound => "working directory couldn't be determined"@,
            NormalizeError::LookupError(path) => "some environment variables not found in path "@
                + path@,
        }
    }
}

/// True of a path string that holds no `$`-variable reference and does not
/// start with `~`: shell expansion leaves such a path untouched.
pub open spec fn plain_path(s: Seq<char>) -> bool {
    !s.contains('$') && !(s.len() > 0 && s[0] == '~')
}

/// True of a path that names an absolute location.
pub open spec fn is_absolute_path(s: Seq<char>) -> bool {
    s.len() > 0 && s[0] == '/'
}

/// The base directory joined with a further path: a single `/` stands between
/// the two unless the base already ends with one or is empty.
pub open spec fn join_paths(base: Seq<char>, rel: Seq<char>) -> Seq<char> {
    if base.len() == 0 {
        rel
    } else if base[base.len() - 1] == '/' {
        base + rel
    } else {
        base + seq!['/'] + rel
    }
}

/// Returns whether the given path names an absolute location.
pub fn is_absolute(path: &str) -> (r: bool)
    ensures
        r == is_absolute_path(path@),
{
    if path.unicode_len() == 0 {
        false
    } else {
        path.get_char(0) == '/'
    }
}

/// Joins a further path onto a base directory, inserting a `/` where needed.
pub fn join_path(base: &str, rel: &str) -> (r: String)
    ensures
        r@ == join_paths(base@, rel@),
{
    let n = base.unicode_len();
    if n == 0 {
        return rel.to_owned();
    }
    let mut s = base.to_owned();
    if base.get_char(n - 1) != '/' {
        s.append("/");
        proof {
            reveal_strlit("/");
            assert(s@ =~= base@ + seq!['/']);
        }
    }
    s.append(rel);
    s
}

/// Returns whether two strings hold the same characters.
pub fn str_eq(a: &str, b: &str) -> (r: bool)
    ensures
        r == (a@ == b@),
{
    let n = a.unicode_len();
    if n != b.unicode_len() {
        return false;
    }
    let mut i: usize = 0;
    while i < n
        invariant
            i <= n,
            n == a@.len(),
            n == b@.len(),
            forall|j: int| 0 <= j < i ==> a@[j] == b@[j],
        decreases n - i,
    {
        if a.get_char(i) != b.get_char(i) {
            return false;
        }
        i = i + 1;
    }
    proof {
        assert(a@ =~= b@);
    }
    true
}

/// True when the string ends with the given suffix.
pub open spec fn ends_with(s: Seq<char>, suffix: Seq<char>) -> bool {
    s.len() >= suffix.len() && s.subrange(s.len() - suffix.len(), s.len() as int) == suffix
}

/// Returns whether the string ends with the given suffix.
pub fn str_ends_with(s: &str, suffix: &str) -> (r: bool)
    ensures
        r == ends_with(s@, suffix@),
{
    let n = s.unicode_len();
    let m = suffix.unicode_len();
    if m > n {
        return false;
    }
    let mut j: usize = 0;
    while j < m
        invariant
            j <= m <= n,
            n == s@.len(),
            m == suffix@.len(),
            forall|k: int| 0 <= k < j ==> s@[n - m + k] == suffix@[k],
        decreases m - j,
    {
        if s.get_char(n - m + j) != suffix.get_char(j) {
            return false;
        }
        j = j + 1;
    }
    proof {
        assert(s@.subrange(n - m, n as int) =~= suffix@);
    }
    true
}

/// What a path becomes when resolved against a base directory without any
/// environment lookup: the path itself if absolute, else the base joined
/// with it.
pub open spec fn plain_norm(path: Seq<char>, wd: Seq<char>) -> Seq<char> {
    if is_absolute_path(path) {
        path
    } else {
        join_paths(wd, path)
    }
}

/// Relies on `std::path::Path::exists`: asks the filesystem whether
/// something exists at the given path. The answer depends on the state of
/// the disk, so nothing further is assumed of it.
#[verifier::external_body]
pub(crate) fn path_exists(path: &str) -> bool {
    std::path::Path::new(path).exists()
}

/// Relies on the standard collection of an iterator of characters into a
/// `String`: the result holds exactly the characters of the vector, in
/// order.
#[verifier::external_body]
pub fn chars_to_string(v: &Vec<char>) -> (r: String)
    ensures
        r@ == v@,
{
    v.iter().collect()
}

/// Returns the characters of the string as a vector.
pub fn str_to_chars(s: &str) -> (r: Vec<char>)
    ensures
        r@ == s@,
{
    let n = s.unicode_len();
    let mut v: Vec<char> = Vec::new();
    let mut i: usize = 0;
    while i < n
        invariant
            i <= n,
            n == s@.len(),
            v@ == s@.subrange(0, i as int),
        decreases n - i,
    {
        v.push(s.get_char(i));
        proof {
            assert(v@ =~= s@.subrange(0, i + 1 as int));
        }
        i = i + 1;
    }
    proof {
        assert(v@ =~= s@);
    }
    v
}

/// Appends the characters of the string to the vector.
pub fn push_str_chars(out: &mut Vec<char>, s: &str)
    ensures
        final(out)@ == old(out)@ + s@,
{
    let n = s.unicode_len();
    let mut i: usize = 0;
    while i < n
        invariant
            i <= n,
            n == s@.len(),
            out@ == old(out)@ + s@.subrange(0, i as int),
        decreases n - i,
    {
        out.push(s.get_char(i));
        proof {
            assert(out@ =~= old(out)@ + s@.subrange(0, i + 1 as int));
        }
        i = i + 1;
    }
    proof {
        assert(out@ =~= old(out)@ + s@);
    }
}

/// Returns the characters of the vector between the two indices as a string.
pub fn range_to_string(v: &Vec<char>, from: usize, to: usize) -> (r: String)
    requires
        from <= to <= v@.len(),
    ensures
        r@ == v@.subrange(from as int, to as int),
{
    let mut part: Vec<char> = Vec::new();
    let mut i: usize = from;
    while i < to
        invariant
            from <= i <= to <= v@.len(),
            part@ == v@.subrange(from as int, i as int),
        decreases to - i,
    {
        part.push(v[i]);
        proof {
            assert(part@ =~= v@.subrange(from as int, i + 1 as int));
        }
        i = i + 1;
    }
    chars_to_string(&part)
}

/// Appends the characters of the vector between the two indices to `out`.
pub fn push_range(out: &mut Vec<char>, v: &Vec<char>, from: usize, to: usize)
    requires
        from <= to <= v@.len(),
    ensures
        final(out)@ == old(out)@ + v@.subrange(from as int, to as int),
{
    let mut i: usize = from;
    while i < to
        invariant
            from <= i <= to <= v@.len(),
            out@ == old(out)@ + v@.subrange(from as int, i as int),
        decreases to - i,
    {
        out.push(v[i]);
        proof {
            assert(out@ =~= old(out)@ + v@.subrange(from as int, i + 1 as int));
        }
        i = i + 1;
    }
    proof {
        assert(out@ =~= old(out)@ + v@.subrange(from as int, to as int));
    }
}

/// The text with every trailing `/` removed.
pub open spec fn strip_slashes(s: Seq<char>) -> Seq<char>
    decreases s.len(),
{
    if s.len() > 0 && s[s.len() - 1] == '/' {
        strip_slashes(s.drop_last())
    } else {
        s
    }
}

/// `strip_slashes` keeps the prefix that ends at the last character which
/// is no `/`.
proof fn lemma_strip_slashes_at(s: Seq<char>, e: int)
    requires
        0 <= e <= s.len(),
        forall|m: int| e <= m < s.len() ==> s[m] == '/',
        e > 0 ==> s[e - 1] != '/',
    ensures
        strip_slashes(s) == s.subrange(0, e),
    decreases s.len(),
{
    if s.len() > 0 && s[s.len() - 1] == '/' {
        lemma_strip_slashes_at(s.drop_last(), e);
        assert(s.drop_last().subrange(0, e) =~= s.subrange(0, e));
    } else {
        assert(s.subrange(0, e) =~= s);
    }
}

/// `strip_slashes` is a prefix of its argument.
proof fn lemma_strip_slashes_prefix(s: Seq<char>)
    ensures
        strip_slashes(s).len() <= s.len(),
        forall|i: int| 0 <= i < strip_slashes(s).len() ==> strip_slashes(s)[i] == s[i],
    decreases s.len(),
{
    if s.len() > 0 && s[s.len() - 1] == '/' {
        lemma_strip_slashes_prefix(s.drop_last());
        assert forall|i: int|
            0 <= i < strip_slashes(s).len() implies strip_slashes(s)[i] == s[i] by {
            assert(strip_slashes(s)[i] == s.drop_last()[i]);
        }
    }
}

/// The directory part of a path: the path up to (and without) the
/// separator before its last component, trailing separators ignored, as
/// the standard path semantics have it. The root has no parent, nor has
/// the empty path; a path without any separator has the empty parent; and
/// a path whose separators all lead it is a child of the root.
pub open spec fn parent_dir(s: Seq<char>) -> Option<Seq<char>> {
    let t = strip_slashes(s);
    if t.len() == 0 {
        None
    } else {
        match t.index_of_last('/') {
            None => Some(Seq::empty()),
            Some(d) => if strip_slashes(t.subrange(0, d)).len() == 0 {
                Some(seq!['/'])
            } else {
                Some(strip_slashes(t.subrange(0, d)))
            },
        }
    }
}

/// The directory part of an absolute path is itself absolute.
pub proof fn lemma_parent_dir_absolute(s: Seq<char>)
    requires
        is_absolute_path(s),
        parent_dir(s) is Some,
    ensures
        is_absolute_path(parent_dir(s)->0),
{
    let t = strip_slashes(s);
    lemma_strip_slashes_prefix(s);
    assert(t[0] == s[0]);
    t.index_of_last_ensures('/');
    match t.index_of_last('/') {
        None => {
            assert(t.contains('/')) by {
                assert(t[0] == '/');
            }
        },
        Some(d) => {
            let p0 = t.subrange(0, d);
            lemma_strip_slashes_prefix(p0);
            let p = strip_slashes(p0);
            if p.len() > 0 {
                assert(p[0] == p0[0]);
                assert(p0[0] == t[0]);
            }
        },
    }
}

/// Returns the directory part of the given path, as `parent_dir` describes
/// it.
pub fn parent_of(path: &str) -> (r: Option<String>)
    ensures
        parent_dir(path@) is Some ==> (r is Some && r->0@ == parent_dir(path@)->0),
        parent_dir(path@) is None ==> r is None,
{
    let v = str_to_chars(path);
    let n = v.len();
    let mut e: usize = n;
    while e > 0 && v[e - 1] == '/'
        invariant
            e <= n,
            n == path@.len(),
            v@ == path@,
            forall|m: int| e <= m < n ==> path@[m] == '/',
        decreases e,
    {
        e = e - 1;
    }
    proof {
        lemma_strip_slashes_at(path@, e as int);
    }
    if e == 0 {
        return None;
    }
    let ghost t = path@.subrange(0, e as int);
    let mut j: usize = e;
    while j > 0
        invariant
            j <= e <= n,
            n == path@.len(),
            v@ == path@,
            t == path@.subrange(0, e as int),
            strip_slashes(path@) == t,
            forall|m: int| j <= m < e ==> path@[m] != '/',
        decreases j,
    {
        j = j - 1;
        if v[j] == '/' {
            proof {
                t.index_of_last_ensures('/');
                assert(t.contains('/')) by {
                    assert(t[j as int] == '/');
                }
                match t.index_of_last('/') {
                    Some(idx) => {
                        assert(idx == j as int) by {
                            assert(t[idx] == '/');
                            if idx < j as int {
                                assert(t[j as int] != '/');
                            }
                            if idx > j as int {
                                assert(path@[idx] != '/');
                            }
                        }
                    },
                    None => {
                        assert(false);
                    },
                }
            }
            let mut pe: usize = j;
            while pe > 0 && v[pe - 1] == '/'
                invariant
                    pe <= j < e <= n,
                    n == path@.len(),
                    v@ == path@,
                    forall|m: int| pe <= m < j ==> path@[m] == '/',
                decreases pe,
            {
                pe = pe - 1;
            }
            proof {
                lemma_strip_slashes_at(path@.subrange(0, j as int), pe as int);
                assert(t.subrange(0, j as int) =~= path@.subrange(0, j as int));
                assert(path@.subrange(0, j as int).subrange(0, pe as int) =~= path@.subrange(
                    0,
                    pe as int,
                ));
                assert(strip_slashes(t.subrange(0, j as int)) == path@.subrange(0, pe as int));
            }
            if pe == 0 {
                proof {
                    reveal_strlit("/");
                }
                return Some(String::from_str("/"));
            }
            return Some(range_to_string(&v, 0, pe));
        }
    }
    proof {
        t.index_of_last_ensures('/');
        assert(!t.contains('/')) by {
            if t.contains('/') {
                let w = choose|w: int| 0 <= w < t.len() && t[w] == '/';
                assert(path@[w] != '/');
            }
        }
    }
    Some(String::new())
}

/// Relies on `shellexpand::full`: `$NAME` references are replaced by the
/// values of environment variables and a leading `~` by the current user's
/// home directory. A path with no `$` and no leading `~` comes back
/// unchanged, and only a failed `$NAME` lookup makes the call fail.
#[verifier::external_body]
fn expand_full(path: &str) -> (r: Option<String>)
    ensures
        plain_path(path@) ==> r is Some && r->0@ == path@,
{
    match shellexpand::full(path) {
        Ok(x) => Some(x.into_owned()),
        Err(_) => None,
    }
}

/// Resolves an already shell-expanded path against an optional base
/// directory: an absolute path stands as it is, a relative one is joined onto
/// the base. With no base directory to join onto, a relative path cannot be
/// resolved.
pub fn resolve_path(expanded: &str, wd: Option<&str>) -> (r: Result<String, NormalizeError>)
    ensures
        is_absolute_path(expanded@) ==> r is Ok && r->Ok_0@ == expanded@,
        !is_absolute_path(expanded@) && wd is Some ==> r is Ok && r->Ok_0@ == join_paths(
            wd->0@,
            expanded@,
        ),
        !is_absolute_path(expanded@) && wd is None ==> r == Err::<String, NormalizeError>(
            NormalizeError::WdNotFound,
        ),
{
    if is_absolute(expanded) {
        Ok(expanded.to_owned())
    } else {
        match wd {
            Some(base) => Ok(join_path(base, expanded)),
            None => Err(NormalizeError::WdNotFound),
        }
    }
}

/// Returns the absolute path to a given file. Environment variables (words
/// starting with `$`) are taken into account; a tilde (`~`) at the beginning
/// of a path is replaced with the home directory of the current user. A path
/// that is still relative after that expansion is joined onto the given
/// working directory; with none given it cannot be resolved.
pub fn normalize_path(path: &str, wd: Option<&str>) -> (r: Result<String, NormalizeError>)
    ensures
        plain_path(path@) && is_absolute_path(path@) ==> r is Ok && r->Ok_0@ == path@,
        plain_path(path@) && !is_absolute_path(path@) && wd is Some ==> r is Ok && r->Ok_0@
            == join_paths(wd->0@, path@),
        plain_path(path@) && !is_absolute_path(path@) && wd is None ==> (r matches Err(e) && e
            is WdNotFound),
        r matches Err(NormalizeError::LookupError(p)) ==> p@ == path@,
        r is Ok && wd is None ==> is_absolute_path(r->Ok_0@),
        r is Ok && wd is Some && is_absolute_path(wd->0@) ==> is_absolute_path(r->Ok_0@),
{
    let expanded = match expand_full(path) {
        Some(x) => x,
        None => {
            return Err(NormalizeError::LookupError(path.to_owned()));
        },
    };
    resolve_path(expanded.as_str(), wd)
}

} // verus!
