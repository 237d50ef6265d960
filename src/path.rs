//! Path text helpers: joining a file name onto a directory and searching for
//! a pattern inside a string.
use vstd::prelude::*;
use vstd::string::StrSliceExecFns;
use vstd::string::StringExecFns;

verus! {

/// Joins `name` onto `base` the way a path join does: an absolute `name`
/// replaces `base`, and a single `/` separates the two parts otherwise.
pub open spec fn path_join(base: Seq<char>, name: Seq<char>) -> Seq<char> {
    if name.len() > 0 && name[0] == '/' {
        name
    } else if base.len() == 0 || base.last() == '/' {
        base + name
    } else {
        base + seq!['/'] + name
    }
}

/// Whether `pat` occurs in `s` starting at character position `i`.
pub open spec fn occurs_at(s: Seq<char>, i: int, pat: Seq<char>) -> bool {
    0 <= i && i + pat.len() <= s.len() && s.subrange(i, i + pat.len()) == pat
}

/// Decides `occurs_at` on executable strings.
pub fn matches_at(s: &str, i: usize, pat: &str) -> (r: bool)
    ensures
        r == occurs_at(s@, i as int, pat@),
{
    let n = s.unicode_len();
    let m = pat.unicode_len();
    if i > n || m > n - i {
        return false;
    }
    let mut k: usize = 0;
    while k < m
        invariant
            n == s@.len(),
            m == pat@.len(),
            i + m <= n,
            k <= m,
            forall|j: int| 0 <= j < k ==> s@[i + j] == pat@[j],
        decreases m - k,
    {
        if s.get_char(i + k) != pat.get_char(k) {
            assert(s@.subrange(i as int, i + m)[k as int] != pat@[k as int]);
            return false;
        }
        k = k + 1;
    }
    assert(s@.subrange(i as int, i + m) =~= pat@);
    true
}

/// Copies one character of `s` onto the end of `out`.
pub(crate) fn push_char_of(out: &mut String, s: &str, i: usize)
    requires
        i < s@.len() <= usize::MAX,
    ensures
        final(out)@ == old(out)@.push(s@[i as int]),
{
    let c = s.substring_char(i, i + 1);
    out.append(c);
    assert(c@ =~= seq![s@[i as int]]);
    assert(final(out)@ =~= old(out)@.push(s@[i as int]));
}

/// Joins a file name onto a directory path.
pub fn join(base: &str, name: &str) -> (r: String)
    ensures
        r@ == path_join(base@, name@),
{
    let nl = name.unicode_len();
    if nl > 0 && name.get_char(0) == '/' {
        return String::from_str(name);
    }
    let bl = base.unicode_len();
    let mut r = String::from_str(base);
    if bl > 0 && base.get_char(bl - 1) != '/' {
        r.append("/");
        proof {
            reveal_strlit("/");
        }
    }
    r.append(name);
    r
}

/// Adds the finished component `cur` to the joined components `out`: empty
/// components and `.` contribute nothing, others are joined with `/`.
pub open spec fn flush_component(out: Seq<char>, cur: Seq<char>) -> Seq<char> {
    if cur.len() == 0 || cur == seq!['.'] {
        out
    } else if out.len() == 0 {
        cur
    } else {
        out + seq!['/'] + cur
    }
}

/// Left-to-right scan of a path: the components finished so far, joined,
/// and the component being read.
pub open spec fn scan_components(s: Seq<char>) -> (Seq<char>, Seq<char>)
    decreases s.len(),
{
    if s.len() == 0 {
        (seq![], seq![])
    } else {
        let (out, cur) = scan_components(s.drop_last());
        if s.last() == '/' {
            (flush_component(out, cur), seq![])
        } else {
            (out, cur.push(s.last()))
        }
    }
}

/// The canonical rendering of a path: a leading `/` when it is absolute,
/// then its components other than empty ones and `.`, joined by `/`.
pub open spec fn path_normal_form(s: Seq<char>) -> Seq<char> {
    let (out, cur) = scan_components(s);
    let root = if s.len() > 0 && s[0] == '/' { seq!['/'] } else { seq![] };
    root + flush_component(out, cur)
}

/// Two paths name the same location when they are both absolute or both
/// relative and have the same components, ignoring empty ones and `.`.
pub open spec fn paths_equal(a: Seq<char>, b: Seq<char>) -> bool {
    path_normal_form(a) == path_normal_form(b)
}

/// Appends `cur` to `out` as `flush_component` does.
fn flush(out: &mut String, cur: &String)
    ensures
        final(out)@ == flush_component(old(out)@, cur@),
{
    let n = cur.as_str().unicode_len();
    if n == 0 || (n == 1 && cur.as_str().get_char(0) == '.') {
        if n == 1 {
            assert(cur@ =~= seq!['.']);
        }
        return;
    }
    if out.as_str().unicode_len() > 0 {
        out.append("/");
        proof {
            reveal_strlit("/");
        }
    }
    out.append(cur.as_str());
}

/// Computes the canonical rendering of a path.
pub fn normalize_path(s: &str) -> (r: String)
    ensures
        r@ == path_normal_form(s@),
{
    let n = s.unicode_len();
    let mut out = String::new();
    let mut cur = String::new();
    let mut i: usize = 0;
    assert(s@.subrange(0, 0) =~= seq![]);
    while i < n
        invariant
            n == s@.len(),
            i <= n,
            (out@, cur@) == scan_components(s@.subrange(0, i as int)),
        decreases n - i,
    {
        assert(s@.subrange(0, i + 1).drop_last() =~= s@.subrange(0, i as int));
        if s.get_char(i) == '/' {
            flush(&mut out, &cur);
            cur = String::new();
        } else {
            push_char_of(&mut cur, s, i);
        }
        i = i + 1;
    }
    assert(s@.subrange(0, n as int) =~= s@);
    flush(&mut out, &cur);
    let mut r = String::new();
    if n > 0 && s.get_char(0) == '/' {
        r.append("/");
        proof {
            reveal_strlit("/");
        }
    }
    r.append(out.as_str());
    r
}

/// Decides `paths_equal`.
pub fn same_path(a: &str, b: &str) -> (r: bool)
    ensures
        r == paths_equal(a@, b@),
{
    let na = normalize_path(a);
    let nb = normalize_path(b);
    na.eq(&nb)
}

} // verus!
