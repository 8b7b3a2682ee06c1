use vstd::prelude::*;

verus! {

/// Whether `c` separates path components.
pub open spec fn is_sep(c: char) -> bool {
    c == '\\' || c == '/'
}

/// The index where the last component of `s` begins: right after the
/// last separator, or zero where there is none.
pub open spec fn comp_start(s: Seq<char>) -> int
    decreases s.len(),
{
    if s.len() == 0 {
        0
    } else if is_sep(s.last()) {
        s.len() as int
    } else {
        comp_start(s.drop_last())
    }
}

/// The index of the last `.` of `s` strictly after `start`, if any.
pub open spec fn last_dot(s: Seq<char>, start: int) -> Option<int>
    decreases s.len(),
{
    if s.len() == 0 || s.len() <= start + 1 {
        None
    } else if s.last() == '.' {
        Some(s.len() - 1)
    } else {
        last_dot(s.drop_last(), start)
    }
}

/// What replacing the extension of `s` with `ext` yields: the text up to
/// the final dot of the last component — all of `s` where that component
/// has no dot past its first character — then a dot and `ext` (no dot for
/// an empty `ext`).
pub open spec fn spec_with_extension(s: Seq<char>, ext: Seq<char>) -> Seq<char> {
    let stem = match last_dot(s, comp_start(s)) {
        Some(i) => s.subrange(0, i),
        None => s,
    };
    if ext.len() == 0 {
        stem
    } else {
        stem + seq!['.'] + ext
    }
}

/// Replaces the extension of the last component of `path` with `ext`,
/// appending one where the component has none.
pub fn with_extension(path: &str, ext: &str) -> (r: String)
    ensures
        r@ == spec_with_extension(path@, ext@),
{
    let n = path.unicode_len();
    let cs = comp_start_exec(path, n);
    let stem_end = stem_end_exec(path, cs, n);
    let stem = path.substring_char(0, stem_end);
    let mut out = String::from_str(stem);
    if ext.unicode_len() > 0 {
        out.append(".");
        out.append(ext);
        proof {
            reveal_strlit(".");
            assert("."@ =~= seq!['.']);
        }
    }
    out
}

/// Joins `rel` onto `base` with a backslash, the separator the tool
/// writes in its configuration files.
pub fn join(base: &str, rel: &str) -> (r: String)
    ensures
        r@ == base@ + seq!['\\'] + rel@,
{
    let mut out = String::from_str(base);
    out.append("\\");
    out.append(rel);
    proof {
        reveal_strlit("\\");
        assert("\\"@ =~= seq!['\\']);
    }
    out
}

/// Whether `p` is a prefix of `s`, character for character.
pub open spec fn is_prefix(s: Seq<char>, p: Seq<char>) -> bool {
    p.len() <= s.len() && s.subrange(0, p.len() as int) == p
}

/// Whether the text of `prefix` starts the text of `s`.
pub fn str_prefix(s: &str, prefix: &str) -> (r: bool)
    ensures
        r == is_prefix(s@, prefix@),
{
    let n = s.unicode_len();
    let m = prefix.unicode_len();
    if m > n {
        return false;
    }
    let mut i: usize = 0;
    while i < m
        invariant
            n == s@.len(),
            m == prefix@.len(),
            m <= n,
            i <= m,
            forall|k: int| 0 <= k < i ==> s@[k] == prefix@[k],
        decreases m - i,
    {
        if s.get_char(i) != prefix.get_char(i) {
            proof {
                assert(s@.subrange(0, m as int)[i as int] != prefix@[i as int]);
            }
            return false;
        }
        i = i + 1;
    }
    proof {
        assert(s@.subrange(0, m as int) =~= prefix@);
    }
    true
}

/// The start of the last component of `s`; `n` is the length of `s`.
fn comp_start_exec(s: &str, n: usize) -> (r: usize)
    requires
        n == s@.len(),
    ensures
        r == comp_start(s@),
        r <= n,
{
    proof {
        assert(s@.subrange(0, n as int) =~= s@);
    }
    let mut k: usize = n;
    while k > 0
        invariant
            n == s@.len(),
            k <= n,
            comp_start(s@) == comp_start(s@.subrange(0, k as int)),
        decreases k,
    {
        let c = s.get_char(k - 1);
        let ghost sub = s@.subrange(0, k as int);
        proof {
            assert(sub.last() == s@[k as int - 1]);
            assert(sub.drop_last() =~= s@.subrange(0, k as int - 1));
        }
        if c == '\\' || c == '/' {
            return k;
        }
        k = k - 1;
    }
    proof {
        assert(s@.subrange(0, 0) =~= Seq::<char>::empty());
    }
    0
}

/// Where the stem of the last component ends: at its final dot past
/// `cs`, or at the end of the text where it has none.
fn stem_end_exec(s: &str, cs: usize, n: usize) -> (r: usize)
    requires
        n == s@.len(),
        cs <= n,
    ensures
        match last_dot(s@, cs as int) {
            Some(i) => r == i,
            None => r == n,
        },
        r <= n,
{
    proof {
        assert(s@.subrange(0, n as int) =~= s@);
    }
    let mut k: usize = n;
    while k > cs && k - cs > 1
        invariant
            n == s@.len(),
            cs <= n,
            k <= n,
            last_dot(s@, cs as int) == last_dot(s@.subrange(0, k as int), cs as int),
        decreases k,
    {
        let c = s.get_char(k - 1);
        let ghost sub = s@.subrange(0, k as int);
        proof {
            assert(sub.last() == s@[k as int - 1]);
            assert(sub.drop_last() =~= s@.subrange(0, k as int - 1));
        }
        if c == '.' {
            return k - 1;
        }
        k = k - 1;
    }
    n
}

} // verus!
