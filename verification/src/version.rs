use vstd::prelude::*;

use crate::error::UpdateError;

verus! {

/// A semantic version triple, totally ordered lexicographically.
/// A release tag of the form `vMAJOR.MINOR.PATCH` resolves to one.
#[derive(Clone, Copy, Debug, PartialEq, Eq, Structural)]
pub struct Version {
    pub major: u64,
    pub minor: u64,
    pub patch: u64,
}

/// Whether `c` is a decimal digit.
pub open spec fn is_digit(c: char) -> bool {
    48 <= c as u32 <= 57
}

/// The numeric value of the digit `c`.
pub open spec fn digit_val(c: char) -> int {
    c as u32 - 48
}

/// The number written by the digit sequence `s`, most significant first.
pub open spec fn digits_val(s: Seq<char>) -> int
    decreases s.len(),
{
    if s.len() == 0 {
        0
    } else {
        digits_val(s.drop_last()) * 10 + digit_val(s.last())
    }
}

/// Whether every character of `s` is a decimal digit.
pub open spec fn all_digits(s: Seq<char>) -> bool {
    forall|i: int| 0 <= i < s.len() ==> is_digit(#[trigger] s[i])
}

/// A version component: one or more digits, no leading zero.
pub open spec fn number_seq(s: Seq<char>) -> bool {
    &&& s.len() > 0
    &&& all_digits(s)
    &&& (s.len() == 1 || s[0] != '0')
}

/// The index of the first `.` in `s` at or after `from`, or `s.len()`.
pub open spec fn find_dot(s: Seq<char>, from: int) -> int
    decreases s.len() - from,
{
    if from < 0 || from >= s.len() {
        s.len() as int
    } else if s[from] == '.' {
        from
    } else {
        find_dot(s, from + 1)
    }
}

/// The three component values of a `MAJOR.MINOR.PATCH` string, or `None`
/// where the text is not of that exact shape.
pub open spec fn version_triple(s: Seq<char>) -> Option<(int, int, int)> {
    let i = find_dot(s, 0);
    let j = find_dot(s, i + 1);
    if i < s.len() && j < s.len() && find_dot(s, j + 1) == s.len() && number_seq(
        s.subrange(0, i),
    ) && number_seq(s.subrange(i + 1, j)) && number_seq(s.subrange(j + 1, s.len() as int)) {
        Some(
            (
                digits_val(s.subrange(0, i)),
                digits_val(s.subrange(i + 1, j)),
                digits_val(s.subrange(j + 1, s.len() as int)),
            ),
        )
    } else {
        None
    }
}

/// What parsing `s` yields: the triple where `s` is well-formed and each
/// component fits in a `u64`, and nothing otherwise.
pub open spec fn spec_parse(s: Seq<char>) -> Option<Version> {
    match version_triple(s) {
        Some(t) => if t.0 <= u64::MAX && t.1 <= u64::MAX && t.2 <= u64::MAX {
            Some(Version { major: t.0 as u64, minor: t.1 as u64, patch: t.2 as u64 })
        } else {
            None
        },
        None => None,
    }
}

/// The value of a digit sequence never shrinks as the sequence grows.
proof fn lemma_digits_val_nonneg(s: Seq<char>)
    requires
        all_digits(s),
    ensures
        digits_val(s) >= 0,
    decreases s.len(),
{
    if s.len() > 0 {
        assert(all_digits(s.drop_last()));
        lemma_digits_val_nonneg(s.drop_last());
    }
}

/// Extending a digit sequence multiplies its value by at least one.
proof fn lemma_digits_val_prefix(s: Seq<char>, i: int, j: int)
    requires
        all_digits(s),
        0 <= i <= j <= s.len(),
    ensures
        digits_val(s.subrange(0, i)) <= digits_val(s.subrange(0, j)),
    decreases j - i,
{
    if i < j {
        let p = s.subrange(0, j - 1);
        let q = s.subrange(0, j);
        assert(q.drop_last() =~= p);
        assert(all_digits(p));
        lemma_digits_val_nonneg(p);
        assert(digits_val(q) == digits_val(p) * 10 + digit_val(q.last()));
        assert(digits_val(p) * 10 >= digits_val(p)) by (nonlinear_arith)
            requires digits_val(p) >= 0;
        lemma_digits_val_prefix(s, i, j - 1);
    }
}

impl Version {
    /// Strict lexicographic order on (major, minor, patch).
    pub open spec fn spec_lt(self, other: Self) -> bool {
        ||| self.major < other.major
        ||| (self.major == other.major && self.minor < other.minor)
        ||| (self.major == other.major && self.minor == other.minor && self.patch < other.patch)
    }

    pub open spec fn spec_le(self, other: Self) -> bool {
        self.spec_lt(other) || self == other
    }

    pub fn new(major: u64, minor: u64, patch: u64) -> (r: Self)
        ensures
            r == (Version { major, minor, patch }),
    {
        Self { major, minor, patch }
    }

    /// Whether `self` is strictly below `other`.
    pub fn lt(&self, other: &Self) -> (r: bool)
        ensures
            r == self.spec_lt(*other),
    {
        if self.major != other.major {
            self.major < other.major
        } else if self.minor != other.minor {
            self.minor < other.minor
        } else {
            self.patch < other.patch
        }
    }

    /// Whether `self` is below or equal to `other`.
    pub fn le(&self, other: &Self) -> (r: bool)
        ensures
            r == self.spec_le(*other),
    {
        !other.lt(self)
    }

    /// Parses a `MAJOR.MINOR.PATCH` string.
    pub fn parse(s: &str) -> (r: Result<Version, UpdateError>)
        ensures
            match r {
                Ok(v) => spec_parse(s@) == Some(v),
                Err(e) => spec_parse(s@) is None && e matches UpdateError::Parse(_),
            },
    {
        let n = s.unicode_len();
        let i = find_dot_exec(s, 0, n);
        if i >= n {
            return Err(parse_error(s));
        }
        let j = find_dot_exec(s, i + 1, n);
        if j >= n {
            return Err(parse_error(s));
        }
        let k = find_dot_exec(s, j + 1, n);
        if k < n {
            return Err(parse_error(s));
        }
        let major = match parse_component(s, 0, i, n) {
            Some(v) => v,
            None => {
                return Err(parse_error(s));
            },
        };
        let minor = match parse_component(s, i + 1, j, n) {
            Some(v) => v,
            None => {
                return Err(parse_error(s));
            },
        };
        let patch = match parse_component(s, j + 1, n, n) {
            Some(v) => v,
            None => {
                return Err(parse_error(s));
            },
        };
        Ok(Version { major, minor, patch })
    }
}

/// The parse failure for the offending text `s`.
fn parse_error(s: &str) -> (r: UpdateError)
    ensures
        r matches UpdateError::Parse(_),
{
    UpdateError::Parse(String::from_str(s))
}

/// Scans `s` for the first `.` at or after `from`; `n` is the length of `s`.
fn find_dot_exec(s: &str, from: usize, n: usize) -> (r: usize)
    requires
        n == s@.len(),
        from <= n + 1,
    ensures
        r == find_dot(s@, from as int),
        r <= n,
        r < n ==> s@[r as int] == '.' && from <= r,
{
    if from >= n {
        return n;
    }
    let mut i: usize = from;
    while i < n
        invariant
            n == s@.len(),
            from <= i <= n,
            find_dot(s@, from as int) == find_dot(s@, i as int),
        decreases n - i,
    {
        if s.get_char(i) == '.' {
            return i;
        }
        i = i + 1;
    }
    n
}

/// Parses the component `s[from..to]` as a `u64`: one or more digits, no
/// leading zero, value within range. `n` is the length of `s`.
fn parse_component(s: &str, from: usize, to: usize, n: usize) -> (r: Option<u64>)
    requires
        n == s@.len(),
        from <= to <= n,
    ensures
        match r {
            Some(v) => number_seq(s@.subrange(from as int, to as int)) && v == digits_val(
                s@.subrange(from as int, to as int),
            ),
            None => {
                ||| !number_seq(s@.subrange(from as int, to as int))
                ||| digits_val(s@.subrange(from as int, to as int)) > u64::MAX
            },
        },
{
    let ghost whole = s@.subrange(from as int, to as int);
    if from == to {
        return None;
    }
    let first = s.get_char(from);
    if to - from > 1 && first == '0' {
        return None;
    }
    let mut acc: u64 = 0;
    let mut i: usize = from;
    while i < to
        invariant
            n == s@.len(),
            from <= i <= to <= n,
            whole == s@.subrange(from as int, to as int),
            all_digits(s@.subrange(from as int, i as int)),
            acc == digits_val(s@.subrange(from as int, i as int)),
        decreases to - i,
    {
        let c = s.get_char(i);
        let u = c as u32;
        if u < 48 || u > 57 {
            assert(!is_digit(s@[i as int]));
            assert(whole[i - from] == s@[i as int]);
            return None;
        }
        let d = (u - 48) as u64;
        let ghost prefix = s@.subrange(from as int, i as int);
        let ghost extended = s@.subrange(from as int, i + 1int);
        assert(extended.drop_last() =~= prefix);
        assert(extended.last() == s@[i as int]);
        let step = match acc.checked_mul(10) {
            Some(m) => m.checked_add(d),
            None => None,
        };
        match step {
            Some(v) => {
                acc = v;
            },
            None => {
                // The value written by the digits read so far already
                // exceeds u64::MAX, so the whole component does too.
                proof {
                    assert(digits_val(extended) > u64::MAX);
                    if all_digits(whole) {
                        assert(whole =~= s@.subrange(from as int, to as int));
                        lemma_digits_val_prefix_general(s@, from as int, i + 1, to as int);
                    }
                }
                return None;
            },
        }
        i = i + 1;
    }
    assert(s@.subrange(from as int, i as int) =~= whole);
    Some(acc)
}

/// The value of a digit run only grows with more digits, relative to a
/// common starting point.
proof fn lemma_digits_val_prefix_general(s: Seq<char>, from: int, i: int, to: int)
    requires
        0 <= from <= i <= to <= s.len(),
        all_digits(s.subrange(from, to)),
    ensures
        digits_val(s.subrange(from, i)) <= digits_val(s.subrange(from, to)),
{
    let whole = s.subrange(from, to);
    assert(s.subrange(from, i) =~= whole.subrange(0, i - from));
    assert(whole.subrange(0, whole.len() as int) =~= whole);
    lemma_digits_val_prefix(whole, i - from, to - from);
}

/// Parses a release tag by dropping its first character (a leading `v`)
/// and reading the rest as a version.
pub fn extract(version: &str) -> (r: Result<Version, UpdateError>)
    ensures
        match r {
            Ok(v) => version@.len() >= 1 && spec_parse(
                version@.subrange(1, version@.len() as int),
            ) == Some(v),
            Err(e) => (version@.len() == 0 || spec_parse(
                version@.subrange(1, version@.len() as int),
            ) is None) && e matches UpdateError::Parse(_),
        },
{
    let n = version.unicode_len();
    if n == 0 {
        return Err(parse_error(version));
    }
    let rest = version.substring_char(1, n);
    Version::parse(rest)
}

} // verus!
