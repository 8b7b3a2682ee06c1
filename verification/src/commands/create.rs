use vstd::prelude::*;

verus! {

/// Creates a new mod project from the bundled modules.
pub struct Create {
    pub name: String,
    pub profile: String,
    pub modules: Option<Vec<String>>,
}

impl Create {
    pub fn new(name: String, profile: String, modules: Option<Vec<String>>) -> (r: Self)
        ensures
            r == (Create { name, profile, modules }),
    {
        Create { name, profile, modules }
    }

    /// The name of the project.
    pub fn name(&self) -> (r: &str)
        ensures
            r@ == self.name@,
    {
        self.name.as_str()
    }

    /// The creation profile to use.
    pub fn profile(&self) -> (r: &str)
        ensures
            r@ == self.profile@,
    {
        self.profile.as_str()
    }

    /// The additional modules to install.
    pub fn modules(&self) -> (r: &Option<Vec<String>>)
        ensures
            r == &self.modules,
    {
        &self.modules
    }
}

/// Whether `c` is a blank the project name must not hold.
pub open spec fn is_blank(c: char) -> bool {
    c == ' ' || c == '\t' || c == '\n' || c == '\r'
}

/// What a usable project name looks like: short, one path component,
/// no blanks, and not the parent-directory name.
pub open spec fn spec_name_ok(name: Seq<char>) -> bool {
    &&& name.len() > 0
    &&& name.len() <= 20
    &&& name != ".."@
    &&& (forall|i: int| 0 <= i < name.len() ==> !is_blank(#[trigger] name[i]))
    &&& (forall|i: int| 0 <= i < name.len() ==> !crate::paths::is_sep(#[trigger] name[i]))
}

/// Checks a project name before a directory is made from it.
pub fn name_check(name: &str) -> (r: bool)
    ensures
        r == spec_name_ok(name@),
{
    let n = name.unicode_len();
    if n == 0 || n > 20 {
        return false;
    }
    let named = String::from_str(name);
    let parent = String::from_str("..");
    if named == parent {
        return false;
    }
    let mut i: usize = 0;
    while i < n
        invariant
            n == name@.len(),
            i <= n,
            forall|k: int| 0 <= k < i ==> !is_blank(#[trigger] name@[k]),
            forall|k: int| 0 <= k < i ==> !crate::paths::is_sep(#[trigger] name@[k]),
        decreases n - i,
    {
        let c = name.get_char(i);
        if c == ' ' || c == '\t' || c == '\n' || c == '\r' || c == '\\' || c == '/' {
            return false;
        }
        i = i + 1;
    }
    true
}


/// Strict lexicographic order on text, by code point.
pub open spec fn lex_lt(a: Seq<char>, b: Seq<char>) -> bool
    decreases a.len(),
{
    if b.len() == 0 {
        false
    } else if a.len() == 0 {
        true
    } else if a[0] < b[0] {
        true
    } else if a[0] != b[0] {
        false
    } else {
        lex_lt(a.drop_first(), b.drop_first())
    }
}

/// The order is transitive.
proof fn lemma_lex_trans(a: Seq<char>, b: Seq<char>, c: Seq<char>)
    requires
        lex_lt(a, b),
        lex_lt(b, c),
    ensures
        lex_lt(a, c),
    decreases a.len(),
{
    if a.len() > 0 && b.len() > 0 && c.len() > 0 {
        if a[0] == b[0] && b[0] == c[0] {
            lemma_lex_trans(a.drop_first(), b.drop_first(), c.drop_first());
        }
    }
}

/// Texts that neither orders below the other are the same text.
proof fn lemma_lex_connex(a: Seq<char>, b: Seq<char>)
    requires
        !lex_lt(a, b),
        !lex_lt(b, a),
    ensures
        a == b,
    decreases a.len(),
{
    if a.len() == 0 {
        assert(b.len() == 0);
        assert(a =~= b);
    } else {
        assert(b.len() > 0);
        assert(a[0] == b[0]);
        let ta = a.drop_first();
        let tb = b.drop_first();
        lemma_lex_connex(ta, tb);
        assert(a.len() == b.len());
        assert forall|i: int| 0 <= i < a.len() implies a[i] == b[i] by {
            if i > 0 {
                assert(ta[i - 1] == a[i]);
                assert(tb[i - 1] == b[i]);
            }
        }
        assert(a =~= b);
    }
}

/// Whether `a` orders strictly below `b`.
fn str_lt(a: &str, b: &str) -> (r: bool)
    ensures
        r == lex_lt(a@, b@),
{
    let na = a.unicode_len();
    let nb = b.unicode_len();
    let mut i: usize = 0;
    proof {
        assert(a@.skip(0) =~= a@);
        assert(b@.skip(0) =~= b@);
    }
    while i < na && i < nb
        invariant
            na == a@.len(),
            nb == b@.len(),
            i <= na,
            i <= nb,
            lex_lt(a@, b@) == lex_lt(a@.skip(i as int), b@.skip(i as int)),
        decreases na - i,
    {
        let ca = a.get_char(i);
        let cb = b.get_char(i);
        let ghost ra = a@.skip(i as int);
        let ghost rb = b@.skip(i as int);
        proof {
            assert(ra[0] == a@[i as int]);
            assert(rb[0] == b@[i as int]);
            assert(ra.drop_first() =~= a@.skip(i as int + 1));
            assert(rb.drop_first() =~= b@.skip(i as int + 1));
        }
        if ca < cb {
            return true;
        }
        if ca != cb {
            return false;
        }
        i = i + 1;
    }
    proof {
        if i >= nb {
            assert(b@.skip(i as int).len() == 0);
        } else {
            assert(a@.skip(i as int).len() == 0);
            assert(b@.skip(i as int).len() > 0);
        }
    }
    na < nb
}

/// Whether the text list is strictly ascending: sorted with no
/// duplicates.
pub open spec fn strictly_sorted(s: Seq<String>) -> bool {
    forall|i: int, j: int| 0 <= i < j < s.len() ==> lex_lt(#[trigger] s[i]@, #[trigger] s[j]@)
}

/// Whether some entry of `s` holds the text `t`.
pub open spec fn holds_text(s: Seq<String>, t: Seq<char>) -> bool {
    exists|i: int| 0 <= i < s.len() && #[trigger] s[i]@ == t
}

/// The given texts sorted ascending with duplicates removed: the one
/// strictly ascending list holding exactly the texts of the input, as
/// the include and credit lists of a fresh mod config are assembled.
pub fn sort_dedup(items: &Vec<String>) -> (r: Vec<String>)
    ensures
        strictly_sorted(r@),
        forall|i: int| 0 <= i < r@.len() ==> holds_text(items@, #[trigger] r@[i]@),
        forall|k: int| 0 <= k < items@.len() ==> holds_text(r@, #[trigger] items@[k]@),
{
    let mut out: Vec<String> = Vec::new();
    let count = items.len();
    let mut idx: usize = 0;
    while idx < count
        invariant
            count == items@.len(),
            idx <= count,
            strictly_sorted(out@),
            forall|i: int| 0 <= i < out@.len() ==> holds_text(items@, #[trigger] out@[i]@),
            forall|k: int| 0 <= k < idx ==> holds_text(out@, #[trigger] items@[k]@),
        decreases count - idx,
    {
        let item = &items[idx];
        let n = out.len();
        let mut pos: usize = 0;
        while pos < n && str_lt(out[pos].as_str(), item.as_str())
            invariant
                n == out@.len(),
                pos <= n,
                item == items@[idx as int],
                forall|j: int| 0 <= j < pos ==> lex_lt(#[trigger] out@[j]@, item@),
            decreases n - pos,
        {
            pos = pos + 1;
        }
        let duplicate = pos < n && out[pos] == *item;
        if duplicate {
            proof {
                assert(out@[pos as int]@ == items@[idx as int]@);
                assert(holds_text(out@, items@[idx as int]@));
            }
        } else {
            let ghost old_out = out@;
            out.insert(pos, item.clone());
            proof {
                if pos < old_out.len() {
                    // The entry the search stopped at orders strictly
                    // above the new text.
                    assert(!lex_lt(old_out[pos as int]@, item@));
                    if !lex_lt(item@, old_out[pos as int]@) {
                        lemma_lex_connex(item@, old_out[pos as int]@);
                        assert(false);
                    }
                }
                assert forall|i: int, j: int| 0 <= i < j < out@.len() implies lex_lt(
                    #[trigger] out@[i]@,
                    #[trigger] out@[j]@,
                ) by {
                    if j < pos {
                        assert(out@[i] == old_out[i] && out@[j] == old_out[j]);
                    } else if j == pos {
                        assert(out@[i] == old_out[i]);
                        assert(out@[j]@ == item@);
                    } else {
                        assert(out@[j] == old_out[j - 1]);
                        if i < pos {
                            assert(out@[i] == old_out[i]);
                            if j - 1 == pos {
                                assert(lex_lt(item@, old_out[pos as int]@));
                                lemma_lex_trans(out@[i]@, item@, out@[j]@);
                            }
                        } else if i == pos {
                            assert(out@[i]@ == item@);
                            assert(lex_lt(item@, old_out[pos as int]@));
                            if j - 1 > pos {
                                lemma_lex_trans(item@, old_out[pos as int]@, old_out[j - 1]@);
                            }
                        } else {
                            assert(out@[i] == old_out[i - 1] && out@[j] == old_out[j - 1]);
                        }
                    }
                }
                assert forall|i: int| 0 <= i < out@.len() implies holds_text(
                    items@,
                    #[trigger] out@[i]@,
                ) by {
                    if i < pos {
                        assert(out@[i] == old_out[i]);
                    } else if i == pos {
                        assert(out@[i]@ == items@[idx as int]@);
                    } else {
                        assert(out@[i] == old_out[i - 1]);
                    }
                }
                assert forall|k: int| 0 <= k < idx + 1 implies holds_text(
                    out@,
                    #[trigger] items@[k]@,
                ) by {
                    if k < idx {
                        let w = choose|w: int|
                            0 <= w < old_out.len() && #[trigger] old_out[w]@ == items@[k]@;
                        if w < pos {
                            assert(out@[w]@ == items@[k]@);
                        } else {
                            assert(out@[w + 1]@ == items@[k]@);
                        }
                    } else {
                        assert(out@[pos as int]@ == items@[k]@);
                    }
                }
            }
        }
        idx = idx + 1;
    }
    out
}

} // verus!
