use vstd::prelude::*;

verus! {

/// One creation profile: a name and the modules it installs.
pub struct Profile {
    pub name: String,
    pub modules: Vec<String>,
}

/// The creation profiles the tool knows, looked up by name; a later
/// entry with a taken name shadows the earlier one, as user-defined
/// profiles override bundled ones.
pub struct Profiles {
    entries: Vec<Profile>,
}

/// The last entry of `entries` carrying `name`, if any.
pub open spec fn find_profile(entries: Seq<Profile>, name: Seq<char>) -> Option<Profile>
    decreases entries.len(),
{
    if entries.len() == 0 {
        None
    } else if entries.last().name@ == name {
        Some(entries.last())
    } else {
        find_profile(entries.drop_last(), name)
    }
}

impl Profiles {
    /// The profile entries, in the order they were added.
    pub closed spec fn spec_entries(self) -> Seq<Profile> {
        self.entries@
    }

    /// An empty profile set.
    pub fn new() -> (r: Self)
        ensures
            r.spec_entries() == Seq::<Profile>::empty(),
    {
        Profiles { entries: Vec::new() }
    }

    /// Adds a profile, shadowing any earlier one of the same name.
    pub fn add(&mut self, profile: Profile)
        ensures
            final(self).spec_entries() == old(self).spec_entries().push(profile),
    {
        self.entries.push(profile);
    }

    /// The profiles, in the order they were added.
    pub fn entries(&self) -> (r: &Vec<Profile>)
        ensures
            r@ == self.spec_entries(),
    {
        &self.entries
    }

    /// The modules of the profile called `name`, where one exists.
    pub fn get(&self, name: &str) -> (r: Option<&Vec<String>>)
        ensures
            match r {
                Some(m) => find_profile(self.spec_entries(), name@) matches Some(p) && p.modules
                    == *m,
                None => find_profile(self.spec_entries(), name@) is None,
            },
    {
        let n = self.entries.len();
        let mut k: usize = n;
        proof {
            assert(self.entries@.subrange(0, n as int) =~= self.entries@);
        }
        while k > 0
            invariant
                n == self.entries@.len(),
                k <= n,
                find_profile(self.entries@, name@) == find_profile(
                    self.entries@.subrange(0, k as int),
                    name@,
                ),
            decreases k,
        {
            let ghost sub = self.entries@.subrange(0, k as int);
            proof {
                assert(sub.last() == self.entries@[k as int - 1]);
                assert(sub.drop_last() =~= self.entries@.subrange(0, k as int - 1));
            }
            let candidate = &self.entries[k - 1];
            if string_eq(&candidate.name, name) {
                return Some(&candidate.modules);
            }
            k = k - 1;
        }
        proof {
            assert(self.entries@.subrange(0, 0) =~= Seq::<Profile>::empty());
        }
        None
    }
}

/// Whether a string holds the characters of `b`.
fn string_eq(a: &String, b: &str) -> (r: bool)
    ensures
        r == (a@ == b@),
{
    let other = String::from_str(b);
    *a == other
}

} // verus!
