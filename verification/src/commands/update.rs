use vstd::prelude::*;

verus! {

/// Updates the tool's executable and its resource bundle.
pub struct Update {
    pub executable: bool,
    pub resources: bool,
}

impl Update {
    pub fn new(executable: bool, resources: bool) -> (r: Self)
        ensures
            r.executable == executable,
            r.resources == resources,
    {
        Update { executable, resources }
    }

    /// The command as the first run issues it: fetch the resources only.
    pub fn setup() -> (r: Self)
        ensures
            !r.executable,
            r.resources,
    {
        Update { executable: false, resources: true }
    }

    /// What to update: the flags as given, and both targets where
    /// neither flag was set.
    pub fn targets(&self) -> (r: (bool, bool))
        ensures
            r == if !self.executable && !self.resources {
                (true, true)
            } else {
                (self.executable, self.resources)
            },
    {
        if !self.executable && !self.resources {
            (true, true)
        } else {
            (self.executable, self.resources)
        }
    }
}

} // verus!
