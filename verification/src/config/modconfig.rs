use vstd::prelude::*;

use crate::paths;

verus! {

/// What a mod project packages: the files to cook first and the files to
/// take as they are.
pub struct Includes {
    pub cook: Vec<String>,
    pub copy: Vec<String>,
}

impl Includes {
    /// Files and folders to cook and then include.
    pub fn cook(&self) -> (r: &Vec<String>)
        ensures
            r == &self.cook,
    {
        &self.cook
    }

    /// Files and folders to include as they are.
    pub fn copy(&self) -> (r: &Vec<String>)
        ensures
            r == &self.copy,
    {
        &self.copy
    }

    pub fn set_cook(&mut self, value: Vec<String>)
        ensures
            final(self).cook == value,
            final(self).copy == old(self).copy,
    {
        self.cook = value;
    }

    pub fn set_copy(&mut self, value: Vec<String>)
        ensures
            final(self).cook == old(self).cook,
            final(self).copy == value,
    {
        self.copy = value;
    }

    /// Whether nothing is included yet.
    pub open spec fn spec_is_empty(self) -> bool {
        self.cook@ == Seq::<String>::empty() && self.copy@ == Seq::<String>::empty()
    }
}

impl Default for Includes {
    /// No includes at all.
    fn default() -> (r: Self)
        ensures
            r.spec_is_empty(),
    {
        Includes { cook: Vec::new(), copy: Vec::new() }
    }
}

/// The declarative description of one mod project, kept beside it in its
/// working directory.
pub struct ModConfig {
    pub project: String,
    pub pakname: String,
    pub includes: Includes,
    pub packagedir: String,
    pub credits: Vec<String>,
    pub wd: String,
}

impl ModConfig {
    /// A fresh configuration for the project `name` in the working
    /// directory `wd`: the pak file is named `Z_<name>_P`, packaging
    /// happens under `Package`, and nothing is included yet.
    pub fn new(name: &str, wd: &str) -> (r: Self)
        ensures
            r.project@ == name@,
            r.pakname@ == "Z_"@ + name@ + "_P"@,
            r.packagedir@ == "Package"@,
            r.includes.spec_is_empty(),
            r.credits@ == Seq::<String>::empty(),
            r.wd@ == wd@,
    {
        ModConfig {
            project: String::from_str(name),
            pakname: String::from_str("Z_").concat(name).concat("_P"),
            includes: Includes::default(),
            packagedir: String::from_str("Package"),
            credits: Vec::new(),
            wd: String::from_str(wd),
        }
    }

    /// The pak file's name.
    pub fn pakname(&self) -> (r: &String)
        ensures
            r == &self.pakname,
    {
        &self.pakname
    }

    /// The pak file's absolute path: the package directory under the
    /// working directory, then `<pakname>.pak`.
    pub fn pakfile(&self) -> (r: String)
        ensures
            r@ == self.wd@ + seq!['\\'] + self.packagedir@ + seq!['\\'] + self.pakname@
                + ".pak"@,
    {
        let dir = paths::join(self.wd.as_str(), self.packagedir.as_str());
        let file = self.pakname.clone().concat(".pak");
        paths::join(dir.as_str(), file.as_str())
    }

    /// The Unreal project's name.
    pub fn project(&self) -> (r: &String)
        ensures
            r == &self.project,
    {
        &self.project
    }

    /// The absolute path of the `.uproject` file.
    pub fn uproject(&self) -> (r: String)
        ensures
            r@ == self.wd@ + seq!['\\'] + self.project@ + ".uproject"@,
    {
        let file = self.project.clone().concat(".uproject");
        paths::join(self.wd.as_str(), file.as_str())
    }

    /// The package directory's path relative to the working directory.
    pub fn packagedir(&self) -> (r: &String)
        ensures
            r == &self.packagedir,
    {
        &self.packagedir
    }

    /// The package includes.
    pub fn includes(&self) -> (r: &Includes)
        ensures
            r == &self.includes,
    {
        &self.includes
    }

    /// The package includes, for updating.
    pub fn includes_mut(&mut self) -> (r: &mut Includes)
        ensures
            *r == old(self).includes,
            final(self).includes == *final(r),
            final(self).project == old(self).project,
            final(self).pakname == old(self).pakname,
            final(self).packagedir == old(self).packagedir,
            final(self).credits == old(self).credits,
            final(self).wd == old(self).wd,
    {
        &mut self.includes
    }

    /// The credits of the included modules.
    pub fn credits(&self) -> (r: &Vec<String>)
        ensures
            r == &self.credits,
    {
        &self.credits
    }

    pub fn set_credits(&mut self, data: Vec<String>)
        ensures
            final(self).credits == data,
            final(self).project == old(self).project,
            final(self).pakname == old(self).pakname,
            final(self).includes == old(self).includes,
            final(self).packagedir == old(self).packagedir,
            final(self).wd == old(self).wd,
    {
        self.credits = data;
    }

    /// The mod project's working directory.
    pub fn wd(&self) -> (r: &String)
        ensures
            r == &self.wd,
    {
        &self.wd
    }
}

} // verus!
