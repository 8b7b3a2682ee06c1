use vstd::prelude::*;

use crate::paths;

verus! {

/// The placeholder a module's files carry where the project's name
/// belongs.
pub open spec fn spec_replace_token() -> Seq<char> {
    "PROJECTNAME"@
}

/// One installable module of the bundled resources: its files live under
/// `path`, and the lists say which of them are excluded, rewritten with
/// the project's name, or included in the final pak.
pub struct Module {
    pub name: String,
    pub path: String,
    pub dependencies: Vec<String>,
    pub modifyfiles: Vec<String>,
    pub excludefiles: Vec<String>,
    pub pakinclude: Vec<String>,
    pub credits: Vec<String>,
}

/// Whether `p` names `s` or a directory above it: a character-wise
/// prefix that ends at a component boundary.
pub open spec fn path_prefix(s: Seq<char>, p: Seq<char>) -> bool {
    paths::is_prefix(s, p) && (p.len() == s.len() || paths::is_sep(s[p.len() as int]) || (p.len()
        > 0 && paths::is_sep(p[p.len() - 1])))
}

impl Module {
    pub fn new(
        name: String,
        path: String,
        dependencies: Vec<String>,
        modifyfiles: Vec<String>,
        excludefiles: Vec<String>,
        pakinclude: Vec<String>,
        credits: Vec<String>,
    ) -> (r: Self)
        ensures
            r == (Module { name, path, dependencies, modifyfiles, excludefiles, pakinclude,
            credits }),
    {
        Module { name, path, dependencies, modifyfiles, excludefiles, pakinclude, credits }
    }

    /// The name of the module.
    pub fn name(&self) -> (r: &str)
        ensures
            r@ == self.name@,
    {
        self.name.as_str()
    }

    /// The path the module's files live under.
    pub fn path(&self) -> (r: &String)
        ensures
            r == &self.path,
    {
        &self.path
    }

    /// The modules this one needs installed beside it.
    pub fn dependencies(&self) -> (r: &Vec<String>)
        ensures
            r == &self.dependencies,
    {
        &self.dependencies
    }

    /// The files that take the project's name in their text.
    pub fn modifyfiles(&self) -> (r: &Vec<String>)
        ensures
            r == &self.modifyfiles,
    {
        &self.modifyfiles
    }

    /// The files and directories left out of an install.
    pub fn excludefiles(&self) -> (r: &Vec<String>)
        ensures
            r == &self.excludefiles,
    {
        &self.excludefiles
    }

    /// The files and directories included in the final pak.
    pub fn pakinclude(&self) -> (r: &Vec<String>)
        ensures
            r == &self.pakinclude,
    {
        &self.pakinclude
    }

    /// The credits of the module.
    pub fn credits(&self) -> (r: &Vec<String>)
        ensures
            r == &self.credits,
    {
        &self.credits
    }

    /// Whether the file at `rel_path` (named `file_name`) stays out of
    /// an install: the module's own configuration file always does, and
    /// so does everything under an excluded entry.
    pub fn is_excluded(&self, rel_path: &str, file_name: &str) -> (r: bool)
        ensures
            r == (file_name@ == "module.toml"@ || exists|i: int|
                0 <= i < self.excludefiles@.len() && path_prefix(
                    rel_path@,
                    #[trigger] self.excludefiles@[i]@,
                )),
    {
        let config_name = String::from_str("module.toml");
        let named = String::from_str(file_name);
        if named == config_name {
            return true;
        }
        let count = self.excludefiles.len();
        let mut i: usize = 0;
        while i < count
            invariant
                count == self.excludefiles@.len(),
                i <= count,
                forall|k: int| 0 <= k < i ==> !path_prefix(
                    rel_path@,
                    #[trigger] self.excludefiles@[k]@,
                ),
            decreases count - i,
        {
            if path_prefix_exec(rel_path, self.excludefiles[i].as_str()) {
                return true;
            }
            i = i + 1;
        }
        false
    }

    /// Whether the file at `rel_path` has the project's name written
    /// into its text and file name on install.
    pub fn needs_modify(&self, rel_path: &str) -> (r: bool)
        ensures
            r == exists|i: int|
                0 <= i < self.modifyfiles@.len() && #[trigger] self.modifyfiles@[i]@ == rel_path@,
    {
        let count = self.modifyfiles.len();
        let mut i: usize = 0;
        while i < count
            invariant
                count == self.modifyfiles@.len(),
                i <= count,
                forall|k: int| 0 <= k < i ==> #[trigger] self.modifyfiles@[k]@ != rel_path@,
            decreases count - i,
        {
            let named = String::from_str(rel_path);
            if self.modifyfiles[i] == named {
                return true;
            }
            i = i + 1;
        }
        false
    }
}

/// Every occurrence of `from` in `s` replaced by `to`, scanning left to
/// right without overlap; a text without the pattern comes back as it
/// is, and so does every text when the pattern is empty.
pub open spec fn spec_replace(s: Seq<char>, from: Seq<char>, to: Seq<char>) -> Seq<char>
    decreases s.len(),
{
    if from.len() == 0 || s.len() < from.len() {
        s
    } else if s.subrange(0, from.len() as int) == from {
        to + spec_replace(s.skip(from.len() as int), from, to)
    } else {
        seq![s[0]] + spec_replace(s.skip(1), from, to)
    }
}

/// Replaces every occurrence of `from` in `s` with `to`.
pub fn replace_all(s: &str, from: &str, to: &str) -> (r: String)
    ensures
        r@ == spec_replace(s@, from@, to@),
{
    let n = s.unicode_len();
    let m = from.unicode_len();
    if m == 0 {
        return String::from_str(s);
    }
    let mut out = String::new();
    let mut last: usize = 0;
    let mut i: usize = 0;
    proof {
        assert(s@.skip(0) =~= s@);
        assert(s@.subrange(0, 0) =~= Seq::<char>::empty());
    }
    while i < n
        invariant
            n == s@.len(),
            m == from@.len(),
            m > 0,
            last <= i <= n,
            spec_replace(s@, from@, to@) == out@ + s@.subrange(last as int, i as int)
                + spec_replace(s@.skip(i as int), from@, to@),
        decreases n - i,
    {
        let ghost rest = s@.skip(i as int);
        let matched = if m <= n && i <= n - m {
            let window = s.substring_char(i, i + m);
            let a = String::from_str(window);
            let b = String::from_str(from);
            a == b
        } else {
            false
        };
        proof {
            if i + m <= n {
                assert(rest.subrange(0, m as int) =~= s@.subrange(i as int, i as int + m as int));
            }
        }
        if matched {
            let piece = s.substring_char(last, i);
            out.append(piece);
            out.append(to);
            proof {
                assert(rest.skip(m as int) =~= s@.skip(i as int + m as int));
                assert(spec_replace(rest, from@, to@) == to@ + spec_replace(
                    s@.skip(i as int + m as int),
                    from@,
                    to@,
                ));
                assert(s@.subrange(i as int + m, i as int + m) =~= Seq::<char>::empty());
            }
            i = i + m;
            last = i;
            proof {
                assert(s@.subrange(last as int, i as int) =~= Seq::<char>::empty());
            }
        } else {
            proof {
                if rest.len() >= m {
                    assert(rest.subrange(0, m as int) != from@);
                }
                assert(rest.skip(1) =~= s@.skip(i as int + 1));
                assert(seq![rest[0]] =~= s@.subrange(i as int, i as int + 1));
                assert(s@.subrange(last as int, i as int) + s@.subrange(
                    i as int,
                    i as int + 1,
                ) =~= s@.subrange(last as int, i as int + 1));
            }
            i = i + 1;
        }
    }
    let piece = s.substring_char(last, n);
    out.append(piece);
    proof {
        assert(s@.skip(n as int) =~= Seq::<char>::empty());
    }
    out
}

/// The file name or text of a module file with the project's name
/// written over every occurrence of the placeholder.
pub fn apply_project_name(text: &str, project: &str) -> (r: String)
    ensures
        r@ == spec_replace(text@, spec_replace_token(), project@),
{
    replace_all(text, "PROJECTNAME", project)
}

/// The index of the first module carrying `name`, if any is loaded.
pub fn find_module(modules: &Vec<Module>, name: &str) -> (r: Option<usize>)
    ensures
        match r {
            Some(i) => i < modules@.len() && modules@[i as int].name@ == name@ && forall|k: int|
                0 <= k < i ==> #[trigger] modules@[k].name@ != name@,
            None => forall|k: int|
                0 <= k < modules@.len() ==> #[trigger] modules@[k].name@ != name@,
        },
{
    let count = modules.len();
    let mut i: usize = 0;
    while i < count
        invariant
            count == modules@.len(),
            i <= count,
            forall|k: int| 0 <= k < i ==> #[trigger] modules@[k].name@ != name@,
        decreases count - i,
    {
        let wanted = String::from_str(name);
        if modules[i].name == wanted {
            return Some(i);
        }
        i = i + 1;
    }
    None
}


/// Whether some module of the list carries the given name.
pub open spec fn has_module(all: Seq<Module>, name: Seq<char>) -> bool {
    exists|i: int| 0 <= i < all.len() && #[trigger] all[i].name@ == name
}

/// The dependencies of `module` that no module of `all` satisfies: what
/// an install warns about, in the order the module declares them.
pub fn missing_dependencies(module: &Module, all: &Vec<Module>) -> (r: Vec<String>)
    ensures
        forall|j: int| 0 <= j < r@.len() ==> !has_module(all@, #[trigger] r@[j]@),
        forall|k: int|
            0 <= k < module.dependencies@.len() ==> (has_module(
                all@,
                #[trigger] module.dependencies@[k]@,
            ) || exists|j: int| 0 <= j < r@.len() && #[trigger] r@[j]@ == module.dependencies@[k]@),
{
    let mut missing: Vec<String> = Vec::new();
    let count = module.dependencies.len();
    let mut k: usize = 0;
    while k < count
        invariant
            count == module.dependencies@.len(),
            k <= count,
            forall|j: int| 0 <= j < missing@.len() ==> !has_module(all@, #[trigger] missing@[j]@),
            forall|i: int|
                0 <= i < k ==> (has_module(all@, #[trigger] module.dependencies@[i]@) || exists|
                    j: int,
                |
                    0 <= j < missing@.len() && #[trigger] missing@[j]@
                        == module.dependencies@[i]@),
        decreases count - k,
    {
        let dependency = &module.dependencies[k];
        match find_module(all, dependency.as_str()) {
            Some(_) => {},
            None => {
                let ghost before = missing@;
                missing.push(dependency.clone());
                proof {
                    assert(missing@[before.len() as int]@ == module.dependencies@[k as int]@);
                    assert(forall|j: int|
                        0 <= j < before.len() ==> missing@[j] == before[j]);
                }
            },
        }
        k = k + 1;
    }
    missing
}

/// Whether `p` names the path `s` or a directory above it.
fn path_prefix_exec(s: &str, p: &str) -> (r: bool)
    ensures
        r == path_prefix(s@, p@),
{
    if !paths::str_prefix(s, p) {
        return false;
    }
    let n = s.unicode_len();
    let m = p.unicode_len();
    if m == n {
        return true;
    }
    let boundary = s.get_char(m);
    if boundary == '\\' || boundary == '/' {
        return true;
    }
    if m > 0 {
        let last = p.get_char(m - 1);
        if last == '\\' || last == '/' {
            return true;
        }
    }
    false
}

} // verus!
