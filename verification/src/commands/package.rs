use vstd::prelude::*;

use crate::paths;

verus! {

/// Packages a mod project into a pak file.
pub struct Package {
    pub config: String,
    pub no_copy: bool,
    pub no_compress: bool,
}

impl Package {
    pub fn new(config: String, no_copy: bool, no_compress: bool) -> (r: Self)
        ensures
            r == (Package { config, no_copy, no_compress }),
    {
        Package { config, no_copy, no_compress }
    }

    /// The mod configuration file's relative path.
    pub fn config(&self) -> (r: &String)
        ensures
            r == &self.config,
    {
        &self.config
    }

    /// Whether to skip copying the latest cooked content.
    pub fn no_copy(&self) -> (r: bool)
        ensures
            r == self.no_copy,
    {
        self.no_copy
    }

    /// Whether to skip compressing the pak file.
    pub fn no_compress(&self) -> (r: bool)
        ensures
            r == self.no_compress,
    {
        self.no_compress
    }
}

/// `s` with every forward slash turned into a backslash, so that prefix
/// tests see a single separator.
pub open spec fn spec_same_sep(s: Seq<char>) -> Seq<char> {
    Seq::new(
        s.len(),
        |i: int|
            if s[i] == '/' {
                '\\'
            } else {
                s[i]
            },
    )
}

/// Rewrites forward slashes to backslashes, the separator the include
/// entries are written with.
pub fn path_same_separator(path: &str) -> (r: String)
    ensures
        r@ == spec_same_sep(path@),
{
    let n = path.unicode_len();
    let mut out = String::new();
    let mut last: usize = 0;
    let mut i: usize = 0;
    while i < n
        invariant
            n == path@.len(),
            last <= i <= n,
            forall|k: int| last <= k < i ==> path@[k] != '/',
            out@ == spec_same_sep(path@.subrange(0, last as int)),
        decreases n - i,
    {
        let c = path.get_char(i);
        if c == '/' {
            let piece = path.substring_char(last, i);
            out.append(piece);
            out.append("\\");
            proof {
                reveal_strlit("\\");
                assert("\\"@ =~= seq!['\\']);
                assert(out@ =~= spec_same_sep(path@.subrange(0, i as int + 1)));
            }
            last = i + 1;
        }
        i = i + 1;
    }
    let piece = path.substring_char(last, n);
    out.append(piece);
    proof {
        assert(out@ =~= spec_same_sep(path@.subrange(0, n as int)));
        assert(path@.subrange(0, n as int) =~= path@);
    }
    out
}

/// Whether the cooked file at `rel` falls under one of the include
/// entries, all paths read with a single separator.
pub open spec fn spec_included(rel: Seq<char>, includes: Seq<String>) -> bool {
    exists|i: int|
        0 <= i < includes.len() && paths::is_prefix(
            spec_same_sep(rel),
            spec_same_sep(#[trigger] includes[i]@),
        )
}

/// Decides whether the cooked file at `rel` is copied into the package:
/// exactly when some include entry starts its path.
pub fn should_include(rel: &str, includes: &Vec<String>) -> (r: bool)
    ensures
        r == spec_included(rel@, includes@),
{
    let normal_rel = path_same_separator(rel);
    let count = includes.len();
    let mut i: usize = 0;
    while i < count
        invariant
            count == includes@.len(),
            i <= count,
            normal_rel@ == spec_same_sep(rel@),
            forall|k: int| 0 <= k < i ==> !paths::is_prefix(
                spec_same_sep(rel@),
                spec_same_sep(#[trigger] includes@[k]@),
            ),
        decreases count - i,
    {
        let normal_inc = path_same_separator(includes[i].as_str());
        if paths::str_prefix(normal_rel.as_str(), normal_inc.as_str()) {
            return true;
        }
        i = i + 1;
    }
    false
}

/// The text of the file list handed to the pak tool: the pak directory's
/// files, placed three directories up inside the archive.
pub fn upak_filelist_content(pakdir: &str) -> (r: String)
    ensures
        r@ == "\""@ + pakdir@ + "\\*.*\" \"..\\..\\..\\*.*\" "@,
{
    String::from_str("\"").concat(pakdir).concat("\\*.*\" \"..\\..\\..\\*.*\" ")
}

/// The argument list of a pak run: the pak file to create, the file
/// list driving it, and the compression switch where asked for. The
/// caller hands these to the external pak tool and waits on its exit
/// code.
pub fn upak_args(pakfile: &str, filelist: &str, compress: bool) -> (r: Vec<String>)
    ensures
        r@.len() == if compress {
            3int
        } else {
            2int
        },
        r@[0]@ == pakfile@,
        r@[1]@ == "-Create="@ + filelist@,
        compress ==> r@[2]@ == "-compress"@,
{
    let mut args: Vec<String> = Vec::new();
    args.push(String::from_str(pakfile));
    args.push(String::from_str("-Create=").concat(filelist));
    if compress {
        args.push(String::from_str("-compress"));
    }
    args
}

} // verus!
