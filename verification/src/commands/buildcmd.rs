use vstd::prelude::*;

verus! {

/// Builds (cooks) the mod project through the engine's automation tool.
pub struct Build {
    pub config: String,
}

impl Build {
    pub fn new(config: String) -> (r: Self)
        ensures
            r.config == config,
    {
        Build { config }
    }

    /// The mod configuration file's relative path.
    pub fn config(&self) -> (r: &String)
        ensures
            r == &self.config,
    {
        &self.config
    }
}

/// The argument list of a cook run: the fixed automation-tool arguments,
/// then the project to cook. The caller hands these to the external
/// automation tool and waits on its exit code.
pub fn uat_args(uproject: &str) -> (r: Vec<String>)
    ensures
        r@.len() == 12,
        r@[0]@ == "BuildCookRun"@,
        r@[1]@ == "-nocompile"@,
        r@[2]@ == "-nocompileeditor"@,
        r@[3]@ == "-nodebuginfo"@,
        r@[4]@ == "-installed"@,
        r@[5]@ == "-nop4"@,
        r@[6]@ == "-cook"@,
        r@[7]@ == "-skipstage"@,
        r@[8]@ == "-ue4exe=UE4Editor-Cmd.exe"@,
        r@[9]@ == "-targetplatform=Win64"@,
        r@[10]@ == "-utf8output"@,
        r@[11]@ == "-project=\""@ + uproject@ + "\""@,
{
    let mut args: Vec<String> = Vec::new();
    args.push(String::from_str("BuildCookRun"));
    args.push(String::from_str("-nocompile"));
    args.push(String::from_str("-nocompileeditor"));
    args.push(String::from_str("-nodebuginfo"));
    args.push(String::from_str("-installed"));
    args.push(String::from_str("-nop4"));
    args.push(String::from_str("-cook"));
    args.push(String::from_str("-skipstage"));
    args.push(String::from_str("-ue4exe=UE4Editor-Cmd.exe"));
    args.push(String::from_str("-targetplatform=Win64"));
    args.push(String::from_str("-utf8output"));
    args.push(String::from_str("-project=\"").concat(uproject).concat("\""));
    args
}

} // verus!
