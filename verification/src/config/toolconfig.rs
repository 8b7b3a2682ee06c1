use vstd::prelude::*;

use crate::paths;
use crate::resources::profiles::Profiles;

verus! {

/// The tool's own configuration: where the engine lives, where finished
/// paks are installed, and any user-defined creation profiles.
pub struct ToolConfig {
    pub engine: String,
    pub moddir: String,
    pub profiles: Profiles,
}

impl ToolConfig {
    /// A configuration for the engine at `engine` installing into
    /// `moddir`, with no user-defined profiles.
    pub fn new(engine: String, moddir: String) -> (r: Self)
        ensures
            r.engine == engine,
            r.moddir == moddir,
            r.profiles.spec_entries() == Seq::<crate::resources::profiles::Profile>::empty(),
    {
        ToolConfig { engine, moddir, profiles: Profiles::new() }
    }

    /// The path of the engine's automation tool.
    pub fn uat(&self) -> (r: String)
        ensures
            r@ == self.engine@ + seq!['\\'] + "Engine\\Build\\BatchFiles\\RunUAT.bat"@,
    {
        paths::join(self.engine.as_str(), "Engine\\Build\\BatchFiles\\RunUAT.bat")
    }

    /// The path of the engine's pak tool.
    pub fn upak(&self) -> (r: String)
        ensures
            r@ == self.engine@ + seq!['\\'] + "Engine\\Binaries\\Win64\\UnrealPak.exe"@,
    {
        paths::join(self.engine.as_str(), "Engine\\Binaries\\Win64\\UnrealPak.exe")
    }

    /// The game's mods directory, where finished paks are installed.
    pub fn moddir(&self) -> (r: &String)
        ensures
            r == &self.moddir,
    {
        &self.moddir
    }

    /// The user-defined creation profiles.
    pub fn profiles(&self) -> (r: &Profiles)
        ensures
            r == &self.profiles,
    {
        &self.profiles
    }
}

} // verus!
