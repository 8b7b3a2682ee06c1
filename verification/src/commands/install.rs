use vstd::prelude::*;

verus! {

/// Copies the mod's pak file into the game's content directory.
pub struct Install {
    pub pak: Option<String>,
    pub config: String,
}

impl Install {
    pub fn new(pak: Option<String>, config: String) -> (r: Self)
        ensures
            r.pak == pak,
            r.config == config,
    {
        Install { pak, config }
    }

    /// The pak file to install; with one given, the configuration file
    /// is not consulted.
    pub fn pak(&self) -> (r: &Option<String>)
        ensures
            r == &self.pak,
    {
        &self.pak
    }

    /// The mod configuration file's relative path.
    pub fn config(&self) -> (r: &String)
        ensures
            r == &self.config,
    {
        &self.config
    }
}

} // verus!
