pub mod buildcmd;
pub mod create;
pub mod install;
pub mod package;
pub mod update;

use vstd::prelude::*;

verus! {

/// The parsed command line: the verbosity flag and the chosen
/// subcommand.
pub struct Opts {
    pub verbose: bool,
    pub subcmd: SubCommand,
}

impl Opts {
    pub fn new(verbose: bool, subcmd: SubCommand) -> (r: Self)
        ensures
            r == (Opts { verbose, subcmd }),
    {
        Opts { verbose, subcmd }
    }

    /// Whether verbose output was asked for.
    pub fn verbose(&self) -> (r: bool)
        ensures
            r == self.verbose,
    {
        self.verbose
    }

    /// The chosen subcommand.
    pub fn subcmd(&self) -> (r: &SubCommand)
        ensures
            r == &self.subcmd,
    {
        &self.subcmd
    }
}

/// The subcommands the tool offers.
pub enum SubCommand {
    Create(create::Create),
    Build(buildcmd::Build),
    Package(package::Package),
    Install(install::Install),
    Update(update::Update),
}

} // verus!
