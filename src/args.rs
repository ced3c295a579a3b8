use std::path::PathBuf;
use vstd::prelude::*;

verus! {

/// Paths are carried through untouched: only whether a path option was given
/// matters to the rules below.
#[verifier::external_type_specification]
#[verifier::external_body]
pub struct ExPathBuf(PathBuf);

/// Every command-line option exactly as the user supplied it.
pub struct Args {
    /// File or directory to remove
    pub targets: Vec<PathBuf>,
    /// Directory where deleted files rest
    pub graveyard: Option<PathBuf>,
    /// Permanently deletes the graveyard
    pub decompose: bool,
    /// Deletes the graveyard without confirmation
    pub force: bool,
    /// Prints files that were deleted in the current working directory
    pub seance: bool,
    /// Restore the specified files, or the last file if none are specified
    pub unbury: Option<Vec<PathBuf>>,
    /// Print some info about a target before burying
    pub inspect: bool,
    /// Generate a shell completions file for the named shell
    pub completions: Option<String>,
}

impl Args {
    /// The paths named by `--unbury`, if it was given.
    pub open spec fn unbury_paths(self) -> Option<Seq<PathBuf>> {
        match self.unbury {
            Some(v) => Some(v@),
            None => None,
        }
    }

    /// Two option sets that hold the same values in every field.
    pub open spec fn same_options(self, other: Args) -> bool {
        &&& self.targets@ == other.targets@
        &&& self.graveyard == other.graveyard
        &&& self.decompose == other.decompose
        &&& self.force == other.force
        &&& self.seance == other.seance
        &&& self.unbury_paths() == other.unbury_paths()
        &&& self.inspect == other.inspect
        &&& self.completions == other.completions
    }

    /// The option set in which no flag was supplied.
    pub open spec fn is_template(self) -> bool {
        &&& self.targets@.len() == 0
        &&& self.graveyard is None
        &&& !self.decompose
        &&& !self.force
        &&& !self.seance
        &&& self.unbury is None
        &&& !self.inspect
        &&& self.completions is None
    }
}

impl Default for Args {
    fn default() -> (r: Args)
        ensures
            r.is_template(),
    {
        Args {
            targets: Vec::new(),
            graveyard: None,
            decompose: false,
            force: false,
            seance: false,
            unbury: None,
            inspect: false,
            completions: None,
        }
    }
}

/// For each option but the targets: whether it stands at its default value.
pub struct IsDefault {
    pub graveyard: bool,
    pub decompose: bool,
    pub force: bool,
    pub seance: bool,
    pub unbury: bool,
    pub inspect: bool,
    pub completions: bool,
}

/// The presence vector of `cli`: each option compared with the template.
pub open spec fn presence_of(cli: Args) -> IsDefault {
    IsDefault {
        graveyard: cli.graveyard is None,
        decompose: !cli.decompose,
        force: !cli.force,
        seance: !cli.seance,
        unbury: cli.unbury is None,
        inspect: !cli.inspect,
        completions: cli.completions is None,
    }
}

impl IsDefault {
    pub fn new(cli: &Args) -> (r: IsDefault)
        ensures
            r == presence_of(*cli),
    {
        let defaults = Args::default();
        IsDefault {
            graveyard: cli.graveyard.is_none() == defaults.graveyard.is_none(),
            decompose: cli.decompose == defaults.decompose,
            force: cli.force == defaults.force,
            seance: cli.seance == defaults.seance,
            unbury: cli.unbury.is_none() == defaults.unbury.is_none(),
            inspect: cli.inspect == defaults.inspect,
            completions: cli.completions.is_none() == defaults.completions.is_none(),
        }
    }
}

} // verus!
