use crate::args::{presence_of, Args, IsDefault};
use vstd::prelude::*;

verus! {

/// Why an option set names no single coherent mode.
#[derive(Clone, Copy, Debug, PartialEq, Eq, Structural)]
pub enum ConflictingMode {
    /// `--completions` was combined with some other option.
    Completions,
    /// `-f,--force` was combined with `--seance`, `--unbury` or `--inspect`.
    Force,
    /// `-d,--decompose` was combined with `--seance`, `--unbury` or `--inspect`.
    Decompose,
}

impl ConflictingMode {
    pub open spec fn message_spec(self) -> Seq<char> {
        match self {
            ConflictingMode::Completions => "--completions can only be used by itself"@,
            ConflictingMode::Force => "-f,--force can only be used with -d,--decompose and --graveyard"@,
            ConflictingMode::Decompose => "-d,--decompose can only be used with -f,--force and --graveyard"@,
        }
    }

    /// The explanation shown to the user.
    pub fn message(&self) -> (r: &'static str)
        ensures
            r@ == self.message_spec(),
    {
        match self {
            ConflictingMode::Completions => "--completions can only be used by itself",
            ConflictingMode::Force => "-f,--force can only be used with -d,--decompose and --graveyard",
            ConflictingMode::Decompose => "-d,--decompose can only be used with -f,--force and --graveyard",
        }
    }
}

/// Every option other than `completions` stands at its default, targets included.
pub open spec fn all_but_completions_default(cli: Args) -> bool {
    let d = presence_of(cli);
    &&& cli.targets@.len() == 0
    &&& d.graveyard
    &&& d.decompose
    &&& d.force
    &&& d.seance
    &&& d.unbury
    &&& d.inspect
}

/// One of `seance`, `unbury` and `inspect` was supplied.
pub open spec fn lists_restores_or_inspects(cli: Args) -> bool {
    let d = presence_of(cli);
    !(d.seance && d.unbury && d.inspect)
}

/// The outcome of validating `cli`: the first rule it breaks, if any.
pub open spec fn validation_of(cli: Args) -> Result<(), ConflictingMode> {
    if cli.completions is Some && !all_but_completions_default(cli) {
        Err(ConflictingMode::Completions)
    } else if cli.force && lists_restores_or_inspects(cli) {
        Err(ConflictingMode::Force)
    } else if cli.decompose && lists_restores_or_inspects(cli) {
        Err(ConflictingMode::Decompose)
    } else {
        Ok(())
    }
}

/// Accepts `cli` exactly when its options name one unambiguous mode.
pub fn validate_args(cli: &Args) -> (r: Result<(), ConflictingMode>)
    ensures
        r == validation_of(*cli),
{
    let defaults = IsDefault::new(cli);

    // completions can only be used by itself
    if !defaults.completions
        && !(cli.targets.len() == 0
            && defaults.graveyard
            && defaults.decompose
            && defaults.force
            && defaults.seance
            && defaults.unbury
            && defaults.inspect)
    {
        return Err(ConflictingMode::Completions);
    }
    // force and decompose only work with each other and the graveyard
    if !defaults.force && !(defaults.seance && defaults.unbury && defaults.inspect) {
        return Err(ConflictingMode::Force);
    }
    if !defaults.decompose && !(defaults.seance && defaults.unbury && defaults.inspect) {
        return Err(ConflictingMode::Decompose);
    }
    Ok(())
}

/// Completions asked for alone are accepted.
pub proof fn lemma_completions_alone_accepted(cli: Args)
    requires
        cli.completions is Some,
        all_but_completions_default(cli),
    ensures
        validation_of(cli) == Ok::<(), ConflictingMode>(()),
{
}

/// Completions asked for beside any other option are refused as a completions conflict.
pub proof fn lemma_completions_with_others_refused(cli: Args)
    requires
        cli.completions is Some,
        !all_but_completions_default(cli),
    ensures
        validation_of(cli) == Err::<(), ConflictingMode>(ConflictingMode::Completions),
{
}

/// Without completions, force beside seance, unbury or inspect is refused as a force
/// conflict.
pub proof fn lemma_force_with_mode_refused(cli: Args)
    requires
        cli.completions is None,
        cli.force,
        cli.seance || cli.unbury is Some || cli.inspect,
    ensures
        validation_of(cli) == Err::<(), ConflictingMode>(ConflictingMode::Force),
{
}

/// Without completions or force, decompose beside seance, unbury or inspect is refused
/// as a decompose conflict. With force also set, the force conflict is the one reported.
pub proof fn lemma_decompose_with_mode_refused(cli: Args)
    requires
        cli.completions is None,
        !cli.force,
        cli.decompose,
        cli.seance || cli.unbury is Some || cli.inspect,
    ensures
        validation_of(cli) == Err::<(), ConflictingMode>(ConflictingMode::Decompose),
{
}

/// Validation depends on the option values alone: two option sets with the same
/// values in every field get the same outcome.
pub proof fn lemma_validation_deterministic(a: Args, b: Args)
    requires
        a.same_options(b),
    ensures
        validation_of(a) == validation_of(b),
{
}

} // verus!
