//! The ECMAScript edition that output is lowered to.

use vstd::prelude::*;

verus! {

/// An ECMAScript edition named as the target of a compilation.
///
/// A descriptor that was decoded from outside the program may carry an
/// edition that this library has no name for; it is kept as
/// [`TargetVersion::Unrecognized`] and is never resolved.
#[derive(Clone, Copy, Debug, PartialEq, Eq, Hash, Structural)]
pub enum TargetVersion {
    Es3,
    Es5,
    Es2015,
    Es2016,
    Es2017,
    Es2018,
    Es2019,
    Es2020,
    Es2021,
    Es2022,
    Es2023,
    Es2024,
    EsNext,
    /// An edition outside the set above.
    Unrecognized,
}

impl TargetVersion {
    /// The editions a configuration can be resolved for: every named one.
    pub open spec fn supported(self) -> bool {
        self != TargetVersion::Unrecognized
    }

    /// Whether a configuration can be resolved for this edition.
    #[verifier::when_used_as_spec(supported)]
    pub fn is_supported(self) -> (yes: bool)
        ensures
            yes == self.supported(),
    {
        match self {
            TargetVersion::Unrecognized => false,
            _ => true,
        }
    }
}

impl Default for TargetVersion {
    /// ES5, the edition used when a project names none.
    fn default() -> (target: TargetVersion)
        ensures
            target == TargetVersion::Es5,
    {
        TargetVersion::Es5
    }
}

} // verus!
