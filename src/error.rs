use vstd::prelude::*;

verus! {

/// Why a verb could not be built or invoked.
#[derive(Clone, Copy, Debug, PartialEq, Eq, Structural)]
pub enum VerbError {
    /// A malformed pattern, or a verb with no way to reach it.
    InvalidVerb,
    /// The same key or shortcut given twice to one verb.
    DuplicateBinding,
    /// A placeholder with no value bound by typed text.
    MissingArgument,
    /// The other panel's directory is needed and only one panel is open.
    NoOtherPanel,
}

} // verus!
