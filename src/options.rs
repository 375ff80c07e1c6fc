use vstd::prelude::*;

verus! {

/// The options that both commands take.
#[derive(Clone, Debug, Default, PartialEq, Eq)]
pub struct CommonOpt {
    /// Suppresses diagnostics.
    pub quiet: bool,
    /// Activates or deactivates whatever the current state.
    pub force: bool,
    /// The version to activate.
    pub version: Option<String>,
}

} // verus!
