//! Driver-interface report vocabulary that carries no measurement: tactile
//! feature readings and the terminal outcome of an action.

use vstd::prelude::*;

verus! {

/// A tactile feature reading.
#[derive(Debug, Clone, PartialEq, Eq)]
pub struct TactileReading {
    /// The manifold feature name.
    pub feature: String,
    /// The reading (a unit-suffixed quantity or a qualitative token).
    pub reading: String,
}

/// The terminal outcome of an action.
#[derive(Debug, Clone, Copy, PartialEq, Eq)]
pub enum Outcome {
    /// The action completed and its postcondition holds.
    Succeeded,
    /// The action failed (a failure class accompanies it).
    Failed,
    /// The postcondition could not be determined.
    Indeterminate,
}

/// The wire name of an outcome.
pub open spec fn spec_outcome_name(o: Outcome) -> Seq<char> {
    match o {
        Outcome::Succeeded => "succeeded"@,
        Outcome::Failed => "failed"@,
        Outcome::Indeterminate => "indeterminate"@,
    }
}

impl Outcome {
    /// The wire name of the outcome (`succeeded`, `failed`, `indeterminate`).
    pub fn name(self) -> (r: &'static str)
        ensures
            r@ == spec_outcome_name(self),
    {
        match self {
            Outcome::Succeeded => "succeeded",
            Outcome::Failed => "failed",
            Outcome::Indeterminate => "indeterminate",
        }
    }
}

} // verus!
