//! The library's error type.

use vstd::prelude::*;

verus! {

/// An error of a library operation.
#[derive(Debug)]
pub enum Error {
    /// A skill composition error.
    SkillIsa(String),
    /// A retargeting error.
    Translation(String),
    /// A driver-interface error (e.g. an embodiment descriptor that does not
    /// match the descriptor shape).
    Driver(String),
}

/// The text an error is reported as.
pub open spec fn spec_error_message(e: Error) -> Seq<char> {
    match e {
        Error::SkillIsa(s) => "skill ISA error: "@ + s@,
        Error::Translation(s) => "translation error: "@ + s@,
        Error::Driver(s) => "driver interface error: "@ + s@,
    }
}

impl Error {
    /// The text this error is reported as, e.g. `translation error: capability_absent: grasp.pinch`.
    pub fn message(&self) -> (r: String)
        ensures
            r@ == spec_error_message(*self),
    {
        match self {
            Error::SkillIsa(s) => crate::text::join("skill ISA error: ", s.as_str()),
            Error::Translation(s) => crate::text::join("translation error: ", s.as_str()),
            Error::Driver(s) => crate::text::join("driver interface error: ", s.as_str()),
        }
    }
}

} // verus!
