//! Robot Foundation Layer core: the Skill ISA, grasp stability classes, the
//! embodiment descriptor model, and the retargeting of skills onto embodiments.

pub mod canonical;
pub mod composition;
pub mod driver;
pub mod embodiment;
pub mod error;
pub mod grasp_force;
pub mod lower_contact;
pub mod json;
pub mod lower_grasp;
pub mod lower_hand;
pub mod lower_motion;
pub mod lower_sense;
pub mod lowering;
pub mod quantity;
pub mod region;
pub mod skill_isa;
pub mod stability;
pub mod text;
pub mod translation;

use vstd::prelude::*;

verus! {

/// The version of the robot foundation layer this crate implements.
pub const SPEC_VERSION: &'static str = "v0.1-draft";

} // verus!
