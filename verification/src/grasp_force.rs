//! Grasp closure modes and the descriptor keys of their rated payloads.
//!
//! The numeric capacity model (holding and reaction factors, the dynamic and
//! carry acceleration limits) is floating-point arithmetic and lives with the
//! application layer; this module holds the mode vocabulary that the
//! composition and lowering logic reads.

use vstd::prelude::*;

verus! {

/// A held-grasp closure mode: the key for the per-mode factors, the payload
/// limit, and the static stability class.
#[derive(Debug, Clone, Copy, PartialEq, Eq)]
pub enum GraspMode {
    /// Antipodal force-closure pinch.
    Pinch,
    /// Whole-volume force-closure enclosure.
    Power,
    /// Key-grip force closure across a thin dimension.
    Lateral,
    /// Three-point force closure resisting rotation about the grasp axis.
    PrecisionTripod,
    /// Form closure on a hookable feature.
    Hook,
    /// Compliant form-closure enclosure.
    EnvelopeConform,
    /// Caging form-closure enclosure.
    EnvelopeCage,
    /// Extrinsic force-closure pin against an external surface.
    Pin,
    /// Support closure: an object borne in balance over a support polygon.
    Platform,
}

/// The descriptor limit key of a mode's rated payload.
pub open spec fn spec_payload_key(mode: GraspMode) -> Seq<char> {
    match mode {
        GraspMode::Pinch => "payload_grasp_pinch"@,
        GraspMode::Power => "payload_grasp_power"@,
        GraspMode::Lateral => "payload_grasp_lateral"@,
        GraspMode::PrecisionTripod => "payload_grasp_tripod"@,
        GraspMode::Hook => "payload_grasp_hook"@,
        GraspMode::EnvelopeConform => "payload_grasp_envelope"@,
        GraspMode::EnvelopeCage => "payload_grasp_envelope"@,
        GraspMode::Pin => "payload_grasp_pin"@,
        GraspMode::Platform => "payload_support"@,
    }
}

/// The name a mode is reported under in diagnostics.
pub open spec fn spec_mode_name(mode: GraspMode) -> Seq<char> {
    match mode {
        GraspMode::Pinch => "Pinch"@,
        GraspMode::Power => "Power"@,
        GraspMode::Lateral => "Lateral"@,
        GraspMode::PrecisionTripod => "PrecisionTripod"@,
        GraspMode::Hook => "Hook"@,
        GraspMode::EnvelopeConform => "EnvelopeConform"@,
        GraspMode::EnvelopeCage => "EnvelopeCage"@,
        GraspMode::Pin => "Pin"@,
        GraspMode::Platform => "Platform"@,
    }
}

impl GraspMode {
    /// The descriptor limit key for this mode's rated payload (max holdable weight).
    pub fn payload_key(self) -> (k: &'static str)
        ensures
            k@ == spec_payload_key(self),
    {
        match self {
            GraspMode::Pinch => "payload_grasp_pinch",
            GraspMode::Power => "payload_grasp_power",
            GraspMode::Lateral => "payload_grasp_lateral",
            GraspMode::PrecisionTripod => "payload_grasp_tripod",
            GraspMode::Hook => "payload_grasp_hook",
            GraspMode::EnvelopeConform => "payload_grasp_envelope",
            GraspMode::EnvelopeCage => "payload_grasp_envelope",
            GraspMode::Pin => "payload_grasp_pin",
            GraspMode::Platform => "payload_support",
        }
    }

    /// The mode's name as diagnostics report it (e.g. `Pin`).
    pub fn name(self) -> (k: &'static str)
        ensures
            k@ == spec_mode_name(self),
    {
        match self {
            GraspMode::Pinch => "Pinch",
            GraspMode::Power => "Power",
            GraspMode::Lateral => "Lateral",
            GraspMode::PrecisionTripod => "PrecisionTripod",
            GraspMode::Hook => "Hook",
            GraspMode::EnvelopeConform => "EnvelopeConform",
            GraspMode::EnvelopeCage => "EnvelopeCage",
            GraspMode::Pin => "Pin",
            GraspMode::Platform => "Platform",
        }
    }
}

} // verus!
