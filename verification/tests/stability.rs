use rfl_core::grasp_force::GraspMode;
use rfl_core::stability::{
    is_false, Closure, DofSecuring, StabilityFlags, StabilityMetadata, StableDirections,
};

#[test]
fn for_mode_pinch_is_force_closure_friction_held() {
    let m = StabilityMetadata::for_mode(GraspMode::Pinch);
    assert_eq!(m.closure, Closure::Force);
    assert_eq!(m.secured_dof.get("all_axes"), Some(&DofSecuring::FrictionHeld));
    assert_eq!(m.stable_directions, StableDirections::omnidirectional());
    assert!(m.flags.is_empty());
    assert_eq!(m.min_holding_force, None);
    assert_eq!(m.residual_mobility, None);
}

#[test]
fn for_mode_power_matches_pinch_force_closure() {
    let m = StabilityMetadata::for_mode(GraspMode::Power);
    assert_eq!(m.closure, Closure::Force);
    assert_eq!(m.secured_dof.get("all_axes"), Some(&DofSecuring::FrictionHeld));
    assert_eq!(m.stable_directions, StableDirections::omnidirectional());
    assert!(m.flags.is_empty());
}

#[test]
fn for_mode_lateral_clamps_normal_and_in_plane() {
    let m = StabilityMetadata::for_mode(GraspMode::Lateral);
    assert_eq!(m.closure, Closure::Force);
    assert_eq!(m.secured_dof.get("clamp_normal"), Some(&DofSecuring::FrictionHeld));
    assert_eq!(m.secured_dof.get("in_plane"), Some(&DofSecuring::FrictionHeld));
    assert!(m.flags.is_empty());
}

#[test]
fn for_mode_pin_is_surface_bound_extrinsic_directional() {
    let m = StabilityMetadata::for_mode(GraspMode::Pin);
    assert_eq!(m.closure, Closure::Force);
    assert_eq!(m.secured_dof.get("clamp_normal"), Some(&DofSecuring::FrictionHeld));
    assert!(m.flags.surface_bound && m.flags.extrinsic);
    assert!(!m.flags.compliant && !m.flags.rotation_constrained);
    assert_eq!(
        m.stable_directions,
        StableDirections::Named(vec!["against_surface.normal".to_string()])
    );
}

#[test]
fn for_mode_platform_is_support_closure_balance_held_no_flags() {
    let m = StabilityMetadata::for_mode(GraspMode::Platform);
    assert_eq!(m.closure, Closure::Support);
    assert_eq!(m.secured_dof.get("support_normal"), Some(&DofSecuring::BalanceHeld));
    assert!(m.flags.is_empty());
    assert_eq!(m.stable_directions, StableDirections::Named(vec!["support_normal".to_string()]));
}

#[test]
fn hook_table_entry_is_form_closure_on_the_load_direction() {
    let m = StabilityMetadata::for_mode(GraspMode::Hook);
    assert_eq!(m.closure, Closure::Form);
    assert_eq!(m.secured_dof.get("load_direction"), Some(&DofSecuring::FormHeld));
    assert!(m.secured_dof.has_form_held());
    assert_eq!(m.stable_directions, StableDirections::Named(vec!["load_direction".to_string()]));
    assert!(m.flags.is_empty());
}

#[test]
fn tripod_is_rotation_constrained_and_envelopes_are_enclosures() {
    let t = StabilityMetadata::for_mode(GraspMode::PrecisionTripod);
    assert!(t.flags.rotation_constrained && !t.flags.is_empty());
    assert!(!t.secured_dof.has_form_held());
    let c = StabilityMetadata::for_mode(GraspMode::EnvelopeConform);
    assert_eq!(c.closure, Closure::Form);
    assert!(c.flags.compliant);
    assert_eq!(c.secured_dof.get("enclosure"), Some(&DofSecuring::FrictionHeld));
    let g = StabilityMetadata::for_mode(GraspMode::EnvelopeCage);
    assert_eq!(g.closure, Closure::Form);
    assert!(g.flags.is_empty());
    assert_eq!(g.secured_dof.get("all_axes"), None);
}

#[test]
fn empty_flags_are_omitted_and_set_flags_are_minimal() {
    // no flag set: the metadata's flags are empty (and omitted when emitted).
    let m = StabilityMetadata::for_mode(GraspMode::Pinch);
    assert!(m.flags.is_empty());
    assert_eq!(m.closure, Closure::Force);
    assert_eq!(m.stable_directions, StableDirections::omnidirectional());
    // a single set flag: the other three are clear.
    let flags = StabilityFlags { rotation_constrained: true, ..StabilityFlags::default() };
    assert!(!flags.is_empty());
    assert!(StabilityFlags::default().is_empty());
    assert!(is_false(&false));
    assert!(!is_false(&true));
}
