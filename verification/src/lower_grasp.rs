//! Lowering of the grasp primitives: the force-closure grasps (pinch, power,
//! lateral, precision tripod), pin, hook, envelope, platform, adjust and release.

use vstd::prelude::*;
use crate::canonical::{
    no_monitors, ActionView, CanonicalAction, PoseExpr, PoseView, StabilityView, TimingMode,
};
use crate::embodiment::Embodiment;
use crate::grasp_force::GraspMode;
use crate::json::{jstr, jv_entries, obj_push, Derived, JView, JsonValue};
use crate::lowering::{
    axis_zero, base_envelope, clamp_force, clamp_limit, floor_entries, held_weight, spec_axis_zero,
    spec_base_envelope, spec_clamp, spec_clamp_limit, spec_direction_or, spec_floor_entries,
    spec_held_weight, spec_table_view, spec_tactile, spec_timing, tactile_out, timing, with_profile,
    direction_or, weights_view, GraspContext, HeldObject,
};
use crate::quantity::{Quantity, QuantityExpr};
use crate::skill_isa::{
    spec_envelope_grasp_mode, EnvelopeMode, GraspAdjust, GraspEnvelope, GraspHook, GraspLateral,
    GraspPin, GraspPinch, GraspPlatform, GraspPower, GraspPrecisionTripod, GraspRelease,
    TactileTargetArg,
};
use crate::stability::StabilityMetadata;

verus! {

/// The proxy contact criterion a no-tactile embodiment substitutes for a
/// force-closure grasp.
pub open spec fn spec_proxy_criterion(mode: GraspMode) -> Seq<char> {
    match mode {
        GraspMode::Power => "distributed_enclosure_and_force_hold"@,
        GraspMode::Lateral => "clamp_contact_and_force_hold"@,
        GraspMode::PrecisionTripod => "tripod_contact_and_force_hold"@,
        _ => "position_convergence_and_force_hold"@,
    }
}

/// The grip force of a grasp: the budget clamped to `grip_force_max`, raised to
/// the holding floor of the held weight when the weight is known and the budget
/// is a quantity.
pub open spec fn spec_grip_budget(
    budget: Quantity,
    e: Embodiment,
    w: Option<Quantity>,
    mode: GraspMode,
) -> QuantityExpr {
    match w {
        Some(wt) => if crate::quantity::spec_parses(budget@) {
            QuantityExpr::RaisedToHoldingFloor {
                budget,
                limit: spec_clamp_limit(budget, "grip_force_max"@, e),
                weight: wt,
                mode,
            }
        } else {
            spec_clamp(budget, "grip_force_max"@, e)
        },
        None => spec_clamp(budget, "grip_force_max"@, e),
    }
}

/// The holding-floor profile of a grasp on an object of known weight.
pub open spec fn spec_floor_profile(w: Option<Quantity>, mode: GraspMode) -> Option<JView> {
    match w {
        Some(wt) => Some(
            JView::Obj(
                seq![
                    ("min_holding_force"@, JView::Derived(
                        Derived::Quantity(QuantityExpr::HoldingFloor { weight: wt, mode }),
                    )),
                ],
            ),
        ),
        None => None,
    }
}

/// A mode's stability class with the holding floor of a known weight grafted in.
pub open spec fn spec_stability_with_floor(mode: GraspMode, w: Option<Quantity>) -> StabilityView {
    match w {
        Some(wt) => StabilityView {
            min_holding_force: Some(QuantityExpr::HoldingFloor { weight: wt, mode }),
            ..spec_table_view(mode)
        },
        None => spec_table_view(mode),
    }
}

/// A force-closure grasp (`pinch`, `power`, `lateral`, `precision_tripod`).
pub open spec fn spec_force_closure(
    mode: GraspMode,
    target: Seq<char>,
    budget: Quantity,
    tactile: TactileTargetArg,
    e: Embodiment,
    weights: Seq<(Seq<char>, Quantity)>,
) -> ActionView {
    let w = spec_held_weight(weights, target);
    ActionView {
        target_frame: e.spec_grasp_frame(),
        target_pose: PoseView::Ref(target),
        force_budget: Some(spec_grip_budget(budget, e, w, mode)),
        timing: spec_timing(TimingMode::Strict),
        tactile_target: Some(spec_tactile(tactile, e, spec_proxy_criterion(mode))),
        monitors: seq![],
        safety_envelope: with_profile(spec_base_envelope(e), spec_floor_profile(w, mode)),
        grasp_stability: Some(spec_stability_with_floor(mode, w)),
    }
}

/// The grasp context after a gripping grasp: the target becomes the held object
/// when its weight is known; otherwise the context is unchanged.
pub open spec fn spec_grip_ctx(
    mode: GraspMode,
    target: Seq<char>,
    ctx: GraspContext,
    weights: Seq<(Seq<char>, Quantity)>,
) -> GraspContext {
    match spec_held_weight(weights, target) {
        Some(wt) => GraspContext { held: Some(HeldObject { weight: wt, mode }) },
        None => ctx,
    }
}

fn stability_with_floor(mode: GraspMode, w: &Option<Quantity>) -> (r: StabilityMetadata)
    ensures
        r@ == spec_stability_with_floor(mode, *w),
{
    let mut m = StabilityMetadata::for_mode(mode);
    if let Some(wt) = w {
        m.min_holding_force = Some(QuantityExpr::HoldingFloor { weight: wt.copy(), mode });
    }
    m
}

fn floor_profile(w: &Option<Quantity>, mode: GraspMode) -> (r: Option<JsonValue>)
    ensures
        crate::canonical::jv_opt(r) == spec_floor_profile(*w, mode),
{
    match w {
        Some(wt) => {
            let mut o: Vec<(String, JsonValue)> = Vec::new();
            assert(jv_entries(o@) =~= Seq::<(Seq<char>, JView)>::empty());
            obj_push(
                &mut o,
                "min_holding_force",
                JsonValue::Derived(
                    Derived::Quantity(QuantityExpr::HoldingFloor { weight: wt.copy(), mode }),
                ),
            );
            Some(JsonValue::Object(o))
        },
        None => None,
    }
}

fn grip_budget(budget: &Quantity, e: &Embodiment, w: &Option<Quantity>, mode: GraspMode) -> (r:
    QuantityExpr)
    ensures
        r == spec_grip_budget(*budget, *e, *w, mode),
{
    match w {
        Some(wt) => if budget.parses() {
            QuantityExpr::RaisedToHoldingFloor {
                budget: budget.copy(),
                limit: clamp_limit(budget, "grip_force_max", e),
                weight: wt.copy(),
                mode,
            }
        } else {
            clamp_force(budget, "grip_force_max", e)
        },
        None => clamp_force(budget, "grip_force_max", e),
    }
}

fn proxy_criterion(mode: GraspMode) -> (r: &'static str)
    ensures
        r@ == spec_proxy_criterion(mode),
{
    match mode {
        GraspMode::Power => "distributed_enclosure_and_force_hold",
        GraspMode::Lateral => "clamp_contact_and_force_hold",
        GraspMode::PrecisionTripod => "tripod_contact_and_force_hold",
        _ => "position_convergence_and_force_hold",
    }
}

/// Lower a force-closure grasp: clamp the grip to `grip_force_max`, resolve the
/// tactile confirmation tier (proxy without tactile sensing), graft the
/// weight-dependent holding floor, and record the held object.
pub fn force_closure_grasp_action(
    mode: GraspMode,
    target: &str,
    force_budget: &Quantity,
    tactile: &TactileTargetArg,
    e: &Embodiment,
    ctx: &mut GraspContext,
    weights: &Vec<(String, Quantity)>,
) -> (r: CanonicalAction)
    ensures
        r@ == spec_force_closure(mode, target@, *force_budget, *tactile, *e, weights_view(weights@)),
        *final(ctx) == spec_grip_ctx(mode, target@, *old(ctx), weights_view(weights@)),
{
    let w = held_weight(weights, target);
    let mut env = base_envelope(e);
    env.force_profile = floor_profile(&w, mode);
    if let Some(wt) = &w {
        ctx.held = Some(HeldObject { weight: wt.copy(), mode });
    }
    CanonicalAction {
        target_frame: e.grasp_frame().to_owned(),
        target_pose: PoseExpr::Ref { reference: target.to_owned() },
        force_budget: Some(grip_budget(force_budget, e, &w, mode)),
        timing: timing(TimingMode::Strict),
        tactile_target: Some(tactile_out(tactile, e, proxy_criterion(mode))),
        monitors: no_monitors(),
        safety_envelope: env,
        grasp_stability: Some(stability_with_floor(mode, &w)),
    }
}

/// Lower `grasp.pinch`: an antipodal force-closure grasp.
pub fn lower_grasp_pinch(
    p: &GraspPinch,
    e: &Embodiment,
    ctx: &mut GraspContext,
    weights: &Vec<(String, Quantity)>,
) -> (r: CanonicalAction)
    ensures
        r@ == spec_force_closure(GraspMode::Pinch, p.target@, p.force_budget, p.tactile_target, *e, weights_view(weights@)),
        *final(ctx) == spec_grip_ctx(GraspMode::Pinch, p.target@, *old(ctx), weights_view(weights@)),
{
    force_closure_grasp_action(GraspMode::Pinch, p.target.as_str(), &p.force_budget, &p.tactile_target, e, ctx, weights)
}

/// Lower `grasp.power`: a whole-volume force-closure enclosure.
pub fn lower_grasp_power(
    p: &GraspPower,
    e: &Embodiment,
    ctx: &mut GraspContext,
    weights: &Vec<(String, Quantity)>,
) -> (r: CanonicalAction)
    ensures
        r@ == spec_force_closure(GraspMode::Power, p.target@, p.force_budget, p.tactile_target, *e, weights_view(weights@)),
        *final(ctx) == spec_grip_ctx(GraspMode::Power, p.target@, *old(ctx), weights_view(weights@)),
{
    force_closure_grasp_action(GraspMode::Power, p.target.as_str(), &p.force_budget, &p.tactile_target, e, ctx, weights)
}

/// Lower `grasp.lateral`: a key-grip force closure.
pub fn lower_grasp_lateral(
    p: &GraspLateral,
    e: &Embodiment,
    ctx: &mut GraspContext,
    weights: &Vec<(String, Quantity)>,
) -> (r: CanonicalAction)
    ensures
        r@ == spec_force_closure(GraspMode::Lateral, p.target@, p.force_budget, p.tactile_target, *e, weights_view(weights@)),
        *final(ctx) == spec_grip_ctx(GraspMode::Lateral, p.target@, *old(ctx), weights_view(weights@)),
{
    force_closure_grasp_action(GraspMode::Lateral, p.target.as_str(), &p.force_budget, &p.tactile_target, e, ctx, weights)
}

/// Lower `grasp.precision_tripod`: a three-point force closure whose stability
/// class carries the rotation-constrained flag.
pub fn lower_grasp_precision_tripod(
    p: &GraspPrecisionTripod,
    e: &Embodiment,
    ctx: &mut GraspContext,
    weights: &Vec<(String, Quantity)>,
) -> (r: CanonicalAction)
    ensures
        r@ == spec_force_closure(GraspMode::PrecisionTripod, p.target@, p.force_budget, p.tactile_target, *e, weights_view(weights@)),
        *final(ctx) == spec_grip_ctx(GraspMode::PrecisionTripod, p.target@, *old(ctx), weights_view(weights@)),
{
    force_closure_grasp_action(GraspMode::PrecisionTripod, p.target.as_str(), &p.force_budget, &p.tactile_target, e, ctx, weights)
}

/// `grasp.pin`: an extrinsic force closure against `against_surface`.
pub open spec fn spec_lower_grasp_pin(p: GraspPin, e: Embodiment) -> ActionView {
    ActionView {
        target_frame: e.spec_grasp_frame(),
        target_pose: PoseView::Ref(p.target@),
        force_budget: Some(spec_clamp(p.force_budget, "grip_force_max"@, e)),
        timing: spec_timing(TimingMode::Strict),
        tactile_target: Some(
            spec_tactile(p.tactile_target, e, "effector_contact_and_surface_reaction"@),
        ),
        monitors: seq![],
        safety_envelope: with_profile(
            spec_base_envelope(e),
            Some(
                JView::Obj(
                    seq![
                        ("against_surface"@, JView::Str(p.against_surface@)),
                        ("extrinsic"@, JView::Bool(true)),
                    ],
                ),
            ),
        ),
        grasp_stability: Some(spec_table_view(GraspMode::Pin)),
    }
}

/// Lower `grasp.pin`: the grip clamped to `grip_force_max`, the pinning surface
/// and the extrinsic marker in the force profile, the pin stability class.
pub fn lower_grasp_pin(p: &GraspPin, e: &Embodiment) -> (r: CanonicalAction)
    ensures
        r@ == spec_lower_grasp_pin(*p, *e),
{
    let mut env = base_envelope(e);
    let mut o: Vec<(String, JsonValue)> = Vec::new();
    assert(jv_entries(o@) =~= Seq::<(Seq<char>, JView)>::empty());
    obj_push(&mut o, "against_surface", JsonValue::String(p.against_surface.clone()));
    obj_push(&mut o, "extrinsic", JsonValue::Bool(true));
    assert(jv_entries(o@) =~= seq![
        ("against_surface"@, JView::Str(p.against_surface@)),
        ("extrinsic"@, JView::Bool(true)),
    ]);
    env.force_profile = Some(JsonValue::Object(o));
    CanonicalAction {
        target_frame: e.grasp_frame().to_owned(),
        target_pose: PoseExpr::Ref { reference: p.target.clone() },
        force_budget: Some(clamp_force(&p.force_budget, "grip_force_max", e)),
        timing: timing(TimingMode::Strict),
        tactile_target: Some(
            tactile_out(&p.tactile_target, e, "effector_contact_and_surface_reaction"),
        ),
        monitors: no_monitors(),
        safety_envelope: env,
        grasp_stability: Some(StabilityMetadata::for_mode(GraspMode::Pin)),
    }
}

/// `grasp.hook`: directional form closure, the load clamped to `hook_load_capacity`.
pub open spec fn spec_lower_grasp_hook(p: GraspHook, e: Embodiment) -> ActionView {
    ActionView {
        target_frame: e.spec_grasp_frame(),
        target_pose: PoseView::Ref(p.target@),
        force_budget: Some(spec_clamp(p.load_budget, "hook_load_capacity"@, e)),
        timing: spec_timing(TimingMode::Strict),
        tactile_target: Some(spec_tactile(p.tactile_target, e, "hook_inner_curve_seating"@)),
        monitors: seq![],
        safety_envelope: with_profile(
            spec_base_envelope(e),
            Some(
                JView::Obj(
                    seq![
                        ("load_direction"@, spec_direction_or(p.load_direction, "auto"@)),
                        ("form_closure"@, JView::Bool(true)),
                    ],
                ),
            ),
        ),
        grasp_stability: Some(spec_table_view(GraspMode::Hook)),
    }
}

/// Lower `grasp.hook`: the load budget clamped to `hook_load_capacity`, the load
/// direction (default `auto`) and the form-closure marker in the force profile.
pub fn lower_grasp_hook(p: &GraspHook, e: &Embodiment) -> (r: CanonicalAction)
    ensures
        r@ == spec_lower_grasp_hook(*p, *e),
{
    let mut env = base_envelope(e);
    let mut o: Vec<(String, JsonValue)> = Vec::new();
    assert(jv_entries(o@) =~= Seq::<(Seq<char>, JView)>::empty());
    obj_push(&mut o, "load_direction", direction_or(&p.load_direction, "auto"));
    obj_push(&mut o, "form_closure", JsonValue::Bool(true));
    assert(jv_entries(o@) =~= seq![
        ("load_direction"@, spec_direction_or(p.load_direction, "auto"@)),
        ("form_closure"@, JView::Bool(true)),
    ]);
    env.force_profile = Some(JsonValue::Object(o));
    CanonicalAction {
        target_frame: e.grasp_frame().to_owned(),
        target_pose: PoseExpr::Ref { reference: p.target.clone() },
        force_budget: Some(clamp_force(&p.load_budget, "hook_load_capacity", e)),
        timing: timing(TimingMode::Strict),
        tactile_target: Some(tactile_out(&p.tactile_target, e, "hook_inner_curve_seating")),
        monitors: no_monitors(),
        safety_envelope: env,
        grasp_stability: Some(StabilityMetadata::for_mode(GraspMode::Hook)),
    }
}

/// The proxy criterion of an envelope grasp.
pub open spec fn spec_envelope_criterion(m: EnvelopeMode) -> Seq<char> {
    if m == EnvelopeMode::Cage {
        "enclosure_closed_around_object"@
    } else {
        "distributed_gentle_contact"@
    }
}

/// The force profile of an envelope grasp: crush protection, then the cage
/// clearance (cage) or the holding floor of a known weight (conform).
pub open spec fn spec_envelope_profile(p: GraspEnvelope, w: Option<Quantity>) -> Seq<
    (Seq<char>, JView),
> {
    let base = seq![("crush_protection"@, JView::Bool(true))];
    if p.mode == EnvelopeMode::Cage {
        match p.cage_clearance {
            Some(cc) => base.push(("cage_clearance"@, JView::Str(cc@))),
            None => base,
        }
    } else {
        match w {
            Some(wt) => base.push(
                (
                    "min_holding_force"@,
                    JView::Derived(
                        Derived::Quantity(
                            QuantityExpr::HoldingFloor {
                                weight: wt,
                                mode: spec_envelope_grasp_mode(p.mode),
                            },
                        ),
                    ),
                ),
            ),
            None => base,
        }
    }
}

/// `grasp.envelope`: a compliant (conform) or caging (cage) form-closure enclosure.
pub open spec fn spec_lower_grasp_envelope(
    p: GraspEnvelope,
    e: Embodiment,
    weights: Seq<(Seq<char>, Quantity)>,
) -> ActionView {
    let mode = spec_envelope_grasp_mode(p.mode);
    let cage = p.mode == EnvelopeMode::Cage;
    let w = spec_held_weight(weights, p.target@);
    ActionView {
        target_frame: e.spec_grasp_frame(),
        target_pose: PoseView::Ref(p.target@),
        force_budget: Some(
            if cage {
                spec_clamp(p.force_budget, "grip_force_max"@, e)
            } else {
                spec_grip_budget(p.force_budget, e, w, mode)
            },
        ),
        timing: spec_timing(TimingMode::Strict),
        tactile_target: Some(spec_tactile(p.tactile_target, e, spec_envelope_criterion(p.mode))),
        monitors: seq![],
        safety_envelope: with_profile(
            spec_base_envelope(e),
            Some(JView::Obj(spec_envelope_profile(p, w))),
        ),
        grasp_stability: Some(
            if cage {
                StabilityView { residual_mobility: p.cage_clearance, ..spec_table_view(mode) }
            } else {
                spec_stability_with_floor(mode, w)
            },
        ),
    }
}

/// The grasp context after an envelope grasp: a conform grasp grips (the target
/// becomes the held object when its weight is known); a cage traps, leaving the
/// context unchanged.
pub open spec fn spec_envelope_ctx(
    p: GraspEnvelope,
    ctx: GraspContext,
    weights: Seq<(Seq<char>, Quantity)>,
) -> GraspContext {
    if p.mode == EnvelopeMode::Cage {
        ctx
    } else {
        spec_grip_ctx(spec_envelope_grasp_mode(p.mode), p.target@, ctx, weights)
    }
}

/// Lower `grasp.envelope`. `conform` is a gentle friction grip that keeps the
/// holding floor and records the held object; `cage` traps the object (no grip
/// floor) and records its residual mobility from `cage_clearance`.
pub fn lower_grasp_envelope(
    p: &GraspEnvelope,
    e: &Embodiment,
    ctx: &mut GraspContext,
    weights: &Vec<(String, Quantity)>,
) -> (r: CanonicalAction)
    ensures
        r@ == spec_lower_grasp_envelope(*p, *e, weights_view(weights@)),
        *final(ctx) == spec_envelope_ctx(*p, *old(ctx), weights_view(weights@)),
{
    let mode = p.grasp_mode();
    let cage = p.is_cage();
    let criterion = if cage {
        "enclosure_closed_around_object"
    } else {
        "distributed_gentle_contact"
    };
    let w = held_weight(weights, p.target.as_str());
    let mut env = base_envelope(e);
    let mut stability = StabilityMetadata::for_mode(mode);
    let mut fp: Vec<(String, JsonValue)> = Vec::new();
    assert(jv_entries(fp@) =~= Seq::<(Seq<char>, JView)>::empty());
    obj_push(&mut fp, "crush_protection", JsonValue::Bool(true));
    let force_budget;
    if cage {
        if let Some(cc) = &p.cage_clearance {
            stability.residual_mobility = Some(cc.copy());
            obj_push(&mut fp, "cage_clearance", JsonValue::String(cc.0.clone()));
        }
        force_budget = clamp_force(&p.force_budget, "grip_force_max", e);
    } else {
        if let Some(wt) = &w {
            stability.min_holding_force = Some(QuantityExpr::HoldingFloor { weight: wt.copy(), mode });
            obj_push(
                &mut fp,
                "min_holding_force",
                JsonValue::Derived(
                    Derived::Quantity(QuantityExpr::HoldingFloor { weight: wt.copy(), mode }),
                ),
            );
            ctx.held = Some(HeldObject { weight: wt.copy(), mode });
        }
        force_budget = grip_budget(&p.force_budget, e, &w, mode);
    }
    env.force_profile = Some(JsonValue::Object(fp));
    CanonicalAction {
        target_frame: e.grasp_frame().to_owned(),
        target_pose: PoseExpr::Ref { reference: p.target.clone() },
        force_budget: Some(force_budget),
        timing: timing(TimingMode::Strict),
        tactile_target: Some(tactile_out(&p.tactile_target, e, criterion)),
        monitors: no_monitors(),
        safety_envelope: env,
        grasp_stability: Some(stability),
    }
}

/// `grasp.platform`: support closure with the controlled-lowering safe state.
pub open spec fn spec_lower_grasp_platform(p: GraspPlatform, e: Embodiment) -> ActionView {
    ActionView {
        target_frame: e.spec_grasp_frame(),
        target_pose: PoseView::Ref(p.target@),
        force_budget: None,
        timing: spec_timing(TimingMode::Strict),
        tactile_target: Some(spec_tactile(p.tactile_target, e, "borne_load_confirmation"@)),
        monitors: seq![],
        safety_envelope: with_profile(
            spec_base_envelope(e),
            Some(
                JView::Obj(
                    seq![
                        ("load_budget"@, JView::Derived(
                            Derived::Quantity(spec_clamp(p.load_budget, "payload_support"@, e)),
                        )),
                        ("safe_state"@, JView::Str("controlled_lowering"@)),
                    ],
                ),
            ),
        ),
        grasp_stability: Some(spec_table_view(GraspMode::Platform)),
    }
}

/// Lower `grasp.platform`: the load budget clamped to `payload_support` and the
/// `controlled_lowering` safe state in the force profile; no grip budget.
pub fn lower_grasp_platform(p: &GraspPlatform, e: &Embodiment) -> (r: CanonicalAction)
    ensures
        r@ == spec_lower_grasp_platform(*p, *e),
{
    let mut env = base_envelope(e);
    let mut o: Vec<(String, JsonValue)> = Vec::new();
    assert(jv_entries(o@) =~= Seq::<(Seq<char>, JView)>::empty());
    obj_push(
        &mut o,
        "load_budget",
        JsonValue::Derived(Derived::Quantity(clamp_force(&p.load_budget, "payload_support", e))),
    );
    obj_push(&mut o, "safe_state", jstr("controlled_lowering"));
    assert(jv_entries(o@) =~= seq![
        ("load_budget"@, JView::Derived(
            Derived::Quantity(spec_clamp(p.load_budget, "payload_support"@, *e)),
        )),
        ("safe_state"@, JView::Str("controlled_lowering"@)),
    ]);
    env.force_profile = Some(JsonValue::Object(o));
    CanonicalAction {
        target_frame: e.grasp_frame().to_owned(),
        target_pose: PoseExpr::Ref { reference: p.target.clone() },
        force_budget: None,
        timing: timing(TimingMode::Strict),
        tactile_target: Some(tactile_out(&p.tactile_target, e, "borne_load_confirmation")),
        monitors: no_monitors(),
        safety_envelope: env,
        grasp_stability: Some(StabilityMetadata::for_mode(GraspMode::Platform)),
    }
}

/// The reason text of an adjustment (default `manual`).
pub open spec fn spec_reason(r: Option<String>) -> Seq<char> {
    match r {
        Some(s) => s@,
        None => "manual"@,
    }
}

/// `grasp.adjust`: modify the active grasp in place.
pub open spec fn spec_lower_grasp_adjust(p: GraspAdjust, e: Embodiment, ctx: GraspContext) -> ActionView {
    ActionView {
        target_frame: e.spec_grasp_frame(),
        target_pose: PoseView::Ref("held"@),
        force_budget: match p.new_force_budget {
            Some(q) => Some(spec_clamp(q, "grip_force_max"@, e)),
            None => None,
        },
        timing: spec_timing(TimingMode::Strict),
        tactile_target: None,
        monitors: seq![],
        safety_envelope: with_profile(
            spec_base_envelope(e),
            Some(
                JView::Obj(
                    spec_floor_entries(ctx).push(("adjustment"@, JView::Str(spec_reason(p.reason)))),
                ),
            ),
        ),
        grasp_stability: None,
    }
}

/// Lower `grasp.adjust`: the continuity floor of the held object, the adjustment
/// reason, and the new grip force clamped to `grip_force_max`; the grasp's
/// identity (and stability class) is unchanged.
pub fn lower_grasp_adjust(p: &GraspAdjust, e: &Embodiment, ctx: &GraspContext) -> (r:
    CanonicalAction)
    ensures
        r@ == spec_lower_grasp_adjust(*p, *e, *ctx),
{
    let mut o = floor_entries(ctx);
    let reason = match &p.reason {
        Some(s) => s.clone(),
        None => "manual".to_owned(),
    };
    obj_push(&mut o, "adjustment", JsonValue::String(reason));
    let force_budget = match &p.new_force_budget {
        Some(q) => Some(clamp_force(q, "grip_force_max", e)),
        None => None,
    };
    let mut env = base_envelope(e);
    env.force_profile = Some(JsonValue::Object(o));
    CanonicalAction {
        target_frame: e.grasp_frame().to_owned(),
        target_pose: PoseExpr::Ref { reference: "held".to_owned() },
        force_budget,
        timing: timing(TimingMode::Strict),
        tactile_target: None,
        monitors: no_monitors(),
        safety_envelope: env,
        grasp_stability: None,
    }
}

/// `grasp.release`: a zero-distance withdraw along `-tool_axis`.
pub open spec fn spec_lower_grasp_release(e: Embodiment) -> ActionView {
    ActionView {
        target_frame: e.spec_grasp_frame(),
        target_pose: spec_axis_zero(JView::Str("-tool_axis"@)),
        force_budget: None,
        timing: spec_timing(TimingMode::Strict),
        tactile_target: None,
        monitors: seq![],
        safety_envelope: spec_base_envelope(e),
        grasp_stability: None,
    }
}

/// Lower `grasp.release`: clear the held object and withdraw along `-tool_axis`.
pub fn lower_grasp_release(_p: &GraspRelease, e: &Embodiment, ctx: &mut GraspContext) -> (r: CanonicalAction)
    ensures
        r@ == spec_lower_grasp_release(*e),
        final(ctx).held is None,
{
    ctx.held = None;
    CanonicalAction {
        target_frame: e.grasp_frame().to_owned(),
        target_pose: axis_zero(jstr("-tool_axis")),
        force_budget: None,
        timing: timing(TimingMode::Strict),
        tactile_target: None,
        monitors: no_monitors(),
        safety_envelope: base_envelope(e),
        grasp_stability: None,
    }
}

} // verus!
