//! Lowering of the in-hand primitives (flip, regrasp, pivot, rotate, translate,
//! roll, slide), the handoff, and the placements (put down, stack, insert
//! loose, orient, hand to, discard).

use vstd::prelude::*;
use crate::canonical::{
    no_monitors, one_monitor, monitors_view, ActionView, CanonicalAction, Monitor, PoseExpr,
    PoseView, TimingMode,
};
use crate::embodiment::Embodiment;
use crate::json::{jstr, jv, jv_entries, obj_push, yaml_json, yv, JView, JsonValue, YamlValue};
use crate::lowering::{
    axis_zero, base_envelope, floor_entries, spec_axis_zero, spec_base_envelope, spec_floor_entries,
    spec_table_view, spec_timing, timing, with_profile, GraspContext,
};
use crate::quantity::Quantity;
use crate::skill_isa::{
    spec_named_mode, spec_receiver_mode, InHandFlip, InHandPivot, InHandRegrasp, InHandRoll,
    InHandRotate, InHandSlide, InHandTranslate, PlaceDiscard, PlaceHandTo, PlaceInsertLoose,
    PlaceOrient, PlaceStack, TransportHandoff,
};
use crate::stability::StabilityMetadata;

verus! {

/// `in_hand.flip`: the bounded unsecured window (its upper bound and the safe
/// landing zone) in the force profile; no continuity floor.
pub open spec fn spec_lower_in_hand_flip(p: InHandFlip, e: Embodiment) -> ActionView {
    ActionView {
        target_frame: e.spec_grasp_frame(),
        target_pose: spec_axis_zero(JView::Yaml(yv(p.flip_axis))),
        force_budget: None,
        timing: spec_timing(TimingMode::Strict),
        tactile_target: None,
        monitors: seq![],
        safety_envelope: with_profile(
            spec_base_envelope(e),
            Some(
                JView::Obj(
                    seq![
                        ("max_release_time"@, JView::Str(p.max_release_time@)),
                        ("safe_drop_zone"@, JView::Yaml(yv(p.safe_drop_zone))),
                    ],
                ),
            ),
        ),
        grasp_stability: None,
    }
}

/// Lower `in_hand.flip`, the only continuity-suspending primitive.
pub fn lower_in_hand_flip(p: &InHandFlip, e: &Embodiment) -> (r: CanonicalAction)
    ensures
        r@ == spec_lower_in_hand_flip(*p, *e),
{
    let mut env = base_envelope(e);
    let mut o: Vec<(String, JsonValue)> = Vec::new();
    assert(jv_entries(o@) =~= Seq::<(Seq<char>, JView)>::empty());
    obj_push(&mut o, "max_release_time", JsonValue::String(p.max_release_time.0.clone()));
    obj_push(&mut o, "safe_drop_zone", yaml_json(&p.safe_drop_zone));
    assert(jv_entries(o@) =~= seq![
        ("max_release_time"@, JView::Str(p.max_release_time@)),
        ("safe_drop_zone"@, JView::Yaml(yv(p.safe_drop_zone))),
    ]);
    env.force_profile = Some(JsonValue::Object(o));
    CanonicalAction {
        target_frame: e.grasp_frame().to_owned(),
        target_pose: axis_zero(yaml_json(&p.flip_axis)),
        force_budget: None,
        timing: timing(TimingMode::Strict),
        tactile_target: None,
        monitors: no_monitors(),
        safety_envelope: env,
        grasp_stability: None,
    }
}

/// An action on the held object (pose `held`) with the given force profile.
pub open spec fn spec_held_action(entries: Seq<(Seq<char>, JView)>, e: Embodiment) -> ActionView {
    ActionView {
        target_frame: e.spec_grasp_frame(),
        target_pose: PoseView::Ref("held"@),
        force_budget: None,
        timing: spec_timing(TimingMode::Strict),
        tactile_target: None,
        monitors: seq![],
        safety_envelope: with_profile(spec_base_envelope(e), Some(JView::Obj(entries))),
        grasp_stability: None,
    }
}

fn held_action(o: Vec<(String, JsonValue)>, e: &Embodiment) -> (r: CanonicalAction)
    ensures
        r@ == spec_held_action(jv_entries(o@), *e),
{
    let mut env = base_envelope(e);
    env.force_profile = Some(JsonValue::Object(o));
    CanonicalAction {
        target_frame: e.grasp_frame().to_owned(),
        target_pose: PoseExpr::Ref { reference: "held".to_owned() },
        force_budget: None,
        timing: timing(TimingMode::Strict),
        tactile_target: None,
        monitors: no_monitors(),
        safety_envelope: env,
        grasp_stability: None,
    }
}

/// `in_hand.regrasp`: make-before-break to the target mode; the new grasp's
/// stability class is emitted.
pub open spec fn spec_lower_in_hand_regrasp(p: InHandRegrasp, e: Embodiment, ctx: GraspContext) -> ActionView {
    ActionView {
        grasp_stability: Some(spec_table_view(spec_named_mode(p.target_mode@))),
        ..spec_held_action(
            spec_floor_entries(ctx).push(("transition"@, JView::Str("make_before_break"@))),
            e,
        )
    }
}

/// Lower `in_hand.regrasp`: the continuity floor of the held object, the
/// make-before-break marker, and the stability class of the target mode.
pub fn lower_in_hand_regrasp(p: &InHandRegrasp, e: &Embodiment, ctx: &GraspContext) -> (r:
    CanonicalAction)
    ensures
        r@ == spec_lower_in_hand_regrasp(*p, *e, *ctx),
{
    let mut o = floor_entries(ctx);
    obj_push(&mut o, "transition", jstr("make_before_break"));
    let mut r = held_action(o, e);
    r.grasp_stability = Some(StabilityMetadata::for_mode(p.target_grasp_mode()));
    r
}

/// `in_hand.pivot`: controlled under-actuation releasing the pivot axis.
pub open spec fn spec_lower_in_hand_pivot(p: InHandPivot, e: Embodiment, ctx: GraspContext) -> ActionView {
    ActionView {
        target_frame: e.spec_grasp_frame(),
        target_pose: spec_axis_zero(JView::Yaml(yv(p.pivot_axis))),
        force_budget: None,
        timing: spec_timing(TimingMode::Strict),
        tactile_target: None,
        monitors: seq![],
        safety_envelope: with_profile(
            spec_base_envelope(e),
            Some(
                JView::Obj(
                    spec_floor_entries(ctx).push(("released_dof"@, JView::Yaml(yv(p.pivot_axis)))).push(
                        ("transition"@, JView::Str("controlled_under_actuation"@)),
                    ),
                ),
            ),
        ),
        grasp_stability: None,
    }
}

/// Lower `in_hand.pivot`: the continuity floor, the released DOF and the
/// controlled-under-actuation marker; the grasp's identity is preserved.
pub fn lower_in_hand_pivot(p: &InHandPivot, e: &Embodiment, ctx: &GraspContext) -> (r:
    CanonicalAction)
    ensures
        r@ == spec_lower_in_hand_pivot(*p, *e, *ctx),
{
    let mut o = floor_entries(ctx);
    obj_push(&mut o, "released_dof", yaml_json(&p.pivot_axis));
    obj_push(&mut o, "transition", jstr("controlled_under_actuation"));
    let mut env = base_envelope(e);
    env.force_profile = Some(JsonValue::Object(o));
    CanonicalAction {
        target_frame: e.grasp_frame().to_owned(),
        target_pose: axis_zero(yaml_json(&p.pivot_axis)),
        force_budget: None,
        timing: timing(TimingMode::Strict),
        tactile_target: None,
        monitors: no_monitors(),
        safety_envelope: env,
        grasp_stability: None,
    }
}

/// A continuity-preserving in-hand manipulation of kind `kind` along `axis`.
pub open spec fn spec_in_hand_manip(
    axis: YamlValue,
    distance: Seq<char>,
    kind: Seq<char>,
    monitors: Seq<JView>,
    e: Embodiment,
    ctx: GraspContext,
) -> ActionView {
    ActionView {
        target_frame: e.spec_grasp_frame(),
        target_pose: PoseView::AxisRelative(JView::Yaml(yv(axis)), distance),
        force_budget: None,
        timing: spec_timing(TimingMode::Strict),
        tactile_target: None,
        monitors,
        safety_envelope: with_profile(
            spec_base_envelope(e),
            Some(JView::Obj(spec_floor_entries(ctx).push(("manipulation"@, JView::Str(kind))))),
        ),
        grasp_stability: None,
    }
}

fn in_hand_manip(
    axis: &YamlValue,
    distance: Quantity,
    kind: &str,
    monitors: Vec<Monitor>,
    e: &Embodiment,
    ctx: &GraspContext,
) -> (r: CanonicalAction)
    ensures
        r@ == spec_in_hand_manip(*axis, distance@, kind@, monitors_view(monitors@), *e, *ctx),
{
    let mut o = floor_entries(ctx);
    obj_push(&mut o, "manipulation", jstr(kind));
    let mut env = base_envelope(e);
    env.force_profile = Some(JsonValue::Object(o));
    CanonicalAction {
        target_frame: e.grasp_frame().to_owned(),
        target_pose: PoseExpr::AxisRelative { direction: yaml_json(axis), distance },
        force_budget: None,
        timing: timing(TimingMode::Strict),
        tactile_target: None,
        monitors,
        safety_envelope: env,
        grasp_stability: None,
    }
}

/// `in_hand.rotate`: reorient in place.
pub open spec fn spec_lower_in_hand_rotate(p: InHandRotate, e: Embodiment, ctx: GraspContext) -> ActionView {
    spec_in_hand_manip(p.axis, "0 mm"@, "rotate"@, seq![], e, ctx)
}

/// Lower `in_hand.rotate`.
pub fn lower_in_hand_rotate(p: &InHandRotate, e: &Embodiment, ctx: &GraspContext) -> (r:
    CanonicalAction)
    ensures
        r@ == spec_lower_in_hand_rotate(*p, *e, *ctx),
{
    in_hand_manip(&p.axis, Quantity("0 mm".to_owned()), "rotate", no_monitors(), e, ctx)
}

/// `in_hand.translate`: shift within the grasp by `distance`.
pub open spec fn spec_lower_in_hand_translate(p: InHandTranslate, e: Embodiment, ctx: GraspContext) -> ActionView {
    spec_in_hand_manip(p.direction, p.distance@, "translate"@, seq![], e, ctx)
}

/// Lower `in_hand.translate`.
pub fn lower_in_hand_translate(p: &InHandTranslate, e: &Embodiment, ctx: &GraspContext) -> (r:
    CanonicalAction)
    ensures
        r@ == spec_lower_in_hand_translate(*p, *e, *ctx),
{
    in_hand_manip(&p.direction, p.distance.copy(), "translate", no_monitors(), e, ctx)
}

/// `in_hand.roll`: rolling reorientation in place.
pub open spec fn spec_lower_in_hand_roll(p: InHandRoll, e: Embodiment, ctx: GraspContext) -> ActionView {
    spec_in_hand_manip(p.roll_axis, "0 mm"@, "roll"@, seq![], e, ctx)
}

/// Lower `in_hand.roll`.
pub fn lower_in_hand_roll(p: &InHandRoll, e: &Embodiment, ctx: &GraspContext) -> (r: CanonicalAction)
    ensures
        r@ == spec_lower_in_hand_roll(*p, *e, *ctx),
{
    in_hand_manip(&p.roll_axis, Quantity("0 mm".to_owned()), "roll", no_monitors(), e, ctx)
}

/// `in_hand.slide`: controlled slip until the stop condition.
pub open spec fn spec_lower_in_hand_slide(p: InHandSlide, e: Embodiment, ctx: GraspContext) -> ActionView {
    spec_in_hand_manip(
        p.slide_direction,
        "0 mm"@,
        "slide"@,
        seq![JView::Yaml(yv(p.stop_condition))],
        e,
        ctx,
    )
}

/// Lower `in_hand.slide`: the stop condition becomes a monitor.
pub fn lower_in_hand_slide(p: &InHandSlide, e: &Embodiment, ctx: &GraspContext) -> (r:
    CanonicalAction)
    ensures
        r@ == spec_lower_in_hand_slide(*p, *e, *ctx),
{
    in_hand_manip(
        &p.slide_direction,
        Quantity("0 mm".to_owned()),
        "slide",
        one_monitor(yaml_json(&p.stop_condition)),
        e,
        ctx,
    )
}

/// The force profile of a handoff: the continuity floor, the co-grasp force
/// ceiling (when declared), the two-party marker and the receiver.
pub open spec fn spec_handoff_entries(p: TransportHandoff, ctx: GraspContext) -> Seq<
    (Seq<char>, JView),
> {
    let a = match p.cograsp_force_budget {
        Some(b) => spec_floor_entries(ctx).push(("cograsp_force_budget"@, JView::Str(b@))),
        None => spec_floor_entries(ctx),
    };
    a.push(("transition"@, JView::Str("two_party_handoff"@))).push(
        ("receiver"@, JView::Str(p.receiver@)),
    )
}

/// `transport.handoff`: two-party make-before-break to the receiver's grasp.
pub open spec fn spec_lower_transport_handoff(p: TransportHandoff, e: Embodiment, ctx: GraspContext) -> ActionView {
    ActionView {
        grasp_stability: Some(spec_table_view(spec_receiver_mode(p.receiver_mode))),
        ..spec_held_action(spec_handoff_entries(p, ctx), e)
    }
}

/// Lower `transport.handoff`: the per-party continuity floor, the co-grasp
/// ceiling, the two-party marker, the receiver, and the receiver's stability class.
pub fn lower_transport_handoff(p: &TransportHandoff, e: &Embodiment, ctx: &GraspContext) -> (r:
    CanonicalAction)
    ensures
        r@ == spec_lower_transport_handoff(*p, *e, *ctx),
{
    let mut o = floor_entries(ctx);
    if let Some(b) = &p.cograsp_force_budget {
        obj_push(&mut o, "cograsp_force_budget", JsonValue::String(b.0.clone()));
    }
    obj_push(&mut o, "transition", jstr("two_party_handoff"));
    obj_push(&mut o, "receiver", JsonValue::String(p.receiver.clone()));
    let mut r = held_action(o, e);
    r.grasp_stability = Some(StabilityMetadata::for_mode(p.receiver_grasp_mode()));
    r
}

/// The common force profile of a placement: the continuity floor, the
/// placement kind and the controlled-release marker.
pub open spec fn spec_place_entries(kind: Seq<char>, ctx: GraspContext) -> Seq<(Seq<char>, JView)> {
    spec_floor_entries(ctx).push(("placement"@, JView::Str(kind))).push(
        ("break_contact"@, JView::Bool(true)),
    )
}

/// A placement at `target` with the given force profile.
pub open spec fn spec_place_action(target: Seq<char>, entries: Seq<(Seq<char>, JView)>, e: Embodiment) -> ActionView {
    ActionView {
        target_frame: e.spec_grasp_frame(),
        target_pose: PoseView::Ref(target),
        force_budget: None,
        timing: spec_timing(TimingMode::Strict),
        tactile_target: None,
        monitors: seq![],
        safety_envelope: with_profile(spec_base_envelope(e), Some(JView::Obj(entries))),
        grasp_stability: None,
    }
}

fn place_entries(kind: &str, ctx: &GraspContext) -> (r: Vec<(String, JsonValue)>)
    ensures
        jv_entries(r@) == spec_place_entries(kind@, *ctx),
{
    let mut o = floor_entries(ctx);
    obj_push(&mut o, "placement", jstr(kind));
    obj_push(&mut o, "break_contact", JsonValue::Bool(true));
    o
}

/// Lower a placement: the object is held through the placement, then released
/// under control, which ends the held state.
fn place_action(target: &str, o: Vec<(String, JsonValue)>, e: &Embodiment, ctx: &mut GraspContext) -> (r:
    CanonicalAction)
    ensures
        r@ == spec_place_action(target@, jv_entries(o@), *e),
        final(ctx).held is None,
{
    let mut env = base_envelope(e);
    env.force_profile = Some(JsonValue::Object(o));
    ctx.held = None;
    CanonicalAction {
        target_frame: e.grasp_frame().to_owned(),
        target_pose: PoseExpr::Ref { reference: target.to_owned() },
        force_budget: None,
        timing: timing(TimingMode::Strict),
        tactile_target: None,
        monitors: no_monitors(),
        safety_envelope: env,
        grasp_stability: None,
    }
}

/// `place.put_down`.
pub open spec fn spec_lower_place_put_down(e: Embodiment, ctx: GraspContext) -> ActionView {
    spec_place_action("target_surface"@, spec_place_entries("put_down"@, ctx), e)
}

/// Lower `place.put_down`.
pub fn lower_place_put_down(e: &Embodiment, ctx: &mut GraspContext) -> (r: CanonicalAction)
    ensures
        r@ == spec_lower_place_put_down(*e, *old(ctx)),
        final(ctx).held is None,
{
    let o = place_entries("put_down", ctx);
    place_action("target_surface", o, e, ctx)
}

/// `place.stack`: on top of `support_object`, with the alignment marker.
pub open spec fn spec_lower_place_stack(p: PlaceStack, e: Embodiment, ctx: GraspContext) -> ActionView {
    spec_place_action(
        p.support_object@,
        match p.alignment {
            Some(a) => spec_place_entries("stack"@, ctx).push(("alignment"@, JView::Str(a@))),
            None => spec_place_entries("stack"@, ctx),
        },
        e,
    )
}

/// Lower `place.stack`.
pub fn lower_place_stack(p: &PlaceStack, e: &Embodiment, ctx: &mut GraspContext) -> (r:
    CanonicalAction)
    ensures
        r@ == spec_lower_place_stack(*p, *e, *old(ctx)),
        final(ctx).held is None,
{
    let mut o = place_entries("stack", ctx);
    if let Some(a) = &p.alignment {
        obj_push(&mut o, "alignment", JsonValue::String(a.clone()));
    }
    place_action(p.support_object.as_str(), o, e, ctx)
}

/// `place.insert_loose`: into `container`.
pub open spec fn spec_lower_place_insert_loose(p: PlaceInsertLoose, e: Embodiment, ctx: GraspContext) -> ActionView {
    spec_place_action(p.container@, spec_place_entries("insert_loose"@, ctx), e)
}

/// Lower `place.insert_loose`.
pub fn lower_place_insert_loose(p: &PlaceInsertLoose, e: &Embodiment, ctx: &mut GraspContext) -> (r:
    CanonicalAction)
    ensures
        r@ == spec_lower_place_insert_loose(*p, *e, *old(ctx)),
        final(ctx).held is None,
{
    let o = place_entries("insert_loose", ctx);
    place_action(p.container.as_str(), o, e, ctx)
}

/// `place.orient`: with the required orientation.
pub open spec fn spec_lower_place_orient(p: PlaceOrient, e: Embodiment, ctx: GraspContext) -> ActionView {
    spec_place_action(
        "target_surface"@,
        spec_place_entries("orient"@, ctx).push(
            ("required_orientation"@, JView::Yaml(yv(p.required_orientation))),
        ),
        e,
    )
}

/// Lower `place.orient`.
pub fn lower_place_orient(p: &PlaceOrient, e: &Embodiment, ctx: &mut GraspContext) -> (r:
    CanonicalAction)
    ensures
        r@ == spec_lower_place_orient(*p, *e, *old(ctx)),
        final(ctx).held is None,
{
    let mut o = place_entries("orient", ctx);
    obj_push(&mut o, "required_orientation", yaml_json(&p.required_orientation));
    place_action("target_surface", o, e, ctx)
}

/// `place.hand_to`: with the weight-transfer threshold and the interaction-force
/// cap, each when given.
pub open spec fn spec_lower_place_hand_to(p: PlaceHandTo, e: Embodiment, ctx: GraspContext) -> ActionView {
    let a = match p.weight_transfer_threshold {
        Some(w) => spec_place_entries("hand_to"@, ctx).push(
            ("weight_transfer_threshold"@, JView::Yaml(yv(w))),
        ),
        None => spec_place_entries("hand_to"@, ctx),
    };
    let b = match p.max_interaction_force {
        Some(f) => a.push(("max_interaction_force"@, JView::Str(f@))),
        None => a,
    };
    spec_place_action("handover"@, b, e)
}

/// Lower `place.hand_to`.
pub fn lower_place_hand_to(p: &PlaceHandTo, e: &Embodiment, ctx: &mut GraspContext) -> (r:
    CanonicalAction)
    ensures
        r@ == spec_lower_place_hand_to(*p, *e, *old(ctx)),
        final(ctx).held is None,
{
    let mut o = place_entries("hand_to", ctx);
    if let Some(w) = &p.weight_transfer_threshold {
        obj_push(&mut o, "weight_transfer_threshold", yaml_json(w));
    }
    if let Some(f) = &p.max_interaction_force {
        obj_push(&mut o, "max_interaction_force", JsonValue::String(f.0.clone()));
    }
    place_action("handover", o, e, ctx)
}

/// `place.discard`: into the discard zone, with the drop-height cap when given.
pub open spec fn spec_lower_place_discard(p: PlaceDiscard, e: Embodiment, ctx: GraspContext) -> ActionView {
    let a = spec_place_entries("discard"@, ctx).push(
        ("discard_zone"@, JView::Yaml(yv(p.discard_zone))),
    );
    spec_place_action(
        "discard_zone"@,
        match p.max_drop_height {
            Some(h) => a.push(("max_drop_height"@, JView::Str(h@))),
            None => a,
        },
        e,
    )
}

/// Lower `place.discard`.
pub fn lower_place_discard(p: &PlaceDiscard, e: &Embodiment, ctx: &mut GraspContext) -> (r:
    CanonicalAction)
    ensures
        r@ == spec_lower_place_discard(*p, *e, *old(ctx)),
        final(ctx).held is None,
{
    let mut o = place_entries("discard", ctx);
    obj_push(&mut o, "discard_zone", yaml_json(&p.discard_zone));
    if let Some(h) = &p.max_drop_height {
        obj_push(&mut o, "max_drop_height", JsonValue::String(h.0.clone()));
    }
    place_action("discard_zone", o, e, ctx)
}

} // verus!
