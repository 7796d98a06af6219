//! Retargeting: resolve a skill onto an embodiment as a sequence of canonical
//! actions. Each statement's primitive passes the capability gate, then lowers
//! to one action; the grasp context (the held object and its mode) is threaded
//! through the sequence so that later transports and force primitives derive
//! their mass-dependent bounds. Deterministic for identical inputs.

use vstd::prelude::*;
use crate::canonical::{ActionView, CanonicalAction};
use crate::composition::stmt_prim;
use crate::embodiment::{flag, keyed_get, keyed_index, names_with_prefix, Embodiment};
use crate::error::Error;
use crate::grasp_force::GraspMode;
use crate::lower_contact::{
    lower_force_cut, lower_force_insert_fit, lower_force_press_button, lower_force_pull,
    lower_force_push, lower_force_screw, lower_force_scrub, lower_force_snap_engage,
    lower_force_unscrew, lower_force_wipe, spec_lower_force_cut, spec_lower_force_insert_fit,
    spec_lower_force_press_button, spec_lower_force_pull, spec_lower_force_push,
    spec_lower_force_screw, spec_lower_force_scrub, spec_lower_force_snap_engage,
    spec_lower_force_unscrew, spec_lower_force_wipe,
};
use crate::lower_grasp::{
    lower_grasp_adjust, lower_grasp_lateral, lower_grasp_pinch, lower_grasp_power,
    lower_grasp_precision_tripod, lower_grasp_envelope, lower_grasp_hook,
    lower_grasp_pin, lower_grasp_platform, lower_grasp_release, spec_envelope_ctx,
    spec_force_closure, spec_grip_ctx, spec_lower_grasp_adjust, spec_lower_grasp_envelope,
    spec_lower_grasp_hook, spec_lower_grasp_pin, spec_lower_grasp_platform,
    spec_lower_grasp_release,
};
use crate::lower_hand::{
    lower_in_hand_flip, lower_in_hand_pivot, lower_in_hand_regrasp, lower_in_hand_roll,
    lower_in_hand_rotate, lower_in_hand_slide, lower_in_hand_translate, lower_place_discard,
    lower_place_hand_to, lower_place_insert_loose, lower_place_orient, lower_place_put_down,
    lower_place_stack, lower_transport_handoff, spec_lower_in_hand_flip, spec_lower_in_hand_pivot,
    spec_lower_in_hand_regrasp, spec_lower_in_hand_roll, spec_lower_in_hand_rotate,
    spec_lower_in_hand_slide, spec_lower_in_hand_translate, spec_lower_place_discard,
    spec_lower_place_hand_to, spec_lower_place_insert_loose, spec_lower_place_orient,
    spec_lower_place_put_down, spec_lower_place_stack, spec_lower_transport_handoff,
};
use crate::lower_motion::{
    lower_reach_align, lower_reach_approach, lower_reach_hover, lower_reach_retract,
    lower_reach_scan, lower_reach_to_pose, lower_transport_carry, lower_transport_follow_trajectory,
    lower_transport_lift, lower_transport_lower, lower_transport_move_to_pose,
    spec_lower_reach_align, spec_lower_reach_approach, spec_lower_reach_hover,
    spec_lower_reach_retract, spec_lower_reach_scan, spec_lower_reach_to_pose,
    spec_lower_transport_carry, spec_lower_transport_follow_trajectory, spec_lower_transport_lift,
    spec_lower_transport_lower, spec_lower_transport_move_to_pose,
};
use crate::lower_sense::{
    lower_sense_inspect, lower_sense_locate, lower_sense_probe, lower_sense_verify,
    lower_sense_weigh, spec_lower_sense_inspect, spec_lower_sense_locate, spec_lower_sense_probe,
    spec_lower_sense_verify, spec_lower_sense_weigh,
};
use crate::lowering::{weights_view, GraspContext};
use crate::quantity::Quantity;
use crate::skill_isa::{spec_envelope_grasp_mode, spec_isa_name, EnvelopeMode, Primitive, Skill, Statement};
use crate::text::join;

verus! {

/// The retargeting result: the canonical actions in skill order, and each
/// action's primitive suffix (for its action id).
#[derive(Debug)]
pub struct RetargetOutput {
    /// The emitted canonical actions, in skill order.
    pub actions: Vec<CanonicalAction>,
    /// The primitive suffix for each action.
    pub suffixes: Vec<&'static str>,
}

/// The capability key a primitive is gated by, for the primitives with a single
/// key; `reach.*`, release / adjust and the conjunctive gates have none.
pub open spec fn spec_gate_key(p: Primitive) -> Option<Seq<char>> {
    match p {
        Primitive::SenseLocate(_) => Some("sense.locate"@),
        Primitive::GraspPinch(_) => Some("grasp.pinch"@),
        Primitive::GraspPower(_) => Some("grasp.power"@),
        Primitive::GraspLateral(_) => Some("grasp.lateral"@),
        Primitive::GraspPrecisionTripod(_) => Some("grasp.precision_tripod"@),
        Primitive::GraspHook(_) => Some("grasp.hook"@),
        Primitive::GraspEnvelope(_) => Some("grasp.envelope"@),
        Primitive::TransportMoveToPose(_) => Some("transport"@),
        Primitive::TransportLift(_) => Some("transport.lift"@),
        Primitive::TransportLower(_) => Some("transport.lower"@),
        Primitive::TransportFollowTrajectory(_) => Some("transport.follow_trajectory"@),
        Primitive::PlacePutDown(_) => Some("place.put_down"@),
        Primitive::PlaceStack(_) => Some("place.stack"@),
        Primitive::PlaceInsertLoose(_) => Some("place.insert_loose"@),
        Primitive::PlaceOrient(_) => Some("place.orient"@),
        Primitive::PlaceDiscard(_) => Some("place.discard"@),
        Primitive::ForceInsertFit(_) => Some("force.insert_fit"@),
        Primitive::ForcePush(_) => Some("force.push"@),
        Primitive::ForcePull(_) => Some("force.pull"@),
        Primitive::ForceScrub(_) => Some("force.scrub"@),
        Primitive::SenseInspect(_) => Some("sense.inspect"@),
        Primitive::SenseProbe(_) => Some("sense.probe"@),
        Primitive::SenseVerify(_) => Some("sense.verify"@),
        Primitive::SenseWeigh(_) => Some("sense.weigh"@),
        Primitive::ForceScrew(_) => Some("force.screw"@),
        Primitive::ForceUnscrew(_) => Some("force.unscrew"@),
        Primitive::TransportCarry(_) => Some("transport.carry"@),
        Primitive::ForcePressButton(_) => Some("force.press_button"@),
        Primitive::ForceWipe(_) => Some("force.wipe"@),
        Primitive::ForceSnapEngage(_) => Some("force.snap_engage"@),
        Primitive::InHandFlip(_) => Some("in_hand.flip"@),
        Primitive::GraspPin(_) => Some("grasp.pin"@),
        Primitive::GraspPlatform(_) => Some("grasp.platform"@),
        Primitive::InHandRegrasp(_) => Some("in_hand.regrasp"@),
        Primitive::InHandPivot(_) => Some("in_hand.pivot"@),
        Primitive::InHandRotate(_) => Some("in_hand.rotate"@),
        Primitive::InHandTranslate(_) => Some("in_hand.translate"@),
        Primitive::InHandRoll(_) => Some("in_hand.roll"@),
        Primitive::InHandSlide(_) => Some("in_hand.slide"@),
        Primitive::TransportHandoff(_) => Some("transport.handoff"@),
        _ => None,
    }
}

/// The capability a primitive lacks on an embodiment, if any: `reach.*` is the
/// ungated baseline; release and adjust need some `grasp.*` capability;
/// `place.hand_to` also needs human-collaboration safety and `force.cut` also
/// needs tool safety; every other primitive needs its own key.
pub open spec fn spec_capability_gap(p: Primitive, e: Embodiment) -> Option<Seq<char>> {
    match p {
        Primitive::ReachAlign(_) | Primitive::ReachToPose(_) | Primitive::ReachApproach(_)
        | Primitive::ReachRetract(_) | Primitive::ReachScan(_) | Primitive::ReachHover(_) => None,
        Primitive::GraspRelease(_) | Primitive::GraspAdjust(_) => if names_with_prefix(
            e.capabilities.skills@,
            "grasp."@,
        ) {
            None
        } else {
            Some("grasp"@)
        },
        Primitive::PlaceHandTo(_) => if !e.spec_has_skill("place.hand_to"@) {
            Some("place.hand_to"@)
        } else if !flag(e.capabilities.aux.human_collaboration_safety) {
            Some("human_collaboration_safety"@)
        } else {
            None
        },
        Primitive::ForceCut(_) => if !e.spec_has_skill("force.cut"@) {
            Some("force.cut"@)
        } else if !flag(e.capabilities.aux.tool_safety) {
            Some("tool_safety"@)
        } else {
            None
        },
        _ => match spec_gate_key(p) {
            Some(k) => if e.spec_has_skill(k) {
                None
            } else {
                Some(k)
            },
            None => None,
        },
    }
}

/// Whether a primitive's gate is other than its own ISA name: the ungated
/// `reach.*` family, release and adjust (any `grasp.*` capability), the
/// conjunctive gates of `place.hand_to` and `force.cut`, and
/// `transport.move_to_pose` (the base `transport` key).
pub open spec fn has_special_gate(p: Primitive) -> bool {
    ||| p is ReachAlign || p is ReachToPose || p is ReachApproach || p is ReachRetract
        || p is ReachScan || p is ReachHover
    ||| p is GraspRelease || p is GraspAdjust
    ||| p is PlaceHandTo || p is ForceCut
    ||| p is TransportMoveToPose
}

/// Every other primitive is gated by its own ISA name: it passes exactly when
/// the embodiment declares that name (a `transport.lift` needs
/// `transport.lift`; the base `transport` key admits only
/// `transport.move_to_pose`), and otherwise fails naming it.
pub proof fn lemma_gate_is_own_isa_name(p: Primitive, e: Embodiment)
    ensures
        !has_special_gate(p) ==> spec_capability_gap(p, e) == if e.spec_has_skill(spec_isa_name(p)) {
            None
        } else {
            Some(spec_isa_name(p))
        },
        p is TransportMoveToPose ==> spec_capability_gap(p, e) == if e.spec_has_skill("transport"@) {
            None
        } else {
            Some("transport"@)
        },
{
}

/// The failure text of a missing capability.
pub open spec fn capability_msg(k: Seq<char>) -> Seq<char> {
    "capability_absent: "@ + k
}

fn gate_key(p: &Primitive) -> (r: Option<&'static str>)
    ensures
        match spec_gate_key(*p) {
            Some(k) => r matches Some(x) && x@ == k,
            None => r is None,
        },
{
    match p {
        Primitive::SenseLocate(_) => Some("sense.locate"),
        Primitive::GraspPinch(_) => Some("grasp.pinch"),
        Primitive::GraspPower(_) => Some("grasp.power"),
        Primitive::GraspLateral(_) => Some("grasp.lateral"),
        Primitive::GraspPrecisionTripod(_) => Some("grasp.precision_tripod"),
        Primitive::GraspHook(_) => Some("grasp.hook"),
        Primitive::GraspEnvelope(_) => Some("grasp.envelope"),
        Primitive::TransportMoveToPose(_) => Some("transport"),
        Primitive::TransportLift(_) => Some("transport.lift"),
        Primitive::TransportLower(_) => Some("transport.lower"),
        Primitive::TransportFollowTrajectory(_) => Some("transport.follow_trajectory"),
        Primitive::PlacePutDown(_) => Some("place.put_down"),
        Primitive::PlaceStack(_) => Some("place.stack"),
        Primitive::PlaceInsertLoose(_) => Some("place.insert_loose"),
        Primitive::PlaceOrient(_) => Some("place.orient"),
        Primitive::PlaceDiscard(_) => Some("place.discard"),
        Primitive::ForceInsertFit(_) => Some("force.insert_fit"),
        Primitive::ForcePush(_) => Some("force.push"),
        Primitive::ForcePull(_) => Some("force.pull"),
        Primitive::ForceScrub(_) => Some("force.scrub"),
        Primitive::SenseInspect(_) => Some("sense.inspect"),
        Primitive::SenseProbe(_) => Some("sense.probe"),
        Primitive::SenseVerify(_) => Some("sense.verify"),
        Primitive::SenseWeigh(_) => Some("sense.weigh"),
        Primitive::ForceScrew(_) => Some("force.screw"),
        Primitive::ForceUnscrew(_) => Some("force.unscrew"),
        Primitive::TransportCarry(_) => Some("transport.carry"),
        Primitive::ForcePressButton(_) => Some("force.press_button"),
        Primitive::ForceWipe(_) => Some("force.wipe"),
        Primitive::ForceSnapEngage(_) => Some("force.snap_engage"),
        Primitive::InHandFlip(_) => Some("in_hand.flip"),
        Primitive::GraspPin(_) => Some("grasp.pin"),
        Primitive::GraspPlatform(_) => Some("grasp.platform"),
        Primitive::InHandRegrasp(_) => Some("in_hand.regrasp"),
        Primitive::InHandPivot(_) => Some("in_hand.pivot"),
        Primitive::InHandRotate(_) => Some("in_hand.rotate"),
        Primitive::InHandTranslate(_) => Some("in_hand.translate"),
        Primitive::InHandRoll(_) => Some("in_hand.roll"),
        Primitive::InHandSlide(_) => Some("in_hand.slide"),
        Primitive::TransportHandoff(_) => Some("transport.handoff"),
        _ => None,
    }
}

fn absent(key: &str) -> (r: Result<(), Error>)
    ensures
        r matches Err(Error::Translation(t)) && t@ == capability_msg(key@),
{
    Err(Error::Translation(join("capability_absent: ", key)))
}

/// The capability gate: a primitive is retargeted only onto an embodiment that
/// declares its capability key. A missing capability is the error
/// `capability_absent: <key>`. Tactile sensing is preferred, never required,
/// so it is not gated.
pub fn check_capability(prim: &Primitive, e: &Embodiment) -> (r: Result<(), Error>)
    ensures
        match spec_capability_gap(*prim, *e) {
            None => r is Ok,
            Some(k) => r matches Err(Error::Translation(t)) && t@ == capability_msg(k),
        },
{
    match prim {
        Primitive::ReachAlign(_) | Primitive::ReachToPose(_) | Primitive::ReachApproach(_)
        | Primitive::ReachRetract(_) | Primitive::ReachScan(_) | Primitive::ReachHover(_) => Ok(()),
        Primitive::GraspRelease(_) | Primitive::GraspAdjust(_) => if e.has_skill_prefix("grasp.") {
            Ok(())
        } else {
            absent("grasp")
        },
        Primitive::PlaceHandTo(_) => if !e.has_skill("place.hand_to") {
            absent("place.hand_to")
        } else if !e.has_human_collaboration_safety() {
            absent("human_collaboration_safety")
        } else {
            Ok(())
        },
        Primitive::ForceCut(_) => if !e.has_skill("force.cut") {
            absent("force.cut")
        } else if !e.has_tool_safety() {
            absent("tool_safety")
        } else {
            Ok(())
        },
        _ => match gate_key(prim) {
            Some(k) => if e.has_skill(k) {
                Ok(())
            } else {
                absent(k)
            },
            None => Ok(()),
        },
    }
}

/// The action-id suffix of a primitive (`cage` / `conform` for an envelope).
pub open spec fn spec_suffix(p: Primitive) -> Seq<char> {
    match p {
        Primitive::SenseLocate(_) => "locate"@,
        Primitive::GraspPinch(_) => "pinch"@,
        Primitive::GraspPower(_) => "power"@,
        Primitive::GraspLateral(_) => "lateral"@,
        Primitive::GraspPrecisionTripod(_) => "tripod"@,
        Primitive::GraspHook(_) => "hook"@,
        Primitive::GraspEnvelope(x) => if x.mode == EnvelopeMode::Cage {
            "cage"@
        } else {
            "conform"@
        },
        Primitive::GraspAdjust(_) => "adjust"@,
        Primitive::TransportMoveToPose(_) => "transport"@,
        Primitive::TransportLift(_) => "lift"@,
        Primitive::TransportLower(_) => "lower"@,
        Primitive::TransportFollowTrajectory(_) => "follow_trajectory"@,
        Primitive::PlacePutDown(_) => "put_down"@,
        Primitive::PlaceStack(_) => "stack"@,
        Primitive::PlaceInsertLoose(_) => "insert_loose"@,
        Primitive::PlaceOrient(_) => "orient"@,
        Primitive::PlaceHandTo(_) => "hand_to"@,
        Primitive::PlaceDiscard(_) => "discard"@,
        Primitive::ReachAlign(_) => "align"@,
        Primitive::ReachToPose(_) => "to_pose"@,
        Primitive::ReachApproach(_) => "approach"@,
        Primitive::ForceInsertFit(_) => "insert_fit"@,
        Primitive::ForcePush(_) => "push"@,
        Primitive::ForcePull(_) => "pull"@,
        Primitive::ForceScrub(_) => "scrub"@,
        Primitive::GraspRelease(_) => "release"@,
        Primitive::ReachRetract(_) => "retract"@,
        Primitive::ReachScan(_) => "scan"@,
        Primitive::ReachHover(_) => "hover"@,
        Primitive::SenseInspect(_) => "inspect"@,
        Primitive::SenseProbe(_) => "probe"@,
        Primitive::SenseVerify(_) => "verify"@,
        Primitive::SenseWeigh(_) => "weigh"@,
        Primitive::ForceScrew(_) => "screw"@,
        Primitive::ForceUnscrew(_) => "unscrew"@,
        Primitive::TransportCarry(_) => "carry"@,
        Primitive::ForcePressButton(_) => "press_button"@,
        Primitive::ForceWipe(_) => "wipe"@,
        Primitive::ForceSnapEngage(_) => "snap_engage"@,
        Primitive::ForceCut(_) => "cut"@,
        Primitive::InHandFlip(_) => "flip"@,
        Primitive::GraspPin(_) => "pin"@,
        Primitive::GraspPlatform(_) => "platform"@,
        Primitive::InHandRegrasp(_) => "regrasp"@,
        Primitive::InHandPivot(_) => "pivot"@,
        Primitive::InHandRotate(_) => "rotate"@,
        Primitive::InHandTranslate(_) => "translate"@,
        Primitive::InHandRoll(_) => "roll"@,
        Primitive::InHandSlide(_) => "slide"@,
        Primitive::TransportHandoff(_) => "handoff"@,
    }
}

/// The action a primitive lowers to, in grasp context `ctx` with the declared
/// weights `w`.
#[verifier::opaque]
pub open spec fn spec_lower(
    p: Primitive,
    e: Embodiment,
    ctx: GraspContext,
    w: Seq<(Seq<char>, Quantity)>,
) -> ActionView {
    match p {
        Primitive::SenseLocate(x) => spec_lower_sense_locate(x, e),
        Primitive::GraspPinch(x) => spec_force_closure(GraspMode::Pinch, x.target@, x.force_budget, x.tactile_target, e, w),
        Primitive::GraspPower(x) => spec_force_closure(GraspMode::Power, x.target@, x.force_budget, x.tactile_target, e, w),
        Primitive::GraspLateral(x) => spec_force_closure(GraspMode::Lateral, x.target@, x.force_budget, x.tactile_target, e, w),
        Primitive::GraspPrecisionTripod(x) => spec_force_closure(GraspMode::PrecisionTripod, x.target@, x.force_budget, x.tactile_target, e, w),
        Primitive::GraspHook(x) => spec_lower_grasp_hook(x, e),
        Primitive::GraspEnvelope(x) => spec_lower_grasp_envelope(x, e, w),
        Primitive::GraspAdjust(x) => spec_lower_grasp_adjust(x, e, ctx),
        Primitive::TransportMoveToPose(x) => spec_lower_transport_move_to_pose(x, e, ctx),
        Primitive::TransportLift(x) => spec_lower_transport_lift(x, e, ctx),
        Primitive::TransportLower(x) => spec_lower_transport_lower(x, e, ctx),
        Primitive::TransportFollowTrajectory(x) => spec_lower_transport_follow_trajectory(x, e, ctx),
        Primitive::PlacePutDown(_) => spec_lower_place_put_down(e, ctx),
        Primitive::PlaceStack(x) => spec_lower_place_stack(x, e, ctx),
        Primitive::PlaceInsertLoose(x) => spec_lower_place_insert_loose(x, e, ctx),
        Primitive::PlaceOrient(x) => spec_lower_place_orient(x, e, ctx),
        Primitive::PlaceHandTo(x) => spec_lower_place_hand_to(x, e, ctx),
        Primitive::PlaceDiscard(x) => spec_lower_place_discard(x, e, ctx),
        Primitive::ReachAlign(x) => spec_lower_reach_align(x, e),
        Primitive::ReachToPose(x) => spec_lower_reach_to_pose(x, e),
        Primitive::ReachApproach(x) => spec_lower_reach_approach(x, e),
        Primitive::ForceInsertFit(x) => spec_lower_force_insert_fit(x, e, ctx),
        Primitive::ForcePush(x) => spec_lower_force_push(x, e),
        Primitive::ForcePull(x) => spec_lower_force_pull(x, e),
        Primitive::ForceScrub(x) => spec_lower_force_scrub(x, e),
        Primitive::GraspRelease(_) => spec_lower_grasp_release(e),
        Primitive::ReachRetract(x) => spec_lower_reach_retract(x, e),
        Primitive::ReachScan(x) => spec_lower_reach_scan(x, e),
        Primitive::ReachHover(x) => spec_lower_reach_hover(x, e),
        Primitive::SenseInspect(x) => spec_lower_sense_inspect(x, e),
        Primitive::SenseProbe(x) => spec_lower_sense_probe(x, e),
        Primitive::SenseVerify(x) => spec_lower_sense_verify(x, e),
        Primitive::SenseWeigh(x) => spec_lower_sense_weigh(x, e),
        Primitive::ForceScrew(x) => spec_lower_force_screw(x, e, ctx),
        Primitive::ForceUnscrew(x) => spec_lower_force_unscrew(x, e, ctx),
        Primitive::TransportCarry(x) => spec_lower_transport_carry(x, e, ctx),
        Primitive::ForcePressButton(x) => spec_lower_force_press_button(x, e),
        Primitive::ForceWipe(x) => spec_lower_force_wipe(x, e),
        Primitive::ForceSnapEngage(x) => spec_lower_force_snap_engage(x, e),
        Primitive::ForceCut(x) => spec_lower_force_cut(x, e),
        Primitive::InHandFlip(x) => spec_lower_in_hand_flip(x, e),
        Primitive::GraspPin(x) => spec_lower_grasp_pin(x, e),
        Primitive::GraspPlatform(x) => spec_lower_grasp_platform(x, e),
        Primitive::InHandRegrasp(x) => spec_lower_in_hand_regrasp(x, e, ctx),
        Primitive::InHandPivot(x) => spec_lower_in_hand_pivot(x, e, ctx),
        Primitive::InHandRotate(x) => spec_lower_in_hand_rotate(x, e, ctx),
        Primitive::InHandTranslate(x) => spec_lower_in_hand_translate(x, e, ctx),
        Primitive::InHandRoll(x) => spec_lower_in_hand_roll(x, e, ctx),
        Primitive::InHandSlide(x) => spec_lower_in_hand_slide(x, e, ctx),
        Primitive::TransportHandoff(x) => spec_lower_transport_handoff(x, e, ctx),
    }
}

/// The grasp context after a primitive: a gripping grasp whose target's weight
/// is known makes it the held object; a release or a placement clears it;
/// anything else leaves it.
pub open spec fn spec_next_ctx(p: Primitive, ctx: GraspContext, w: Seq<(Seq<char>, Quantity)>) -> GraspContext {
    match p {
        Primitive::GraspPinch(x) => spec_grip_ctx(GraspMode::Pinch, x.target@, ctx, w),
        Primitive::GraspPower(x) => spec_grip_ctx(GraspMode::Power, x.target@, ctx, w),
        Primitive::GraspLateral(x) => spec_grip_ctx(GraspMode::Lateral, x.target@, ctx, w),
        Primitive::GraspPrecisionTripod(x) => spec_grip_ctx(
            GraspMode::PrecisionTripod,
            x.target@,
            ctx,
            w,
        ),
        Primitive::GraspEnvelope(x) => spec_envelope_ctx(x, ctx, w),
        Primitive::GraspRelease(_) | Primitive::PlacePutDown(_) | Primitive::PlaceStack(_)
        | Primitive::PlaceInsertLoose(_) | Primitive::PlaceOrient(_) | Primitive::PlaceHandTo(_)
        | Primitive::PlaceDiscard(_) => GraspContext { held: None },
        _ => ctx,
    }
}

/// Lower one primitive to a canonical action and its action-id suffix, updating
/// the grasp context.
pub fn lower(
    prim: &Primitive,
    e: &Embodiment,
    ctx: &mut GraspContext,
    weights: &Vec<(String, Quantity)>,
) -> (r: (CanonicalAction, &'static str))
    ensures
        r.0@ == spec_lower(*prim, *e, *old(ctx), weights_view(weights@)),
        r.1@ == spec_suffix(*prim),
        *final(ctx) == spec_next_ctx(*prim, *old(ctx), weights_view(weights@)),
{
    reveal(spec_lower);
    match prim {
        Primitive::SenseLocate(x) => (lower_sense_locate(x, e), "locate"),
        Primitive::GraspPinch(x) => (lower_grasp_pinch(x, e, ctx, weights), "pinch"),
        Primitive::GraspPower(x) => (lower_grasp_power(x, e, ctx, weights), "power"),
        Primitive::GraspLateral(x) => (lower_grasp_lateral(x, e, ctx, weights), "lateral"),
        Primitive::GraspPrecisionTripod(x) => (lower_grasp_precision_tripod(x, e, ctx, weights), "tripod"),
        Primitive::GraspHook(x) => (lower_grasp_hook(x, e), "hook"),
        Primitive::GraspEnvelope(x) => {
            let s = if x.is_cage() {
                "cage"
            } else {
                "conform"
            };
            (lower_grasp_envelope(x, e, ctx, weights), s)
        },
        Primitive::GraspAdjust(x) => (lower_grasp_adjust(x, e, ctx), "adjust"),
        Primitive::TransportMoveToPose(x) => (lower_transport_move_to_pose(x, e, ctx), "transport"),
        Primitive::TransportLift(x) => (lower_transport_lift(x, e, ctx), "lift"),
        Primitive::TransportLower(x) => (lower_transport_lower(x, e, ctx), "lower"),
        Primitive::TransportFollowTrajectory(x) => (lower_transport_follow_trajectory(x, e, ctx), "follow_trajectory"),
        Primitive::PlacePutDown(x) => (lower_place_put_down(e, ctx), "put_down"),
        Primitive::PlaceStack(x) => (lower_place_stack(x, e, ctx), "stack"),
        Primitive::PlaceInsertLoose(x) => (lower_place_insert_loose(x, e, ctx), "insert_loose"),
        Primitive::PlaceOrient(x) => (lower_place_orient(x, e, ctx), "orient"),
        Primitive::PlaceHandTo(x) => (lower_place_hand_to(x, e, ctx), "hand_to"),
        Primitive::PlaceDiscard(x) => (lower_place_discard(x, e, ctx), "discard"),
        Primitive::ReachAlign(x) => (lower_reach_align(x, e), "align"),
        Primitive::ReachToPose(x) => (lower_reach_to_pose(x, e), "to_pose"),
        Primitive::ReachApproach(x) => (lower_reach_approach(x, e), "approach"),
        Primitive::ForceInsertFit(x) => (lower_force_insert_fit(x, e, ctx), "insert_fit"),
        Primitive::ForcePush(x) => (lower_force_push(x, e), "push"),
        Primitive::ForcePull(x) => (lower_force_pull(x, e), "pull"),
        Primitive::ForceScrub(x) => (lower_force_scrub(x, e), "scrub"),
        Primitive::GraspRelease(x) => (lower_grasp_release(x, e, ctx), "release"),
        Primitive::ReachRetract(x) => (lower_reach_retract(x, e), "retract"),
        Primitive::ReachScan(x) => (lower_reach_scan(x, e), "scan"),
        Primitive::ReachHover(x) => (lower_reach_hover(x, e), "hover"),
        Primitive::SenseInspect(x) => (lower_sense_inspect(x, e), "inspect"),
        Primitive::SenseProbe(x) => (lower_sense_probe(x, e), "probe"),
        Primitive::SenseVerify(x) => (lower_sense_verify(x, e), "verify"),
        Primitive::SenseWeigh(x) => (lower_sense_weigh(x, e), "weigh"),
        Primitive::ForceScrew(x) => (lower_force_screw(x, e, ctx), "screw"),
        Primitive::ForceUnscrew(x) => (lower_force_unscrew(x, e, ctx), "unscrew"),
        Primitive::TransportCarry(x) => (lower_transport_carry(x, e, ctx), "carry"),
        Primitive::ForcePressButton(x) => (lower_force_press_button(x, e), "press_button"),
        Primitive::ForceWipe(x) => (lower_force_wipe(x, e), "wipe"),
        Primitive::ForceSnapEngage(x) => (lower_force_snap_engage(x, e), "snap_engage"),
        Primitive::ForceCut(x) => (lower_force_cut(x, e), "cut"),
        Primitive::InHandFlip(x) => (lower_in_hand_flip(x, e), "flip"),
        Primitive::GraspPin(x) => (lower_grasp_pin(x, e), "pin"),
        Primitive::GraspPlatform(x) => (lower_grasp_platform(x, e), "platform"),
        Primitive::InHandRegrasp(x) => (lower_in_hand_regrasp(x, e, ctx), "regrasp"),
        Primitive::InHandPivot(x) => (lower_in_hand_pivot(x, e, ctx), "pivot"),
        Primitive::InHandRotate(x) => (lower_in_hand_rotate(x, e, ctx), "rotate"),
        Primitive::InHandTranslate(x) => (lower_in_hand_translate(x, e, ctx), "translate"),
        Primitive::InHandRoll(x) => (lower_in_hand_roll(x, e, ctx), "roll"),
        Primitive::InHandSlide(x) => (lower_in_hand_slide(x, e, ctx), "slide"),
        Primitive::TransportHandoff(x) => (lower_transport_handoff(x, e, ctx), "handoff"),
    }
}

/// The declared weight a let-bind records: a `sense.locate` of a declared
/// object with an estimated mass binds that mass to the let-name.
pub open spec fn weight_entry(skill: Skill, s: Statement) -> Option<(Seq<char>, Quantity)> {
    match s {
        Statement::LetBind(b) => match *b.from {
            Primitive::SenseLocate(sl) => match keyed_get(skill.objects@, sl.target_ref@) {
                Some(decl) => match decl.estimated_mass {
                    Some(m) => Some((b.name@, m)),
                    None => None,
                },
                None => None,
            },
            _ => None,
        },
        Statement::Primitive(_) => None,
    }
}

/// The weight table of the first `n` statements, in order.
pub open spec fn weights_upto(skill: Skill, n: int) -> Seq<(Seq<char>, Quantity)>
    decreases n,
{
    if n <= 0 {
        seq![]
    } else {
        let w = weights_upto(skill, n - 1);
        match weight_entry(skill, skill.body.sequence@[n - 1]) {
            Some(x) => w.push(x),
            None => w,
        }
    }
}

/// The declared weights of a skill's let-bound targets (the last binding of a
/// name wins on lookup).
pub open spec fn spec_weights(skill: Skill) -> Seq<(Seq<char>, Quantity)> {
    weights_upto(skill, skill.body.sequence@.len() as int)
}

/// Resolve each let-name bound by a `sense.locate` to the declared estimated
/// mass of its target object: a known prior, never a runtime measurement.
pub fn build_weights(skill: &Skill) -> (r: Vec<(String, Quantity)>)
    ensures
        weights_view(r@) == spec_weights(*skill),
{
    let stmts = &skill.body.sequence;
    let mut w: Vec<(String, Quantity)> = Vec::new();
    let mut i: usize = 0;
    assert(weights_view(w@) =~= weights_upto(*skill, 0));
    while i < stmts.len()
        invariant
            0 <= i <= stmts@.len(),
            stmts == &skill.body.sequence,
            weights_view(w@) == weights_upto(*skill, i as int),
        decreases stmts@.len() - i,
    {
        let ghost before = w@;
        if let Statement::LetBind(b) = &stmts[i] {
            if let Primitive::SenseLocate(sl) = &*b.from {
                if let Some(k) = keyed_index(&skill.objects, sl.target_ref.as_str()) {
                    if let Some(mass) = &skill.objects[k].1.estimated_mass {
                        w.push((b.name.clone(), mass.copy()));
                        proof {
                            assert(weights_view(w@) =~= weights_view(before).push(
                                (b.name@, *mass),
                            ));
                        }
                    }
                }
            }
        }
        i = i + 1;
    }
    w
}

/// The outcome of retargeting `stmts` from grasp context `ctx`: the actions
/// with their suffixes, or the failure text of the first missing capability.
pub open spec fn spec_retarget_from(
    stmts: Seq<Statement>,
    e: Embodiment,
    ctx: GraspContext,
    w: Seq<(Seq<char>, Quantity)>,
) -> Result<Seq<(ActionView, Seq<char>)>, Seq<char>>
    decreases stmts.len(),
{
    if stmts.len() == 0 {
        Ok(seq![])
    } else {
        let p = stmt_prim(stmts[0]);
        match spec_capability_gap(p, e) {
            Some(k) => Err(capability_msg(k)),
            None => match spec_retarget_from(stmts.drop_first(), e, spec_next_ctx(p, ctx, w), w) {
                Ok(rest) => Ok(seq![(spec_lower(p, e, ctx, w), spec_suffix(p))] + rest),
                Err(m) => Err(m),
            },
        }
    }
}

/// The outcome of retargeting a skill onto an embodiment.
pub open spec fn spec_retarget(skill: Skill, e: Embodiment) -> Result<
    Seq<(ActionView, Seq<char>)>,
    Seq<char>,
> {
    spec_retarget_from(skill.body.sequence@, e, GraspContext { held: None }, spec_weights(skill))
}

/// `done` followed by an outcome.
pub open spec fn prepend(
    done: Seq<(ActionView, Seq<char>)>,
    r: Result<Seq<(ActionView, Seq<char>)>, Seq<char>>,
) -> Result<Seq<(ActionView, Seq<char>)>, Seq<char>> {
    match r {
        Ok(s) => Ok(done + s),
        Err(m) => Err(m),
    }
}

/// One step of retargeting: a statement whose capability is present appends
/// its action and continues from the next grasp context.
pub proof fn lemma_retarget_step(
    stmts: Seq<Statement>,
    e: Embodiment,
    ctx: GraspContext,
    w: Seq<(Seq<char>, Quantity)>,
    done: Seq<(ActionView, Seq<char>)>,
    i: int,
)
    requires
        0 <= i < stmts.len(),
        spec_capability_gap(stmt_prim(stmts[i]), e) is None,
    ensures
        prepend(done, spec_retarget_from(stmts.skip(i), e, ctx, w)) == prepend(
            done.push((spec_lower(stmt_prim(stmts[i]), e, ctx, w), spec_suffix(stmt_prim(stmts[i])))),
            spec_retarget_from(
                stmts.skip(i + 1),
                e,
                spec_next_ctx(stmt_prim(stmts[i]), ctx, w),
                w,
            ),
        ),
{
    let p = stmt_prim(stmts[i]);
    let x = (spec_lower(p, e, ctx, w), spec_suffix(p));
    assert(stmts.skip(i)[0] == stmts[i]);
    assert(stmts.skip(i).drop_first() =~= stmts.skip(i + 1));
    match spec_retarget_from(stmts.skip(i + 1), e, spec_next_ctx(p, ctx, w), w) {
        Ok(rest) => {
            assert(done + (seq![x] + rest) =~= done.push(x) + rest);
        },
        Err(_) => {},
    }
}

/// A statement whose capability is missing ends retargeting with its failure.
pub proof fn lemma_retarget_gap(
    stmts: Seq<Statement>,
    e: Embodiment,
    ctx: GraspContext,
    w: Seq<(Seq<char>, Quantity)>,
    done: Seq<(ActionView, Seq<char>)>,
    i: int,
)
    requires
        0 <= i < stmts.len(),
        spec_capability_gap(stmt_prim(stmts[i]), e) is Some,
    ensures
        prepend(done, spec_retarget_from(stmts.skip(i), e, ctx, w)) == Err::<
            Seq<(ActionView, Seq<char>)>,
            Seq<char>,
        >(capability_msg(spec_capability_gap(stmt_prim(stmts[i]), e)->0)),
{
    assert(stmts.skip(i)[0] == stmts[i]);
}

/// The views and suffixes of retargeted actions.
pub open spec fn output_view(actions: Seq<CanonicalAction>, suffixes: Seq<&'static str>) -> Seq<
    (ActionView, Seq<char>),
> {
    Seq::new(actions.len(), |j: int| (actions[j]@, suffixes[j]@))
}

/// Retarget a skill onto an embodiment: every statement's primitive must pass
/// the capability gate, then lowers to one canonical action. Fails with
/// `capability_absent: <key>` at the first primitive whose capability the
/// embodiment lacks.
pub fn retarget(skill: &Skill, embodiment: &Embodiment) -> (r: Result<RetargetOutput, Error>)
    ensures
        match spec_retarget(*skill, *embodiment) {
            Ok(s) => r matches Ok(out) && out.actions@.len() == s.len() && out.suffixes@.len()
                == s.len() && output_view(out.actions@, out.suffixes@) == s,
            Err(m) => r matches Err(Error::Translation(t)) && t@ == m,
        },
{
    let stmts = &skill.body.sequence;
    let weights = build_weights(skill);
    let ghost w = spec_weights(*skill);
    let mut ctx = GraspContext { held: None };
    let mut actions: Vec<CanonicalAction> = Vec::new();
    let mut suffixes: Vec<&'static str> = Vec::new();
    let mut i: usize = 0;
    assert(stmts@.skip(0) =~= stmts@);
    assert(output_view(actions@, suffixes@) =~= Seq::<(ActionView, Seq<char>)>::empty());
    while i < stmts.len()
        invariant
            0 <= i <= stmts@.len(),
            stmts == &skill.body.sequence,
            weights_view(weights@) == w,
            w == spec_weights(*skill),
            actions@.len() == i,
            suffixes@.len() == i,
            spec_retarget(*skill, *embodiment) == prepend(
                output_view(actions@, suffixes@),
                spec_retarget_from(stmts@.skip(i as int), *embodiment, ctx, w),
            ),
        decreases stmts@.len() - i,
    {
        let stmt = &stmts[i];
        let prim: &Primitive = match stmt {
            Statement::Primitive(p) => p,
            Statement::LetBind(b) => &*b.from,
        };
        assert(*prim == stmt_prim(stmts@[i as int]));
        match check_capability(prim, embodiment) {
            Ok(()) => {},
            Err(err) => {
                proof {
                    lemma_retarget_gap(stmts@, *embodiment, ctx, w, output_view(actions@, suffixes@), i as int);
                }
                return Err(err);
            },
        }
        proof {
            lemma_retarget_step(stmts@, *embodiment, ctx, w, output_view(actions@, suffixes@), i as int);
        }
        let ghost done = output_view(actions@, suffixes@);
        let ghost ctx0 = ctx;
        let (action, suffix) = lower(prim, embodiment, &mut ctx, &weights);
        actions.push(action);
        suffixes.push(suffix);
        proof {
            let x = (spec_lower(*prim, *embodiment, ctx0, w), spec_suffix(*prim));
            assert(output_view(actions@, suffixes@) =~= done.push(x));
        }
        i = i + 1;
    }
    proof {
        assert(stmts@.skip(i as int) =~= Seq::<Statement>::empty());
        assert(output_view(actions@, suffixes@) + Seq::<(ActionView, Seq<char>)>::empty()
            =~= output_view(actions@, suffixes@));
    }
    Ok(RetargetOutput { actions, suffixes })
}

/// Retargeting yields exactly one action per statement, and the i-th action's
/// suffix is the suffix of the i-th statement's primitive.
pub proof fn lemma_retarget_one_action_per_statement(
    stmts: Seq<Statement>,
    e: Embodiment,
    ctx: GraspContext,
    w: Seq<(Seq<char>, Quantity)>,
)
    ensures
        spec_retarget_from(stmts, e, ctx, w) matches Ok(s) ==> s.len() == stmts.len() && forall|
            i: int,
        |
            0 <= i < stmts.len() ==> #[trigger] s[i].1 == spec_suffix(stmt_prim(stmts[i])),
    decreases stmts.len(),
{
    if stmts.len() > 0 {
        let p = stmt_prim(stmts[0]);
        lemma_retarget_one_action_per_statement(
            stmts.drop_first(),
            e,
            spec_next_ctx(p, ctx, w),
            w,
        );
        if let Ok(s) = spec_retarget_from(stmts, e, ctx, w) {
            let rest = spec_retarget_from(stmts.drop_first(), e, spec_next_ctx(p, ctx, w), w)->Ok_0;
            assert forall|i: int| 0 <= i < stmts.len() implies #[trigger] s[i].1 == spec_suffix(
                stmt_prim(stmts[i]),
            ) by {
                if i > 0 {
                    assert(s[i] == rest[i - 1]);
                    assert(stmts.drop_first()[i - 1] == stmts[i]);
                }
            }
        }
    }
}

/// Statement `i` is the first whose capability is missing, with failure `m`.
pub open spec fn first_gap_at(stmts: Seq<Statement>, e: Embodiment, i: int, m: Seq<char>) -> bool {
    &&& 0 <= i < stmts.len()
    &&& forall|j: int| 0 <= j < i ==> #[trigger] spec_capability_gap(stmt_prim(stmts[j]), e) is None
    &&& spec_capability_gap(stmt_prim(stmts[i]), e) is Some
    &&& m == capability_msg(spec_capability_gap(stmt_prim(stmts[i]), e)->0)
}

/// Retargeting fails exactly when some statement's capability is missing, and
/// then with the failure of the first such statement; the grasp context plays
/// no part in whether it fails.
pub proof fn lemma_retarget_fails_iff_capability_missing(
    stmts: Seq<Statement>,
    e: Embodiment,
    ctx: GraspContext,
    w: Seq<(Seq<char>, Quantity)>,
)
    ensures
        spec_retarget_from(stmts, e, ctx, w) is Err <==> exists|i: int|
            0 <= i < stmts.len() && #[trigger] spec_capability_gap(stmt_prim(stmts[i]), e) is Some,
        spec_retarget_from(stmts, e, ctx, w) is Err ==> exists|i: int| #[trigger]
            first_gap_at(stmts, e, i, spec_retarget_from(stmts, e, ctx, w)->Err_0),
    decreases stmts.len(),
{
    if stmts.len() > 0 {
        let p = stmt_prim(stmts[0]);
        let rest = stmts.drop_first();
        lemma_retarget_fails_iff_capability_missing(rest, e, spec_next_ctx(p, ctx, w), w);
        assert forall|i: int| 1 <= i < stmts.len() implies stmts[i] == rest[i - 1] by {}
        if spec_capability_gap(p, e) is Some {
            assert(first_gap_at(stmts, e, 0, spec_retarget_from(stmts, e, ctx, w)->Err_0));
        } else {
            if exists|i: int|
                0 <= i < stmts.len() && #[trigger] spec_capability_gap(stmt_prim(stmts[i]), e) is Some {
                let i = choose|i: int|
                    0 <= i < stmts.len() && #[trigger] spec_capability_gap(stmt_prim(stmts[i]), e) is Some;
                assert(spec_capability_gap(stmt_prim(rest[i - 1]), e) is Some);
            }
            if let Err(m) = spec_retarget_from(stmts, e, ctx, w) {
                assert(spec_retarget_from(rest, e, spec_next_ctx(p, ctx, w), w) == Err::<
                    Seq<(ActionView, Seq<char>)>,
                    Seq<char>,
                >(m));
                let i = choose|i: int| #[trigger] first_gap_at(rest, e, i, m);
                assert forall|j: int| 0 <= j < i + 1 implies #[trigger] spec_capability_gap(
                    stmt_prim(stmts[j]),
                    e,
                ) is None by {
                    if j > 0 {
                        assert(stmts[j] == rest[j - 1]);
                    }
                }
                assert(stmts[i + 1] == rest[i]);
                assert(first_gap_at(stmts, e, i + 1, m));
            }
            if exists|i: int|
                0 <= i < rest.len() && #[trigger] spec_capability_gap(stmt_prim(rest[i]), e) is Some {
                let i = choose|i: int|
                    0 <= i < rest.len() && #[trigger] spec_capability_gap(stmt_prim(rest[i]), e) is Some;
                assert(spec_capability_gap(stmt_prim(stmts[i + 1]), e) is Some);
            }
        }
    }
}

/// Every action rests at its goal; every action but `sense.locate`'s runs under
/// the descriptor's stop time and velocity caps.
pub proof fn lemma_actions_rest_at_goal(
    p: Primitive,
    e: Embodiment,
    ctx: GraspContext,
    w: Seq<(Seq<char>, Quantity)>,
)
    ensures
        spec_lower(p, e, ctx, w).timing.stop_at_goal,
        spec_lower(p, e, ctx, w).timing.nominal_duration is None,
        !(p is SenseLocate) ==> spec_lower(p, e, ctx, w).safety_envelope.stop_time
            == e.spec_scalar_limit("stop_time"@) && spec_lower(
            p,
            e,
            ctx,
            w,
        ).safety_envelope.motion_bounds.v_max == e.spec_scalar_limit("v_cartesian_max"@)
            && spec_lower(p, e, ctx, w).safety_envelope.motion_bounds.w_max == e.spec_scalar_limit(
            "w_cartesian_max"@,
        ),
{
    reveal(spec_lower);
    match p {
        Primitive::SenseLocate(_) => {},
        Primitive::GraspPinch(_) | Primitive::GraspPower(_) | Primitive::GraspLateral(_)
        | Primitive::GraspPrecisionTripod(_) => {},
        Primitive::GraspHook(_) | Primitive::GraspEnvelope(_) | Primitive::GraspAdjust(_)
        | Primitive::GraspPin(_) | Primitive::GraspPlatform(_) | Primitive::GraspRelease(_) => {},
        Primitive::TransportMoveToPose(_) | Primitive::TransportLift(_) | Primitive::TransportLower(_)
        | Primitive::TransportFollowTrajectory(_) | Primitive::TransportCarry(_)
        | Primitive::TransportHandoff(_) => {},
        Primitive::PlacePutDown(_) | Primitive::PlaceStack(_) | Primitive::PlaceInsertLoose(_)
        | Primitive::PlaceOrient(_) | Primitive::PlaceHandTo(_) | Primitive::PlaceDiscard(_) => {},
        Primitive::ReachAlign(_) | Primitive::ReachToPose(_) | Primitive::ReachApproach(_)
        | Primitive::ReachRetract(_) | Primitive::ReachScan(_) | Primitive::ReachHover(_) => {},
        Primitive::ForceInsertFit(_) | Primitive::ForcePush(_) | Primitive::ForcePull(_)
        | Primitive::ForceScrub(_) | Primitive::ForceScrew(_) | Primitive::ForceUnscrew(_) => {},
        Primitive::ForcePressButton(_) | Primitive::ForceWipe(_) | Primitive::ForceSnapEngage(_)
        | Primitive::ForceCut(_) => {},
        Primitive::SenseInspect(_) | Primitive::SenseProbe(_) | Primitive::SenseVerify(_)
        | Primitive::SenseWeigh(_) => {},
        Primitive::InHandFlip(_) | Primitive::InHandRegrasp(_) | Primitive::InHandPivot(_)
        | Primitive::InHandRotate(_) | Primitive::InHandTranslate(_) | Primitive::InHandRoll(_)
        | Primitive::InHandSlide(_) => {},
    }
}

/// A release or a placement leaves no object held; a primitive that neither
/// grips nor releases keeps the grasp context; whenever the held object
/// changes, its mode is the mode of the grasp the primitive establishes.
pub proof fn lemma_held_object_tracking(p: Primitive, ctx: GraspContext, w: Seq<(Seq<char>, Quantity)>)
    ensures
        crate::skill_isa::spec_releases_grasp(p) ==> spec_next_ctx(p, ctx, w).held is None,
        crate::skill_isa::spec_establishes_grasp(p) is None && !crate::skill_isa::spec_releases_grasp(
            p,
        ) ==> spec_next_ctx(p, ctx, w) == ctx,
        spec_next_ctx(p, ctx, w) != ctx ==> match spec_next_ctx(p, ctx, w).held {
            Some(h) => crate::skill_isa::spec_establishes_grasp(p) == Some(h.mode),
            None => crate::skill_isa::spec_releases_grasp(p),
        },
{
}

} // verus!
