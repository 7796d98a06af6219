//! Lowering of the sensing primitives: locate, inspect, probe, verify, weigh.

use vstd::prelude::*;
use crate::canonical::{
    no_monitors, one_monitor, ActionView, CanonicalAction, Envelope, EnvelopeView, MotionBounds,
    PoseExpr, PoseView, TimingMode,
};
use crate::embodiment::Embodiment;
use crate::json::{jstr, jv, jv_entries, jv_items, obj_push, yaml_json, yv, JView, JsonValue};
use crate::lowering::{
    base_envelope, frame_relative, spec_base_envelope, spec_frame_relative, spec_timing, timing,
    with_profile,
};
use crate::quantity::QuantityExpr;
use crate::skill_isa::{SenseInspect, SenseLocate, SenseProbe, SenseVerify, SenseWeigh};

verus! {

/// An envelope with no bound at all.
pub open spec fn spec_empty_envelope() -> EnvelopeView {
    EnvelopeView {
        motion_bounds: MotionBounds { v_max: None, a_max: None, w_max: None },
        force_profile: None,
        station_keeping: None,
        clearance: None,
        compliance: None,
        stop_time: None,
    }
}

/// `sense.locate`: the sensor acquires the named object's pose.
pub open spec fn spec_lower_sense_locate(p: SenseLocate, e: Embodiment) -> ActionView {
    ActionView {
        target_frame: e.spec_sensor_frame(),
        target_pose: PoseView::Ref(p.target_ref@),
        force_budget: None,
        timing: spec_timing(TimingMode::Strict),
        tactile_target: None,
        monitors: seq![],
        safety_envelope: spec_empty_envelope(),
        grasp_stability: None,
    }
}

/// Lower `sense.locate`: a perception action on the sensor frame whose target
/// is the object identity; its result binds the enclosing let-name at runtime.
pub fn lower_sense_locate(p: &SenseLocate, e: &Embodiment) -> (r: CanonicalAction)
    ensures
        r@ == spec_lower_sense_locate(*p, *e),
{
    CanonicalAction {
        target_frame: e.sensor_frame().to_owned(),
        target_pose: PoseExpr::Ref { reference: p.target_ref.clone() },
        force_budget: None,
        timing: timing(TimingMode::Strict),
        tactile_target: None,
        monitors: no_monitors(),
        safety_envelope: Envelope {
            motion_bounds: MotionBounds { v_max: None, a_max: None, w_max: None },
            force_profile: None,
            station_keeping: None,
            clearance: None,
            compliance: None,
            stop_time: None,
        },
        grasp_stability: None,
    }
}

/// `sense.inspect`: a perception action observing the target.
pub open spec fn spec_lower_sense_inspect(p: SenseInspect, e: Embodiment) -> ActionView {
    ActionView {
        target_frame: e.spec_sensor_frame(),
        target_pose: PoseView::Ref(p.target@),
        force_budget: None,
        timing: spec_timing(TimingMode::Strict),
        tactile_target: None,
        monitors: seq![],
        safety_envelope: spec_base_envelope(e),
        grasp_stability: None,
    }
}

/// Lower `sense.inspect`.
pub fn lower_sense_inspect(p: &SenseInspect, e: &Embodiment) -> (r: CanonicalAction)
    ensures
        r@ == spec_lower_sense_inspect(*p, *e),
{
    CanonicalAction {
        target_frame: e.sensor_frame().to_owned(),
        target_pose: PoseExpr::Ref { reference: p.target.clone() },
        force_budget: None,
        timing: timing(TimingMode::Strict),
        tactile_target: None,
        monitors: no_monitors(),
        safety_envelope: base_envelope(e),
        grasp_stability: None,
    }
}

/// The `measure` marker: the measured quantities' names, when given.
pub open spec fn spec_measure(head: Seq<(Seq<char>, JView)>, m: Option<Vec<String>>) -> Seq<
    (Seq<char>, JView),
> {
    match m {
        Some(v) => head.push(("measure"@, JView::Arr(v@.map_values(|s: String| JView::Str(s@))))),
        None => head,
    }
}

fn push_measure(o: &mut Vec<(String, JsonValue)>, m: &Option<Vec<String>>)
    ensures
        jv_entries(final(o)@) == spec_measure(jv_entries(old(o)@), *m),
{
    if let Some(v) = m {
        let mut items: Vec<JsonValue> = Vec::new();
        let mut i: usize = 0;
        while i < v.len()
            invariant
                0 <= i <= v@.len(),
                items@.len() == i,
                forall|j: int| 0 <= j < i ==> jv(#[trigger] items@[j]) == JView::Str(v@[j]@),
            decreases v@.len() - i,
        {
            items.push(JsonValue::String(v[i].clone()));
            i = i + 1;
        }
        proof {
            crate::json::lemma_jv_items_index(items@);
            assert(jv_items(items@) =~= v@.map_values(|s: String| JView::Str(s@)));
        }
        obj_push(o, "measure", JsonValue::Array(items));
    }
}

/// `sense.probe`: a light tactile contact at the target pose.
pub open spec fn spec_lower_sense_probe(p: SenseProbe, e: Embodiment) -> ActionView {
    ActionView {
        target_frame: e.spec_grasp_frame(),
        target_pose: spec_frame_relative(p.target_pose),
        force_budget: Some(QuantityExpr::Given(p.contact_force)),
        timing: spec_timing(TimingMode::Strict),
        tactile_target: None,
        monitors: seq![],
        safety_envelope: with_profile(
            spec_base_envelope(e),
            Some(
                JView::Obj(
                    spec_measure(seq![("probe"@, JView::Str("light_contact"@))], p.measure),
                ),
            ),
        ),
        grasp_stability: None,
    }
}

/// Lower `sense.probe`: the contact force as the bound, the light-contact marker
/// and the `measure` marker.
pub fn lower_sense_probe(p: &SenseProbe, e: &Embodiment) -> (r: CanonicalAction)
    ensures
        r@ == spec_lower_sense_probe(*p, *e),
{
    let mut o: Vec<(String, JsonValue)> = Vec::new();
    assert(jv_entries(o@) =~= Seq::<(Seq<char>, JView)>::empty());
    obj_push(&mut o, "probe", jstr("light_contact"));
    push_measure(&mut o, &p.measure);
    let mut env = base_envelope(e);
    env.force_profile = Some(JsonValue::Object(o));
    CanonicalAction {
        target_frame: e.grasp_frame().to_owned(),
        target_pose: frame_relative(&p.target_pose),
        force_budget: Some(QuantityExpr::Given(p.contact_force.copy())),
        timing: timing(TimingMode::Strict),
        tactile_target: None,
        monitors: no_monitors(),
        safety_envelope: env,
        grasp_stability: None,
    }
}

/// `sense.verify`: the predicate is evaluated as a monitor.
pub open spec fn spec_lower_sense_verify(p: SenseVerify, e: Embodiment) -> ActionView {
    ActionView {
        target_frame: e.spec_sensor_frame(),
        target_pose: PoseView::Ref("predicate"@),
        force_budget: None,
        timing: spec_timing(TimingMode::Strict),
        tactile_target: None,
        monitors: seq![JView::Yaml(yv(p.predicate))],
        safety_envelope: spec_base_envelope(e),
        grasp_stability: None,
    }
}

/// Lower `sense.verify`.
pub fn lower_sense_verify(p: &SenseVerify, e: &Embodiment) -> (r: CanonicalAction)
    ensures
        r@ == spec_lower_sense_verify(*p, *e),
{
    CanonicalAction {
        target_frame: e.sensor_frame().to_owned(),
        target_pose: PoseExpr::Ref { reference: "predicate".to_owned() },
        force_budget: None,
        timing: timing(TimingMode::Strict),
        tactile_target: None,
        monitors: one_monitor(yaml_json(&p.predicate)),
        safety_envelope: base_envelope(e),
        grasp_stability: None,
    }
}

/// The estimation method of a weighing (default `auto`).
pub open spec fn spec_method(m: Option<String>) -> Seq<char> {
    match m {
        Some(s) => s@,
        None => "auto"@,
    }
}

/// `sense.weigh`: estimate the held object's mass.
pub open spec fn spec_lower_sense_weigh(p: SenseWeigh, e: Embodiment) -> ActionView {
    ActionView {
        target_frame: e.spec_grasp_frame(),
        target_pose: PoseView::Ref("held"@),
        force_budget: None,
        timing: spec_timing(TimingMode::Strict),
        tactile_target: None,
        monitors: seq![],
        safety_envelope: with_profile(
            spec_base_envelope(e),
            Some(
                JView::Obj(
                    spec_measure(seq![("method"@, JView::Str(spec_method(p.method)))], p.measure),
                ),
            ),
        ),
        grasp_stability: None,
    }
}

/// Lower `sense.weigh`: the method (default `auto`) and `measure` markers.
pub fn lower_sense_weigh(p: &SenseWeigh, e: &Embodiment) -> (r: CanonicalAction)
    ensures
        r@ == spec_lower_sense_weigh(*p, *e),
{
    let method = match &p.method {
        Some(s) => s.clone(),
        None => "auto".to_owned(),
    };
    let mut o: Vec<(String, JsonValue)> = Vec::new();
    assert(jv_entries(o@) =~= Seq::<(Seq<char>, JView)>::empty());
    obj_push(&mut o, "method", JsonValue::String(method));
    push_measure(&mut o, &p.measure);
    let mut env = base_envelope(e);
    env.force_profile = Some(JsonValue::Object(o));
    CanonicalAction {
        target_frame: e.grasp_frame().to_owned(),
        target_pose: PoseExpr::Ref { reference: "held".to_owned() },
        force_budget: None,
        timing: timing(TimingMode::Strict),
        tactile_target: None,
        monitors: no_monitors(),
        safety_envelope: env,
        grasp_stability: None,
    }
}

/// Locating uses the embodiment's sensor: the action's frame is the declared
/// default sensor frame (`sensor` when none is declared), whatever the grasp
/// frame, and it is the frame inspection uses too.
pub proof fn lemma_locate_uses_sensor_frame(p: SenseLocate, i: SenseInspect, e: Embodiment)
    ensures
        spec_lower_sense_locate(p, e).target_frame == match e.frames.role_defaults.sensor {
            Some(s) => s@,
            None => "sensor"@,
        },
        spec_lower_sense_locate(p, e).target_frame == spec_lower_sense_inspect(i, e).target_frame,
{
}

} // verus!
