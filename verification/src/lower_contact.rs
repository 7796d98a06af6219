//! Lowering of the force-controlled primitives: insert fit, push, pull, scrub,
//! press button, wipe, snap engage, cut, screw and unscrew.

use vstd::prelude::*;
use crate::canonical::{
    no_monitors, one_monitor, ActionView, CanonicalAction, PoseExpr, PoseView, TimingMode,
};
use crate::embodiment::Embodiment;
use crate::json::{
    as_bool, as_str, get, jstr, jv, jv_entries, obj_push, yaml_bool, yaml_get, yaml_json, yaml_str,
    yv, Derived, JView, JsonValue, YamlValue,
};
use crate::lowering::{
    axis_zero, base_envelope, compliance_str, direction_or, spec_axis_zero, spec_base_envelope,
    spec_direction_or, spec_timing, timing, with_compliance, with_profile, GraspContext,
};
use crate::quantity::{spec_parses, Quantity, QuantityExpr};
use crate::skill_isa::{
    ForceCut, ForceInsertFit, ForcePressButton, ForcePull, ForcePush, ForceScrew, ForceScrub,
    ForceSnapEngage, ForceUnscrew, ForceWipe,
};
use crate::text::str_eq;

verus! {

/// The insertion force: with an object held, the budget clamped to the grasp's
/// reaction capacity (`grip_force_max / k_reaction`) when the budget and
/// `grip_force_max` are quantities; else the budget.
pub open spec fn spec_insert_budget(p: ForceInsertFit, e: Embodiment, ctx: GraspContext) -> QuantityExpr {
    match (ctx.held, e.spec_scalar_limit("grip_force_max"@)) {
        (Some(h), Some(g)) => if spec_parses(p.force_budget@) && spec_parses(g@) {
            QuantityExpr::ReactionLimit { budget: p.force_budget, grip_max: g, mode: h.mode }
        } else {
            QuantityExpr::Given(p.force_budget)
        },
        _ => QuantityExpr::Given(p.force_budget),
    }
}

/// `force.insert_fit`.
pub open spec fn spec_lower_force_insert_fit(p: ForceInsertFit, e: Embodiment, ctx: GraspContext) -> ActionView {
    let b = spec_insert_budget(p, e, ctx);
    ActionView {
        target_frame: e.spec_grasp_frame(),
        target_pose: PoseView::Ref(p.target_fit@),
        force_budget: Some(b),
        timing: spec_timing(TimingMode::TimeScalable),
        tactile_target: None,
        monitors: seq![JView::Yaml(yv(p.stop_condition))],
        safety_envelope: with_compliance(
            with_profile(
                spec_base_envelope(e),
                Some(JView::Obj(seq![("axial"@, JView::Derived(Derived::Quantity(b)))])),
            ),
            p.compliance,
        ),
        grasp_stability: None,
    }
}

/// Lower `force.insert_fit`: the axial budget (clamped to the held grasp's
/// reaction capacity so the part does not slip before seating), the seating
/// stop condition as a monitor, the compliance mode and the axial profile.
pub fn lower_force_insert_fit(p: &ForceInsertFit, e: &Embodiment, ctx: &GraspContext) -> (r:
    CanonicalAction)
    ensures
        r@ == spec_lower_force_insert_fit(*p, *e, *ctx),
{
    let budget = match (&ctx.held, e.scalar_limit("grip_force_max")) {
        (Some(h), Some(g)) => if p.force_budget.parses() && g.parses() {
            QuantityExpr::ReactionLimit { budget: p.force_budget.copy(), grip_max: g.copy(), mode: h.mode }
        } else {
            QuantityExpr::Given(p.force_budget.copy())
        },
        _ => QuantityExpr::Given(p.force_budget.copy()),
    };
    let mut env = base_envelope(e);
    env.compliance = compliance_str(p.compliance);
    let mut o: Vec<(String, JsonValue)> = Vec::new();
    assert(jv_entries(o@) =~= Seq::<(Seq<char>, JView)>::empty());
    obj_push(&mut o, "axial", JsonValue::Derived(Derived::Quantity(budget.copy())));
    env.force_profile = Some(JsonValue::Object(o));
    CanonicalAction {
        target_frame: e.grasp_frame().to_owned(),
        target_pose: PoseExpr::Ref { reference: p.target_fit.clone() },
        force_budget: Some(budget),
        timing: timing(TimingMode::TimeScalable),
        tactile_target: None,
        monitors: one_monitor(yaml_json(&p.stop_condition)),
        safety_envelope: env,
        grasp_stability: None,
    }
}

/// `force.push`.
pub open spec fn spec_lower_force_push(p: ForcePush, e: Embodiment) -> ActionView {
    ActionView {
        target_frame: e.spec_grasp_frame(),
        target_pose: spec_axis_zero(spec_direction_or(p.push_direction, "-surface_normal"@)),
        force_budget: Some(QuantityExpr::Given(p.target_force)),
        timing: spec_timing(TimingMode::Strict),
        tactile_target: None,
        monitors: seq![],
        safety_envelope: with_compliance(
            with_profile(
                spec_base_envelope(e),
                Some(
                    JView::Obj(
                        seq![
                            ("push_against"@, JView::Str(p.target@)),
                            ("hold"@, JView::Bool(true)),
                        ],
                    ),
                ),
            ),
            p.compliance,
        ),
        grasp_stability: None,
    }
}

/// Lower `force.push`: hold `target_force` against the target along
/// `push_direction` (default into the surface).
pub fn lower_force_push(p: &ForcePush, e: &Embodiment) -> (r: CanonicalAction)
    ensures
        r@ == spec_lower_force_push(*p, *e),
{
    let mut env = base_envelope(e);
    env.compliance = compliance_str(p.compliance);
    let mut o: Vec<(String, JsonValue)> = Vec::new();
    assert(jv_entries(o@) =~= Seq::<(Seq<char>, JView)>::empty());
    obj_push(&mut o, "push_against", JsonValue::String(p.target.clone()));
    obj_push(&mut o, "hold", JsonValue::Bool(true));
    assert(jv_entries(o@) =~= seq![
        ("push_against"@, JView::Str(p.target@)),
        ("hold"@, JView::Bool(true)),
    ]);
    env.force_profile = Some(JsonValue::Object(o));
    CanonicalAction {
        target_frame: e.grasp_frame().to_owned(),
        target_pose: axis_zero(direction_or(&p.push_direction, "-surface_normal")),
        force_budget: Some(QuantityExpr::Given(p.target_force.copy())),
        timing: timing(TimingMode::Strict),
        tactile_target: None,
        monitors: no_monitors(),
        safety_envelope: env,
        grasp_stability: None,
    }
}

/// The breakaway response of a pull (default `arrest`).
pub open spec fn spec_breakaway(r: Option<String>) -> Seq<char> {
    match r {
        Some(s) => s@,
        None => "arrest"@,
    }
}

/// `force.pull`.
pub open spec fn spec_lower_force_pull(p: ForcePull, e: Embodiment) -> ActionView {
    ActionView {
        target_frame: e.spec_grasp_frame(),
        target_pose: spec_axis_zero(JView::Yaml(yv(p.pull_direction))),
        force_budget: Some(QuantityExpr::Given(p.force_budget)),
        timing: spec_timing(TimingMode::TimeScalable),
        tactile_target: None,
        monitors: seq![JView::Yaml(yv(p.stop_condition))],
        safety_envelope: with_compliance(
            with_profile(
                spec_base_envelope(e),
                Some(
                    JView::Obj(
                        seq![
                            ("breakaway_response"@, JView::Str(
                                spec_breakaway(p.breakaway_response),
                            )),
                        ],
                    ),
                ),
            ),
            p.compliance,
        ),
        grasp_stability: None,
    }
}

/// Lower `force.pull`: the tensile budget, the stop condition as a monitor and
/// the breakaway response (default `arrest`).
pub fn lower_force_pull(p: &ForcePull, e: &Embodiment) -> (r: CanonicalAction)
    ensures
        r@ == spec_lower_force_pull(*p, *e),
{
    let mut env = base_envelope(e);
    env.compliance = compliance_str(p.compliance);
    let resp = match &p.breakaway_response {
        Some(s) => s.clone(),
        None => "arrest".to_owned(),
    };
    let mut o: Vec<(String, JsonValue)> = Vec::new();
    assert(jv_entries(o@) =~= Seq::<(Seq<char>, JView)>::empty());
    obj_push(&mut o, "breakaway_response", JsonValue::String(resp));
    env.force_profile = Some(JsonValue::Object(o));
    CanonicalAction {
        target_frame: e.grasp_frame().to_owned(),
        target_pose: axis_zero(yaml_json(&p.pull_direction)),
        force_budget: Some(QuantityExpr::Given(p.force_budget.copy())),
        timing: timing(TimingMode::TimeScalable),
        tactile_target: None,
        monitors: one_monitor(yaml_json(&p.stop_condition)),
        safety_envelope: env,
        grasp_stability: None,
    }
}

/// `force.scrub`.
pub open spec fn spec_lower_force_scrub(p: ForceScrub, e: Embodiment) -> ActionView {
    ActionView {
        target_frame: e.spec_grasp_frame(),
        target_pose: PoseView::FrameRelative(
            p.surface@,
            JView::Obj(seq![("tangential"@, JView::Str("oscillation"@))]),
        ),
        force_budget: None,
        timing: spec_timing(TimingMode::TimeScalable),
        tactile_target: None,
        monitors: seq![JView::Yaml(yv(p.completion))],
        safety_envelope: with_compliance(
            with_profile(
                spec_base_envelope(e),
                Some(
                    JView::Obj(
                        seq![
                            ("normal_force"@, JView::Str(p.normal_force@)),
                            ("amplitude"@, JView::Str(p.amplitude@)),
                            ("oscillating"@, JView::Bool(true)),
                        ],
                    ),
                ),
            ),
            p.compliance,
        ),
        grasp_stability: None,
    }
}

/// Lower `force.scrub`: the normal-force setpoint, the oscillation amplitude and
/// the completion as a monitor.
pub fn lower_force_scrub(p: &ForceScrub, e: &Embodiment) -> (r: CanonicalAction)
    ensures
        r@ == spec_lower_force_scrub(*p, *e),
{
    let mut env = base_envelope(e);
    env.compliance = compliance_str(p.compliance);
    let mut o: Vec<(String, JsonValue)> = Vec::new();
    assert(jv_entries(o@) =~= Seq::<(Seq<char>, JView)>::empty());
    obj_push(&mut o, "normal_force", JsonValue::String(p.normal_force.0.clone()));
    obj_push(&mut o, "amplitude", JsonValue::String(p.amplitude.0.clone()));
    obj_push(&mut o, "oscillating", JsonValue::Bool(true));
    assert(jv_entries(o@) =~= seq![
        ("normal_force"@, JView::Str(p.normal_force@)),
        ("amplitude"@, JView::Str(p.amplitude@)),
        ("oscillating"@, JView::Bool(true)),
    ]);
    env.force_profile = Some(JsonValue::Object(o));
    let mut off: Vec<(String, JsonValue)> = Vec::new();
    assert(jv_entries(off@) =~= Seq::<(Seq<char>, JView)>::empty());
    obj_push(&mut off, "tangential", jstr("oscillation"));
    CanonicalAction {
        target_frame: e.grasp_frame().to_owned(),
        target_pose: PoseExpr::FrameRelative { frame: p.surface.clone(), offset: JsonValue::Object(off) },
        force_budget: None,
        timing: timing(TimingMode::TimeScalable),
        tactile_target: None,
        monitors: one_monitor(yaml_json(&p.completion)),
        safety_envelope: env,
        grasp_stability: None,
    }
}

/// Whether an actuation spec is the detent mode: the string `detent` or a
/// mapping with a `detent` key.
pub open spec fn spec_is_detent(v: YamlValue) -> bool {
    yaml_str(v) == Some("detent"@) || yaml_get(v, "detent"@) is Some
}

/// Whether an actuation spec is the detent mode.
pub fn actuation_is_detent(v: &YamlValue) -> (r: bool)
    ensures
        r == spec_is_detent(*v),
{
    proof {
        reveal_strlit("detent");
    }
    let s = match as_str(v) {
        Some(t) => str_eq(t.as_str(), "detent"),
        None => false,
    };
    s || get(v, "detent").is_some()
}

/// The detent marker profile.
pub open spec fn spec_detent_profile() -> JView {
    JView::Obj(seq![("actuation"@, JView::Str("detent"@))])
}

/// `force.press_button`.
pub open spec fn spec_lower_force_press_button(p: ForcePressButton, e: Embodiment) -> ActionView {
    ActionView {
        target_frame: e.spec_control_frame(),
        target_pose: PoseView::Ref(p.target@),
        force_budget: Some(QuantityExpr::Given(p.force_budget)),
        timing: spec_timing(TimingMode::TimeScalable),
        tactile_target: None,
        monitors: seq![JView::Yaml(yv(p.actuation))],
        safety_envelope: with_compliance(
            with_profile(
                spec_base_envelope(e),
                if spec_is_detent(p.actuation) {
                    Some(spec_detent_profile())
                } else {
                    None
                },
            ),
            p.compliance,
        ),
        grasp_stability: None,
    }
}

fn detent_profile() -> (r: JsonValue)
    ensures
        jv(r) == spec_detent_profile(),
{
    let mut o: Vec<(String, JsonValue)> = Vec::new();
    assert(jv_entries(o@) =~= Seq::<(Seq<char>, JView)>::empty());
    obj_push(&mut o, "actuation", jstr("detent"));
    JsonValue::Object(o)
}

/// Lower `force.press_button`: the press-force budget, the actuation as a
/// monitor, and the detent marker when the actuation is the detent mode.
pub fn lower_force_press_button(p: &ForcePressButton, e: &Embodiment) -> (r: CanonicalAction)
    ensures
        r@ == spec_lower_force_press_button(*p, *e),
{
    let mut env = base_envelope(e);
    env.compliance = compliance_str(p.compliance);
    if actuation_is_detent(&p.actuation) {
        env.force_profile = Some(detent_profile());
    }
    CanonicalAction {
        target_frame: e.control_frame().to_owned(),
        target_pose: PoseExpr::Ref { reference: p.target.clone() },
        force_budget: Some(QuantityExpr::Given(p.force_budget.copy())),
        timing: timing(TimingMode::TimeScalable),
        tactile_target: None,
        monitors: one_monitor(yaml_json(&p.actuation)),
        safety_envelope: env,
        grasp_stability: None,
    }
}

/// The explicit normal-force tolerance of a wipe: a string other than `auto`.
pub open spec fn spec_wipe_tolerance(p: ForceWipe) -> Option<Seq<char>> {
    match p.normal_force_tolerance {
        Some(v) => match yaml_str(v) {
            Some(s) => if s != "auto"@ {
                Some(s)
            } else {
                None
            },
            None => None,
        },
        None => None,
    }
}

/// `force.wipe`.
pub open spec fn spec_lower_force_wipe(p: ForceWipe, e: Embodiment) -> ActionView {
    ActionView {
        target_frame: e.spec_control_frame(),
        target_pose: PoseView::Ref(p.surface@),
        force_budget: None,
        timing: spec_timing(TimingMode::TimeScalable),
        tactile_target: None,
        monitors: seq![],
        safety_envelope: with_compliance(
            with_profile(
                spec_base_envelope(e),
                match spec_wipe_tolerance(p) {
                    Some(t) => Some(
                        JView::Obj(
                            seq![
                                ("normal_force"@, JView::Str(p.normal_force@)),
                                ("normal_force_tolerance"@, JView::Str(t)),
                            ],
                        ),
                    ),
                    None => None,
                },
            ),
            p.compliance,
        ),
        grasp_stability: None,
    }
}

/// Lower `force.wipe`: with an explicit normal-force tolerance, the two-sided
/// normal-force band in the force profile; an `auto` tolerance emits no band.
pub fn lower_force_wipe(p: &ForceWipe, e: &Embodiment) -> (r: CanonicalAction)
    ensures
        r@ == spec_lower_force_wipe(*p, *e),
{
    let mut env = base_envelope(e);
    env.compliance = compliance_str(p.compliance);
    proof {
        reveal_strlit("auto");
    }
    let tol: Option<&String> = match &p.normal_force_tolerance {
        Some(v) => match as_str(v) {
            Some(s) => if !str_eq(s.as_str(), "auto") {
                Some(s)
            } else {
                None
            },
            None => None,
        },
        None => None,
    };
    if let Some(t) = tol {
        let mut o: Vec<(String, JsonValue)> = Vec::new();
        assert(jv_entries(o@) =~= Seq::<(Seq<char>, JView)>::empty());
        obj_push(&mut o, "normal_force", JsonValue::String(p.normal_force.0.clone()));
        obj_push(&mut o, "normal_force_tolerance", JsonValue::String(t.clone()));
        assert(jv_entries(o@) =~= seq![
            ("normal_force"@, JView::Str(p.normal_force@)),
            ("normal_force_tolerance"@, JView::Str(t@)),
        ]);
        env.force_profile = Some(JsonValue::Object(o));
    }
    CanonicalAction {
        target_frame: e.control_frame().to_owned(),
        target_pose: PoseExpr::Ref { reference: p.surface.clone() },
        force_budget: None,
        timing: timing(TimingMode::TimeScalable),
        tactile_target: None,
        monitors: no_monitors(),
        safety_envelope: env,
        grasp_stability: None,
    }
}

/// Whether a snap engagement is detent-signalled (the default).
pub open spec fn spec_snap_detent(p: ForceSnapEngage) -> bool {
    match p.snap_signature {
        Some(v) => spec_is_detent(v),
        None => true,
    }
}

/// Whether a snap engagement confirms the connection holds (default true).
pub open spec fn spec_snap_confirm(p: ForceSnapEngage) -> bool {
    p.confirm_held != Some(false)
}

/// The force profile of a snap engagement: the detent marker and the hold
/// confirmation, each when it applies; none when neither does.
pub open spec fn spec_snap_profile(p: ForceSnapEngage) -> Option<JView> {
    let a = if spec_snap_detent(p) {
        seq![("actuation"@, JView::Str("detent"@))]
    } else {
        seq![]
    };
    let b = if spec_snap_confirm(p) {
        a.push(("confirm_held"@, JView::Bool(true)))
    } else {
        a
    };
    if spec_snap_detent(p) || spec_snap_confirm(p) {
        Some(JView::Obj(b))
    } else {
        None
    }
}

/// `force.snap_engage`.
pub open spec fn spec_lower_force_snap_engage(p: ForceSnapEngage, e: Embodiment) -> ActionView {
    ActionView {
        target_frame: e.spec_grasp_frame(),
        target_pose: spec_axis_zero(JView::Yaml(yv(p.engage_direction))),
        force_budget: Some(QuantityExpr::Given(p.force_budget)),
        timing: spec_timing(TimingMode::TimeScalable),
        tactile_target: None,
        monitors: seq![
            match p.snap_signature {
                Some(v) => JView::Yaml(yv(v)),
                None => JView::Str("detent"@),
            },
        ],
        safety_envelope: with_compliance(
            with_profile(spec_base_envelope(e), spec_snap_profile(p)),
            p.compliance,
        ),
        grasp_stability: None,
    }
}

/// Lower `force.snap_engage`: the engagement-force budget, the snap signature
/// (default `detent`) as a monitor, the detent marker and the hold confirmation
/// (default on) in the force profile.
pub fn lower_force_snap_engage(p: &ForceSnapEngage, e: &Embodiment) -> (r: CanonicalAction)
    ensures
        r@ == spec_lower_force_snap_engage(*p, *e),
{
    let is_detent = match &p.snap_signature {
        Some(v) => actuation_is_detent(v),
        None => true,
    };
    let do_confirm = match p.confirm_held {
        Some(false) => false,
        _ => true,
    };
    let mut env = base_envelope(e);
    env.compliance = compliance_str(p.compliance);
    if is_detent || do_confirm {
        let mut o: Vec<(String, JsonValue)> = Vec::new();
        assert(jv_entries(o@) =~= Seq::<(Seq<char>, JView)>::empty());
        if is_detent {
            obj_push(&mut o, "actuation", jstr("detent"));
        }
        if do_confirm {
            obj_push(&mut o, "confirm_held", JsonValue::Bool(true));
        }
        env.force_profile = Some(JsonValue::Object(o));
    }
    let sig = match &p.snap_signature {
        Some(v) => yaml_json(v),
        None => jstr("detent"),
    };
    CanonicalAction {
        target_frame: e.grasp_frame().to_owned(),
        target_pose: axis_zero(yaml_json(&p.engage_direction)),
        force_budget: Some(QuantityExpr::Given(p.force_budget.copy())),
        timing: timing(TimingMode::TimeScalable),
        tactile_target: None,
        monitors: one_monitor(sig),
        safety_envelope: env,
        grasp_stability: None,
    }
}

/// `force.cut`.
pub open spec fn spec_lower_force_cut(p: ForceCut, e: Embodiment) -> ActionView {
    ActionView {
        target_frame: e.spec_grasp_frame(),
        target_pose: PoseView::FrameRelative("task"@, JView::Yaml(yv(p.cut_path))),
        force_budget: Some(QuantityExpr::Given(p.shear_force_budget)),
        timing: spec_timing(TimingMode::TimeScalable),
        tactile_target: None,
        monitors: seq![JView::Yaml(yv(p.completion))],
        safety_envelope: with_compliance(
            with_profile(
                spec_base_envelope(e),
                Some(JView::Obj(seq![("irreversible"@, JView::Bool(true))])),
            ),
            p.compliance,
        ),
        grasp_stability: None,
    }
}

/// Lower `force.cut`: the shear budget, the completion as a monitor and the
/// irreversible marker; the cut path is carried as the offset in frame `task`.
pub fn lower_force_cut(p: &ForceCut, e: &Embodiment) -> (r: CanonicalAction)
    ensures
        r@ == spec_lower_force_cut(*p, *e),
{
    let mut env = base_envelope(e);
    env.compliance = compliance_str(p.compliance);
    let mut o: Vec<(String, JsonValue)> = Vec::new();
    assert(jv_entries(o@) =~= Seq::<(Seq<char>, JView)>::empty());
    obj_push(&mut o, "irreversible", JsonValue::Bool(true));
    env.force_profile = Some(JsonValue::Object(o));
    CanonicalAction {
        target_frame: e.grasp_frame().to_owned(),
        target_pose: PoseExpr::FrameRelative { frame: "task".to_owned(), offset: yaml_json(&p.cut_path) },
        force_budget: Some(QuantityExpr::Given(p.shear_force_budget.copy())),
        timing: timing(TimingMode::TimeScalable),
        tactile_target: None,
        monitors: one_monitor(yaml_json(&p.completion)),
        safety_envelope: env,
        grasp_stability: None,
    }
}

/// Whether a held tool transmits the torque: `tool_mediated` is given and is
/// not `false`.
pub open spec fn spec_tool_mediated(tm: Option<YamlValue>) -> bool {
    match tm {
        Some(v) => yaml_bool(v) != Some(false),
        None => false,
    }
}

/// The torque of a (un)screw: through a held tool, the budget clamped to the
/// tool grasp's rotational holding capacity when the budget and
/// `grip_force_max` are quantities; else the budget.
pub open spec fn spec_screw_torque(
    budget: Quantity,
    tm: Option<YamlValue>,
    e: Embodiment,
    ctx: GraspContext,
) -> QuantityExpr {
    match (ctx.held, e.spec_scalar_limit("grip_force_max"@)) {
        (Some(h), Some(g)) => if spec_tool_mediated(tm) && spec_parses(budget@) && spec_parses(g@) {
            QuantityExpr::ReactionTorqueLimit { budget, grip_max: g, mode: h.mode }
        } else {
            QuantityExpr::Given(budget)
        },
        _ => QuantityExpr::Given(budget),
    }
}

fn screw_torque(budget: &Quantity, tm: &Option<YamlValue>, e: &Embodiment, ctx: &GraspContext) -> (r:
    QuantityExpr)
    ensures
        r == spec_screw_torque(*budget, *tm, *e, *ctx),
{
    let mediated = match tm {
        Some(v) => match as_bool(v) {
            Some(false) => false,
            _ => true,
        },
        None => false,
    };
    match (&ctx.held, e.scalar_limit("grip_force_max")) {
        (Some(h), Some(g)) => if mediated && budget.parses() && g.parses() {
            QuantityExpr::ReactionTorqueLimit { budget: budget.copy(), grip_max: g.copy(), mode: h.mode }
        } else {
            QuantityExpr::Given(budget.copy())
        },
        _ => QuantityExpr::Given(budget.copy()),
    }
}

/// The optional tail of a (un)screw profile: the thread coupling and the
/// tool-mediation flag, each when given.
pub open spec fn spec_screw_tail(
    head: Seq<(Seq<char>, JView)>,
    pitch: Option<Quantity>,
    tm: Option<YamlValue>,
) -> Seq<(Seq<char>, JView)> {
    let a = match pitch {
        Some(tp) => head.push(
            ("coupling"@, JView::Obj(seq![("advance_per_turn"@, JView::Str(tp@))])),
        ),
        None => head,
    };
    match tm {
        Some(v) => a.push(("tool_mediated"@, JView::Yaml(yv(v)))),
        None => a,
    }
}

fn push_screw_tail(o: &mut Vec<(String, JsonValue)>, pitch: &Option<Quantity>, tm: &Option<YamlValue>)
    ensures
        jv_entries(final(o)@) == spec_screw_tail(jv_entries(old(o)@), *pitch, *tm),
{
    if let Some(tp) = pitch {
        let mut c: Vec<(String, JsonValue)> = Vec::new();
        assert(jv_entries(c@) =~= Seq::<(Seq<char>, JView)>::empty());
        obj_push(&mut c, "advance_per_turn", JsonValue::String(tp.0.clone()));
        obj_push(o, "coupling", JsonValue::Object(c));
    }
    if let Some(v) = tm {
        obj_push(o, "tool_mediated", yaml_json(v));
    }
}

/// `force.screw`.
pub open spec fn spec_lower_force_screw(p: ForceScrew, e: Embodiment, ctx: GraspContext) -> ActionView {
    let t = spec_screw_torque(p.torque_budget, p.tool_mediated, e, ctx);
    ActionView {
        target_frame: e.spec_grasp_frame(),
        target_pose: spec_axis_zero(JView::Yaml(yv(p.thread_axis))),
        force_budget: None,
        timing: spec_timing(TimingMode::TimeScalable),
        tactile_target: None,
        monitors: seq![JView::Yaml(yv(p.completion))],
        safety_envelope: with_compliance(
            with_profile(
                spec_base_envelope(e),
                Some(
                    JView::Obj(
                        spec_screw_tail(
                            seq![("torque"@, JView::Derived(Derived::Quantity(t)))],
                            p.thread_pitch,
                            p.tool_mediated,
                        ),
                    ),
                ),
            ),
            p.compliance,
        ),
        grasp_stability: None,
    }
}

/// Lower `force.screw`: the torque (clamped to the held tool grasp's rotational
/// capacity when tool-mediated), the thread coupling and tool-mediation flag in
/// the force profile, and the completion as a monitor.
pub fn lower_force_screw(p: &ForceScrew, e: &Embodiment, ctx: &GraspContext) -> (r: CanonicalAction)
    ensures
        r@ == spec_lower_force_screw(*p, *e, *ctx),
{
    let mut env = base_envelope(e);
    env.compliance = compliance_str(p.compliance);
    let t = screw_torque(&p.torque_budget, &p.tool_mediated, e, ctx);
    let mut o: Vec<(String, JsonValue)> = Vec::new();
    assert(jv_entries(o@) =~= Seq::<(Seq<char>, JView)>::empty());
    obj_push(&mut o, "torque", JsonValue::Derived(Derived::Quantity(t)));
    push_screw_tail(&mut o, &p.thread_pitch, &p.tool_mediated);
    env.force_profile = Some(JsonValue::Object(o));
    CanonicalAction {
        target_frame: e.grasp_frame().to_owned(),
        target_pose: axis_zero(yaml_json(&p.thread_axis)),
        force_budget: None,
        timing: timing(TimingMode::TimeScalable),
        tactile_target: None,
        monitors: one_monitor(yaml_json(&p.completion)),
        safety_envelope: env,
        grasp_stability: None,
    }
}

/// The completion of an unscrew: the authored one, else disengagement.
pub open spec fn spec_unscrew_stop(c: Option<YamlValue>) -> JView {
    match c {
        Some(v) => JView::Yaml(yv(v)),
        None => JView::Obj(seq![("disengagement"@, JView::Bool(true))]),
    }
}

/// `force.unscrew`.
pub open spec fn spec_lower_force_unscrew(p: ForceUnscrew, e: Embodiment, ctx: GraspContext) -> ActionView {
    let t = spec_screw_torque(p.torque_budget, p.tool_mediated, e, ctx);
    ActionView {
        target_frame: e.spec_grasp_frame(),
        target_pose: spec_axis_zero(JView::Yaml(yv(p.thread_axis))),
        force_budget: None,
        timing: spec_timing(TimingMode::TimeScalable),
        tactile_target: None,
        monitors: seq![spec_unscrew_stop(p.completion)],
        safety_envelope: with_compliance(
            with_profile(
                spec_base_envelope(e),
                Some(
                    JView::Obj(
                        spec_screw_tail(
                            seq![
                                ("torque"@, JView::Derived(Derived::Quantity(t))),
                                ("rotation_sense"@, JView::Str("loosen"@)),
                                ("on_disengagement"@, spec_direction_or(
                                    p.on_disengagement,
                                    "retain"@,
                                )),
                            ],
                            p.thread_pitch,
                            p.tool_mediated,
                        ),
                    ),
                ),
            ),
            p.compliance,
        ),
        grasp_stability: None,
    }
}

/// Lower `force.unscrew`: as a screw in the loosening sense, with the
/// freed-fastener disposition (default `retain`) and a disengagement completion
/// when none is authored.
pub fn lower_force_unscrew(p: &ForceUnscrew, e: &Embodiment, ctx: &GraspContext) -> (r:
    CanonicalAction)
    ensures
        r@ == spec_lower_force_unscrew(*p, *e, *ctx),
{
    let stop = match &p.completion {
        Some(c) => yaml_json(c),
        None => {
            let mut d: Vec<(String, JsonValue)> = Vec::new();
            assert(jv_entries(d@) =~= Seq::<(Seq<char>, JView)>::empty());
            obj_push(&mut d, "disengagement", JsonValue::Bool(true));
            JsonValue::Object(d)
        },
    };
    let mut env = base_envelope(e);
    env.compliance = compliance_str(p.compliance);
    let t = screw_torque(&p.torque_budget, &p.tool_mediated, e, ctx);
    let mut o: Vec<(String, JsonValue)> = Vec::new();
    assert(jv_entries(o@) =~= Seq::<(Seq<char>, JView)>::empty());
    obj_push(&mut o, "torque", JsonValue::Derived(Derived::Quantity(t)));
    obj_push(&mut o, "rotation_sense", jstr("loosen"));
    obj_push(&mut o, "on_disengagement", direction_or(&p.on_disengagement, "retain"));
    proof {
        let t0 = spec_screw_torque(p.torque_budget, p.tool_mediated, *e, *ctx);
        assert(jv_entries(o@) =~= seq![
            ("torque"@, JView::Derived(Derived::Quantity(t0))),
            ("rotation_sense"@, JView::Str("loosen"@)),
            ("on_disengagement"@, spec_direction_or(p.on_disengagement, "retain"@)),
        ]);
    }
    push_screw_tail(&mut o, &p.thread_pitch, &p.tool_mediated);
    env.force_profile = Some(JsonValue::Object(o));
    CanonicalAction {
        target_frame: e.grasp_frame().to_owned(),
        target_pose: axis_zero(yaml_json(&p.thread_axis)),
        force_budget: None,
        timing: timing(TimingMode::TimeScalable),
        tactile_target: None,
        monitors: one_monitor(stop),
        safety_envelope: env,
        grasp_stability: None,
    }
}

} // verus!
