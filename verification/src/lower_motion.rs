//! Lowering of the motion primitives: the transports (move to pose, lift,
//! lower, follow a trajectory, carry) and the reaches (align, hover, to pose,
//! approach, retract, scan).

use vstd::prelude::*;
use crate::canonical::{
    no_monitors, ActionView, AlignSpec, CanonicalAction, Envelope, EnvelopeView, MotionBounds,
    PoseExpr, PoseView, SurfaceSweep, SweepExpr, SweepView, TimingMode,
};
use crate::embodiment::{keyed_get, Embodiment};
use crate::grasp_force::spec_payload_key;
use crate::json::{
    converts_to_object, get, jstr, jv_entries, obj_push, yaml_converts, yaml_get, yaml_json, yaml_str,
    yv, as_str, Derived, JView, JsonValue, YamlValue,
};
use crate::lowering::{
    base_envelope, copy_opt, direction_or, floor_entries, frame_relative, holding_floor,
    spec_base_envelope, spec_direction_or, spec_floor, spec_floor_entries, spec_frame_relative,
    spec_timing, timing, with_profile, GraspContext,
};
use crate::quantity::{spec_parses, F64Bits, MarginExpr, Quantity, QuantityExpr};
use crate::region::{ScanRegion, WaypointPose};
use crate::skill_isa::{
    Axes, Axis, DisturbanceArg, ReachAlign, ReachApproach, ReachHover, ReachRetract, ReachScan,
    ReachToPose, ScanPattern, StabilityMarginArg, TransportCarry, TransportFollowTrajectory,
    TransportLift, TransportLower, TransportMoveToPose,
};
use crate::text::str_eq;

verus! {

/// A kinematic ceiling tightened for the held object: the dynamic-stability
/// limit of its weight under the mode's rated payload, when the payload and
/// the ceiling are quantities.
pub open spec fn spec_held_a_max(env: EnvelopeView, ctx: GraspContext, e: Embodiment) -> Option<
    QuantityExpr,
> {
    match ctx.held {
        Some(h) => match (e.spec_scalar_limit(spec_payload_key(h.mode)), e.spec_scalar_limit(
            "a_cartesian_max"@,
        )) {
            (Some(pl), Some(c)) => if spec_parses(pl@) && spec_parses(c@) {
                Some(
                    QuantityExpr::TransportAccel {
                        weight: h.weight,
                        mode: h.mode,
                        payload: pl,
                        ceiling: c,
                    },
                )
            } else {
                env.motion_bounds.a_max
            },
            _ => env.motion_bounds.a_max,
        },
        None => env.motion_bounds.a_max,
    }
}

/// The held-transport bounds: with an object held, the continuity floor in the
/// force profile and the acceleration cap tightened to its dynamic-stability limit.
pub open spec fn spec_held_transport_env(env: EnvelopeView, ctx: GraspContext, e: Embodiment) -> EnvelopeView {
    match ctx.held {
        Some(_) => EnvelopeView {
            force_profile: Some(JView::Obj(spec_floor_entries(ctx))),
            motion_bounds: MotionBounds { a_max: spec_held_a_max(env, ctx, e), ..env.motion_bounds },
            ..env
        },
        None => env,
    }
}

/// Apply the held-transport continuity floor and the dynamic-stability
/// acceleration clamp of the held object, if any.
pub fn apply_held_transport_bounds(env: &mut Envelope, ctx: &GraspContext, e: &Embodiment)
    ensures
        final(env)@ == spec_held_transport_env(old(env)@, *ctx, *e),
{
    if let Some(h) = &ctx.held {
        env.force_profile = Some(JsonValue::Object(floor_entries(ctx)));
        let payload = e.scalar_limit(h.mode.payload_key());
        let ceiling = e.scalar_limit("a_cartesian_max");
        if let (Some(pl), Some(c)) = (payload, ceiling) {
            if pl.parses() && c.parses() {
                env.motion_bounds.a_max = Some(
                    QuantityExpr::TransportAccel {
                        weight: h.weight.copy(),
                        mode: h.mode,
                        payload: pl.copy(),
                        ceiling: c.copy(),
                    },
                );
            }
        }
    }
}

/// `transport.move_to_pose`: a frame-relative target with the held-transport bounds.
pub open spec fn spec_lower_transport_move_to_pose(
    p: TransportMoveToPose,
    e: Embodiment,
    ctx: GraspContext,
) -> ActionView {
    ActionView {
        target_frame: e.spec_grasp_frame(),
        target_pose: spec_frame_relative(p.target_pose),
        force_budget: None,
        timing: spec_timing(TimingMode::TimeScalable),
        tactile_target: None,
        monitors: seq![],
        safety_envelope: spec_held_transport_env(spec_base_envelope(e), ctx, e),
        grasp_stability: None,
    }
}

/// Lower `transport.move_to_pose`.
pub fn lower_transport_move_to_pose(p: &TransportMoveToPose, e: &Embodiment, ctx: &GraspContext) -> (r:
    CanonicalAction)
    ensures
        r@ == spec_lower_transport_move_to_pose(*p, *e, *ctx),
{
    let mut env = base_envelope(e);
    apply_held_transport_bounds(&mut env, ctx, e);
    CanonicalAction {
        target_frame: e.grasp_frame().to_owned(),
        target_pose: frame_relative(&p.target_pose),
        force_budget: None,
        timing: timing(TimingMode::TimeScalable),
        tactile_target: None,
        monitors: no_monitors(),
        safety_envelope: env,
        grasp_stability: None,
    }
}

/// `transport.lift`: raise along `up_direction` (default `-gravity`) by `height`.
pub open spec fn spec_lower_transport_lift(p: TransportLift, e: Embodiment, ctx: GraspContext) -> ActionView {
    ActionView {
        target_frame: e.spec_grasp_frame(),
        target_pose: PoseView::AxisRelative(
            spec_direction_or(p.up_direction, "-gravity"@),
            p.height@,
        ),
        force_budget: None,
        timing: spec_timing(TimingMode::TimeScalable),
        tactile_target: None,
        monitors: seq![],
        safety_envelope: spec_held_transport_env(spec_base_envelope(e), ctx, e),
        grasp_stability: None,
    }
}

/// Lower `transport.lift`.
pub fn lower_transport_lift(p: &TransportLift, e: &Embodiment, ctx: &GraspContext) -> (r:
    CanonicalAction)
    ensures
        r@ == spec_lower_transport_lift(*p, *e, *ctx),
{
    let mut env = base_envelope(e);
    apply_held_transport_bounds(&mut env, ctx, e);
    CanonicalAction {
        target_frame: e.grasp_frame().to_owned(),
        target_pose: PoseExpr::AxisRelative {
            direction: direction_or(&p.up_direction, "-gravity"),
            distance: p.height.copy(),
        },
        force_budget: None,
        timing: timing(TimingMode::TimeScalable),
        tactile_target: None,
        monitors: no_monitors(),
        safety_envelope: env,
        grasp_stability: None,
    }
}

/// The distance of a lowering: the explicit height, else `0 mm` (until touchdown).
pub open spec fn spec_height_or_zero(h: Option<Quantity>) -> Seq<char> {
    match h {
        Some(q) => q@,
        None => "0 mm"@,
    }
}

/// `transport.lower`: lower along `down_direction` (default `gravity`).
pub open spec fn spec_lower_transport_lower(p: TransportLower, e: Embodiment, ctx: GraspContext) -> ActionView {
    ActionView {
        target_frame: e.spec_grasp_frame(),
        target_pose: PoseView::AxisRelative(
            spec_direction_or(p.down_direction, "gravity"@),
            spec_height_or_zero(p.height),
        ),
        force_budget: None,
        timing: spec_timing(TimingMode::TimeScalable),
        tactile_target: None,
        monitors: seq![],
        safety_envelope: spec_held_transport_env(spec_base_envelope(e), ctx, e),
        grasp_stability: None,
    }
}

/// Lower `transport.lower`.
pub fn lower_transport_lower(p: &TransportLower, e: &Embodiment, ctx: &GraspContext) -> (r:
    CanonicalAction)
    ensures
        r@ == spec_lower_transport_lower(*p, *e, *ctx),
{
    let mut env = base_envelope(e);
    apply_held_transport_bounds(&mut env, ctx, e);
    let distance = match &p.height {
        Some(q) => q.copy(),
        None => Quantity("0 mm".to_owned()),
    };
    CanonicalAction {
        target_frame: e.grasp_frame().to_owned(),
        target_pose: PoseExpr::AxisRelative {
            direction: direction_or(&p.down_direction, "gravity"),
            distance,
        },
        force_budget: None,
        timing: timing(TimingMode::TimeScalable),
        tactile_target: None,
        monitors: no_monitors(),
        safety_envelope: env,
        grasp_stability: None,
    }
}

/// Whether a timing-mode name is `strict`.
pub open spec fn spec_is_strict(m: Option<String>) -> bool {
    match m {
        Some(s) => s@ == "strict"@,
        None => false,
    }
}

/// `transport.follow_trajectory`: the trajectory carried as the offset in frame
/// `task`; time-scalable unless `strict` is asked for.
pub open spec fn spec_lower_transport_follow_trajectory(
    p: TransportFollowTrajectory,
    e: Embodiment,
    ctx: GraspContext,
) -> ActionView {
    ActionView {
        target_frame: e.spec_grasp_frame(),
        target_pose: PoseView::FrameRelative("task"@, JView::Yaml(yv(p.trajectory))),
        force_budget: None,
        timing: spec_timing(
            if spec_is_strict(p.timing_mode) {
                TimingMode::Strict
            } else {
                TimingMode::TimeScalable
            },
        ),
        tactile_target: None,
        monitors: seq![],
        safety_envelope: spec_held_transport_env(spec_base_envelope(e), ctx, e),
        grasp_stability: None,
    }
}

/// Lower `transport.follow_trajectory`.
pub fn lower_transport_follow_trajectory(
    p: &TransportFollowTrajectory,
    e: &Embodiment,
    ctx: &GraspContext,
) -> (r: CanonicalAction)
    ensures
        r@ == spec_lower_transport_follow_trajectory(*p, *e, *ctx),
{
    let mut env = base_envelope(e);
    apply_held_transport_bounds(&mut env, ctx, e);
    proof {
        reveal_strlit("strict");
    }
    let strict = match &p.timing_mode {
        Some(s) => str_eq(s.as_str(), "strict"),
        None => false,
    };
    CanonicalAction {
        target_frame: e.grasp_frame().to_owned(),
        target_pose: PoseExpr::FrameRelative { frame: "task".to_owned(), offset: yaml_json(&p.trajectory) },
        force_budget: None,
        timing: timing(
            if strict {
                TimingMode::Strict
            } else {
                TimingMode::TimeScalable
            },
        ),
        tactile_target: None,
        monitors: no_monitors(),
        safety_envelope: env,
        grasp_stability: None,
    }
}

/// The target of a carry: the `to_pose` of its motion as a frame-relative pose
/// when it converts to a JSON object; otherwise the whole motion as the offset
/// in frame `task`.
pub open spec fn spec_carry_pose(motion: YamlValue) -> PoseView {
    match yaml_get(motion, "to_pose"@) {
        Some(tp) => if converts_to_object(tp) {
            spec_frame_relative(tp)
        } else {
            PoseView::FrameRelative("task"@, JView::Yaml(yv(motion)))
        },
        None => PoseView::FrameRelative("task"@, JView::Yaml(yv(motion))),
    }
}

/// The explicit disturbance budget of a carry, when it is a quantity.
pub open spec fn spec_disturbance(p: TransportCarry) -> Option<Quantity> {
    match p.disturbance_budget {
        Some(DisturbanceArg::Force(q)) => if spec_parses(q@) {
            Some(q)
        } else {
            None
        },
        _ => None,
    }
}

/// The stability margin of a carry: the explicit ratio, else the descriptor's
/// `stability_margin` number, else zero.
pub open spec fn spec_margin(p: TransportCarry, e: Embodiment) -> MarginExpr {
    match p.stability_margin {
        Some(StabilityMarginArg::Ratio(m)) => MarginExpr::Explicit(m),
        _ => match e.spec_ratio_limit("stability_margin"@) {
            Some(n) => MarginExpr::Limit(n),
            None => MarginExpr::Zero,
        },
    }
}

/// The envelope of a carry: with an object held, the continuity floor, the
/// disturbance budget and the stability margin in the force profile, and the
/// acceleration cap tightened to the carry limit.
pub open spec fn spec_carry_env(p: TransportCarry, e: Embodiment, ctx: GraspContext) -> EnvelopeView {
    let env = spec_base_envelope(e);
    match ctx.held {
        Some(h) => {
            let d = spec_disturbance(p);
            let m = spec_margin(p, e);
            let fp = JView::Obj(
                seq![
                    ("min_holding_force"@, JView::Derived(Derived::Quantity(spec_floor(h)))),
                    ("disturbance_budget"@, JView::Derived(
                        Derived::Quantity(QuantityExpr::DisturbanceNewtons { disturbance: d }),
                    )),
                    ("stability_margin"@, JView::Derived(Derived::Margin(m))),
                ],
            );
            let a_max = match (e.spec_scalar_limit(spec_payload_key(h.mode)), e.spec_scalar_limit(
                "a_cartesian_max"@,
            )) {
                (Some(pl), Some(c)) => if spec_parses(pl@) && spec_parses(c@) {
                    Some(
                        QuantityExpr::CarryAccel {
                            weight: h.weight,
                            mode: h.mode,
                            payload: pl,
                            ceiling: c,
                            disturbance: d,
                            margin: m,
                        },
                    )
                } else {
                    env.motion_bounds.a_max
                },
                _ => env.motion_bounds.a_max,
            };
            EnvelopeView {
                force_profile: Some(fp),
                motion_bounds: MotionBounds { a_max, ..env.motion_bounds },
                ..env
            }
        },
        None => env,
    }
}

/// `transport.carry`: a transport that rejects disturbance.
pub open spec fn spec_lower_transport_carry(p: TransportCarry, e: Embodiment, ctx: GraspContext) -> ActionView {
    ActionView {
        target_frame: e.spec_grasp_frame(),
        target_pose: spec_carry_pose(p.motion),
        force_budget: None,
        timing: spec_timing(TimingMode::TimeScalable),
        tactile_target: None,
        monitors: seq![],
        safety_envelope: spec_carry_env(p, e, ctx),
        grasp_stability: None,
    }
}

fn carry_pose(motion: &YamlValue) -> (r: PoseExpr)
    ensures
        r@ == spec_carry_pose(*motion),
{
    match get(motion, "to_pose") {
        Some(tp) => {
            let obj = match tp {
                YamlValue::Mapping(_) | YamlValue::Tagged(_, _) => yaml_converts(tp),
                _ => false,
            };
            if obj {
                frame_relative(tp)
            } else {
                PoseExpr::FrameRelative { frame: "task".to_owned(), offset: yaml_json(motion) }
            }
        },
        None => PoseExpr::FrameRelative { frame: "task".to_owned(), offset: yaml_json(motion) },
    }
}

/// Lower `transport.carry`: the `{to_pose}` motion as a frame-relative target;
/// with an object held, the continuity floor, the disturbance budget (its
/// magnitude in newtons, `0 N` when absent or `auto`) and the stability margin
/// (explicit, else the descriptor default) in the force profile, and the
/// acceleration cap tightened to the carry limit, which reserves margin for the
/// disturbance.
pub fn lower_transport_carry(p: &TransportCarry, e: &Embodiment, ctx: &GraspContext) -> (r:
    CanonicalAction)
    ensures
        r@ == spec_lower_transport_carry(*p, *e, *ctx),
{
    let mut env = base_envelope(e);
    if let Some(h) = &ctx.held {
        let d = match &p.disturbance_budget {
            Some(DisturbanceArg::Force(q)) => if q.parses() {
                Some(q.copy())
            } else {
                None
            },
            _ => None,
        };
        let m = match &p.stability_margin {
            Some(StabilityMarginArg::Ratio(x)) => MarginExpr::Explicit(*x),
            _ => match e.ratio_limit("stability_margin") {
                Some(n) => MarginExpr::Limit(n),
                None => MarginExpr::Zero,
            },
        };
        let mut fp: Vec<(String, JsonValue)> = Vec::new();
        assert(jv_entries(fp@) =~= Seq::<(Seq<char>, JView)>::empty());
        obj_push(&mut fp, "min_holding_force", JsonValue::Derived(Derived::Quantity(holding_floor(h))));
        obj_push(
            &mut fp,
            "disturbance_budget",
            JsonValue::Derived(
                Derived::Quantity(QuantityExpr::DisturbanceNewtons { disturbance: copy_opt(&d) }),
            ),
        );
        let m2 = match &m {
            MarginExpr::Explicit(x) => MarginExpr::Explicit(*x),
            MarginExpr::Limit(n) => MarginExpr::Limit(*n),
            MarginExpr::Zero => MarginExpr::Zero,
        };
        obj_push(&mut fp, "stability_margin", JsonValue::Derived(Derived::Margin(m2)));
        assert(jv_entries(fp@) =~= seq![
            ("min_holding_force"@, JView::Derived(Derived::Quantity(spec_floor(*h)))),
            ("disturbance_budget"@, JView::Derived(
                Derived::Quantity(QuantityExpr::DisturbanceNewtons { disturbance: d }),
            )),
            ("stability_margin"@, JView::Derived(Derived::Margin(m))),
        ]);
        env.force_profile = Some(JsonValue::Object(fp));
        let payload = e.scalar_limit(h.mode.payload_key());
        let ceiling = e.scalar_limit("a_cartesian_max");
        if let (Some(pl), Some(c)) = (payload, ceiling) {
            if pl.parses() && c.parses() {
                env.motion_bounds.a_max = Some(
                    QuantityExpr::CarryAccel {
                        weight: h.weight.copy(),
                        mode: h.mode,
                        payload: pl.copy(),
                        ceiling: c.copy(),
                        disturbance: d,
                        margin: m,
                    },
                );
            }
        }
    }
    CanonicalAction {
        target_frame: e.grasp_frame().to_owned(),
        target_pose: carry_pose(&p.motion),
        force_budget: None,
        timing: timing(TimingMode::TimeScalable),
        tactile_target: None,
        monitors: no_monitors(),
        safety_envelope: env,
        grasp_stability: None,
    }
}

/// The name of a principal axis.
pub open spec fn spec_axis_name(a: Axis) -> Seq<char> {
    match a {
        Axis::X => "x"@,
        Axis::Y => "y"@,
        Axis::Z => "z"@,
    }
}

/// The axes an alignment constrains: `all` is `x, y, z`.
pub open spec fn spec_axes(a: Axes) -> Seq<Seq<char>> {
    match a {
        Axes::All(_) => seq!["x"@, "y"@, "z"@],
        Axes::Listed(v) => v@.map_values(|x: Axis| spec_axis_name(x)),
    }
}

fn axis_name(a: Axis) -> (r: &'static str)
    ensures
        r@ == spec_axis_name(a),
{
    match a {
        Axis::X => "x",
        Axis::Y => "y",
        Axis::Z => "z",
    }
}

fn axes_names(a: &Axes) -> (r: Vec<String>)
    ensures
        r@.map_values(|s: String| s@) == spec_axes(*a),
{
    let mut out: Vec<String> = Vec::new();
    match a {
        Axes::All(_) => {
            out.push("x".to_owned());
            out.push("y".to_owned());
            out.push("z".to_owned());
            assert(out@.map_values(|s: String| s@) =~= seq!["x"@, "y"@, "z"@]);
        },
        Axes::Listed(v) => {
            let mut i: usize = 0;
            while i < v.len()
                invariant
                    0 <= i <= v@.len(),
                    out@.len() == i,
                    forall|j: int| 0 <= j < i ==> #[trigger] out@[j]@ == spec_axis_name(v@[j]),
                decreases v@.len() - i,
            {
                out.push(axis_name(v[i]).to_owned());
                i = i + 1;
            }
            assert(out@.map_values(|s: String| s@) =~= v@.map_values(|x: Axis| spec_axis_name(x)));
        },
    }
    out
}

/// `reach.align`: orientation-only, residual the minimum geodesic rotation.
pub open spec fn spec_lower_reach_align(p: ReachAlign, e: Embodiment) -> ActionView {
    ActionView {
        target_frame: e.spec_control_frame(),
        target_pose: PoseView::OrientationAlign(
            p.target_frame@,
            spec_axes(p.axes),
            "min_geodesic_rotation"@,
        ),
        force_budget: None,
        timing: spec_timing(TimingMode::Strict),
        tactile_target: None,
        monitors: seq![],
        safety_envelope: spec_base_envelope(e),
        grasp_stability: None,
    }
}

/// Lower `reach.align`: bring the listed axes (`all` = `x, y, z`) of the control
/// frame parallel to `target_frame`, the residual being the minimum geodesic rotation.
pub fn lower_reach_align(p: &ReachAlign, e: &Embodiment) -> (r: CanonicalAction)
    ensures
        r@ == spec_lower_reach_align(*p, *e),
{
    CanonicalAction {
        target_frame: e.control_frame().to_owned(),
        target_pose: PoseExpr::OrientationAlign {
            align: AlignSpec {
                target_frame: p.target_frame.clone(),
                axes: axes_names(&p.axes),
                residual: "min_geodesic_rotation".to_owned(),
            },
        },
        force_budget: None,
        timing: timing(TimingMode::Strict),
        tactile_target: None,
        monitors: no_monitors(),
        safety_envelope: base_envelope(e),
        grasp_stability: None,
    }
}

/// The standoff offset `{along: outward_normal, distance}` from a surface.
pub open spec fn spec_standoff_offset(standoff: Quantity) -> JView {
    JView::Obj(
        seq![("along"@, JView::Str("outward_normal"@)), ("distance"@, JView::Str(standoff@))],
    )
}

fn standoff_offset(standoff: &Quantity) -> (r: JsonValue)
    ensures
        crate::json::jv(r) == spec_standoff_offset(*standoff),
{
    let mut o: Vec<(String, JsonValue)> = Vec::new();
    assert(jv_entries(o@) =~= Seq::<(Seq<char>, JView)>::empty());
    obj_push(&mut o, "along", jstr("outward_normal"));
    obj_push(&mut o, "distance", JsonValue::String(standoff.0.clone()));
    assert(jv_entries(o@) =~= seq![
        ("along"@, JView::Str("outward_normal"@)),
        ("distance"@, JView::Str(standoff@)),
    ]);
    JsonValue::Object(o)
}

/// The settling time of a hover that opts into the settling contract: an
/// explicit (string) duration other than `auto`.
pub open spec fn spec_settling(p: ReachHover) -> Option<Seq<char>> {
    match p.settling_time {
        Some(v) => match yaml_str(v) {
            Some(s) => if s != "auto"@ {
                Some(s)
            } else {
                None
            },
            None => None,
        },
        None => None,
    }
}

/// The station-keeping contract of a hover: the station tolerance (default
/// `2 mm`) and the settling time, when the hover opts in.
pub open spec fn spec_station_keeping(p: ReachHover) -> Option<JView> {
    match spec_settling(p) {
        Some(s) => Some(
            JView::Obj(
                seq![
                    ("station_tolerance"@, JView::Str(
                        match p.station_tolerance {
                            Some(q) => q@,
                            None => "2 mm"@,
                        },
                    )),
                    ("settling_time"@, JView::Str(s)),
                ],
            ),
        ),
        None => None,
    }
}

/// `reach.hover`: station-keeping at a standoff over the target.
pub open spec fn spec_lower_reach_hover(p: ReachHover, e: Embodiment) -> ActionView {
    ActionView {
        target_frame: e.spec_control_frame(),
        target_pose: PoseView::FrameRelative(p.target@, spec_standoff_offset(p.standoff)),
        force_budget: None,
        timing: spec_timing(TimingMode::Strict),
        tactile_target: None,
        monitors: seq![],
        safety_envelope: EnvelopeView {
            station_keeping: spec_station_keeping(p),
            ..spec_base_envelope(e)
        },
        grasp_stability: None,
    }
}

/// Lower `reach.hover`: the standoff setpoint over `target`; an explicit
/// settling time adds the station-keeping contract (tolerance and settling time).
pub fn lower_reach_hover(p: &ReachHover, e: &Embodiment) -> (r: CanonicalAction)
    ensures
        r@ == spec_lower_reach_hover(*p, *e),
{
    let mut env = base_envelope(e);
    proof {
        reveal_strlit("auto");
    }
    let settling: Option<&String> = match &p.settling_time {
        Some(v) => match as_str(v) {
            Some(s) => if !str_eq(s.as_str(), "auto") {
                Some(s)
            } else {
                None
            },
            None => None,
        },
        None => None,
    };
    if let Some(s) = settling {
        let tol = match &p.station_tolerance {
            Some(q) => q.0.clone(),
            None => "2 mm".to_owned(),
        };
        let mut o: Vec<(String, JsonValue)> = Vec::new();
        assert(jv_entries(o@) =~= Seq::<(Seq<char>, JView)>::empty());
        obj_push(&mut o, "station_tolerance", JsonValue::String(tol));
        obj_push(&mut o, "settling_time", JsonValue::String(s.clone()));
        assert(jv_entries(o@) =~= spec_station_keeping(*p)->0->Obj_0);
        env.station_keeping = Some(JsonValue::Object(o));
    }
    CanonicalAction {
        target_frame: e.control_frame().to_owned(),
        target_pose: PoseExpr::FrameRelative {
            frame: p.target.clone(),
            offset: standoff_offset(&p.standoff),
        },
        force_budget: None,
        timing: timing(TimingMode::Strict),
        tactile_target: None,
        monitors: no_monitors(),
        safety_envelope: env,
        grasp_stability: None,
    }
}

/// `reach.to_pose`: free-space motion of the control frame to a target pose.
pub open spec fn spec_lower_reach_to_pose(p: ReachToPose, e: Embodiment) -> ActionView {
    ActionView {
        target_frame: e.spec_control_frame(),
        target_pose: spec_frame_relative(p.target_pose),
        force_budget: None,
        timing: spec_timing(TimingMode::Strict),
        tactile_target: None,
        monitors: seq![],
        safety_envelope: spec_base_envelope(e),
        grasp_stability: None,
    }
}

/// Lower `reach.to_pose`.
pub fn lower_reach_to_pose(p: &ReachToPose, e: &Embodiment) -> (r: CanonicalAction)
    ensures
        r@ == spec_lower_reach_to_pose(*p, *e),
{
    CanonicalAction {
        target_frame: e.control_frame().to_owned(),
        target_pose: frame_relative(&p.target_pose),
        force_budget: None,
        timing: timing(TimingMode::Strict),
        tactile_target: None,
        monitors: no_monitors(),
        safety_envelope: base_envelope(e),
        grasp_stability: None,
    }
}

/// `reach.approach`: a terminal standoff pose off the target surface.
pub open spec fn spec_lower_reach_approach(p: ReachApproach, e: Embodiment) -> ActionView {
    ActionView {
        target_frame: e.spec_control_frame(),
        target_pose: PoseView::FrameRelative(p.target@, spec_standoff_offset(p.standoff)),
        force_budget: None,
        timing: spec_timing(TimingMode::Strict),
        tactile_target: None,
        monitors: seq![],
        safety_envelope: spec_base_envelope(e),
        grasp_stability: None,
    }
}

/// Lower `reach.approach`.
pub fn lower_reach_approach(p: &ReachApproach, e: &Embodiment) -> (r: CanonicalAction)
    ensures
        r@ == spec_lower_reach_approach(*p, *e),
{
    CanonicalAction {
        target_frame: e.control_frame().to_owned(),
        target_pose: PoseExpr::FrameRelative {
            frame: p.target.clone(),
            offset: standoff_offset(&p.standoff),
        },
        force_budget: None,
        timing: timing(TimingMode::Strict),
        tactile_target: None,
        monitors: no_monitors(),
        safety_envelope: base_envelope(e),
        grasp_stability: None,
    }
}

/// `reach.retract`: an axis-relative withdraw.
pub open spec fn spec_lower_reach_retract(p: ReachRetract, e: Embodiment) -> ActionView {
    ActionView {
        target_frame: e.spec_control_frame(),
        target_pose: PoseView::AxisRelative(JView::Yaml(yv(p.direction)), p.distance@),
        force_budget: None,
        timing: spec_timing(TimingMode::Strict),
        tactile_target: None,
        monitors: seq![],
        safety_envelope: spec_base_envelope(e),
        grasp_stability: None,
    }
}

/// Lower `reach.retract`.
pub fn lower_reach_retract(p: &ReachRetract, e: &Embodiment) -> (r: CanonicalAction)
    ensures
        r@ == spec_lower_reach_retract(*p, *e),
{
    CanonicalAction {
        target_frame: e.control_frame().to_owned(),
        target_pose: PoseExpr::AxisRelative {
            direction: yaml_json(&p.direction),
            distance: p.distance.copy(),
        },
        force_budget: None,
        timing: timing(TimingMode::Strict),
        tactile_target: None,
        monitors: no_monitors(),
        safety_envelope: base_envelope(e),
        grasp_stability: None,
    }
}

/// The sensor frame of a scan: the named one, else the embodiment's.
pub open spec fn spec_scan_frame(p: ReachScan, e: Embodiment) -> Seq<char> {
    match p.sensor_frame {
        Some(f) => f@,
        None => e.spec_sensor_frame(),
    }
}

/// The field of view of a sensor frame, when declared.
pub open spec fn spec_fov(e: Embodiment, frame: Seq<char>) -> Option<(Quantity, Quantity)> {
    match keyed_get(e.sensors@, frame) {
        Some(s) => match s.fov {
            Some(f) => Some((f.h_angle, f.v_angle)),
            None => None,
        },
        None => None,
    }
}

/// The pattern of a scan (default raster).
pub open spec fn spec_pattern(p: ReachScan) -> ScanPattern {
    match p.pattern {
        Some(x) => x,
        None => ScanPattern::Raster,
    }
}

/// The name of a sweep pattern.
pub open spec fn spec_pattern_name(x: ScanPattern) -> Seq<char> {
    match x {
        ScanPattern::Raster => "raster"@,
        ScanPattern::Waypoints => "waypoints"@,
        ScanPattern::Spiral => "spiral"@,
        ScanPattern::Arc => "arc"@,
    }
}

/// The overlap of a scan (default 0).
pub open spec fn spec_overlap(p: ReachScan) -> F64Bits {
    match p.coverage_overlap {
        Some(b) => b,
        None => F64Bits(0),
    }
}

/// The stations of a scan: a waypoints region gives its poses; a surface gives
/// a spiral when the pattern is `spiral` and a raster otherwise; an arc region
/// gives the arc about its pivot.
pub open spec fn spec_sweep(p: ReachScan, e: Embodiment) -> SweepView {
    let fov = spec_fov(e, spec_scan_frame(p, e));
    match p.region {
        ScanRegion::Waypoints { poses, .. } => SweepView::Waypoints(poses@),
        ScanRegion::Surface { size_u, size_v, .. } => {
            let s = SurfaceSweep {
                size_u,
                size_v,
                standoff: p.standoff,
                overlap: spec_overlap(p),
                fov,
            };
            if spec_pattern(p) == ScanPattern::Spiral {
                SweepView::Spiral(s)
            } else {
                SweepView::Raster(s)
            }
        },
        ScanRegion::Arc { pivot, arc_start, arc_extent, .. } => SweepView::Arc(
            pivot,
            arc_start,
            arc_extent,
            p.standoff,
            spec_overlap(p),
            fov,
        ),
    }
}

/// `reach.scan`: one action sweeping the generated stations.
pub open spec fn spec_lower_reach_scan(p: ReachScan, e: Embodiment) -> ActionView {
    ActionView {
        target_frame: spec_scan_frame(p, e),
        target_pose: PoseView::SweepPath(spec_pattern_name(spec_pattern(p)), spec_sweep(p, e)),
        force_budget: None,
        timing: spec_timing(TimingMode::Strict),
        tactile_target: None,
        monitors: seq![],
        safety_envelope: spec_base_envelope(e),
        grasp_stability: None,
    }
}

fn copy_poses(v: &Vec<WaypointPose>) -> (r: Vec<WaypointPose>)
    ensures
        r@ == v@,
{
    let mut out: Vec<WaypointPose> = Vec::new();
    let mut i: usize = 0;
    while i < v.len()
        invariant
            0 <= i <= v@.len(),
            out@ =~= v@.take(i as int),
        decreases v@.len() - i,
    {
        out.push(v[i]);
        assert(v@.take(i + 1) =~= v@.take(i as int).push(v@[i as int]));
        i = i + 1;
    }
    assert(v@.take(i as int) =~= v@);
    out
}

fn pattern_name(x: ScanPattern) -> (r: &'static str)
    ensures
        r@ == spec_pattern_name(x),
{
    match x {
        ScanPattern::Raster => "raster",
        ScanPattern::Waypoints => "waypoints",
        ScanPattern::Spiral => "spiral",
        ScanPattern::Arc => "arc",
    }
}

/// Lower `reach.scan`: the region compiled to its sweep generator, swept by the
/// sensor frame (the named one, else the embodiment's), with that sensor's
/// field of view.
pub fn lower_reach_scan(p: &ReachScan, e: &Embodiment) -> (r: CanonicalAction)
    ensures
        r@ == spec_lower_reach_scan(*p, *e),
{
    let sensor_frame = match &p.sensor_frame {
        Some(f) => f.clone(),
        None => e.sensor_frame().to_owned(),
    };
    let pattern = match p.pattern {
        Some(x) => x,
        None => ScanPattern::Raster,
    };
    let overlap = match p.coverage_overlap {
        Some(b) => b,
        None => F64Bits(0),
    };
    let fov = match e.sensor_fov(sensor_frame.as_str()) {
        Some(f) => Some((f.h_angle.copy(), f.v_angle.copy())),
        None => None,
    };
    let poses = match &p.region {
        ScanRegion::Waypoints { poses, .. } => SweepExpr::Waypoints(copy_poses(poses)),
        ScanRegion::Surface { size_u, size_v, .. } => {
            let s = SurfaceSweep {
                size_u: size_u.copy(),
                size_v: size_v.copy(),
                standoff: p.standoff.copy(),
                overlap,
                fov,
            };
            if matches!(pattern, ScanPattern::Spiral) {
                SweepExpr::Spiral(s)
            } else {
                SweepExpr::Raster(s)
            }
        },
        ScanRegion::Arc { pivot, arc_start, arc_extent, .. } => SweepExpr::Arc {
            pivot: *pivot,
            arc_start: arc_start.copy(),
            arc_extent: arc_extent.copy(),
            standoff: p.standoff.copy(),
            overlap,
            fov,
        },
    };
    CanonicalAction {
        target_frame: sensor_frame,
        target_pose: PoseExpr::SweepPath { pattern: pattern_name(pattern).to_owned(), poses },
        force_budget: None,
        timing: timing(TimingMode::Strict),
        tactile_target: None,
        monitors: no_monitors(),
        safety_envelope: base_envelope(e),
        grasp_stability: None,
    }
}

/// A lift with no declared up direction moves the grasp frame against gravity
/// by its height; a lowering with no declared down direction moves the same
/// frame along gravity. The two default directions are opposite.
pub proof fn lemma_lift_opposes_lower(
    l: TransportLift,
    d: TransportLower,
    e: Embodiment,
    ctx: GraspContext,
)
    requires
        l.up_direction is None,
        d.down_direction is None,
    ensures
        spec_lower_transport_lift(l, e, ctx).target_pose == PoseView::AxisRelative(
            JView::Str("-"@ + "gravity"@),
            l.height@,
        ),
        spec_lower_transport_lower(d, e, ctx).target_pose == PoseView::AxisRelative(
            JView::Str("gravity"@),
            spec_height_or_zero(d.height),
        ),
        spec_lower_transport_lift(l, e, ctx).target_frame == spec_lower_transport_lower(
            d,
            e,
            ctx,
        ).target_frame,
{
    reveal_strlit("-gravity");
    reveal_strlit("-");
    reveal_strlit("gravity");
    assert("-gravity"@ =~= "-"@ + "gravity"@);
}

} // verus!
