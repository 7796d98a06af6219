//! The canonical action: the embodiment-agnostic action tuple a driver executes
//! (target frame, target pose, force budget, timing, tactile confirmation,
//! monitors, safety envelope, grasp stability), and the `execute` message that
//! carries it under a deterministic action id.

use vstd::prelude::*;
use crate::json::{jv, JView, JsonValue};
use crate::quantity::{F64Bits, Quantity, QuantityExpr};
use crate::region::WaypointPose;
use crate::stability::{Closure, DofSecuring, StabilityFlags, StabilityMetadata};

verus! {

/// A canonical action. Fields are emitted in declaration order.
#[derive(Debug)]
pub struct CanonicalAction {
    /// The controlled frame this action moves.
    pub target_frame: String,
    /// Goal pose of the controlled frame.
    pub target_pose: PoseExpr,
    /// Driven-force ceiling; absent for pure motion.
    pub force_budget: Option<QuantityExpr>,
    /// Nominal duration, timing mode and the rest-at-goal flag.
    pub timing: TimingHints,
    /// Contact-confirmation criterion; absent when no contact is intended.
    pub tactile_target: Option<TactileTargetOut>,
    /// Stop conditions / feature events the action watches.
    pub monitors: Vec<Monitor>,
    /// The safety constraints in force throughout.
    pub safety_envelope: Envelope,
    /// The stability class of the grasp this action establishes, if any.
    pub grasp_stability: Option<StabilityMetadata>,
}

/// A target-pose expression; runtime-deferred poses are symbolic.
#[derive(Debug)]
pub enum PoseExpr {
    /// A let-bound sensed pose or a named target.
    Ref {
        /// The let-binding or target name.
        reference: String,
    },
    /// A frame-relative offset pose.
    FrameRelative {
        /// The reference frame.
        frame: String,
        /// The offset expression (carried from the skill).
        offset: JsonValue,
    },
    /// An orientation-only alignment: bring `axes` parallel to the target frame,
    /// the residual being the minimum geodesic rotation.
    OrientationAlign {
        /// The alignment specification.
        align: AlignSpec,
    },
    /// An embodiment-axis-relative motion.
    AxisRelative {
        /// The direction.
        direction: JsonValue,
        /// The distance.
        distance: Quantity,
    },
    /// A sweep through a generated set of stations.
    SweepPath {
        /// The sweep pattern's name.
        pattern: String,
        /// The stations, as the generator and its inputs.
        poses: SweepExpr,
    },
    /// A fully resolved pose (reserved).
    Concrete {
        /// Position in R^3 (metres).
        position: [F64Bits; 3],
        /// Orientation as a unit quaternion `[x, y, z, w]`.
        orientation: [F64Bits; 4],
    },
}

/// The inputs of a planar-surface sweep generator.
#[derive(Debug)]
pub struct SurfaceSweep {
    /// Extent along u.
    pub size_u: Quantity,
    /// Extent along v.
    pub size_v: Quantity,
    /// Sensor-to-surface distance.
    pub standoff: Quantity,
    /// Overlap ratio between passes.
    pub overlap: F64Bits,
    /// The sensor's field of view `(h, v)`, when declared.
    pub fov: Option<(Quantity, Quantity)>,
}

/// The stations of a sweep, described by the generator that produces them.
#[derive(Debug)]
pub enum SweepExpr {
    /// The caller's poses verbatim.
    Waypoints(Vec<WaypointPose>),
    /// A serpentine raster over a surface.
    Raster(SurfaceSweep),
    /// An Archimedean spiral over a surface.
    Spiral(SurfaceSweep),
    /// An arc at radius `standoff` about `pivot`.
    Arc {
        /// The pivot point (metres).
        pivot: [F64Bits; 3],
        /// The start angle.
        arc_start: Quantity,
        /// The angular extent.
        arc_extent: Quantity,
        /// The radius.
        standoff: Quantity,
        /// Overlap ratio between stations.
        overlap: F64Bits,
        /// The sensor's field of view `(h, v)`, when declared.
        fov: Option<(Quantity, Quantity)>,
    },
}

/// An orientation-only alignment directive.
#[derive(Debug)]
pub struct AlignSpec {
    /// The reference orientation frame.
    pub target_frame: String,
    /// The controlled-frame axes constrained.
    pub axes: Vec<String>,
    /// The residual-orientation rule (`min_geodesic_rotation`).
    pub residual: String,
}

/// Timing hints.
#[derive(Debug, Clone, PartialEq)]
pub struct TimingHints {
    /// Nominal duration; absent when planner-derived.
    pub nominal_duration: Option<Quantity>,
    /// Strict vs. time-scalable execution.
    pub timing_mode: TimingMode,
    /// Rest at the goal (always `true`).
    pub stop_at_goal: bool,
}

/// Execution timing mode.
#[derive(Debug, Clone, Copy, PartialEq, Eq)]
pub enum TimingMode {
    /// Bit-identical realized timing (kinematic).
    Strict,
    /// The realized timing may be re-timed (contact-bearing).
    TimeScalable,
}

/// A stop condition / force event the action watches.
#[derive(Debug)]
pub struct Monitor {
    /// The stop condition (carried from the skill).
    pub stop_condition: JsonValue,
}

/// The safety envelope, bounds clamped to the embodiment's limits.
#[derive(Debug)]
pub struct Envelope {
    /// Kinematic caps.
    pub motion_bounds: MotionBounds,
    /// The force / torque trajectory bound.
    pub force_profile: Option<JsonValue>,
    /// The station-keeping contract of a hover with an explicit settling time.
    pub station_keeping: Option<JsonValue>,
    /// Minimum clearance to the collision model.
    pub clearance: Option<Quantity>,
    /// The requested compliance mode.
    pub compliance: Option<String>,
    /// Max time to reach a safe state on a breach.
    pub stop_time: Option<Quantity>,
}

/// Kinematic motion bounds.
#[derive(Debug, Clone, PartialEq)]
pub struct MotionBounds {
    /// Max linear velocity.
    pub v_max: Option<Quantity>,
    /// Max linear acceleration (possibly tightened for a held object).
    pub a_max: Option<QuantityExpr>,
    /// Max angular velocity.
    pub w_max: Option<Quantity>,
}

/// The realized tactile-confirmation criterion: `auto` (manifold tier), a proxy
/// degradation, or an inline target carried through.
#[derive(Debug)]
pub enum TactileTargetOut {
    /// The `auto` criterion was kept (tactile embodiment).
    Auto,
    /// Proxy-tier degradation on a no-tactile embodiment.
    Proxy {
        /// The proxy criterion.
        proxy: ProxySpec,
    },
    /// An explicit inline target carried through.
    Explicit(JsonValue),
}

/// A force/position-proxy confirmation descriptor.
#[derive(Debug)]
pub struct ProxySpec {
    /// The fidelity tier (`proxy`).
    pub tier: String,
    /// The proxy criterion identifier.
    pub criterion: String,
}

/// An `execute` action goal.
#[derive(Debug)]
pub struct ExecuteGoal {
    /// The message discriminant (`execute`).
    pub message: String,
    /// The action correlation id.
    pub action_id: String,
    /// The canonical action delivered.
    pub canonical_action: CanonicalAction,
}

/// The view of a pose expression.
pub enum PoseView {
    /// A named target.
    Ref(Seq<char>),
    /// A frame and an offset.
    FrameRelative(Seq<char>, JView),
    /// An alignment: target frame, axes, residual rule.
    OrientationAlign(Seq<char>, Seq<Seq<char>>, Seq<char>),
    /// A direction and a distance.
    AxisRelative(JView, Seq<char>),
    /// A pattern name and its stations.
    SweepPath(Seq<char>, SweepView),
    /// A resolved pose.
    Concrete([F64Bits; 3], [F64Bits; 4]),
}

/// The view of a sweep's stations.
pub enum SweepView {
    /// The caller's poses.
    Waypoints(Seq<WaypointPose>),
    /// A raster.
    Raster(SurfaceSweep),
    /// A spiral.
    Spiral(SurfaceSweep),
    /// An arc: pivot, start, extent, radius, overlap, field of view.
    Arc([F64Bits; 3], Quantity, Quantity, Quantity, F64Bits, Option<(Quantity, Quantity)>),
}

/// The view of a tactile criterion.
pub enum TactileView {
    /// `auto`.
    Auto,
    /// A proxy: tier and criterion.
    Proxy(Seq<char>, Seq<char>),
    /// An inline target.
    Explicit(JView),
}

/// The view of a safety envelope.
pub struct EnvelopeView {
    /// Kinematic caps.
    pub motion_bounds: MotionBounds,
    /// The force / torque trajectory bound.
    pub force_profile: Option<JView>,
    /// The station-keeping contract.
    pub station_keeping: Option<JView>,
    /// Minimum clearance.
    pub clearance: Option<Quantity>,
    /// The compliance mode.
    pub compliance: Option<Seq<char>>,
    /// Max time to reach a safe state.
    pub stop_time: Option<Quantity>,
}

/// The view of a grasp stability class.
pub struct StabilityView {
    /// The closure type.
    pub closure: Closure,
    /// Per-DOF securing.
    pub secured_dof: Seq<(Seq<char>, DofSecuring)>,
    /// Stable directions (`None` = omnidirectional).
    pub stable_directions: Option<Seq<Seq<char>>>,
    /// Static flags.
    pub flags: StabilityFlags,
    /// A caged object's residual mobility.
    pub residual_mobility: Option<Quantity>,
    /// The grip floor.
    pub min_holding_force: Option<QuantityExpr>,
}

/// The view of a canonical action.
pub struct ActionView {
    /// The controlled frame.
    pub target_frame: Seq<char>,
    /// The goal pose.
    pub target_pose: PoseView,
    /// The driven-force ceiling.
    pub force_budget: Option<QuantityExpr>,
    /// Timing hints.
    pub timing: TimingHints,
    /// The tactile criterion.
    pub tactile_target: Option<TactileView>,
    /// The monitors' stop conditions.
    pub monitors: Seq<JView>,
    /// The safety envelope.
    pub safety_envelope: EnvelopeView,
    /// The grasp stability class.
    pub grasp_stability: Option<StabilityView>,
}

/// The stop conditions of a list of monitors.
pub open spec fn monitors_view(ms: Seq<Monitor>) -> Seq<JView> {
    ms.map_values(|m: Monitor| jv(m.stop_condition))
}

/// No monitors.
pub fn no_monitors() -> (r: Vec<Monitor>)
    ensures
        monitors_view(r@) == Seq::<JView>::empty(),
{
    let r: Vec<Monitor> = Vec::new();
    assert(monitors_view(r@) =~= Seq::<JView>::empty());
    r
}

/// A single monitor watching `stop_condition`.
pub fn one_monitor(stop_condition: JsonValue) -> (r: Vec<Monitor>)
    ensures
        monitors_view(r@) == seq![jv(stop_condition)],
{
    let ghost v = jv(stop_condition);
    let mut r: Vec<Monitor> = Vec::new();
    r.push(Monitor { stop_condition });
    assert(monitors_view(r@) =~= seq![v]);
    r
}

/// The view of an optional JSON value.
pub open spec fn jv_opt(v: Option<JsonValue>) -> Option<JView> {
    match v {
        Some(x) => Some(jv(x)),
        None => None,
    }
}

/// The view of an optional string.
pub open spec fn str_opt(v: Option<String>) -> Option<Seq<char>> {
    match v {
        Some(x) => Some(x@),
        None => None,
    }
}

impl View for SweepExpr {
    type V = SweepView;

    open spec fn view(&self) -> SweepView {
        match *self {
            SweepExpr::Waypoints(v) => SweepView::Waypoints(v@),
            SweepExpr::Raster(s) => SweepView::Raster(s),
            SweepExpr::Spiral(s) => SweepView::Spiral(s),
            SweepExpr::Arc { pivot, arc_start, arc_extent, standoff, overlap, fov } => SweepView::Arc(
                pivot,
                arc_start,
                arc_extent,
                standoff,
                overlap,
                fov,
            ),
        }
    }
}

impl View for PoseExpr {
    type V = PoseView;

    open spec fn view(&self) -> PoseView {
        match *self {
            PoseExpr::Ref { reference } => PoseView::Ref(reference@),
            PoseExpr::FrameRelative { frame, offset } => PoseView::FrameRelative(frame@, jv(offset)),
            PoseExpr::OrientationAlign { align } => PoseView::OrientationAlign(
                align.target_frame@,
                align.axes@.map_values(|a: String| a@),
                align.residual@,
            ),
            PoseExpr::AxisRelative { direction, distance } => PoseView::AxisRelative(
                jv(direction),
                distance@,
            ),
            PoseExpr::SweepPath { pattern, poses } => PoseView::SweepPath(pattern@, poses@),
            PoseExpr::Concrete { position, orientation } => PoseView::Concrete(position, orientation),
        }
    }
}

impl View for TactileTargetOut {
    type V = TactileView;

    open spec fn view(&self) -> TactileView {
        match *self {
            TactileTargetOut::Auto => TactileView::Auto,
            TactileTargetOut::Proxy { proxy } => TactileView::Proxy(proxy.tier@, proxy.criterion@),
            TactileTargetOut::Explicit(v) => TactileView::Explicit(jv(v)),
        }
    }
}

impl View for Envelope {
    type V = EnvelopeView;

    open spec fn view(&self) -> EnvelopeView {
        EnvelopeView {
            motion_bounds: self.motion_bounds,
            force_profile: jv_opt(self.force_profile),
            station_keeping: jv_opt(self.station_keeping),
            clearance: self.clearance,
            compliance: str_opt(self.compliance),
            stop_time: self.stop_time,
        }
    }
}

impl View for StabilityMetadata {
    type V = StabilityView;

    open spec fn view(&self) -> StabilityView {
        StabilityView {
            closure: self.closure,
            secured_dof: self.secured_dof.view_entries(),
            stable_directions: self.stable_directions.names(),
            flags: self.flags,
            residual_mobility: self.residual_mobility,
            min_holding_force: self.min_holding_force,
        }
    }
}

impl View for CanonicalAction {
    type V = ActionView;

    open spec fn view(&self) -> ActionView {
        ActionView {
            target_frame: self.target_frame@,
            target_pose: self.target_pose@,
            force_budget: self.force_budget,
            timing: self.timing,
            tactile_target: match self.tactile_target {
                Some(t) => Some(t@),
                None => None,
            },
            monitors: monitors_view(self.monitors@),
            safety_envelope: self.safety_envelope@,
            grasp_stability: match self.grasp_stability {
                Some(g) => Some(g@),
                None => None,
            },
        }
    }
}

/// The decimal digits of `n`.
pub open spec fn decimal(n: nat) -> Seq<char>
    decreases n,
{
    if n < 10 {
        seq![digit_char(n)]
    } else {
        decimal(n / 10).push(digit_char(n % 10))
    }
}

/// The ASCII digit for `d < 10`.
pub open spec fn digit_char(d: nat) -> char {
    ('0' as nat + d) as char
}

/// `s` left-padded with zeros to at least `width` characters.
pub open spec fn zero_pad(s: Seq<char>, width: nat) -> Seq<char> {
    if s.len() >= width {
        s
    } else {
        Seq::new((width - s.len()) as nat, |_i: int| '0') + s
    }
}

/// The action id `{skill}/{embodiment_id}/{NNNN}-{suffix}` of the action at
/// zero-based position `i`: the one-based index, zero-padded to four digits.
pub open spec fn spec_action_id(skill: Seq<char>, emb: Seq<char>, i: nat, suffix: Seq<char>) -> Seq<
    char,
> {
    skill + "/"@ + emb + "/"@ + zero_pad(decimal(i + 1), 4) + "-"@ + suffix
}

fn digit_text(d: u64) -> (r: &'static str)
    requires
        d < 10,
    ensures
        r@ == seq![digit_char(d as nat)],
{
    proof {
        reveal_strlit("0");
        reveal_strlit("1");
        reveal_strlit("2");
        reveal_strlit("3");
        reveal_strlit("4");
        reveal_strlit("5");
        reveal_strlit("6");
        reveal_strlit("7");
        reveal_strlit("8");
        reveal_strlit("9");
    }
    let r = match d {
        0 => "0",
        1 => "1",
        2 => "2",
        3 => "3",
        4 => "4",
        5 => "5",
        6 => "6",
        7 => "7",
        8 => "8",
        _ => "9",
    };
    assert(r@ =~= seq![digit_char(d as nat)]);
    r
}

/// The decimal text of `n`.
fn decimal_text(n: u64) -> (r: String)
    ensures
        r@ == decimal(n as nat),
    decreases n,
{
    if n < 10 {
        String::from_str(digit_text(n))
    } else {
        let mut s = decimal_text(n / 10);
        s.append(digit_text(n % 10));
        s
    }
}

/// The action id of the action at zero-based position `i`:
/// `{skill}/{embodiment_id}/{NNNN}-{suffix}`.
pub fn action_id(skill: &str, embodiment_id: &str, i: usize, suffix: &str) -> (r: String)
    requires
        i < u64::MAX,
    ensures
        r@ == spec_action_id(skill@, embodiment_id@, i as nat, suffix@),
{
    let digits = decimal_text((i as u64) + 1);
    let ghost d = digits@;
    let mut out = crate::text::join(skill, "/");
    out.append(embodiment_id);
    out.append("/");
    let mut k: usize = digits.unicode_len();
    while k < 4
        invariant
            d.len() <= k <= 4 || (k == d.len() && k > 4),
            out@ == skill@ + "/"@ + embodiment_id@ + "/"@ + Seq::new(
                (k - d.len()) as nat,
                |_i: int| '0',
            ),
        decreases 4 - k,
    {
        out.append("0");
        proof {
            reveal_strlit("0");
            assert(Seq::new((k + 1 - d.len()) as nat, |_i: int| '0') =~= Seq::new(
                (k - d.len()) as nat,
                |_i: int| '0',
            ).push('0'));
        }
        k = k + 1;
    }
    out.append(digits.as_str());
    out.append("-");
    out.append(suffix);
    proof {
        if d.len() >= 4 {
            assert(Seq::new((k - d.len()) as nat, |_i: int| '0') =~= Seq::<char>::empty());
        }
        assert(out@ =~= spec_action_id(skill@, embodiment_id@, i as nat, suffix@));
    }
    out
}

impl ExecuteGoal {
    /// Wrap a canonical action with its correlation id.
    pub fn wrap(action_id: String, canonical_action: CanonicalAction) -> (r: Self)
        ensures
            r.message@ == "execute"@,
            r.action_id == action_id,
            r.canonical_action == canonical_action,
    {
        ExecuteGoal { message: "execute".to_owned(), action_id, canonical_action }
    }
}

} // verus!
